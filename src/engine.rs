//! Evaluation of one expression: the parser and evaluator of the `shunting`
//! crate do the arithmetic, and this module decides what their outcome means.
use vstd::prelude::*;
use vstd::string::{StrSliceExecFns, StringExecFns};
use crate::error::{ErrorView, ExprError};
use crate::text::{has_prefix, same_text, starts_with_text};

verus! {

/// The message with which `shunting`'s parser refuses a text, or `None`
/// where it parses.
pub uninterp spec fn parse_refusal(text: Seq<char>) -> Option<Seq<char>>;

/// What `shunting` made of a text: the decimal text of its value, or the
/// message of the stage that refused it.
pub enum ShuntingOutcome {
    Value(String),
    ParseError(String),
    EvalError(String),
}

/// The outcome as a value or a message, whichever stage gave the message.
pub open spec fn raw_of(o: ShuntingOutcome) -> Result<Seq<char>, Seq<char>> {
    match o {
        ShuntingOutcome::Value(t) => Ok(t@),
        ShuntingOutcome::ParseError(m) => Err(m@),
        ShuntingOutcome::EvalError(m) => Err(m@),
    }
}

/// Relies on `shunting::ShuntingParser::parse_str`, which tokenizes the text
/// and orders it in postfix form or gives a message that depends on the text
/// alone, and on `shunting::MathContext::eval` with a fresh context (the
/// constants `pi` and `e`), whose value is handed back as its standard
/// decimal text. The lexer panics on an imaginary literal, and the evaluator
/// on some arguments of its random distributions: both are left out, and so
/// are calls of `rand`, which draws a random number. Nothing is stated of the
/// value: the precision of the floating-point functions that the evaluator
/// uses is not specified, so it is not even a function of the text.
#[verifier::external_body]
fn run_shunting(text: &str) -> (r: ShuntingOutcome)
    requires
        !imaginary_literal(text@),
        !calls_random(text@),
    ensures
        r is ParseError <==> parse_refusal(text@) is Some,
        r matches ShuntingOutcome::ParseError(m) ==> parse_refusal(text@) == Some(m@),
{
    match shunting::ShuntingParser::parse_str(text) {
        Err(m) => ShuntingOutcome::ParseError(m),
        Ok(expr) => match shunting::MathContext::new().eval(&expr) {
            Ok(v) => ShuntingOutcome::Value(v.to_string()),
            Err(m) => ShuntingOutcome::EvalError(m),
        },
    }
}

/// Whether `c` may start an identifier of the lexer.
pub open spec fn is_ident_start(c: char) -> bool {
    c == '_' || ('a' <= c <= 'z') || ('A' <= c <= 'Z')
}

/// Whether the text calls the function `w`: `w` stands there, not right
/// after a letter or an underscore, and is followed by `(` at once, which is
/// how the lexer reads a function call. (After a digit it counts too: the
/// lexer ends a number there.)
pub open spec fn calls(s: Seq<char>, w: Seq<char>) -> bool {
    exists|i: int|
        0 <= i && i + w.len() < s.len() && #[trigger] s.subrange(i, i + w.len()) == w && s[i + w.len()]
            == '(' && (i == 0 || !is_ident_start(s[i - 1]))
}

/// Whether the text calls one of the evaluator's random functions.
pub open spec fn calls_random(s: Seq<char>) -> bool {
    calls(s, "rand"@) || calls(s, "normal"@) || calls(s, "lognormal"@) || calls(s, "uniform"@)
}

/// Whether a decimal digit is followed by an `i`, which the lexer would read
/// as an imaginary number.
pub open spec fn imaginary_literal(s: Seq<char>) -> bool {
    exists|k: int| 0 < k < s.len() && '0' <= #[trigger] s[k - 1] <= '9' && s[k] == 'i'
}

/// Whether `c` separates tokens.
pub open spec fn is_space(c: char) -> bool {
    c == ' ' || c == '\t' || c == '\n' || c == '\r'
}

/// Whether the text holds nothing but whitespace.
pub open spec fn blank(s: Seq<char>) -> bool {
    forall|i: int| 0 <= i < s.len() ==> is_space(s[i])
}

/// Whether the text holds a division or a remainder operator. This is what
/// tells a division by zero from an overflow once the value is not finite;
/// see `resolved`.
pub open spec fn divides(s: Seq<char>) -> bool {
    exists|i: int| 0 <= i < s.len() && (s[i] == '/' || s[i] == '%')
}

/// Whether a value's text stands for an infinity or for no number at all.
pub open spec fn non_finite(t: Seq<char>) -> bool {
    t == "inf"@ || t == "-inf"@ || t == "NaN"@
}

/// The index at which the word that starts at `i` ends: the first space at
/// or after `i`, or the end of the text.
pub open spec fn word_end(m: Seq<char>, i: int) -> int
    decreases m.len() - i,
{
    if i < 0 || i >= m.len() || m[i] == ' ' {
        i
    } else {
        word_end(m, i + 1)
    }
}

/// The word of `m` that starts right after the prefix `p`.
pub open spec fn word_after(m: Seq<char>, p: Seq<char>) -> Seq<char> {
    m.subrange(p.len() as int, word_end(m, p.len() as int))
}

/// The error that a message of the parser or of the evaluator stands for.
pub open spec fn classified(m: Seq<char>) -> ErrorView {
    if has_prefix(m, "Missing Opening Paren"@) || has_prefix(m, "Missing Closing Paren"@) {
        ErrorView::UnbalancedParens
    } else if has_prefix(m, "Bad token: "@) {
        ErrorView::Lex(m.skip(("Bad token: "@).len() as int))
    } else if has_prefix(m, "Unknown Variable: "@) {
        ErrorView::UnknownSymbol(word_after(m, "Unknown Variable: "@))
    } else if has_prefix(m, "Unknown Function: "@) {
        ErrorView::UnknownSymbol(word_after(m, "Unknown Function: "@))
    } else if has_prefix(m, "Unknown distribution: "@) {
        ErrorView::UnknownSymbol(word_after(m, "Unknown distribution: "@))
    } else if has_prefix(m, "Missing args for function "@) {
        ErrorView::ArityMismatch(word_after(m, "Missing args for function "@))
    } else if has_prefix(m, "Missing operands"@) {
        ErrorView::MissingOperand
    } else if has_prefix(m, "Failed to eval RPN"@) {
        ErrorView::EmptyExpression
    } else {
        ErrorView::UnexpectedToken
    }
}

/// What an evaluation of `input` comes to, given what the evaluator gave:
/// its message is classified, and a value that is not finite is refused.
/// The value alone does not show which operation failed: an infinite or
/// undefined value counts as a division by zero wherever the text holds a
/// division or a remainder, and as an overflow elsewhere. So
/// `1 / 2 * 10 ^ 400` is reported as a division by zero, and a division by
/// zero whose infinity a later operation turns finite (`1 / (1 / 0)`) is not
/// seen at all. A value outside a function's domain (`log(-1)`) is not a
/// number, and is reported in the same way.
pub open spec fn resolved(input: Seq<char>, outcome: Result<Seq<char>, Seq<char>>) -> Result<Seq<char>, ErrorView> {
    match outcome {
        Err(m) => Err(classified(m)),
        Ok(t) => if non_finite(t) {
            if divides(input) {
                Err(ErrorView::DivisionByZero)
            } else {
                Err(ErrorView::NumericOverflow)
            }
        } else {
            Ok(t)
        },
    }
}

/// The word of `m` that starts right after the prefix `p`, which `m` has.
fn word_following(m: &str, p: &str) -> (r: String)
    requires
        has_prefix(m@, p@),
    ensures
        r@ == word_after(m@, p@),
{
    let n = m.unicode_len();
    let start = p.unicode_len();
    let mut k: usize = start;
    while k < n && m.get_char(k) != ' '
        invariant
            n == m@.len(),
            start <= k <= n,
            word_end(m@, start as int) == word_end(m@, k as int),
        decreases n - k,
    {
        k = k + 1;
    }
    String::from_str(m.substring_char(start, k))
}

/// Whether the text holds nothing but whitespace.
pub fn is_blank(s: &str) -> (r: bool)
    ensures
        r == blank(s@),
{
    let n = s.unicode_len();
    let mut i: usize = 0;
    while i < n
        invariant
            n == s@.len(),
            i <= n,
            forall|j: int| 0 <= j < i ==> is_space(s@[j]),
        decreases n - i,
    {
        let c = s.get_char(i);
        if !(c == ' ' || c == '\t' || c == '\n' || c == '\r') {
            return false;
        }
        i = i + 1;
    }
    true
}

/// Whether the text holds a division or a remainder operator.
pub fn has_division(s: &str) -> (r: bool)
    ensures
        r == divides(s@),
{
    let n = s.unicode_len();
    let mut i: usize = 0;
    while i < n
        invariant
            n == s@.len(),
            i <= n,
            forall|j: int| 0 <= j < i ==> s@[j] != '/' && s@[j] != '%',
        decreases n - i,
    {
        let c = s.get_char(i);
        if c == '/' || c == '%' {
            return true;
        }
        i = i + 1;
    }
    false
}

/// Whether a decimal digit is followed by an `i`.
pub fn has_imaginary_literal(s: &str) -> (r: bool)
    ensures
        r == imaginary_literal(s@),
{
    let n = s.unicode_len();
    let mut k: usize = 1;
    while k < n
        invariant
            n == s@.len(),
            1 <= k,
            forall|j: int| 0 < j < k && j < n ==> !('0' <= #[trigger] s@[j - 1] <= '9' && s@[j] == 'i'),
        decreases n - k,
    {
        let c = s.get_char(k - 1);
        if '0' <= c && c <= '9' && s.get_char(k) == 'i' {
            return true;
        }
        k = k + 1;
    }
    false
}

/// Whether a value's text stands for an infinity or for no number at all.
pub fn is_non_finite(t: &str) -> (r: bool)
    ensures
        r == non_finite(t@),
{
    same_text(t, "inf") || same_text(t, "-inf")
        || same_text(t, "NaN")
}

/// The error that a message of the parser or of the evaluator stands for.
pub fn classify_message(m: &str) -> (e: ExprError)
    ensures
        e@ == classified(m@),
{
    if starts_with_text(m, "Missing Opening Paren") || starts_with_text(m, "Missing Closing Paren") {
        ExprError::UnbalancedParens
    } else if starts_with_text(m, "Bad token: ") {
        let start = "Bad token: ".unicode_len();
        ExprError::Lex(String::from_str(m.substring_char(start, m.unicode_len())))
    } else if starts_with_text(m, "Unknown Variable: ") {
        ExprError::UnknownSymbol(word_following(m, "Unknown Variable: "))
    } else if starts_with_text(m, "Unknown Function: ") {
        ExprError::UnknownSymbol(word_following(m, "Unknown Function: "))
    } else if starts_with_text(m, "Unknown distribution: ") {
        ExprError::UnknownSymbol(word_following(m, "Unknown distribution: "))
    } else if starts_with_text(m, "Missing args for function ") {
        ExprError::ArityMismatch(word_following(m, "Missing args for function "))
    } else if starts_with_text(m, "Missing operands") {
        ExprError::MissingOperand
    } else if starts_with_text(m, "Failed to eval RPN") {
        ExprError::EmptyExpression
    } else {
        ExprError::UnexpectedToken
    }
}

pub open spec fn outcome_view(r: Result<String, ExprError>) -> Result<Seq<char>, ErrorView> {
    match r {
        Ok(t) => Ok(t@),
        Err(e) => Err(e@),
    }
}

/// What an evaluation of `input` comes to, given the evaluator's outcome:
/// a message becomes the error it stands for, and a value that is not
/// finite is refused.
pub fn resolve_outcome(input: &str, outcome: ShuntingOutcome) -> (r: Result<String, ExprError>)
    ensures
        outcome_view(r) == resolved(input@, raw_of(outcome)),
{
    match outcome {
        ShuntingOutcome::ParseError(m) => Err(classify_message(m.as_str())),
        ShuntingOutcome::EvalError(m) => Err(classify_message(m.as_str())),
        ShuntingOutcome::Value(t) => {
            if is_non_finite(t.as_str()) {
                if has_division(input) {
                    Err(ExprError::DivisionByZero)
                } else {
                    Err(ExprError::NumericOverflow)
                }
            } else {
                Ok(t)
            }
        },
    }
}

/// The error with which a text is refused before it reaches `shunting`, if
/// any: a blank text is an empty expression, a digit followed by `i` is
/// unrecognised text, and the random functions are unknown symbols, for the
/// calculator draws no random numbers.
pub open spec fn early_refusal(s: Seq<char>) -> Option<ErrorView> {
    if blank(s) {
        Some(ErrorView::EmptyExpression)
    } else if imaginary_literal(s) {
        Some(ErrorView::Lex("i"@))
    } else if calls(s, "rand"@) {
        Some(ErrorView::UnknownSymbol("rand"@))
    } else if calls(s, "normal"@) {
        Some(ErrorView::UnknownSymbol("normal"@))
    } else if calls(s, "lognormal"@) {
        Some(ErrorView::UnknownSymbol("lognormal"@))
    } else if calls(s, "uniform"@) {
        Some(ErrorView::UnknownSymbol("uniform"@))
    } else {
        None
    }
}

/// Whether `o` is an outcome that evaluating `s` may have: the early refusal
/// where there is one, else the parser's refusal classified, else what some
/// value or message of the evaluator resolves to.
pub open spec fn may_evaluate_to(s: Seq<char>, o: Result<Seq<char>, ErrorView>) -> bool {
    match early_refusal(s) {
        Some(e) => o == Err::<Seq<char>, ErrorView>(e),
        None => match parse_refusal(s) {
            Some(m) => o == Err::<Seq<char>, ErrorView>(classified(m)),
            None => exists|v: Result<Seq<char>, Seq<char>>| o == resolved(s, v),
        },
    }
}

/// Evaluates an arithmetic expression to the decimal text of its value, or
/// says why it has none (see `may_evaluate_to`). A value handed back is
/// always finite.
pub fn evaluate_expression(input: &str) -> (r: Result<String, ExprError>)
    ensures
        may_evaluate_to(input@, outcome_view(r)),
        r matches Ok(t) ==> early_refusal(input@) is None && parse_refusal(input@) is None && !non_finite(t@),
{
    if is_blank(input) {
        return Err(ExprError::EmptyExpression);
    }
    if has_imaginary_literal(input) {
        return Err(ExprError::Lex(String::from_str("i")));
    }
    if has_call(input, "rand") {
        return Err(ExprError::UnknownSymbol(String::from_str("rand")));
    }
    if has_call(input, "normal") {
        return Err(ExprError::UnknownSymbol(String::from_str("normal")));
    }
    if has_call(input, "lognormal") {
        return Err(ExprError::UnknownSymbol(String::from_str("lognormal")));
    }
    if has_call(input, "uniform") {
        return Err(ExprError::UnknownSymbol(String::from_str("uniform")));
    }
    let outcome = run_shunting(input);
    resolve_outcome(input, outcome)
}

/// Whether the text calls the function `w` (see `calls`).
pub fn has_call(s: &str, w: &str) -> (r: bool)
    ensures
        r == calls(s@, w@),
{
    let n = s.unicode_len();
    let m = w.unicode_len();
    if m >= n {
        return false;
    }
    let mut i: usize = 0;
    while i < n - m
        invariant
            n == s@.len(),
            m == w@.len() < n,
            i <= n - m,
            forall|j: int|
                0 <= j < i ==> !(#[trigger] s@.subrange(j, j + m) == w@ && s@[j + m] == '(' && (j == 0
                    || !is_ident_start(s@[j - 1]))),
        decreases n - m - i,
    {
        let rest = s.substring_char(i, n);
        let here = starts_with_text(rest, w);
        assert(rest@.subrange(0, m as int) =~= s@.subrange(i as int, i + m));
        if here && s.get_char(i + m) == '(' {
            if i == 0 {
                return true;
            }
            let c = s.get_char(i - 1);
            if !(c == '_' || ('a' <= c && c <= 'z') || ('A' <= c && c <= 'Z')) {
                return true;
            }
        }
        i = i + 1;
    }
    false
}

} // verus!
