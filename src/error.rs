//! The reasons for which an expression has no value.
use vstd::prelude::*;

verus! {

/// Why an expression could not be turned into a value.
#[derive(Debug, PartialEq, Eq)]
pub enum ExprError {
    /// Text that is no token; the offending text is kept.
    Lex(String),
    /// A `)` without its `(`, or a `(` never closed.
    UnbalancedParens,
    /// A token where the grammar allows none of its kind.
    UnexpectedToken,
    /// An operator without enough operands.
    MissingOperand,
    /// Nothing but whitespace.
    EmptyExpression,
    /// A name that is neither a known constant nor a known function.
    UnknownSymbol(String),
    /// A division whose divisor is zero.
    DivisionByZero,
    /// A function called with too few arguments.
    ArityMismatch(String),
    /// A value too large to represent.
    NumericOverflow,
}

/// `ExprError` with its texts as character sequences.
pub enum ErrorView {
    Lex(Seq<char>),
    UnbalancedParens,
    UnexpectedToken,
    MissingOperand,
    EmptyExpression,
    UnknownSymbol(Seq<char>),
    DivisionByZero,
    ArityMismatch(Seq<char>),
    NumericOverflow,
}

impl View for ExprError {
    type V = ErrorView;

    open spec fn view(&self) -> ErrorView {
        match self {
            ExprError::Lex(t) => ErrorView::Lex(t@),
            ExprError::UnbalancedParens => ErrorView::UnbalancedParens,
            ExprError::UnexpectedToken => ErrorView::UnexpectedToken,
            ExprError::MissingOperand => ErrorView::MissingOperand,
            ExprError::EmptyExpression => ErrorView::EmptyExpression,
            ExprError::UnknownSymbol(n) => ErrorView::UnknownSymbol(n@),
            ExprError::DivisionByZero => ErrorView::DivisionByZero,
            ExprError::ArityMismatch(n) => ErrorView::ArityMismatch(n@),
            ExprError::NumericOverflow => ErrorView::NumericOverflow,
        }
    }
}

impl ExprError {
    /// A copy of the error.
    pub fn duplicate(&self) -> (r: ExprError)
        ensures
            r@ == self@,
    {
        match self {
            ExprError::Lex(t) => ExprError::Lex(t.clone()),
            ExprError::UnbalancedParens => ExprError::UnbalancedParens,
            ExprError::UnexpectedToken => ExprError::UnexpectedToken,
            ExprError::MissingOperand => ExprError::MissingOperand,
            ExprError::EmptyExpression => ExprError::EmptyExpression,
            ExprError::UnknownSymbol(n) => ExprError::UnknownSymbol(n.clone()),
            ExprError::DivisionByZero => ExprError::DivisionByZero,
            ExprError::ArityMismatch(n) => ExprError::ArityMismatch(n.clone()),
            ExprError::NumericOverflow => ExprError::NumericOverflow,
        }
    }
}

} // verus!
