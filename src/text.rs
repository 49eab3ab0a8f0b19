//! Comparisons and searches on texts, character by character.
use vstd::prelude::*;
use vstd::string::StrSliceExecFns;

verus! {

/// Whether two texts hold the same characters.
pub fn same_text(a: &str, b: &str) -> (r: bool)
    ensures
        r == (a@ == b@),
{
    let n = a.unicode_len();
    if n != b.unicode_len() {
        return false;
    }
    let mut i: usize = 0;
    while i < n
        invariant
            n == a@.len() == b@.len(),
            i <= n,
            forall|j: int| 0 <= j < i ==> a@[j] == b@[j],
        decreases n - i,
    {
        if a.get_char(i) != b.get_char(i) {
            return false;
        }
        i = i + 1;
    }
    assert(a@ =~= b@);
    true
}

/// Whether `m` starts with `p`.
pub open spec fn has_prefix(m: Seq<char>, p: Seq<char>) -> bool {
    p.len() <= m.len() && m.subrange(0, p.len() as int) == p
}

/// Whether `m` starts with `p`.
pub fn starts_with_text(m: &str, p: &str) -> (r: bool)
    ensures
        r == has_prefix(m@, p@),
{
    let n = p.unicode_len();
    if n > m.unicode_len() {
        return false;
    }
    let mut i: usize = 0;
    while i < n
        invariant
            n == p@.len() <= m@.len(),
            i <= n,
            forall|j: int| 0 <= j < i ==> m@[j] == p@[j],
        decreases n - i,
    {
        if m.get_char(i) != p.get_char(i) {
            assert(m@.subrange(0, n as int)[i as int] != p@[i as int]);
            return false;
        }
        i = i + 1;
    }
    assert(m@.subrange(0, n as int) =~= p@);
    true
}

} // verus!
