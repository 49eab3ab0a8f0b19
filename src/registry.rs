//! The set of expressions that the provider has handed out as result ids.
use vstd::prelude::*;
use crate::text::same_text;

verus! {

/// What remembering `e` does to the list of known expressions: it is
/// appended unless it is there already.
pub open spec fn remembered(s: Seq<Seq<char>>, e: Seq<char>) -> Seq<Seq<char>> {
    if s.contains(e) {
        s
    } else {
        s.push(e)
    }
}

/// The known expressions, each held once, in the order in which they were
/// first seen. Nothing is ever removed.
pub struct Registry {
    entries: Vec<String>,
}

impl Registry {
    /// The entries as character sequences, in order.
    pub closed spec fn entries(&self) -> Seq<Seq<char>> {
        self.entries@.map_values(|s: String| s@)
    }

    /// The set of known expressions.
    pub open spec fn view(&self) -> Set<Seq<char>> {
        self.entries().to_set()
    }

    /// No expression is held twice.
    pub open spec fn wf(&self) -> bool {
        self.entries().no_duplicates()
    }

    pub fn new() -> (r: Registry)
        ensures
            r.wf(),
            r.entries() == Seq::<Seq<char>>::empty(),
    {
        Registry { entries: Vec::new() }
    }

    /// Number of known expressions.
    pub fn len(&self) -> (n: usize)
        ensures
            n == self.entries().len(),
    {
        self.entries.len()
    }

    /// Whether `expr` has been remembered.
    pub fn is_known(&self, expr: &str) -> (r: bool)
        ensures
            r == self.entries().contains(expr@),
    {
        let mut i: usize = 0;
        while i < self.entries.len()
            invariant
                i <= self.entries@.len(),
                forall|j: int| 0 <= j < i ==> self.entries()[j] != expr@,
            decreases self.entries@.len() - i,
        {
            let same = same_text(self.entries[i].as_str(), expr);
            assert(self.entries()[i as int] == self.entries@[i as int]@);
            if same {
                assert(self.entries()[i as int] == expr@);
                return true;
            }
            i = i + 1;
        }
        false
    }

    /// Records `expr` as a known expression. Recording one that is known
    /// already changes nothing.
    pub fn remember(&mut self, expr: String)
        requires
            old(self).wf(),
        ensures
            final(self).wf(),
            final(self).entries() == remembered(old(self).entries(), expr@),
    {
        if !self.is_known(expr.as_str()) {
            proof {
                let s = self.entries();
                assert(s.push(expr@).no_duplicates()) by {
                    assert(forall|j: int| 0 <= j < s.len() ==> s[j] != expr@);
                }
            }
            self.entries.push(expr);
            assert(self.entries() =~= old(self).entries().push(expr@));
        }
    }
}

} // verus!
