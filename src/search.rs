//! The search-provider operations that turn query terms into result ids.
use vstd::prelude::*;
use vstd::string::StringExecFns;
use crate::registry::{remembered, Registry};

verus! {

/// The terms as character sequences.
pub open spec fn terms_view(terms: Seq<String>) -> Seq<Seq<char>> {
    terms.map_values(|t: String| t@)
}

/// The terms joined with one space between each two of them.
pub open spec fn joined(terms: Seq<Seq<char>>) -> Seq<char>
    decreases terms.len(),
{
    if terms.len() == 0 {
        Seq::empty()
    } else if terms.len() == 1 {
        terms[0]
    } else {
        joined(terms.drop_last()) + seq![' '] + terms.last()
    }
}

/// Joins the terms of a query into one expression, a single space between
/// each two of them.
pub fn join_terms(terms: &Vec<String>) -> (r: String)
    ensures
        r@ == joined(terms_view(terms@)),
{
    let n = terms.len();
    if n == 0 {
        return String::new();
    }
    let mut acc = terms[0].clone();
    let mut i: usize = 1;
    assert(terms_view(terms@).subrange(0, 1) =~= seq![terms@[0]@]);
    while i < n
        invariant
            n == terms@.len(),
            1 <= i <= n,
            acc@ == joined(terms_view(terms@).subrange(0, i as int)),
        decreases n - i,
    {
        let ghost before = acc@;
        acc.append(" ");
        acc.append(terms[i].as_str());
        proof {
            reveal_strlit(" ");
            let v = terms_view(terms@);
            let w = v.subrange(0, i + 1);
            assert(w.drop_last() =~= v.subrange(0, i as int));
            assert(w.last() == terms@[i as int]@);
            assert(acc@ =~= before + seq![' '] + terms@[i as int]@);
        }
        i = i + 1;
    }
    assert(terms_view(terms@).subrange(0, n as int) =~= terms_view(terms@));
    acc
}

/// Answers the first query of a search: the joined terms are remembered and
/// handed back as the one result id.
pub fn get_initial_resultset(registry: &mut Registry, terms: &Vec<String>) -> (ids: Vec<String>)
    requires
        old(registry).wf(),
    ensures
        final(registry).wf(),
        ids@.len() == 1,
        ids@[0]@ == joined(terms_view(terms@)),
        final(registry).entries() == remembered(old(registry).entries(), joined(terms_view(terms@))),
{
    let expr = join_terms(terms);
    registry.remember(expr.clone());
    let mut ids: Vec<String> = Vec::new();
    ids.push(expr);
    ids
}

/// Answers a refined query. The earlier result ids are not consulted: the
/// new terms are handled as a first query would be.
pub fn get_subsearch_resultset(
    registry: &mut Registry,
    previous: &Vec<String>,
    terms: &Vec<String>,
) -> (ids: Vec<String>)
    requires
        old(registry).wf(),
    ensures
        final(registry).wf(),
        ids@.len() == 1,
        ids@[0]@ == joined(terms_view(terms@)),
        final(registry).entries() == remembered(old(registry).entries(), joined(terms_view(terms@))),
{
    get_initial_resultset(registry, terms)
}

/// Asking twice with the same terms leaves the registry as the first ask
/// left it, holding the joined expression exactly once.
pub proof fn lemma_initial_search_idempotent(entries: Seq<Seq<char>>, terms: Seq<Seq<char>>)
    requires
        entries.no_duplicates(),
    ensures
        remembered(remembered(entries, joined(terms)), joined(terms)) == remembered(
            entries,
            joined(terms),
        ),
        exists|i: int|
            0 <= i < remembered(entries, joined(terms)).len() && remembered(entries, joined(terms))[i]
                == joined(terms) && forall|j: int|
                0 <= j < remembered(entries, joined(terms)).len() && remembered(
                    entries,
                    joined(terms),
                )[j] == joined(terms) ==> j == i,
{
    let e = joined(terms);
    let s = remembered(entries, e);
    if entries.contains(e) {
        let i = choose|i: int| 0 <= i < entries.len() && entries[i] == e;
        assert(s.contains(e));
        assert(forall|j: int| 0 <= j < s.len() && s[j] == e ==> j == i);
    } else {
        let i = entries.len() as int;
        assert(s[i] == e);
        assert(s.contains(e));
        assert(forall|j: int| 0 <= j < s.len() && s[j] == e ==> j == i);
    }
}

} // verus!
