//! Display records for result ids: each id is evaluated, and the value
//! becomes the record's name.
use vstd::prelude::*;
use crate::engine::{evaluate_expression, may_evaluate_to, non_finite, outcome_view};
use crate::error::{ErrorView, ExprError};

verus! {

/// The display record of one result.
pub struct ResultMeta {
    /// The result id: the expression itself.
    pub id: String,
    /// The value of the expression, as text.
    pub name: String,
    /// The expression again, shown under the value.
    pub description: String,
}

/// The first error among the outcomes, if there is one.
pub open spec fn first_error(vals: Seq<Result<Seq<char>, ErrorView>>) -> Option<ErrorView>
    decreases vals.len(),
{
    if vals.len() == 0 {
        None
    } else {
        match vals[0] {
            Err(e) => Some(e),
            Ok(_) => first_error(vals.drop_first()),
        }
    }
}

pub open spec fn outcomes_view(vals: Seq<Result<String, ExprError>>) -> Seq<Result<Seq<char>, ErrorView>> {
    vals.map_values(|v: Result<String, ExprError>| outcome_view(v))
}

/// Whether `m` is the record of the id `id` with the value `value`.
pub open spec fn record_of(m: ResultMeta, id: Seq<char>, value: Seq<char>) -> bool {
    m.id@ == id && m.description@ == id && m.name@ == value
}

proof fn lemma_first_error_none(vals: Seq<Result<Seq<char>, ErrorView>>)
    ensures
        first_error(vals) is None <==> forall|i: int| 0 <= i < vals.len() ==> vals[i] is Ok,
    decreases vals.len(),
{
    if vals.len() > 0 {
        lemma_first_error_none(vals.drop_first());
        assert(forall|i: int| 1 <= i < vals.len() ==> vals[i] == vals.drop_first()[i - 1]);
    }
}

proof fn lemma_first_error_at(vals: Seq<Result<Seq<char>, ErrorView>>, k: int)
    requires
        0 <= k < vals.len(),
        vals[k] is Err,
        forall|i: int| 0 <= i < k ==> vals[i] is Ok,
    ensures
        first_error(vals) == Some(vals[k]->Err_0),
    decreases k,
{
    if k > 0 {
        assert(forall|i: int| 0 <= i < k - 1 ==> vals.drop_first()[i] == vals[i + 1]);
        lemma_first_error_at(vals.drop_first(), k - 1);
    }
}

/// Builds the records of `ids` from the outcome of evaluating each: all of
/// them where every outcome is a value, else the first error.
pub fn assemble_metas(ids: &Vec<String>, values: Vec<Result<String, ExprError>>) -> (r: Result<Vec<ResultMeta>, ExprError>)
    requires
        ids@.len() == values@.len(),
    ensures
        first_error(outcomes_view(values@)) is None <==> r is Ok,
        r matches Err(e) ==> Some(e@) == first_error(outcomes_view(values@)),
        r matches Ok(metas) ==> metas@.len() == ids@.len() && forall|i: int|
            0 <= i < ids@.len() ==> (#[trigger] values@[i] matches Ok(t) && record_of(metas@[i], ids@[i]@, t@)),
{
    let n = values.len();
    let mut metas: Vec<ResultMeta> = Vec::new();
    let mut i: usize = 0;
    proof {
        lemma_first_error_none(outcomes_view(values@));
    }
    while i < n
        invariant
            n == values@.len() == ids@.len(),
            i <= n,
            metas@.len() == i,
            forall|j: int| 0 <= j < i ==> (#[trigger] values@[j] matches Ok(t) && record_of(metas@[j], ids@[j]@, t@)),
            first_error(outcomes_view(values@)) is None <==> forall|j: int|
                0 <= j < n ==> outcomes_view(values@)[j] is Ok,
        decreases n - i,
    {
        match &values[i] {
            Err(e) => {
                proof {
                    let vs = outcomes_view(values@);
                    assert forall|j: int| 0 <= j < i implies vs[j] is Ok by {
                        assert(values@[j] is Ok);
                    }
                    lemma_first_error_at(vs, i as int);
                }
                return Err(e.duplicate());
            },
            Ok(t) => {
                metas.push(ResultMeta { id: ids[i].clone(), name: t.clone(), description: ids[i].clone() });
            },
        }
        i = i + 1;
    }
    proof {
        let vs = outcomes_view(values@);
        assert forall|j: int| 0 <= j < n implies vs[j] is Ok by {
            assert(values@[j] is Ok);
        }
    }
    Ok(metas)
}

/// Whether `r` answers a request for the records of `ids`, where evaluating
/// the ids came to `vals`, each an outcome that its id may have: success
/// exactly where no outcome is an error, with one record for each id named by
/// its value; else the first error.
pub open spec fn answers(
    ids: Seq<String>,
    vals: Seq<Result<Seq<char>, ErrorView>>,
    r: Result<Vec<ResultMeta>, ExprError>,
) -> bool {
    &&& vals.len() == ids.len()
    &&& forall|i: int| 0 <= i < ids.len() ==> may_evaluate_to(ids[i]@, #[trigger] vals[i])
    &&& (r is Ok <==> first_error(vals) is None)
    &&& (r matches Err(e) ==> Some(e@) == first_error(vals))
    &&& (r matches Ok(metas) ==> (metas@.len() == ids.len() && forall|i: int|
        0 <= i < ids.len() ==> record_of(#[trigger] metas@[i], ids[i]@, vals[i]->Ok_0)))
}

/// The display records of the given result ids, one for each, in order. The
/// call succeeds exactly where every id has a value, each record then named
/// by the value of its id; else it fails as a whole, with the first error.
pub fn get_result_metas(ids: &Vec<String>) -> (r: Result<Vec<ResultMeta>, ExprError>)
    ensures
        exists|vals: Seq<Result<Seq<char>, ErrorView>>| answers(ids@, vals, r),
        r matches Ok(metas) ==> forall|i: int| 0 <= i < metas@.len() ==> !non_finite((#[trigger] metas@[i]).name@),
        ids@.len() == 0 ==> (r matches Ok(metas) && metas@.len() == 0),
{
    let n = ids.len();
    let mut values: Vec<Result<String, ExprError>> = Vec::new();
    let mut i: usize = 0;
    while i < n
        invariant
            n == ids@.len(),
            i <= n,
            values@.len() == i,
            forall|j: int| 0 <= j < i ==> may_evaluate_to(ids@[j]@, outcome_view(#[trigger] values@[j])),
            forall|j: int| 0 <= j < i ==> (#[trigger] values@[j] matches Ok(t) ==> !non_finite(t@)),
        decreases n - i,
    {
        values.push(evaluate_expression(ids[i].as_str()));
        i = i + 1;
    }
    let r = assemble_metas(ids, values);
    proof {
        let vals = outcomes_view(values@);
        assert forall|i: int| 0 <= i < ids@.len() implies may_evaluate_to(ids@[i]@, #[trigger] vals[i]) by {
            assert(may_evaluate_to(ids@[i]@, outcome_view(values@[i])));
        }
        if r is Ok {
            let metas = r->Ok_0;
            assert forall|i: int| 0 <= i < ids@.len() implies record_of(
                #[trigger] metas@[i],
                ids@[i]@,
                vals[i]->Ok_0,
            ) && !non_finite(metas@[i].name@) by {
                assert(values@[i] is Ok);
            }
        }
        assert(answers(ids@, vals, r));
        if n == 0 {
            lemma_first_error_none(vals);
        }
    }
    r
}

} // verus!
