//! The library-wide laws of schema derivation, stated and proved over the
//! plan model.

use vstd::prelude::*;

use crate::expression::{expr_field, ExprV};
use crate::logical_plan::{exprs_fields, plan_schema, PlanV};
use crate::schema::{lookup_field, FieldV};

verus! {

/// A derived field list has one field per expression.
pub proof fn lemma_exprs_fields_len(es: Seq<ExprV>, s: Seq<FieldV>)
    requires
        exprs_fields(es, s) is Ok,
    ensures
        exprs_fields(es, s)->Ok_0.len() == es.len(),
    decreases es.len(),
{
    if es.len() > 0 {
        lemma_exprs_fields_len(es.drop_last(), s);
    }
}

/// In a derived field list, the field at each position is the one its
/// expression derives, and each expression derives one.
pub proof fn lemma_exprs_fields_index(es: Seq<ExprV>, s: Seq<FieldV>, i: int)
    requires
        exprs_fields(es, s) is Ok,
        0 <= i < es.len(),
    ensures
        expr_field(es[i], s) is Ok,
        exprs_fields(es, s)->Ok_0[i] == expr_field(es[i], s)->Ok_0,
    decreases es.len(),
{
    lemma_exprs_fields_len(es, s);
    if i < es.len() - 1 {
        lemma_exprs_fields_index(es.drop_last(), s, i);
        lemma_exprs_fields_len(es.drop_last(), s);
    }
}

/// When every expression derives a field, so does the whole list.
pub proof fn lemma_exprs_fields_all_ok(es: Seq<ExprV>, s: Seq<FieldV>)
    requires
        forall|i: int| 0 <= i < es.len() ==> expr_field(#[trigger] es[i], s) is Ok,
    ensures
        exprs_fields(es, s) is Ok,
    decreases es.len(),
{
    if es.len() > 0 {
        assert(forall|i: int|
            0 <= i < es.len() - 1 ==> expr_field(#[trigger] es.drop_last()[i], s) is Ok);
        lemma_exprs_fields_all_ok(es.drop_last(), s);
    }
}

/// The column expressions naming `names`, in order.
pub open spec fn columns_of(names: Seq<Seq<char>>) -> Seq<ExprV> {
    Seq::new(names.len(), |i: int| ExprV::Column { name: names[i] })
}

/// Selecting by column names: a projection of column expressions over a plan
/// derives a schema exactly when every name resolves in the plan's schema,
/// and then its schema holds exactly the named fields, in the given order,
/// each copied verbatim from the input schema.
pub proof fn lemma_select_columns(p: PlanV, names: Seq<Seq<char>>)
    requires
        plan_schema(p) is Ok,
    ensures
        ({
            let input = plan_schema(p)->Ok_0;
            let proj = PlanV::Projection { input: Box::new(p), exprs: columns_of(names) };
            &&& (plan_schema(proj) is Ok <==> (forall|i: int|
                0 <= i < names.len() ==> lookup_field(input, #[trigger] names[i]) is Some))
            &&& (plan_schema(proj) is Ok ==> plan_schema(proj)->Ok_0.len() == names.len())
            &&& (plan_schema(proj) is Ok ==> (forall|i: int|
                0 <= i < names.len() ==> lookup_field(input, #[trigger] names[i]) == Some(
                    plan_schema(proj)->Ok_0[i],
                )))
        }),
{
    let input = plan_schema(p)->Ok_0;
    let es = columns_of(names);
    let proj = PlanV::Projection { input: Box::new(p), exprs: es };
    assert(plan_schema(proj) == exprs_fields(es, input));
    if forall|i: int| 0 <= i < names.len() ==> lookup_field(input, #[trigger] names[i]) is Some {
        assert forall|i: int| 0 <= i < es.len() implies expr_field(#[trigger] es[i], input) is Ok by {
            assert(es[i] == ExprV::Column { name: names[i] });
        }
        lemma_exprs_fields_all_ok(es, input);
    }
    if plan_schema(proj) is Ok {
        lemma_exprs_fields_len(es, input);
        assert forall|i: int| 0 <= i < names.len() implies lookup_field(input, #[trigger] names[i])
            == Some(plan_schema(proj)->Ok_0[i]) by {
            lemma_exprs_fields_index(es, input, i);
            assert(es[i] == ExprV::Column { name: names[i] });
        }
    }
}

/// Filtering preserves the schema: a selection node derives exactly its
/// input's schema, whatever the predicate.
pub proof fn lemma_filter_preserves_schema(p: PlanV, predicate: ExprV)
    ensures
        plan_schema(PlanV::Selection { input: Box::new(p), predicate }) == plan_schema(p),
{
}

/// An aggregate's schema has one field per group expression followed by one
/// field per aggregate expression, group fields first, each list in its
/// original order.
pub proof fn lemma_aggregate_schema_shape(p: PlanV, groups: Seq<ExprV>, aggs: Seq<ExprV>)
    requires
        plan_schema(PlanV::Aggregate { input: Box::new(p), groups, aggs }) is Ok,
    ensures
        ({
            let out = plan_schema(PlanV::Aggregate { input: Box::new(p), groups, aggs })->Ok_0;
            let input = plan_schema(p)->Ok_0;
            &&& plan_schema(p) is Ok
            &&& exprs_fields(groups, input) is Ok
            &&& exprs_fields(aggs, input) is Ok
            &&& out.len() == groups.len() + aggs.len()
            &&& (forall|i: int|
                0 <= i < groups.len() ==> out[i] == expr_field(#[trigger] groups[i], input)->Ok_0)
            &&& (forall|i: int|
                0 <= i < aggs.len() ==> out[groups.len() + i] == expr_field(
                    #[trigger] aggs[i],
                    input,
                )->Ok_0)
        }),
{
    let input = plan_schema(p)->Ok_0;
    let g = exprs_fields(groups, input)->Ok_0;
    let a = exprs_fields(aggs, input)->Ok_0;
    lemma_exprs_fields_len(groups, input);
    lemma_exprs_fields_len(aggs, input);
    assert forall|i: int| 0 <= i < groups.len() implies (g + a)[i] == expr_field(
        #[trigger] groups[i],
        input,
    )->Ok_0 by {
        lemma_exprs_fields_index(groups, input, i);
    }
    assert forall|i: int| 0 <= i < aggs.len() implies (g + a)[groups.len() + i] == expr_field(
        #[trigger] aggs[i],
        input,
    )->Ok_0 by {
        lemma_exprs_fields_index(aggs, input, i);
    }
}

/// Branch independence: two projections built over one shared base each
/// derive their schema from the base's schema and their own expressions
/// alone; building one cannot affect the other, and the base's own schema
/// derivation is what it always was.
pub proof fn lemma_branch_independence(base: PlanV, a: Seq<ExprV>, b: Seq<ExprV>)
    ensures
        ({
            let pa = PlanV::Projection { input: Box::new(base), exprs: a };
            let pb = PlanV::Projection { input: Box::new(base), exprs: b };
            &&& plan_schema(pa) == (match plan_schema(base) {
                Ok(s) => exprs_fields(a, s),
                Err(n) => Err(n),
            })
            &&& plan_schema(pb) == (match plan_schema(base) {
                Ok(s) => exprs_fields(b, s),
                Err(n) => Err(n),
            })
        }),
{
}

} // verus!
