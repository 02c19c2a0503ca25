//! The chainable facade over a plan root. Every operation wraps the current
//! plan in a new node and returns a new frame; the receiver is never
//! changed, and the unchanged part of the tree is shared, not copied.

use std::sync::Arc;

use vstd::prelude::*;

use crate::error::PlanError;
use crate::expression::{AggregateExpression, LogicalExpression};
use crate::logical_plan::{
    plan_schema, Aggregate, LogicalPlan, PlanV, Projection, Scan, Selection,
};
use crate::schema::{FieldV, Schema};

verus! {

/// A frame: one plan root together with its eagerly derived output schema.
/// Construction fails, and no frame is produced, whenever the schema cannot
/// be derived.
pub struct DataFrame {
    plan: Arc<LogicalPlan>,
    schema: Schema,
}

impl View for DataFrame {
    type V = PlanV;

    closed spec fn view(&self) -> PlanV {
        self.plan@
    }
}

impl DataFrame {
    /// The frame's schema always is its plan's derived schema.
    #[verifier::type_invariant]
    spec fn wf(self) -> bool {
        plan_schema(self.plan@) == Ok::<Seq<FieldV>, Seq<char>>(self.schema@)
    }

    /// Builds a frame over `plan`, eagerly deriving its schema; the first
    /// `UnknownColumn` failure in the plan is returned instead.
    pub fn new(plan: Arc<LogicalPlan>) -> (r: Result<DataFrame, PlanError>)
        ensures
            match r {
                Ok(df) => df@ == plan@ && plan_schema(plan@) is Ok,
                Err(e) => plan_schema(plan@) == Err::<Seq<FieldV>, Seq<char>>(e@),
            },
    {
        match plan.schema() {
            Ok(schema) => Ok(DataFrame { plan, schema }),
            Err(e) => Err(e),
        }
    }

    /// Builds a frame over a scan, whose schema derivation cannot fail.
    pub fn from_scan(scan: Scan) -> (r: DataFrame)
        ensures
            r@ == scan@,
    {
        let schema = scan.schema();
        DataFrame { plan: Arc::new(scan.into_plan()), schema }
    }

    /// Wraps the plan in a projection of `expr` and returns the new frame.
    /// Fails with the offending column name, producing no frame, when an
    /// expression names a column that does not resolve against this frame's
    /// schema; the receiver stays valid either way.
    pub fn select(&self, expr: Vec<LogicalExpression>) -> (r: Result<DataFrame, PlanError>)
        ensures
            ({
                let v = PlanV::Projection { input: Box::new(self@), exprs: expr.deep_view() };
                match r {
                    Ok(df) => df@ == v && plan_schema(v) is Ok,
                    Err(e) => plan_schema(v) == Err::<Seq<FieldV>, Seq<char>>(e@),
                }
            }),
    {
        let node = match Projection::new(self.plan.clone(), expr) {
            Ok(p) => p,
            Err(e) => {
                return Err(e);
            },
        };
        DataFrame::new(Arc::new(node.into_plan()))
    }

    /// Wraps the plan in a selection by the predicate `expr` and returns the
    /// new frame. The schema is the receiver's schema, unchanged, so this
    /// cannot fail; the predicate is not consulted.
    pub fn filter(&self, expr: LogicalExpression) -> (r: DataFrame)
        ensures
            r@ == (PlanV::Selection { input: Box::new(self@), predicate: expr@ }),
            plan_schema(r@) == plan_schema(self@),
    {
        proof {
            use_type_invariant(self);
        }
        let node = Selection::new(self.plan.clone(), expr);
        DataFrame { plan: Arc::new(node.into_plan()), schema: self.schema.clone() }
    }

    /// Wraps the plan in an aggregate of `group_by` and `aggregate` and
    /// returns the new frame. Fails with the offending column name,
    /// producing no frame, when a group or aggregate expression does not
    /// resolve against this frame's schema.
    pub fn aggregate(
        &self,
        group_by: Vec<LogicalExpression>,
        aggregate: Vec<AggregateExpression>,
    ) -> (r: Result<DataFrame, PlanError>)
        ensures
            ({
                let v = PlanV::Aggregate {
                    input: Box::new(self@),
                    groups: group_by.deep_view(),
                    aggs: aggregate.deep_view(),
                };
                match r {
                    Ok(df) => df@ == v && plan_schema(v) is Ok,
                    Err(e) => plan_schema(v) == Err::<Seq<FieldV>, Seq<char>>(e@),
                }
            }),
    {
        let node = match Aggregate::new(self.plan.clone(), group_by, aggregate) {
            Ok(a) => a,
            Err(e) => {
                return Err(e);
            },
        };
        DataFrame::new(Arc::new(node.into_plan()))
    }

    /// The plan's derived output schema.
    pub fn schema(&self) -> (r: Schema)
        ensures
            plan_schema(self@) == Ok::<Seq<FieldV>, Seq<char>>(r@),
    {
        proof {
            use_type_invariant(self);
        }
        self.schema.clone()
    }

    /// The plan root, read-only.
    pub fn plan(&self) -> (r: Arc<LogicalPlan>)
        ensures
            r@ == self@,
    {
        self.plan.clone()
    }
}

} // verus!
