//! The entry point for building queries: binds a declared schema to a source
//! path and hands out a frame over the resulting scan.

use vstd::prelude::*;

use crate::data_frame::DataFrame;
use crate::logical_plan::{PlanV, Scan};
use crate::schema::Schema;

verus! {

/// A context for building queries.
pub struct ExecutionContext {}

impl ExecutionContext {
    /// Builds a context.
    pub fn new() -> ExecutionContext {
        ExecutionContext {  }
    }

    /// Builds a frame over a scan of the delimited-text source at `path`,
    /// declared to carry `schema`, with an empty projection. The physical
    /// reader for the path is bound at the input/output boundary, outside
    /// the plan model, from this same schema and path.
    pub fn csv(&self, schema: Schema, path: &str) -> (r: DataFrame)
        ensures
            r@ == (PlanV::Scan {
                path: path@,
                schema: schema@,
                projection: Seq::<Seq<char>>::empty(),
            }),
    {
        let projection: Vec<String> = Vec::new();
        proof {
            assert(projection.deep_view() =~= Seq::<Seq<char>>::empty());
        }
        let scan = Scan::new(path.to_owned(), schema, projection);
        DataFrame::from_scan(scan)
    }
}

} // verus!
