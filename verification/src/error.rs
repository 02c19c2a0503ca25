//! Errors surfaced by plan and expression construction.

use vstd::prelude::*;

verus! {

/// A construction-time failure. Schema derivation fails when a column
/// expression names a column that is absent from, or present more than once
/// in, the input schema; the error carries the offending name.
#[derive(Debug)]
pub enum PlanError {
    UnknownColumn(String),
}

impl View for PlanError {
    type V = Seq<char>;

    open spec fn view(&self) -> Seq<char> {
        match self {
            PlanError::UnknownColumn(n) => n@,
        }
    }
}

impl PlanError {
    /// The column name that failed to resolve.
    pub fn column_name(&self) -> (r: &String)
        ensures
            r@ == self@,
    {
        match self {
            PlanError::UnknownColumn(n) => n,
        }
    }
}

} // verus!
