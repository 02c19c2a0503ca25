//! Column data types.

use vstd::prelude::*;

verus! {

/// The type of a column. The closed set of types a field can carry.
#[derive(Clone, Copy, Debug, PartialEq, Eq, Structural)]
pub enum DataType {
    Utf8,
    Int64,
    Boolean,
}

/// The data types a CSV-backed source can declare for its columns.
#[derive(Clone, Copy, Debug, PartialEq, Eq, Structural)]
pub enum ArrowType {
    StringType,
    Int64Type,
}

/// What a source-level type means as a column type.
pub open spec fn data_type_of(t: ArrowType) -> DataType {
    match t {
        ArrowType::StringType => DataType::Utf8,
        ArrowType::Int64Type => DataType::Int64,
    }
}

impl From<ArrowType> for DataType {
    fn from(t: ArrowType) -> (r: DataType) {
        match t {
            ArrowType::StringType => DataType::Utf8,
            ArrowType::Int64Type => DataType::Int64,
        }
    }
}

impl vstd::std_specs::convert::FromSpecImpl<ArrowType> for DataType {
    open spec fn obeys_from_spec() -> bool {
        true
    }

    open spec fn from_spec(t: ArrowType) -> DataType {
        data_type_of(t)
    }
}

} // verus!
