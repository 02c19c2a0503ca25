//! A logical-plan construction library for tabular data: a relational-algebra
//! frontend (scan, project, filter, aggregate) that builds an immutable plan
//! tree together with an expression tree, derives output schemas from them,
//! and renders them as human-readable text.

pub mod data_frame;
pub mod data_source;
pub mod data_type;
pub mod error;
pub mod execution_context;
pub mod expression;
pub mod helper;
pub mod laws;
pub mod logical_plan;
pub mod schema;
pub mod text;
pub mod views;
