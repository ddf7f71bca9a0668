//! A schema-driven compiler from flat filter parameters to document-path
//! predicates and SQL clauses, with verified contracts.

pub mod assemble;
pub mod atoms;
pub mod combine;
pub mod convert;
pub mod generate;
pub mod laws;
pub mod plan;
pub mod resolve;
pub mod schema;
pub mod text;
