//! Compiles a schema-definition document and operation documents into
//! statically-typed declarations for a structural target type system.
//!
//! The crate is organised around a small target type algebra (`ts_types`),
//! two printers that stream declarations to an injected sink (`writer`):
//! one for schema documents (`schema_printer`) and one for operation
//! documents (`query_printer`), and the document data model they consume.

pub mod base;
pub mod value;
pub mod value_builder;
pub mod directive;
pub mod selection_set;
pub mod operations;
pub mod type_system;
pub mod config;
pub mod types;
pub mod writer;
pub mod ts_types;
pub mod query_printer;
pub mod schema_printer;
pub mod laws;
