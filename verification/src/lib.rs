//! A semantic-analysis ("binding") library for SQL statements.
//!
//! The binder resolves a parsed statement against a catalog of databases,
//! schemas and tables, validates its names, and lowers it into a bound
//! statement carrying resolved catalog identifiers.

pub mod binder;
pub mod catalog;
pub mod ident;
pub mod syntax;
pub mod types;
