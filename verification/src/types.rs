//! Identifier and data-type definitions shared by the catalog and the binder.

use vstd::prelude::*;

verus! {

/// Identifier of a database in the catalog.
pub type DatabaseId = usize;

/// Identifier of a schema within its database.
pub type SchemaId = usize;

/// Identifier of a table within its schema.
pub type TableId = usize;

/// Identifier of a column within its table: its 0-based declaration-order
/// position, assigned at bind time.
pub type ColumnId = usize;

/// The kind of a SQL data type, with its optional display width or length.
#[derive(Debug, PartialEq, Eq, Clone, Copy)]
pub enum DataTypeKind {
    Int(Option<u64>),
    Boolean,
    Char(Option<u64>),
    Varchar(Option<u64>),
    Date,
}

/// A data type together with its nullability.
#[derive(Debug, PartialEq, Eq, Clone, Copy)]
pub struct DataType {
    pub kind: DataTypeKind,
    pub nullable: bool,
}

impl DataType {
    pub fn new(kind: DataTypeKind, nullable: bool) -> (r: DataType)
        ensures
            r.kind == kind,
            r.nullable == nullable,
    {
        DataType { kind, nullable }
    }
}

impl DataTypeKind {
    /// This kind as a non-nullable data type.
    pub fn not_null(self) -> (r: DataType)
        ensures
            r.kind == self,
            r.nullable == false,
    {
        DataType::new(self, false)
    }

    /// This kind as a nullable data type.
    pub fn nullable(self) -> (r: DataType)
        ensures
            r.kind == self,
            r.nullable == true,
    {
        DataType::new(self, true)
    }
}

} // verus!
