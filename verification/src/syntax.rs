//! Statement-shaped syntax nodes: the parser's output and the binder's
//! input.
//!
//! A node carries generic identifiers and clauses with no knowledge of what
//! exists in the database; the binder resolves it against the catalog.

use vstd::prelude::*;
use crate::types::DataTypeKind;

verus! {

/// One option of a column definition, as written in the statement.
#[derive(Debug, PartialEq, Eq, Clone, Copy)]
pub enum ColumnOption {
    /// An explicit `NULL` option: the column is nullable.
    Null,
    /// An explicit `NOT NULL` option: the column is not nullable.
    NotNull,
    /// A `UNIQUE` option, with a flag for whether it denotes a primary key.
    Unique { is_primary: bool },
    /// A column option outside the recognized set (such as `DEFAULT` or
    /// `CHECK`), kept so that the binder can reject it explicitly instead of
    /// accepting it silently.
    Other,
}

/// One column definition of a `CREATE TABLE` statement: a name, a data type,
/// and an unordered list of column options.
#[derive(Debug, PartialEq, Eq, Clone)]
pub struct ColumnDef {
    pub name: String,
    pub data_type: DataTypeKind,
    pub options: Vec<ColumnOption>,
}

/// A parsed statement, one variant per statement kind. Dispatch is done by
/// matching on the variant, so a statement binder is only ever handed a node
/// of its own kind.
#[derive(Debug, PartialEq, Eq, Clone)]
pub enum Statement {
    /// A `CREATE TABLE` statement: a possibly-qualified table name (its
    /// dotted parts in order) and the column definitions in declaration
    /// order.
    CreateTable { name: Vec<String>, columns: Vec<ColumnDef> },
}

impl Statement {
    /// The parts of the statement's target name, each folded to lower case.
    pub open spec fn lowered_name_parts(self) -> Seq<Seq<char>> {
        match self {
            Statement::CreateTable { name, .. } => name@.map_values(
                |s: String| crate::ident::lower_of(s@),
            ),
        }
    }

    /// The statement's column definitions, in declaration order.
    pub open spec fn column_defs(self) -> Seq<ColumnDef> {
        match self {
            Statement::CreateTable { columns, .. } => columns@,
        }
    }
}

} // verus!
