//! Case normalization for SQL identifiers.
//!
//! SQL identifiers are compared case-insensitively: every identifier is
//! folded to lower case before any comparison or storage. The fold is
//! Unicode lowercasing, a pure function of the text; its full definition is
//! far too large to state, so the contracts name its result (`lower_of`) and
//! every comparison and storage clause is stated over that name.

use vstd::prelude::*;

verus! {

/// The lower-case image of a character sequence under Unicode lowercasing.
pub uninterp spec fn lower_of(s: Seq<char>) -> Seq<char>;

/// Folds a string to lower case.
///
/// Relies on `str::to_lowercase`: the result is the Unicode lowercase of
/// the input, a function of the characters alone (an empty string stays
/// empty).
#[verifier::external_body]
pub(crate) fn to_lower_str(s: &str) -> (r: String)
    ensures
        r@ == lower_of(s@),
        s@.len() == 0 ==> r@.len() == 0,
{
    s.to_lowercase()
}

/// The default database name: the database a table name without an explicit
/// database part resolves into.
pub open spec fn default_database_name() -> Seq<char> {
    "postgres"@
}

/// The default schema name: the schema a table name without an explicit
/// schema part resolves into.
pub open spec fn default_schema_name() -> Seq<char> {
    "postgres"@
}

/// The default database name as an owned string.
pub fn default_database_string() -> (r: String)
    ensures
        r@ == default_database_name(),
{
    "postgres".to_owned()
}

/// The default schema name as an owned string.
pub fn default_schema_string() -> (r: String)
    ensures
        r@ == default_schema_name(),
{
    "postgres".to_owned()
}

} // verus!
