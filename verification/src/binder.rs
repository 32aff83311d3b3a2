//! The binder: name resolution, scope rules and semantic validation for
//! statements, shown here for `CREATE TABLE`.
//!
//! Binding resolves a possibly-qualified table name against the catalog
//! (database, then schema), validates uniqueness constraints (the table must
//! not exist yet; no two columns may share a case-folded name), lowers the
//! column definitions into catalog-level descriptors, and assigns each
//! column its 0-based declaration-order identifier. The checks run in a
//! fixed order, so every failure is attributed to exactly one cause, and the
//! catalog is never mutated: the only observable output is the returned
//! bound statement or error.

use vstd::prelude::*;
use crate::catalog::{find_name, ColumnCatalog, ColumnDesc, RootCatalog};
use crate::ident::{
    default_database_name, default_database_string, default_schema_name, default_schema_string,
    lower_of, to_lower_str,
};
use crate::syntax::{ColumnDef, ColumnOption, Statement};
use crate::types::{DataType, DatabaseId, SchemaId};

verus! {

/// Why a statement could not be bound. Every variant is recoverable and
/// user-facing; the caller turns it into a diagnostic.
#[derive(Debug, PartialEq, Eq, Clone)]
pub enum BindError {
    /// The name's database part does not resolve in the catalog.
    InvalidDatabase(String),
    /// The name's schema part does not resolve within the resolved database.
    InvalidSchema(String),
    /// The target table already exists in the resolved schema.
    DuplicatedTable(String),
    /// Two or more column definitions share a case-folded name; the payload
    /// is the original-case text of the first repeated column.
    DuplicatedColumn(String),
    /// The qualified name is malformed or has more parts than the
    /// database.schema.table hierarchy supports.
    NameResolution,
    /// A column carries an option outside the recognized set: a capability
    /// gap surfaced distinctly, not a user error.
    UnsupportedColumnOption(String),
}

/// A bound `CREATE TABLE` statement: resolved database and schema
/// identifiers, the case-folded table name, and the ordered column
/// descriptors. The table itself has no identifier yet, because it does not
/// exist until the caller registers it.
#[derive(Debug, PartialEq, Eq, Clone)]
pub struct BoundCreateTable {
    pub database_id: DatabaseId,
    pub schema_id: SchemaId,
    pub table_name: String,
    pub columns: Vec<ColumnCatalog>,
}

/// The binder: holds the catalog that statements are resolved against.
/// Binding is read-only on the catalog and keeps no state across calls.
pub struct Binder {
    pub catalog: RootCatalog,
}

/// Splits an already case-folded qualified name into (database, schema,
/// object) parts, filling in the default database and schema when parts are
/// omitted; `None` when the name is empty or over-qualified.
pub open spec fn split_parts(parts: Seq<Seq<char>>) -> Option<(Seq<char>, Seq<char>, Seq<char>)> {
    if parts.len() == 1 {
        Some((default_database_name(), default_schema_name(), parts[0]))
    } else if parts.len() == 2 {
        Some((default_database_name(), parts[0], parts[1]))
    } else if parts.len() == 3 {
        Some((parts[0], parts[1], parts[2]))
    } else {
        None
    }
}

/// Whether column `j` repeats the case-folded name of an earlier column.
pub open spec fn repeats_earlier_name(cols: Seq<ColumnDef>, j: int) -> bool {
    exists|i: int| 0 <= i < j && lower_of(cols[i].name@) == lower_of(cols[j].name@)
}

/// First index `i >= j` of a column repeating an earlier case-folded name,
/// if any.
pub open spec fn first_duplicate_from(cols: Seq<ColumnDef>, j: int) -> Option<int>
    decreases cols.len() - j,
{
    if j < 0 || j >= cols.len() {
        None
    } else if repeats_earlier_name(cols, j) {
        Some(j)
    } else {
        first_duplicate_from(cols, j + 1)
    }
}

/// Index of the first column (in declaration order) whose case-folded name
/// repeats an earlier one, if any.
pub open spec fn first_duplicate(cols: Seq<ColumnDef>) -> Option<int> {
    first_duplicate_from(cols, 0)
}

/// Whether the option list holds an option outside the recognized set.
pub open spec fn has_unsupported_option(opts: Seq<ColumnOption>) -> bool {
    exists|k: int| 0 <= k < opts.len() && opts[k] is Other
}

/// First index `i >= j` of a column carrying an unrecognized option, if any.
pub open spec fn first_unsupported_from(cols: Seq<ColumnDef>, j: int) -> Option<int>
    decreases cols.len() - j,
{
    if j < 0 || j >= cols.len() {
        None
    } else if has_unsupported_option(cols[j].options@) {
        Some(j)
    } else {
        first_unsupported_from(cols, j + 1)
    }
}

/// Index of the first column (in declaration order) carrying an option
/// outside the recognized set, if any.
pub open spec fn first_unsupported(cols: Seq<ColumnDef>) -> Option<int> {
    first_unsupported_from(cols, 0)
}

/// The nullability an option list folds to: the last `NULL` or `NOT NULL`
/// option wins, and a column with neither defaults to nullable.
pub open spec fn nullable_of(opts: Seq<ColumnOption>) -> bool
    decreases opts.len(),
{
    if opts.len() == 0 {
        true
    } else {
        match opts.last() {
            ColumnOption::Null => true,
            ColumnOption::NotNull => false,
            _ => nullable_of(opts.drop_last()),
        }
    }
}

/// The primary-key flag an option list folds to: the last `UNIQUE` option's
/// flag wins, and a column without one defaults to not-primary.
pub open spec fn primary_of(opts: Seq<ColumnOption>) -> bool
    decreases opts.len(),
{
    if opts.len() == 0 {
        false
    } else {
        match opts.last() {
            ColumnOption::Unique { is_primary } => is_primary,
            _ => primary_of(opts.drop_last()),
        }
    }
}

/// Whether bound column `c` is the correct lowering of the `i`-th column
/// definition: identifier `i`, case-folded name, the declared type, and the
/// nullability and primary-key flag its options fold to.
pub open spec fn column_matches(c: ColumnCatalog, i: int, def: ColumnDef) -> bool {
    &&& c.id == i
    &&& c.desc.name@ == lower_of(def.name@)
    &&& c.desc.datatype.kind == def.data_type
    &&& c.desc.datatype.nullable == nullable_of(def.options@)
    &&& c.desc.is_primary == primary_of(def.options@)
}

/// Whether `b` is the correct bound statement for the resolved identifiers
/// `database_id` and `schema_id`, the case-folded table name `tn`, and the
/// column definitions `cols`.
pub open spec fn bound_matches(
    b: BoundCreateTable,
    database_id: DatabaseId,
    schema_id: SchemaId,
    tn: Seq<char>,
    cols: Seq<ColumnDef>,
) -> bool {
    &&& b.database_id == database_id
    &&& b.schema_id == schema_id
    &&& b.table_name@ == tn
    &&& b.columns@.len() == cols.len()
    &&& forall|i: int| 0 <= i < cols.len() ==> column_matches(#[trigger] b.columns@[i], i, cols[i])
}

/// What binding a `CREATE TABLE` statement against catalog `cat` returns.
///
/// The checks run in a fixed order — name shape, database, schema, table
/// duplication, column duplication, column options — and each clause below
/// states both when its error is returned and what it carries, so the
/// result is determined by the statement and the catalog alone.
pub open spec fn bind_create_table_post(
    cat: RootCatalog,
    stmt: Statement,
    r: Result<BoundCreateTable, BindError>,
) -> bool {
    let cols = stmt.column_defs();
    match split_parts(stmt.lowered_name_parts()) {
        None => r matches Err(BindError::NameResolution),
        Some(split) => {
            let dn = split.0;
            let sn = split.1;
            let tn = split.2;
            match find_name(cat.database_names(), dn) {
                None => r matches Err(BindError::InvalidDatabase(n)) && n@ == dn,
                Some(di) => {
                    let db = cat.databases@[di];
                    match find_name(db.schema_names(), sn) {
                        None => r matches Err(BindError::InvalidSchema(n)) && n@ == sn,
                        Some(si) => {
                            let schema = db.schemas@[si];
                            if find_name(schema.table_names(), tn) is Some {
                                r matches Err(BindError::DuplicatedTable(n)) && n@ == tn
                            } else {
                                match first_duplicate(cols) {
                                    Some(j) => r matches Err(BindError::DuplicatedColumn(n))
                                        && n@ == cols[j].name@,
                                    None => match first_unsupported(cols) {
                                        Some(j) => r matches Err(
                                            BindError::UnsupportedColumnOption(n),
                                        ) && n@ == cols[j].name@,
                                        None => r matches Ok(b) && bound_matches(
                                            b,
                                            db.id,
                                            schema.id,
                                            tn,
                                            cols,
                                        ),
                                    },
                                }
                            }
                        },
                    }
                },
            }
        },
    }
}

/// The case-folded database part of the statement's target name (with the
/// default filled in), assuming the name is well-formed.
pub open spec fn resolved_database_name(stmt: Statement) -> Seq<char> {
    split_parts(stmt.lowered_name_parts()).unwrap().0
}

/// The case-folded schema part of the statement's target name (with the
/// default filled in), assuming the name is well-formed.
pub open spec fn resolved_schema_name(stmt: Statement) -> Seq<char> {
    split_parts(stmt.lowered_name_parts()).unwrap().1
}

/// The case-folded table part of the statement's target name, assuming the
/// name is well-formed.
pub open spec fn resolved_table_name(stmt: Statement) -> Seq<char> {
    split_parts(stmt.lowered_name_parts()).unwrap().2
}

/// The catalog entry of the statement's database, assuming it resolves.
pub open spec fn resolved_database(cat: RootCatalog, stmt: Statement) -> crate::catalog::DatabaseCatalog {
    cat.databases@[find_name(cat.database_names(), resolved_database_name(stmt)).unwrap()]
}

/// The catalog entry of the statement's schema, assuming it resolves.
pub open spec fn resolved_schema(cat: RootCatalog, stmt: Statement) -> crate::catalog::SchemaCatalog {
    let db = resolved_database(cat, stmt);
    db.schemas@[find_name(db.schema_names(), resolved_schema_name(stmt)).unwrap()]
}

/// Whether the statement's name is well-formed and its database and schema
/// parts resolve in the catalog.
pub open spec fn namespace_resolves(cat: RootCatalog, stmt: Statement) -> bool {
    &&& split_parts(stmt.lowered_name_parts()) is Some
    &&& find_name(cat.database_names(), resolved_database_name(stmt)) is Some
    &&& find_name(resolved_database(cat, stmt).schema_names(), resolved_schema_name(stmt))
        is Some
}

/// Whether a table of the statement's (case-folded) target name already
/// exists in the resolved schema.
pub open spec fn target_table_exists(cat: RootCatalog, stmt: Statement) -> bool {
    find_name(resolved_schema(cat, stmt).table_names(), resolved_table_name(stmt)) is Some
}

/// Law: in a successfully bound statement, each column's identifier equals
/// its 0-based declaration-order position, whatever the column's name, type
/// or options.
pub proof fn lemma_column_ids_are_positions(cat: RootCatalog, stmt: Statement, b: BoundCreateTable)
    requires
        bind_create_table_post(cat, stmt, Ok(b)),
    ensures
        b.columns@.len() == stmt.column_defs().len(),
        forall|i: int| 0 <= i < b.columns@.len() ==> #[trigger] b.columns@[i].id == i,
{
    assert forall|i: int| 0 <= i < b.columns@.len() implies #[trigger] b.columns@[i].id == i by {
        assert(column_matches(b.columns@[i], i, stmt.column_defs()[i]));
    }
}

/// Law: an option list holding no explicit `NULL` or `NOT NULL` option
/// folds to nullable.
pub proof fn lemma_nullability_defaults_to_nullable(opts: Seq<ColumnOption>)
    requires
        forall|k: int|
            0 <= k < opts.len() ==> !((#[trigger] opts[k] is Null) || (opts[k] is NotNull)),
    ensures
        nullable_of(opts) == true,
    decreases opts.len(),
{
    if opts.len() > 0 {
        lemma_nullability_defaults_to_nullable(opts.drop_last());
    }
}

/// Law: a bound column whose definition carries no explicit nullability
/// option is nullable.
pub proof fn lemma_bound_column_nullable_by_default(
    cat: RootCatalog,
    stmt: Statement,
    b: BoundCreateTable,
    i: int,
)
    requires
        bind_create_table_post(cat, stmt, Ok(b)),
        0 <= i < stmt.column_defs().len(),
        forall|k: int|
            0 <= k < stmt.column_defs()[i].options@.len() ==> !((#[trigger] stmt.column_defs()[i].options@[k]
                is Null) || (stmt.column_defs()[i].options@[k] is NotNull)),
    ensures
        b.columns@[i].desc.datatype.nullable == true,
{
    assert(column_matches(b.columns@[i], i, stmt.column_defs()[i]));
    lemma_nullability_defaults_to_nullable(stmt.column_defs()[i].options@);
}

/// Law: when the target table already exists (case-insensitively) in the
/// resolved schema, binding fails with `DuplicatedTable` carrying the
/// case-folded table name, whatever the column definitions hold — no column
/// validation is reached.
pub proof fn lemma_duplicated_table_wins(
    cat: RootCatalog,
    stmt: Statement,
    r: Result<BoundCreateTable, BindError>,
)
    requires
        bind_create_table_post(cat, stmt, r),
        namespace_resolves(cat, stmt),
        target_table_exists(cat, stmt),
    ensures
        r matches Err(BindError::DuplicatedTable(n)) && n@ == resolved_table_name(stmt),
{
}

/// Law: `first_duplicate` really names the first collision — its index is
/// the first column (in declaration order) repeating an earlier case-folded
/// name, and when it is `None` no column repeats one.
pub proof fn lemma_first_duplicate_is_first(cols: Seq<ColumnDef>)
    ensures
        match first_duplicate(cols) {
            Some(j) => {
                &&& 0 <= j < cols.len()
                &&& repeats_earlier_name(cols, j)
                &&& forall|m: int| 0 <= m < j ==> !repeats_earlier_name(cols, m)
            },
            None => forall|m: int| 0 <= m < cols.len() ==> !repeats_earlier_name(cols, m),
        },
{
    lemma_first_duplicate_from_is_first(cols, 0);
}

proof fn lemma_first_duplicate_from_is_first(cols: Seq<ColumnDef>, j: int)
    requires
        0 <= j,
    ensures
        match first_duplicate_from(cols, j) {
            Some(i) => {
                &&& j <= i < cols.len()
                &&& repeats_earlier_name(cols, i)
                &&& forall|m: int| j <= m < i ==> !repeats_earlier_name(cols, m)
            },
            None => forall|m: int| j <= m < cols.len() ==> !repeats_earlier_name(cols, m),
        },
    decreases cols.len() - j,
{
    if j < cols.len() && !repeats_earlier_name(cols, j) {
        lemma_first_duplicate_from_is_first(cols, j + 1);
    }
}

/// Law: when two or more columns case-fold to colliding names (and the
/// namespace resolves to a schema in which the table is new), binding fails
/// with `DuplicatedColumn` carrying the original-case text of the first
/// repeated column in declaration order.
pub proof fn lemma_duplicated_column_names_first_repeat(
    cat: RootCatalog,
    stmt: Statement,
    r: Result<BoundCreateTable, BindError>,
)
    requires
        bind_create_table_post(cat, stmt, r),
        namespace_resolves(cat, stmt),
        !target_table_exists(cat, stmt),
        first_duplicate(stmt.column_defs()) is Some,
    ensures
        ({
            let j = first_duplicate(stmt.column_defs()).unwrap();
            &&& r matches Err(BindError::DuplicatedColumn(n)) && n@ == stmt.column_defs()[j].name@
            &&& repeats_earlier_name(stmt.column_defs(), j)
            &&& forall|m: int| 0 <= m < j ==> !repeats_earlier_name(stmt.column_defs(), m)
        }),
{
    lemma_first_duplicate_is_first(stmt.column_defs());
}

/// Fieldwise equality of two bound columns, comparing names by their text.
pub open spec fn column_equal(x: ColumnCatalog, y: ColumnCatalog) -> bool {
    &&& x.id == y.id
    &&& x.desc.name@ == y.desc.name@
    &&& x.desc.datatype == y.desc.datatype
    &&& x.desc.is_primary == y.desc.is_primary
}

/// Structural equality of two bound statements: equal identifiers, equal
/// table name text, and fieldwise-equal columns.
pub open spec fn bound_create_table_equal(a: BoundCreateTable, b: BoundCreateTable) -> bool {
    &&& a.database_id == b.database_id
    &&& a.schema_id == b.schema_id
    &&& a.table_name@ == b.table_name@
    &&& a.columns@.len() == b.columns@.len()
    &&& forall|i: int|
        0 <= i < a.columns@.len() ==> column_equal(#[trigger] a.columns@[i], b.columns@[i])
}

/// Same-variant, same-text equality of two binding errors.
pub open spec fn bind_error_equal(a: BindError, b: BindError) -> bool {
    match (a, b) {
        (BindError::InvalidDatabase(x), BindError::InvalidDatabase(y)) => x@ == y@,
        (BindError::InvalidSchema(x), BindError::InvalidSchema(y)) => x@ == y@,
        (BindError::DuplicatedTable(x), BindError::DuplicatedTable(y)) => x@ == y@,
        (BindError::DuplicatedColumn(x), BindError::DuplicatedColumn(y)) => x@ == y@,
        (BindError::NameResolution, BindError::NameResolution) => true,
        (BindError::UnsupportedColumnOption(x), BindError::UnsupportedColumnOption(y)) => x@
            == y@,
        _ => false,
    }
}

/// Structural equality of two binding results.
pub open spec fn bind_result_equal(
    r1: Result<BoundCreateTable, BindError>,
    r2: Result<BoundCreateTable, BindError>,
) -> bool {
    match (r1, r2) {
        (Ok(a), Ok(b)) => bound_create_table_equal(a, b),
        (Err(a), Err(b)) => bind_error_equal(a, b),
        _ => false,
    }
}

/// Law: binding is a pure function of the statement and the catalog state.
/// Any two results that satisfy the binding contract for the same statement
/// against the same catalog are structurally equal, so binding the same
/// statement twice against an unchanged catalog yields structurally equal
/// results.
pub proof fn lemma_bind_create_table_deterministic(
    cat: RootCatalog,
    stmt: Statement,
    r1: Result<BoundCreateTable, BindError>,
    r2: Result<BoundCreateTable, BindError>,
)
    requires
        bind_create_table_post(cat, stmt, r1),
        bind_create_table_post(cat, stmt, r2),
    ensures
        bind_result_equal(r1, r2),
{
    match (r1, r2) {
        (Ok(a), Ok(b)) => {
            let cols = stmt.column_defs();
            assert forall|i: int| 0 <= i < a.columns@.len() implies column_equal(
                #[trigger] a.columns@[i],
                b.columns@[i],
            ) by {
                assert(column_matches(a.columns@[i], i, cols[i]));
                assert(column_matches(b.columns@[i], i, cols[i]));
            }
        },
        _ => {},
    }
}

/// Splits a case-folded qualified name into its (database, schema, object)
/// parts, defaulting the database and schema when they are omitted.
fn split_name(parts: &Vec<String>) -> (r: Result<(String, String, String), BindError>)
    ensures
        match split_parts(parts@.map_values(|s: String| s@)) {
            Some(t) => r matches Ok(o) && o.0@ == t.0 && o.1@ == t.1 && o.2@ == t.2,
            None => r matches Err(BindError::NameResolution),
        },
{
    if parts.len() == 1 {
        Ok((default_database_string(), default_schema_string(), parts[0].clone()))
    } else if parts.len() == 2 {
        Ok((default_database_string(), parts[0].clone(), parts[1].clone()))
    } else if parts.len() == 3 {
        Ok((parts[0].clone(), parts[1].clone(), parts[2].clone()))
    } else {
        Err(BindError::NameResolution)
    }
}

/// Folds a column's option list into its (nullable, primary-key) pair,
/// later options overwriting earlier ones of the same kind; `None` when an
/// option outside the recognized set occurs.
fn fold_options(opts: &Vec<ColumnOption>) -> (r: Option<(bool, bool)>)
    ensures
        match r {
            Some(p) => {
                &&& !has_unsupported_option(opts@)
                &&& p.0 == nullable_of(opts@)
                &&& p.1 == primary_of(opts@)
            },
            None => has_unsupported_option(opts@),
        },
{
    let n = opts.len();
    let mut nullable = true;
    let mut primary = false;
    for k in 0..n
        invariant
            n == opts@.len(),
            nullable == nullable_of(opts@.take(k as int)),
            primary == primary_of(opts@.take(k as int)),
            forall|m: int| 0 <= m < k ==> !(opts@[m] is Other),
    {
        proof {
            assert(opts@.take(k + 1).drop_last() =~= opts@.take(k as int));
            assert(opts@.take(k + 1).last() == opts@[k as int]);
        }
        match opts[k] {
            ColumnOption::Null => {
                nullable = true;
            },
            ColumnOption::NotNull => {
                nullable = false;
            },
            ColumnOption::Unique { is_primary } => {
                primary = is_primary;
            },
            ColumnOption::Other => {
                return None;
            },
        }
    }
    proof {
        assert(opts@.take(n as int) =~= opts@);
    }
    Some((nullable, primary))
}

impl Binder {
    /// A binder over the given catalog.
    pub fn new(catalog: RootCatalog) -> (r: Binder)
        ensures
            r.catalog == catalog,
    {
        Binder { catalog }
    }

    /// Binds one `CREATE TABLE` statement against the catalog, without
    /// mutating it: resolves the qualified name, validates uniqueness of the
    /// table and of the case-folded column names, folds each column's
    /// options, and assigns declaration-order column identifiers.
    #[verifier::loop_isolation(false)]
    pub fn bind_create_table(&self, stmt: &Statement) -> (r: Result<BoundCreateTable, BindError>)
        ensures
            bind_create_table_post(self.catalog, *stmt, r),
    {
        match stmt {
            Statement::CreateTable { name, columns } => {
                // 1. case-fold the name's parts and split them into
                // (database, schema, table)
                let n_parts = name.len();
                let mut lowered: Vec<String> = Vec::new();
                for i in 0..n_parts
                    invariant
                        lowered@.len() == i,
                        forall|k: int| 0 <= k < i ==> lowered@[k]@ == lower_of(name@[k]@),
                {
                    lowered.push(to_lower_str(name[i].as_str()));
                }
                proof {
                    assert(lowered@.map_values(|s: String| s@) =~= stmt.lowered_name_parts());
                }
                let (database_name, schema_name, table_name) = match split_name(&lowered) {
                    Ok(t) => t,
                    Err(e) => {
                        return Err(e);
                    },
                };
                // 2. resolve the database, then the schema
                let db = match self.catalog.get_database_by_name(&database_name) {
                    Some(d) => d,
                    None => {
                        return Err(BindError::InvalidDatabase(database_name));
                    },
                };
                let schema = match db.get_schema_by_name(&schema_name) {
                    Some(s) => s,
                    None => {
                        return Err(BindError::InvalidSchema(schema_name));
                    },
                };
                // 3. the table must not exist yet
                if schema.get_table_by_name(&table_name).is_some() {
                    return Err(BindError::DuplicatedTable(table_name));
                }
                // 4. no two columns may share a case-folded name; the first
                // repeat in declaration order is reported, in its original
                // case
                let n_cols = columns.len();
                let mut lowered_cols: Vec<String> = Vec::new();
                for j in 0..n_cols
                    invariant
                        lowered_cols@.len() == j,
                        forall|k: int|
                            0 <= k < j ==> lowered_cols@[k]@ == lower_of(columns@[k].name@),
                {
                    lowered_cols.push(to_lower_str(columns[j].name.as_str()));
                }
                for j in 0..n_cols
                    invariant
                        first_duplicate(columns@) == first_duplicate_from(columns@, j as int),
                {
                    for i in 0..j
                        invariant
                            forall|k: int|
                                0 <= k < i ==> lower_of(columns@[k].name@) != lower_of(
                                    columns@[j as int].name@,
                                ),
                    {
                        if lowered_cols[i] == lowered_cols[j] {
                            return Err(BindError::DuplicatedColumn(columns[j].name.clone()));
                        }
                    }
                    proof {
                        assert(!repeats_earlier_name(columns@, j as int));
                    }
                }
                // 5. lower the column definitions, assigning 0-based
                // declaration-order identifiers
                let mut bound_cols: Vec<ColumnCatalog> = Vec::new();
                for idx in 0..n_cols
                    invariant
                        first_unsupported(columns@) == first_unsupported_from(
                            columns@,
                            idx as int,
                        ),
                        bound_cols@.len() == idx,
                        forall|k: int|
                            0 <= k < idx ==> column_matches(
                                #[trigger] bound_cols@[k],
                                k,
                                columns@[k],
                            ),
                {
                    let cdef = &columns[idx];
                    let folded = match fold_options(&cdef.options) {
                        Some(p) => p,
                        None => {
                            return Err(BindError::UnsupportedColumnOption(cdef.name.clone()));
                        },
                    };
                    let lowered_name = to_lower_str(cdef.name.as_str());
                    let col = ColumnCatalog::new(
                        idx,
                        ColumnDesc::new(
                            DataType::new(cdef.data_type, folded.0),
                            lowered_name,
                            folded.1,
                        ),
                    );
                    bound_cols.push(col);
                }
                Ok(
                    BoundCreateTable {
                        database_id: db.id,
                        schema_id: schema.id,
                        table_name,
                        columns: bound_cols,
                    },
                )
            },
        }
    }
}

} // verus!

