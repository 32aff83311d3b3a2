//! The catalog model: an in-memory hierarchy of databases, schemas, tables
//! and columns, each with a stable integer identifier, queryable by name or
//! by id.
//!
//! The binder treats the catalog as read-only during binding; `add_table` is
//! the mutation entry point invoked by the caller after a successful bind,
//! and folds the table name before storing it. Names are stored folded to
//! lower case, so every lookup is an exact comparison.

use vstd::prelude::*;
use crate::types::{ColumnId, DataType, DatabaseId, SchemaId, TableId};

verus! {

/// First index in `names` holding `target`, if any.
pub open spec fn find_name(names: Seq<Seq<char>>, target: Seq<char>) -> Option<int> {
    find_name_from(names, target, 0)
}

/// First index `i <= j` in `names` holding `target`, if any.
pub open spec fn find_name_from(names: Seq<Seq<char>>, target: Seq<char>, j: int) -> Option<int>
    decreases names.len() - j,
{
    if j < 0 || j >= names.len() {
        None
    } else if names[j] == target {
        Some(j)
    } else {
        find_name_from(names, target, j + 1)
    }
}

/// First index in `ids` holding `target`, if any.
pub open spec fn find_id(ids: Seq<usize>, target: usize) -> Option<int> {
    find_id_from(ids, target, 0)
}

/// First index `i <= j` in `ids` holding `target`, if any.
pub open spec fn find_id_from(ids: Seq<usize>, target: usize, j: int) -> Option<int>
    decreases ids.len() - j,
{
    if j < 0 || j >= ids.len() {
        None
    } else if ids[j] == target {
        Some(j)
    } else {
        find_id_from(ids, target, j + 1)
    }
}

/// Descriptor of one column: its data type (with nullability), its
/// lower-cased name, and whether it is a primary key.
#[derive(Debug, PartialEq, Eq, Clone)]
pub struct ColumnDesc {
    pub datatype: DataType,
    pub name: String,
    pub is_primary: bool,
}

impl ColumnDesc {
    pub fn new(datatype: DataType, name: String, is_primary: bool) -> (r: ColumnDesc)
        ensures
            r.datatype == datatype,
            r.name == name,
            r.is_primary == is_primary,
    {
        ColumnDesc { datatype, name, is_primary }
    }
}

impl DataType {
    /// This data type as the descriptor of a column named `name`, not a
    /// primary key.
    pub fn to_column(self, name: String) -> (r: ColumnDesc)
        ensures
            r.datatype == self,
            r.name == name,
            r.is_primary == false,
    {
        ColumnDesc::new(self, name, false)
    }
}

/// A column entry of a table: a position-stable identifier and a descriptor.
#[derive(Debug, PartialEq, Eq, Clone)]
pub struct ColumnCatalog {
    pub id: ColumnId,
    pub desc: ColumnDesc,
}

impl ColumnCatalog {
    pub fn new(id: ColumnId, desc: ColumnDesc) -> (r: ColumnCatalog)
        ensures
            r.id == id,
            r.desc == desc,
    {
        ColumnCatalog { id, desc }
    }
}

/// A table entry of a schema: identifier, lower-cased name, and its columns
/// in declaration order.
#[derive(Debug, PartialEq, Eq, Clone)]
pub struct TableCatalog {
    pub id: TableId,
    pub name: String,
    pub columns: Vec<ColumnCatalog>,
}

/// A schema entry of a database: identifier, lower-cased name, and its
/// tables.
#[derive(Debug, PartialEq, Eq, Clone)]
pub struct SchemaCatalog {
    pub id: SchemaId,
    pub name: String,
    pub tables: Vec<TableCatalog>,
}

impl SchemaCatalog {
    /// The names of this schema's tables, in storage order.
    pub open spec fn table_names(self) -> Seq<Seq<char>> {
        self.tables@.map_values(|t: TableCatalog| t.name@)
    }

    /// Looks a table up by its exact (lower-cased) name; the first match
    /// wins.
    pub fn get_table_by_name(&self, name: &String) -> (r: Option<&TableCatalog>)
        ensures
            match r {
                Some(t) => {
                    &&& find_name(self.table_names(), name@) matches Some(i)
                    &&& *t == self.tables@[find_name(self.table_names(), name@).unwrap()]
                },
                None => find_name(self.table_names(), name@) is None,
            },
    {
        let n = self.tables.len();
        for j in 0..n
            invariant
                n == self.tables@.len(),
                find_name(self.table_names(), name@) == find_name_from(
                    self.table_names(),
                    name@,
                    j as int,
                ),
        {
            if self.tables[j].name == *name {
                return Some(&self.tables[j]);
            }
        }
        None
    }
}

/// A database entry of the catalog: identifier, lower-cased name, and its
/// schemas.
#[derive(Debug, PartialEq, Eq, Clone)]
pub struct DatabaseCatalog {
    pub id: DatabaseId,
    pub name: String,
    pub schemas: Vec<SchemaCatalog>,
}

impl DatabaseCatalog {
    /// The names of this database's schemas, in storage order.
    pub open spec fn schema_names(self) -> Seq<Seq<char>> {
        self.schemas@.map_values(|s: SchemaCatalog| s.name@)
    }

    /// The identifiers of this database's schemas, in storage order.
    pub open spec fn schema_ids(self) -> Seq<SchemaId> {
        self.schemas@.map_values(|s: SchemaCatalog| s.id)
    }

    /// Looks a schema up by its exact (lower-cased) name; the first match
    /// wins.
    pub fn get_schema_by_name(&self, name: &String) -> (r: Option<&SchemaCatalog>)
        ensures
            match r {
                Some(s) => {
                    &&& find_name(self.schema_names(), name@) matches Some(i)
                    &&& *s == self.schemas@[find_name(self.schema_names(), name@).unwrap()]
                },
                None => find_name(self.schema_names(), name@) is None,
            },
    {
        let n = self.schemas.len();
        for j in 0..n
            invariant
                n == self.schemas@.len(),
                find_name(self.schema_names(), name@) == find_name_from(
                    self.schema_names(),
                    name@,
                    j as int,
                ),
        {
            if self.schemas[j].name == *name {
                return Some(&self.schemas[j]);
            }
        }
        None
    }

    /// Index of the schema with the given identifier, if any.
    fn get_schema_index(&self, id: SchemaId) -> (r: Option<usize>)
        ensures
            match r {
                Some(i) => i < self.schemas@.len() && find_id(self.schema_ids(), id) == Some(
                    i as int,
                ),
                None => find_id(self.schema_ids(), id) is None,
            },
    {
        let n = self.schemas.len();
        for j in 0..n
            invariant
                n == self.schemas@.len(),
                find_id(self.schema_ids(), id) == find_id_from(self.schema_ids(), id, j as int),
        {
            if self.schemas[j].id == id {
                return Some(j);
            }
        }
        None
    }

    /// Looks a schema up by its identifier; the first match wins.
    pub fn get_schema_by_id(&self, id: SchemaId) -> (r: Option<&SchemaCatalog>)
        ensures
            match r {
                Some(s) => {
                    &&& find_id(self.schema_ids(), id) matches Some(i)
                    &&& *s == self.schemas@[find_id(self.schema_ids(), id).unwrap()]
                },
                None => find_id(self.schema_ids(), id) is None,
            },
    {
        let n = self.schemas.len();
        for j in 0..n
            invariant
                n == self.schemas@.len(),
                find_id(self.schema_ids(), id) == find_id_from(self.schema_ids(), id, j as int),
        {
            if self.schemas[j].id == id {
                return Some(&self.schemas[j]);
            }
        }
        None
    }
}

/// Why a catalog mutation was refused.
#[derive(Debug, PartialEq, Eq, Clone, Copy)]
pub enum CatalogError {
    /// The named entry does not exist at the given level.
    NotFound,
    /// An entry of that name already exists at the given level.
    Duplicated,
}

/// The root of the catalog: every database of the process.
#[derive(Debug, PartialEq, Eq, Clone)]
pub struct RootCatalog {
    pub databases: Vec<DatabaseCatalog>,
}

impl RootCatalog {
    /// The names of the databases, in storage order.
    pub open spec fn database_names(self) -> Seq<Seq<char>> {
        self.databases@.map_values(|d: DatabaseCatalog| d.name@)
    }

    /// The identifiers of the databases, in storage order.
    pub open spec fn database_ids(self) -> Seq<DatabaseId> {
        self.databases@.map_values(|d: DatabaseCatalog| d.id)
    }

    /// A fresh catalog holding one default database (id 0) with one default
    /// schema (id 0) and no tables.
    pub fn new() -> (r: RootCatalog)
        ensures
            r.databases@.len() == 1,
            r.databases@[0].id == 0,
            r.databases@[0].name@ == crate::ident::default_database_name(),
            r.databases@[0].schemas@.len() == 1,
            r.databases@[0].schemas@[0].id == 0,
            r.databases@[0].schemas@[0].name@ == crate::ident::default_schema_name(),
            r.databases@[0].schemas@[0].tables@.len() == 0,
    {
        let schema = SchemaCatalog {
            id: 0,
            name: crate::ident::default_schema_string(),
            tables: Vec::new(),
        };
        let mut schemas: Vec<SchemaCatalog> = Vec::new();
        schemas.push(schema);
        let database = DatabaseCatalog {
            id: 0,
            name: crate::ident::default_database_string(),
            schemas,
        };
        let mut databases: Vec<DatabaseCatalog> = Vec::new();
        databases.push(database);
        RootCatalog { databases }
    }

    /// Looks a database up by its exact (lower-cased) name; the first match
    /// wins.
    pub fn get_database_by_name(&self, name: &String) -> (r: Option<&DatabaseCatalog>)
        ensures
            match r {
                Some(d) => {
                    &&& find_name(self.database_names(), name@) matches Some(i)
                    &&& *d == self.databases@[find_name(self.database_names(), name@).unwrap()]
                },
                None => find_name(self.database_names(), name@) is None,
            },
    {
        let n = self.databases.len();
        for j in 0..n
            invariant
                n == self.databases@.len(),
                find_name(self.database_names(), name@) == find_name_from(
                    self.database_names(),
                    name@,
                    j as int,
                ),
        {
            if self.databases[j].name == *name {
                return Some(&self.databases[j]);
            }
        }
        None
    }

    /// Looks a database up by its identifier; the first match wins.
    pub fn get_database_by_id(&self, id: DatabaseId) -> (r: Option<&DatabaseCatalog>)
        ensures
            match r {
                Some(d) => {
                    &&& find_id(self.database_ids(), id) matches Some(i)
                    &&& *d == self.databases@[find_id(self.database_ids(), id).unwrap()]
                },
                None => find_id(self.database_ids(), id) is None,
            },
    {
        let n = self.databases.len();
        for j in 0..n
            invariant
                n == self.databases@.len(),
                find_id(self.database_ids(), id) == find_id_from(
                    self.database_ids(),
                    id,
                    j as int,
                ),
        {
            if self.databases[j].id == id {
                return Some(&self.databases[j]);
            }
        }
        None
    }
    /// Registers a new table under the given database and schema, assigning
    /// it the next free table identifier. The name is folded to lower case
    /// before the duplicate check and before storage, so table names stay
    /// unique case-insensitively within a schema. The mutation entry point
    /// the caller invokes after a successful bind; the binder itself never
    /// calls it.
    pub fn add_table(
        &mut self,
        database_id: DatabaseId,
        schema_id: SchemaId,
        name: String,
        columns: Vec<ColumnCatalog>,
    ) -> (r: Result<TableId, CatalogError>)
        ensures
            add_table_post(*old(self), *final(self), database_id, schema_id, name, columns, r),
    {
        let di = match self.get_database_index(database_id) {
            Some(i) => i,
            None => {
                return Err(CatalogError::NotFound);
            },
        };
        let si = match self.databases[di].get_schema_index(schema_id) {
            Some(i) => i,
            None => {
                return Err(CatalogError::NotFound);
            },
        };
        let folded = crate::ident::to_lower_str(name.as_str());
        if self.databases[di].schemas[si].get_table_by_name(&folded).is_some() {
            return Err(CatalogError::Duplicated);
        }
        let schema = &mut self.databases[di].schemas[si];
        let id = schema.tables.len();
        schema.tables.push(TableCatalog { id, name: folded, columns });
        Ok(id)
    }

    /// Index of the database with the given identifier, if any.
    fn get_database_index(&self, id: DatabaseId) -> (r: Option<usize>)
        ensures
            match r {
                Some(i) => i < self.databases@.len() && find_id(self.database_ids(), id)
                    == Some(i as int),
                None => find_id(self.database_ids(), id) is None,
            },
    {
        let n = self.databases.len();
        for j in 0..n
            invariant
                n == self.databases@.len(),
                find_id(self.database_ids(), id) == find_id_from(
                    self.database_ids(),
                    id,
                    j as int,
                ),
        {
            if self.databases[j].id == id {
                return Some(j);
            }
        }
        None
    }
}

/// What `RootCatalog::add_table` did: on success the named schema holds one
/// more table, carrying the case-folded name and the given columns under
/// the next free identifier, and nothing else in the catalog has changed;
/// otherwise the catalog is unchanged and the error says what was wrong.
pub open spec fn add_table_post(
    pre: RootCatalog,
    post: RootCatalog,
    database_id: DatabaseId,
    schema_id: SchemaId,
    name: String,
    columns: Vec<ColumnCatalog>,
    r: Result<TableId, CatalogError>,
) -> bool {
    match find_id(pre.database_ids(), database_id) {
        None => r == Err::<TableId, CatalogError>(CatalogError::NotFound) && post == pre,
        Some(di) => {
            let db = pre.databases@[di];
            match find_id(db.schema_ids(), schema_id) {
                None => r == Err::<TableId, CatalogError>(CatalogError::NotFound) && post == pre,
                Some(si) => {
                    let schema = db.schemas@[si];
                    if find_name(schema.table_names(), crate::ident::lower_of(name@)) is Some {
                        r == Err::<TableId, CatalogError>(CatalogError::Duplicated) && post == pre
                    } else {
                        &&& r == Ok::<TableId, CatalogError>(schema.tables@.len() as TableId)
                        &&& post.databases@.len() == pre.databases@.len()
                        &&& forall|k: int|
                            0 <= k < pre.databases@.len() && k != di
                                ==> post.databases@[k] == pre.databases@[k]
                        &&& post.databases@[di].id == db.id
                        &&& post.databases@[di].name == db.name
                        &&& post.databases@[di].schemas@.len() == db.schemas@.len()
                        &&& forall|k: int|
                            0 <= k < db.schemas@.len() && k != si
                                ==> post.databases@[di].schemas@[k] == db.schemas@[k]
                        &&& post.databases@[di].schemas@[si].id == schema.id
                        &&& post.databases@[di].schemas@[si].name == schema.name
                        &&& post.databases@[di].schemas@[si].tables@.len() == schema.tables@.len()
                            + 1
                        &&& forall|k: int|
                            0 <= k < schema.tables@.len()
                                ==> post.databases@[di].schemas@[si].tables@[k]
                                == schema.tables@[k]
                        &&& post.databases@[di].schemas@[si].tables@.last().id == schema.tables@.len() as TableId
                        &&& post.databases@[di].schemas@[si].tables@.last().name@
                            == crate::ident::lower_of(name@)
                        &&& post.databases@[di].schemas@[si].tables@.last().columns == columns
                    }
                },
            }
        },
    }
}

} // verus!
