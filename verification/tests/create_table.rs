use sql_binder::binder::{BindError, Binder, BoundCreateTable};
use sql_binder::catalog::{ColumnCatalog, RootCatalog};
use sql_binder::syntax::{ColumnDef, ColumnOption, Statement};
use sql_binder::types::DataTypeKind;

#[test]
fn bind_create_table() {
    let catalog = RootCatalog::new();
    let mut binder = Binder::new(catalog);
    // create table t1 (v1 int not null, v2 int);
    // create table t2 (a int not null, a int not null);
    // create table t3 (v1 int not null);
    let stmts = vec![
        Statement::CreateTable {
            name: vec!["t1".into()],
            columns: vec![
                ColumnDef {
                    name: "v1".into(),
                    data_type: DataTypeKind::Int(None),
                    options: vec![ColumnOption::NotNull],
                },
                ColumnDef {
                    name: "v2".into(),
                    data_type: DataTypeKind::Int(None),
                    options: vec![],
                },
            ],
        },
        Statement::CreateTable {
            name: vec!["t2".into()],
            columns: vec![
                ColumnDef {
                    name: "a".into(),
                    data_type: DataTypeKind::Int(None),
                    options: vec![ColumnOption::NotNull],
                },
                ColumnDef {
                    name: "a".into(),
                    data_type: DataTypeKind::Int(None),
                    options: vec![ColumnOption::NotNull],
                },
            ],
        },
        Statement::CreateTable {
            name: vec!["t3".into()],
            columns: vec![ColumnDef {
                name: "v1".into(),
                data_type: DataTypeKind::Int(None),
                options: vec![ColumnOption::NotNull],
            }],
        },
    ];

    assert_eq!(
        binder.bind_create_table(&stmts[0]).unwrap(),
        BoundCreateTable {
            database_id: 0,
            schema_id: 0,
            table_name: "t1".into(),
            columns: vec![
                ColumnCatalog::new(0, DataTypeKind::Int(None).not_null().to_column("v1".into())),
                ColumnCatalog::new(1, DataTypeKind::Int(None).nullable().to_column("v2".into())),
            ],
        }
    );

    assert_eq!(
        binder.bind_create_table(&stmts[1]),
        Err(BindError::DuplicatedColumn("a".into()))
    );

    binder.catalog.add_table(0, 0, "t3".into(), vec![]).unwrap();
    assert_eq!(
        binder.bind_create_table(&stmts[2]),
        Err(BindError::DuplicatedTable("t3".into()))
    );
}

#[test]
fn column_ids_follow_declaration_order() {
    let binder = Binder::new(RootCatalog::new());
    let stmt = Statement::CreateTable {
        name: vec!["wide".into()],
        columns: vec![
            ColumnDef {
                name: "zzz".into(),
                data_type: DataTypeKind::Varchar(Some(16)),
                options: vec![],
            },
            ColumnDef {
                name: "aaa".into(),
                data_type: DataTypeKind::Boolean,
                options: vec![ColumnOption::NotNull],
            },
            ColumnDef {
                name: "mmm".into(),
                data_type: DataTypeKind::Date,
                options: vec![ColumnOption::Unique { is_primary: true }],
            },
        ],
    };
    let bound = binder.bind_create_table(&stmt).unwrap();
    assert_eq!(bound.columns.len(), 3);
    for (i, col) in bound.columns.iter().enumerate() {
        assert_eq!(col.id, i);
    }
    assert_eq!(bound.columns[0].desc.name, "zzz");
    assert_eq!(bound.columns[2].desc.is_primary, true);
}

#[test]
fn nullability_defaults_to_nullable() {
    let binder = Binder::new(RootCatalog::new());
    let stmt = Statement::CreateTable {
        name: vec!["t".into()],
        columns: vec![
            ColumnDef {
                name: "plain".into(),
                data_type: DataTypeKind::Int(None),
                options: vec![],
            },
            ColumnDef {
                name: "keyed".into(),
                data_type: DataTypeKind::Int(None),
                options: vec![ColumnOption::Unique { is_primary: false }],
            },
        ],
    };
    let bound = binder.bind_create_table(&stmt).unwrap();
    assert_eq!(bound.columns[0].desc.datatype.nullable, true);
    assert_eq!(bound.columns[1].desc.datatype.nullable, true);
}

#[test]
fn last_option_of_a_kind_wins() {
    let binder = Binder::new(RootCatalog::new());
    let stmt = Statement::CreateTable {
        name: vec!["t".into()],
        columns: vec![
            ColumnDef {
                name: "a".into(),
                data_type: DataTypeKind::Int(None),
                options: vec![ColumnOption::NotNull, ColumnOption::Null],
            },
            ColumnDef {
                name: "b".into(),
                data_type: DataTypeKind::Int(None),
                options: vec![ColumnOption::Null, ColumnOption::NotNull],
            },
            ColumnDef {
                name: "c".into(),
                data_type: DataTypeKind::Int(None),
                options: vec![
                    ColumnOption::Unique { is_primary: true },
                    ColumnOption::Unique { is_primary: false },
                ],
            },
        ],
    };
    let bound = binder.bind_create_table(&stmt).unwrap();
    assert_eq!(bound.columns[0].desc.datatype.nullable, true);
    assert_eq!(bound.columns[1].desc.datatype.nullable, false);
    assert_eq!(bound.columns[2].desc.is_primary, false);
}

#[test]
fn duplicated_table_is_found_case_insensitively() {
    let mut binder = Binder::new(RootCatalog::new());
    binder.catalog.add_table(0, 0, "t4".into(), vec![]).unwrap();
    let stmt = Statement::CreateTable {
        name: vec!["T4".into()],
        columns: vec![
            // even with a duplicate column, the table error is reported
            ColumnDef {
                name: "x".into(),
                data_type: DataTypeKind::Int(None),
                options: vec![],
            },
            ColumnDef {
                name: "X".into(),
                data_type: DataTypeKind::Int(None),
                options: vec![],
            },
        ],
    };
    assert_eq!(
        binder.bind_create_table(&stmt),
        Err(BindError::DuplicatedTable("t4".into()))
    );
}

#[test]
fn duplicated_column_names_collide_case_insensitively() {
    let binder = Binder::new(RootCatalog::new());
    let stmt = Statement::CreateTable {
        name: vec!["t".into()],
        columns: vec![
            ColumnDef {
                name: "Foo".into(),
                data_type: DataTypeKind::Int(None),
                options: vec![],
            },
            ColumnDef {
                name: "foo".into(),
                data_type: DataTypeKind::Int(None),
                options: vec![],
            },
        ],
    };
    // the first repeated column is reported with its original-case text
    assert_eq!(
        binder.bind_create_table(&stmt),
        Err(BindError::DuplicatedColumn("foo".into()))
    );
}

#[test]
fn duplicated_column_names_collide_beyond_ascii() {
    let binder = Binder::new(RootCatalog::new());
    let stmt = Statement::CreateTable {
        name: vec!["t".into()],
        columns: vec![
            ColumnDef {
                name: "\u{c4}".into(),
                data_type: DataTypeKind::Int(None),
                options: vec![],
            },
            ColumnDef {
                name: "\u{e4}".into(),
                data_type: DataTypeKind::Int(None),
                options: vec![],
            },
        ],
    };
    assert_eq!(
        binder.bind_create_table(&stmt),
        Err(BindError::DuplicatedColumn("\u{e4}".into()))
    );
}

#[test]
fn bound_names_are_folded_beyond_ascii() {
    let binder = Binder::new(RootCatalog::new());
    let stmt = Statement::CreateTable {
        name: vec!["\u{c9}tab".into()],
        columns: vec![ColumnDef {
            name: "\u{c9}".into(),
            data_type: DataTypeKind::Int(None),
            options: vec![],
        }],
    };
    let bound = binder.bind_create_table(&stmt).unwrap();
    assert_eq!(bound.table_name, "\u{e9}tab");
    assert_eq!(bound.columns[0].desc.name, "\u{e9}");
}

#[test]
fn first_duplicate_in_declaration_order_is_reported() {
    let binder = Binder::new(RootCatalog::new());
    let stmt = Statement::CreateTable {
        name: vec!["t".into()],
        columns: vec![
            ColumnDef {
                name: "a".into(),
                data_type: DataTypeKind::Int(None),
                options: vec![],
            },
            ColumnDef {
                name: "b".into(),
                data_type: DataTypeKind::Int(None),
                options: vec![],
            },
            ColumnDef {
                name: "B".into(),
                data_type: DataTypeKind::Int(None),
                options: vec![],
            },
            ColumnDef {
                name: "A".into(),
                data_type: DataTypeKind::Int(None),
                options: vec![],
            },
        ],
    };
    assert_eq!(
        binder.bind_create_table(&stmt),
        Err(BindError::DuplicatedColumn("B".into()))
    );
}

#[test]
fn unknown_database_is_reported() {
    let binder = Binder::new(RootCatalog::new());
    // create table nosuchdb.s.t (v int);
    let stmt = Statement::CreateTable {
        name: vec!["nosuchdb".into(), "s".into(), "t".into()],
        columns: vec![ColumnDef {
            name: "v".into(),
            data_type: DataTypeKind::Int(None),
            options: vec![],
        }],
    };
    assert_eq!(
        binder.bind_create_table(&stmt),
        Err(BindError::InvalidDatabase("nosuchdb".into()))
    );
}

#[test]
fn unknown_schema_is_reported() {
    let binder = Binder::new(RootCatalog::new());
    let stmt = Statement::CreateTable {
        name: vec!["nosuchschema".into(), "t".into()],
        columns: vec![],
    };
    assert_eq!(
        binder.bind_create_table(&stmt),
        Err(BindError::InvalidSchema("nosuchschema".into()))
    );
}

#[test]
fn unknown_schema_wins_over_duplicate_columns() {
    let binder = Binder::new(RootCatalog::new());
    let stmt = Statement::CreateTable {
        name: vec!["nosuchschema".into(), "t".into()],
        columns: vec![
            ColumnDef {
                name: "dup".into(),
                data_type: DataTypeKind::Int(None),
                options: vec![],
            },
            ColumnDef {
                name: "dup".into(),
                data_type: DataTypeKind::Int(None),
                options: vec![],
            },
        ],
    };
    assert_eq!(
        binder.bind_create_table(&stmt),
        Err(BindError::InvalidSchema("nosuchschema".into()))
    );
}

#[test]
fn overqualified_name_is_rejected() {
    let binder = Binder::new(RootCatalog::new());
    let stmt = Statement::CreateTable {
        name: vec!["a".into(), "b".into(), "c".into(), "d".into()],
        columns: vec![],
    };
    assert_eq!(binder.bind_create_table(&stmt), Err(BindError::NameResolution));
    let empty = Statement::CreateTable { name: vec![], columns: vec![] };
    assert_eq!(binder.bind_create_table(&empty), Err(BindError::NameResolution));
}

#[test]
fn unsupported_column_option_is_rejected() {
    let binder = Binder::new(RootCatalog::new());
    let stmt = Statement::CreateTable {
        name: vec!["t".into()],
        columns: vec![
            ColumnDef {
                name: "ok_col".into(),
                data_type: DataTypeKind::Int(None),
                options: vec![ColumnOption::NotNull],
            },
            ColumnDef {
                name: "odd_col".into(),
                data_type: DataTypeKind::Int(None),
                options: vec![ColumnOption::Other],
            },
        ],
    };
    assert_eq!(
        binder.bind_create_table(&stmt),
        Err(BindError::UnsupportedColumnOption("odd_col".into()))
    );
}

#[test]
fn names_are_folded_to_lower_case() {
    let binder = Binder::new(RootCatalog::new());
    let stmt = Statement::CreateTable {
        name: vec!["Postgres".into(), "POSTGRES".into(), "MyTab".into()],
        columns: vec![ColumnDef {
            name: "VaLuE".into(),
            data_type: DataTypeKind::Int(None),
            options: vec![],
        }],
    };
    let bound = binder.bind_create_table(&stmt).unwrap();
    assert_eq!(bound.table_name, "mytab");
    assert_eq!(bound.columns[0].desc.name, "value");
}

#[test]
fn binding_twice_yields_equal_results() {
    let binder = Binder::new(RootCatalog::new());
    let stmt = Statement::CreateTable {
        name: vec!["t5".into()],
        columns: vec![
            ColumnDef {
                name: "v1".into(),
                data_type: DataTypeKind::Int(None),
                options: vec![ColumnOption::NotNull],
            },
            ColumnDef {
                name: "v2".into(),
                data_type: DataTypeKind::Char(Some(8)),
                options: vec![],
            },
        ],
    };
    let first = binder.bind_create_table(&stmt);
    let second = binder.bind_create_table(&stmt);
    assert_eq!(first, second);
    assert!(first.is_ok());
}

#[test]
fn binding_an_empty_column_list_succeeds() {
    let binder = Binder::new(RootCatalog::new());
    let stmt = Statement::CreateTable { name: vec!["bare".into()], columns: vec![] };
    let bound = binder.bind_create_table(&stmt).unwrap();
    assert_eq!(bound.database_id, 0);
    assert_eq!(bound.schema_id, 0);
    assert_eq!(bound.table_name, "bare");
    assert_eq!(bound.columns.len(), 0);
}
