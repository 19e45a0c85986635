use dbmirror::engine::{mirror_model, SecondaryDb, SecondaryTable, TableRows};
use dbmirror::errors::FailureKind;
use dbmirror::rows::SourceRow;

fn s(x: &str) -> String {
    x.to_string()
}

fn row(pairs: Vec<(&str, Option<&str>)>) -> SourceRow {
    SourceRow {
        entries: pairs
            .into_iter()
            .map(|(n, v)| (n.to_string(), v.map(|x| x.to_string())))
            .collect(),
    }
}

fn users_primary() -> Vec<TableRows> {
    vec![TableRows {
        name: s("users"),
        rows: vec![
            row(vec![("id", Some("1")), ("name", Some("a"))]),
            row(vec![("id", Some("2")), ("name", Some("b"))]),
        ],
    }]
}

#[test]
fn reordered_columns_and_stale_row() {
    // Primary: users(id, name) with (1,"a") and (2,"b"); secondary: users
    // with reversed column order and one stale row. After mirroring the
    // secondary holds exactly the two source rows, bound by column name.
    let primary = users_primary();
    let mut secondary = SecondaryDb {
        tables: vec![SecondaryTable {
            name: s("users"),
            columns: vec![s("name"), s("id")],
            rows: vec![vec![Some(s("x")), Some(s("9"))]],
        }],
        fk_checks_enabled: true,
    };
    let r = mirror_model(&primary, &mut secondary);
    assert!(r.is_ok());
    assert_eq!(secondary.tables.len(), 1);
    assert_eq!(secondary.tables[0].name, s("users"));
    assert_eq!(secondary.tables[0].columns, vec![s("name"), s("id")]);
    assert_eq!(
        secondary.tables[0].rows,
        vec![
            vec![Some(s("a")), Some(s("1"))],
            vec![Some(s("b")), Some(s("2"))],
        ]
    );
}

#[test]
fn secondary_only_sees_its_own_tables() {
    // Primary has {a, b}; secondary only {a}: b is skipped silently, a is
    // populated, nothing is created.
    let primary = vec![
        TableRows {
            name: s("a"),
            rows: vec![row(vec![("k", Some("v"))])],
        },
        TableRows {
            name: s("b"),
            rows: vec![row(vec![("k", Some("w"))])],
        },
    ];
    let mut secondary = SecondaryDb {
        tables: vec![SecondaryTable {
            name: s("a"),
            columns: vec![s("k")],
            rows: vec![],
        }],
        fk_checks_enabled: true,
    };
    let r = mirror_model(&primary, &mut secondary);
    assert!(r.is_ok());
    assert_eq!(secondary.tables.len(), 1);
    assert_eq!(secondary.tables[0].name, s("a"));
    assert_eq!(secondary.tables[0].rows, vec![vec![Some(s("v"))]]);
}

#[test]
fn extra_column_binds_null_every_row() {
    // A secondary column with no counterpart in the fetched rows is null
    // in every inserted row.
    let primary = users_primary();
    let mut secondary = SecondaryDb {
        tables: vec![SecondaryTable {
            name: s("users"),
            columns: vec![s("id"), s("extra_col")],
            rows: vec![],
        }],
        fk_checks_enabled: true,
    };
    let r = mirror_model(&primary, &mut secondary);
    assert!(r.is_ok());
    assert_eq!(
        secondary.tables[0].rows,
        vec![vec![Some(s("1")), None], vec![Some(s("2")), None]]
    );
}

#[test]
fn row_count_equals_source_count() {
    // Truncate-before-transfer: pre-existing rows never add to the count.
    let primary = users_primary();
    let mut secondary = SecondaryDb {
        tables: vec![SecondaryTable {
            name: s("users"),
            columns: vec![s("id"), s("name")],
            rows: vec![
                vec![Some(s("7")), Some(s("x"))],
                vec![Some(s("8")), Some(s("y"))],
                vec![Some(s("9")), Some(s("z"))],
            ],
        }],
        fk_checks_enabled: true,
    };
    mirror_model(&primary, &mut secondary).unwrap();
    assert_eq!(secondary.tables[0].rows.len(), primary[0].rows.len());
}

#[test]
fn empty_source_leaves_table_empty() {
    let primary = vec![TableRows { name: s("users"), rows: vec![] }];
    let mut secondary = SecondaryDb {
        tables: vec![SecondaryTable {
            name: s("users"),
            columns: vec![s("id")],
            rows: vec![vec![Some(s("9"))]],
        }],
        fk_checks_enabled: true,
    };
    let r = mirror_model(&primary, &mut secondary);
    assert!(r.is_ok());
    assert!(secondary.tables[0].rows.is_empty());
}

#[test]
fn fk_checks_restored_after_success() {
    let primary = users_primary();
    let mut secondary = SecondaryDb {
        tables: vec![SecondaryTable {
            name: s("users"),
            columns: vec![s("id"), s("name")],
            rows: vec![],
        }],
        fk_checks_enabled: true,
    };
    mirror_model(&primary, &mut secondary).unwrap();
    assert!(secondary.fk_checks_enabled);
}

#[test]
fn mirror_twice_is_idempotent() {
    let primary = users_primary();
    let mut secondary = SecondaryDb {
        tables: vec![SecondaryTable {
            name: s("users"),
            columns: vec![s("name"), s("id")],
            rows: vec![vec![Some(s("x")), Some(s("9"))]],
        }],
        fk_checks_enabled: true,
    };
    mirror_model(&primary, &mut secondary).unwrap();
    let after_first: Vec<Vec<Vec<Option<String>>>> =
        secondary.tables.iter().map(|t| t.rows.clone()).collect();
    mirror_model(&primary, &mut secondary).unwrap();
    let after_second: Vec<Vec<Vec<Option<String>>>> =
        secondary.tables.iter().map(|t| t.rows.clone()).collect();
    assert_eq!(after_first, after_second);
}

#[test]
fn zero_columns_aborts_with_empty_schema() {
    // users reports zero columns on the secondary while the primary has
    // rows for it: the run aborts, the table ends emptied, later tables
    // are untouched, and enforcement is restored.
    let primary = vec![
        users_primary().remove(0),
        TableRows {
            name: s("later"),
            rows: vec![row(vec![("k", Some("v"))])],
        },
    ];
    let mut secondary = SecondaryDb {
        tables: vec![
            SecondaryTable {
                name: s("users"),
                columns: vec![],
                rows: vec![vec![Some(s("stale"))]],
            },
            SecondaryTable {
                name: s("later"),
                columns: vec![s("k")],
                rows: vec![vec![Some(s("old"))]],
            },
        ],
        fk_checks_enabled: true,
    };
    let r = mirror_model(&primary, &mut secondary);
    let e = r.unwrap_err();
    assert_eq!(e.kind, FailureKind::EmptySchema);
    assert_eq!(e.table, Some(s("users")));
    assert!(secondary.tables[0].rows.is_empty());
    assert_eq!(secondary.tables[1].rows, vec![vec![Some(s("old"))]]);
    assert!(secondary.fk_checks_enabled);
}
