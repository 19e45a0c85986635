use dbmirror::errors::{FailureKind, MirrorError};
use dbmirror::rows::SourceRow;
use dbmirror::session::{start, DbAction, DbEvent, Mirror};

fn s(x: &str) -> String {
    x.to_string()
}

fn row(pairs: Vec<(&str, Option<&str>)>) -> SourceRow {
    SourceRow {
        entries: pairs
            .into_iter()
            .map(|(n, v)| (n.to_string(), v.map(|x| x.to_string())))
            .collect(),
    }
}

fn expect_exec(a: DbAction) -> String {
    match a {
        DbAction::ExecSecondary { statement } => statement,
        _ => panic!("expected an execute action"),
    }
}

#[test]
fn full_run_over_one_table() {
    let (m, a) = start(&s("prim"), s("sec"));
    match a {
        DbAction::QueryPrimaryTables { statement, binds } => {
            assert_eq!(
                statement,
                "SELECT TABLE_NAME FROM information_schema.TABLES WHERE TABLE_SCHEMA = ? AND TABLE_TYPE = ?"
            );
            assert_eq!(binds, vec![s("prim"), s("BASE TABLE")]);
        }
        _ => panic!("expected the discovery action"),
    }

    let (m, a) = m.step(DbEvent::Tables(vec![b"users".to_vec()]));
    match a {
        DbAction::QuerySecondaryExists { statement, binds } => {
            assert_eq!(
                statement,
                "SELECT COUNT(*) AS count FROM INFORMATION_SCHEMA.TABLES WHERE TABLE_SCHEMA = ? AND TABLE_NAME = ?"
            );
            assert_eq!(binds, vec![s("sec"), s("users")]);
        }
        _ => panic!("expected the existence probe"),
    }

    let (m, a) = m.step(DbEvent::Exists(true));
    assert_eq!(expect_exec(a), "SET FOREIGN_KEY_CHECKS = 0");

    let (m, a) = m.step(DbEvent::Ack);
    assert_eq!(expect_exec(a), "TRUNCATE TABLE sec.users");

    let (m, a) = m.step(DbEvent::Ack);
    match a {
        DbAction::QueryPrimaryRows { statement } => {
            assert_eq!(statement, "SELECT * FROM `users`");
        }
        _ => panic!("expected the source fetch"),
    }

    let fetched = vec![
        row(vec![("id", Some("1")), ("name", Some("a"))]),
        row(vec![("id", Some("2")), ("name", Some("b"))]),
    ];
    let (m, a) = m.step(DbEvent::Rows(fetched));
    match a {
        DbAction::QuerySecondaryColumns { statement } => {
            assert_eq!(
                statement,
                "SELECT COLUMN_NAME FROM INFORMATION_SCHEMA.COLUMNS WHERE TABLE_SCHEMA = DATABASE() AND TABLE_NAME = 'users'"
            );
        }
        _ => panic!("expected the column listing"),
    }

    let (m, a) = m.step(DbEvent::Columns(vec![s("name"), s("id")]));
    match a {
        DbAction::InsertSecondary { statement, columns, rows } => {
            assert_eq!(statement, "INSERT INTO `users` (name, id) VALUES (?, ?)");
            assert_eq!(columns, vec![s("name"), s("id")]);
            assert_eq!(
                rows,
                vec![
                    vec![Some(s("a")), Some(s("1"))],
                    vec![Some(s("b")), Some(s("2"))],
                ]
            );
        }
        _ => panic!("expected the insert batch"),
    }

    let (m, a) = m.step(DbEvent::Inserted(2));
    assert_eq!(expect_exec(a), "SET FOREIGN_KEY_CHECKS = 1");

    let (_, a) = m.step(DbEvent::Ack);
    match a {
        DbAction::Finish { outcome } => assert!(outcome.is_ok()),
        _ => panic!("expected the run to finish"),
    }
}

#[test]
fn absent_table_is_skipped_without_touching_it() {
    let (m, _) = start(&s("prim"), s("sec"));
    let (m, _) = m.step(DbEvent::Tables(vec![b"gone".to_vec(), b"kept".to_vec()]));
    // The probe says `gone` is absent: the next action is the probe for
    // `kept`, never a truncate or insert for `gone`.
    let (m, a) = m.step(DbEvent::Exists(false));
    match a {
        DbAction::QuerySecondaryExists { binds, .. } => {
            assert_eq!(binds, vec![s("sec"), s("kept")]);
        }
        _ => panic!("expected the next existence probe"),
    }
    let (m, a) = m.step(DbEvent::Exists(false));
    assert_eq!(expect_exec(a), "SET FOREIGN_KEY_CHECKS = 1");
    let (_, a) = m.step(DbEvent::Ack);
    match a {
        DbAction::Finish { outcome } => assert!(outcome.is_ok()),
        _ => panic!("expected the run to finish"),
    }
}

#[test]
fn empty_source_table_skips_column_fetch() {
    let (m, _) = start(&s("prim"), s("sec"));
    let (m, _) = m.step(DbEvent::Tables(vec![b"users".to_vec()]));
    let (m, _) = m.step(DbEvent::Exists(true));
    let (m, _) = m.step(DbEvent::Ack);
    let (m, _) = m.step(DbEvent::Ack);
    // No rows: straight to restoration, the truncated table stays empty.
    let (m, a) = m.step(DbEvent::Rows(vec![]));
    assert_eq!(expect_exec(a), "SET FOREIGN_KEY_CHECKS = 1");
    let (_, a) = m.step(DbEvent::Ack);
    match a {
        DbAction::Finish { outcome } => assert!(outcome.is_ok()),
        _ => panic!("expected the run to finish"),
    }
}

#[test]
fn multibyte_table_name_is_decoded() {
    let (m, _) = start(&s("prim"), s("sec"));
    let (_, a) = m.step(DbEvent::Tables(vec![vec![0x63, 0x61, 0x66, 0xC3, 0xA9]]));
    match a {
        DbAction::QuerySecondaryExists { binds, .. } => {
            assert_eq!(binds, vec![s("sec"), s("caf\u{e9}")]);
        }
        _ => panic!("expected the existence probe"),
    }
}

#[test]
fn invalid_name_bytes_abort_with_decode_error() {
    let (m, _) = start(&s("prim"), s("sec"));
    let (m, a) = m.step(DbEvent::Tables(vec![vec![0xFF, 0xFE]]));
    // Enforcement is still restored before the failure is reported.
    assert_eq!(expect_exec(a), "SET FOREIGN_KEY_CHECKS = 1");
    let (_, a) = m.step(DbEvent::Ack);
    match a {
        DbAction::Finish { outcome } => {
            assert_eq!(outcome.unwrap_err().kind, FailureKind::Decode);
        }
        _ => panic!("expected the run to finish"),
    }
}

#[test]
fn zero_columns_abort_with_empty_schema() {
    let (m, _) = start(&s("prim"), s("sec"));
    let (m, _) = m.step(DbEvent::Tables(vec![b"users".to_vec()]));
    let (m, _) = m.step(DbEvent::Exists(true));
    let (m, _) = m.step(DbEvent::Ack);
    let (m, _) = m.step(DbEvent::Ack);
    let (m, _) = m.step(DbEvent::Rows(vec![row(vec![("id", Some("1"))])]));
    let (m, a) = m.step(DbEvent::Columns(vec![]));
    assert_eq!(expect_exec(a), "SET FOREIGN_KEY_CHECKS = 1");
    let (_, a) = m.step(DbEvent::Ack);
    match a {
        DbAction::Finish { outcome } => {
            let e = outcome.unwrap_err();
            assert_eq!(e.kind, FailureKind::EmptySchema);
            assert_eq!(e.table, Some(s("users")));
        }
        _ => panic!("expected the run to finish"),
    }
}

#[test]
fn driver_failure_restores_enforcement_then_reports_it() {
    let (m, _) = start(&s("prim"), s("sec"));
    let (m, _) = m.step(DbEvent::Tables(vec![b"users".to_vec()]));
    let failure = MirrorError {
        kind: FailureKind::Connection,
        table: None,
        detail: s("server went away"),
    };
    let (m, a) = m.step(DbEvent::Failed(failure));
    assert_eq!(expect_exec(a), "SET FOREIGN_KEY_CHECKS = 1");
    let (_, a) = m.step(DbEvent::Ack);
    match a {
        DbAction::Finish { outcome } => {
            let e = outcome.unwrap_err();
            assert_eq!(e.kind, FailureKind::Connection);
            assert_eq!(e.detail, s("server went away"));
        }
        _ => panic!("expected the run to finish"),
    }
}

#[test]
fn first_failure_wins_over_restore_failure() {
    let (m, _) = start(&s("prim"), s("sec"));
    let query_failure = MirrorError {
        kind: FailureKind::Query,
        table: None,
        detail: s("rejected"),
    };
    let (m, _) = m.step(DbEvent::Failed(query_failure));
    let restore_failure = MirrorError {
        kind: FailureKind::Connection,
        table: None,
        detail: s("also down"),
    };
    let (_, a) = m.step(DbEvent::Failed(restore_failure));
    match a {
        DbAction::Finish { outcome } => {
            assert_eq!(outcome.unwrap_err().kind, FailureKind::Query);
        }
        _ => panic!("expected the run to finish"),
    }
}

#[test]
fn no_tables_still_restores_enforcement() {
    let (m, _) = start(&s("prim"), s("sec"));
    let (m, a) = m.step(DbEvent::Tables(vec![]));
    assert_eq!(expect_exec(a), "SET FOREIGN_KEY_CHECKS = 1");
    let (m2, a): (Mirror, DbAction) = m.step(DbEvent::Ack);
    let _ = m2;
    match a {
        DbAction::Finish { outcome } => assert!(outcome.is_ok()),
        _ => panic!("expected the run to finish"),
    }
}
