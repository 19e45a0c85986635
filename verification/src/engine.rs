//! The mirroring engine over in-memory models of the two databases.
//!
//! A primary snapshot is the discovered table list with every row of each
//! table; a secondary model is the target's tables with their declared
//! column order and current rows, plus the session's foreign-key flag.
//! [`mirror_model`] performs one whole run against these models — the same
//! decisions the live orchestrator makes, with every database answer in
//! hand — and its contract pins the exact final state of the secondary:
//! which tables are skipped, which end up holding exactly the transferred
//! rows, and that foreign-key enforcement is restored however the run ends.
use crate::errors::{FailureKind, MirrorError};
use crate::rows::{rows_view, transfer_rows, transferred, SourceRow};
use vstd::prelude::*;

verus! {

/// One table as discovered and fetched from the primary: its name and
/// every row, in fetch order.
pub struct TableRows {
    pub name: String,
    pub rows: Vec<SourceRow>,
}

/// One table of the secondary: its name, its declared column order, and
/// its current rows as positional values.
pub struct SecondaryTable {
    pub name: String,
    pub columns: Vec<String>,
    pub rows: Vec<Vec<Option<String>>>,
}

/// The secondary database: its tables and the session's foreign-key flag.
pub struct SecondaryDb {
    pub tables: Vec<SecondaryTable>,
    pub fk_checks_enabled: bool,
}

/// Some secondary table carries this name.
pub open spec fn table_present(tables: Seq<SecondaryTable>, name: Seq<char>) -> bool {
    exists|j: int| 0 <= j < tables.len() && (#[trigger] tables[j]).name@ == name
}

/// Table names are unique on the primary, as a schema guarantees.
pub open spec fn unique_names_primary(primary: Seq<TableRows>) -> bool {
    forall|p: int, q: int|
        0 <= p < q < primary.len() ==> (#[trigger] primary[p]).name@ != (#[trigger] primary[q]).name@
}

/// Table names are unique on the secondary, as a schema guarantees.
pub open spec fn unique_names_secondary(tables: Seq<SecondaryTable>) -> bool {
    forall|j: int, k: int|
        0 <= j < k < tables.len() ==> (#[trigger] tables[j]).name@ != (#[trigger] tables[k]).name@
}

/// Mirroring this primary table against this secondary is the one hard
/// per-table error: the table exists, has source rows to insert, and the
/// target reports zero columns.
pub open spec fn fails_on(t: TableRows, tables: Seq<SecondaryTable>) -> bool {
    exists|j: int|
        0 <= j < tables.len() && (#[trigger] tables[j]).name@ == t.name@ && tables[j].columns@.len()
            == 0 && t.rows@.len() > 0
}

/// No primary table fails against this secondary: the run succeeds.
pub open spec fn no_failure(primary: Seq<TableRows>, tables: Seq<SecondaryTable>) -> bool {
    forall|p: int| 0 <= p < primary.len() ==> !fails_on(#[trigger] primary[p], tables)
}

/// The name occurs among the first `limit` primary tables.
pub open spec fn present_in_prefix(primary: Seq<TableRows>, limit: int, name: Seq<char>) -> bool {
    exists|p: int| 0 <= p < limit && (#[trigger] primary[p]).name@ == name
}

/// What one secondary table looks like after the first `limit` primary
/// tables have been mirrored: untouched unless its name was discovered on
/// the primary, in which case it holds exactly the transfer of that
/// primary table's rows against its own column order.
pub open spec fn mirrored_table(
    primary: Seq<TableRows>,
    limit: int,
    old_t: SecondaryTable,
    new_t: SecondaryTable,
) -> bool {
    &&& new_t.name == old_t.name
    &&& new_t.columns == old_t.columns
    &&& if present_in_prefix(primary, limit, old_t.name@) {
        exists|p: int|
            0 <= p < limit && (#[trigger] primary[p]).name@ == old_t.name@ && rows_view(
                new_t.rows@,
            ) == transferred(primary[p].rows@, old_t.columns@)
    } else {
        new_t == old_t
    }
}

/// The whole secondary after a successful run.
pub open spec fn mirrored_ok(
    primary: Seq<TableRows>,
    olds: Seq<SecondaryTable>,
    news: Seq<SecondaryTable>,
) -> bool {
    &&& news.len() == olds.len()
    &&& forall|k: int|
        0 <= k < olds.len() ==> mirrored_table(
            primary,
            primary.len() as int,
            #[trigger] olds[k],
            news[k],
        )
}

/// One secondary table after a run aborted at primary index `f`: the
/// failing table ends truncated-empty, earlier mirrored tables keep their
/// transfer, everything else is untouched.
pub open spec fn mirrored_err_table(
    primary: Seq<TableRows>,
    f: int,
    old_t: SecondaryTable,
    new_t: SecondaryTable,
) -> bool {
    if old_t.name@ == primary[f].name@ {
        &&& new_t.name == old_t.name
        &&& new_t.columns == old_t.columns
        &&& new_t.rows@.len() == 0
    } else {
        mirrored_table(primary, f, old_t, new_t)
    }
}

/// The whole secondary, and the reported failure, after a run aborted at
/// the first failing primary table.
pub open spec fn mirrored_err(
    primary: Seq<TableRows>,
    olds: Seq<SecondaryTable>,
    news: Seq<SecondaryTable>,
    f: int,
    e: MirrorError,
) -> bool {
    &&& 0 <= f < primary.len()
    &&& fails_on(primary[f], olds)
    &&& forall|p: int| 0 <= p < f ==> !fails_on(#[trigger] primary[p], olds)
    &&& e.kind == FailureKind::EmptySchema
    &&& e.table matches Some(t) && t@ == primary[f].name@
    &&& news.len() == olds.len()
    &&& forall|k: int|
        0 <= k < olds.len() ==> mirrored_err_table(primary, f, #[trigger] olds[k], news[k])
}

/// First index of a table with this name, if any.
fn find_table(tables: &Vec<SecondaryTable>, name: &String) -> (r: Option<usize>)
    ensures
        match r {
            Some(j) => 0 <= j < tables@.len() && tables@[j as int].name@ == name@,
            None => !table_present(tables@, name@),
        },
{
    let n = tables.len();
    let mut j: usize = 0;
    while j < n
        invariant
            j <= n,
            n == tables@.len(),
            forall|k: int| 0 <= k < j ==> (#[trigger] tables@[k]).name@ != name@,
        decreases n - j,
    {
        if tables[j].name == *name {
            return Some(j);
        }
        j = j + 1;
    }
    None
}

/// One whole run against model databases: for each discovered primary
/// table, in order — skip it when the secondary lacks it; otherwise drop
/// foreign-key enforcement, empty the table and repopulate it from the
/// source rows, binding values by column name against the target's own
/// column order. Enforcement is restored at the end even when the run
/// aborts.
pub fn mirror_model(primary: &Vec<TableRows>, secondary: &mut SecondaryDb) -> (r: Result<
    (),
    MirrorError,
>)
    requires
        unique_names_primary(primary@),
        unique_names_secondary(old(secondary).tables@),
    ensures
        final(secondary).fk_checks_enabled,
        r is Ok <==> no_failure(primary@, old(secondary).tables@),
        r is Ok ==> mirrored_ok(primary@, old(secondary).tables@, final(secondary).tables@),
        r matches Err(e) ==> exists|f: int|
            mirrored_err(primary@, old(secondary).tables@, final(secondary).tables@, f, e),
{
    let n = primary.len();
    let mut i: usize = 0;
    while i < n
        invariant
            i <= n,
            n == primary@.len(),
            unique_names_primary(primary@),
            unique_names_secondary(old(secondary).tables@),
            secondary.tables@.len() == old(secondary).tables@.len(),
            forall|p: int| 0 <= p < i ==> !fails_on(#[trigger] primary@[p], old(secondary).tables@),
            forall|k: int|
                0 <= k < old(secondary).tables@.len() ==> mirrored_table(
                    primary@,
                    i as int,
                    #[trigger] old(secondary).tables@[k],
                    secondary.tables@[k],
                ),
        decreases n - i,
    {
        let t = &primary[i];
        match find_table(&secondary.tables, &t.name) {
            None => {
                proof {
                    assert forall|k: int|
                        0 <= k < old(secondary).tables@.len() implies mirrored_table(
                        primary@,
                        i + 1 as int,
                        old(secondary).tables@[k],
                        secondary.tables@[k],
                    ) by {
                        assert(mirrored_table(
                            primary@,
                            i as int,
                            old(secondary).tables@[k],
                            secondary.tables@[k],
                        ));
                        assert(secondary.tables@[k].name@ != t.name@);
                        if present_in_prefix(primary@, i + 1 as int, old(secondary).tables@[k].name@) {
                            assert(present_in_prefix(
                                primary@,
                                i as int,
                                old(secondary).tables@[k].name@,
                            ));
                        }
                    }
                    assert(!fails_on(primary@[i as int], old(secondary).tables@));
                }
            },
            Some(j) => {
                let ghost olds = old(secondary).tables@;
                let ghost prev = secondary.tables@;
                secondary.fk_checks_enabled = false;
                let mut st = secondary.tables.remove(j);
                proof {
                    assert(st == prev[j as int]);
                    assert(st.name == olds[j as int].name);
                    assert(st.columns == olds[j as int].columns);
                }
                st.rows = Vec::new();
                if t.rows.len() > 0 && st.columns.len() == 0 {
                    // The target reports zero columns while there are rows
                    // to insert: abort the run, leaving the table emptied,
                    // but restore enforcement first.
                    let ghost st_g = st;
                    secondary.tables.insert(j, st);
                    secondary.fk_checks_enabled = true;
                    let e = MirrorError {
                        kind: FailureKind::EmptySchema,
                        table: Some(t.name.clone()),
                        detail: String::new(),
                    };
                    proof {
                        assert(secondary.tables@ =~= prev.update(j as int, st_g));
                        assert(fails_on(primary@[i as int], olds));
                        assert forall|k: int| 0 <= k < olds.len() implies mirrored_err_table(
                            primary@,
                            i as int,
                            olds[k],
                            secondary.tables@[k],
                        ) by {
                            assert(mirrored_table(primary@, i as int, olds[k], prev[k]));
                            if k != j {
                                assert(olds[k].name@ != olds[j as int].name@);
                            }
                        }
                        assert(mirrored_err(
                            primary@,
                            olds,
                            secondary.tables@,
                            i as int,
                            e,
                        ));
                    }
                    return Err(e);
                }
                let new_rows = transfer_rows(&t.rows, &st.columns);
                st.rows = new_rows;
                let ghost st_g = st;
                secondary.tables.insert(j, st);
                proof {
                    assert(secondary.tables@ =~= prev.update(j as int, st_g));
                    assert forall|k: int|
                        0 <= k < olds.len() implies mirrored_table(
                        primary@,
                        i + 1 as int,
                        olds[k],
                        secondary.tables@[k],
                    ) by {
                        assert(mirrored_table(primary@, i as int, olds[k], prev[k]));
                        if k == j {
                            assert(olds[k].name@ == primary@[i as int].name@);
                            assert(rows_view(st_g.rows@) == transferred(
                                primary@[i as int].rows@,
                                olds[k].columns@,
                            ));
                            assert(present_in_prefix(primary@, i + 1 as int, olds[k].name@));
                        } else {
                            assert(olds[k].name@ != olds[j as int].name@);
                            if present_in_prefix(primary@, i + 1 as int, olds[k].name@) {
                                assert(present_in_prefix(primary@, i as int, olds[k].name@));
                            }
                        }
                    }
                    assert(!fails_on(primary@[i as int], olds));
                }
            },
        }
        i = i + 1;
    }
    secondary.fk_checks_enabled = true;
    Ok(())
}

} // verus!
