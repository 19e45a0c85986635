//! The orchestration state machine of one run.
//!
//! The machine owns every decision: which statement to issue next, which
//! tables to skip, when foreign-key checks are toggled, and what the run
//! reports. A thin driver performs each returned [`DbAction`] against the
//! real databases and feeds the outcome back as a [`DbEvent`]; the machine
//! never touches a connection itself.
//!
//! Per-table sequence, in discovery order: probe existence on the secondary,
//! skip the table when absent, otherwise disable foreign-key checks, empty
//! the table, fetch every source row, read the secondary's own column order,
//! and hand the driver one transactional batch of positional inserts. After
//! the last table — and after any fatal failure — foreign-key enforcement is
//! restored before the run reports its outcome.
use crate::errors::{FailureKind, MirrorError};
use crate::rows::{rows_view, transfer_rows, transferred, SourceRow};
use crate::sql::{
    base_table_kind, columns_statement, columns_statement_spec, discover_statement,
    discover_statement_spec, exists_statement, exists_statement_spec, fk_checks_statement,
    fk_checks_statement_spec, insert_statement, insert_statement_spec, select_all_statement,
    select_all_statement_spec, truncate_statement, truncate_statement_spec,
};
use crate::text::{all_utf8, decode_table_names, decoded_names};
use vstd::pervasive::unreached;
use vstd::prelude::*;

verus! {

/// What the driver reports back after performing one action.
pub enum DbEvent {
    /// Discovery finished: the raw bytes of each table name, in the order
    /// the metadata yielded them.
    Tables(Vec<Vec<u8>>),
    /// The existence probe's answer for the current table.
    Exists(bool),
    /// A plain statement was executed successfully.
    Ack,
    /// Every row of the current source table, in fetch order.
    Rows(Vec<SourceRow>),
    /// The secondary's column names for the current table, in the
    /// database's own order.
    Columns(Vec<String>),
    /// The transactional batch committed; how many rows were attempted.
    Inserted(usize),
    /// The action failed in the driver; the run aborts with this failure.
    Failed(MirrorError),
}

/// What the driver must do next.
pub enum DbAction {
    /// Run `statement` on the primary with `binds`, expect one raw name
    /// per row: answer with [`DbEvent::Tables`].
    QueryPrimaryTables { statement: String, binds: Vec<String> },
    /// Run `statement` on the secondary with `binds`, expect a count:
    /// answer with [`DbEvent::Exists`] (count nonzero).
    QuerySecondaryExists { statement: String, binds: Vec<String> },
    /// Execute `statement` on the secondary: answer with [`DbEvent::Ack`].
    ExecSecondary { statement: String },
    /// Run `statement` on the primary, expect whole rows: answer with
    /// [`DbEvent::Rows`].
    QueryPrimaryRows { statement: String },
    /// Run `statement` on the secondary, expect one column name per row:
    /// answer with [`DbEvent::Columns`].
    QuerySecondaryColumns { statement: String },
    /// Inside one transaction on the secondary, execute `statement` once
    /// per element of `rows`, binding that row's values positionally, then
    /// commit; a failing row is skipped, not fatal. Answer with
    /// [`DbEvent::Inserted`].
    InsertSecondary { statement: String, columns: Vec<String>, rows: Vec<Vec<Option<String>>> },
    /// The run is over with this outcome; no event follows.
    Finish { outcome: Result<(), MirrorError> },
}

/// Where the machine stands: which answer it is waiting for.
pub enum Phase {
    /// Awaiting the primary's table list.
    Discover,
    /// Awaiting the existence probe for the current table.
    Probe,
    /// Awaiting the ack for disabling foreign-key checks.
    DisableFk,
    /// Awaiting the ack for truncating the current table.
    Truncate,
    /// Awaiting the source rows of the current table.
    FetchRows,
    /// Awaiting the secondary's column list; the fetched source rows are
    /// held here.
    FetchColumns { rows: Vec<SourceRow> },
    /// Awaiting the commit of the insert batch.
    Insert,
    /// All tables processed; awaiting the ack for restoring foreign-key
    /// checks.
    Restore,
    /// A fatal failure happened; foreign-key restoration is still issued
    /// before the failure is reported.
    RestoreFailed { error: MirrorError },
    /// The run reported its outcome.
    Done,
}

/// The orchestrator of one run.
pub struct Mirror {
    /// The secondary's schema name, used by probes and truncation.
    pub secondary_schema: String,
    /// The mirror set: the table names discovered on the primary.
    pub tables: Vec<String>,
    /// Index of the table currently being processed.
    pub idx: usize,
    pub phase: Phase,
}

/// The views of a list of names.
pub open spec fn strs_view(ss: Seq<String>) -> Seq<Seq<char>> {
    Seq::new(ss.len(), |i: int| ss[i]@)
}

pub open spec fn is_probe_action(a: DbAction, schema: Seq<char>, table: Seq<char>) -> bool {
    &&& a matches DbAction::QuerySecondaryExists { statement, binds }
    &&& statement@ == exists_statement_spec()
    &&& binds@.len() == 2
    &&& binds@[0]@ == schema
    &&& binds@[1]@ == table
}

pub open spec fn is_discover_action(a: DbAction, schema: Seq<char>) -> bool {
    &&& a matches DbAction::QueryPrimaryTables { statement, binds }
    &&& statement@ == discover_statement_spec()
    &&& binds@.len() == 2
    &&& binds@[0]@ == schema
    &&& binds@[1]@ == "BASE TABLE"@
}

pub open spec fn is_fk_action(a: DbAction, enable: bool) -> bool {
    &&& a matches DbAction::ExecSecondary { statement }
    &&& statement@ == fk_checks_statement_spec(enable)
}

pub open spec fn is_truncate_action(a: DbAction, schema: Seq<char>, table: Seq<char>) -> bool {
    &&& a matches DbAction::ExecSecondary { statement }
    &&& statement@ == truncate_statement_spec(schema, table)
}

pub open spec fn is_select_action(a: DbAction, table: Seq<char>) -> bool {
    &&& a matches DbAction::QueryPrimaryRows { statement }
    &&& statement@ == select_all_statement_spec(table)
}

pub open spec fn is_columns_action(a: DbAction, table: Seq<char>) -> bool {
    &&& a matches DbAction::QuerySecondaryColumns { statement }
    &&& statement@ == columns_statement_spec(table)
}

/// The insert batch: the statement names the target's columns in their own
/// order, and each batch row holds the source row's values aligned with
/// those columns by name.
pub open spec fn is_insert_action(
    a: DbAction,
    table: Seq<char>,
    cols: Vec<String>,
    rows: Vec<SourceRow>,
) -> bool {
    &&& a matches DbAction::InsertSecondary { statement, columns, rows: vals }
    &&& statement@ == insert_statement_spec(table, cols@)
    &&& columns == cols
    &&& vals@.len() == rows@.len()
    &&& rows_view(vals@) == transferred(rows@, cols@)
}

pub open spec fn is_finish_ok(a: DbAction) -> bool {
    &&& a matches DbAction::Finish { outcome }
    &&& outcome is Ok
}

pub open spec fn is_finish_err(a: DbAction, e: MirrorError) -> bool {
    &&& a matches DbAction::Finish { outcome }
    &&& outcome matches Err(x)
    &&& x == e
}

pub open spec fn is_empty_schema_error(e: MirrorError, table: Seq<char>) -> bool {
    &&& e.kind == FailureKind::EmptySchema
    &&& e.table matches Some(t)
    &&& t@ == table
}

/// The machine's bookkeeping is unchanged.
pub open spec fn same_core(pre: Mirror, post: Mirror) -> bool {
    &&& post.secondary_schema == pre.secondary_schema
    &&& post.tables == pre.tables
    &&& post.idx == pre.idx
}

/// The table at `idx` is finished (processed or skipped): move to the next
/// probe, or to foreign-key restoration after the last table.
pub open spec fn advanced_from(
    schema: String,
    tables: Vec<String>,
    idx: int,
    post: Mirror,
    a: DbAction,
) -> bool {
    &&& post.secondary_schema == schema
    &&& post.tables == tables
    &&& post.idx == idx + 1
    &&& if idx + 1 < tables@.len() {
        (post.phase is Probe) && is_probe_action(a, schema@, tables@[idx + 1]@)
    } else {
        (post.phase is Restore) && is_fk_action(a, true)
    }
}

impl Mirror {
    /// In every per-table phase the current index is in range.
    pub open spec fn inv(&self) -> bool {
        match self.phase {
            Phase::Probe => self.idx < self.tables@.len(),
            Phase::DisableFk => self.idx < self.tables@.len(),
            Phase::Truncate => self.idx < self.tables@.len(),
            Phase::FetchRows => self.idx < self.tables@.len(),
            Phase::FetchColumns { .. } => self.idx < self.tables@.len(),
            Phase::Insert => self.idx < self.tables@.len(),
            _ => true,
        }
    }

    /// Which events answer which phase; `Done` takes no further event.
    pub open spec fn event_matches(&self, ev: DbEvent) -> bool {
        match self.phase {
            Phase::Discover => (ev is Tables) || (ev is Failed),
            Phase::Probe => (ev is Exists) || (ev is Failed),
            Phase::DisableFk => (ev is Ack) || (ev is Failed),
            Phase::Truncate => (ev is Ack) || (ev is Failed),
            Phase::FetchRows => (ev is Rows) || (ev is Failed),
            Phase::FetchColumns { .. } => (ev is Columns) || (ev is Failed),
            Phase::Insert => (ev is Inserted) || (ev is Failed),
            Phase::Restore => (ev is Ack) || (ev is Failed),
            Phase::RestoreFailed { .. } => (ev is Ack) || (ev is Failed),
            Phase::Done => false,
        }
    }
}

/// The whole transition relation: given the machine before the event, the
/// event, the machine after it and the returned action, this says exactly
/// what [`Mirror::step`] did.
pub open spec fn step_rel(pre: Mirror, ev: DbEvent, post: Mirror, a: DbAction) -> bool {
    match ev {
        DbEvent::Failed(e) => match pre.phase {
            // A failure while restoring on the success path surfaces that
            // failure itself.
            Phase::Restore => same_core(pre, post) && (post.phase is Done) && is_finish_err(a, e),
            // Restoration after an earlier failure is best-effort: the
            // first failure is the one reported.
            Phase::RestoreFailed { error } => same_core(pre, post) && (post.phase is Done)
                && is_finish_err(a, error),
            Phase::Done => false,
            // Any other failure aborts the run, but foreign-key checks are
            // still restored first.
            _ => {
                &&& same_core(pre, post)
                &&& post.phase matches Phase::RestoreFailed { error } && error == e
                &&& is_fk_action(a, true)
            },
        },
        DbEvent::Tables(raws) => match pre.phase {
            Phase::Discover => {
                &&& post.secondary_schema == pre.secondary_schema
                &&& if !all_utf8(raws@) {
                    // A name that is not valid text is a decode failure.
                    &&& post.tables == pre.tables
                    &&& post.idx == pre.idx
                    &&& post.phase matches Phase::RestoreFailed { error } && error.kind
                        == FailureKind::Decode
                    &&& is_fk_action(a, true)
                } else if raws@.len() == 0 {
                    // Nothing to mirror: go straight to restoration.
                    &&& post.tables == pre.tables
                    &&& post.idx == pre.idx
                    &&& (post.phase is Restore)
                    &&& is_fk_action(a, true)
                } else {
                    &&& strs_view(post.tables@) == decoded_names(raws@)
                    &&& post.idx == 0
                    &&& (post.phase is Probe)
                    &&& is_probe_action(a, pre.secondary_schema@, decoded_names(raws@)[0])
                }
            },
            _ => false,
        },
        DbEvent::Exists(present) => match pre.phase {
            Phase::Probe => if present {
                same_core(pre, post) && (post.phase is DisableFk) && is_fk_action(a, false)
            } else {
                // Absent on the secondary: the table is skipped, nothing
                // about it is touched.
                advanced_from(pre.secondary_schema, pre.tables, pre.idx as int, post, a)
            },
            _ => false,
        },
        DbEvent::Ack => match pre.phase {
            Phase::DisableFk => same_core(pre, post) && (post.phase is Truncate)
                && is_truncate_action(a, pre.secondary_schema@, pre.tables@[pre.idx as int]@),
            Phase::Truncate => same_core(pre, post) && (post.phase is FetchRows)
                && is_select_action(a, pre.tables@[pre.idx as int]@),
            Phase::Restore => same_core(pre, post) && (post.phase is Done) && is_finish_ok(a),
            Phase::RestoreFailed { error } => same_core(pre, post) && (post.phase is Done)
                && is_finish_err(a, error),
            _ => false,
        },
        DbEvent::Rows(rows) => match pre.phase {
            Phase::FetchRows => if rows@.len() == 0 {
                // An empty source table is not an error: the transfer is a
                // no-op (the table stays truncated-empty).
                advanced_from(pre.secondary_schema, pre.tables, pre.idx as int, post, a)
            } else {
                &&& same_core(pre, post)
                &&& post.phase matches Phase::FetchColumns { rows: held } && held == rows
                &&& is_columns_action(a, pre.tables@[pre.idx as int]@)
            },
            _ => false,
        },
        DbEvent::Columns(cols) => match pre.phase {
            Phase::FetchColumns { rows } => if cols@.len() == 0 {
                // Zero reported columns is a hard error: the table cannot
                // be safely inserted into.
                &&& same_core(pre, post)
                &&& post.phase matches Phase::RestoreFailed { error } && is_empty_schema_error(
                    error,
                    pre.tables@[pre.idx as int]@,
                )
                &&& is_fk_action(a, true)
            } else {
                &&& same_core(pre, post)
                &&& (post.phase is Insert)
                &&& is_insert_action(a, pre.tables@[pre.idx as int]@, cols, rows)
            },
            _ => false,
        },
        DbEvent::Inserted(_) => match pre.phase {
            Phase::Insert => advanced_from(pre.secondary_schema, pre.tables, pre.idx as int, post, a),
            _ => false,
        },
    }
}

fn probe_action(schema: &String, table: &String) -> (a: DbAction)
    ensures
        is_probe_action(a, schema@, table@),
{
    let mut binds: Vec<String> = Vec::new();
    binds.push(schema.clone());
    binds.push(table.clone());
    DbAction::QuerySecondaryExists { statement: exists_statement(), binds }
}

fn fk_action(enable: bool) -> (a: DbAction)
    ensures
        is_fk_action(a, enable),
{
    DbAction::ExecSecondary { statement: fk_checks_statement(enable) }
}

fn advance(secondary_schema: String, tables: Vec<String>, idx: usize) -> (r: (Mirror, DbAction))
    requires
        idx < tables@.len(),
    ensures
        advanced_from(secondary_schema, tables, idx as int, r.0, r.1),
        r.0.inv(),
{
    let n = tables.len();
    let next = idx + 1;
    if next < n {
        let a = probe_action(&secondary_schema, &tables[next]);
        (Mirror { secondary_schema, tables, idx: next, phase: Phase::Probe }, a)
    } else {
        let a = fk_action(true);
        (Mirror { secondary_schema, tables, idx: next, phase: Phase::Restore }, a)
    }
}

/// Begins a run: the machine and the discovery action against the primary.
pub fn start(primary_schema: &String, secondary_schema: String) -> (r: (Mirror, DbAction))
    ensures
        r.0.phase is Discover,
        r.0.secondary_schema == secondary_schema,
        r.0.tables@.len() == 0,
        r.0.idx == 0,
        r.0.inv(),
        is_discover_action(r.1, primary_schema@),
{
    let mut binds: Vec<String> = Vec::new();
    binds.push(primary_schema.clone());
    binds.push(base_table_kind());
    let a = DbAction::QueryPrimaryTables { statement: discover_statement(), binds };
    (
        Mirror {
            secondary_schema,
            tables: Vec::new(),
            idx: 0,
            phase: Phase::Discover,
        },
        a,
    )
}

impl Mirror {
    /// Consumes one event and decides the next action. The whole decision
    /// is pinned by [`step_rel`].
    pub fn step(self, ev: DbEvent) -> (r: (Mirror, DbAction))
        requires
            self.inv(),
            self.event_matches(ev),
        ensures
            step_rel(self, ev, r.0, r.1),
            r.0.inv(),
    {
        let Mirror { secondary_schema, tables, idx, phase } = self;
        match (phase, ev) {
            (Phase::Discover, DbEvent::Tables(raws)) => {
                match decode_table_names(&raws) {
                    None => {
                        let error = MirrorError {
                            kind: FailureKind::Decode,
                            table: None,
                            detail: String::new(),
                        };
                        let a = fk_action(true);
                        (
                            Mirror {
                                secondary_schema,
                                tables,
                                idx,
                                phase: Phase::RestoreFailed { error },
                            },
                            a,
                        )
                    },
                    Some(names) => {
                        if names.len() == 0 {
                            let a = fk_action(true);
                            (
                                Mirror { secondary_schema, tables, idx, phase: Phase::Restore },
                                a,
                            )
                        } else {
                            let a = probe_action(&secondary_schema, &names[0]);
                            proof {
                                assert(strs_view(names@) =~= decoded_names(raws@));
                            }
                            (
                                Mirror {
                                    secondary_schema,
                                    tables: names,
                                    idx: 0,
                                    phase: Phase::Probe,
                                },
                                a,
                            )
                        }
                    },
                }
            },
            (Phase::Probe, DbEvent::Exists(present)) => {
                if present {
                    let a = fk_action(false);
                    (Mirror { secondary_schema, tables, idx, phase: Phase::DisableFk }, a)
                } else {
                    advance(secondary_schema, tables, idx)
                }
            },
            (Phase::DisableFk, DbEvent::Ack) => {
                let a = DbAction::ExecSecondary {
                    statement: truncate_statement(&secondary_schema, &tables[idx]),
                };
                (Mirror { secondary_schema, tables, idx, phase: Phase::Truncate }, a)
            },
            (Phase::Truncate, DbEvent::Ack) => {
                let a = DbAction::QueryPrimaryRows {
                    statement: select_all_statement(&tables[idx]),
                };
                (Mirror { secondary_schema, tables, idx, phase: Phase::FetchRows }, a)
            },
            (Phase::FetchRows, DbEvent::Rows(rows)) => {
                if rows.len() == 0 {
                    advance(secondary_schema, tables, idx)
                } else {
                    let a = DbAction::QuerySecondaryColumns {
                        statement: columns_statement(&tables[idx]),
                    };
                    (
                        Mirror {
                            secondary_schema,
                            tables,
                            idx,
                            phase: Phase::FetchColumns { rows },
                        },
                        a,
                    )
                }
            },
            (Phase::FetchColumns { rows }, DbEvent::Columns(cols)) => {
                if cols.len() == 0 {
                    let error = MirrorError {
                        kind: FailureKind::EmptySchema,
                        table: Some(tables[idx].clone()),
                        detail: String::new(),
                    };
                    let a = fk_action(true);
                    (
                        Mirror {
                            secondary_schema,
                            tables,
                            idx,
                            phase: Phase::RestoreFailed { error },
                        },
                        a,
                    )
                } else {
                    let vals = transfer_rows(&rows, &cols);
                    let statement = insert_statement(&tables[idx], &cols);
                    let a = DbAction::InsertSecondary { statement, columns: cols, rows: vals };
                    (Mirror { secondary_schema, tables, idx, phase: Phase::Insert }, a)
                }
            },
            (Phase::Insert, DbEvent::Inserted(_)) => advance(secondary_schema, tables, idx),
            (Phase::Restore, DbEvent::Ack) => {
                let a = DbAction::Finish { outcome: Ok(()) };
                (Mirror { secondary_schema, tables, idx, phase: Phase::Done }, a)
            },
            (Phase::RestoreFailed { error }, DbEvent::Ack) => {
                let a = DbAction::Finish { outcome: Err(error) };
                (Mirror { secondary_schema, tables, idx, phase: Phase::Done }, a)
            },
            (ph, DbEvent::Failed(e)) => match ph {
                Phase::Restore => {
                    let a = DbAction::Finish { outcome: Err(e) };
                    (Mirror { secondary_schema, tables, idx, phase: Phase::Done }, a)
                },
                Phase::RestoreFailed { error } => {
                    let a = DbAction::Finish { outcome: Err(error) };
                    (Mirror { secondary_schema, tables, idx, phase: Phase::Done }, a)
                },
                _ => {
                    let a = fk_action(true);
                    (
                        Mirror {
                            secondary_schema,
                            tables,
                            idx,
                            phase: Phase::RestoreFailed { error: e },
                        },
                        a,
                    )
                },
            },
            _ => unreached(),
        }
    }
}

} // verus!
