//! Run-level guarantees, stated and proved over the engine's contracts.
use crate::engine::{
    fails_on, mirrored_ok, mirrored_table, no_failure, present_in_prefix, table_present,
    unique_names_primary, SecondaryTable, TableRows,
};
use crate::rows::{extracted_row, row_value, rows_view, transferred, vals_view};
use crate::rows::SourceRow;
use crate::session::{is_finish_ok, is_insert_action, step_rel, DbAction, DbEvent, Mirror, Phase};
use vstd::prelude::*;

verus! {

/// Column-name mapping on the wire: every cell of the insert batch the
/// orchestrator hands the driver is the source row's value for the
/// identically named target column — the live path binds by name, exactly
/// as the model does.
pub proof fn lemma_insert_binds_by_name(
    a: DbAction,
    table: Seq<char>,
    cols: Vec<String>,
    rows: Vec<SourceRow>,
    r: int,
    c: int,
)
    requires
        is_insert_action(a, table, cols, rows),
        0 <= r < rows@.len(),
        0 <= c < cols@.len(),
    ensures
        a matches DbAction::InsertSecondary { rows: vals, .. } ==> vals@[r]@.len() == cols@.len()
            && vals_view(vals@[r]@)[c] == row_value(rows@[r].entries@, cols@[c]@),
{
    if let DbAction::InsertSecondary { rows: vals, .. } = a {
        assert(rows_view(vals@)[r] == extracted_row(rows@[r], cols@));
        assert(vals_view(vals@[r]@) == extracted_row(rows@[r], cols@));
        assert(vals_view(vals@[r]@).len() == vals@[r]@.len());
        assert(extracted_row(rows@[r], cols@).len() == cols@.len());
    }
}

/// Foreign-key session restore: the orchestrator reports success only in
/// answer to the acknowledged re-enabling of foreign-key checks, so a
/// successful run always leaves enforcement restored.
pub proof fn lemma_success_restores_fk(pre: Mirror, ev: DbEvent, post: Mirror, a: DbAction)
    requires
        step_rel(pre, ev, post, a),
        is_finish_ok(a),
    ensures
        pre.phase is Restore,
        ev is Ack,
{
}

/// Subset skip: a table name absent from the secondary stays absent after
/// mirroring — nothing is created — and a primary table of that name can
/// never abort the run.
pub proof fn lemma_subset_skip(
    primary: Seq<TableRows>,
    olds: Seq<SecondaryTable>,
    news: Seq<SecondaryTable>,
    t: TableRows,
)
    requires
        mirrored_ok(primary, olds, news),
        !table_present(olds, t.name@),
    ensures
        !table_present(news, t.name@),
        !fails_on(t, olds),
{
    assert forall|k: int| 0 <= k < news.len() implies (#[trigger] news[k]).name@ != t.name@ by {
        assert(mirrored_table(primary, primary.len() as int, olds[k], news[k]));
        assert(olds[k].name@ != t.name@);
    }
}

/// Truncate before transfer: a table present on both sides ends the run
/// holding exactly one row per source row — its old contents count for
/// nothing — and those rows are the transfer of the source rows against
/// its own column order.
pub proof fn lemma_truncate_before_transfer(
    primary: Seq<TableRows>,
    olds: Seq<SecondaryTable>,
    news: Seq<SecondaryTable>,
    p: int,
    k: int,
)
    requires
        unique_names_primary(primary),
        mirrored_ok(primary, olds, news),
        0 <= p < primary.len(),
        0 <= k < olds.len(),
        olds[k].name@ == primary[p].name@,
    ensures
        news[k].rows@.len() == primary[p].rows@.len(),
        rows_view(news[k].rows@) == transferred(primary[p].rows@, olds[k].columns@),
{
    assert(mirrored_table(primary, primary.len() as int, olds[k], news[k]));
    assert(present_in_prefix(primary, primary.len() as int, olds[k].name@));
    let pp = choose|pp: int|
        0 <= pp < primary.len() as int && (#[trigger] primary[pp]).name@ == olds[k].name@
            && rows_view(news[k].rows@) == transferred(primary[pp].rows@, olds[k].columns@);
    assert(pp == p);
    assert(rows_view(news[k].rows@).len() == news[k].rows@.len());
    assert(transferred(primary[p].rows@, olds[k].columns@).len() == primary[p].rows@.len());
}

/// Column-name mapping: every transferred cell equals the source row's
/// value for the identically named column, whatever the physical column
/// orders on either side; a name the source row lacks yields null.
pub proof fn lemma_column_name_mapping(
    primary: Seq<TableRows>,
    olds: Seq<SecondaryTable>,
    news: Seq<SecondaryTable>,
    p: int,
    k: int,
    r: int,
    c: int,
)
    requires
        unique_names_primary(primary),
        mirrored_ok(primary, olds, news),
        0 <= p < primary.len(),
        0 <= k < olds.len(),
        olds[k].name@ == primary[p].name@,
        0 <= r < primary[p].rows@.len(),
        0 <= c < olds[k].columns@.len(),
    ensures
        news[k].rows@[r]@.len() == olds[k].columns@.len(),
        vals_view(news[k].rows@[r]@)[c] == row_value(
            primary[p].rows@[r].entries@,
            olds[k].columns@[c]@,
        ),
{
    lemma_truncate_before_transfer(primary, olds, news, p, k);
    assert(rows_view(news[k].rows@)[r] == extracted_row(primary[p].rows@[r], olds[k].columns@));
    assert(vals_view(news[k].rows@[r]@) == extracted_row(primary[p].rows@[r], olds[k].columns@));
    assert(vals_view(news[k].rows@[r]@).len() == news[k].rows@[r]@.len());
    assert(extracted_row(primary[p].rows@[r], olds[k].columns@).len() == olds[k].columns@.len());
}

/// A successful run preserves exactly what failure depends on — names and
/// column lists — so mirroring an unchanged primary again succeeds too.
pub proof fn lemma_second_run_succeeds(
    primary: Seq<TableRows>,
    t0: Seq<SecondaryTable>,
    t1: Seq<SecondaryTable>,
)
    requires
        mirrored_ok(primary, t0, t1),
        no_failure(primary, t0),
    ensures
        no_failure(primary, t1),
{
    assert forall|p: int| 0 <= p < primary.len() implies !fails_on(#[trigger] primary[p], t1) by {
        if fails_on(primary[p], t1) {
            let j = choose|j: int|
                0 <= j < t1.len() && (#[trigger] t1[j]).name@ == primary[p].name@
                    && t1[j].columns@.len() == 0 && primary[p].rows@.len() > 0;
            assert(mirrored_table(primary, primary.len() as int, t0[j], t1[j]));
            assert(fails_on(primary[p], t0));
        }
    }
}

/// Idempotence: mirroring twice from an unchanged primary leaves the
/// secondary's tables exactly as the first run did — same names, same
/// columns, same rows.
pub proof fn lemma_idempotent(
    primary: Seq<TableRows>,
    t0: Seq<SecondaryTable>,
    t1: Seq<SecondaryTable>,
    t2: Seq<SecondaryTable>,
)
    requires
        unique_names_primary(primary),
        mirrored_ok(primary, t0, t1),
        mirrored_ok(primary, t1, t2),
    ensures
        t2.len() == t1.len(),
        forall|k: int| 0 <= k < t1.len() ==> (#[trigger] t2[k]).name == t1[k].name,
        forall|k: int| 0 <= k < t1.len() ==> (#[trigger] t2[k]).columns == t1[k].columns,
        forall|k: int|
            0 <= k < t1.len() ==> rows_view((#[trigger] t2[k]).rows@) == rows_view(t1[k].rows@),
{
    let len = primary.len() as int;
    assert forall|k: int|
        0 <= k < t1.len() implies (#[trigger] t2[k]).name == t1[k].name && t2[k].columns
        == t1[k].columns && rows_view(t2[k].rows@) == rows_view(t1[k].rows@) by {
        assert(mirrored_table(primary, len, t0[k], t1[k]));
        assert(mirrored_table(primary, len, t1[k], t2[k]));
        assert(t1[k].name@ == t0[k].name@);
        if present_in_prefix(primary, len, t0[k].name@) {
            let p1 = choose|pp: int|
                0 <= pp < len && (#[trigger] primary[pp]).name@ == t0[k].name@ && rows_view(
                    t1[k].rows@,
                ) == transferred(primary[pp].rows@, t0[k].columns@);
            let p2 = choose|pp: int|
                0 <= pp < len && (#[trigger] primary[pp]).name@ == t1[k].name@ && rows_view(
                    t2[k].rows@,
                ) == transferred(primary[pp].rows@, t1[k].columns@);
            assert(p1 == p2);
            assert(t1[k].columns == t0[k].columns);
        } else {
            assert(t2[k] == t1[k]);
        }
    }
}

} // verus!
