//! Source rows and their mapping onto the target's column order.
//!
//! A source row is an unordered association of column names with nullable
//! scalar values, as fetched from the primary. Transfer binds values by
//! column *name* against the secondary's own declared column order: the
//! primary's physical column order is never trusted, and a name the source
//! row does not carry binds null rather than failing the table.
use vstd::prelude::*;

verus! {

/// The view of a nullable scalar value: `None` is SQL null.
pub open spec fn opt_str_view(o: Option<String>) -> Option<Seq<char>> {
    match o {
        Some(v) => Some(v@),
        None => None,
    }
}

/// One row fetched from the primary: column name to nullable value.
pub struct SourceRow {
    pub entries: Vec<(String, Option<String>)>,
}

/// The value a row binds for a column name: the first entry carrying that
/// name, or `None` when the row has no such column (or it is null) — absent
/// and null both bind null.
pub open spec fn row_value(entries: Seq<(String, Option<String>)>, name: Seq<char>) -> Option<
    Seq<char>,
>
    decreases entries.len(),
{
    if entries.len() == 0 {
        None
    } else if entries[0].0@ == name {
        opt_str_view(entries[0].1)
    } else {
        row_value(entries.drop_first(), name)
    }
}

impl SourceRow {
    /// The nullable value this row binds for `name`.
    pub fn get(&self, name: &String) -> (r: Option<String>)
        ensures
            opt_str_view(r) == row_value(self.entries@, name@),
    {
        let n = self.entries.len();
        let mut i: usize = 0;
        proof {
            assert(self.entries@.skip(0) =~= self.entries@);
        }
        while i < n
            invariant
                i <= n,
                n == self.entries@.len(),
                row_value(self.entries@, name@) == row_value(
                    self.entries@.skip(i as int),
                    name@,
                ),
            decreases n - i,
        {
            proof {
                assert(self.entries@.skip(i as int)[0] == self.entries@[i as int]);
                assert(self.entries@.skip(i as int).drop_first() =~= self.entries@.skip(
                    i + 1 as int,
                ));
            }
            if self.entries[i].0 == *name {
                let v = match &self.entries[i].1 {
                    Some(s) => Some(s.clone()),
                    None => None,
                };
                return v;
            }
            i = i + 1;
        }
        None
    }
}

/// The positional values one source row binds against a target column list:
/// for each column, the row's value for the identically-named column.
pub open spec fn extracted_row(row: SourceRow, cols: Seq<String>) -> Seq<Option<Seq<char>>> {
    Seq::new(cols.len(), |j: int| row_value(row.entries@, cols[j]@))
}

/// View of one materialized positional row.
pub open spec fn vals_view(vals: Seq<Option<String>>) -> Seq<Option<Seq<char>>> {
    Seq::new(vals.len(), |j: int| opt_str_view(vals[j]))
}

/// Extracts the positional values of one source row, aligned with `cols`.
pub fn extract_values(row: &SourceRow, cols: &Vec<String>) -> (vals: Vec<Option<String>>)
    ensures
        vals_view(vals@) == extracted_row(*row, cols@),
        vals@.len() == cols@.len(),
{
    let mut vals: Vec<Option<String>> = Vec::new();
    let n = cols.len();
    let mut j: usize = 0;
    while j < n
        invariant
            j <= n,
            n == cols@.len(),
            vals@.len() == j,
            forall|k: int|
                0 <= k < j ==> opt_str_view(#[trigger] vals@[k]) == row_value(
                    row.entries@,
                    cols@[k]@,
                ),
        decreases n - j,
    {
        let v = row.get(&cols[j]);
        vals.push(v);
        j = j + 1;
    }
    proof {
        assert(vals_view(vals@) =~= extracted_row(*row, cols@));
    }
    vals
}

/// The full transfer of a table's rows: each source row extracted against
/// the same target column order, source fetch order kept.
pub open spec fn transferred(rows: Seq<SourceRow>, cols: Seq<String>) -> Seq<
    Seq<Option<Seq<char>>>,
> {
    Seq::new(rows.len(), |i: int| extracted_row(rows[i], cols))
}

/// View of a materialized block of positional rows.
pub open spec fn rows_view(rows: Seq<Vec<Option<String>>>) -> Seq<Seq<Option<Seq<char>>>> {
    Seq::new(rows.len(), |i: int| vals_view(rows[i]@))
}

/// Materializes the positional values of every source row against `cols`.
pub fn transfer_rows(rows: &Vec<SourceRow>, cols: &Vec<String>) -> (out: Vec<Vec<Option<String>>>)
    ensures
        rows_view(out@) == transferred(rows@, cols@),
        out@.len() == rows@.len(),
{
    let mut out: Vec<Vec<Option<String>>> = Vec::new();
    let n = rows.len();
    let mut i: usize = 0;
    while i < n
        invariant
            i <= n,
            n == rows@.len(),
            out@.len() == i,
            forall|k: int|
                0 <= k < i ==> vals_view(#[trigger] out@[k]@) == extracted_row(rows@[k], cols@),
        decreases n - i,
    {
        let vals = extract_values(&rows[i], cols);
        out.push(vals);
        i = i + 1;
    }
    proof {
        assert(rows_view(out@) =~= transferred(rows@, cols@));
    }
    out
}

} // verus!
