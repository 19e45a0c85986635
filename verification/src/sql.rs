//! The SQL statements the run issues, built verified character for
//! character: metadata queries, foreign-key toggling, truncation, the
//! unrestricted select, and the parameterized insert naming the target's
//! columns in order.
use vstd::prelude::*;
use vstd::string::StringExecFns;

verus! {

/// Metadata query listing the base tables (views excluded) of a schema;
/// binds: the schema name, then the relation kind to match.
pub open spec fn discover_statement_spec() -> Seq<char> {
    "SELECT TABLE_NAME FROM information_schema.TABLES WHERE TABLE_SCHEMA = ? AND TABLE_TYPE = ?"@
}

pub fn discover_statement() -> (r: String)
    ensures
        r@ == discover_statement_spec(),
{
    String::from_str(
        "SELECT TABLE_NAME FROM information_schema.TABLES WHERE TABLE_SCHEMA = ? AND TABLE_TYPE = ?",
    )
}

/// The relation kind bound by the discovery query: base tables only.
pub fn base_table_kind() -> (r: String)
    ensures
        r@ == "BASE TABLE"@,
{
    String::from_str("BASE TABLE")
}

/// Metadata query counting how many tables of a schema carry a name;
/// binds: the schema name, then the table name.
pub open spec fn exists_statement_spec() -> Seq<char> {
    "SELECT COUNT(*) AS count FROM INFORMATION_SCHEMA.TABLES WHERE TABLE_SCHEMA = ? AND TABLE_NAME = ?"@
}

pub fn exists_statement() -> (r: String)
    ensures
        r@ == exists_statement_spec(),
{
    String::from_str(
        "SELECT COUNT(*) AS count FROM INFORMATION_SCHEMA.TABLES WHERE TABLE_SCHEMA = ? AND TABLE_NAME = ?",
    )
}

/// Session-level toggle of referential-integrity enforcement.
pub open spec fn fk_checks_statement_spec(enable: bool) -> Seq<char> {
    if enable {
        "SET FOREIGN_KEY_CHECKS = 1"@
    } else {
        "SET FOREIGN_KEY_CHECKS = 0"@
    }
}

pub fn fk_checks_statement(enable: bool) -> (r: String)
    ensures
        r@ == fk_checks_statement_spec(enable),
{
    if enable {
        String::from_str("SET FOREIGN_KEY_CHECKS = 1")
    } else {
        String::from_str("SET FOREIGN_KEY_CHECKS = 0")
    }
}

/// Empties the target table ahead of repopulation.
pub open spec fn truncate_statement_spec(schema: Seq<char>, table: Seq<char>) -> Seq<char> {
    "TRUNCATE TABLE "@ + schema + "."@ + table
}

pub fn truncate_statement(schema: &String, table: &String) -> (r: String)
    ensures
        r@ == truncate_statement_spec(schema@, table@),
{
    let mut s = String::new();
    s.append("TRUNCATE TABLE ");
    s.append(schema.as_str());
    s.append(".");
    s.append(table.as_str());
    proof {
        assert(s@ =~= truncate_statement_spec(schema@, table@));
    }
    s
}

/// Unrestricted select fetching every row of the source table.
pub open spec fn select_all_statement_spec(table: Seq<char>) -> Seq<char> {
    "SELECT * FROM `"@ + table + "`"@
}

pub fn select_all_statement(table: &String) -> (r: String)
    ensures
        r@ == select_all_statement_spec(table@),
{
    let mut s = String::new();
    s.append("SELECT * FROM `");
    s.append(table.as_str());
    s.append("`");
    proof {
        assert(s@ =~= select_all_statement_spec(table@));
    }
    s
}

/// Metadata query listing the target table's column names in the schema's
/// own declared order.
pub open spec fn columns_statement_spec(table: Seq<char>) -> Seq<char> {
    "SELECT COLUMN_NAME FROM INFORMATION_SCHEMA.COLUMNS WHERE TABLE_SCHEMA = DATABASE() AND TABLE_NAME = '"@
        + table + "'"@
}

pub fn columns_statement(table: &String) -> (r: String)
    ensures
        r@ == columns_statement_spec(table@),
{
    let mut s = String::new();
    s.append(
        "SELECT COLUMN_NAME FROM INFORMATION_SCHEMA.COLUMNS WHERE TABLE_SCHEMA = DATABASE() AND TABLE_NAME = '",
    );
    s.append(table.as_str());
    s.append("'");
    proof {
        assert(s@ =~= columns_statement_spec(table@));
    }
    s
}

/// The column names joined by a comma and a space, in order.
pub open spec fn joined_names(cols: Seq<String>) -> Seq<char>
    decreases cols.len(),
{
    if cols.len() == 0 {
        Seq::empty()
    } else if cols.len() == 1 {
        cols[0]@
    } else {
        joined_names(cols.drop_last()) + ", "@ + cols.last()@
    }
}

pub fn join_names(cols: &Vec<String>) -> (r: String)
    ensures
        r@ == joined_names(cols@),
{
    let mut s = String::new();
    let mut i: usize = 0;
    while i < cols.len()
        invariant
            i <= cols@.len(),
            s@ == joined_names(cols@.take(i as int)),
        decreases cols@.len() - i,
    {
        if i > 0 {
            s.append(", ");
        }
        s.append(cols[i].as_str());
        proof {
            assert(cols@.take(i + 1 as int).drop_last() =~= cols@.take(i as int));
            assert(cols@.take(i + 1 as int).last() == cols@[i as int]);
            assert(s@ =~= joined_names(cols@.take(i + 1 as int)));
        }
        i = i + 1;
    }
    proof {
        assert(cols@.take(cols@.len() as int) =~= cols@);
    }
    s
}

/// `n` placeholders joined by a comma and a space: one per named column.
pub open spec fn placeholders_spec(n: nat) -> Seq<char>
    decreases n,
{
    if n == 0 {
        Seq::empty()
    } else if n == 1 {
        "?"@
    } else {
        placeholders_spec((n - 1) as nat) + ", ?"@
    }
}

pub fn placeholders(n: usize) -> (r: String)
    ensures
        r@ == placeholders_spec(n as nat),
{
    let mut s = String::new();
    let mut i: usize = 0;
    while i < n
        invariant
            i <= n,
            s@ == placeholders_spec(i as nat),
        decreases n - i,
    {
        if i > 0 {
            s.append(", ?");
        } else {
            s.append("?");
        }
        proof {
            assert(s@ =~= placeholders_spec((i + 1) as nat));
        }
        i = i + 1;
    }
    s
}

/// Parameterized insert naming exactly the target's columns in order, one
/// placeholder per column.
pub open spec fn insert_statement_spec(table: Seq<char>, cols: Seq<String>) -> Seq<char> {
    "INSERT INTO `"@ + table + "` ("@ + joined_names(cols) + ") VALUES ("@ + placeholders_spec(
        cols.len(),
    ) + ")"@
}

pub fn insert_statement(table: &String, cols: &Vec<String>) -> (r: String)
    ensures
        r@ == insert_statement_spec(table@, cols@),
{
    let mut s = String::new();
    s.append("INSERT INTO `");
    s.append(table.as_str());
    s.append("` (");
    let joined = join_names(cols);
    s.append(joined.as_str());
    s.append(") VALUES (");
    let ph = placeholders(cols.len());
    s.append(ph.as_str());
    s.append(")");
    proof {
        assert(s@ =~= insert_statement_spec(table@, cols@));
    }
    s
}

} // verus!
