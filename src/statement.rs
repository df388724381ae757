use vstd::prelude::*;

use crate::decoder::LogFields;
use crate::text::string_of;

verus! {

/// The retention window of the sweep, in hours.
pub const RETENTION_HOURS: u32 = 24;

/// A SQL statement with its positional text arguments.
pub struct Statement {
    pub sql: String,
    pub args: Vec<String>,
}

/// The statement that creates the log table unless it exists.
pub open spec fn schema_sql() -> Seq<char> {
    "CREATE TABLE IF NOT EXISTS logs (id INTEGER PRIMARY KEY AUTOINCREMENT, timestamp DATETIME DEFAULT CURRENT_TIMESTAMP, source TEXT NOT NULL, severity TEXT NOT NULL, message TEXT NOT NULL)"@
}

/// The statement that appends one row; id and timestamp come from the store.
pub open spec fn insert_sql() -> Seq<char> {
    "INSERT INTO logs (source, severity, message) VALUES (?1, ?2, ?3)"@
}

/// The statement that deletes the rows older than the time modifier in `?1`.
pub open spec fn delete_sql() -> Seq<char> {
    "DELETE FROM logs WHERE timestamp < datetime('now', ?1)"@
}

/// The statement that compacts the store's file.
pub open spec fn vacuum_sql() -> Seq<char> {
    "VACUUM"@
}

/// The character of a decimal digit.
pub open spec fn digit_char(d: nat) -> char {
    if d == 0 {
        '0'
    } else if d == 1 {
        '1'
    } else if d == 2 {
        '2'
    } else if d == 3 {
        '3'
    } else if d == 4 {
        '4'
    } else if d == 5 {
        '5'
    } else if d == 6 {
        '6'
    } else if d == 7 {
        '7'
    } else if d == 8 {
        '8'
    } else {
        '9'
    }
}

/// The decimal notation of `n`, without leading zeros.
pub open spec fn decimal(n: nat) -> Seq<char>
    decreases n,
{
    if n < 10 {
        seq![digit_char(n)]
    } else {
        decimal(n / 10).push(digit_char(n % 10))
    }
}

/// The SQLite time modifier that goes `hours` hours back.
pub open spec fn age_modifier_of(hours: nat) -> Seq<char> {
    seq!['-'] + decimal(hours) + seq![' ', 'h', 'o', 'u', 'r', 's']
}

fn digit(d: u32) -> (r: char)
    requires
        d < 10,
    ensures
        r == digit_char(d as nat),
{
    if d == 0 {
        '0'
    } else if d == 1 {
        '1'
    } else if d == 2 {
        '2'
    } else if d == 3 {
        '3'
    } else if d == 4 {
        '4'
    } else if d == 5 {
        '5'
    } else if d == 6 {
        '6'
    } else if d == 7 {
        '7'
    } else if d == 8 {
        '8'
    } else {
        '9'
    }
}

fn push_decimal(out: &mut Vec<char>, n: u32)
    ensures
        final(out)@ == old(out)@ + decimal(n as nat),
    decreases n,
{
    if n >= 10 {
        push_decimal(out, n / 10);
    }
    out.push(digit(n % 10));
    proof {
        assert(final(out)@ =~= old(out)@ + decimal(n as nat));
    }
}

/// The SQLite time modifier that goes `hours` hours back, such as `-24 hours`.
pub fn age_modifier(hours: u32) -> (r: String)
    ensures
        r@ == age_modifier_of(hours as nat),
{
    let mut v: Vec<char> = vec!['-'];
    push_decimal(&mut v, hours);
    v.push(' ');
    v.push('h');
    v.push('o');
    v.push('u');
    v.push('r');
    v.push('s');
    assert(v@ =~= age_modifier_of(hours as nat));
    string_of(&v)
}

/// The connection settings of the store, as pragma name and value: a write
/// that meets another writer's transaction waits and retries for up to 5000 ms
/// before it fails, and the journal is a write-ahead log, so that readers and
/// writers in other processes do not block each other.
pub fn pragma_settings() -> (r: Vec<(String, String)>)
    ensures
        r@.len() == 2,
        r@[0].0@ == "busy_timeout"@,
        r@[0].1@ == "5000"@,
        r@[1].0@ == "journal_mode"@,
        r@[1].1@ == "WAL"@,
{
    vec![
        ("busy_timeout".to_owned(), "5000".to_owned()),
        ("journal_mode".to_owned(), "WAL".to_owned()),
    ]
}

/// The statement that creates the log table unless it exists.
pub fn schema_statement() -> (r: Statement)
    ensures
        r.sql@ == schema_sql(),
        r.args@.len() == 0,
{
    Statement {
        sql: "CREATE TABLE IF NOT EXISTS logs (id INTEGER PRIMARY KEY AUTOINCREMENT, timestamp DATETIME DEFAULT CURRENT_TIMESTAMP, source TEXT NOT NULL, severity TEXT NOT NULL, message TEXT NOT NULL)".to_owned(),
        args: Vec::new(),
    }
}

/// The statement that appends `f` as one row.
pub fn insert_statement(f: &LogFields) -> (r: Statement)
    ensures
        r.sql@ == insert_sql(),
        r.args@.len() == 3,
        r.args@[0]@ == f.source@,
        r.args@[1]@ == f.severity@,
        r.args@[2]@ == f.message@,
{
    let args = vec![f.source.clone(), f.severity.clone(), f.message.clone()];
    Statement {
        sql: "INSERT INTO logs (source, severity, message) VALUES (?1, ?2, ?3)".to_owned(),
        args,
    }
}

/// The statement that deletes the rows older than `hours` hours.
pub fn delete_statement(hours: u32) -> (r: Statement)
    ensures
        r.sql@ == delete_sql(),
        r.args@.len() == 1,
        r.args@[0]@ == age_modifier_of(hours as nat),
{
    let args = vec![age_modifier(hours)];
    Statement { sql: "DELETE FROM logs WHERE timestamp < datetime('now', ?1)".to_owned(), args }
}

/// The statement that compacts the store's file.
pub fn vacuum_statement() -> (r: Statement)
    ensures
        r.sql@ == vacuum_sql(),
        r.args@.len() == 0,
{
    Statement { sql: "VACUUM".to_owned(), args: Vec::new() }
}

} // verus!
