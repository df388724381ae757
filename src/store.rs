use vstd::prelude::*;

use crate::decoder::LogFields;
use crate::error::LogError;
use crate::statement::{
    age_modifier_of, delete_sql, delete_statement, insert_sql, insert_statement, schema_sql,
    schema_statement, vacuum_sql,
    pragma_settings, vacuum_statement, Statement,
};

verus! {

#[verifier::external_type_specification]
#[verifier::external_body]
pub struct ExConnection(rusqlite::Connection);

#[verifier::external_type_specification]
#[verifier::external_body]
pub struct ExSqlError(rusqlite::Error);

/// Relies on `rusqlite::Connection::open`: opens, or creates, the database at `path`.
#[verifier::external_body]
fn open_connection(path: &str) -> (r: Result<rusqlite::Connection, rusqlite::Error>) {
    rusqlite::Connection::open(path)
}

/// Relies on `rusqlite::Connection::pragma_update`: sets pragma `name` to the text `value`.
#[verifier::external_body]
fn set_pragma(conn: &rusqlite::Connection, name: &str, value: &str) -> (r: Result<(), rusqlite::Error>) {
    conn.pragma_update(None, name, value)
}

/// Relies on `rusqlite::Connection::execute`: runs `sql` once with `args` bound
/// to its positional parameters, and gives the number of rows changed.
#[verifier::external_body]
fn execute(conn: &rusqlite::Connection, sql: &str, args: &Vec<String>) -> (r: Result<usize, rusqlite::Error>) {
    conn.execute(sql, rusqlite::params_from_iter(args.iter()))
}

/// Relies on `rusqlite::Connection::last_insert_rowid`: the rowid of the last
/// successful insert on this connection.
#[verifier::external_body]
fn last_insert_rowid(conn: &rusqlite::Connection) -> (r: i64) {
    conn.last_insert_rowid()
}

/// A request handed to the store, in mathematical form.
pub enum Request {
    /// A pragma set to a text value.
    Pragma(Seq<char>, Seq<char>),
    /// A SQL statement with its positional text arguments.
    Sql(Seq<char>, Seq<Seq<char>>),
}

/// The requests that opening a store hands over: wait up to 5000 ms on a
/// contended write, use a write-ahead log, and create the log table unless it
/// exists.
pub open spec fn open_requests() -> Seq<Request> {
    seq![
        Request::Pragma("busy_timeout"@, "5000"@),
        Request::Pragma("journal_mode"@, "WAL"@),
        Request::Sql(schema_sql(), seq![]),
    ]
}

/// The request that appends one row with these fields; id and timestamp are
/// left to the store.
pub open spec fn insert_request(f: (Seq<char>, Seq<char>, Seq<char>)) -> Request {
    Request::Sql(insert_sql(), seq![f.0, f.1, f.2])
}

/// The request that deletes the rows strictly older than `hours` hours.
pub open spec fn delete_request(hours: nat) -> Request {
    Request::Sql(delete_sql(), seq![age_modifier_of(hours)])
}

/// The request that compacts the store's file.
pub open spec fn vacuum_request() -> Request {
    Request::Sql(vacuum_sql(), seq![])
}

/// A connection to the store that holds the log table.
pub struct Store {
    conn: rusqlite::Connection,
    ran: Ghost<Seq<Request>>,
}

impl Store {
    /// Every request handed to the store through this connection, in order,
    /// whatever the store answered.
    pub closed spec fn requests(&self) -> Seq<Request> {
        self.ran@
    }

    fn set(&mut self, name: &String, value: &String) -> (r: Result<(), rusqlite::Error>)
        ensures
            final(self).requests() == old(self).requests().push(Request::Pragma(name@, value@)),
    {
        let r = set_pragma(&self.conn, name.as_str(), value.as_str());
        self.ran = Ghost(self.ran@.push(Request::Pragma(name@, value@)));
        r
    }

    fn run(&mut self, st: &Statement) -> (r: Result<usize, rusqlite::Error>)
        ensures
            final(self).requests() == old(self).requests().push(
                Request::Sql(st.sql@, st.args@.map_values(|a: String| a@)),
            ),
    {
        let r = execute(&self.conn, st.sql.as_str(), &st.args);
        self.ran = Ghost(self.ran@.push(Request::Sql(st.sql@, st.args@.map_values(|a: String| a@))));
        r
    }

    /// Opens the store at `path`, creating it if absent, applies each of the
    /// `pragma_settings` in turn, and creates the log table unless it exists.
    /// Any failure is `StorageUnavailable`.
    pub fn open(path: &str) -> (r: Result<Store, LogError>)
        ensures
            r is Err ==> r->Err_0 == LogError::StorageUnavailable,
            r is Ok ==> r->Ok_0.requests() == open_requests(),
    {
        let conn = match open_connection(path) {
            Ok(c) => c,
            Err(_) => return Err(LogError::StorageUnavailable),
        };
        let mut store = Store { conn, ran: Ghost(Seq::empty()) };
        let settings = pragma_settings();
        let mut k: usize = 0;
        while k < settings.len()
            invariant
                k <= settings.len() == 2,
                settings@[0].0@ == "busy_timeout"@,
                settings@[0].1@ == "5000"@,
                settings@[1].0@ == "journal_mode"@,
                settings@[1].1@ == "WAL"@,
                store.requests() == Seq::new(
                    k as nat,
                    |i: int| Request::Pragma(settings@[i].0@, settings@[i].1@),
                ),
            decreases settings.len() - k,
        {
            let (name, value) = &settings[k];
            if store.set(name, value).is_err() {
                return Err(LogError::StorageUnavailable);
            }
            k += 1;
            assert(store.requests() =~= Seq::new(
                k as nat,
                |i: int| Request::Pragma(settings@[i].0@, settings@[i].1@),
            ));
        }
        let st = schema_statement();
        match store.run(&st) {
            Ok(_) => {
                assert(st.args@.map_values(|a: String| a@) =~= Seq::<Seq<char>>::empty());
                assert(store.requests() =~= open_requests());
                Ok(store)
            },
            Err(_) => Err(LogError::StorageUnavailable),
        }
    }

    /// Appends `f` as one row; the store assigns its id and timestamp. Gives
    /// the new row's id; any failure is `WriteFailed`.
    pub fn insert(&mut self, f: &LogFields) -> (r: Result<i64, LogError>)
        ensures
            r is Err ==> r->Err_0 == LogError::WriteFailed,
            final(self).requests() == old(self).requests().push(insert_request(f@)),
    {
        let st = insert_statement(f);
        let r = self.run(&st);
        assert(st.args@.map_values(|a: String| a@) =~= seq![f.source@, f.severity@, f.message@]);
        match r {
            Ok(_) => Ok(last_insert_rowid(&self.conn)),
            Err(_) => Err(LogError::WriteFailed),
        }
    }

    /// Deletes every row whose timestamp lies strictly more than `hours` hours
    /// back, and gives the number of rows deleted; any failure is `WriteFailed`.
    pub fn delete_older_than(&mut self, hours: u32) -> (r: Result<usize, LogError>)
        ensures
            r is Err ==> r->Err_0 == LogError::WriteFailed,
            final(self).requests() == old(self).requests().push(delete_request(hours as nat)),
    {
        let st = delete_statement(hours);
        let r = self.run(&st);
        assert(st.args@.map_values(|a: String| a@) =~= seq![age_modifier_of(hours as nat)]);
        match r {
            Ok(n) => Ok(n),
            Err(_) => Err(LogError::WriteFailed),
        }
    }

    /// Compacts the store's file; this needs exclusive access, and any failure
    /// is `StorageUnavailable`.
    pub fn reclaim_space(&mut self) -> (r: Result<(), LogError>)
        ensures
            r is Err ==> r->Err_0 == LogError::StorageUnavailable,
            final(self).requests() == old(self).requests().push(vacuum_request()),
    {
        let st = vacuum_statement();
        let r = self.run(&st);
        assert(st.args@.map_values(|a: String| a@) =~= Seq::<Seq<char>>::empty());
        match r {
            Ok(_) => Ok(()),
            Err(_) => Err(LogError::StorageUnavailable),
        }
    }
}

} // verus!
