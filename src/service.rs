use vstd::prelude::*;

use crate::decoder::LogFields;
use crate::error::LogError;
use crate::statement::RETENTION_HOURS;
use crate::store::{delete_request, insert_request, open_requests, vacuum_request, Request, Store};

verus! {

/// What the command line asks for.
pub enum Command {
    /// Run the ingestion daemon.
    Daemon,
    /// Run the retention sweep once.
    Compact,
    /// Print the usage and succeed.
    Help,
    /// Store one entry: source, severity, message.
    Log(String, String, String),
    /// Print the usage and fail.
    Usage,
}

/// The mathematical form of a [`Command`].
pub enum CommandSpec {
    Daemon,
    Compact,
    Help,
    Log(Seq<char>, Seq<char>, Seq<char>),
    Usage,
}

impl View for Command {
    type V = CommandSpec;

    open spec fn view(&self) -> CommandSpec {
        match self {
            Command::Daemon => CommandSpec::Daemon,
            Command::Compact => CommandSpec::Compact,
            Command::Help => CommandSpec::Help,
            Command::Log(a, b, c) => CommandSpec::Log(a@, b@, c@),
            Command::Usage => CommandSpec::Usage,
        }
    }
}

/// The command that a full argument list, program name first, asks for: a
/// known flag in first place picks its mode; otherwise three arguments or more
/// are an entry to store, and anything else asks for the usage.
pub open spec fn command_of(args: Seq<Seq<char>>) -> CommandSpec {
    if args.len() > 1 {
        let a = args[1];
        if a == "-d"@ || a == "--daemon"@ {
            CommandSpec::Daemon
        } else if a == "-c"@ || a == "--compact"@ {
            CommandSpec::Compact
        } else if a == "-h"@ || a == "--help"@ {
            CommandSpec::Help
        } else if args.len() >= 4 {
            CommandSpec::Log(args[1], args[2], args[3])
        } else {
            CommandSpec::Usage
        }
    } else {
        CommandSpec::Usage
    }
}

fn equals_literal(a: &String, lit: &str) -> (r: bool)
    ensures
        r == (a@ == lit@),
{
    *a == lit.to_owned()
}

/// Reads the command line, program name first.
pub fn parse_command(args: &Vec<String>) -> (r: Command)
    ensures
        r@ == command_of(args@.map_values(|s: String| s@)),
{
    let ghost views = args@.map_values(|s: String| s@);
    if args.len() > 1 {
        let a = &args[1];
        assert(views[1] == a@);
        if equals_literal(a, "-d") || equals_literal(a, "--daemon") {
            Command::Daemon
        } else if equals_literal(a, "-c") || equals_literal(a, "--compact") {
            Command::Compact
        } else if equals_literal(a, "-h") || equals_literal(a, "--help") {
            Command::Help
        } else if args.len() >= 4 {
            assert(views[2] == args[2]@ && views[3] == args[3]@);
            Command::Log(args[1].clone(), args[2].clone(), args[3].clone())
        } else {
            Command::Usage
        }
    } else {
        Command::Usage
    }
}

/// The store's location: the override if one is set, else `log.db` in a
/// development build and `/var/log.db` in a production build.
pub fn get_db_path(development: bool, override_path: Option<String>) -> (r: String)
    ensures
        r@ == (match override_path {
            Some(p) => p@,
            None => if development {
                "log.db"@
            } else {
                "/var/log.db"@
            },
        }),
{
    match override_path {
        Some(p) => p,
        None => if development {
            "log.db".to_owned()
        } else {
            "/var/log.db".to_owned()
        },
    }
}

/// The channel's address: the override if one is set, else `log.sock` in a
/// development build and `/run/log.sock` in a production build.
pub fn get_socket_path(development: bool, override_path: Option<String>) -> (r: String)
    ensures
        r@ == (match override_path {
            Some(p) => p@,
            None => if development {
                "log.sock"@
            } else {
                "/run/log.sock"@
            },
        }),
{
    match override_path {
        Some(p) => p,
        None => if development {
            "log.sock".to_owned()
        } else {
            "/run/log.sock".to_owned()
        },
    }
}

/// Stores one entry in the store at `db_path` and gives its id, beside the
/// requests handed to the store. Unless the store could not be opened, those
/// are the opening requests followed by the insert of the three arguments as
/// given. The store may be unavailable, or the write rejected; nothing else
/// fails.
pub fn run_oneshot(db_path: &str, source: &str, severity: &str, message: &str) -> (r: (
    Result<i64, LogError>,
    Ghost<Seq<Request>>,
))
    ensures
        r.0 is Err ==> (r.0->Err_0 == LogError::StorageUnavailable || r.0->Err_0
            == LogError::WriteFailed),
        r.0 is Ok || r.0 == Err::<i64, LogError>(LogError::WriteFailed) ==> r.1@ == open_requests().push(
            insert_request((source@, severity@, message@)),
        ),
{
    let mut store = match Store::open(db_path) {
        Ok(s) => s,
        Err(e) => return (Err(e), Ghost(Seq::empty())),
    };
    let fields = LogFields::new(source, severity, message);
    let r = store.insert(&fields);
    (r, Ghost(store.requests()))
}

/// What a retention sweep did: how many entries it deleted, and how the
/// compaction that followed ended.
pub struct SweepReport {
    pub deleted: usize,
    pub compaction: Result<(), LogError>,
}

/// Deletes the entries of the store at `db_path` that are strictly older than
/// the retention window, then compacts the store; the requests handed to the
/// store come beside the result. Failing to open is `StorageUnavailable` and a
/// failed delete is `WriteFailed`; once the delete is done its count is
/// reported, with the compaction's outcome beside it, a failed compaction
/// being `StorageUnavailable`.
pub fn run_cleanup(db_path: &str) -> (r: (Result<SweepReport, LogError>, Ghost<Seq<Request>>))
    ensures
        r.0 is Err ==> (r.0->Err_0 == LogError::StorageUnavailable || r.0->Err_0
            == LogError::WriteFailed),
        r.0 is Ok ==> (r.0->Ok_0.compaction is Err ==> r.0->Ok_0.compaction->Err_0
            == LogError::StorageUnavailable),
        r.0 is Ok ==> r.1@ == open_requests().push(delete_request(RETENTION_HOURS as nat)).push(
            vacuum_request(),
        ),
        r.0 is Err && r.0->Err_0 == LogError::WriteFailed ==> r.1@ == open_requests().push(
            delete_request(RETENTION_HOURS as nat),
        ),
{
    let mut store = match Store::open(db_path) {
        Ok(s) => s,
        Err(e) => return (Err(e), Ghost(Seq::empty())),
    };
    let deleted = match store.delete_older_than(RETENTION_HOURS) {
        Ok(n) => n,
        Err(e) => return (Err(e), Ghost(store.requests())),
    };
    let compaction = store.reclaim_space();
    (Ok(SweepReport { deleted, compaction }), Ghost(store.requests()))
}

} // verus!
