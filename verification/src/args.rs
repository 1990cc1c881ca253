//! Command-line options. Deliberately simple: flags are matched exactly and
//! anything unknown is ignored.

use crate::text::str_eq;
use vstd::prelude::*;
use vstd::string::StringExecFns;

verus! {

/// The options of the server binary.
#[derive(Clone, Debug)]
pub struct Options {
    /// --config lets you specify the path of the config file to use.
    /// It's optional; if omitted, eardogger.toml in the current working
    /// directory is used.
    pub config: Option<String>,
    /// --migrate runs any pending database migrations, and then exits instead
    /// of starting the server.
    pub migrate: bool,
    /// --status (or its synonym --check) prints the current database
    /// migrations status and then exits.
    pub status: bool,
    /// --version prints version info and then exits.
    pub version: bool,
}

/// The options read from the arguments, and whether a final `--config` was
/// left without a path (it is then ignored).
#[derive(Clone, Debug)]
pub struct CliParse {
    pub options: Options,
    pub dangling_config: bool,
}

/// The scanner's view of the arguments read so far.
pub struct CliState {
    pub config: Option<Seq<char>>,
    pub migrate: bool,
    pub status: bool,
    pub version: bool,
    /// The previous argument was `--config`, so this one is its value.
    pub awaiting_config: bool,
}

/// The scanner's state after one more argument.
pub open spec fn cli_step(s: CliState, arg: Seq<char>) -> CliState {
    if s.awaiting_config {
        CliState { config: Some(arg), awaiting_config: false, ..s }
    } else if arg == "--migrate"@ {
        CliState { migrate: true, ..s }
    } else if arg == "--config"@ {
        CliState { awaiting_config: true, ..s }
    } else if arg == "--status"@ || arg == "--check"@ {
        CliState { status: true, ..s }
    } else if arg == "--version"@ {
        CliState { version: true, ..s }
    } else {
        s
    }
}

/// The scanner's state after the first `n` arguments.
pub open spec fn cli_scan(args: Seq<String>, n: int) -> CliState
    decreases n,
{
    if n <= 0 {
        CliState {
            config: None,
            migrate: false,
            status: false,
            version: false,
            awaiting_config: false,
        }
    } else {
        cli_step(cli_scan(args, n - 1), args[n - 1]@)
    }
}

/// The view of an optional owned text.
pub open spec fn opt_string_view(o: Option<String>) -> Option<Seq<char>> {
    match o {
        Some(s) => Some(s@),
        None => None,
    }
}

/// Read the options out of the program's arguments (the first argument,
/// the program's name, included). A flag's value is the argument after it;
/// a later `--config` overrides an earlier one.
pub fn parse_cli_args(args: &Vec<String>) -> (r: CliParse)
    ensures
        ({
            let s = cli_scan(args@, args@.len() as int);
            &&& opt_string_view(r.options.config) == s.config
            &&& r.options.migrate == s.migrate
            &&& r.options.status == s.status
            &&& r.options.version == s.version
            &&& r.dangling_config == s.awaiting_config
        }),
{
    let mut config: Option<String> = None;
    let mut migrate = false;
    let mut status = false;
    let mut version = false;
    let mut awaiting_config = false;
    let mut i: usize = 0;
    while i < args.len()
        invariant
            i <= args@.len(),
            ({
                let s = cli_scan(args@, i as int);
                &&& opt_string_view(config) == s.config
                &&& migrate == s.migrate
                &&& status == s.status
                &&& version == s.version
                &&& awaiting_config == s.awaiting_config
            }),
        decreases args@.len() - i,
    {
        let arg = args[i].as_str();
        if awaiting_config {
            config = Some(String::from_str(arg));
            awaiting_config = false;
        } else if str_eq(arg, "--migrate") {
            migrate = true;
        } else if str_eq(arg, "--config") {
            awaiting_config = true;
        } else if str_eq(arg, "--status") || str_eq(arg, "--check") {
            status = true;
        } else if str_eq(arg, "--version") {
            version = true;
        }
        i = i + 1;
    }
    CliParse { options: Options { config, migrate, status, version }, dangling_config: awaiting_config }
}

/// The options of the database import tool, as far as they were given.
#[derive(Clone, Debug)]
pub struct ImportArgs {
    pub postgres_url: Option<String>,
    pub sqlite_url: Option<String>,
}

/// Which value the import tool's scanner expects next.
#[derive(Clone, Copy, PartialEq, Eq, Structural, Debug)]
pub enum ImportScanState {
    Scanning,
    PostgresVal,
    SqliteVal,
}

/// The import scanner's view of the arguments read so far.
pub struct ImportState {
    pub postgres_url: Option<Seq<char>>,
    pub sqlite_url: Option<Seq<char>>,
    pub state: ImportScanState,
}

/// The import scanner's state after one more argument.
pub open spec fn import_step(s: ImportState, arg: Seq<char>) -> ImportState {
    match s.state {
        ImportScanState::Scanning => if arg == "--postgres_url"@ {
            ImportState { state: ImportScanState::PostgresVal, ..s }
        } else if arg == "--sqlite_url"@ {
            ImportState { state: ImportScanState::SqliteVal, ..s }
        } else {
            s
        },
        ImportScanState::PostgresVal => ImportState {
            postgres_url: Some(arg),
            state: ImportScanState::Scanning,
            ..s
        },
        ImportScanState::SqliteVal => ImportState {
            sqlite_url: Some(arg),
            state: ImportScanState::Scanning,
            ..s
        },
    }
}

/// The import scanner's state after the first `n` arguments.
pub open spec fn import_scan(args: Seq<String>, n: int) -> ImportState
    decreases n,
{
    if n <= 0 {
        ImportState { postgres_url: None, sqlite_url: None, state: ImportScanState::Scanning }
    } else {
        import_step(import_scan(args, n - 1), args[n - 1]@)
    }
}

/// Read `--postgres_url <URL>` and `--sqlite_url <URL>` out of the import
/// tool's arguments. Both are required; the caller reports a missing one.
pub fn parse_import_args(args: &Vec<String>) -> (r: ImportArgs)
    ensures
        opt_string_view(r.postgres_url) == import_scan(args@, args@.len() as int).postgres_url,
        opt_string_view(r.sqlite_url) == import_scan(args@, args@.len() as int).sqlite_url,
{
    let mut postgres_url: Option<String> = None;
    let mut sqlite_url: Option<String> = None;
    let mut state = ImportScanState::Scanning;
    let mut i: usize = 0;
    while i < args.len()
        invariant
            i <= args@.len(),
            opt_string_view(postgres_url) == import_scan(args@, i as int).postgres_url,
            opt_string_view(sqlite_url) == import_scan(args@, i as int).sqlite_url,
            state == import_scan(args@, i as int).state,
        decreases args@.len() - i,
    {
        let arg = args[i].as_str();
        match state {
            ImportScanState::Scanning => {
                if str_eq(arg, "--postgres_url") {
                    state = ImportScanState::PostgresVal;
                } else if str_eq(arg, "--sqlite_url") {
                    state = ImportScanState::SqliteVal;
                }
            },
            ImportScanState::PostgresVal => {
                postgres_url = Some(String::from_str(arg));
                state = ImportScanState::Scanning;
            },
            ImportScanState::SqliteVal => {
                sqlite_url = Some(String::from_str(arg));
                state = ImportScanState::Scanning;
            },
        }
        i = i + 1;
    }
    ImportArgs { postgres_url, sqlite_url }
}

} // verus!
