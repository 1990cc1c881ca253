//! Configuration values that the app is started with.

use crate::thirdparty::{
    is_absolute_path, path_join, path_join_text, url_error_text, url_parse_serialized,
    url_parse_text,
};
use vstd::prelude::*;
use vstd::string::StringExecFns;

verus! {

/// Failures while assembling the configuration.
#[derive(Clone, Debug)]
pub enum ConfError {
    /// A prior check guaranteed that this error would never happen.
    Impossible,
    /// The configured public URL is not a URL; holds the parser's reason.
    InvalidPublicUrl(String),
}

impl ConfError {
    /// The human-readable explanation of this error.
    pub fn message(&self) -> (m: String)
        ensures
            self is Impossible ==> m@
                == "a prior check guaranteed that this error would never happen."@,
            self matches ConfError::InvalidPublicUrl(reason) ==> m@ == reason@,
    {
        match self {
            ConfError::Impossible => String::from_str(
                "a prior check guaranteed that this error would never happen.",
            ),
            ConfError::InvalidPublicUrl(reason) => reason.clone(),
        }
    }
}

/// Settings for running the app server.
#[derive(Clone, Copy, PartialEq, Eq, Structural, Debug)]
pub enum ServeMode {
    Http { port: u16 },
    /// `max_connections` is never 0.
    Fcgi { max_connections: usize },
}

/// Settings for logging.
#[derive(Clone, Debug)]
pub struct LogConfig {
    /// A tracing `EnvFilter` string.
    pub filter: String,
    /// Whether to log to stdout. Always set false under fcgi, because
    /// mod_fcgid spams the server's global ErrorLog.
    pub stdout: bool,
    /// Whether to log to an auto-rotating log file.
    pub file: Option<LogFileConfig>,
}

/// Settings for logging to an auto-rotating log file.
#[derive(Clone, Debug)]
pub struct LogFileConfig {
    /// The directory to use for log files.
    pub directory: String,
    /// The log file prefix. Files will have names like `<name>.<timestamp>.log`.
    pub name: String,
    /// How many days of logs to keep. Excess logs are auto-deleted.
    pub days: usize,
}

/// How many database reader connections to allow on a machine with `cores`
/// cores: this is a low-traffic service running on shared hardware, so up to
/// `cores - 2`, but at least 2.
pub fn reader_pool_size(cores: u32) -> (r: u32)
    ensures
        r == if cores >= 4 { cores - 2 } else { 2 },
{
    let spare = if cores >= 2 { cores - 2 } else { 0 };
    if spare < 2 { 2 } else { spare }
}

/// Stuff the app needs that's sourced from configuration.
#[derive(Clone, Debug)]
pub struct DogConfig {
    /// Whether we're running in production or not. Masks 500 error details when true.
    pub production: bool,
    /// How many OS worker threads the async runtime will use. Must be > 0.
    pub runtime_threads: usize,
    /// How many DB reader threads to cap out at. Must be > 0. This is _in addition_
    /// to the runtime threads; there's always one more thread for the DB writer.
    pub reader_threads: u32,
    /// Whether to serve in FastCGI or HTTP mode, with mode-specific settings embedded.
    pub mode: ServeMode,
    /// Whether to check the integrity of database migrations before continuing startup.
    pub validate_migrations: bool,
    /// The site's own public-facing base URL, as the URL parser writes it.
    pub public_url: String,
    /// The location of the database file.
    pub db_file: String,
    /// The directory with static CSS/JS/image assets.
    pub assets_dir: String,
    /// Location of the binary key file for signing cookies; created if missing.
    pub key_file: String,
    /// Settings for application logging.
    pub log: LogConfig,
}

/// The configuration as the config file states it, before the public URL
/// is parsed and the file paths (absolute, or relative to the config
/// file's directory) are resolved.
#[derive(Clone, Debug)]
pub struct PreDogConfig {
    pub production: bool,
    pub runtime_threads: usize,
    pub reader_threads: u32,
    pub mode: ServeMode,
    pub validate_migrations: bool,
    pub public_url: String,
    pub db_file: String,
    pub assets_dir: String,
    pub key_file: String,
    pub log: LogConfig,
}

/// A configured path resolved against the config file's directory `base`:
/// an absolute path is kept as it is, and a relative one is put under the
/// directory.
pub open spec fn resolved_path(base: Seq<char>, path: Seq<char>, out: Seq<char>) -> bool {
    &&& out == path_join_text(base, path)
    &&& is_absolute_path(path) ==> out == path
    &&& !is_absolute_path(path) && base.len() > 0 && base.last() != '/' ==> out == base + "/"@
        + path
}

/// The log settings with the log file directory resolved against `base`.
pub open spec fn log_resolved(base: Seq<char>, before: LogConfig, after: LogConfig) -> bool {
    &&& after.filter@ == before.filter@
    &&& after.stdout == before.stdout
    &&& match (before.file, after.file) {
        (None, None) => true,
        (Some(b), Some(a)) => {
            &&& resolved_path(base, b.directory@, a.directory@)
            &&& a.name@ == b.name@
            &&& a.days == b.days
        },
        _ => false,
    }
}

impl PreDogConfig {
    /// Turn the file's settings into the app's configuration: parse the
    /// public URL (the only fallible bit) and join the file paths to
    /// `base_dir`, the config file's directory.
    pub fn finalize(self, base_dir: &str) -> (r: Result<DogConfig, ConfError>)
        ensures
            r is Ok <==> url_parse_text(self.public_url@) is Some,
            r matches Err(e) ==> e is InvalidPublicUrl,
            r matches Ok(c) ==> {
                &&& url_parse_text(self.public_url@) == Some(c.public_url@)
                &&& c.production == self.production
                &&& c.runtime_threads == self.runtime_threads
                &&& c.reader_threads == self.reader_threads
                &&& c.mode == self.mode
                &&& c.validate_migrations == self.validate_migrations
                &&& resolved_path(base_dir@, self.db_file@, c.db_file@)
                &&& resolved_path(base_dir@, self.assets_dir@, c.assets_dir@)
                &&& resolved_path(base_dir@, self.key_file@, c.key_file@)
                &&& log_resolved(base_dir@, self.log, c.log)
            },
    {
        let public_url = match url_parse_serialized(self.public_url.as_str()) {
            Ok(u) => u,
            Err(e) => {
                return Err(ConfError::InvalidPublicUrl(url_error_text(&e)));
            },
        };
        let db_file = path_join(base_dir, self.db_file.as_str());
        let assets_dir = path_join(base_dir, self.assets_dir.as_str());
        let key_file = path_join(base_dir, self.key_file.as_str());
        let file = match &self.log.file {
            Some(f) => Some(
                LogFileConfig {
                    directory: path_join(base_dir, f.directory.as_str()),
                    name: f.name.clone(),
                    days: f.days,
                },
            ),
            None => None,
        };
        let log = LogConfig { filter: self.log.filter.clone(), stdout: self.log.stdout, file };
        Ok(
            DogConfig {
                production: self.production,
                runtime_threads: self.runtime_threads,
                reader_threads: self.reader_threads,
                mode: self.mode,
                validate_migrations: self.validate_migrations,
                public_url,
                db_file,
                assets_dir,
                key_file,
                log,
            },
        )
    }
}

} // verus!
