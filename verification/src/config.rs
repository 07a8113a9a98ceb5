//! The configuration of a run, made from the options of the command line.

use crate::db::save_path::{unix_form, unix_style, SavePath};
use crate::db::tracker_url::TrackerUrl;
use crate::text::single;
use vstd::prelude::*;
use vstd::string::StringExecFns;

verus! {

/// The options of the command line, as plain values.
#[derive(Debug, Clone, PartialEq, Eq)]
pub struct CliOptions {
    /// Path to the client's local config directory (where torrents.db lives)
    pub config_dir: Option<String>,
    /// Disable the automatic torrents.db backup
    pub disable_backup: bool,
    /// Enable verbose output
    pub verbose: bool,
    /// Path string to replace
    pub old_path: Option<String>,
    /// New path string
    pub new_path: Option<String>,
    /// Force slash separators
    pub use_unix_sep: bool,
    /// Force backslash separators
    pub use_win_sep: bool,
    /// Tracker string to replace
    pub old_tracker: Option<String>,
    /// New tracker string
    pub new_tracker: Option<String>,
}

/// Why a set of options makes no configuration.
#[derive(Debug, Clone, Copy, PartialEq, Eq, Structural)]
pub enum ConfigError {
    /// An old path was given without a new one.
    NewPathMissing,
    /// A new path was given without an old one.
    OldPathMissing,
    /// Slash and backslash separators were both asked for.
    ConflictingSeparators,
    /// An old tracker was given without a new one.
    NewTrackerMissing,
    /// A new tracker was given without an old one.
    OldTrackerMissing,
    /// No config directory was given and the user's data directory could
    /// not be found.
    NoDataDirectory,
}

impl ConfigError {
    /// The text of the error.
    pub open spec fn text(self) -> Seq<char> {
        match self {
            ConfigError::NewPathMissing => "--new-path is missing!"@,
            ConfigError::OldPathMissing => "--old-path is missing!"@,
            ConfigError::ConflictingSeparators => {
                "--use-unix-sep and --use-win-sep exclude each other!"@
            },
            ConfigError::NewTrackerMissing => "--new-tracker is missing!"@,
            ConfigError::OldTrackerMissing => "--old-tracker is missing!"@,
            ConfigError::NoDataDirectory => "the local data directory could not be found!"@,
        }
    }

    /// The text of the error, for the user.
    pub fn message(&self) -> (s: String)
        ensures
            s@ == self.text(),
    {
        match self {
            ConfigError::NewPathMissing => String::from_str("--new-path is missing!"),
            ConfigError::OldPathMissing => String::from_str("--old-path is missing!"),
            ConfigError::ConflictingSeparators => String::from_str(
                "--use-unix-sep and --use-win-sep exclude each other!",
            ),
            ConfigError::NewTrackerMissing => String::from_str("--new-tracker is missing!"),
            ConfigError::OldTrackerMissing => String::from_str("--old-tracker is missing!"),
            ConfigError::NoDataDirectory => String::from_str(
                "the local data directory could not be found!",
            ),
        }
    }
}

/// Application configuration generated from the options of the command line.
#[derive(Debug, Clone, PartialEq, Eq)]
pub struct Config {
    /// Path to the client's local config directory (where torrents.db lives)
    pub qb_directory: String,
    /// The full path to the torrents.db file
    pub db_file: String,
    /// Disables the automatic torrents.db backup
    pub disable_backup: bool,
    /// Torrent save path information
    pub save_path: Option<SavePath>,
    /// Torrent tracker url information
    pub tracker_url: Option<TrackerUrl>,
    /// Toggles verbose output
    pub verbose: bool,
}

/// What is wrong with the options, if anything. An old and a new path come
/// together or not at all, and so do an old and a new tracker; the two
/// separator switches exclude each other. The paths are looked at first,
/// then the separators, then the trackers.
pub open spec fn fault(opts: CliOptions) -> Option<ConfigError> {
    if opts.old_path is Some && opts.new_path is None {
        Some(ConfigError::NewPathMissing)
    } else if opts.old_path is None && opts.new_path is Some {
        Some(ConfigError::OldPathMissing)
    } else if opts.use_unix_sep && opts.use_win_sep {
        Some(ConfigError::ConflictingSeparators)
    } else if opts.old_tracker is Some && opts.new_tracker is None {
        Some(ConfigError::NewTrackerMissing)
    } else if opts.old_tracker is None && opts.new_tracker is Some {
        Some(ConfigError::OldTrackerMissing)
    } else {
        None
    }
}

/// The separator that the options ask for, on a host whose own separator is
/// `host`.
pub open spec fn separator_for(opts: CliOptions, host: char) -> Seq<char> {
    if opts.use_unix_sep {
        seq!['/']
    } else if opts.use_win_sep {
        seq!['\\']
    } else {
        seq![host]
    }
}

/// `config` is the configuration that faultless options make, with the
/// given directory, database file and host separator.
pub open spec fn made_from(
    config: Config,
    opts: CliOptions,
    qb_directory: Seq<char>,
    db_file: Seq<char>,
    host: char,
) -> bool {
    &&& config.qb_directory@ == qb_directory
    &&& config.db_file@ == db_file
    &&& config.disable_backup == opts.disable_backup
    &&& config.verbose == opts.verbose
    &&& config.save_path is Some <==> opts.old_path is Some
    &&& config.save_path matches Some(sp) ==> {
        &&& sp.old@ == opts.old_path->0@
        &&& sp.new@ == opts.new_path->0@
        &&& sp.old_unix@ == unix_form(sp.old@)
        &&& sp.new_unix@ == unix_form(sp.new@)
        &&& sp.separator@ == separator_for(opts, host)
    }
    &&& config.tracker_url is Some <==> opts.old_tracker is Some
    &&& config.tracker_url matches Some(tu) ==> {
        &&& tu.old@ == opts.old_tracker->0@
        &&& tu.new@ == opts.new_tracker->0@
    }
}

/// The separator of paths on this host.
///
/// Trusted: `std::path::MAIN_SEPARATOR`. Nothing is claimed of its value.
#[verifier::external_body]
fn host_separator() -> char {
    std::path::MAIN_SEPARATOR
}

/// The path of `name` inside the directory `dir`.
///
/// Trusted: `Path::join` of the standard library. How the two are put
/// together depends on the host, so nothing is claimed of the result.
#[verifier::external_body]
fn join_path(dir: &str, name: &str) -> String {
    std::path::Path::new(dir).join(name).to_string_lossy().into_owned()
}

/// The user's local data directory, if the host tells it.
///
/// Trusted: `BaseDirs::new` and `BaseDirs::data_local_dir` of the
/// `directories` crate, which read the environment. Nothing is claimed of
/// the result.
#[verifier::external_body]
fn local_data_dir() -> Option<String> {
    match directories::BaseDirs::new() {
        Some(dirs) => Some(dirs.data_local_dir().to_string_lossy().into_owned()),
        None => None,
    }
}

impl Config {
    /// Makes the configuration from options, a directory, a database file
    /// and the separator of the host.
    ///
    /// Faulty options are refused with their fault, before anything is read
    /// from a database.
    pub fn assemble(
        opts: CliOptions,
        qb_directory: String,
        db_file: String,
        host_separator: char,
    ) -> (r: Result<Config, ConfigError>)
        ensures
            match fault(opts) {
                Some(e) => r matches Err(x) && x == e,
                None => r matches Ok(c) && made_from(
                    c,
                    opts,
                    qb_directory@,
                    db_file@,
                    host_separator,
                ),
            },
    {
        let save_path = match (opts.old_path, opts.new_path) {
            (Some(old), Some(new)) => {
                if opts.use_unix_sep && opts.use_win_sep {
                    return Err(ConfigError::ConflictingSeparators);
                }
                let separator = if opts.use_unix_sep {
                    single('/')
                } else if opts.use_win_sep {
                    single('\\')
                } else {
                    single(host_separator)
                };
                let old_unix = unix_style(old.as_str());
                let new_unix = unix_style(new.as_str());
                Some(SavePath { old_unix, new_unix, old, new, separator })
            },
            (None, None) => {
                if opts.use_unix_sep && opts.use_win_sep {
                    return Err(ConfigError::ConflictingSeparators);
                }
                None
            },
            (Some(_), None) => {
                return Err(ConfigError::NewPathMissing);
            },
            (None, Some(_)) => {
                return Err(ConfigError::OldPathMissing);
            },
        };
        let tracker_url = match (opts.old_tracker, opts.new_tracker) {
            (Some(old), Some(new)) => Some(TrackerUrl { old, new }),
            (None, None) => None,
            (Some(_), None) => {
                return Err(ConfigError::NewTrackerMissing);
            },
            (None, Some(_)) => {
                return Err(ConfigError::OldTrackerMissing);
            },
        };
        Ok(
            Config {
                qb_directory,
                db_file,
                disable_backup: opts.disable_backup,
                save_path,
                tracker_url,
                verbose: opts.verbose,
            },
        )
    }

    /// Tells what is wrong with the options, if anything.
    pub fn check(opts: &CliOptions) -> (r: Option<ConfigError>)
        ensures
            r == fault(*opts),
    {
        if opts.old_path.is_some() && opts.new_path.is_none() {
            Some(ConfigError::NewPathMissing)
        } else if opts.old_path.is_none() && opts.new_path.is_some() {
            Some(ConfigError::OldPathMissing)
        } else if opts.use_unix_sep && opts.use_win_sep {
            Some(ConfigError::ConflictingSeparators)
        } else if opts.old_tracker.is_some() && opts.new_tracker.is_none() {
            Some(ConfigError::NewTrackerMissing)
        } else if opts.old_tracker.is_none() && opts.new_tracker.is_some() {
            Some(ConfigError::OldTrackerMissing)
        } else {
            None
        }
    }

    /// Builds the configuration from the options of the command line.
    ///
    /// Faulty options are refused with their fault. Without a fault, the
    /// directory is the one the options name, or else `qBittorrent` inside
    /// the user's local data directory; the database is `torrents.db`
    /// inside the directory; and the separator of the host stands for a
    /// separator that the options leave open.
    pub fn build(opts: CliOptions) -> (r: Result<Config, ConfigError>)
        ensures
            fault(opts) matches Some(e) ==> (r matches Err(x) && x == e),
            fault(opts) is None ==> (r matches Err(x) ==> x == ConfigError::NoDataDirectory
                && opts.config_dir is None),
            fault(opts) is None && opts.config_dir is Some ==> r is Ok,
            r matches Ok(c) ==> exists|host: char|
                made_from(c, opts, c.qb_directory@, c.db_file@, host),
            r matches Ok(c) ==> (opts.config_dir matches Some(d) ==> c.qb_directory@ == d@),
    {
        match Config::check(&opts) {
            Some(e) => {
                return Err(e);
            },
            None => {},
        }
        let qb_directory = match &opts.config_dir {
            Some(dir) => dir.clone(),
            None => match local_data_dir() {
                Some(base) => join_path(base.as_str(), "qBittorrent"),
                None => {
                    return Err(ConfigError::NoDataDirectory);
                },
            },
        };
        let db_file = join_path(qb_directory.as_str(), "torrents.db");
        let host = host_separator();
        let r = Config::assemble(opts, qb_directory, db_file, host);
        proof {
            if r is Ok {
                assert(made_from(r->Ok_0, opts, r->Ok_0.qb_directory@, r->Ok_0.db_file@, host));
            }
        }
        r
    }
}

/// The save path of a configuration is well-formed on every host whose
/// separator is a slash or a backslash.
pub proof fn lemma_made_save_path_is_well_formed(
    config: Config,
    opts: CliOptions,
    qb_directory: Seq<char>,
    db_file: Seq<char>,
    host: char,
)
    requires
        made_from(config, opts, qb_directory, db_file, host),
        host == '/' || host == '\\',
        config.save_path is Some,
    ensures
        config.save_path->0.well_formed(),
{
}

} // verus!
