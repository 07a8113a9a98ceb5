//! The torrent table of the resume database: its rows, and the rewrites that
//! are applied to them.

pub mod db_structs;
pub mod save_path;
pub mod tracker_url;

use crate::codec::CodecError;
use crate::config::Config;
use crate::text::from_chars;
use vstd::prelude::*;
use vstd::string::StringExecFns;

verus! {

/// The torrents.db database of the client.
pub struct DB {}

/// What to do about the backup of the database before a run.
#[derive(Debug, Clone, PartialEq, Eq)]
pub enum BackupPlan {
    /// Backups are disabled: nothing is copied.
    Skip,
    /// The database file is copied to a file of the given name in the
    /// client's directory.
    Copy {
        /// The file to copy
        from: String,
        /// The name of the copy
        file_name: String,
    },
}

/// How the database file is opened.
#[derive(Debug, Clone, PartialEq, Eq)]
pub struct OpenRequest {
    /// The file to open
    pub db_file: String,
    /// Open for reading and writing; the file is not created
    pub read_write: bool,
    /// The file name may be a URI
    pub uri: bool,
    /// The connection does without the mutex of the database library
    pub no_mutex: bool,
}

/// The name of the backup that is made at the given time.
pub open spec fn backup_name(timestamp: Seq<char>) -> Seq<char> {
    "torrents.db-"@ + timestamp + ".bak"@
}

/// The local time, as year, month, day, hour, minute and second in digits.
///
/// Trusted: `Local::now` and `DateTime::format` of the `chrono` crate, with
/// the pattern `%Y%m%d%H%M%S`. The result depends on the clock and the time
/// zone of the host, so nothing is claimed of it.
#[verifier::external_body]
fn local_timestamp() -> String {
    chrono::offset::Local::now().format("%Y%m%d%H%M%S").to_string()
}

impl DB {
    /// Plans the backup of the database for a run that starts at the given
    /// time.
    pub fn plan_backup(config: &Config, timestamp: &str) -> (plan: BackupPlan)
        ensures
            config.disable_backup ==> plan is Skip,
            !config.disable_backup ==> (plan matches BackupPlan::Copy { from, file_name }
                && from@ == config.db_file@ && file_name@ == backup_name(timestamp@)),
    {
        if config.disable_backup {
            BackupPlan::Skip
        } else {
            let mut file_name = String::from_str("torrents.db-");
            file_name.append(timestamp);
            file_name.append(".bak");
            BackupPlan::Copy { from: config.db_file.clone(), file_name }
        }
    }

    /// Plans the timestamped backup of the database before modification.
    ///
    /// With backups disabled nothing is copied. Otherwise the database file
    /// is copied to a file that is named after the local time.
    pub fn backup(config: &Config) -> (plan: BackupPlan)
        ensures
            config.disable_backup ==> plan is Skip,
            !config.disable_backup ==> (plan matches BackupPlan::Copy { from, file_name }
                && from@ == config.db_file@ && exists|timestamp: Seq<char>|
                file_name@ == backup_name(timestamp)),
    {
        let timestamp = local_timestamp();
        let plan = DB::plan_backup(config, timestamp.as_str());
        proof {
            if !config.disable_backup {
                assert(plan->Copy_file_name@ == backup_name(timestamp@));
            }
        }
        plan
    }

    /// Tells how the database of the configuration is opened: the file of
    /// the configuration, for reading and writing, as a URI, without mutex.
    pub fn connect(config: &Config) -> (request: OpenRequest)
        ensures
            request.db_file@ == config.db_file@,
            request.read_write,
            request.uri,
            request.no_mutex,
    {
        OpenRequest { db_file: config.db_file.clone(), read_write: true, uri: true, no_mutex: true }
    }
}

/// The decimal digits of a number, most significant first.
pub open spec fn decimal(n: nat) -> Seq<char>
    decreases n,
{
    if n < 10 {
        seq![digit(n)]
    } else {
        decimal(n / 10).push(digit(n % 10))
    }
}

/// The character of a digit.
pub open spec fn digit(d: nat) -> char {
    if d == 0 {
        '0'
    } else if d == 1 {
        '1'
    } else if d == 2 {
        '2'
    } else if d == 3 {
        '3'
    } else if d == 4 {
        '4'
    } else if d == 5 {
        '5'
    } else if d == 6 {
        '6'
    } else if d == 7 {
        '7'
    } else if d == 8 {
        '8'
    } else {
        '9'
    }
}

/// The character of a digit.
fn digit_char(d: usize) -> (c: char)
    requires
        d < 10,
    ensures
        c == digit(d as nat),
{
    if d == 0 {
        '0'
    } else if d == 1 {
        '1'
    } else if d == 2 {
        '2'
    } else if d == 3 {
        '3'
    } else if d == 4 {
        '4'
    } else if d == 5 {
        '5'
    } else if d == 6 {
        '6'
    } else if d == 7 {
        '7'
    } else if d == 8 {
        '8'
    } else {
        '9'
    }
}

/// Writes a number in decimal digits.
pub fn decimal_string(n: usize) -> (s: String)
    ensures
        s@ == decimal(n as nat),
{
    let mut low: Vec<char> = Vec::new();
    let mut rest: usize = n;
    while rest >= 10
        invariant
            decimal(n as nat) == decimal(rest as nat) + low@.reverse(),
        decreases rest,
    {
        let ghost before = low@;
        low.push(digit_char(rest % 10));
        assert(low@.reverse() =~= seq![digit((rest % 10) as nat)] + before.reverse());
        assert(decimal(rest as nat) + before.reverse() =~= decimal((rest / 10) as nat)
            + low@.reverse());
        rest = rest / 10;
    }
    let mut digits: Vec<char> = Vec::new();
    digits.push(digit_char(rest));
    let mut i: usize = low.len();
    while i > 0
        invariant
            i <= low.len(),
            digits@ == decimal(rest as nat) + low@.reverse().take(low.len() - i),
        decreases i,
    {
        i = i - 1;
        digits.push(low[i]);
        assert(low@.reverse().take(low.len() - i) =~= low@.reverse().take(low.len() - i - 1).push(
            low@[i as int],
        ));
    }
    assert(low@.reverse().take(low.len() as int) =~= low@.reverse());
    from_chars(&digits)
}

/// The line that sums up a run: the name of the rewrite, and how many
/// torrents it updated.
pub open spec fn summary_text(label: Seq<char>, updated: nat) -> Seq<char> {
    if updated == 0 {
        label + ": no torrents were updated"@
    } else if updated == 1 {
        label + ": 1 torrent was updated"@
    } else {
        label + ": "@ + decimal(updated) + " torrents were updated"@
    }
}

/// Writes the line that sums up a run.
pub fn summary(label: &str, updated: usize) -> (line: String)
    ensures
        line@ == summary_text(label@, updated as nat),
{
    let mut line = String::from_str(label);
    if updated == 0 {
        line.append(": no torrents were updated");
    } else if updated == 1 {
        line.append(": 1 torrent was updated");
    } else {
        line.append(": ");
        let count = decimal_string(updated);
        line.append(count.as_str());
        line.append(" torrents were updated");
    }
    line
}

/// The line that tells how many rows a run looked at.
pub open spec fn scan_text(label: Seq<char>, scanned: nat) -> Seq<char> {
    label + ": "@ + decimal(scanned) + " rows scanned"@
}

/// Writes the line that tells how many rows a run looked at.
pub fn scan_summary(label: &str, scanned: usize) -> (line: String)
    ensures
        line@ == scan_text(label@, scanned as nat),
{
    let mut line = String::from_str(label);
    line.append(": ");
    let count = decimal_string(scanned);
    line.append(count.as_str());
    line.append(" rows scanned");
    line
}

/// Tells whether the store's answer to the write of one row is in order:
/// a write by primary key changes exactly one row.
pub fn write_confirmed(affected_rows: usize) -> (ok: bool)
    ensures
        ok == (affected_rows == 1),
{
    affected_rows == 1
}

/// The row on which a run over a list of rows ended.
#[derive(Debug, Clone, PartialEq, Eq)]
pub struct RowFailure {
    /// Position of the row in the list
    pub index: usize,
    /// Torrent database row id
    pub id: u64,
    /// Torrent hash id
    pub torrent_id: String,
    /// What was wrong with the row's blob
    pub error: CodecError,
}

/// The mathematical content of a `RowFailure`.
pub struct RowFailureModel {
    pub index: int,
    pub id: u64,
    pub torrent_id: Seq<char>,
    pub error: CodecError,
}

impl View for RowFailure {
    type V = RowFailureModel;

    open spec fn view(&self) -> RowFailureModel {
        RowFailureModel {
            index: self.index as int,
            id: self.id,
            torrent_id: self.torrent_id@,
            error: self.error,
        }
    }
}

} // verus!
