//! Where a log keeps its files, and the configuration of a log.

use vstd::prelude::*;
use vstd::string::StrSliceExecFns;
use crate::log::{rotation_due, LockMode};

verus! {

/// `name` inside directory `dir`: joined with one `/` unless `dir` is empty
/// or already ends with one.
pub open spec fn join_path(dir: Seq<char>, name: Seq<char>) -> Seq<char> {
    if dir.len() == 0 {
        name
    } else if dir.last() == '/' {
        dir + name
    } else {
        dir + seq!['/'] + name
    }
}

/// `name` inside directory `dir`: see `join_path`.
pub fn join(dir: &str, name: &str) -> (r: String)
    ensures
        r@ == join_path(dir@, name@),
{
    let n = dir.unicode_len();
    let mut r = dir.to_owned();
    if n > 0 && dir.get_char(n - 1) != '/' {
        r.append("/");
        proof {
            reveal_strlit("/");
        }
    }
    r.append(name);
    proof {
        if n > 0 {
            assert(dir@.last() == dir@[n - 1]);
        }
    }
    r
}

/// The active log of the log kept in `dir`.
pub fn log_file_path(dir: &str) -> (r: String)
    ensures
        r@ == join_path(dir@, "app.jsonl"@),
{
    join(dir, "app.jsonl")
}

/// The archive of sealed active logs of the log kept in `dir`.
pub fn archive_file_path(dir: &str) -> (r: String)
    ensures
        r@ == join_path(dir@, "archive.jsonl.zst"@),
{
    join(dir, "archive.jsonl.zst")
}

/// The directory that holds the view snapshots of the log kept in `dir`.
pub fn views_dir_path(dir: &str) -> (r: String)
    ensures
        r@ == join_path(dir@, "views"@),
{
    join(dir, "views")
}

/// A cheap, cloneable handle on the files of one log, for reading. It holds
/// paths only; every read opens the files afresh.
#[derive(Debug, Clone)]
pub struct EventReader {
    log_path: String,
    archive_path: String,
}

impl EventReader {
    /// The path of the active log.
    pub closed spec fn log_path_spec(&self) -> Seq<char> {
        self.log_path@
    }

    /// The path of the archive.
    pub closed spec fn archive_path_spec(&self) -> Seq<char> {
        self.archive_path@
    }

    /// A reader on the log kept in `dir`.
    pub fn new(dir: &str) -> (r: EventReader)
        ensures
            r.log_path_spec() == join_path(dir@, "app.jsonl"@),
            r.archive_path_spec() == join_path(dir@, "archive.jsonl.zst"@),
    {
        EventReader { log_path: log_file_path(dir), archive_path: archive_file_path(dir) }
    }

    /// The path of the active log.
    pub fn log_path(&self) -> (r: &str)
        ensures
            r@ == self.log_path_spec(),
    {
        self.log_path.as_str()
    }

    /// The path of the archive.
    pub fn archive_path(&self) -> (r: &str)
        ensures
            r@ == self.archive_path_spec(),
    {
        self.archive_path.as_str()
    }
}

/// The configuration of a log before it is opened: its directory, the
/// rotation threshold (0 disables automatic rotation) and the lock mode.
#[derive(Debug, Clone)]
pub struct EventLogBuilder {
    dir: String,
    max_log_size: u64,
    lock_mode: LockMode,
}

impl EventLogBuilder {
    /// The configured directory.
    pub closed spec fn dir_spec(&self) -> Seq<char> {
        self.dir@
    }

    /// The configured rotation threshold.
    pub closed spec fn max_log_size_spec(&self) -> u64 {
        self.max_log_size
    }

    /// The configured lock mode.
    pub closed spec fn lock_mode_spec(&self) -> LockMode {
        self.lock_mode
    }

    /// The default configuration for the log kept in `dir`: no automatic
    /// rotation, exclusive locking.
    pub fn new(dir: &str) -> (r: EventLogBuilder)
        ensures
            r.dir_spec() == dir@,
            r.max_log_size_spec() == 0,
            r.lock_mode_spec() == LockMode::Flock,
    {
        EventLogBuilder { dir: dir.to_owned(), max_log_size: 0, lock_mode: LockMode::Flock }
    }

    /// Sets the size in bytes at which the active log is rotated; 0 disables
    /// automatic rotation.
    pub fn max_log_size(self, bytes: u64) -> (r: EventLogBuilder)
        ensures
            r.max_log_size_spec() == bytes,
            r.dir_spec() == self.dir_spec(),
            r.lock_mode_spec() == self.lock_mode_spec(),
    {
        EventLogBuilder { max_log_size: bytes, ..self }
    }

    /// Sets the lock mode.
    pub fn lock_mode(self, mode: LockMode) -> (r: EventLogBuilder)
        ensures
            r.lock_mode_spec() == mode,
            r.dir_spec() == self.dir_spec(),
            r.max_log_size_spec() == self.max_log_size_spec(),
    {
        EventLogBuilder { lock_mode: mode, ..self }
    }

    /// The configured directory.
    pub fn dir(&self) -> (r: &str)
        ensures
            r@ == self.dir_spec(),
    {
        self.dir.as_str()
    }

    /// The configured rotation threshold.
    pub fn rotation_threshold(&self) -> (r: u64)
        ensures
            r == self.max_log_size_spec(),
    {
        self.max_log_size
    }

    /// The configured lock mode.
    pub fn configured_lock_mode(&self) -> (r: LockMode)
        ensures
            r == self.lock_mode_spec(),
    {
        self.lock_mode
    }

    /// Whether a log opened with this configuration, whose active log holds
    /// `size` bytes, is rotated at once.
    pub fn rotate_on_open(&self, size: u64) -> (r: bool)
        ensures
            r == rotation_due(self.max_log_size_spec(), size),
    {
        self.max_log_size > 0 && size >= self.max_log_size
    }
}

} // verus!
