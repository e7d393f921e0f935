use vstd::prelude::*;
use crate::framing::{line_start, NEWLINE};
use crate::hash::{hash_text, line_hash};

verus! {

/// An I/O failure reported by the file layer.
#[verifier::external_type_specification]
#[verifier::external_body]
pub struct ExIoError(std::io::Error);

/// Controls file locking for a writer.
#[derive(Debug, Clone, Copy, PartialEq, Eq, Structural)]
pub enum LockMode {
    /// Take an exclusive advisory lock on the active log: a second writer
    /// fails to open. The default.
    Flock,
    /// No locking; the caller serialises writers.
    Unlocked,
}

impl Default for LockMode {
    fn default() -> (r: LockMode)
        ensures
            r == LockMode::Flock,
    {
        LockMode::Flock
    }
}

/// Result of waiting for new events.
#[derive(Debug, Clone, Copy, PartialEq, Eq, Structural)]
pub enum WaitResult {
    /// The active log grew past the offset waited on; it now has this size.
    NewData(u64),
    /// The wait ended with no new data.
    Timeout,
}

/// Details of a conditional append that was refused.
#[derive(Debug, Clone, PartialEq, Eq)]
pub struct AppendConflict {
    /// The size the caller expected the active log to have.
    pub expected_offset: u64,
    /// The size it has.
    pub actual_offset: u64,
    /// The hash the caller expected for the last line.
    pub expected_hash: String,
    /// The hash of the last line, present only when the sizes matched and
    /// the hashes did not.
    pub actual_hash: Option<String>,
}

/// Error of a conditional append.
#[derive(Debug)]
pub enum ConditionalAppendError {
    /// The log was not in the expected state; nothing was written.
    Conflict(AppendConflict),
    /// The file layer failed.
    Io(std::io::Error),
}

/// Result of a successful append.
#[derive(Debug, Clone, PartialEq, Eq)]
pub struct AppendResult {
    /// Offset where the line starts in the active log.
    pub start_offset: u64,
    /// Offset just past the line's terminator.
    pub end_offset: u64,
    /// Hash of the line without its terminator.
    pub line_hash: String,
}

/// The placement of a line appended at `start`: `Some((start, end))` with
/// `end` past the terminator, when the line holds no terminator of its own
/// and the end offset fits in 64 bits.
pub open spec fn placement(start: u64, line: Seq<u8>) -> Option<(u64, u64)> {
    if (forall|i: int| 0 <= i < line.len() ==> line[i] != NEWLINE) && start + line.len() + 1
        <= u64::MAX {
        Some((start, (start + line.len() + 1) as u64))
    } else {
        None
    }
}

impl AppendResult {
    /// Describes the append of `line` (a record without terminator) at
    /// offset `start_offset`. Refuses a line that holds a terminator, which
    /// would split into several records, and an end offset past `u64::MAX`.
    pub fn for_line(start_offset: u64, line: &[u8]) -> (r: Option<AppendResult>)
        ensures
            r is Some <==> placement(start_offset, line@) is Some,
            r matches Some(a) ==> a.start_offset == start_offset && a.end_offset
                == start_offset + line@.len() + 1 && a.line_hash@ == hash_text(line@),
    {
        let mut i: usize = 0;
        while i < line.len()
            invariant
                i <= line@.len(),
                forall|k: int| 0 <= k < i ==> line@[k] != NEWLINE,
            decreases line@.len() - i,
        {
            if line[i] == NEWLINE {
                return None;
            }
            i = i + 1;
        }
        if start_offset > u64::MAX - 1 || line.len() as u64 > u64::MAX - 1 - start_offset {
            return None;
        }
        Some(
            AppendResult {
                start_offset,
                end_offset: start_offset + line.len() as u64 + 1,
                line_hash: line_hash(line),
            },
        )
    }
}

/// Whether a log whose active part has `size` bytes is due for rotation
/// under threshold `max_log_size` (0 disables rotation).
pub open spec fn rotation_due(max_log_size: u64, size: u64) -> bool {
    max_log_size > 0 && size >= max_log_size
}

/// Whether a log whose active part has `size` bytes is due for rotation
/// under threshold `max_log_size` (0 disables rotation).
pub fn needs_rotation(max_log_size: u64, size: u64) -> (r: bool)
    ensures
        r == rotation_due(max_log_size, size),
{
    max_log_size > 0 && size >= max_log_size
}

/// Whether a conditional append with `expected_offset` and `expected_hash`
/// goes ahead on an active log of `size` bytes whose line ending at
/// `expected_offset - 1` has hash `before` (absent when it was not looked up).
pub open spec fn cas_accepts(
    size: u64,
    expected_offset: u64,
    expected_hash: Seq<char>,
    before: Option<Seq<char>>,
) -> bool {
    size == expected_offset && (expected_offset == 0 || match before {
        Some(h) => h == expected_hash,
        None => expected_hash == Seq::<char>::empty(),
    })
}

/// The text of an optional string.
pub open spec fn opt_view(o: Option<String>) -> Option<Seq<char>> {
    match o {
        Some(s) => Some(s@),
        None => None,
    }
}

/// Whether a conditional append needs the hash of the last line: only when
/// the size matched and is not 0.
pub fn cas_needs_hash(size: u64, expected_offset: u64) -> (r: bool)
    ensures
        r == (size == expected_offset && expected_offset > 0),
{
    size == expected_offset && expected_offset > 0
}

/// Decides a conditional append. `size` is the active log's size, `before`
/// the hash of the line ending at `expected_offset - 1` (looked up only when
/// `cas_needs_hash` says so; a missing line counts as the empty hash).
/// `Ok` when the append may go ahead; otherwise the conflict, whose
/// `actual_hash` is present only when the hash was consulted.
pub fn check_append_if(size: u64, expected_offset: u64, expected_hash: &str, before: Option<String>) -> (r:
    Result<(), AppendConflict>)
    ensures
        r is Ok <==> cas_accepts(size, expected_offset, expected_hash@, opt_view(before)),
        r matches Err(c) ==> c.expected_offset == expected_offset && c.actual_offset == size
            && c.expected_hash@ == expected_hash@ && (if size != expected_offset {
            c.actual_hash is None
        } else {
            c.actual_hash matches Some(h) && h@ == match before {
                Some(b) => b@,
                None => Seq::<char>::empty(),
            }
        }),
{
    if size != expected_offset {
        return Err(
            AppendConflict {
                expected_offset,
                actual_offset: size,
                expected_hash: expected_hash.to_owned(),
                actual_hash: None,
            },
        );
    }
    if expected_offset > 0 {
        let actual = match before {
            Some(h) => h,
            None => String::new(),
        };
        let expected = expected_hash.to_owned();
        if actual != expected {
            return Err(
                AppendConflict {
                    expected_offset,
                    actual_offset: size,
                    expected_hash: expected,
                    actual_hash: Some(actual),
                },
            );
        }
    }
    Ok(())
}

/// Two conditional appends with the same expected offset cannot both go
/// ahead: once the first has appended a line, the log is longer than that
/// offset, and the second is refused with the new size as the actual offset.
pub proof fn lemma_cas_exclusion(
    expected_offset: u64,
    expected_hash: Seq<char>,
    first_before: Option<Seq<char>>,
    line: Seq<u8>,
    second_hash: Seq<char>,
    second_before: Option<Seq<char>>,
)
    requires
        cas_accepts(expected_offset, expected_offset, expected_hash, first_before),
        placement(expected_offset, line) is Some,
    ensures
        !cas_accepts(
            placement(expected_offset, line).unwrap().1,
            expected_offset,
            second_hash,
            second_before,
        ),
        placement(expected_offset, line).unwrap().1 > expected_offset,
{
}

/// Whether the active log, at `size` bytes, holds data past `offset`.
pub fn has_new_data(size: u64, offset: u64) -> (r: bool)
    ensures
        r == (size > offset),
{
    size > offset
}

/// The outcome of a wait on `offset` once the log is seen at `size` bytes:
/// new data when it grew past the offset, else a timeout (also after a
/// wake-up that brought no growth; callers wait again).
pub fn wait_outcome(offset: u64, size: u64) -> (r: WaitResult)
    ensures
        size > offset ==> r == WaitResult::NewData(size),
        size <= offset ==> r == WaitResult::Timeout,
{
    if size > offset {
        WaitResult::NewData(size)
    } else {
        WaitResult::Timeout
    }
}

/// How far back from a terminator the line before it is looked for.
pub const HASH_WINDOW: u64 = 8192;

/// The bytes to read to find the line whose terminator is at `offset - 1`,
/// in an active log of `file_len` bytes: `Some((from, to))`, the window
/// `from..to` that ends just before that terminator and reaches back at most
/// `HASH_WINDOW` bytes. `None` when `offset` is 0 or past the end.
pub fn hash_window(offset: u64, file_len: u64) -> (r: Option<(u64, u64)>)
    ensures
        r is None <==> (offset == 0 || offset > file_len),
        r matches Some(w) ==> w.1 == offset - 1 && w.0 == (if offset - 1 > HASH_WINDOW {
            offset - 1 - HASH_WINDOW
        } else {
            0
        }),
{
    if offset == 0 || offset > file_len {
        return None;
    }
    let newline_pos = offset - 1;
    let from = if newline_pos > HASH_WINDOW {
        newline_pos - HASH_WINDOW
    } else {
        0
    };
    Some((from, newline_pos))
}

/// The hash of the last line of `window` (the bytes read by `hash_window`):
/// the bytes after its last terminator, or all of it when it holds none.
pub fn last_line_hash(window: &[u8]) -> (r: String)
    ensures
        r@ == hash_text(window@.subrange(line_start(window@), window@.len() as int)),
{
    let mut i: usize = window.len();
    assert(window@.take(window@.len() as int) =~= window@);
    while i > 0 && window[i - 1] != NEWLINE
        invariant
            i <= window@.len(),
            line_start(window@) == line_start(window@.take(i as int)),
        decreases i,
    {
        assert(window@.take(i as int).drop_last() =~= window@.take(i - 1));
        i = i - 1;
    }
    assert(i == line_start(window@));
    let line = vstd::slice::slice_subrange(window, i, window.len());
    line_hash(line)
}

} // verus!
