//! Persisted checkpoints of view state.

use vstd::prelude::*;

verus! {

/// A persisted checkpoint of a view: its state, the offset in the active log
/// just past the last event it consumed, and that event line's hash.
/// `offset == 0` with an empty hash means nothing in the active log has been
/// consumed yet.
#[derive(Debug, Clone)]
pub struct Snapshot<S> {
    /// The view's state.
    pub state: S,
    /// Offset in the active log just past the last consumed event.
    pub offset: u64,
    /// Hash of the last consumed event line.
    pub hash: String,
}

impl<S> Snapshot<S> {
    /// Creates a snapshot.
    pub fn new(state: S, offset: u64, hash: String) -> (r: Snapshot<S>)
        ensures
            r.state == state,
            r.offset == offset,
            r.hash == hash,
    {
        Snapshot { state, offset, hash }
    }
}

/// The file name under which the snapshot of view `name` is kept in the
/// views directory.
pub fn snapshot_file_name(name: &str) -> (r: String)
    ensures
        r@ == name@ + ".snapshot.json"@,
{
    let mut r = name.to_owned();
    r.append(".snapshot.json");
    r
}

/// The name of the transient file that a snapshot is written to before it
/// is renamed over `snapshot_file_name(name)`.
pub fn snapshot_temp_name(name: &str) -> (r: String)
    ensures
        r@ == name@ + ".snapshot.json"@ + ".tmp"@,
{
    let mut r = snapshot_file_name(name);
    r.append(".tmp");
    r
}

} // verus!
