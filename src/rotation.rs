//! The steps of a rotation: sealing the active log into the archive.

use vstd::prelude::*;

verus! {

/// A step of a rotation, in the order they run.
#[derive(Debug, Clone, Copy, PartialEq, Eq, Structural)]
pub enum RotationStep {
    /// Refresh every view, so that each has consumed the whole active log.
    RefreshViews,
    /// Read the active log's bytes.
    ReadActive,
    /// Append them to the archive as one compressed frame, and sync.
    ArchiveFrame,
    /// Truncate the active log to length zero, and sync.
    TruncateActive,
    /// Reset every view's position to the start (keeping its state) and
    /// save its snapshot.
    ResetViews,
    /// Nothing left to do.
    Done,
}

/// The step after `step`; `active_len` is the length of the active log as
/// read, which matters only after `ReadActive`: an empty log ends the
/// rotation there.
pub open spec fn successor(step: RotationStep, active_len: u64) -> RotationStep {
    match step {
        RotationStep::RefreshViews => RotationStep::ReadActive,
        RotationStep::ReadActive => if active_len == 0 {
            RotationStep::Done
        } else {
            RotationStep::ArchiveFrame
        },
        RotationStep::ArchiveFrame => RotationStep::TruncateActive,
        RotationStep::TruncateActive => RotationStep::ResetViews,
        RotationStep::ResetViews => RotationStep::Done,
        RotationStep::Done => RotationStep::Done,
    }
}

impl RotationStep {
    /// The first step of a rotation.
    pub fn first() -> (r: RotationStep)
        ensures
            r == RotationStep::RefreshViews,
    {
        RotationStep::RefreshViews
    }

    /// The step after this one: see `successor`.
    pub fn next(self, active_len: u64) -> (r: RotationStep)
        ensures
            r == successor(self, active_len),
    {
        match self {
            RotationStep::RefreshViews => RotationStep::ReadActive,
            RotationStep::ReadActive => if active_len == 0 {
                RotationStep::Done
            } else {
                RotationStep::ArchiveFrame
            },
            RotationStep::ArchiveFrame => RotationStep::TruncateActive,
            RotationStep::TruncateActive => RotationStep::ResetViews,
            RotationStep::ResetViews => RotationStep::Done,
            RotationStep::Done => RotationStep::Done,
        }
    }
}

} // verus!
