//! Reducers that come with the library.

use vstd::prelude::*;
use crate::event::Event;
use crate::view::Reducer;

verus! {

/// `n + 1`, or `n` when that would pass `u64::MAX`.
pub open spec fn bump(n: u64) -> u64 {
    if n < u64::MAX {
        (n + 1) as u64
    } else {
        n
    }
}

fn bump_exec(n: u64) -> (r: u64)
    ensures
        r == bump(n),
{
    if n < u64::MAX {
        n + 1
    } else {
        n
    }
}

/// Counts the events folded in (saturating at `u64::MAX`).
pub struct EventCounter;

impl Reducer for EventCounter {
    type State = u64;

    open spec fn initial_spec() -> u64 {
        0
    }

    open spec fn step(state: u64, event: Event) -> u64 {
        bump(state)
    }

    fn initial() -> (r: u64) {
        0
    }

    fn reduce(state: u64, event: &Event) -> (r: u64) {
        bump_exec(state)
    }
}

/// Running totals of a todo list's events.
#[derive(Debug, Clone, Copy, PartialEq, Eq, Structural)]
pub struct StatsState {
    /// Number of `todo_added` events.
    pub total_created: u64,
    /// Number of `todo_toggled` events.
    pub total_completed: u64,
    /// Number of `todo_deleted` events.
    pub total_deleted: u64,
}

impl Default for StatsState {
    fn default() -> (r: StatsState)
        ensures
            r == (StatsState { total_created: 0, total_completed: 0, total_deleted: 0 }),
    {
        StatsState { total_created: 0, total_completed: 0, total_deleted: 0 }
    }
}

/// The totals after `event`: the counter of its type goes up by one
/// (saturating); events of other types leave them as they are.
pub open spec fn stats_step(state: StatsState, event: Event) -> StatsState {
    if event.event_type@ == "todo_added"@ {
        StatsState { total_created: bump(state.total_created), ..state }
    } else if event.event_type@ == "todo_toggled"@ {
        StatsState { total_completed: bump(state.total_completed), ..state }
    } else if event.event_type@ == "todo_deleted"@ {
        StatsState { total_deleted: bump(state.total_deleted), ..state }
    } else {
        state
    }
}

/// Folds one todo event into the running totals: see `stats_step`.
pub fn stats_reducer(state: StatsState, event: &Event) -> (r: StatsState)
    ensures
        r == stats_step(state, *event),
{
    if event.event_type == "todo_added".to_owned() {
        StatsState { total_created: bump_exec(state.total_created), ..state }
    } else if event.event_type == "todo_toggled".to_owned() {
        StatsState { total_completed: bump_exec(state.total_completed), ..state }
    } else if event.event_type == "todo_deleted".to_owned() {
        StatsState { total_deleted: bump_exec(state.total_deleted), ..state }
    } else {
        state
    }
}

/// The running totals of a todo list, as a reducer.
pub struct StatsReducer;

impl Reducer for StatsReducer {
    type State = StatsState;

    open spec fn initial_spec() -> StatsState {
        StatsState { total_created: 0, total_completed: 0, total_deleted: 0 }
    }

    open spec fn step(state: StatsState, event: Event) -> StatsState {
        stats_step(state, event)
    }

    fn initial() -> (r: StatsState) {
        StatsState { total_created: 0, total_completed: 0, total_deleted: 0 }
    }

    fn reduce(state: StatsState, event: &Event) -> (r: StatsState) {
        stats_reducer(state, event)
    }
}

} // verus!
