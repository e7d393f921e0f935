//! An embedded, single-directory event log with derived views.
//!
//! The library holds the parts of the engine that decide: how the bytes of
//! the active log split into committed lines, how a line is hashed, when a
//! conditional append conflicts, when a cached view is trusted, how a view
//! folds the events it is handed, and the steps of a rotation. The file
//! handling around it hands these functions plain values.

mod event;
mod framing;
mod hash;
mod layout;
mod log;
mod reducers;
mod rotation;
pub mod snapshot;
mod todo;
mod view;

pub use event::Event;
pub use framing::{
    committed, committed_lines, ends_on_boundary, full_history, join_lines,
    lemma_committed_concat, lemma_committed_lines_concat, lemma_committed_ordered,
    lemma_history_in_append_order, lemma_partial_tail_ignored, line_start, no_newline,
    scan_lines, shifted, LineSpan, NEWLINE,
};
pub use hash::{hash_text, lemma_hex_injective, lemma_line_hash_deterministic, line_hash};
pub use layout::{
    archive_file_path, join, join_path, log_file_path, views_dir_path, EventLogBuilder,
    EventReader,
};
pub use log::{
    cas_accepts, cas_needs_hash, check_append_if, has_new_data, hash_window, last_line_hash,
    lemma_cas_exclusion, needs_rotation, opt_view, placement, rotation_due, wait_outcome,
    AppendConflict, AppendResult, ConditionalAppendError, LockMode, WaitResult, HASH_WINDOW,
};
pub use reducers::{bump, stats_reducer, stats_step, EventCounter, StatsReducer, StatsState};
pub use rotation::{successor, RotationStep};
pub use snapshot::Snapshot;
pub use todo::{
    kept, text_or_empty, todo_apply, todo_reducer, todo_step, todo_views, toggled, Todo,
    TodoState, TodoView,
};
pub use view::{
    active_events, after_active, after_history, after_integrity, after_load,
    after_rebuild_start, after_reset_offset, check_integrity, fold, fresh_model,
    history_events, integrity, lemma_failed_check_replays_from_scratch, lemma_fold_append,
    lemma_refresh_without_snapshot_folds, lemma_rotation_keeps_state,
    lemma_snapshot_equivalence, lemma_tampered_line_forces_rebuild,
    lemma_views_fold_independently, plan_of, LogView, Reducer, RefreshPlan, SnapshotValidity,
    ViewModel,
};
