use vstd::prelude::*;
use crate::event::Event;
use crate::snapshot::Snapshot;

verus! {

/// A pure fold step from state and event to state. A view applies it to
/// every event of the log, in order.
pub trait Reducer {
    /// The state the reducer folds into.
    type State;

    /// The state before any event.
    spec fn initial_spec() -> Self::State;

    /// The state after `event`, from `state`.
    spec fn step(state: Self::State, event: Event) -> Self::State;

    /// The state before any event.
    fn initial() -> (r: Self::State)
        ensures
            r == Self::initial_spec(),
    ;

    /// Folds one event into the state.
    fn reduce(state: Self::State, event: &Event) -> (r: Self::State)
        ensures
            r == Self::step(state, *event),
    ;
}

/// `events` folded into `state` through `R`, first to last.
pub open spec fn fold<R: Reducer>(state: R::State, events: Seq<Event>) -> R::State
    decreases events.len(),
{
    if events.len() == 0 {
        state
    } else {
        R::step(fold::<R>(state, events.drop_last()), events.last())
    }
}

/// Folding two runs of events one after the other is folding their
/// concatenation.
pub proof fn lemma_fold_append<R: Reducer>(state: R::State, a: Seq<Event>, b: Seq<Event>)
    ensures
        fold::<R>(state, a + b) == fold::<R>(fold::<R>(state, a), b),
    decreases b.len(),
{
    if b.len() == 0 {
        assert(a + b =~= a);
    } else {
        assert((a + b).drop_last() =~= a + b.drop_last());
        assert((a + b).last() == b.last());
        lemma_fold_append::<R>(state, a, b.drop_last());
    }
}

/// The events of records read from the full history.
pub open spec fn history_events(records: Seq<(Event, String)>) -> Seq<Event> {
    records.map_values(|r: (Event, String)| r.0)
}

/// The events of records read from the active log.
pub open spec fn active_events(records: Seq<(Event, u64, String)>) -> Seq<Event> {
    records.map_values(|r: (Event, u64, String)| r.0)
}

/// Outcome of the integrity check of a cached view position.
#[derive(Debug, Clone, Copy, PartialEq, Eq, Structural)]
pub enum SnapshotValidity {
    /// The cached position can be trusted.
    Valid,
    /// The cached offset lies past the end of the active log.
    OffsetBeyondEof,
    /// The line before the cached offset does not have the cached hash.
    HashMismatch,
}

/// The integrity check of a cached position `offset` with line hash `hash`,
/// on an active log of `size` bytes whose line ending at `offset - 1` has
/// hash `before` (absent when there is no such line).
pub open spec fn integrity(offset: u64, hash: Seq<char>, size: u64, before: Option<Seq<char>>) -> SnapshotValidity {
    if offset > size {
        SnapshotValidity::OffsetBeyondEof
    } else if offset == 0 {
        SnapshotValidity::Valid
    } else {
        match before {
            Some(h) => if h == hash {
                SnapshotValidity::Valid
            } else {
                SnapshotValidity::HashMismatch
            },
            None => SnapshotValidity::Valid,
        }
    }
}

/// Checks a cached position against the active log: see `integrity`.
pub fn check_integrity(offset: u64, hash: &str, size: u64, before: Option<String>) -> (r: SnapshotValidity)
    ensures
        r == integrity(offset, hash@, size, crate::log::opt_view(before)),
{
    if offset > size {
        return SnapshotValidity::OffsetBeyondEof;
    }
    if offset == 0 {
        return SnapshotValidity::Valid;
    }
    match before {
        Some(h) => {
            let cached = hash.to_owned();
            if h == cached {
                SnapshotValidity::Valid
            } else {
                SnapshotValidity::HashMismatch
            }
        },
        None => SnapshotValidity::Valid,
    }
}

/// What a view needs next to refresh.
#[derive(Debug, Clone, Copy, PartialEq, Eq, Structural)]
pub enum RefreshPlan {
    /// Look up its snapshot (first refresh), then hand it to `install_snapshot`.
    LoadSnapshot,
    /// Read the full history, archive then active log, and hand it to
    /// `fold_history`.
    ReplayFull,
    /// Read the active log from this offset and hand it to `fold_active`.
    ReadFrom(u64),
}

/// The plan of a view in model `m`.
pub open spec fn plan_of<S>(m: ViewModel<S>) -> RefreshPlan {
    if !m.loaded {
        RefreshPlan::LoadSnapshot
    } else if m.full_replay {
        RefreshPlan::ReplayFull
    } else {
        RefreshPlan::ReadFrom(m.offset)
    }
}

/// The abstract content of a view: its state, its position in the active
/// log (offset and hash of the last consumed line), whether its snapshot
/// has been looked at, and whether its next fold replays the full history.
pub struct ViewModel<S> {
    pub state: S,
    pub offset: u64,
    pub hash: Seq<char>,
    pub loaded: bool,
    pub full_replay: bool,
}

/// A view before its first refresh.
pub open spec fn fresh_model<R: Reducer>() -> ViewModel<R::State> {
    ViewModel { state: R::initial_spec(), offset: 0, hash: Seq::empty(), loaded: false, full_replay: false }
}

/// The view after its snapshot was looked up: taken over when found, a full
/// replay scheduled when not.
pub open spec fn after_load<S>(m: ViewModel<S>, snap: Option<Snapshot<S>>) -> ViewModel<S> {
    match snap {
        Some(s) => ViewModel { state: s.state, offset: s.offset, hash: s.hash@, loaded: true, ..m },
        None => ViewModel { loaded: true, full_replay: true, ..m },
    }
}

/// The view after its integrity check gave `v`: unchanged when valid, else
/// reset to the initial state at offset 0 with a full replay scheduled.
pub open spec fn after_integrity<R: Reducer>(m: ViewModel<R::State>, v: SnapshotValidity) -> ViewModel<R::State> {
    if v == SnapshotValidity::Valid {
        m
    } else {
        ViewModel { state: R::initial_spec(), offset: 0, hash: Seq::empty(), full_replay: true, ..m }
    }
}

/// The view after replaying the full history `records`, with the active log
/// at `size` bytes: every event folded in; if any, the position moves to the
/// end of the active log and the last record's hash.
pub open spec fn after_history<R: Reducer>(
    m: ViewModel<R::State>,
    records: Seq<(Event, String)>,
    size: u64,
) -> ViewModel<R::State> {
    let state = fold::<R>(m.state, history_events(records));
    if records.len() == 0 {
        ViewModel { state, full_replay: false, ..m }
    } else {
        ViewModel { state, offset: size, hash: records.last().1@, full_replay: false, ..m }
    }
}

/// The view after folding `records` read from the active log at its
/// offset: every event folded in; if any, the position moves to the last
/// record's next offset and hash.
pub open spec fn after_active<R: Reducer>(m: ViewModel<R::State>, records: Seq<(Event, u64, String)>) -> ViewModel<R::State> {
    let state = fold::<R>(m.state, active_events(records));
    if records.len() == 0 {
        ViewModel { state, ..m }
    } else {
        ViewModel { state, offset: records.last().1, hash: records.last().2@, ..m }
    }
}

/// The view after its position was reset by a rotation: the state is kept.
pub open spec fn after_reset_offset<S>(m: ViewModel<S>) -> ViewModel<S> {
    ViewModel { offset: 0, hash: Seq::empty(), ..m }
}

/// The view as a rebuild leaves it before replaying: initial state,
/// offset 0, a full replay scheduled.
pub open spec fn after_rebuild_start<R: Reducer>(m: ViewModel<R::State>) -> ViewModel<R::State> {
    ViewModel { state: R::initial_spec(), offset: 0, hash: Seq::empty(), loaded: true, full_replay: true }
}

/// A named, derived view over an event log: the state obtained by folding
/// the log's events through reducer `R`, with the position in the active log
/// up to which it has consumed.
pub struct LogView<R: Reducer> {
    name: String,
    state: R::State,
    offset: u64,
    hash: String,
    loaded: bool,
    needs_full_replay: bool,
}

impl<R: Reducer> LogView<R> {
    /// The abstract content of this view.
    pub closed spec fn model(&self) -> ViewModel<R::State> {
        ViewModel {
            state: self.state,
            offset: self.offset,
            hash: self.hash@,
            loaded: self.loaded,
            full_replay: self.needs_full_replay,
        }
    }

    /// The view's name.
    pub closed spec fn name_spec(&self) -> Seq<char> {
        self.name@
    }

    /// Creates a view named `name`, in the initial state, before any refresh.
    pub fn new(name: &str) -> (r: LogView<R>)
        ensures
            r.model() == fresh_model::<R>(),
            r.name_spec() == name@,
    {
        LogView {
            name: name.to_owned(),
            state: R::initial(),
            offset: 0,
            hash: String::new(),
            loaded: false,
            needs_full_replay: false,
        }
    }

    /// The view's name.
    pub fn name(&self) -> (r: &str)
        ensures
            r@ == self.name_spec(),
    {
        self.name.as_str()
    }

    /// The current in-memory state.
    pub fn state(&self) -> (r: &R::State)
        ensures
            *r == self.model().state,
    {
        &self.state
    }

    /// The offset in the active log up to which events were consumed.
    pub fn offset(&self) -> (r: u64)
        ensures
            r == self.model().offset,
    {
        self.offset
    }

    /// The hash of the last consumed line.
    pub fn hash(&self) -> (r: &str)
        ensures
            r@ == self.model().hash,
    {
        self.hash.as_str()
    }

    /// What the view needs next to refresh.
    pub fn plan(&self) -> (r: RefreshPlan)
        ensures
            r == plan_of(self.model()),
    {
        if !self.loaded {
            RefreshPlan::LoadSnapshot
        } else if self.needs_full_replay {
            RefreshPlan::ReplayFull
        } else {
            RefreshPlan::ReadFrom(self.offset)
        }
    }

    /// Takes over the snapshot found on disk, or schedules a full replay
    /// when there is none (a corrupt snapshot counts as none). Returns
    /// whether the position taken over must be checked with
    /// `verify_position`: only a nonzero offset can be wrong.
    pub fn install_snapshot(&mut self, snap: Option<Snapshot<R::State>>) -> (needs_check: bool)
        ensures
            final(self).model() == after_load(old(self).model(), snap),
            final(self).name_spec() == old(self).name_spec(),
            needs_check == (snap matches Some(s) && s.offset > 0),
    {
        let needs_check = match snap {
            Some(s) => {
                self.state = s.state;
                self.offset = s.offset;
                self.hash = s.hash;
                self.offset > 0
            },
            None => {
                self.needs_full_replay = true;
                false
            },
        };
        self.loaded = true;
        needs_check
    }

    /// The offset whose preceding line hash the check needs, on an active
    /// log of `size` bytes: the cached offset, when it is neither 0 nor past
    /// the end.
    pub fn hash_lookup_offset(&self, size: u64) -> (r: Option<u64>)
        ensures
            r is Some <==> 0 < self.model().offset <= size,
            r matches Some(o) ==> o == self.model().offset,
    {
        if self.offset > 0 && self.offset <= size {
            Some(self.offset)
        } else {
            None
        }
    }

    /// Checks the cached position against an active log of `size` bytes
    /// whose line ending at `offset - 1` has hash `before`, and acts on the
    /// outcome: a failed check discards the cached state and schedules a
    /// full replay, so that nothing is built on suspect data.
    pub fn verify_position(&mut self, size: u64, before: Option<String>) -> (r: SnapshotValidity)
        ensures
            r == integrity(old(self).model().offset, old(self).model().hash, size, crate::log::opt_view(before)),
            final(self).model() == after_integrity::<R>(old(self).model(), r),
            final(self).name_spec() == old(self).name_spec(),
    {
        let v = check_integrity(self.offset, self.hash.as_str(), size, before);
        if v != SnapshotValidity::Valid {
            self.state = R::initial();
            self.offset = 0;
            self.hash = String::new();
            self.needs_full_replay = true;
        }
        v
    }

    /// Folds the full history (archive, then active log) into the initial
    /// or current state; `size` is the active log's size. Returns whether
    /// any event was consumed, in which case the snapshot is due.
    pub fn fold_history(&mut self, records: &[(Event, String)], size: u64) -> (processed: bool)
        ensures
            final(self).model() == after_history::<R>(old(self).model(), records@, size),
            final(self).name_spec() == old(self).name_spec(),
            processed == (records@.len() > 0),
    {
        let mut state = R::initial();
        std::mem::swap(&mut state, &mut self.state);
        let ghost start = state;
        let mut i: usize = 0;
        while i < records.len()
            invariant
                i <= records@.len(),
                state == fold::<R>(start, history_events(records@.take(i as int))),
            decreases records@.len() - i,
        {
            assert(history_events(records@.take(i + 1)).drop_last() =~= history_events(records@.take(i as int)));
            state = R::reduce(state, &records[i].0);
            i = i + 1;
        }
        assert(records@.take(records@.len() as int) =~= records@);
        self.state = state;
        self.needs_full_replay = false;
        if records.len() > 0 {
            self.offset = size;
            self.hash = records[records.len() - 1].1.clone();
            true
        } else {
            false
        }
    }

    /// Folds `records`, read from the active log at this view's offset, into
    /// the state. Returns whether any event was consumed, in which case the
    /// snapshot is due.
    pub fn fold_active(&mut self, records: &[(Event, u64, String)]) -> (processed: bool)
        ensures
            final(self).model() == after_active::<R>(old(self).model(), records@),
            final(self).name_spec() == old(self).name_spec(),
            processed == (records@.len() > 0),
    {
        let mut state = R::initial();
        std::mem::swap(&mut state, &mut self.state);
        let ghost start = state;
        let mut i: usize = 0;
        while i < records.len()
            invariant
                i <= records@.len(),
                state == fold::<R>(start, active_events(records@.take(i as int))),
            decreases records@.len() - i,
        {
            assert(active_events(records@.take(i + 1)).drop_last() =~= active_events(records@.take(i as int)));
            state = R::reduce(state, &records[i].0);
            i = i + 1;
        }
        assert(records@.take(records@.len() as int) =~= records@);
        self.state = state;
        if records.len() > 0 {
            self.offset = records[records.len() - 1].1;
            self.hash = records[records.len() - 1].2.clone();
            true
        } else {
            false
        }
    }

    /// Starts a rebuild: initial state, offset 0, full replay scheduled (the
    /// snapshot file is deleted by the caller).
    pub fn start_rebuild(&mut self)
        ensures
            final(self).model() == after_rebuild_start::<R>(old(self).model()),
            final(self).name_spec() == old(self).name_spec(),
    {
        self.state = R::initial();
        self.offset = 0;
        self.hash = String::new();
        self.loaded = true;
        self.needs_full_replay = true;
    }

    /// Resets the position after a rotation emptied the active log; the
    /// state is kept.
    pub fn reset_offset(&mut self)
        ensures
            final(self).model() == after_reset_offset(old(self).model()),
            final(self).name_spec() == old(self).name_spec(),
    {
        self.offset = 0;
        self.hash = String::new();
    }
}

/// A view refreshed with no snapshot on disk replays the whole history: its
/// state is the fold of every event, in order, from the initial state.
pub proof fn lemma_refresh_without_snapshot_folds<R: Reducer>(records: Seq<(Event, String)>, size: u64)
    ensures
        after_load(fresh_model::<R>(), None).offset == 0,
        after_load(fresh_model::<R>(), None).full_replay,
        after_history::<R>(after_load(fresh_model::<R>(), None), records, size).state == fold::<R>(
            R::initial_spec(),
            history_events(records),
        ),
{
}

/// Two views over the same log, each with its own reducer, each hold the
/// fold of the log's events through their own reducer.
pub proof fn lemma_views_fold_independently<R1: Reducer, R2: Reducer>(records: Seq<(Event, String)>, size: u64)
    ensures
        after_history::<R1>(after_load(fresh_model::<R1>(), None), records, size).state == fold::<R1>(
            R1::initial_spec(),
            history_events(records),
        ),
        after_history::<R2>(after_load(fresh_model::<R2>(), None), records, size).state == fold::<R2>(
            R2::initial_spec(),
            history_events(records),
        ),
{
    lemma_refresh_without_snapshot_folds::<R1>(records, size);
    lemma_refresh_without_snapshot_folds::<R2>(records, size);
}

/// Catching a view up incrementally from its snapshot gives the same state
/// as deleting the snapshot and replaying the whole history: a view that
/// holds the fold of the events `consumed` and then folds `later` from the
/// active log equals a fresh replay of `all`, whose events are `consumed`
/// followed by those of `later`.
pub proof fn lemma_snapshot_equivalence<R: Reducer>(
    m: ViewModel<R::State>,
    consumed: Seq<Event>,
    later: Seq<(Event, u64, String)>,
    all: Seq<(Event, String)>,
    size: u64,
)
    requires
        m.state == fold::<R>(R::initial_spec(), consumed),
        history_events(all) == consumed + active_events(later),
    ensures
        after_active::<R>(m, later).state == after_history::<R>(
            after_load(fresh_model::<R>(), None),
            all,
            size,
        ).state,
{
    lemma_fold_append::<R>(R::initial_spec(), consumed, active_events(later));
}

/// A rotation between two folds leaves the view's state as if there had been
/// none: refreshing (`pending`), resetting the position, then folding the
/// events appended afterwards (`later`) gives the state that folding both
/// runs without a rotation gives, which is the fold of the whole history.
pub proof fn lemma_rotation_keeps_state<R: Reducer>(
    m: ViewModel<R::State>,
    history: Seq<Event>,
    pending: Seq<(Event, u64, String)>,
    later: Seq<(Event, u64, String)>,
)
    requires
        m.state == fold::<R>(R::initial_spec(), history),
    ensures
        after_reset_offset(after_active::<R>(m, pending)).state == after_active::<R>(m, pending).state,
        after_reset_offset(after_active::<R>(m, pending)).offset == 0,
        after_active::<R>(after_reset_offset(after_active::<R>(m, pending)), later).state
            == after_active::<R>(after_active::<R>(m, pending), later).state,
        after_active::<R>(after_reset_offset(after_active::<R>(m, pending)), later).state == fold::<R>(
            R::initial_spec(),
            history + active_events(pending) + active_events(later),
        ),
{
    lemma_fold_append::<R>(R::initial_spec(), history, active_events(pending));
    lemma_fold_append::<R>(R::initial_spec(), history + active_events(pending), active_events(later));
}

/// A failed integrity check (offset past the end, or a line that no longer
/// has the cached hash) discards the cached state: the replay that follows
/// yields the fold of the log as it now stands, from the initial state.
pub proof fn lemma_failed_check_replays_from_scratch<R: Reducer>(
    m: ViewModel<R::State>,
    v: SnapshotValidity,
    records: Seq<(Event, String)>,
    size: u64,
)
    requires
        v != SnapshotValidity::Valid,
    ensures
        after_integrity::<R>(m, v).full_replay,
        after_history::<R>(after_integrity::<R>(m, v), records, size).state == fold::<R>(
            R::initial_spec(),
            history_events(records),
        ),
{
}

/// Rewriting the last consumed line, even keeping its length, is caught: the
/// line before the cached offset no longer has the cached hash, so the check
/// reports a mismatch and the view is rebuilt from the log as it now stands.
pub proof fn lemma_tampered_line_forces_rebuild<R: Reducer>(
    m: ViewModel<R::State>,
    size: u64,
    found: Seq<char>,
    records: Seq<(Event, String)>,
)
    requires
        0 < m.offset <= size,
        found != m.hash,
    ensures
        integrity(m.offset, m.hash, size, Some(found)) == SnapshotValidity::HashMismatch,
        after_history::<R>(after_integrity::<R>(m, SnapshotValidity::HashMismatch), records, size).state
            == fold::<R>(R::initial_spec(), history_events(records)),
{
}

} // verus!
