//! The status store: whether the space is open, why, and until when.
//!
//! The store is a small state machine. It starts closed. `open` opens it
//! for good, `keep_open` opens it for one keep-open interval counted from the
//! instant of the call, `close` closes it, and `check_keep_open` closes it
//! once a keep-open deadline has passed. Reading the store never changes it:
//! a deadline takes effect only when `check_keep_open` sees it.

use vstd::prelude::*;
use crate::time::{TimeSpan, Timestamp, MAX_NANOS};

verus! {

/// Why the space was last opened.
#[derive(Clone, Copy, Debug, PartialEq, Eq)]
pub enum LastOpenRequest {
    /// Opened until somebody closes it.
    Open,
    /// Opened until the given instant.
    KeepOpen(Timestamp),
}

/// What the store holds.
///
/// `last_open_request` counts only while `open` is set; a closed space keeps
/// whatever stood there.
#[derive(Clone, Copy, Debug, PartialEq, Eq)]
pub struct SpaceState {
    pub open: bool,
    pub last_open_request: LastOpenRequest,
    pub keep_open_interval: TimeSpan,
}

/// The state of the store as the outside sees it.
#[derive(Clone, Copy, Debug, PartialEq, Eq)]
pub enum StoreState {
    Closed,
    OpenIndefinite,
    OpenUntil(Timestamp),
}

/// One operation on the store. Where several tasks share a store, the lock
/// around it puts their operations in one order, and the store then holds
/// what that order leaves.
#[derive(Clone, Copy, Debug, PartialEq, Eq)]
pub enum Operation {
    Open,
    Close,
    /// A keep-open request at the given instant.
    KeepOpen(Timestamp),
    /// An expiry check at the given instant.
    CheckKeepOpen(Timestamp),
}

impl Operation {
    /// Whether the operation sets the state whatever it was: everything but
    /// an expiry check.
    pub open spec fn is_write(self) -> bool {
        !(self is CheckKeepOpen)
    }
}

impl SpaceState {
    /// The state a store starts in: closed.
    pub open spec fn initial(keep_open_interval: TimeSpan) -> SpaceState {
        SpaceState { open: false, last_open_request: LastOpenRequest::Open, keep_open_interval }
    }

    /// The state after `open`.
    pub open spec fn opened(self) -> SpaceState {
        SpaceState { open: true, last_open_request: LastOpenRequest::Open, ..self }
    }

    /// The state after `close`.
    pub open spec fn closed(self) -> SpaceState {
        SpaceState { open: false, ..self }
    }

    /// The instant up to which a `keep_open` at `now` keeps the space open.
    pub open spec fn deadline(self, now: Timestamp) -> Timestamp {
        now.plus(self.keep_open_interval)
    }

    /// The state after `keep_open` at `now`.
    pub open spec fn kept_open(self, now: Timestamp) -> SpaceState {
        SpaceState {
            open: true,
            last_open_request: LastOpenRequest::KeepOpen(self.deadline(now)),
            ..self
        }
    }

    /// Whether a check at `now` finds a keep-open deadline that has passed.
    pub open spec fn expired(self, now: Timestamp) -> bool {
        &&& self.open
        &&& self.last_open_request matches LastOpenRequest::KeepOpen(open_till)
        &&& now@ > open_till@
    }

    /// The state after `check_keep_open` at `now`.
    pub open spec fn checked(self, now: Timestamp) -> SpaceState {
        if self.expired(now) {
            self.closed()
        } else {
            self
        }
    }

    /// The state after one `check_keep_open` at each of `ticks`, in order.
    pub open spec fn after_ticks(self, ticks: Seq<Timestamp>) -> SpaceState
        decreases ticks.len(),
    {
        if ticks.len() == 0 {
            self
        } else {
            self.checked(ticks.first()).after_ticks(ticks.drop_first())
        }
    }

    /// The state after `operation`.
    pub open spec fn after(self, operation: Operation) -> SpaceState {
        match operation {
            Operation::Open => self.opened(),
            Operation::Close => self.closed(),
            Operation::KeepOpen(now) => self.kept_open(now),
            Operation::CheckKeepOpen(now) => self.checked(now),
        }
    }

    /// The state after each of `operations`, in order.
    pub open spec fn after_all(self, operations: Seq<Operation>) -> SpaceState
        decreases operations.len(),
    {
        if operations.len() == 0 {
            self
        } else {
            self.after(operations.first()).after_all(operations.drop_first())
        }
    }

    /// The state as the outside sees it.
    pub open spec fn store_state(self) -> StoreState {
        if !self.open {
            StoreState::Closed
        } else {
            match self.last_open_request {
                LastOpenRequest::Open => StoreState::OpenIndefinite,
                LastOpenRequest::KeepOpen(open_till) => StoreState::OpenUntil(open_till),
            }
        }
    }
}

/// The store. It owns the one [`SpaceState`] of a server; the view is that
/// state.
///
/// The store itself does no locking. Where several tasks share it, each of
/// `open`, `close` and `keep_open` is one exclusive section, `is_open` and
/// `is_expired` are shared ones, and an expiry check is `is_expired` in a
/// shared section followed, once that section is left, by `close` in an
/// exclusive one.
#[derive(Debug)]
pub struct SpaceGuard(SpaceState);

impl View for SpaceGuard {
    type V = SpaceState;

    closed spec fn view(&self) -> SpaceState {
        self.0
    }
}

/// What the expiry scheduler is to do next.
#[derive(Clone, Copy, Debug, PartialEq, Eq)]
pub enum SchedulerAction {
    /// Take exclusive access to the store and close it, by `Scheduler::close`.
    Close,
    /// Suspend for the given time, then check again.
    Sleep(TimeSpan),
}

/// The periodic expiry check of one store.
///
/// The scheduler decides; whoever owns the clock, the timer and the lock
/// around the store acts. A round starts with `check` under shared access,
/// at the current instant. Where that says `Close`, the shared access is
/// given up, and `close` follows under exclusive access. The round ends with
/// a `Sleep`, after which the next round starts, for as long as the server
/// lives. `tick` is a whole round for an owner that has the store to itself.
#[derive(Clone, Copy, Debug, PartialEq, Eq)]
pub struct Scheduler {
    pub tick_interval: TimeSpan,
}

impl SpaceGuard {
    /// A closed store whose keep-open requests last `keep_open_interval`.
    pub fn new(keep_open_interval: TimeSpan) -> (guard: SpaceGuard)
        ensures
            guard@ == SpaceState::initial(keep_open_interval),
            guard@.store_state() == StoreState::Closed,
    {
        SpaceGuard(
            SpaceState { open: false, last_open_request: LastOpenRequest::Open, keep_open_interval },
        )
    }

    /// Opens the space until somebody closes it.
    pub fn open(&mut self)
        ensures
            final(self)@ == old(self)@.opened(),
            final(self)@.store_state() == StoreState::OpenIndefinite,
    {
        self.0.open = true;
        self.0.last_open_request = LastOpenRequest::Open;
    }

    /// Closes the space, whatever state it was in.
    pub fn close(&mut self)
        ensures
            final(self)@ == old(self)@.closed(),
            final(self)@.store_state() == StoreState::Closed,
    {
        self.0.open = false;
    }

    /// Whether the space counts as open. A deadline that has passed but was
    /// not yet seen by `check_keep_open` still counts as open.
    pub fn is_open(&self) -> (open: bool)
        ensures
            open == self@.open,
            open == (self@.store_state() != StoreState::Closed),
    {
        self.0.open
    }

    /// A copy of what the store holds.
    pub fn state(&self) -> (state: SpaceState)
        ensures
            state == self@,
    {
        self.0
    }

    /// How long one keep-open request lasts.
    pub fn keep_open_interval(&self) -> (interval: TimeSpan)
        ensures
            interval == self@.keep_open_interval,
    {
        self.0.keep_open_interval
    }

    /// Opens the space until one keep-open interval after `now` and returns
    /// that instant. An earlier deadline is dropped, not added to.
    pub fn keep_open(&mut self, now: Timestamp) -> (open_till: Timestamp)
        requires
            now@ + old(self)@.keep_open_interval@ <= MAX_NANOS,
        ensures
            open_till@ == now@ + old(self)@.keep_open_interval@,
            open_till == old(self)@.deadline(now),
            final(self)@ == old(self)@.kept_open(now),
            final(self)@.store_state() == StoreState::OpenUntil(open_till),
    {
        self.0.open = true;
        let open_till = now.later_by(self.0.keep_open_interval);
        self.0.last_open_request = LastOpenRequest::KeepOpen(open_till);
        open_till
    }

    /// The read half of an expiry check: whether the space is open on a
    /// keep-open request whose deadline lies before `now`.
    pub fn is_expired(&self, now: Timestamp) -> (expired: bool)
        ensures
            expired == self@.expired(now),
    {
        if !self.0.open {
            return false;
        }
        match self.0.last_open_request {
            LastOpenRequest::KeepOpen(open_till) => now.is_after(&open_till),
            LastOpenRequest::Open => false,
        }
    }

    /// The expiry check: closes the space if it is open on a keep-open
    /// request whose deadline lies before `now`, and leaves it as it is
    /// otherwise.
    pub fn check_keep_open(&mut self, now: Timestamp)
        ensures
            final(self)@ == old(self)@.checked(now),
            old(self)@.expired(now) ==> final(self)@.store_state() == StoreState::Closed,
            !old(self)@.expired(now) ==> final(self)@ == old(self)@,
    {
        if self.is_expired(now) {
            self.close();
        }
    }

    /// The scheduler that checks this store every `tick_interval`.
    pub fn start_scheduler(&self, tick_interval: TimeSpan) -> (scheduler: Scheduler)
        ensures
            scheduler.tick_interval == tick_interval,
    {
        Scheduler { tick_interval }
    }
}

impl Default for SpaceGuard {
    /// A closed store with a keep-open interval of 300 seconds.
    fn default() -> (guard: SpaceGuard)
        ensures
            guard@.store_state() == StoreState::Closed,
            guard@.keep_open_interval@ == 300 * crate::time::NANOS_PER_SEC,
            guard@ == SpaceState::initial(guard@.keep_open_interval),
    {
        SpaceGuard::new(TimeSpan::from_secs(300))
    }
}

impl Scheduler {
    /// What a round that finds the store in `state` at `now` starts with:
    /// closing, if a keep-open deadline has passed, and the pause otherwise.
    pub open spec fn decision(self, state: SpaceState, now: Timestamp) -> SchedulerAction {
        if state.expired(now) {
            SchedulerAction::Close
        } else {
            SchedulerAction::Sleep(self.tick_interval)
        }
    }

    /// The read half of a round at `now`: decides whether the store is to be
    /// closed, and changes nothing.
    pub fn check(&self, space: &SpaceGuard, now: Timestamp) -> (action: SchedulerAction)
        ensures
            action == self.decision(space@, now),
    {
        if space.is_expired(now) {
            SchedulerAction::Close
        } else {
            SchedulerAction::Sleep(self.tick_interval)
        }
    }

    /// The write half of a round whose read half said `Close`: closes the
    /// store as it finds it. Returns how long to suspend before the next
    /// round.
    pub fn close(&self, space: &mut SpaceGuard) -> (pause: TimeSpan)
        ensures
            final(space)@ == old(space)@.closed(),
            pause == self.tick_interval,
    {
        space.close();
        self.tick_interval
    }

    /// One whole round at `now` on a store that nobody else touches
    /// meanwhile: the read half and, where it says so, the write half.
    /// Returns how long to suspend before the next round.
    pub fn tick(&self, space: &mut SpaceGuard, now: Timestamp) -> (pause: TimeSpan)
        ensures
            final(space)@ == old(space)@.checked(now),
            pause == self.tick_interval,
    {
        match self.check(space, now) {
            SchedulerAction::Close => self.close(space),
            SchedulerAction::Sleep(pause) => pause,
        }
    }
}

/// A store that was opened for good stays open through any number of expiry
/// checks, whatever the clock shows at each.
pub proof fn law_indefinite_open_survives_ticks(state: SpaceState, ticks: Seq<Timestamp>)
    ensures
        state.opened().after_ticks(ticks) == state.opened(),
        state.opened().after_ticks(ticks).store_state() == StoreState::OpenIndefinite,
    decreases ticks.len(),
{
    if ticks.len() > 0 {
        law_indefinite_open_survives_ticks(state.opened(), ticks.drop_first());
    }
}

/// A keep-open request at `now` opens the space until `now` plus the
/// keep-open interval. A check at or before that instant changes nothing; a
/// check at any later instant closes the space.
pub proof fn law_keep_open_expires_after_deadline(
    state: SpaceState,
    now: Timestamp,
    check: Timestamp,
)
    requires
        now@ + state.keep_open_interval@ <= MAX_NANOS,
    ensures
        state.deadline(now)@ == now@ + state.keep_open_interval@,
        state.kept_open(now).store_state() == StoreState::OpenUntil(state.deadline(now)),
        check@ <= now@ + state.keep_open_interval@ ==> state.kept_open(now).checked(check)
            == state.kept_open(now),
        check@ > now@ + state.keep_open_interval@ ==> state.kept_open(now).checked(check).store_state()
            == StoreState::Closed,
{
    Timestamp::lemma_at(now@ + state.keep_open_interval@);
}

/// A second keep-open request replaces the deadline of the first: the space
/// is then open until the second request's instant plus the keep-open
/// interval, as if the first had never been made. Expiry checks between the
/// two change nothing about that.
pub proof fn law_keep_open_renews(
    state: SpaceState,
    first: Timestamp,
    checks: Seq<Timestamp>,
    second: Timestamp,
)
    requires
        second@ + state.keep_open_interval@ <= MAX_NANOS,
    ensures
        state.kept_open(first).after_ticks(checks).kept_open(second) == state.kept_open(second),
        state.kept_open(first).after_ticks(checks).kept_open(second).store_state()
            == StoreState::OpenUntil(state.deadline(second)),
        state.deadline(second)@ == second@ + state.keep_open_interval@,
{
    lemma_ticks_keep_interval(state.kept_open(first), checks);
    Timestamp::lemma_at(second@ + state.keep_open_interval@);
}

/// After a keep-open request at `now`, expiry checks that all come at or
/// before the deadline leave the space open until that deadline.
pub proof fn law_early_ticks_keep_open(state: SpaceState, now: Timestamp, ticks: Seq<Timestamp>)
    requires
        now@ + state.keep_open_interval@ <= MAX_NANOS,
        forall|i: int| 0 <= i < ticks.len() ==> ticks[i]@ <= now@ + state.keep_open_interval@,
    ensures
        state.kept_open(now).after_ticks(ticks) == state.kept_open(now),
    decreases ticks.len(),
{
    Timestamp::lemma_at(now@ + state.keep_open_interval@);
    if ticks.len() > 0 {
        let rest = ticks.drop_first();
        assert forall|i: int| 0 <= i < rest.len() implies rest[i]@ <= now@
            + state.keep_open_interval@ by {
            assert(rest[i] == ticks[i + 1]);
        }
        // The first check changes nothing, and a keep-open request at the
        // same instant on what it leaves gives the same state again.
        law_early_ticks_keep_open(state.kept_open(now), now, rest);
    }
}

/// After a keep-open request at `now`, the space is closed as soon as one
/// expiry check has come after the deadline, however many checks came
/// before or come after it. So with a scheduler that checks every tick
/// interval, an expired space is seen open for one tick interval at most.
pub proof fn law_late_tick_closes(
    state: SpaceState,
    now: Timestamp,
    ticks: Seq<Timestamp>,
    late: int,
)
    requires
        now@ + state.keep_open_interval@ <= MAX_NANOS,
        0 <= late < ticks.len(),
        ticks[late]@ > now@ + state.keep_open_interval@,
    ensures
        state.kept_open(now).after_ticks(ticks).store_state() == StoreState::Closed,
    decreases ticks.len(),
{
    Timestamp::lemma_at(now@ + state.keep_open_interval@);
    let kept = state.kept_open(now);
    let rest = ticks.drop_first();
    if kept.expired(ticks.first()) {
        // The first check closes, and no later check opens again.
        lemma_ticks_keep_interval(kept.closed(), rest);
    } else {
        // The first check changes nothing, so it is not the late one.
        assert(rest[late - 1] == ticks[late]);
        law_late_tick_closes(kept, now, rest, late - 1);
    }
}

/// The last write wins: after any run of operations that ends with `open`,
/// `close` or `keep_open`, the store is in the state that this last
/// operation alone would have left, whatever came before it.
pub proof fn law_last_write_wins(state: SpaceState, earlier: Seq<Operation>, last: Operation)
    requires
        last.is_write(),
    ensures
        state.after_all(earlier.push(last)).store_state() == state.after(last).store_state(),
        state.after_all(earlier.push(last)).keep_open_interval == state.keep_open_interval,
    decreases earlier.len(),
{
    if earlier.len() == 0 {
        assert(earlier.push(last).drop_first().len() == 0);
    } else {
        assert(earlier.push(last).drop_first() == earlier.drop_first().push(last));
        law_last_write_wins(state.after(earlier.first()), earlier.drop_first(), last);
    }
}

/// A round of the scheduler whose read half found a passed deadline closes
/// the space, whatever other operations came between its two halves: even a
/// keep-open request that arrived in that gap is closed over.
pub proof fn law_decided_round_closes(
    scheduler: Scheduler,
    state: SpaceState,
    now: Timestamp,
    between: Seq<Operation>,
)
    requires
        scheduler.decision(state, now) == SchedulerAction::Close,
    ensures
        state.expired(now),
        state.after_all(between).closed().store_state() == StoreState::Closed,
        between.len() == 0 ==> state.after_all(between).closed() == state.checked(now),
{
}

/// A round of the scheduler whose read half found no passed deadline
/// changes nothing.
pub proof fn law_undecided_round_changes_nothing(
    scheduler: Scheduler,
    state: SpaceState,
    now: Timestamp,
)
    requires
        scheduler.decision(state, now) != SchedulerAction::Close,
    ensures
        scheduler.decision(state, now) == SchedulerAction::Sleep(scheduler.tick_interval),
        state.checked(now) == state,
{
}

/// Closing closes the space from any state, and an expiry check on a closed
/// space changes nothing.
pub proof fn law_close_is_final(state: SpaceState, check: Timestamp)
    ensures
        state.closed().store_state() == StoreState::Closed,
        state.closed().checked(check) == state.closed(),
{
}

/// An expiry check either closes the space or leaves the state as it is, and
/// a second check at the same instant changes nothing more.
pub proof fn law_check_is_idempotent(state: SpaceState, check: Timestamp)
    ensures
        state.checked(check) == state || state.checked(check) == state.closed(),
        state.checked(check).checked(check) == state.checked(check),
{
}

/// Expiry checks never change the keep-open interval, and never open a
/// closed space.
pub proof fn lemma_ticks_keep_interval(state: SpaceState, ticks: Seq<Timestamp>)
    ensures
        state.after_ticks(ticks).keep_open_interval == state.keep_open_interval,
        !state.open ==> state.after_ticks(ticks) == state,
    decreases ticks.len(),
{
    if ticks.len() > 0 {
        lemma_ticks_keep_interval(state.checked(ticks.first()), ticks.drop_first());
    }
}

} // verus!
