use vstd::prelude::*;

use crate::error::{out_of_order_text, Error};
use crate::random::pick_one;

verus! {

/// Seconds that a polling cycle rests after a successful synchronization.
pub const POLL_INTERVAL_SECS: u64 = 60;

/// Where a polling cycle stands.
#[derive(Debug, Clone, Copy, PartialEq, Eq, Structural)]
pub enum TickState {
    /// No cycle is running.
    Idle,
    /// The primary client has been asked to synchronize.
    Synchronizing,
    /// Synchronization succeeded and the rest has begun.
    Waiting,
}

/// What the caller reports to a polling cycle.
#[derive(Debug, Clone, PartialEq, Eq)]
pub enum TickEvent {
    /// The caller asks for a cycle.
    Invoked,
    /// The primary client finished synchronizing.
    Synchronized,
    /// The primary client failed to synchronize.
    SyncFailed(Error),
    /// The rest is over.
    Elapsed,
}

/// What the caller has to do next in a polling cycle.
#[derive(Debug, PartialEq, Eq)]
pub enum TickAction {
    /// Synchronize the primary client, then report how it went.
    Synchronize,
    /// Rest for this many seconds, then report `Elapsed`.
    Wait(u64),
    /// The cycle is over, with this result.
    Finish(Result<(), Error>),
}

/// The state that follows `state` on `event`.
pub open spec fn tick_next(state: TickState, event: TickEvent) -> TickState {
    match (state, event) {
        (TickState::Idle, TickEvent::Invoked) => TickState::Synchronizing,
        (TickState::Synchronizing, TickEvent::Synchronized) => TickState::Waiting,
        _ => TickState::Idle,
    }
}

/// Whether `action` is what `event` calls for in `state`.
///
/// A cycle synchronizes first, rests only after a success and hands a failure
/// back as it came. An event that the state does not expect ends the cycle
/// with an error of its own.
pub open spec fn tick_answers(state: TickState, event: TickEvent, action: TickAction) -> bool {
    match (state, event) {
        (TickState::Idle, TickEvent::Invoked) => action == TickAction::Synchronize,
        (TickState::Synchronizing, TickEvent::Synchronized) => action == TickAction::Wait(
            POLL_INTERVAL_SECS,
        ),
        (TickState::Synchronizing, TickEvent::SyncFailed(e)) => action == TickAction::Finish(
            Err(e),
        ),
        (TickState::Waiting, TickEvent::Elapsed) => action == TickAction::Finish(Ok(())),
        _ => action matches TickAction::Finish(Err(Error::Unexpected(m))) && m@
            == out_of_order_text(),
    }
}

/// The state reached from `Idle` after `events`, in order.
pub open spec fn tick_state_after(events: Seq<TickEvent>) -> TickState
    decreases events.len(),
{
    if events.len() == 0 {
        TickState::Idle
    } else {
        tick_next(tick_state_after(events.drop_last()), events.last())
    }
}

/// The built orchestrator: the notification client, the pool of index clients
/// with the primary one among them, and the drive identifiers.
#[derive(Debug)]
pub struct Atrain<C, N> {
    autoscan: N,
    primary: usize,
    bernards: Vec<C>,
    drives: Vec<String>,
}

impl<C, N> Atrain<C, N> {
    #[verifier::type_invariant]
    spec fn holds_primary(self) -> bool {
        self.primary < self.bernards@.len()
    }

    /// The pool of index clients, the primary one included.
    pub closed spec fn pool(self) -> Seq<C> {
        self.bernards@
    }

    /// The place of the primary client in the pool.
    pub closed spec fn primary_index(self) -> int {
        self.primary as int
    }

    /// The notification client.
    pub closed spec fn notifier(self) -> N {
        self.autoscan
    }

    /// The drive identifiers.
    pub closed spec fn drive_ids(self) -> Seq<String> {
        self.drives@
    }

    /// Puts an orchestrator together from clients that were built: the pool is
    /// the secondary clients in their order, then the primary one.
    pub(crate) fn assemble(
        secondaries: Vec<C>,
        primary: C,
        autoscan: N,
        drives: Vec<String>,
    ) -> (a: Self)
        ensures
            a.pool() == secondaries@.push(primary),
            a.primary_index() == secondaries@.len(),
            a.notifier() == autoscan,
            a.drive_ids() == drives@,
    {
        let mut bernards = secondaries;
        let at = bernards.len();
        bernards.push(primary);
        Atrain { autoscan, primary: at, bernards, drives }
    }

    /// One step of a polling cycle: takes where the cycle stands and what
    /// happened, and says where it stands now and what to do next.
    pub fn tick(&self, state: TickState, event: TickEvent) -> (step: (TickState, TickAction))
        ensures
            step.0 == tick_next(state, event),
            tick_answers(state, event, step.1),
    {
        match (state, event) {
            (TickState::Idle, TickEvent::Invoked) => (
                TickState::Synchronizing,
                TickAction::Synchronize,
            ),
            (TickState::Synchronizing, TickEvent::Synchronized) => (
                TickState::Waiting,
                TickAction::Wait(POLL_INTERVAL_SECS),
            ),
            (TickState::Synchronizing, TickEvent::SyncFailed(e)) => (
                TickState::Idle,
                TickAction::Finish(Err(e)),
            ),
            (TickState::Waiting, TickEvent::Elapsed) => (
                TickState::Idle,
                TickAction::Finish(Ok(())),
            ),
            _ => (TickState::Idle, TickAction::Finish(Err(Error::out_of_order()))),
        }
    }

    /// One client of the pool, picked at random.
    pub fn get_bernard(&self) -> (client: &C)
        ensures
            exists|i: int| 0 <= i < self.pool().len() && *client == #[trigger] self.pool()[i],
    {
        proof {
            use_type_invariant(self);
        }
        match pick_one(&self.bernards) {
            Some(client) => {
                proof {
                    let i = choose|i: int|
                        0 <= i < self.bernards@.len() && *client == #[trigger] self.bernards@[i];
                    assert(*client == self.pool()[i]);
                }
                client
            },
            // The pool is never empty, so this arm is never taken.
            None => &self.bernards[self.primary],
        }
    }

    /// The client that `draw` selects: the draws are dealt round the pool, so
    /// that a caller with a generator of its own reaches every client.
    pub fn get_bernard_at(&self, draw: usize) -> (client: &C)
        ensures
            self.pool().len() > 0,
            *client == self.pool()[draw as int % self.pool().len() as int],
    {
        proof {
            use_type_invariant(self);
        }
        &self.bernards[draw % self.bernards.len()]
    }

    /// The primary client, the one that a polling cycle synchronizes.
    pub fn bernard(&self) -> (client: &C)
        ensures
            0 <= self.primary_index() < self.pool().len(),
            *client == self.pool()[self.primary_index()],
    {
        proof {
            use_type_invariant(self);
        }
        &self.bernards[self.primary]
    }

    /// The whole pool, which is never empty.
    pub fn bernards(&self) -> (pool: &Vec<C>)
        ensures
            pool@ == self.pool(),
            pool@.len() >= 1,
    {
        proof {
            use_type_invariant(self);
        }
        &self.bernards
    }

    /// The notification client.
    pub fn autoscan(&self) -> (client: &N)
        ensures
            *client == self.notifier(),
    {
        &self.autoscan
    }

    /// The drive identifiers, as they were configured.
    pub fn drives(&self) -> (ids: &Vec<String>)
        ensures
            ids@ == self.drive_ids(),
    {
        &self.drives
    }
}

} // verus!
