use vstd::prelude::*;

use crate::builder::{AutoscanBuilder, BernardBuilder};
use crate::error::{miscounted_text, out_of_order_text, Error};
use crate::orchestrator::Atrain;

verus! {

/// How far the second phase of building has come, with what was built so far.
///
/// `C` is an index client and `N` the notification client. A state owns the
/// clients that were handed in: where building fails they go with it.
#[derive(Debug)]
pub enum BuildState<C, N> {
    /// The secondary clients are being built, `expected` of them.
    Secondaries {
        expected: usize,
        primary: BernardBuilder,
        autoscan: AutoscanBuilder,
        drives: Vec<String>,
    },
    /// The primary client is being built.
    Primary { secondaries: Vec<C>, autoscan: AutoscanBuilder, drives: Vec<String> },
    /// The notification client is being made.
    Notifier { secondaries: Vec<C>, primary: C, drives: Vec<String> },
    /// The notification service is being asked whether it is available.
    Liveness { secondaries: Vec<C>, primary: C, autoscan: N, drives: Vec<String> },
    /// Building is over, in success or failure.
    Finished,
}

/// What the caller reports while building.
#[derive(Debug)]
pub enum BuildEvent<C, N> {
    /// Every secondary build has ended; the outcomes stand in the order of the
    /// plans.
    SecondariesBuilt(Vec<Result<C, Error>>),
    /// The primary build has ended.
    PrimaryBuilt(Result<C, Error>),
    /// Making the notification client has ended.
    NotifierBuilt(Result<N, Error>),
    /// The notification service answered.
    Available,
    /// The notification service could not be reached, for this reason.
    Unavailable(String),
}

/// What the caller has to do next while building.
#[derive(Debug)]
pub enum BuildAction<C, N> {
    /// Build one client from each plan, all at once, and wait for all of them.
    BuildSecondaries(Vec<BernardBuilder>),
    /// Build the primary client from this plan.
    BuildPrimary(BernardBuilder),
    /// Make the notification client from this plan.
    BuildNotifier(AutoscanBuilder),
    /// Ask the notification client of the `Liveness` state whether its service
    /// is available.
    CheckAvailability,
    /// Building is over, with this result.
    Finish(Result<Atrain<C, N>, Error>),
}

/// Whether every build of `outcomes` succeeded.
pub open spec fn all_built<C>(outcomes: Seq<Result<C, Error>>) -> bool {
    forall|i: int| 0 <= i < outcomes.len() ==> (#[trigger] outcomes[i]) is Ok
}

/// Whether `clients` are what the builds of `outcomes` made, one for one.
pub open spec fn built_from<C>(outcomes: Seq<Result<C, Error>>, clients: Seq<C>) -> bool {
    &&& clients.len() == outcomes.len()
    &&& forall|i: int|
        #![trigger outcomes[i]]
        #![trigger clients[i]]
        0 <= i < outcomes.len() ==> outcomes[i] == Ok::<C, Error>(clients[i])
}

/// Whether the build at `at` failed with `error` and none before it failed.
pub open spec fn first_failure<C>(outcomes: Seq<Result<C, Error>>, at: int, error: Error) -> bool {
    &&& 0 <= at < outcomes.len()
    &&& outcomes[at] == Err::<C, Error>(error)
    &&& forall|j: int| 0 <= j < at ==> (#[trigger] outcomes[j]) is Ok
}

/// Whether `joined` is what joining `outcomes` gives: all the clients where
/// every build succeeded, and otherwise the first failure alone.
pub open spec fn joins_to<C>(
    outcomes: Seq<Result<C, Error>>,
    joined: Result<Vec<C>, Error>,
) -> bool {
    match joined {
        Ok(clients) => built_from(outcomes, clients@),
        Err(error) => exists|at: int| first_failure(outcomes, at, error),
    }
}

/// Joins the outcomes of builds that ran side by side: the clients in order
/// where all succeeded, else the failure that stands first. No client is
/// handed back beside a failure.
pub fn join_all<C>(outcomes: Vec<Result<C, Error>>) -> (joined: Result<Vec<C>, Error>)
    ensures
        joins_to(outcomes@, joined),
        joined is Ok <==> all_built(outcomes@),
{
    let mut rest = outcomes;
    let mut clients: Vec<C> = Vec::new();
    while rest.len() > 0
        invariant
            clients@.len() + rest@.len() == outcomes@.len(),
            rest@ == outcomes@.subrange(clients@.len() as int, outcomes@.len() as int),
            forall|i: int|
                0 <= i < clients@.len() ==> #[trigger] outcomes@[i] == Ok::<C, Error>(clients@[i]),
        decreases rest@.len(),
    {
        let ghost at = clients@.len() as int;
        match rest.remove(0) {
            Ok(client) => {
                clients.push(client);
                assert(rest@ == outcomes@.subrange(
                    clients@.len() as int,
                    outcomes@.len() as int,
                ));
            },
            Err(error) => {
                assert(first_failure(outcomes@, at, error));
                assert(!(outcomes@[at] is Ok));
                return Err(error);
            },
        }
    }
    Ok(clients)
}

/// Whether `next` and `action` are what `event` calls for in `state`.
///
/// Building goes through the secondary clients, the primary client, the
/// notification client and its availability, in this order. The first failure
/// ends it; so does an event that the state does not expect. An orchestrator
/// comes out only when the notification service has answered.
pub open spec fn build_answers<C, N>(
    state: BuildState<C, N>,
    event: BuildEvent<C, N>,
    next: BuildState<C, N>,
    action: BuildAction<C, N>,
) -> bool {
    match (state, event) {
        (
            BuildState::Secondaries { expected, primary, autoscan, drives },
            BuildEvent::SecondariesBuilt(outcomes),
        ) => {
            if outcomes@.len() != expected {
                &&& next is Finished
                &&& action matches BuildAction::Finish(Err(Error::Unexpected(m)))
                &&& m@ == miscounted_text()
            } else if all_built(outcomes@) {
                &&& next matches BuildState::Primary { secondaries, autoscan: a, drives: d }
                &&& built_from(outcomes@, secondaries@)
                &&& a == autoscan
                &&& d == drives
                &&& action == BuildAction::<C, N>::BuildPrimary(primary)
            } else {
                &&& next is Finished
                &&& action matches BuildAction::Finish(Err(error))
                &&& exists|at: int| first_failure(outcomes@, at, error)
            }
        },
        (
            BuildState::Primary { secondaries, autoscan, drives },
            BuildEvent::PrimaryBuilt(Ok(client)),
        ) => {
            &&& next == (BuildState::<C, N>::Notifier { secondaries, primary: client, drives })
            &&& action == BuildAction::<C, N>::BuildNotifier(autoscan)
        },
        (BuildState::Primary { .. }, BuildEvent::PrimaryBuilt(Err(error))) => {
            &&& next is Finished
            &&& action == BuildAction::<C, N>::Finish(Err(error))
        },
        (
            BuildState::Notifier { secondaries, primary, drives },
            BuildEvent::NotifierBuilt(Ok(client)),
        ) => {
            &&& next == (BuildState::<C, N>::Liveness {
                secondaries,
                primary,
                autoscan: client,
                drives,
            })
            &&& action == BuildAction::<C, N>::CheckAvailability
        },
        (BuildState::Notifier { .. }, BuildEvent::NotifierBuilt(Err(error))) => {
            &&& next is Finished
            &&& action == BuildAction::<C, N>::Finish(Err(error))
        },
        (
            BuildState::Liveness { secondaries, primary, autoscan, drives },
            BuildEvent::Available,
        ) => {
            &&& next is Finished
            &&& action matches BuildAction::Finish(Ok(atrain))
            &&& atrain.pool() == secondaries@.push(primary)
            &&& atrain.primary_index() == secondaries@.len()
            &&& atrain.notifier() == autoscan
            &&& atrain.drive_ids() == drives@
        },
        (BuildState::Liveness { .. }, BuildEvent::Unavailable(reason)) => {
            &&& next is Finished
            &&& action == BuildAction::<C, N>::Finish(Err(Error::AutoscanUnavailable(reason)))
        },
        _ => {
            &&& next is Finished
            &&& action matches BuildAction::Finish(Err(Error::Unexpected(m)))
            &&& m@ == out_of_order_text()
        },
    }
}

impl<C, N> BuildState<C, N> {
    /// One step of building: takes what happened and says where building
    /// stands now and what to do next.
    pub fn advance(self, event: BuildEvent<C, N>) -> (step: (BuildState<C, N>, BuildAction<C, N>))
        ensures
            build_answers(self, event, step.0, step.1),
    {
        match (self, event) {
            (
                BuildState::Secondaries { expected, primary, autoscan, drives },
                BuildEvent::SecondariesBuilt(outcomes),
            ) => {
                if outcomes.len() != expected {
                    (BuildState::Finished, BuildAction::Finish(Err(Error::miscounted())))
                } else {
                    match join_all(outcomes) {
                        Ok(secondaries) => (
                            BuildState::Primary { secondaries, autoscan, drives },
                            BuildAction::BuildPrimary(primary),
                        ),
                        Err(error) => (BuildState::Finished, BuildAction::Finish(Err(error))),
                    }
                }
            },
            (
                BuildState::Primary { secondaries, autoscan, drives },
                BuildEvent::PrimaryBuilt(Ok(client)),
            ) => (
                BuildState::Notifier { secondaries, primary: client, drives },
                BuildAction::BuildNotifier(autoscan),
            ),
            (BuildState::Primary { .. }, BuildEvent::PrimaryBuilt(Err(error))) => (
                BuildState::Finished,
                BuildAction::Finish(Err(error)),
            ),
            (
                BuildState::Notifier { secondaries, primary, drives },
                BuildEvent::NotifierBuilt(Ok(client)),
            ) => (
                BuildState::Liveness { secondaries, primary, autoscan: client, drives },
                BuildAction::CheckAvailability,
            ),
            (BuildState::Notifier { .. }, BuildEvent::NotifierBuilt(Err(error))) => (
                BuildState::Finished,
                BuildAction::Finish(Err(error)),
            ),
            (
                BuildState::Liveness { secondaries, primary, autoscan, drives },
                BuildEvent::Available,
            ) => (
                BuildState::Finished,
                BuildAction::Finish(Ok(Atrain::assemble(secondaries, primary, autoscan, drives))),
            ),
            (BuildState::Liveness { .. }, BuildEvent::Unavailable(reason)) => (
                BuildState::Finished,
                BuildAction::Finish(Err(Error::AutoscanUnavailable(reason))),
            ),
            _ => (BuildState::Finished, BuildAction::Finish(Err(Error::out_of_order()))),
        }
    }
}

} // verus!
