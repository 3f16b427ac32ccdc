use vstd::prelude::*;

use crate::assembly::{
    all_built, build_answers, first_failure, BuildAction, BuildEvent, BuildState,
};
use crate::builder::AtrainBuilder;
use crate::error::Error;
use crate::orchestrator::{
    Atrain, tick_answers, tick_next, tick_state_after, TickAction, TickEvent, TickState,
    POLL_INTERVAL_SECS,
};

verus! {

/// A failed synchronization ends the cycle at once with the failure as it
/// came: the cycle is idle again and no rest was asked for.
pub proof fn failed_sync_skips_wait(error: Error, action: TickAction)
    requires
        tick_answers(TickState::Synchronizing, TickEvent::SyncFailed(error), action),
    ensures
        action == TickAction::Finish(Err(error)),
        !(action is Wait),
        tick_next(TickState::Synchronizing, TickEvent::SyncFailed(error)) == TickState::Idle,
{
}

/// In no state does the report of a failed synchronization lead to a rest.
pub proof fn no_wait_after_failure(state: TickState, error: Error, action: TickAction)
    requires
        tick_answers(state, TickEvent::SyncFailed(error), action),
    ensures
        action matches TickAction::Finish(Err(_)),
        tick_next(state, TickEvent::SyncFailed(error)) == TickState::Idle,
{
}

/// A rest is only ever asked for in answer to a completed synchronization,
/// and it is the full polling interval.
pub proof fn wait_is_full_interval(state: TickState, event: TickEvent, action: TickAction)
    requires
        tick_answers(state, event, action),
        action is Wait,
    ensures
        action == TickAction::Wait(POLL_INTERVAL_SECS),
        POLL_INTERVAL_SECS == 60,
        state == TickState::Synchronizing,
        event == TickEvent::Synchronized,
{
}

/// A cycle that ends in success has rested the full interval after its
/// synchronization completed: whatever events came since the orchestrator was
/// idle for the first time, if the last of them is answered with success, then
/// it is the end of the rest, the event before it is the completed
/// synchronization, which was answered with a rest of the full interval, and
/// the event before that asked for the cycle.
pub proof fn success_follows_full_wait(events: Seq<TickEvent>, action: TickAction)
    requires
        events.len() > 0,
        tick_answers(tick_state_after(events.drop_last()), events.last(), action),
        action == TickAction::Finish(Ok(())),
    ensures
        events.len() >= 3,
        events[events.len() - 1] == TickEvent::Elapsed,
        events[events.len() - 2] == TickEvent::Synchronized,
        events[events.len() - 3] == TickEvent::Invoked,
        tick_state_after(events.take(events.len() - 2)) == TickState::Synchronizing,
        forall|rest: TickAction|
            #[trigger] tick_answers(
                tick_state_after(events.take(events.len() - 2)),
                events[events.len() - 2],
                rest,
            ) ==> rest == TickAction::Wait(POLL_INTERVAL_SECS),
{
    // Success answers only the end of a rest, a rest begins only when a
    // synchronization completes, and a synchronization only when it is asked for.
    let upto_rest = events.drop_last();
    assert(tick_state_after(upto_rest) == TickState::Waiting);
    let upto_sync = upto_rest.drop_last();
    assert(tick_state_after(upto_sync) == TickState::Synchronizing);
    assert(upto_sync == events.take(events.len() - 2));
}

/// An orchestrator comes out of building only in answer to the notification
/// service being available, asked in the state that holds every client.
pub proof fn orchestrator_only_after_availability<C, N>(
    state: BuildState<C, N>,
    event: BuildEvent<C, N>,
    next: BuildState<C, N>,
    action: BuildAction<C, N>,
)
    requires
        build_answers(state, event, next, action),
        action matches BuildAction::Finish(Ok(_)),
    ensures
        state is Liveness,
        event is Available,
        next is Finished,
{
}

/// Where the notification service cannot be reached, building ends without an
/// orchestrator, whatever had been built; asked at its due time, the failure
/// is the unavailability with the reason as it came.
pub proof fn unavailable_service_fails_build<C, N>(
    state: BuildState<C, N>,
    reason: String,
    next: BuildState<C, N>,
    action: BuildAction<C, N>,
)
    requires
        build_answers(state, BuildEvent::Unavailable(reason), next, action),
    ensures
        next is Finished,
        action matches BuildAction::Finish(Err(_)),
        state is Liveness ==> action == BuildAction::<C, N>::Finish(
            Err(Error::AutoscanUnavailable(reason)),
        ),
{
}

/// Where exactly one of the secondary builds failed, building ends with that
/// failure alone: no client of the others is kept or handed back.
pub proof fn one_failed_build_fails_all<C, N>(
    state: BuildState<C, N>,
    outcomes: Vec<Result<C, Error>>,
    failed: int,
    next: BuildState<C, N>,
    action: BuildAction<C, N>,
)
    requires
        state is Secondaries,
        state->expected == outcomes@.len(),
        0 <= failed < outcomes@.len(),
        outcomes@[failed] is Err,
        forall|i: int| 0 <= i < outcomes@.len() && i != failed ==> (#[trigger] outcomes@[i]) is Ok,
        build_answers(state, BuildEvent::SecondariesBuilt(outcomes), next, action),
    ensures
        next is Finished,
        action == BuildAction::<C, N>::Finish(Err(outcomes@[failed]->Err_0)),
{
    let error = action->Finish_0->Err_0;
    let at = choose|at: int| first_failure(outcomes@, at, error);
    assert(at == failed);
}

/// Any failed secondary build fails the whole: with one failure or several,
/// the answer is a failure that one of the builds reported.
pub proof fn any_failed_build_fails_all<C, N>(
    state: BuildState<C, N>,
    outcomes: Vec<Result<C, Error>>,
    failed: int,
    next: BuildState<C, N>,
    action: BuildAction<C, N>,
)
    requires
        state is Secondaries,
        0 <= failed < outcomes@.len(),
        outcomes@[failed] is Err,
        build_answers(state, BuildEvent::SecondariesBuilt(outcomes), next, action),
    ensures
        next is Finished,
        action matches BuildAction::Finish(Err(_)),
{
}

/// Every client of the pool can be selected: it is the one that the draw of
/// its own place selects, and no draw selects anything outside the pool.
pub proof fn every_client_has_a_draw<C, N>(atrain: Atrain<C, N>, place: usize)
    requires
        place < atrain.pool().len(),
    ensures
        place as int % atrain.pool().len() as int == place,
        forall|draw: usize|
            0 <= #[trigger] (draw as int % atrain.pool().len() as int) < atrain.pool().len(),
{
    let size = atrain.pool().len() as int;
    assert(place as int % size == place) by (nonlinear_arith)
        requires
            0 <= place < size,
    ;
    assert forall|draw: usize| 0 <= #[trigger] (draw as int % size) < size by {
        assert(0 <= draw as int % size < size) by (nonlinear_arith)
            requires
                0 <= draw,
                0 < size,
        ;
    }
}

/// A build in which every client was built and the notification service
/// answered gives an orchestrator that holds them all: the secondary clients
/// in the order of their plans, then the primary one, which is the one that
/// polling synchronizes; the notification client; and the drive identifiers
/// as the builder had them.
pub proof fn complete_build_holds_every_client<C, N>(
    start: BuildState<C, N>,
    outcomes: Vec<Result<C, Error>>,
    primary: C,
    notifier: N,
    steps: Seq<(BuildState<C, N>, BuildAction<C, N>)>,
)
    requires
        start is Secondaries,
        start->expected == outcomes@.len(),
        all_built(outcomes@),
        steps.len() == 4,
        build_answers(start, BuildEvent::SecondariesBuilt(outcomes), steps[0].0, steps[0].1),
        build_answers(steps[0].0, BuildEvent::PrimaryBuilt(Ok(primary)), steps[1].0, steps[1].1),
        build_answers(steps[1].0, BuildEvent::NotifierBuilt(Ok(notifier)), steps[2].0, steps[2].1),
        build_answers(steps[2].0, BuildEvent::Available, steps[3].0, steps[3].1),
    ensures
        steps[0].1 is BuildPrimary,
        steps[1].1 is BuildNotifier,
        steps[2].1 is CheckAvailability,
        steps[3].0 is Finished,
        steps[3].1 matches BuildAction::Finish(Ok(atrain)) && {
            &&& atrain.pool().len() == outcomes@.len() + 1
            &&& forall|i: int|
                0 <= i < outcomes@.len() ==> #[trigger] outcomes@[i] == Ok::<C, Error>(
                    atrain.pool()[i],
                )
            &&& atrain.primary_index() == outcomes@.len()
            &&& atrain.pool()[atrain.primary_index()] == primary
            &&& atrain.notifier() == notifier
            &&& atrain.drive_ids() == start->Secondaries_drives@
        },
{
}

/// The same build with the notification service out of reach gives no
/// orchestrator but the unavailability, with the reason as it came.
pub proof fn complete_build_fails_without_service<C, N>(
    start: BuildState<C, N>,
    outcomes: Vec<Result<C, Error>>,
    primary: C,
    notifier: N,
    reason: String,
    steps: Seq<(BuildState<C, N>, BuildAction<C, N>)>,
)
    requires
        start is Secondaries,
        start->expected == outcomes@.len(),
        all_built(outcomes@),
        steps.len() == 4,
        build_answers(start, BuildEvent::SecondariesBuilt(outcomes), steps[0].0, steps[0].1),
        build_answers(steps[0].0, BuildEvent::PrimaryBuilt(Ok(primary)), steps[1].0, steps[1].1),
        build_answers(steps[1].0, BuildEvent::NotifierBuilt(Ok(notifier)), steps[2].0, steps[2].1),
        build_answers(steps[2].0, BuildEvent::Unavailable(reason), steps[3].0, steps[3].1),
    ensures
        steps[3].0 is Finished,
        steps[3].1 == BuildAction::<C, N>::Finish(Err(Error::AutoscanUnavailable(reason))),
{
}

/// Of two proxies set one after the other the last one wins: the builder is
/// as if only the second had been set.
pub proof fn last_proxy_wins(
    plain: AtrainBuilder,
    once: AtrainBuilder,
    twice: AtrainBuilder,
    first: Seq<char>,
    second: Seq<char>,
)
    requires
        plain.proxied(once, first),
        once.proxied(twice, second),
    ensures
        plain.proxied(twice, second),
{
    assert forall|i: int| 0 <= i < plain.secondary_plans().len() implies (
    #[trigger] twice.secondary_plans()[i]).describes(
        plain.secondary_plans()[i].database_path@,
        plain.secondary_plans()[i].account,
        Some(second),
    ) by {
        assert(once.secondary_plans()[i].describes(
            plain.secondary_plans()[i].database_path@,
            plain.secondary_plans()[i].account,
            Some(first),
        ));
    }
}

/// A polling cycle that is over leaves the orchestrator idle, in success and
/// in failure, so that the next cycle can be asked for.
pub proof fn finished_cycle_is_idle(state: TickState, event: TickEvent, action: TickAction)
    requires
        tick_answers(state, event, action),
        action is Finish,
    ensures
        tick_next(state, event) == TickState::Idle,
{
}

/// Building that is over stays over: whatever is reported afterwards gives an
/// error and no orchestrator.
pub proof fn finished_build_stays_finished<C, N>(
    event: BuildEvent<C, N>,
    next: BuildState<C, N>,
    action: BuildAction<C, N>,
)
    requires
        build_answers(BuildState::<C, N>::Finished, event, next, action),
    ensures
        next is Finished,
        action matches BuildAction::Finish(Err(_)),
{
}

/// The notification service is asked only once every client has been built,
/// and whatever it answers ends building: it is asked once in a build.
pub proof fn availability_is_asked_last<C, N>(
    state: BuildState<C, N>,
    event: BuildEvent<C, N>,
    next: BuildState<C, N>,
    action: BuildAction<C, N>,
)
    requires
        build_answers(state, event, next, action),
    ensures
        action is CheckAvailability ==> state is Notifier && next is Liveness,
        next is Liveness ==> action is CheckAvailability,
        state is Liveness ==> next is Finished && action is Finish,
{
}

} // verus!
