//! What holds of every run of a query, whatever events it is given.

use crate::conversion::CellModel;
use crate::dispatch::{
    rows_outcome, ActionModel, DispatchModel, EventModel, Phase, Strategy,
};
use crate::error::Error;
use vstd::prelude::*;

verus! {

/// A run that is over stays over: it takes no event and asks for nothing.
pub proof fn finished_is_final(state: DispatchModel, event: EventModel)
    requires
        state.phase == Phase::Finished,
    ensures
        state.react(event) == (state, ActionModel::Idle),
{
}

/// Every step keeps the state well formed.
pub proof fn well_formed_is_kept(state: DispatchModel, event: EventModel)
    requires
        state.well_formed(),
    ensures
        state.react(event).0.well_formed(),
{
}

/// A run never goes back: its phase only advances, and whenever it asks for
/// something it has advanced. So each piece of outside work is asked for at
/// most once. The strategy and the query text never change, and a caller
/// that is gone stays gone.
pub proof fn phases_only_advance(state: DispatchModel, event: EventModel)
    ensures
        state.react(event).0.phase.rank() >= state.phase.rank(),
        !(state.react(event).1 is Idle) ==> state.react(event).0.phase.rank()
            > state.phase.rank(),
        state.react(event).0.strategy == state.strategy,
        state.react(event).0.query == state.query,
        state.cancelled ==> state.react(event).0.cancelled,
{
}

/// A run resolves only as it finishes, only for a caller that is still
/// there, and only when it holds no connection. With `finished_is_final`: it
/// resolves at most once.
pub proof fn resolves_as_it_finishes(state: DispatchModel, event: EventModel)
    ensures
        state.react(event).1 is Resolve ==> state.phase != Phase::Finished && state.react(
            event,
        ).0.phase == Phase::Finished && !state.cancelled,
        state.react(event).0.phase == Phase::Finished ==> !state.react(
            event,
        ).0.phase.holds_connection(),
{
}

/// A connection comes into the run's hands only when the pool hands one out
/// to a run that waits for it, and leaves them only when it is reported back
/// in the pool. The run asks for one only while it holds none, and whenever
/// it asks to release one it holds one.
pub proof fn connection_is_taken_and_given_back(state: DispatchModel, event: EventModel)
    ensures
        (!state.phase.holds_connection() && state.react(event).0.phase.holds_connection()) <==> (
        state.phase == Phase::Acquiring && event is Acquired),
        (state.phase.holds_connection() && !state.react(event).0.phase.holds_connection()) <==> (
        state.phase == Phase::Releasing && event is Released),
        state.react(event).1 is Acquire ==> !state.phase.holds_connection() && state.react(
            event,
        ).0.phase == Phase::Acquiring,
        state.react(event).1 is Release ==> state.phase.holds_connection() && state.react(
            event,
        ).0.phase == Phase::Releasing,
{
}

/// The query is run only by a run that has just been handed its connection,
/// or its prepared statement, and has not run it before.
pub proof fn query_runs_once(state: DispatchModel, event: EventModel)
    ensures
        state.react(event).1 is Query ==> state.phase.rank() < Phase::Querying.rank()
            && state.react(event).0.phase == Phase::Querying,
        state.react(event).1 is Prepare ==> state.strategy == Strategy::Asynchronous
            && state.react(event).0.phase == Phase::Preparing,
        state.react(event).1 is Offload ==> state.strategy == Strategy::Threaded && state.react(
            event,
        ).0.phase == Phase::Offloading,
{
}

/// A run whose caller is gone never resolves.
pub proof fn cancelled_run_never_resolves(state: DispatchModel, event: EventModel)
    requires
        state.cancelled,
    ensures
        !(state.react(event).1 is Resolve),
{
}

/// When the handle of an asynchronous run is dropped, the run gives up at
/// once: a connection that it holds is on its way back to the pool, and the
/// run is over as soon as the connection is there, without resolving.
pub proof fn dropped_run_gives_its_connection_back(state: DispatchModel)
    requires
        state.strategy == Strategy::Asynchronous,
        state.phase != Phase::Finished,
    ensures
        state.react(EventModel::Dropped).0.cancelled,
        state.phase.holds_connection() ==> state.react(EventModel::Dropped).0.phase
            == Phase::Releasing,
        !state.phase.holds_connection() ==> state.react(EventModel::Dropped).0.phase
            == Phase::Finished,
        state.phase == Phase::Preparing || state.phase == Phase::Querying ==> state.react(
            EventModel::Dropped,
        ).1 is Release,
        state.react(EventModel::Dropped).0.react(EventModel::Released) == (
            DispatchModel { phase: Phase::Finished, ..state.react(EventModel::Dropped).0 },
            ActionModel::Idle,
        ),
{
}

/// A threaded run whose handle is dropped after it began goes on as before,
/// and throws its result away.
pub proof fn dropped_threaded_run_goes_on(state: DispatchModel, event: EventModel)
    requires
        state.strategy == Strategy::Threaded,
        state.phase != Phase::Created,
        state.phase != Phase::Finished,
        !(event is Dropped),
    ensures
        state.react(EventModel::Dropped).0.phase == state.phase,
        state.react(EventModel::Dropped).0.react(event).0.phase == state.react(event).0.phase,
        state.react(EventModel::Dropped).0.react(event).1 == if state.react(event).1 is Resolve {
            ActionModel::Idle
        } else {
            state.react(event).1
        },
{
}

/// A synchronous run takes no notice of a dropped handle.
pub proof fn synchronous_run_cannot_be_dropped(state: DispatchModel)
    requires
        state.strategy == Strategy::Synchronous,
    ensures
        state.react(EventModel::Dropped) == (state, ActionModel::Idle),
{
}

/// The way of a synchronous run whose outside work succeeds: it acquires a
/// connection, runs the query, gives the connection back and resolves with
/// the JSON of the rows.
pub proof fn synchronous_run_resolves(query: Seq<char>, rows: Seq<Seq<CellModel>>)
    ensures
        ({
            let created = DispatchModel::initial(Strategy::Synchronous, query);
            let (acquiring, first) = created.react(EventModel::Started);
            let (querying, second) = acquiring.react(EventModel::Acquired);
            let (releasing, third) = querying.react(EventModel::Rows(rows));
            let (finished, fourth) = releasing.react(EventModel::Released);
            &&& first is Acquire
            &&& second is Query
            &&& third is Release
            &&& fourth == ActionModel::Resolve(rows_outcome(rows))
            &&& finished.phase == Phase::Finished
        }),
{
}

/// The way of a threaded run whose outside work succeeds: it is handed to
/// the blocking executor first, and then goes the way of a synchronous run.
pub proof fn threaded_run_resolves(query: Seq<char>, rows: Seq<Seq<CellModel>>)
    ensures
        ({
            let created = DispatchModel::initial(Strategy::Threaded, query);
            let (offloading, first) = created.react(EventModel::Started);
            let (acquiring, second) = offloading.react(EventModel::Offloaded);
            let (querying, third) = acquiring.react(EventModel::Acquired);
            let (releasing, fourth) = querying.react(EventModel::Rows(rows));
            let (finished, fifth) = releasing.react(EventModel::Released);
            &&& first is Offload
            &&& second is Acquire
            &&& third is Query
            &&& fourth is Release
            &&& fifth == ActionModel::Resolve(rows_outcome(rows))
            &&& finished.phase == Phase::Finished
        }),
{
}

/// The way of an asynchronous run whose outside work succeeds: it acquires
/// a connection, prepares the statement, runs it, gives the connection back
/// and resolves with the JSON of the rows.
pub proof fn asynchronous_run_resolves(query: Seq<char>, rows: Seq<Seq<CellModel>>)
    ensures
        ({
            let created = DispatchModel::initial(Strategy::Asynchronous, query);
            let (acquiring, first) = created.react(EventModel::Started);
            let (preparing, second) = acquiring.react(EventModel::Acquired);
            let (querying, third) = preparing.react(EventModel::Prepared);
            let (releasing, fourth) = querying.react(EventModel::Rows(rows));
            let (finished, fifth) = releasing.react(EventModel::Released);
            &&& first is Acquire
            &&& second is Prepare
            &&& third is Query
            &&& fourth is Release
            &&& fifth == ActionModel::Resolve(rows_outcome(rows))
            &&& finished.phase == Phase::Finished
        }),
{
}

/// Each failure of the outside work resolves with the error of its kind: a
/// refused task with `Blocking`, a pool that hands out nothing with `Pool`,
/// and a failing driver with `Driver`, that one after the connection is back.
pub proof fn failures_resolve_with_their_error(state: DispatchModel)
    requires
        !state.cancelled,
    ensures
        state.phase == Phase::Offloading ==> state.react(EventModel::Rejected).1
            == ActionModel::Resolve(Err(Error::Blocking)),
        state.phase == Phase::Acquiring ==> state.react(EventModel::PoolFailed).1
            == ActionModel::Resolve(Err(Error::Pool)),
        state.phase == Phase::Preparing || state.phase == Phase::Querying ==> state.react(
            EventModel::DriverFailed,
        ).1 is Release && state.react(EventModel::DriverFailed).0.react(EventModel::Released).1
            == ActionModel::Resolve(Err(Error::Driver)),
{
}

impl ActionModel {
    /// The phase that the run is in once it has asked for this action;
    /// `None` for no action.
    pub open spec fn leads_to(self) -> Option<Phase> {
        match self {
            ActionModel::Idle => None,
            ActionModel::Offload => Some(Phase::Offloading),
            ActionModel::Acquire => Some(Phase::Acquiring),
            ActionModel::Prepare => Some(Phase::Preparing),
            ActionModel::Query => Some(Phase::Querying),
            ActionModel::Release => Some(Phase::Releasing),
            ActionModel::Resolve(_) => Some(Phase::Finished),
        }
    }
}

/// The state of a run after the first `count` of some events.
pub open spec fn state_after(state: DispatchModel, events: Seq<EventModel>, count: nat)
    -> DispatchModel
    decreases count,
{
    if count == 0 {
        state
    } else {
        state_after(state, events, (count - 1) as nat).react(events[count - 1]).0
    }
}

/// The action with which a run answers the event at place `at` of some
/// events.
pub open spec fn action_at(state: DispatchModel, events: Seq<EventModel>, at: nat)
    -> ActionModel {
    state_after(state, events, at).react(events[at as int]).1
}

/// Whenever a run asks for something, it is then in the phase that the
/// action leads to.
pub proof fn action_leads_to_its_phase(state: DispatchModel, event: EventModel)
    ensures
        state.react(event).1.leads_to() matches Some(phase) ==> state.react(event).0.phase
            == phase,
{
}

/// Over any events, however many, a run's phase never goes back.
pub proof fn phase_never_goes_back(
    state: DispatchModel,
    events: Seq<EventModel>,
    earlier: nat,
    later: nat,
)
    requires
        earlier <= later <= events.len(),
    ensures
        state_after(state, events, earlier).phase.rank() <= state_after(
            state,
            events,
            later,
        ).phase.rank(),
    decreases later,
{
    if earlier < later {
        phase_never_goes_back(state, events, earlier, (later - 1) as nat);
        phases_only_advance(state_after(state, events, (later - 1) as nat), events[later - 1]);
    }
}

/// Whatever events a run is given, and in whatever order, it asks for each
/// kind of outside work at most once: it never acquires two connections,
/// never runs the query twice, never releases twice, and never resolves
/// twice.
pub proof fn each_action_is_asked_for_at_most_once(
    state: DispatchModel,
    events: Seq<EventModel>,
    first: nat,
    second: nat,
)
    requires
        first < second < events.len(),
        !(action_at(state, events, first) is Idle),
    ensures
        action_at(state, events, second).leads_to() != action_at(state, events, first).leads_to(),
{
    let before_first = state_after(state, events, first);
    let before_second = state_after(state, events, second);
    action_leads_to_its_phase(before_first, events[first as int]);
    action_leads_to_its_phase(before_second, events[second as int]);
    phases_only_advance(before_second, events[second as int]);
    assert(state_after(state, events, first + 1) == before_first.react(events[first as int]).0);
    phase_never_goes_back(state, events, first + 1, second);
}

/// One if the run holds a connection, else zero.
pub open spec fn held_by(run: DispatchModel) -> nat {
    if run.phase.holds_connection() {
        1
    } else {
        0
    }
}

/// How many connections some runs hold between them.
pub open spec fn held_connections(runs: Seq<DispatchModel>) -> nat
    decreases runs.len(),
{
    if runs.len() == 0 {
        0
    } else {
        held_connections(runs.drop_last()) + held_by(runs.last())
    }
}

/// Replacing one run changes the count by what that run holds more or less.
pub proof fn lemma_held_connections_update(
    runs: Seq<DispatchModel>,
    at: int,
    after: DispatchModel,
)
    requires
        0 <= at < runs.len(),
    ensures
        held_connections(runs.update(at, after)) + held_by(runs[at]) == held_connections(runs)
            + held_by(after),
    decreases runs.len(),
{
    let updated = runs.update(at, after);
    if at == runs.len() - 1 {
        assert(updated.drop_last() =~= runs.drop_last());
    } else {
        lemma_held_connections_update(runs.drop_last(), at, after);
        assert(updated.drop_last() =~= runs.drop_last().update(at, after));
    }
}

/// Runs that have not begun hold nothing.
pub proof fn new_runs_hold_nothing(runs: Seq<DispatchModel>)
    requires
        forall|i: int| 0 <= i < runs.len() ==> (#[trigger] runs[i]).phase == Phase::Created,
    ensures
        held_connections(runs) == 0,
    decreases runs.len(),
{
    if runs.len() > 0 {
        assert forall|i: int| 0 <= i < runs.drop_last().len() implies (
        #[trigger] runs.drop_last()[i]).phase == Phase::Created by {
            assert(runs.drop_last()[i] == runs[i]);
        }
        new_runs_hold_nothing(runs.drop_last());
    }
}

/// However many runs go on side by side and however their events fall, they
/// never hold more connections between them than the pool's size, as long as
/// the pool keeps its own promise: it reports a connection as handed out
/// only while fewer than `max_size` are out.
pub proof fn concurrent_runs_stay_within_the_pool(
    runs: Seq<DispatchModel>,
    max_size: nat,
    at: int,
    event: EventModel,
)
    requires
        held_connections(runs) <= max_size,
        0 <= at < runs.len(),
        event is Acquired ==> held_connections(runs) < max_size,
    ensures
        held_connections(runs.update(at, runs[at].react(event).0)) <= max_size,
{
    lemma_held_connections_update(runs, at, runs[at].react(event).0);
    connection_is_taken_and_given_back(runs[at], event);
}

} // verus!
