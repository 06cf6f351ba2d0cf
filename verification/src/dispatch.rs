//! One run of a query, as a state machine.
//!
//! A dispatcher does its outside work in steps: it may hand the work to a
//! blocking executor, it acquires a connection, it may prepare the statement,
//! it runs the query, it gives the connection back, and it resolves. A
//! [`Dispatch`] decides the order. The program around it performs each
//! [`Action`] and reports what came of it as an [`Event`]; the run answers
//! with the next action.

use crate::conversion::{row_models, rows_json, CellModel, IntoJson, Row};
use crate::error::Error;
use crate::json::{JsonModel, JsonValue};
use vstd::prelude::*;

verus! {

/// How a dispatcher does its work.
#[derive(Debug, Clone, Copy, PartialEq, Eq, Structural)]
pub enum Strategy {
    /// On the caller's thread, from a blocking pool.
    Synchronous,
    /// On a blocking executor's thread, from a blocking pool.
    Threaded,
    /// On the event loop, from a non-blocking pool.
    Asynchronous,
}

/// Where a run stands.
#[derive(Debug, Clone, Copy, PartialEq, Eq, Structural)]
pub enum Phase {
    /// Nothing has been asked for yet.
    Created,
    /// The blocking executor has been asked to take the work.
    Offloading,
    /// A connection has been asked for.
    Acquiring,
    /// A connection is held and the statement is being prepared.
    Preparing,
    /// A connection is held and the query is running.
    Querying,
    /// The connection is on its way back to the pool.
    Releasing,
    /// The run is over.
    Finished,
}

/// What the program around the run reports.
#[derive(Debug)]
pub enum Event {
    /// The run was asked to begin.
    Started,
    /// The blocking executor took the work.
    Offloaded,
    /// The blocking executor refused the work.
    Rejected,
    /// The pool handed out a connection.
    Acquired,
    /// The pool handed out none: it is exhausted, timed out or shut down.
    PoolFailed,
    /// The statement was prepared.
    Prepared,
    /// The driver failed to prepare the statement or to run the query.
    DriverFailed,
    /// The query ran, and these are its rows in the driver's order.
    Rows(Vec<Row>),
    /// The connection is back in the pool, or destroyed.
    Released,
    /// The caller dropped the handle of the run.
    Dropped,
}

/// What the run asks the program around it to do next.
#[derive(Debug)]
pub enum Action {
    /// Nothing.
    Idle,
    /// Hand the work to the blocking executor.
    Offload,
    /// Ask the pool for a connection.
    Acquire,
    /// Prepare the query text as a statement.
    Prepare,
    /// Run the query, once.
    Query,
    /// Abort what is pending on the connection and give it back to the pool.
    Release,
    /// Hand this result to the caller.
    Resolve(Result<JsonValue, Error>),
}

/// The model of an event.
pub enum EventModel {
    Started,
    Offloaded,
    Rejected,
    Acquired,
    PoolFailed,
    Prepared,
    DriverFailed,
    Rows(Seq<Seq<CellModel>>),
    Released,
    Dropped,
}

/// The model of an action.
pub enum ActionModel {
    Idle,
    Offload,
    Acquire,
    Prepare,
    Query,
    Release,
    Resolve(Result<JsonModel, Error>),
}

/// The model of a run.
pub struct DispatchModel {
    pub strategy: Strategy,
    pub phase: Phase,
    /// The caller has dropped the handle: nothing will be resolved.
    pub cancelled: bool,
    pub query: Seq<char>,
    /// The result that waits for the connection to be released.
    pub outcome: Option<Result<JsonModel, Error>>,
}

/// One run of a query by a dispatcher.
#[derive(Debug)]
pub struct Dispatch {
    strategy: Strategy,
    phase: Phase,
    cancelled: bool,
    query: String,
    outcome: Option<Result<JsonValue, Error>>,
}

/// The model of a result.
pub open spec fn outcome_model(outcome: Result<JsonValue, Error>) -> Result<JsonModel, Error> {
    match outcome {
        Ok(json) => Ok(json@),
        Err(error) => Err(error),
    }
}

/// The result of a query that returned these rows: their JSON array, or
/// `Error::Decode` where a cell cannot be decoded.
pub open spec fn rows_outcome(rows: Seq<Seq<CellModel>>) -> Result<JsonModel, Error> {
    match rows_json(rows) {
        Some(json) => Ok(json),
        None => Err(Error::Decode),
    }
}

impl View for Event {
    type V = EventModel;

    open spec fn view(&self) -> EventModel {
        match self {
            Event::Started => EventModel::Started,
            Event::Offloaded => EventModel::Offloaded,
            Event::Rejected => EventModel::Rejected,
            Event::Acquired => EventModel::Acquired,
            Event::PoolFailed => EventModel::PoolFailed,
            Event::Prepared => EventModel::Prepared,
            Event::DriverFailed => EventModel::DriverFailed,
            Event::Rows(rows) => EventModel::Rows(row_models(rows@)),
            Event::Released => EventModel::Released,
            Event::Dropped => EventModel::Dropped,
        }
    }
}

impl View for Action {
    type V = ActionModel;

    open spec fn view(&self) -> ActionModel {
        match self {
            Action::Idle => ActionModel::Idle,
            Action::Offload => ActionModel::Offload,
            Action::Acquire => ActionModel::Acquire,
            Action::Prepare => ActionModel::Prepare,
            Action::Query => ActionModel::Query,
            Action::Release => ActionModel::Release,
            Action::Resolve(outcome) => ActionModel::Resolve(outcome_model(*outcome)),
        }
    }
}

impl Phase {
    /// How far a phase is along the way of a run.
    pub open spec fn rank(self) -> nat {
        match self {
            Phase::Created => 0,
            Phase::Offloading => 1,
            Phase::Acquiring => 2,
            Phase::Preparing => 3,
            Phase::Querying => 4,
            Phase::Releasing => 5,
            Phase::Finished => 6,
        }
    }

    /// Whether the run holds a connection in this phase.
    pub open spec fn holds_connection(self) -> bool {
        self == Phase::Preparing || self == Phase::Querying || self == Phase::Releasing
    }
}

impl DispatchModel {
    /// A run that has not begun.
    pub open spec fn initial(strategy: Strategy, query: Seq<char>) -> DispatchModel {
        DispatchModel { strategy, phase: Phase::Created, cancelled: false, query, outcome: None }
    }

    /// A result waits exactly while the connection of a run that will still
    /// resolve is on its way back.
    pub open spec fn well_formed(self) -> bool {
        self.outcome is Some <==> self.phase == Phase::Releasing && !self.cancelled
    }

    /// The run is over, with `outcome` for the caller unless the caller is
    /// gone.
    pub open spec fn finish(self, outcome: Result<JsonModel, Error>) -> (
        DispatchModel,
        ActionModel,
    ) {
        (
            DispatchModel { phase: Phase::Finished, outcome: None, ..self },
            if self.cancelled {
                ActionModel::Idle
            } else {
                ActionModel::Resolve(outcome)
            },
        )
    }

    /// The connection goes back, and `outcome` waits until it is there.
    pub open spec fn release(self, outcome: Result<JsonModel, Error>) -> (
        DispatchModel,
        ActionModel,
    ) {
        (
            DispatchModel {
                phase: Phase::Releasing,
                outcome: if self.cancelled {
                    None
                } else {
                    Some(outcome)
                },
                ..self
            },
            ActionModel::Release,
        )
    }

    /// The caller dropped the handle. A synchronous run is over before its
    /// handle exists, so nothing changes. A threaded run cannot be stopped
    /// once it has begun: it goes on, and its result is thrown away. An
    /// asynchronous run stops: what it holds goes back at once.
    pub open spec fn dropped(self) -> (DispatchModel, ActionModel) {
        let gone = DispatchModel { cancelled: true, outcome: None, ..self };
        if self.phase == Phase::Finished || self.strategy == Strategy::Synchronous {
            (self, ActionModel::Idle)
        } else if self.phase == Phase::Created {
            (DispatchModel { phase: Phase::Finished, ..gone }, ActionModel::Idle)
        } else if self.strategy == Strategy::Threaded || self.phase == Phase::Releasing {
            (gone, ActionModel::Idle)
        } else if self.phase.holds_connection() {
            (DispatchModel { phase: Phase::Releasing, ..gone }, ActionModel::Release)
        } else {
            (DispatchModel { phase: Phase::Finished, ..gone }, ActionModel::Idle)
        }
    }

    /// The state after an event, and the action that the run asks for. An
    /// event that the phase does not wait for changes nothing.
    pub open spec fn react(self, event: EventModel) -> (DispatchModel, ActionModel) {
        match (self.phase, event) {
            (_, EventModel::Dropped) => self.dropped(),
            (Phase::Created, EventModel::Started) => if self.strategy == Strategy::Threaded {
                (DispatchModel { phase: Phase::Offloading, ..self }, ActionModel::Offload)
            } else {
                (DispatchModel { phase: Phase::Acquiring, ..self }, ActionModel::Acquire)
            },
            (Phase::Offloading, EventModel::Offloaded) => (
                DispatchModel { phase: Phase::Acquiring, ..self },
                ActionModel::Acquire,
            ),
            (Phase::Offloading, EventModel::Rejected) => self.finish(Err(Error::Blocking)),
            (Phase::Acquiring, EventModel::Acquired) => if self.strategy
                == Strategy::Asynchronous {
                (DispatchModel { phase: Phase::Preparing, ..self }, ActionModel::Prepare)
            } else {
                (DispatchModel { phase: Phase::Querying, ..self }, ActionModel::Query)
            },
            (Phase::Acquiring, EventModel::PoolFailed) => self.finish(Err(Error::Pool)),
            (Phase::Preparing, EventModel::Prepared) => (
                DispatchModel { phase: Phase::Querying, ..self },
                ActionModel::Query,
            ),
            (Phase::Preparing, EventModel::DriverFailed) => self.release(Err(Error::Driver)),
            (Phase::Querying, EventModel::DriverFailed) => self.release(Err(Error::Driver)),
            (Phase::Querying, EventModel::Rows(rows)) => self.release(rows_outcome(rows)),
            (Phase::Releasing, EventModel::Released) => match self.outcome {
                Some(outcome) => self.finish(outcome),
                None => (DispatchModel { phase: Phase::Finished, ..self }, ActionModel::Idle),
            },
            _ => (self, ActionModel::Idle),
        }
    }
}

impl View for Dispatch {
    type V = DispatchModel;

    closed spec fn view(&self) -> DispatchModel {
        DispatchModel {
            strategy: self.strategy,
            phase: self.phase,
            cancelled: self.cancelled,
            query: self.query@,
            outcome: match self.outcome {
                Some(outcome) => Some(outcome_model(outcome)),
                None => None,
            },
        }
    }
}

impl Dispatch {
    /// A run of `query` that has not begun.
    pub fn new(strategy: Strategy, query: String) -> (run: Dispatch)
        ensures
            run@ == DispatchModel::initial(strategy, query@),
            run@.well_formed(),
    {
        Dispatch { strategy, phase: Phase::Created, cancelled: false, query, outcome: None }
    }

    pub fn strategy(&self) -> (strategy: Strategy)
        ensures
            strategy == self@.strategy,
    {
        self.strategy
    }

    pub fn phase(&self) -> (phase: Phase)
        ensures
            phase == self@.phase,
    {
        self.phase
    }

    /// The query text that the run prepares and runs.
    pub fn query(&self) -> (query: &str)
        ensures
            query@ == self@.query,
    {
        self.query.as_str()
    }

    /// Whether the caller has dropped the handle.
    pub fn is_cancelled(&self) -> (cancelled: bool)
        ensures
            cancelled == self@.cancelled,
    {
        self.cancelled
    }

    /// Whether the run is over.
    pub fn is_finished(&self) -> (finished: bool)
        ensures
            finished == (self@.phase == Phase::Finished),
    {
        match self.phase {
            Phase::Finished => true,
            _ => false,
        }
    }

    /// Whether the run holds a connection.
    pub fn holds_connection(&self) -> (held: bool)
        ensures
            held == self@.phase.holds_connection(),
    {
        match self.phase {
            Phase::Preparing | Phase::Querying | Phase::Releasing => true,
            _ => false,
        }
    }

    /// The run is over, with `outcome` for the caller unless the caller is
    /// gone.
    fn finish(&mut self, outcome: Result<JsonValue, Error>) -> (action: Action)
        ensures
            (final(self)@, action@) == old(self)@.finish(outcome_model(outcome)),
    {
        self.phase = Phase::Finished;
        self.outcome = None;
        if self.cancelled {
            Action::Idle
        } else {
            Action::Resolve(outcome)
        }
    }

    /// The connection goes back, and `outcome` waits until it is there.
    fn release(&mut self, outcome: Result<JsonValue, Error>) -> (action: Action)
        ensures
            (final(self)@, action@) == old(self)@.release(outcome_model(outcome)),
    {
        self.phase = Phase::Releasing;
        self.outcome = if self.cancelled {
            None
        } else {
            Some(outcome)
        };
        Action::Release
    }

    /// The caller dropped the handle.
    fn dropped(&mut self) -> (action: Action)
        ensures
            (final(self)@, action@) == old(self)@.dropped(),
    {
        match (self.phase, self.strategy) {
            (Phase::Finished, _) => Action::Idle,
            (_, Strategy::Synchronous) => Action::Idle,
            (Phase::Created, _) => {
                self.cancelled = true;
                self.outcome = None;
                self.phase = Phase::Finished;
                Action::Idle
            },
            (_, Strategy::Threaded) => {
                self.cancelled = true;
                self.outcome = None;
                Action::Idle
            },
            (Phase::Releasing, _) => {
                self.cancelled = true;
                self.outcome = None;
                Action::Idle
            },
            (Phase::Preparing, _) | (Phase::Querying, _) => {
                self.cancelled = true;
                self.outcome = None;
                self.phase = Phase::Releasing;
                Action::Release
            },
            _ => {
                self.cancelled = true;
                self.outcome = None;
                self.phase = Phase::Finished;
                Action::Idle
            },
        }
    }

    /// Takes an event and answers with the next action.
    ///
    /// The run moves as [`DispatchModel::react`] says: it asks for each piece
    /// of outside work in turn, turns the rows of the query into JSON, maps
    /// each failure to its error, gives the connection back before it
    /// resolves, and resolves at most once.
    pub fn step(&mut self, event: Event) -> (action: Action)
        ensures
            (final(self)@, action@) == old(self)@.react(event@),
            old(self)@.well_formed() ==> final(self)@.well_formed(),
    {
        match (self.phase, event) {
            (_, Event::Dropped) => self.dropped(),
            (Phase::Created, Event::Started) => match self.strategy {
                Strategy::Threaded => {
                    self.phase = Phase::Offloading;
                    Action::Offload
                },
                _ => {
                    self.phase = Phase::Acquiring;
                    Action::Acquire
                },
            },
            (Phase::Offloading, Event::Offloaded) => {
                self.phase = Phase::Acquiring;
                Action::Acquire
            },
            (Phase::Offloading, Event::Rejected) => self.finish(Err(Error::Blocking)),
            (Phase::Acquiring, Event::Acquired) => match self.strategy {
                Strategy::Asynchronous => {
                    self.phase = Phase::Preparing;
                    Action::Prepare
                },
                _ => {
                    self.phase = Phase::Querying;
                    Action::Query
                },
            },
            (Phase::Acquiring, Event::PoolFailed) => self.finish(Err(Error::Pool)),
            (Phase::Preparing, Event::Prepared) => {
                self.phase = Phase::Querying;
                Action::Query
            },
            (Phase::Preparing, Event::DriverFailed) => self.release(Err(Error::Driver)),
            (Phase::Querying, Event::DriverFailed) => self.release(Err(Error::Driver)),
            (Phase::Querying, Event::Rows(rows)) => {
                let outcome = rows.into_json();
                self.release(outcome)
            },
            (Phase::Releasing, Event::Released) => match self.outcome.take() {
                Some(outcome) => self.finish(outcome),
                None => {
                    self.phase = Phase::Finished;
                    Action::Idle
                },
            },
            _ => Action::Idle,
        }
    }
}

} // verus!
