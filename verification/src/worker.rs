//! The worker's life as a state machine. The driver performs each action
//! (connecting, reading, writing, computing) and reports what happened; the
//! machine decides what comes next.

use vstd::prelude::*;
use crate::error::WorkerError;

verus! {

/// Where a worker stands in its run.
#[derive(Debug, Clone, Copy, PartialEq, Eq, Structural)]
pub enum WorkerState {
    /// No connection; the next step is the first connection attempt.
    Disconnected,
    /// The first connection is being opened.
    Connecting,
    /// Connected; the work request is being sent.
    SendingRequest,
    /// The request is out; the first task is awaited.
    AwaitingTask,
    /// A task is at hand and is being computed.
    Processing,
    /// The result is ready; a fresh connection is being opened for it.
    Reconnecting,
    /// The result is being sent on the fresh connection.
    SendingResult,
    /// The result is out; the next task is awaited on the same connection.
    AwaitingNextTask,
    /// The run is over.
    Stopped,
}

/// What the driver reports to the machine.
#[derive(Debug, Clone, Copy, PartialEq, Eq, Structural)]
pub enum WorkerEvent {
    /// The driver is at the boundary of its outer loop.
    Begin,
    /// A connection was opened.
    Connected,
    /// The work request was written.
    RequestSent,
    /// A task was read and decoded.
    TaskReceived,
    /// The current task's result was computed.
    ResultComputed,
    /// The result was written.
    ResultSent,
    /// The last action failed.
    Failed(WorkerError),
}

/// What the machine asks the driver to do next.
#[derive(Debug, Clone, Copy, PartialEq, Eq, Structural)]
pub enum WorkerAction {
    /// Report `Begin`.
    Start,
    /// Open a connection to the server.
    Connect,
    /// Send the work request on the open connection.
    SendRequest,
    /// Read one task from the open connection.
    ReadTask,
    /// Compute the result of the task at hand.
    Compute,
    /// Send the computed result on the open connection.
    SendResult,
    /// Stop: the run is over.
    Halt,
}

/// The state that follows `state` when `event` arrives while the stop flag
/// reads `kill`. A failure, and any event that the state does not expect,
/// ends the run.
pub open spec fn next_state(state: WorkerState, event: WorkerEvent, kill: bool) -> WorkerState {
    match (state, event) {
        (WorkerState::Disconnected, WorkerEvent::Begin) => if kill {
            WorkerState::Stopped
        } else {
            WorkerState::Connecting
        },
        (WorkerState::Connecting, WorkerEvent::Connected) => WorkerState::SendingRequest,
        (WorkerState::SendingRequest, WorkerEvent::RequestSent) => WorkerState::AwaitingTask,
        (WorkerState::AwaitingTask, WorkerEvent::TaskReceived) => WorkerState::Processing,
        (WorkerState::Processing, WorkerEvent::ResultComputed) => WorkerState::Reconnecting,
        (WorkerState::Reconnecting, WorkerEvent::Connected) => WorkerState::SendingResult,
        (WorkerState::SendingResult, WorkerEvent::ResultSent) => WorkerState::AwaitingNextTask,
        (WorkerState::AwaitingNextTask, WorkerEvent::TaskReceived) => WorkerState::Processing,
        _ => WorkerState::Stopped,
    }
}

/// The action that a state asks of the driver.
pub open spec fn action_of(state: WorkerState) -> WorkerAction {
    match state {
        WorkerState::Disconnected => WorkerAction::Start,
        WorkerState::Connecting => WorkerAction::Connect,
        WorkerState::SendingRequest => WorkerAction::SendRequest,
        WorkerState::AwaitingTask => WorkerAction::ReadTask,
        WorkerState::Processing => WorkerAction::Compute,
        WorkerState::Reconnecting => WorkerAction::Connect,
        WorkerState::SendingResult => WorkerAction::SendResult,
        WorkerState::AwaitingNextTask => WorkerAction::ReadTask,
        WorkerState::Stopped => WorkerAction::Halt,
    }
}

/// The failure on record after `event` arrived in `state`: the reported
/// failure if the run was still going, else what was on record before.
pub open spec fn next_failure(
    state: WorkerState,
    event: WorkerEvent,
    failure: Option<WorkerError>,
) -> Option<WorkerError> {
    match event {
        WorkerEvent::Failed(e) => if state == WorkerState::Stopped {
            failure
        } else {
            Some(e)
        },
        _ => failure,
    }
}

/// A worker: where it connects, under which name, and how far its run is.
#[derive(Debug)]
pub struct Worker {
    /// Address or host name of the server.
    pub server_address: String,
    /// Name under which the worker announces itself.
    pub connection_name: String,
    /// Port on which the server listens.
    pub default_port: u16,
    /// Set by a stop request; read only before the first connection attempt.
    pub kill_connection: bool,
    /// Where the run stands.
    pub state: WorkerState,
    /// The failure that ended the run, if one did.
    pub failure: Option<WorkerError>,
}

impl Worker {
    /// A worker that has not connected yet and was not asked to stop.
    pub fn new(server_address: String, connection_name: String, default_port: u16) -> (w: Worker)
        ensures
            w.server_address == server_address,
            w.connection_name == connection_name,
            w.default_port == default_port,
            !w.kill_connection,
            w.state == WorkerState::Disconnected,
            w.failure.is_none(),
    {
        Worker {
            server_address,
            connection_name,
            default_port,
            kill_connection: false,
            state: WorkerState::Disconnected,
            failure: None,
        }
    }

    /// Takes in what the driver reports and returns what it is to do next.
    /// The state moves as `next_state` says, a reported failure is put on
    /// record, and nothing else changes.
    pub fn step(&mut self, event: WorkerEvent) -> (action: WorkerAction)
        ensures
            final(self).state == next_state(old(self).state, event, old(self).kill_connection),
            final(self).failure == next_failure(old(self).state, event, old(self).failure),
            action == action_of(final(self).state),
            final(self).server_address == old(self).server_address,
            final(self).connection_name == old(self).connection_name,
            final(self).default_port == old(self).default_port,
            final(self).kill_connection == old(self).kill_connection,
    {
        let next = match (self.state, event) {
            (WorkerState::Disconnected, WorkerEvent::Begin) => {
                if self.kill_connection {
                    WorkerState::Stopped
                } else {
                    WorkerState::Connecting
                }
            },
            (WorkerState::Connecting, WorkerEvent::Connected) => WorkerState::SendingRequest,
            (WorkerState::SendingRequest, WorkerEvent::RequestSent) => WorkerState::AwaitingTask,
            (WorkerState::AwaitingTask, WorkerEvent::TaskReceived) => WorkerState::Processing,
            (WorkerState::Processing, WorkerEvent::ResultComputed) => WorkerState::Reconnecting,
            (WorkerState::Reconnecting, WorkerEvent::Connected) => WorkerState::SendingResult,
            (WorkerState::SendingResult, WorkerEvent::ResultSent) => WorkerState::AwaitingNextTask,
            (WorkerState::AwaitingNextTask, WorkerEvent::TaskReceived) => WorkerState::Processing,
            _ => WorkerState::Stopped,
        };
        if let WorkerEvent::Failed(e) = event {
            if self.state != WorkerState::Stopped {
                self.failure = Some(e);
            }
        }
        self.state = next;
        Worker::action_for(next)
    }

    /// The action that a state asks of the driver.
    pub fn action_for(state: WorkerState) -> (action: WorkerAction)
        ensures
            action == action_of(state),
    {
        match state {
            WorkerState::Disconnected => WorkerAction::Start,
            WorkerState::Connecting => WorkerAction::Connect,
            WorkerState::SendingRequest => WorkerAction::SendRequest,
            WorkerState::AwaitingTask => WorkerAction::ReadTask,
            WorkerState::Processing => WorkerAction::Compute,
            WorkerState::Reconnecting => WorkerAction::Connect,
            WorkerState::SendingResult => WorkerAction::SendResult,
            WorkerState::AwaitingNextTask => WorkerAction::ReadTask,
            WorkerState::Stopped => WorkerAction::Halt,
        }
    }

    /// Asks the worker to stop. The request takes effect the next time the
    /// worker stands before a first connection attempt; a run that is under
    /// way is not interrupted.
    pub fn stop(&mut self)
        ensures
            final(self).kill_connection,
            final(self).state == old(self).state,
            final(self).failure == old(self).failure,
            final(self).server_address == old(self).server_address,
            final(self).connection_name == old(self).connection_name,
            final(self).default_port == old(self).default_port,
    {
        self.kill_connection = true;
    }

    /// Tells whether the run is over.
    pub fn is_stopped(&self) -> (b: bool)
        ensures
            b == (self.state == WorkerState::Stopped),
    {
        self.state == WorkerState::Stopped
    }
}

/// Once stopped, a worker stays stopped whatever is reported.
pub proof fn lemma_stopped_is_terminal(event: WorkerEvent, kill: bool)
    ensures
        next_state(WorkerState::Stopped, event, kill) == WorkerState::Stopped,
{
}

/// A failure ends the run from every state.
pub proof fn lemma_failure_stops(state: WorkerState, error: WorkerError, kill: bool)
    ensures
        next_state(state, WorkerEvent::Failed(error), kill) == WorkerState::Stopped,
{
}

/// The stop flag is read only before the first connection attempt: in every
/// other situation the run goes on as if the flag were not there.
pub proof fn lemma_stop_is_coarse(state: WorkerState, event: WorkerEvent)
    requires
        !(state == WorkerState::Disconnected && event == WorkerEvent::Begin),
    ensures
        next_state(state, event, true) == next_state(state, event, false),
{
}

/// One task is in flight at a time: a task is read only right after the
/// request or a result went out, and a result is sent only right after a
/// fresh connection was opened for a computed task.
pub proof fn lemma_one_task_in_flight(state: WorkerState, event: WorkerEvent, kill: bool)
    ensures
        action_of(next_state(state, event, kill)) == WorkerAction::ReadTask ==> (state
            == WorkerState::SendingRequest && event == WorkerEvent::RequestSent) || (state
            == WorkerState::SendingResult && event == WorkerEvent::ResultSent),
        action_of(next_state(state, event, kill)) == WorkerAction::SendResult ==> state
            == WorkerState::Reconnecting && event == WorkerEvent::Connected,
        action_of(next_state(state, event, kill)) == WorkerAction::SendRequest ==> state
            == WorkerState::Connecting && event == WorkerEvent::Connected,
{
}

} // verus!
