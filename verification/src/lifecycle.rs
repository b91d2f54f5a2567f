//! The life of a node: starting, running, terminating, stopped.

use crate::broadcast::{broadcast_exit, FanOut};
use crate::peer::Envelope;
use crate::registry::lists;
use crate::walkie_talkie::WalkieTalkie;
use vstd::prelude::*;

verus! {

/// Where a node stands in its life.
#[derive(Clone, Copy, Debug, PartialEq, Eq, Structural)]
pub enum NodeState {
    /// The activities of the node are being started.
    Starting,
    /// All activities run side by side.
    Running,
    /// The exit notice is being sent to the known peers.
    Terminating,
    /// The node is over.
    Stopped,
}

/// One of the activities that a running node is made of.
#[derive(Clone, Copy, Debug, PartialEq, Eq, Structural)]
pub enum Activity {
    TcpListener,
    DiscoveryBroadcast,
    DiscoveryListener,
    ServiceDiscovery,
    Heartbeat,
    CommandLoop,
    MessageDisplay,
}

/// What happens to a node.
#[derive(Clone, Copy, Debug, PartialEq, Eq, Structural)]
pub enum NodeEvent {
    /// Every activity has been started.
    Started,
    /// The user asked to quit.
    QuitRequested,
    /// The process was told from outside to terminate.
    SignalReceived,
    /// The exit notice has been sent to every known peer.
    ExitNotified,
    /// An activity came to its end, with or without an error.
    ActivityEnded { activity: Activity, failed: bool },
}

/// What the node has to do about an event.
#[derive(Clone, Copy, Debug, PartialEq, Eq, Structural)]
pub enum NodeAction {
    /// Nothing.
    Nothing,
    /// Send the exit notice to every known peer.
    NotifyExit,
    /// End the process with this exit code.
    Halt(u8),
}

/// An event that asks the node to leave: the user's request and the signal
/// from outside are one and the same to it.
pub open spec fn asks_to_leave(event: NodeEvent) -> bool {
    event is QuitRequested || event is SignalReceived
}

/// The state that follows `state` on `event`.
pub open spec fn next_state(state: NodeState, event: NodeEvent) -> NodeState {
    match (state, event) {
        (NodeState::Starting, NodeEvent::Started) => NodeState::Running,
        (NodeState::Starting, NodeEvent::ActivityEnded { .. }) => NodeState::Stopped,
        (NodeState::Running, NodeEvent::QuitRequested) => NodeState::Terminating,
        (NodeState::Running, NodeEvent::SignalReceived) => NodeState::Terminating,
        (NodeState::Running, NodeEvent::ActivityEnded { .. }) => NodeState::Stopped,
        (NodeState::Terminating, NodeEvent::ExitNotified) => NodeState::Stopped,
        _ => state,
    }
}

/// What the node does when `event` meets it in `state`.
pub open spec fn action_on(state: NodeState, event: NodeEvent) -> NodeAction {
    match (state, event) {
        (NodeState::Starting, NodeEvent::ActivityEnded { failed, .. }) => NodeAction::Halt(
            exit_code(failed),
        ),
        (NodeState::Running, NodeEvent::QuitRequested) => NodeAction::NotifyExit,
        (NodeState::Running, NodeEvent::SignalReceived) => NodeAction::NotifyExit,
        (NodeState::Running, NodeEvent::ActivityEnded { failed, .. }) => NodeAction::Halt(
            exit_code(failed),
        ),
        (NodeState::Terminating, NodeEvent::ExitNotified) => NodeAction::Halt(0),
        _ => NodeAction::Nothing,
    }
}

/// The exit code of a process that ends because an activity did.
pub open spec fn exit_code(failed: bool) -> u8 {
    if failed {
        1
    } else {
        0
    }
}

impl NodeState {
    /// The state of a node that has just been made.
    pub fn new() -> (state: NodeState)
        ensures
            state == NodeState::Starting,
    {
        NodeState::Starting
    }

    /// Takes one event: the state that follows, and what is to be done.
    pub fn step(self, event: NodeEvent) -> (r: (NodeState, NodeAction))
        ensures
            r.0 == next_state(self, event),
            r.1 == action_on(self, event),
    {
        match (self, event) {
            (NodeState::Starting, NodeEvent::Started) => (NodeState::Running, NodeAction::Nothing),
            (NodeState::Starting, NodeEvent::ActivityEnded { failed, .. }) => (
                NodeState::Stopped,
                NodeAction::Halt(if failed { 1 } else { 0 }),
            ),
            (NodeState::Running, NodeEvent::QuitRequested) => (
                NodeState::Terminating,
                NodeAction::NotifyExit,
            ),
            (NodeState::Running, NodeEvent::SignalReceived) => (
                NodeState::Terminating,
                NodeAction::NotifyExit,
            ),
            (NodeState::Running, NodeEvent::ActivityEnded { failed, .. }) => (
                NodeState::Stopped,
                NodeAction::Halt(if failed { 1 } else { 0 }),
            ),
            (NodeState::Terminating, NodeEvent::ExitNotified) => (
                NodeState::Stopped,
                NodeAction::Halt(0),
            ),
            _ => (self, NodeAction::Nothing),
        }
    }
}

/// The exit notice that the node `wt` owes its peers when `event` meets it
/// in `state`: a fresh fan-out of it to every known peer where the node is
/// told to send one, nothing otherwise.
pub open spec fn exit_notice_owed(
    wt: WalkieTalkie,
    state: NodeState,
    event: NodeEvent,
    notice: Option<FanOut>,
) -> bool {
    match notice {
        Some(run) => {
            &&& action_on(state, event) is NotifyExit
            &&& run.wf()
            &&& run.message() == Envelope::Exit(wt.peer_id@)
            &&& lists(run.targets(), wt.peers@)
            &&& run.skipped().len() == 0
            &&& run.attempts() == 0
            &&& run.delivered() == 0
        },
        None => !(action_on(state, event) is NotifyExit),
    }
}

/// Takes the user's request to quit: the state that follows, and the exit
/// notice to send before the process ends, if one is owed.
pub fn shutdown(wt: &WalkieTalkie, state: NodeState) -> (r: (NodeState, Option<FanOut>))
    requires
        wt.wf(),
    ensures
        r.0 == next_state(state, NodeEvent::QuitRequested),
        exit_notice_owed(*wt, state, NodeEvent::QuitRequested, r.1),
{
    leave(wt, state, NodeEvent::QuitRequested)
}

/// Takes a signal to terminate: the same as the user's request to quit.
pub fn handle_signals(wt: &WalkieTalkie, state: NodeState) -> (r: (NodeState, Option<FanOut>))
    requires
        wt.wf(),
    ensures
        r.0 == next_state(state, NodeEvent::SignalReceived),
        r.0 == next_state(state, NodeEvent::QuitRequested),
        exit_notice_owed(*wt, state, NodeEvent::SignalReceived, r.1),
        exit_notice_owed(*wt, state, NodeEvent::QuitRequested, r.1),
{
    leave(wt, state, NodeEvent::SignalReceived)
}

/// The one path that both ways of leaving take.
fn leave(wt: &WalkieTalkie, state: NodeState, event: NodeEvent) -> (r: (NodeState, Option<FanOut>))
    requires
        wt.wf(),
        asks_to_leave(event),
    ensures
        r.0 == next_state(state, event),
        exit_notice_owed(*wt, state, NodeEvent::QuitRequested, r.1),
        exit_notice_owed(*wt, state, NodeEvent::SignalReceived, r.1),
{
    let (next, action) = state.step(event);
    match action {
        NodeAction::NotifyExit => (next, Some(broadcast_exit(wt))),
        _ => (next, None),
    }
}

/// A node begins to terminate only when it runs and is asked to leave, by
/// the user or by a signal, and it is then always told to send its exit
/// notice.
pub proof fn lemma_terminating_has_two_origins(state: NodeState, event: NodeEvent)
    ensures
        (next_state(state, event) is Terminating && !(state is Terminating)) <==> (state is Running
            && asks_to_leave(event)),
        action_on(state, event) is NotifyExit <==> (state is Running && asks_to_leave(event)),
{
}

/// The user's request and the signal from outside are handled alike in every
/// state.
pub proof fn lemma_quit_and_signal_agree(state: NodeState)
    ensures
        next_state(state, NodeEvent::QuitRequested) == next_state(
            state,
            NodeEvent::SignalReceived,
        ),
        action_on(state, NodeEvent::QuitRequested) == action_on(state, NodeEvent::SignalReceived),
{
}

/// A stopped node stays stopped and does nothing more; and the process is
/// halted exactly when the node comes to a stop.
pub proof fn lemma_stopped_is_final(state: NodeState, event: NodeEvent)
    ensures
        state is Stopped ==> next_state(state, event) is Stopped && action_on(state, event)
            is Nothing,
        action_on(state, event) is Halt <==> (next_state(state, event) is Stopped && !(state
            is Stopped)),
{
}

} // verus!
