//! Direct connections: what the listener does about the sockets it is given,
//! and what a connection handler does about what it reads.

use crate::peer::{ChatText, Envelope, NetworkMessage, PeerInfo, PeerRecord};
use crate::registry::Registry;
use vstd::prelude::*;
use vstd::string::StringExecFns;

verus! {

/// The most bytes that are taken from a connection in one read. An envelope
/// that does not fit is cut and fails to decode.
pub const READ_BUFFER_LEN: usize = 1024;

/// What happened at the listening socket.
#[derive(Clone, Copy, Debug, PartialEq, Eq, Structural)]
pub enum ListenerEvent {
    /// The port was bound.
    Bound,
    /// The port could not be bound.
    BindFailed,
    /// A connection was accepted.
    Accepted,
    /// Accepting a connection failed.
    AcceptFailed,
}

/// What the listener does next.
#[derive(Clone, Copy, Debug, PartialEq, Eq, Structural)]
pub enum ListenerStep {
    /// Wait for the next connection.
    Accept,
    /// Hand the connection to a handler that runs on its own, then wait for
    /// the next.
    Serve,
    /// Give up: the node cannot go on without its listener.
    Fail,
}

/// What the listener does about an event.
pub open spec fn listener_step(event: ListenerEvent) -> ListenerStep {
    match event {
        ListenerEvent::Bound => ListenerStep::Accept,
        ListenerEvent::Accepted => ListenerStep::Serve,
        ListenerEvent::BindFailed => ListenerStep::Fail,
        ListenerEvent::AcceptFailed => ListenerStep::Fail,
    }
}

/// Decides what the listener does about an event at its socket.
pub fn start_tcp_listener(event: ListenerEvent) -> (step: ListenerStep)
    ensures
        step == listener_step(event),
{
    match event {
        ListenerEvent::Bound => ListenerStep::Accept,
        ListenerEvent::Accepted => ListenerStep::Serve,
        ListenerEvent::BindFailed => ListenerStep::Fail,
        ListenerEvent::AcceptFailed => ListenerStep::Fail,
    }
}

/// What one attempt to read from a connection gave.
#[derive(Debug)]
pub enum ReadEvent {
    /// Nothing was read: the other side closed the connection.
    Closed,
    /// Bytes were read. `Some` holds the envelope that they decode to, `None`
    /// stands for bytes that are no envelope.
    Chunk(Option<NetworkMessage>),
    /// Nothing is there to read yet.
    WouldBlock,
    /// The read failed in any other way.
    Failed,
}

/// A read event as a mathematical value.
pub enum ReadEventView {
    Closed,
    Chunk(Option<Envelope>),
    WouldBlock,
    Failed,
}

impl View for ReadEvent {
    type V = ReadEventView;

    open spec fn view(&self) -> ReadEventView {
        match self {
            ReadEvent::Closed => ReadEventView::Closed,
            ReadEvent::Chunk(Some(m)) => ReadEventView::Chunk(Some(m@)),
            ReadEvent::Chunk(None) => ReadEventView::Chunk(None),
            ReadEvent::WouldBlock => ReadEventView::WouldBlock,
            ReadEvent::Failed => ReadEventView::Failed,
        }
    }
}

/// What a connection handler does next. Nothing is ever written back.
#[derive(Debug)]
pub enum ConnectionStep {
    /// Stop reading and drop the connection.
    Close,
    /// Read again.
    Continue,
    /// Publish this line on the message bus, then read again.
    Publish(String),
    /// Tell the user that this peer left, then read again.
    PeerLeft(PeerInfo),
}

/// A step as a mathematical value.
pub enum ConnectionStepView {
    Close,
    Continue,
    Publish(Seq<char>),
    PeerLeft(PeerRecord),
}

impl View for ConnectionStep {
    type V = ConnectionStepView;

    open spec fn view(&self) -> ConnectionStepView {
        match self {
            ConnectionStep::Close => ConnectionStepView::Close,
            ConnectionStep::Continue => ConnectionStepView::Continue,
            ConnectionStep::Publish(line) => ConnectionStepView::Publish(line@),
            ConnectionStep::PeerLeft(peer) => ConnectionStepView::PeerLeft(peer@),
        }
    }
}

/// The line that shows a chat message: the sender's name, " says: ", the
/// text.
pub open spec fn display_line(m: ChatText) -> Seq<char> {
    m.from_name + " says: "@ + m.content
}

/// The registry after a read, by the one before: only an exit notice changes
/// it.
pub open spec fn peers_after_read(
    peers: Map<Seq<char>, PeerRecord>,
    event: ReadEventView,
) -> Map<Seq<char>, PeerRecord> {
    match event {
        ReadEventView::Chunk(Some(Envelope::Exit(id))) => peers.remove(id),
        _ => peers,
    }
}

/// What a handler does about a read.
pub open spec fn step_after_read(
    peers: Map<Seq<char>, PeerRecord>,
    event: ReadEventView,
) -> ConnectionStepView {
    match event {
        ReadEventView::Closed => ConnectionStepView::Close,
        ReadEventView::Failed => ConnectionStepView::Close,
        ReadEventView::WouldBlock => ConnectionStepView::Continue,
        ReadEventView::Chunk(Some(Envelope::Chat(m))) => ConnectionStepView::Publish(
            display_line(m),
        ),
        ReadEventView::Chunk(Some(Envelope::Exit(id))) => if peers.contains_key(id) {
            ConnectionStepView::PeerLeft(peers[id])
        } else {
            ConnectionStepView::Continue
        },
        ReadEventView::Chunk(_) => ConnectionStepView::Continue,
    }
}

/// Formats a chat message for display.
pub fn format_chat(from_name: &String, content: &String) -> (line: String)
    ensures
        line@ == from_name@ + " says: "@ + content@,
{
    from_name.clone().concat(" says: ").concat(content.as_str())
}

/// Decides what the handler of one connection does about one read, and
/// applies an exit notice to the registry.
pub fn handle_tcp_connection(peers: &mut Registry, event: ReadEvent) -> (step: ConnectionStep)
    requires
        old(peers).wf(),
    ensures
        final(peers).wf(),
        final(peers).local_id() == old(peers).local_id(),
        final(peers)@ == peers_after_read(old(peers)@, event@),
        step@ == step_after_read(old(peers)@, event@),
{
    match event {
        ReadEvent::Closed => ConnectionStep::Close,
        ReadEvent::Failed => ConnectionStep::Close,
        ReadEvent::WouldBlock => ConnectionStep::Continue,
        ReadEvent::Chunk(Some(NetworkMessage::Chat(message))) => ConnectionStep::Publish(
            format_chat(&message.from_name, &message.content),
        ),
        ReadEvent::Chunk(Some(NetworkMessage::Exit(id))) => match peers.remove(&id) {
            Some(peer) => ConnectionStep::PeerLeft(peer),
            None => ConnectionStep::Continue,
        },
        ReadEvent::Chunk(_) => ConnectionStep::Continue,
    }
}

/// A handler stops on exactly two events: the connection was closed, or a
/// read failed otherwise than by having nothing to read. Bytes that are no
/// envelope change nothing and keep the connection open.
pub proof fn lemma_connection_stays_open(peers: Map<Seq<char>, PeerRecord>, event: ReadEventView)
    ensures
        step_after_read(peers, event) is Close <==> (event is Closed || event is Failed),
        event == ReadEventView::Chunk(None) ==> peers_after_read(peers, event) == peers
            && step_after_read(peers, event) is Continue,
{
}

} // verus!
