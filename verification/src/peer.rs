//! Peer records, chat messages and the envelope that carries them.

use crate::address::IpAddress;
use crate::text::{lemma_blank_iff_trimmed_empty, is_blank, str_is_blank, trimmed};
use vstd::prelude::*;
use vstd::string::StrSliceExecFns;

verus! {

/// The longest display name, in characters, that a peer may carry.
pub const MAX_NAME_CHARS: usize = 64;

/// What is known of one peer: who it is and where it listens.
#[derive(Debug)]
pub struct PeerInfo {
    pub id: String,
    pub name: String,
    pub ip: IpAddress,
    pub port: u16,
}

/// A peer record as a mathematical value.
pub struct PeerRecord {
    pub id: Seq<char>,
    pub name: Seq<char>,
    pub ip: IpAddress,
    pub port: u16,
}

/// The admission predicate: only records that pass it are ever stored or
/// written to.
pub open spec fn admissible(r: PeerRecord) -> bool {
    &&& trimmed(r.id).len() > 0
    &&& trimmed(r.name).len() > 0
    &&& r.name.len() <= MAX_NAME_CHARS
    &&& r.port > 0
    &&& !r.ip.loopback()
    &&& !r.ip.multicast()
}

impl View for PeerInfo {
    type V = PeerRecord;

    open spec fn view(&self) -> PeerRecord {
        PeerRecord { id: self.id@, name: self.name@, ip: self.ip, port: self.port }
    }
}

impl Clone for PeerInfo {
    fn clone(&self) -> (r: Self)
        ensures
            r@ == self@,
    {
        PeerInfo { id: self.id.clone(), name: self.name.clone(), ip: self.ip, port: self.port }
    }
}

impl PeerInfo {
    /// Applies the admission predicate to this record.
    pub fn is_valid(&self) -> (r: bool)
        ensures
            r == admissible(self@),
    {
        proof {
            lemma_blank_iff_trimmed_empty(self.id@);
            lemma_blank_iff_trimmed_empty(self.name@);
        }
        !str_is_blank(self.id.as_str()) && !str_is_blank(self.name.as_str())
            && self.name.as_str().unicode_len() <= MAX_NAME_CHARS && self.port > 0
            && !self.ip.is_loopback() && !self.ip.is_multicast()
    }
}

/// With an identity that is not blank and a name of at most 64 characters, a
/// record is refused exactly when its name is blank, its port is 0, or its
/// address is a loopback or a multicast address.
pub proof fn lemma_admission(r: PeerRecord)
    requires
        !is_blank(r.id),
        r.name.len() <= MAX_NAME_CHARS,
    ensures
        admissible(r) <==> !(is_blank(r.name) || r.port == 0 || r.ip.loopback()
            || r.ip.multicast()),
{
    lemma_blank_iff_trimmed_empty(r.id);
    lemma_blank_iff_trimmed_empty(r.name);
}

/// A record is never admitted with a blank identity, a blank or overlong
/// name, port 0, or a loopback or multicast address.
pub proof fn lemma_refused(r: PeerRecord)
    requires
        is_blank(r.id) || is_blank(r.name) || r.name.len() > MAX_NAME_CHARS || r.port == 0
            || r.ip.loopback() || r.ip.multicast(),
    ensures
        !admissible(r),
{
    lemma_blank_iff_trimmed_empty(r.id);
    lemma_blank_iff_trimmed_empty(r.name);
}

/// One chat message.
#[derive(Debug)]
pub struct Message {
    pub from_id: String,
    pub from_name: String,
    pub content: String,
    pub timestamp: u64,
}

/// A chat message as a mathematical value.
pub struct ChatText {
    pub from_id: Seq<char>,
    pub from_name: Seq<char>,
    pub content: Seq<char>,
    pub timestamp: u64,
}

impl View for Message {
    type V = ChatText;

    open spec fn view(&self) -> ChatText {
        ChatText {
            from_id: self.from_id@,
            from_name: self.from_name@,
            content: self.content@,
            timestamp: self.timestamp,
        }
    }
}

impl Clone for Message {
    fn clone(&self) -> (r: Self)
        ensures
            r@ == self@,
    {
        Message {
            from_id: self.from_id.clone(),
            from_name: self.from_name.clone(),
            content: self.content.clone(),
            timestamp: self.timestamp,
        }
    }
}

/// The only values that nodes exchange.
#[derive(Debug)]
pub enum NetworkMessage {
    /// A node announces its own record.
    Discovery(PeerInfo),
    /// A chat message.
    Chat(Message),
    /// A node, named by its identity, says that it is alive.
    Heartbeat(String),
    /// A node, named by its identity, says that it is leaving.
    Exit(String),
}

/// An envelope as a mathematical value.
pub enum Envelope {
    Discovery(PeerRecord),
    Chat(ChatText),
    Heartbeat(Seq<char>),
    Exit(Seq<char>),
}

impl View for NetworkMessage {
    type V = Envelope;

    open spec fn view(&self) -> Envelope {
        match self {
            NetworkMessage::Discovery(p) => Envelope::Discovery(p@),
            NetworkMessage::Chat(m) => Envelope::Chat(m@),
            NetworkMessage::Heartbeat(id) => Envelope::Heartbeat(id@),
            NetworkMessage::Exit(id) => Envelope::Exit(id@),
        }
    }
}

impl Clone for NetworkMessage {
    fn clone(&self) -> (r: Self)
        ensures
            r@ == self@,
    {
        match self {
            NetworkMessage::Discovery(p) => NetworkMessage::Discovery(p.clone()),
            NetworkMessage::Chat(m) => NetworkMessage::Chat(m.clone()),
            NetworkMessage::Heartbeat(id) => NetworkMessage::Heartbeat(id.clone()),
            NetworkMessage::Exit(id) => NetworkMessage::Exit(id.clone()),
        }
    }
}

} // verus!
