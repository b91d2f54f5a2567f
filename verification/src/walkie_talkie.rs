//! The node itself: its identity, its display name, its port and the peers
//! it knows.

use crate::address::IpAddress;
use crate::peer::{
    admissible, ChatText, Envelope, Message, NetworkMessage, PeerInfo, PeerRecord, MAX_NAME_CHARS,
};
use crate::registry::Registry;
use crate::text::{
    byte_len, is_blank, is_whitespace, lemma_blank_iff_trimmed_empty, lemma_byte_len_covers_chars,
    lemma_trimmed_idempotent, str_byte_len, trim, trimmed,
};
use vstd::prelude::*;
use vstd::string::StrSliceExecFns;

verus! {

/// The port a node listens on when it is asked for port 0.
pub const DEFAULT_PORT: u16 = 8080;

/// The longest name, in bytes of UTF-8, that a node keeps for itself.
pub const MAX_OWN_NAME_BYTES: usize = 64;

/// A lower-case hexadecimal digit.
pub open spec fn is_lower_hex(c: char) -> bool {
    ('0' <= c <= '9') || ('a' <= c <= 'f')
}

/// The shape of a node identity: 36 characters, hyphens at 8, 13, 18 and 23,
/// lower-case hexadecimal digits everywhere else.
pub open spec fn is_identity(s: Seq<char>) -> bool {
    &&& s.len() == 36
    &&& forall|i: int|
        0 <= i < 36 ==> if i == 8 || i == 13 || i == 18 || i == 23 {
            #[trigger] s[i] == '-'
        } else {
            is_lower_hex(#[trigger] s[i])
        }
}

/// The name a node goes by, given the name it was asked to take: that name
/// without the whitespace around it, or "Anonymous" when nothing is left of it
/// or what is left takes more than 64 bytes.
pub open spec fn display_name(requested: Seq<char>) -> Seq<char> {
    let t = trimmed(requested);
    if t.len() == 0 || byte_len(t) > MAX_OWN_NAME_BYTES {
        "Anonymous"@
    } else {
        t
    }
}

/// A name that passes the admission predicate.
pub open spec fn presentable(name: Seq<char>) -> bool {
    trimmed(name).len() > 0 && name.len() <= MAX_NAME_CHARS
}

/// The name a node goes by is always presentable.
pub proof fn lemma_display_name_presentable(requested: Seq<char>)
    ensures
        presentable(display_name(requested)),
{
    let t = trimmed(requested);
    if t.len() == 0 || byte_len(t) > MAX_OWN_NAME_BYTES {
        reveal_strlit("Anonymous");
        assert(!is_whitespace("Anonymous"@[0]));
        lemma_blank_iff_trimmed_empty("Anonymous"@);
    } else {
        lemma_trimmed_idempotent(requested);
        lemma_byte_len_covers_chars(t);
    }
}

/// The port a node listens on, given the port it was asked to take.
pub open spec fn listening_port(requested: u16) -> u16 {
    if requested == 0 {
        DEFAULT_PORT
    } else {
        requested
    }
}

/// An identity is never blank.
pub proof fn lemma_identity_not_blank(s: Seq<char>)
    requires
        is_identity(s),
    ensures
        !is_blank(s),
        trimmed(s).len() > 0,
{
    assert(is_lower_hex(s[0]));
    assert(!is_whitespace(s[0]));
    lemma_blank_iff_trimmed_empty(s);
}

/// Draws a random version-4 UUID with `uuid::Uuid::new_v4` and writes it out
/// with its `Display` impl. Whatever was drawn, the text is the hyphenated
/// lower-case form: 32 hexadecimal digits in groups of 8, 4, 4, 4 and 12.
#[verifier::external_body]
fn fresh_identity() -> (id: String)
    ensures
        is_identity(id@),
{
    uuid::Uuid::new_v4().to_string()
}

/// One node of the network.
pub struct WalkieTalkie {
    /// The identity of this node, fixed for its lifetime.
    pub peer_id: String,
    /// The name this node shows to others.
    pub name: String,
    /// The port this node accepts direct connections on.
    pub port: u16,
    /// The peers this node knows of.
    pub peers: Registry,
}

impl WalkieTalkie {
    /// The registry is well formed and owned by this node's identity.
    pub open spec fn wf(&self) -> bool {
        self.peers.wf() && self.peers.local_id() == self.peer_id@
    }

    /// This node's own record, when it is reached at `ip`.
    pub open spec fn record_at(&self, ip: IpAddress) -> PeerRecord {
        PeerRecord { id: self.peer_id@, name: self.name@, ip, port: self.port }
    }

    /// A node with a fresh random identity that knows no peer yet. The name is
    /// trimmed, and replaced by "Anonymous" when it is blank or longer than 64
    /// bytes; port 0 is replaced by 8080.
    pub fn new(name: String, port: u16) -> (wt: WalkieTalkie)
        ensures
            wt.wf(),
            is_identity(wt.peer_id@),
            wt.name@ == display_name(name@),
            wt.port == listening_port(port),
            wt.peers@ == Map::<Seq<char>, PeerRecord>::empty(),
            forall|ip: IpAddress| ip.routable() ==> admissible(#[trigger] wt.record_at(ip)),
    {
        let id = fresh_identity();
        proof {
            lemma_identity_not_blank(id@);
            lemma_display_name_presentable(name@);
        }
        WalkieTalkie::with_identity(id, name, port)
    }

    /// A node with the identity `peer_id` that knows no peer yet. Name and
    /// port are settled as in `new`.
    pub fn with_identity(peer_id: String, name: String, port: u16) -> (wt: WalkieTalkie)
        ensures
            wt.wf(),
            wt.peer_id@ == peer_id@,
            wt.name@ == display_name(name@),
            wt.port == listening_port(port),
            wt.peers@ == Map::<Seq<char>, PeerRecord>::empty(),
    {
        let kept = trim(name.as_str());
        let name = if kept.unicode_len() == 0 || str_byte_len(kept) > MAX_OWN_NAME_BYTES {
            "Anonymous".to_owned()
        } else {
            kept.to_owned()
        };
        let port = if port == 0 {
            DEFAULT_PORT
        } else {
            port
        };
        let peers = Registry::new(peer_id.clone());
        WalkieTalkie { peer_id, name, port, peers }
    }

    /// This node's own record, when it is reached at `ip`.
    pub fn own_record(&self, ip: IpAddress) -> (r: PeerInfo)
        ensures
            r@ == self.record_at(ip),
    {
        PeerInfo { id: self.peer_id.clone(), name: self.name.clone(), ip, port: self.port }
    }

    /// The envelope that announces this node, reached at `ip`.
    pub fn discovery_message(&self, ip: IpAddress) -> (m: NetworkMessage)
        ensures
            m@ == Envelope::Discovery(self.record_at(ip)),
    {
        NetworkMessage::Discovery(self.own_record(ip))
    }

    /// The envelope that says this node is alive.
    pub fn heartbeat_message(&self) -> (m: NetworkMessage)
        ensures
            m@ == Envelope::Heartbeat(self.peer_id@),
    {
        NetworkMessage::Heartbeat(self.peer_id.clone())
    }

    /// The envelope that says this node is leaving.
    pub fn exit_message(&self) -> (m: NetworkMessage)
        ensures
            m@ == Envelope::Exit(self.peer_id@),
    {
        NetworkMessage::Exit(self.peer_id.clone())
    }

    /// The envelope that carries `content` from this node, stamped with
    /// `timestamp`, in seconds since the Unix epoch.
    pub fn chat_message(&self, content: &str, timestamp: u64) -> (m: NetworkMessage)
        ensures
            m@ == Envelope::Chat(
                ChatText {
                    from_id: self.peer_id@,
                    from_name: self.name@,
                    content: content@,
                    timestamp,
                },
            ),
    {
        NetworkMessage::Chat(
            Message {
                from_id: self.peer_id.clone(),
                from_name: self.name.clone(),
                content: content.to_owned(),
                timestamp,
            },
        )
    }

    /// The peers this node knows of, as they stand at the time of the call.
    pub fn list(&self) -> (list: Vec<PeerInfo>)
        requires
            self.wf(),
        ensures
            crate::registry::lists(crate::registry::records(list@), self.peers@),
    {
        self.peers.snapshot()
    }
}

} // verus!
