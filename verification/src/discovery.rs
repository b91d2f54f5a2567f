//! Broadcast discovery: what this node announces on the discovery port, and
//! what it makes of the datagrams that others send there.

use crate::address::IpAddress;
use crate::peer::{Envelope, NetworkMessage, PeerInfo, PeerRecord};
use crate::registry::{upsert_outcome, upserted, Upsert};
use crate::walkie_talkie::WalkieTalkie;
use vstd::prelude::*;

verus! {

/// The port that announcements, heartbeats and exit notices are broadcast to.
pub const DISCOVERY_PORT: u16 = 9999;

/// The seconds between two announcements of a node.
pub const DISCOVERY_PERIOD_SECS: u64 = 5;

/// The seconds between two heartbeats of a node.
pub const HEARTBEAT_PERIOD_SECS: u64 = 10;

/// The most bytes that are read of one datagram.
pub const MAX_DATAGRAM_LEN: usize = 1024;

/// A message that is broadcast again and again: what is sent, where to, and
/// how long to wait between two sends. A failed send is reported and the
/// next is made all the same.
#[derive(Debug)]
pub struct Beacon {
    pub message: NetworkMessage,
    pub address: IpAddress,
    pub port: u16,
    pub period_secs: u64,
}

/// A beacon as a mathematical value.
pub struct BeaconView {
    pub message: Envelope,
    pub address: IpAddress,
    pub port: u16,
    pub period_secs: u64,
}

impl View for Beacon {
    type V = BeaconView;

    open spec fn view(&self) -> BeaconView {
        BeaconView {
            message: self.message@,
            address: self.address,
            port: self.port,
            period_secs: self.period_secs,
        }
    }
}

/// The address that reaches every node of the local network.
pub open spec fn broadcast_address() -> IpAddress {
    IpAddress::V4(255, 255, 255, 255)
}

/// The beacon that says the node `wt` is alive: its identity, every 10
/// seconds, to the discovery port.
pub fn start_heartbeat(wt: &WalkieTalkie) -> (beacon: Beacon)
    ensures
        beacon@ == (BeaconView {
            message: Envelope::Heartbeat(wt.peer_id@),
            address: broadcast_address(),
            port: DISCOVERY_PORT,
            period_secs: HEARTBEAT_PERIOD_SECS,
        }),
{
    Beacon {
        message: wt.heartbeat_message(),
        address: IpAddress::V4(255, 255, 255, 255),
        port: DISCOVERY_PORT,
        period_secs: HEARTBEAT_PERIOD_SECS,
    }
}

/// What a node does about one datagram.
#[derive(Debug)]
pub enum DatagramStep {
    /// Nothing changed: the datagram was no envelope, or one that the
    /// discovery port takes no action on, or an announcement that was refused.
    Ignored,
    /// A peer that was not known announced itself and was stored.
    Discovered(PeerInfo),
    /// A known peer announced itself again and its entry was overwritten.
    Refreshed(PeerInfo),
    /// A known peer said it is alive. Nothing is done about it.
    Alive(String),
    /// A known peer left and its entry was deleted: the user is told once.
    Left(PeerInfo),
}

/// A step as a mathematical value.
pub enum DatagramStepView {
    Ignored,
    Discovered(PeerRecord),
    Refreshed(PeerRecord),
    Alive(Seq<char>),
    Left(PeerRecord),
}

impl View for DatagramStep {
    type V = DatagramStepView;

    open spec fn view(&self) -> DatagramStepView {
        match self {
            DatagramStep::Ignored => DatagramStepView::Ignored,
            DatagramStep::Discovered(peer) => DatagramStepView::Discovered(peer@),
            DatagramStep::Refreshed(peer) => DatagramStepView::Refreshed(peer@),
            DatagramStep::Alive(id) => DatagramStepView::Alive(id@),
            DatagramStep::Left(peer) => DatagramStepView::Left(peer@),
        }
    }
}

/// The registry of the node `local_id` after a datagram, by the one before.
/// `datagram` is the envelope that was decoded from it, if any was.
pub open spec fn peers_after_datagram(
    peers: Map<Seq<char>, PeerRecord>,
    local_id: Seq<char>,
    datagram: Option<Envelope>,
) -> Map<Seq<char>, PeerRecord> {
    match datagram {
        Some(Envelope::Discovery(peer)) => upserted(peers, local_id, peer),
        Some(Envelope::Exit(id)) => peers.remove(id),
        _ => peers,
    }
}

/// What the node `local_id` does about a datagram.
pub open spec fn step_after_datagram(
    peers: Map<Seq<char>, PeerRecord>,
    local_id: Seq<char>,
    datagram: Option<Envelope>,
) -> DatagramStepView {
    match datagram {
        Some(Envelope::Discovery(peer)) => match upsert_outcome(peers, local_id, peer) {
            Upsert::Added => DatagramStepView::Discovered(peer),
            Upsert::Updated => DatagramStepView::Refreshed(peer),
            Upsert::Rejected => DatagramStepView::Ignored,
        },
        Some(Envelope::Heartbeat(id)) => if peers.contains_key(id) {
            DatagramStepView::Alive(id)
        } else {
            DatagramStepView::Ignored
        },
        Some(Envelope::Exit(id)) => if peers.contains_key(id) {
            DatagramStepView::Left(peers[id])
        } else {
            DatagramStepView::Ignored
        },
        _ => DatagramStepView::Ignored,
    }
}

impl WalkieTalkie {
    /// The beacon that announces this node, reached at `local_ip`: its own
    /// record, every 5 seconds, to the discovery port.
    pub fn start_discovery_broadcast(&self, local_ip: IpAddress) -> (beacon: Beacon)
        ensures
            beacon@ == (BeaconView {
                message: Envelope::Discovery(self.record_at(local_ip)),
                address: broadcast_address(),
                port: DISCOVERY_PORT,
                period_secs: DISCOVERY_PERIOD_SECS,
            }),
    {
        Beacon {
            message: self.discovery_message(local_ip),
            address: IpAddress::V4(255, 255, 255, 255),
            port: DISCOVERY_PORT,
            period_secs: DISCOVERY_PERIOD_SECS,
        }
    }

    /// Takes in one datagram that arrived on the discovery port. `datagram`
    /// is the envelope that was decoded from it, `None` where the bytes were
    /// no envelope: such a datagram is dropped and the next is awaited.
    pub fn on_datagram(&mut self, datagram: Option<NetworkMessage>) -> (step: DatagramStep)
        requires
            old(self).wf(),
        ensures
            final(self).wf(),
            final(self).peer_id@ == old(self).peer_id@,
            final(self).name@ == old(self).name@,
            final(self).port == old(self).port,
            final(self).peers@ == peers_after_datagram(
                old(self).peers@,
                old(self).peer_id@,
                match datagram {
                    Some(m) => Some(m@),
                    None => None,
                },
            ),
            step@ == step_after_datagram(
                old(self).peers@,
                old(self).peer_id@,
                match datagram {
                    Some(m) => Some(m@),
                    None => None,
                },
            ),
    {
        match datagram {
            Some(NetworkMessage::Discovery(peer)) => {
                match self.peers.upsert(peer.clone()) {
                    Upsert::Added => DatagramStep::Discovered(peer),
                    Upsert::Updated => DatagramStep::Refreshed(peer),
                    Upsert::Rejected => DatagramStep::Ignored,
                }
            },
            Some(NetworkMessage::Heartbeat(id)) => {
                if self.peers.contains(&id) {
                    DatagramStep::Alive(id)
                } else {
                    DatagramStep::Ignored
                }
            },
            Some(NetworkMessage::Exit(id)) => {
                match self.peers.remove(&id) {
                    Some(peer) => DatagramStep::Left(peer),
                    None => DatagramStep::Ignored,
                }
            },
            _ => DatagramStep::Ignored,
        }
    }
}

/// A node never stores the record that it announces itself with: after any
/// datagram, and so after its own announcement come back to it, its registry
/// has no entry under its own identity.
pub proof fn lemma_own_announcement_not_stored(
    wt: WalkieTalkie,
    datagram: Option<Envelope>,
)
    requires
        wt.wf(),
    ensures
        !peers_after_datagram(wt.peers@, wt.peer_id@, datagram).contains_key(wt.peer_id@),
        forall|ip: IpAddress|
            peers_after_datagram(
                wt.peers@,
                wt.peer_id@,
                Some(Envelope::Discovery(#[trigger] wt.record_at(ip))),
            ) == wt.peers@,
{
    wt.peers.lemma_wf();
}

/// A datagram that is no envelope changes nothing and calls for nothing.
pub proof fn lemma_undecodable_datagram(peers: Map<Seq<char>, PeerRecord>, local_id: Seq<char>)
    ensures
        peers_after_datagram(peers, local_id, None) == peers,
        step_after_datagram(peers, local_id, None) == DatagramStepView::Ignored,
{
}

} // verus!
