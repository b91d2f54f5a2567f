//! Service discovery: what this node advertises, and what it makes of the
//! answers of others.

use crate::address::IpAddress;
use crate::peer::{Envelope, NetworkMessage, PeerInfo, PeerRecord};
use crate::registry::{upsert_outcome, upserted, Upsert};
use crate::text::{strip_prefix, without_prefix};
use crate::walkie_talkie::WalkieTalkie;
use vstd::prelude::*;
use vstd::string::StringExecFns;

verus! {

/// The seconds between two queries for the service.
pub const QUERY_INTERVAL_SECS: u64 = 15;

/// One resource record of an answer, as far as discovery reads it.
#[derive(Debug)]
pub enum DnsRecord {
    /// An address record, IPv4 or IPv6.
    Address(IpAddress),
    /// A pointer record with the name it points to.
    Pointer(String),
    /// A text record with its entries.
    Text(Vec<String>),
    /// A service-location record with the port of the service.
    Service(u16),
    /// Any other record.
    Other,
}

/// A resource record as a mathematical value.
pub enum DnsFact {
    Address(IpAddress),
    Pointer(Seq<char>),
    Text(Seq<Seq<char>>),
    Service(u16),
    Other,
}

/// The entries of a text record.
pub open spec fn entries(v: Seq<String>) -> Seq<Seq<char>> {
    Seq::new(v.len(), |i: int| v[i]@)
}

impl View for DnsRecord {
    type V = DnsFact;

    open spec fn view(&self) -> DnsFact {
        match self {
            DnsRecord::Address(ip) => DnsFact::Address(*ip),
            DnsRecord::Pointer(name) => DnsFact::Pointer(name@),
            DnsRecord::Text(v) => DnsFact::Text(entries(v@)),
            DnsRecord::Service(port) => DnsFact::Service(*port),
            DnsRecord::Other => DnsFact::Other,
        }
    }
}

/// The records of an answer, in order.
pub open spec fn facts(v: Seq<DnsRecord>) -> Seq<DnsFact> {
    Seq::new(v.len(), |i: int| v[i]@)
}

/// The first value that `f` finds, going through `s` from the front.
pub open spec fn first_of<A, B>(s: Seq<A>, f: spec_fn(A) -> Option<B>) -> Option<B>
    decreases s.len(),
{
    if s.len() == 0 {
        None
    } else if f(s[0]) is Some {
        f(s[0])
    } else {
        first_of(s.drop_first(), f)
    }
}

/// Where `f` finds nothing before `i` and something at `i`, that is the first
/// it finds.
pub proof fn lemma_first_of_found<A, B>(s: Seq<A>, f: spec_fn(A) -> Option<B>, i: int)
    requires
        0 <= i < s.len(),
        forall|j: int| 0 <= j < i ==> f(#[trigger] s[j]) is None,
        f(s[i]) is Some,
    ensures
        first_of(s, f) == f(s[i]),
    decreases i,
{
    if i > 0 {
        let t = s.drop_first();
        assert forall|j: int| 0 <= j < i - 1 implies f(#[trigger] t[j]) is None by {
            assert(t[j] == s[j + 1]);
        }
        assert(t[i - 1] == s[i]);
        lemma_first_of_found(t, f, i - 1);
    }
}

/// Where `f` finds nothing anywhere, there is no first.
pub proof fn lemma_first_of_nothing<A, B>(s: Seq<A>, f: spec_fn(A) -> Option<B>)
    requires
        forall|j: int| 0 <= j < s.len() ==> f(#[trigger] s[j]) is None,
    ensures
        first_of(s, f) is None,
    decreases s.len(),
{
    if s.len() > 0 {
        let t = s.drop_first();
        assert forall|j: int| 0 <= j < t.len() implies f(#[trigger] t[j]) is None by {
            assert(t[j] == s[j + 1]);
        }
        lemma_first_of_nothing(t, f);
    }
}

/// The address that an address record carries.
pub open spec fn address_of(r: DnsFact) -> Option<IpAddress> {
    match r {
        DnsFact::Address(ip) => Some(ip),
        _ => None,
    }
}

/// The name that a pointer record carries.
pub open spec fn pointer_of(r: DnsFact) -> Option<Seq<char>> {
    match r {
        DnsFact::Pointer(name) => Some(name),
        _ => None,
    }
}

/// The port that a service-location record carries.
pub open spec fn port_of(r: DnsFact) -> Option<u16> {
    match r {
        DnsFact::Service(port) => Some(port),
        _ => None,
    }
}

/// The identity that a metadata entry of the form `peer_id=<identity>` names.
pub open spec fn tagged_identity(entry: Seq<char>) -> Option<Seq<char>> {
    without_prefix(entry, "peer_id="@)
}

/// The identity that a text record names: that of its first entry that names
/// one.
pub open spec fn identity_of(r: DnsFact) -> Option<Seq<char>> {
    match r {
        DnsFact::Text(entries) => first_of(entries, |e: Seq<char>| tagged_identity(e)),
        _ => None,
    }
}

/// What one answer says of a peer.
pub struct Sighting {
    /// The address of the first address record, if there is one.
    pub address: Option<IpAddress>,
    /// The name of the first pointer record, or "unknown".
    pub name: String,
    /// The identity of the first text record that names one, or the name.
    pub id: String,
    /// The port of the first service-location record, or this node's own.
    pub port: u16,
}

/// A sighting as a mathematical value.
pub struct SightingView {
    pub address: Option<IpAddress>,
    pub name: Seq<char>,
    pub id: Seq<char>,
    pub port: u16,
}

impl View for Sighting {
    type V = SightingView;

    open spec fn view(&self) -> SightingView {
        SightingView { address: self.address, name: self.name@, id: self.id@, port: self.port }
    }
}

/// What an answer with the records `rs` says of a peer, to a node that listens
/// on `own_port`. Each of the four parts is read on its own.
pub open spec fn sighting(rs: Seq<DnsFact>, own_port: u16) -> SightingView {
    let name = match first_of(rs, |r: DnsFact| pointer_of(r)) {
        Some(name) => name,
        None => "unknown"@,
    };
    SightingView {
        address: first_of(rs, |r: DnsFact| address_of(r)),
        name,
        id: match first_of(rs, |r: DnsFact| identity_of(r)) {
            Some(id) => id,
            None => name,
        },
        port: match first_of(rs, |r: DnsFact| port_of(r)) {
            Some(port) => port,
            None => own_port,
        },
    }
}

/// The address that a record carries, if it is an address record.
pub fn to_ip_addr(record: &DnsRecord) -> (r: Option<IpAddress>)
    ensures
        r == address_of(record@),
{
    match record {
        DnsRecord::Address(ip) => Some(*ip),
        _ => None,
    }
}

fn first_address(records: &Vec<DnsRecord>) -> (r: Option<IpAddress>)
    ensures
        r == first_of(facts(records@), |r: DnsFact| address_of(r)),
{
    let ghost f = |r: DnsFact| address_of(r);
    let mut i: usize = 0;
    while i < records.len()
        invariant
            i <= records.len(),
            f == (|r: DnsFact| address_of(r)),
            forall|j: int| 0 <= j < i ==> f(#[trigger] facts(records@)[j]) is None,
        decreases records.len() - i,
    {
        let found = to_ip_addr(&records[i]);
        if found.is_some() {
            proof {
                lemma_first_of_found(facts(records@), f, i as int);
            }
            return found;
        }
        i += 1;
    }
    proof {
        lemma_first_of_nothing(facts(records@), f);
    }
    None
}

fn first_pointer(records: &Vec<DnsRecord>) -> (r: Option<String>)
    ensures
        match r {
            Some(name) => first_of(facts(records@), |r: DnsFact| pointer_of(r)) == Some(name@),
            None => first_of(facts(records@), |r: DnsFact| pointer_of(r)) is None,
        },
{
    let ghost f = |r: DnsFact| pointer_of(r);
    let mut i: usize = 0;
    while i < records.len()
        invariant
            i <= records.len(),
            f == (|r: DnsFact| pointer_of(r)),
            forall|j: int| 0 <= j < i ==> f(#[trigger] facts(records@)[j]) is None,
        decreases records.len() - i,
    {
        match &records[i] {
            DnsRecord::Pointer(name) => {
                proof {
                    lemma_first_of_found(facts(records@), f, i as int);
                }
                return Some(name.clone());
            },
            _ => {},
        }
        i += 1;
    }
    proof {
        lemma_first_of_nothing(facts(records@), f);
    }
    None
}

fn first_port(records: &Vec<DnsRecord>) -> (r: Option<u16>)
    ensures
        r == first_of(facts(records@), |r: DnsFact| port_of(r)),
{
    let ghost f = |r: DnsFact| port_of(r);
    let mut i: usize = 0;
    while i < records.len()
        invariant
            i <= records.len(),
            f == (|r: DnsFact| port_of(r)),
            forall|j: int| 0 <= j < i ==> f(#[trigger] facts(records@)[j]) is None,
        decreases records.len() - i,
    {
        match &records[i] {
            DnsRecord::Service(port) => {
                proof {
                    lemma_first_of_found(facts(records@), f, i as int);
                }
                return Some(*port);
            },
            _ => {},
        }
        i += 1;
    }
    proof {
        lemma_first_of_nothing(facts(records@), f);
    }
    None
}

/// The identity that the entries of one text record name.
fn entries_identity(entries_of_record: &Vec<String>) -> (r: Option<String>)
    ensures
        match r {
            Some(id) => identity_of(DnsFact::Text(entries(entries_of_record@))) == Some(id@),
            None => identity_of(DnsFact::Text(entries(entries_of_record@))) is None,
        },
{
    let ghost f = |e: Seq<char>| tagged_identity(e);
    let mut i: usize = 0;
    while i < entries_of_record.len()
        invariant
            i <= entries_of_record.len(),
            f == (|e: Seq<char>| tagged_identity(e)),
            forall|j: int| 0 <= j < i ==> f(#[trigger] entries(entries_of_record@)[j]) is None,
        decreases entries_of_record.len() - i,
    {
        match strip_prefix(entries_of_record[i].as_str(), "peer_id=") {
            Some(id) => {
                proof {
                    lemma_first_of_found(entries(entries_of_record@), f, i as int);
                }
                return Some(id.to_owned());
            },
            None => {},
        }
        i += 1;
    }
    proof {
        lemma_first_of_nothing(entries(entries_of_record@), f);
    }
    None
}

fn first_identity(records: &Vec<DnsRecord>) -> (r: Option<String>)
    ensures
        match r {
            Some(id) => first_of(facts(records@), |r: DnsFact| identity_of(r)) == Some(id@),
            None => first_of(facts(records@), |r: DnsFact| identity_of(r)) is None,
        },
{
    let ghost f = |r: DnsFact| identity_of(r);
    let mut i: usize = 0;
    while i < records.len()
        invariant
            i <= records.len(),
            f == (|r: DnsFact| identity_of(r)),
            forall|j: int| 0 <= j < i ==> f(#[trigger] facts(records@)[j]) is None,
        decreases records.len() - i,
    {
        match &records[i] {
            DnsRecord::Text(entries_of_record) => {
                let found = entries_identity(entries_of_record);
                if found.is_some() {
                    proof {
                        lemma_first_of_found(facts(records@), f, i as int);
                    }
                    return found;
                }
            },
            _ => {},
        }
        i += 1;
    }
    proof {
        lemma_first_of_nothing(facts(records@), f);
    }
    None
}

/// Reads one answer: the address, the name, the identity and the port that
/// it gives for a peer, each with its fallback.
pub fn resolve(records: &Vec<DnsRecord>, own_port: u16) -> (s: Sighting)
    ensures
        s@ == sighting(facts(records@), own_port),
{
    let address = first_address(records);
    let name = match first_pointer(records) {
        Some(name) => name,
        None => "unknown".to_owned(),
    };
    let id = match first_identity(records) {
        Some(id) => id,
        None => name.clone(),
    };
    let port = match first_port(records) {
        Some(port) => port,
        None => own_port,
    };
    Sighting { address, name, id, port }
}

/// What this node registers with the responder.
#[derive(Debug)]
pub struct Advertisement {
    /// The service type that all nodes share.
    pub service_type: String,
    /// The name of this instance: the display name, a hyphen, the identity.
    pub instance_name: String,
    /// The port this node listens on.
    pub port: u16,
    /// The one metadata entry: `peer_id=` and the identity.
    pub metadata: String,
}

/// The advertisement of a node with the given identity, name and port.
pub open spec fn advertised(wt: WalkieTalkie, ad: Advertisement) -> bool {
    &&& ad.service_type@ == "_walkietalkie._udp"@
    &&& ad.instance_name@ == wt.name@ + "-"@ + wt.peer_id@
    &&& ad.port == wt.port
    &&& ad.metadata@ == "peer_id="@ + wt.peer_id@
}

/// The name under which the service is asked for.
pub fn service_name() -> (name: &'static str)
    ensures
        name@ == "_walkietalkie._udp.local"@,
{
    "_walkietalkie._udp.local"
}

/// What the node advertises for the whole of its lifetime.
pub fn start_mdns(wt: &WalkieTalkie) -> (ad: Advertisement)
    ensures
        advertised(*wt, ad),
{
    let instance_name = wt.name.clone().concat("-").concat(wt.peer_id.as_str());
    let metadata = "peer_id=".to_owned().concat(wt.peer_id.as_str());
    Advertisement {
        service_type: "_walkietalkie._udp".to_owned(),
        instance_name,
        port: wt.port,
        metadata,
    }
}

/// The metadata entry that a node advertises names that node's identity.
pub proof fn lemma_metadata_names_identity(id: Seq<char>)
    ensures
        tagged_identity("peer_id="@ + id) == Some(id),
{
    let tag = "peer_id="@;
    let entry = tag + id;
    assert(entry.subrange(0, tag.len() as int) =~= tag);
    assert(entry.skip(tag.len() as int) =~= id);
}

/// What a node does about one answer.
#[derive(Debug)]
pub enum MdnsStep {
    /// The answer gives no address: it is skipped.
    NoAddress,
    /// The answer is this node's own advertisement: it is ignored.
    Own,
    /// The record failed the admission predicate: it is not stored.
    Refused,
    /// The peer was known: its entry was overwritten with this record.
    Refreshed(PeerInfo),
    /// The peer is new and its entry was created: connect to it and send
    /// `message`, which announces this node; failure to do so is ignored.
    Announce { peer: PeerInfo, message: NetworkMessage },
}

/// A step as a mathematical value.
pub enum MdnsStepView {
    NoAddress,
    Own,
    Refused,
    Refreshed(PeerRecord),
    Announce { peer: PeerRecord, message: Envelope },
}

impl View for MdnsStep {
    type V = MdnsStepView;

    open spec fn view(&self) -> MdnsStepView {
        match self {
            MdnsStep::NoAddress => MdnsStepView::NoAddress,
            MdnsStep::Own => MdnsStepView::Own,
            MdnsStep::Refused => MdnsStepView::Refused,
            MdnsStep::Refreshed(peer) => MdnsStepView::Refreshed(peer@),
            MdnsStep::Announce { peer, message } => MdnsStepView::Announce {
                peer: peer@,
                message: message@,
            },
        }
    }
}

/// The record of the peer that a sighting at `ip` describes.
pub open spec fn sighted_record(s: SightingView, ip: IpAddress) -> PeerRecord {
    PeerRecord { id: s.id, name: s.name, ip, port: s.port }
}

/// The registry of the node `own` after a sighting, by the one before.
pub open spec fn peers_after_sighting(
    peers: Map<Seq<char>, PeerRecord>,
    own: PeerRecord,
    s: SightingView,
) -> Map<Seq<char>, PeerRecord> {
    match s.address {
        Some(ip) if s.id != own.id => upserted(peers, own.id, sighted_record(s, ip)),
        _ => peers,
    }
}

/// What the node `own`, whose record carries the address it announces itself
/// with, does about a sighting.
pub open spec fn step_after_sighting(
    peers: Map<Seq<char>, PeerRecord>,
    own: PeerRecord,
    s: SightingView,
) -> MdnsStepView {
    match s.address {
        None => MdnsStepView::NoAddress,
        Some(ip) => if s.id == own.id {
            MdnsStepView::Own
        } else {
            let peer = sighted_record(s, ip);
            match upsert_outcome(peers, own.id, peer) {
                Upsert::Rejected => MdnsStepView::Refused,
                Upsert::Updated => MdnsStepView::Refreshed(peer),
                Upsert::Added => MdnsStepView::Announce {
                    peer,
                    message: Envelope::Discovery(own),
                },
            }
        },
    }
}

/// The address a node announces itself with to a peer found at `found`: its
/// own where it knows it, else the one the peer was found at.
pub open spec fn announced_address(local_ip: Option<IpAddress>, found: IpAddress) -> IpAddress {
    match local_ip {
        Some(ip) => ip,
        None => found,
    }
}

impl WalkieTalkie {
    /// The record this node announces itself with after the sighting `s`.
    pub open spec fn announced(&self, local_ip: Option<IpAddress>, s: SightingView) -> PeerRecord {
        match s.address {
            Some(found) => self.record_at(announced_address(local_ip, found)),
            None => self.record_at(IpAddress::V4(0, 0, 0, 0)),
        }
    }

    /// Takes in one answer to the service query. `local_ip` is this node's
    /// own address, where it is known.
    pub fn on_mdns_response(
        &mut self,
        records: &Vec<DnsRecord>,
        local_ip: Option<IpAddress>,
    ) -> (step: MdnsStep)
        requires
            old(self).wf(),
        ensures
            final(self).wf(),
            final(self).peer_id@ == old(self).peer_id@,
            final(self).name@ == old(self).name@,
            final(self).port == old(self).port,
            final(self).peers@ == peers_after_sighting(
                old(self).peers@,
                old(self).announced(local_ip, sighting(facts(records@), old(self).port)),
                sighting(facts(records@), old(self).port),
            ),
            step@ == step_after_sighting(
                old(self).peers@,
                old(self).announced(local_ip, sighting(facts(records@), old(self).port)),
                sighting(facts(records@), old(self).port),
            ),
    {
        let seen = resolve(records, self.port);
        let ip = match seen.address {
            Some(ip) => ip,
            None => {
                return MdnsStep::NoAddress;
            },
        };
        if seen.id == self.peer_id {
            return MdnsStep::Own;
        }
        let peer = PeerInfo { id: seen.id, name: seen.name, ip, port: seen.port };
        match self.peers.upsert(peer.clone()) {
            Upsert::Rejected => MdnsStep::Refused,
            Upsert::Updated => MdnsStep::Refreshed(peer),
            Upsert::Added => {
                let own_ip = match local_ip {
                    Some(own_ip) => own_ip,
                    None => ip,
                };
                let message = self.discovery_message(own_ip);
                MdnsStep::Announce { peer, message }
            },
        }
    }
}


} // verus!
