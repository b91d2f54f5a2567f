//! Fan-out: one message, written once to every admissible peer, each over a
//! connection of its own. The library plans the run and keeps the count; the
//! program that drives it connects and writes.

use crate::peer::{admissible, ChatText, Envelope, NetworkMessage, PeerInfo, PeerRecord};
use crate::registry::{lists, records};
use crate::walkie_talkie::WalkieTalkie;
use vstd::prelude::*;

verus! {

/// The records of `list` that pass the admission predicate, in order.
pub open spec fn admitted(list: Seq<PeerRecord>) -> Seq<PeerRecord> {
    list.filter(|r: PeerRecord| admissible(r))
}

/// The records of `list` that fail the admission predicate, in order.
pub open spec fn refused(list: Seq<PeerRecord>) -> Seq<PeerRecord> {
    list.filter(|r: PeerRecord| !admissible(r))
}

/// How the attempt to reach one peer ended.
#[derive(Clone, Copy, Debug, PartialEq, Eq, Structural)]
pub enum Delivery {
    /// The connection was made and the whole message written.
    Delivered,
    /// The connection could not be made.
    ConnectFailed,
    /// The connection was made, but the message could not be written.
    WriteFailed,
}

/// What the user is told when a fan-out is over.
#[derive(Clone, Copy, Debug, PartialEq, Eq, Structural)]
pub enum Report {
    /// The message was written to this many peers, at least one.
    Sent(usize),
    /// The message reached nobody.
    NoPeers,
}

/// What is told of a fan-out that wrote to `delivered` peers.
pub open spec fn report_of(delivered: nat) -> Report {
    if delivered > 0 {
        Report::Sent(delivered as usize)
    } else {
        Report::NoPeers
    }
}

/// One run of a fan-out: the message, the peers it goes to, how many of them
/// were tried and how many were reached.
pub struct FanOut {
    message: NetworkMessage,
    targets: Vec<PeerInfo>,
    skipped: Vec<PeerInfo>,
    attempts: usize,
    delivered: usize,
}

impl FanOut {
    /// The message that is sent.
    pub closed spec fn message(&self) -> Envelope {
        self.message@
    }

    /// The peers that the message goes to, in the order they are tried.
    pub closed spec fn targets(&self) -> Seq<PeerRecord> {
        records(self.targets@)
    }

    /// The peers that were passed over because they are not admissible.
    pub closed spec fn skipped(&self) -> Seq<PeerRecord> {
        records(self.skipped@)
    }

    /// The number of peers tried so far.
    pub closed spec fn attempts(&self) -> nat {
        self.attempts as nat
    }

    /// The number of peers reached so far.
    pub closed spec fn delivered(&self) -> nat {
        self.delivered as nat
    }

    /// No more peers were reached than tried, no more tried than there are,
    /// and each of them is admissible.
    pub closed spec fn wf(&self) -> bool {
        &&& self.delivered <= self.attempts <= self.targets.len()
        &&& forall|i: int| 0 <= i < self.targets.len() ==> admissible(#[trigger] self.targets[i]@)
    }

    /// Every target has been tried.
    pub open spec fn finished(&self) -> bool {
        self.attempts() == self.targets().len()
    }

    /// What a well-formed run says of its numbers and its targets.
    pub proof fn lemma_wf(&self)
        requires
            self.wf(),
        ensures
            self.delivered() <= self.attempts() <= self.targets().len(),
            forall|i: int| 0 <= i < self.targets().len() ==> admissible(#[trigger] self.targets()[i]),
    {
        assert forall|i: int| 0 <= i < self.targets().len() implies admissible(
            #[trigger] self.targets()[i],
        ) by {
            assert(self.targets()[i] == self.targets[i]@);
        }
    }

    /// A run that sends `message` to those of `peers` that pass the admission
    /// predicate; the others are skipped, and kept to be reported.
    pub fn new(message: NetworkMessage, peers: &Vec<PeerInfo>) -> (run: FanOut)
        ensures
            run.wf(),
            run.message() == message@,
            run.targets() == admitted(records(peers@)),
            run.skipped() == refused(records(peers@)),
            run.attempts() == 0,
            run.delivered() == 0,
    {
        let mut targets: Vec<PeerInfo> = Vec::new();
        let mut skipped: Vec<PeerInfo> = Vec::new();
        let ghost all = records(peers@);
        let ghost keep = |r: PeerRecord| admissible(r);
        let ghost drop = |r: PeerRecord| !admissible(r);
        proof {
            reveal(Seq::filter);
            assert(all.take(0).filter(keep) == Seq::<PeerRecord>::empty());
            assert(all.take(0).filter(drop) == Seq::<PeerRecord>::empty());
        }
        let mut i: usize = 0;
        while i < peers.len()
            invariant
                i <= peers.len(),
                all == records(peers@),
                keep == (|r: PeerRecord| admissible(r)),
                drop == (|r: PeerRecord| !admissible(r)),
                records(targets@) == all.take(i as int).filter(keep),
                records(skipped@) == all.take(i as int).filter(drop),
                forall|j: int| 0 <= j < targets.len() ==> admissible(#[trigger] targets[j]@),
            decreases peers.len() - i,
        {
            let ghost kept_before = records(targets@);
            let ghost dropped_before = records(skipped@);
            let peer = &peers[i];
            proof {
                let head = all.take(i as int);
                let next = all.take(i + 1);
                assert(next.drop_last() == head);
                assert(next.last() == peer@);
                reveal(Seq::filter);
            }
            if peer.is_valid() {
                targets.push(peer.clone());
                assert(records(targets@) == kept_before.push(peer@));
            } else {
                skipped.push(peer.clone());
                assert(records(skipped@) == dropped_before.push(peer@));
            }
            i += 1;
        }
        proof {
            assert(all.take(peers.len() as int) == all);
        }
        FanOut { message, targets, skipped, attempts: 0, delivered: 0 }
    }

    /// The peers that were passed over because they are not admissible.
    pub fn skipped_peers(&self) -> (list: &Vec<PeerInfo>)
        ensures
            records(list@) == self.skipped(),
    {
        &self.skipped
    }

    /// The message to write to each target.
    pub fn envelope(&self) -> (m: &NetworkMessage)
        ensures
            m@ == self.message(),
    {
        &self.message
    }

    /// The peer to try next; `None` when every target has been tried.
    pub fn current(&self) -> (next: Option<&PeerInfo>)
        requires
            self.wf(),
        ensures
            match next {
                Some(peer) => !self.finished() && peer@ == self.targets()[self.attempts() as int]
                    && admissible(peer@),
                None => self.finished(),
            },
    {
        if self.attempts < self.targets.len() {
            Some(&self.targets[self.attempts])
        } else {
            None
        }
    }

    /// Notes how the attempt on the current target ended, and moves on to the
    /// next. Only a message written in full counts as delivered.
    pub fn record(&mut self, outcome: Delivery)
        requires
            old(self).wf(),
            !old(self).finished(),
        ensures
            final(self).wf(),
            final(self).message() == old(self).message(),
            final(self).targets() == old(self).targets(),
            final(self).skipped() == old(self).skipped(),
            final(self).attempts() == old(self).attempts() + 1,
            final(self).delivered() == old(self).delivered() + if outcome == Delivery::Delivered {
                1nat
            } else {
                0nat
            },
    {
        self.attempts = self.attempts + 1;
        if outcome == Delivery::Delivered {
            self.delivered = self.delivered + 1;
        }
    }

    /// The number of peers tried so far.
    pub fn attempted(&self) -> (n: usize)
        ensures
            n == self.attempts(),
    {
        self.attempts
    }

    /// The number of peers that the message was written to so far.
    pub fn successful_sends(&self) -> (n: usize)
        ensures
            n == self.delivered(),
    {
        self.delivered
    }

    /// What the user is told of the run as it stands.
    pub fn report(&self) -> (r: Report)
        ensures
            r == report_of(self.delivered()),
    {
        if self.delivered > 0 {
            Report::Sent(self.delivered)
        } else {
            Report::NoPeers
        }
    }
}

/// Where no peer of a list is admissible, a fan-out over it has no target: it
/// is finished before any connection is tried, and reports that nobody was
/// reached.
pub proof fn lemma_no_admissible_peer(run: FanOut, peers: Seq<PeerRecord>)
    requires
        run.wf(),
        run.targets() == admitted(peers),
        forall|i: int| 0 <= i < peers.len() ==> !admissible(#[trigger] peers[i]),
    ensures
        run.targets().len() == 0,
        run.finished(),
        run.attempts() == 0,
        run.delivered() == 0,
        report_of(run.delivered()) == Report::NoPeers,
{
    run.lemma_wf();
    lemma_admitted_none(peers);
}

/// Nothing is kept of a list in which no record is admissible.
proof fn lemma_admitted_none(list: Seq<PeerRecord>)
    requires
        forall|i: int| 0 <= i < list.len() ==> !admissible(#[trigger] list[i]),
    ensures
        admitted(list).len() == 0,
    decreases list.len(),
{
    reveal(Seq::filter);
    if list.len() > 0 {
        let head = list.drop_last();
        assert forall|i: int| 0 <= i < head.len() implies !admissible(#[trigger] head[i]) by {
            assert(head[i] == list[i]);
        }
        lemma_admitted_none(head);
    }
}

/// Every record of a listing of a well-formed registry is admissible, so a
/// fan-out over it skips none.
pub proof fn lemma_admitted_all(list: Seq<PeerRecord>)
    requires
        forall|i: int| 0 <= i < list.len() ==> admissible(#[trigger] list[i]),
    ensures
        admitted(list) == list,
        refused(list).len() == 0,
    decreases list.len(),
{
    reveal(Seq::filter);
    if list.len() > 0 {
        let head = list.drop_last();
        assert forall|i: int| 0 <= i < head.len() implies admissible(#[trigger] head[i]) by {
            assert(head[i] == list[i]);
        }
        lemma_admitted_all(head);
        assert(head.push(list.last()) == list);
    }
}

/// Plans the delivery of a chat message with the text `content`, stamped
/// with `timestamp` (seconds since the Unix epoch), to every peer that `wt`
/// knows.
pub fn broadcast_message(wt: &WalkieTalkie, content: &str, timestamp: u64) -> (run: FanOut)
    requires
        wt.wf(),
    ensures
        run.wf(),
        run.message() == Envelope::Chat(
            ChatText { from_id: wt.peer_id@, from_name: wt.name@, content: content@, timestamp },
        ),
        lists(run.targets(), wt.peers@),
        run.skipped().len() == 0,
        run.attempts() == 0,
        run.delivered() == 0,
{
    let message = wt.chat_message(content, timestamp);
    fan_out(wt, message)
}

/// Plans the delivery of this node's exit notice to every peer that `wt`
/// knows.
pub fn broadcast_exit(wt: &WalkieTalkie) -> (run: FanOut)
    requires
        wt.wf(),
    ensures
        run.wf(),
        run.message() == Envelope::Exit(wt.peer_id@),
        lists(run.targets(), wt.peers@),
        run.skipped().len() == 0,
        run.attempts() == 0,
        run.delivered() == 0,
{
    let message = wt.exit_message();
    fan_out(wt, message)
}

/// Plans the delivery of `message` to every peer that `wt` knows: the
/// registry is copied at this instant and not read again.
fn fan_out(wt: &WalkieTalkie, message: NetworkMessage) -> (run: FanOut)
    requires
        wt.wf(),
    ensures
        run.wf(),
        run.message() == message@,
        lists(run.targets(), wt.peers@),
        run.skipped().len() == 0,
        run.attempts() == 0,
        run.delivered() == 0,
{
    let snapshot = wt.peers.snapshot();
    proof {
        wt.peers.lemma_wf();
        let list = records(snapshot@);
        assert forall|i: int| 0 <= i < list.len() implies admissible(#[trigger] list[i]) by {
            assert(wt.peers@.contains_key(list[i].id));
        }
        lemma_admitted_all(list);
    }
    FanOut::new(message, &snapshot)
}

impl WalkieTalkie {
    /// Plans the delivery of a chat message to every known peer.
    pub fn broadcast_message(&self, content: &str, timestamp: u64) -> (run: FanOut)
        requires
            self.wf(),
        ensures
            run.wf(),
            run.message() == Envelope::Chat(
                ChatText {
                    from_id: self.peer_id@,
                    from_name: self.name@,
                    content: content@,
                    timestamp,
                },
            ),
            lists(run.targets(), self.peers@),
            run.skipped().len() == 0,
            run.attempts() == 0,
            run.delivered() == 0,
    {
        self::broadcast_message(self, content, timestamp)
    }
}

} // verus!
