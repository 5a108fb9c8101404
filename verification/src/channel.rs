//! Logical message channels with declared delivery contracts.
//!
//! Each channel is declared once, before any traffic flows, with an
//! ordering and a reliability attribute. Outgoing messages are stamped
//! with a per-channel sequence number; a reliable channel keeps every
//! message available for retransmission until it is acknowledged. On
//! the receiving side an ordered reliable channel buffers packets that
//! arrive out of order and releases messages to the application only
//! in send order, so that what the application observes is always a
//! prefix of what was sent.
//!
//! The raw transport underneath (sockets, datagrams) is outside this
//! crate: it is handed the stamped packets of [`ChannelManager::poll_outgoing`]
//! and feeds whatever arrives, in any order and with any losses, into
//! [`ChannelManager::deliver_packet`].

use vstd::prelude::*;
use crate::errors::{ConfigError, DecodeError, SendError};

verus! {

/// Id under which [`Channel1`] is declared.
pub const CHANNEL1_ID: u64 = 1;

/// The one application channel of this protocol, declared ordered and
/// reliable before traffic starts.
pub struct Channel1;

impl Channel1 {
    pub fn id() -> (r: u64)
        ensures
            r == CHANNEL1_ID,
    {
        CHANNEL1_ID
    }

    pub fn reliability() -> (r: ChannelReliability)
        ensures
            r == ChannelReliability::Reliable,
    {
        ChannelReliability::Reliable
    }

    pub fn ordering() -> (r: ChannelOrdering)
        ensures
            r == ChannelOrdering::Ordered,
    {
        ChannelOrdering::Ordered
    }
}

/// The one application message of this protocol: a single counter
/// value, bound to [`Channel1`] at send time.
#[derive(Clone, Copy, Debug, PartialEq, Eq, Structural)]
pub struct Message1(pub usize);

impl Message1 {
    /// The word this message travels as.
    pub fn to_wire(&self) -> (w: u64)
        ensures
            w == self.0 as u64,
    {
        self.0 as u64
    }

    /// Reads a message back off the wire; a word too large for this
    /// platform's message payload is malformed and discarded.
    pub fn from_wire(w: u64) -> (r: Result<Message1, DecodeError>)
        ensures
            w <= usize::MAX as u64 ==> r == Ok::<Message1, DecodeError>(Message1(w as usize)),
            w > usize::MAX as u64 ==> r == Err::<Message1, DecodeError>(
                DecodeError::MalformedPayload,
            ),
    {
        if w <= usize::MAX as u64 {
            Ok(Message1(w as usize))
        } else {
            Err(DecodeError::MalformedPayload)
        }
    }
}

/// Whether a channel promises in-send-order delivery.
#[derive(Clone, Copy, Debug, PartialEq, Eq, Structural)]
pub enum ChannelOrdering {
    Unordered,
    Ordered,
}

/// Whether a channel promises eventual delivery.
#[derive(Clone, Copy, Debug, PartialEq, Eq, Structural)]
pub enum ChannelReliability {
    Unreliable,
    Reliable,
}

/// Receive half of an ordered reliable channel: packets may arrive in
/// any order and arbitrarily duplicated, but messages are released to
/// the application exactly in sequence-number order, with no gap and
/// no duplicate.
pub struct OrderedReliableReceiver {
    /// Packets that arrived ahead of the next expected sequence
    /// number, held back until the gap closes.
    pub pending: Vec<(usize, u64)>,
    /// Everything released so far, in release order; `delivered[k]`
    /// was sent with sequence number `k`.
    pub delivered: Vec<u64>,
    /// How much of `delivered` the application has already drained.
    pub drained: usize,
}

impl OrderedReliableReceiver {
    pub open spec fn wf(self) -> bool {
        &&& self.drained <= self.delivered@.len()
        &&& forall|i: int, j: int|
            0 <= i < j < self.pending@.len() ==> self.pending@[i].0 != self.pending@[j].0
    }

    /// Agreement with a send log: everything delivered is an exact
    /// prefix of `sent`, and every held-back packet carries the
    /// payload its sender gave that sequence number.
    pub open spec fn consistent_with(self, sent: Seq<u64>) -> bool {
        &&& self.delivered@.len() <= sent.len()
        &&& self.delivered@ == sent.take(self.delivered@.len() as int)
        &&& forall|i: int|
            0 <= i < self.pending@.len() ==> self.pending@[i].0 < sent.len() && sent[
                self.pending@[i].0 as int
            ] == self.pending@[i].1
    }

    pub fn new() -> (r: Self)
        ensures
            r.wf(),
            r.delivered@.len() == 0,
            r.drained == 0,
            r.pending@.len() == 0,
            forall|sent: Seq<u64>| r.consistent_with(sent),
    {
        let r = OrderedReliableReceiver { pending: Vec::new(), delivered: Vec::new(), drained: 0 };
        proof {
            assert forall|sent: Seq<u64>| r.consistent_with(sent) by {
                assert(r.delivered@ =~= sent.take(0));
            }
        }
        r
    }

    /// Index of a held-back packet with sequence number `seq`, if any.
    fn find_pending(&self, seq: usize) -> (r: Option<usize>)
        ensures
            match r {
                Some(i) => i < self.pending@.len() && self.pending@[i as int].0 == seq,
                None => forall|i: int| 0 <= i < self.pending@.len() ==> self.pending@[i].0 != seq,
            },
    {
        let mut i: usize = 0;
        while i < self.pending.len()
            invariant
                i <= self.pending@.len(),
                forall|j: int| 0 <= j < i ==> self.pending@[j].0 != seq,
            decreases self.pending@.len() - i,
        {
            if self.pending[i].0 == seq {
                return Some(i);
            }
            i = i + 1;
        }
        None
    }

    /// Accepts one packet from the transport, however late, early or
    /// duplicated it is, and releases every message that is now in
    /// order: the packet that closes the gap is released at once, an
    /// early packet is held back exactly once, a stale duplicate is
    /// dropped. Whatever send log the packets are drawn from,
    /// agreement with it is preserved, so releases stay an exact
    /// prefix of the log.
    pub fn on_packet(&mut self, seq: usize, payload: u64)
        requires
            old(self).wf(),
        ensures
            final(self).wf(),
            final(self).drained == old(self).drained,
            final(self).delivered@.len() >= old(self).delivered@.len(),
            final(self).delivered@.take(old(self).delivered@.len() as int) == old(self).delivered@,
            forall|sent: Seq<u64>|
                old(self).consistent_with(sent) && seq < sent.len() && sent[seq as int] == payload
                    ==> final(self).consistent_with(sent),
            seq < old(self).delivered@.len() ==> *final(self) == *old(self),
            seq == old(self).delivered@.len() ==> final(self).delivered@.len() > old(self).delivered@.len() && final(self).delivered@[seq as int] == payload,
            seq > old(self).delivered@.len() ==> final(self).delivered@ == old(self).delivered@,
            seq > old(self).delivered@.len() && (forall|i: int|
                0 <= i < old(self).pending@.len() ==> old(self).pending@[i].0 != seq) ==> final(self).pending@ == old(self).pending@.push((seq, payload)),
            seq > old(self).delivered@.len() && (exists|i: int|
                0 <= i < old(self).pending@.len() && old(self).pending@[i].0 == seq) ==> *final(self) == *old(self),
    {
        let ghost pre = *self;
        if seq < self.delivered.len() {
            // A retransmission of something already released.
            proof {
                assert(self.delivered@.take(pre.delivered@.len() as int) =~= pre.delivered@);
            }
            return ;
        }
        if seq > self.delivered.len() {
            // Ahead of the gap: hold it back once.
            if self.find_pending(seq).is_none() {
                self.pending.push((seq, payload));
            }
            proof {
                assert(self.delivered@.take(pre.delivered@.len() as int) =~= pre.delivered@);
            }
            return ;
        }
        // Exactly the next expected message: release it, then every
        // held-back packet that now continues the run.
        self.delivered.push(payload);
        proof {
            assert forall|sent: Seq<u64>|
                pre.consistent_with(sent) && seq < sent.len() && sent[seq as int]
                    == payload implies self.consistent_with(sent) by {
                assert(self.delivered@ =~= sent.take(self.delivered@.len() as int));
            }
        }
        loop
            invariant
                pre == *old(self),
                seq == pre.delivered@.len(),
                self.wf(),
                self.drained == pre.drained,
                self.delivered@.len() > pre.delivered@.len(),
                self.delivered@[seq as int] == payload,
                self.delivered@.take(pre.delivered@.len() as int) == pre.delivered@,
                forall|sent: Seq<u64>|
                    pre.consistent_with(sent) && seq < sent.len() && sent[seq as int] == payload
                        ==> self.consistent_with(sent),
            decreases self.pending@.len(),
        {
            let next: usize = self.delivered.len();
            let found = self.find_pending(next);
            match found {
                Option::Some(i) => {
                    let ghost mid = *self;
                    let (_, held): (usize, u64) = self.pending[i];
                    self.pending.remove(i);
                    self.delivered.push(held);
                    proof {
                        assert(self.delivered@.take(pre.delivered@.len() as int)
                            =~= pre.delivered@);
                        assert forall|sent: Seq<u64>|
                            pre.consistent_with(sent) && seq < sent.len() && sent[seq as int]
                                == payload implies self.consistent_with(sent) by {
                            assert(mid.consistent_with(sent));
                            assert(sent[next as int] == held);
                            assert(self.delivered@ =~= sent.take(self.delivered@.len() as int));
                            assert forall|k: int|
                                0 <= k < self.pending@.len() implies self.pending@[k].0
                                < sent.len() && sent[self.pending@[k].0 as int]
                                == self.pending@[k].1 by {
                                assert(self.pending@[k] == mid.pending@.remove(i as int)[k]);
                            }
                        }
                    }
                },
                Option::None => {
                    return ;
                },
            }
        }
    }

    /// Drains the messages released since the last poll, in order.
    pub fn receive(&mut self) -> (out: Vec<u64>)
        requires
            old(self).wf(),
        ensures
            final(self).wf(),
            final(self).delivered@ == old(self).delivered@,
            final(self).pending@ == old(self).pending@,
            final(self).drained == final(self).delivered@.len(),
            out@ == old(self).delivered@.subrange(
                old(self).drained as int,
                old(self).delivered@.len() as int,
            ),
    {
        let mut out: Vec<u64> = Vec::new();
        let mut k: usize = self.drained;
        while k < self.delivered.len()
            invariant
                self.drained <= k <= self.delivered@.len(),
                out@ == self.delivered@.subrange(self.drained as int, k as int),
            decreases self.delivered@.len() - k,
        {
            out.push(self.delivered[k]);
            k = k + 1;
            proof {
                assert(out@ =~= self.delivered@.subrange(self.drained as int, k as int));
            }
        }
        self.drained = self.delivered.len();
        out
    }
}

/// On an ordered reliable channel the application observes exactly a
/// prefix of the send log: if A was sent before B, A is released
/// before B, and nothing is released that was not sent.
pub proof fn lemma_ordered_reliable_in_order(r: OrderedReliableReceiver, sent: Seq<u64>)
    requires
        r.consistent_with(sent),
    ensures
        r.delivered@.len() <= sent.len(),
        forall|k: int| 0 <= k < r.delivered@.len() ==> r.delivered@[k] == sent[k],
{
    assert forall|k: int| 0 <= k < r.delivered@.len() implies r.delivered@[k] == sent[k] by {
        assert(r.delivered@[k] == sent.take(r.delivered@.len() as int)[k]);
    }
}

/// One declared channel with its delivery contract and its live
/// send/receive state.
pub struct ChannelDef {
    pub id: u64,
    pub reliability: ChannelReliability,
    pub ordering: ChannelOrdering,
    /// Every message ever sent on this channel, in send order;
    /// position is the sequence number. For a reliable channel this
    /// doubles as the retransmission buffer.
    pub sent_log: Vec<u64>,
    /// Sequence numbers below this need no further transmission: for
    /// a reliable channel they were acknowledged, for an unreliable
    /// one they were handed to the transport once.
    pub ack_floor: usize,
    /// Reorder machinery of the receive side, used when the channel
    /// is ordered and reliable.
    pub rx: OrderedReliableReceiver,
    /// Receive queue used by channels without an ordering guarantee:
    /// packets are released in arrival order.
    pub rx_ready: Vec<u64>,
}

impl ChannelDef {
    pub open spec fn wf(self) -> bool {
        self.ack_floor <= self.sent_log@.len() && self.rx.wf()
    }
}

/// Declares named logical channels and multiplexes traffic onto them.
/// Declaration happens once, before any traffic; messages are bound
/// to exactly one channel at send time.
pub struct ChannelManager {
    pub channels: Vec<ChannelDef>,
    /// Set once the first message is accepted; declaring a channel
    /// after that is a configuration error.
    pub traffic_started: bool,
    /// Set when the transport reports the connection lost; all
    /// further sends are refused.
    pub disconnected: bool,
}

impl ChannelManager {
    pub open spec fn wf(self) -> bool {
        &&& forall|i: int, j: int|
            0 <= i < j < self.channels@.len() ==> self.channels@[i].id != self.channels@[j].id
        &&& forall|i: int| 0 <= i < self.channels@.len() ==> self.channels@[i].wf()
    }

    pub open spec fn spec_has_channel(self, id: u64) -> bool {
        exists|i: int| 0 <= i < self.channels@.len() && self.channels@[i].id == id
    }

    pub fn new() -> (r: Self)
        ensures
            r.wf(),
            !r.traffic_started,
            !r.disconnected,
            r.channels@.len() == 0,
    {
        ChannelManager { channels: Vec::new(), traffic_started: false, disconnected: false }
    }

    /// Index of the channel declared under `id`, if any.
    fn find(&self, id: u64) -> (r: Option<usize>)
        ensures
            match r {
                Some(i) => i < self.channels@.len() && self.channels@[i as int].id == id,
                None => !self.spec_has_channel(id),
            },
    {
        let mut i: usize = 0;
        while i < self.channels.len()
            invariant
                i <= self.channels@.len(),
                forall|j: int| 0 <= j < i ==> self.channels@[j].id != id,
            decreases self.channels@.len() - i,
        {
            if self.channels[i].id == id {
                return Some(i);
            }
            i = i + 1;
        }
        None
    }

    /// Registers a channel before any traffic flows on it. Declaring
    /// after traffic has started, or declaring an id twice, is a
    /// configuration error and changes nothing.
    pub fn declare_channel(
        &mut self,
        id: u64,
        reliability: ChannelReliability,
        ordering: ChannelOrdering,
    ) -> (r: Result<(), ConfigError>)
        requires
            old(self).wf(),
        ensures
            final(self).wf(),
            final(self).traffic_started == old(self).traffic_started,
            final(self).disconnected == old(self).disconnected,
            old(self).traffic_started ==> r == Result::<(), ConfigError>::Err(
                ConfigError::TrafficAlreadyStarted,
            ) && final(self).channels@ == old(self).channels@,
            !old(self).traffic_started && old(self).spec_has_channel(id) ==> r == Result::<
                (),
                ConfigError,
            >::Err(ConfigError::DuplicateChannel) && final(self).channels@ == old(self).channels@,
            !old(self).traffic_started && !old(self).spec_has_channel(id) ==> {
                let declared = final(self).channels@[old(self).channels@.len() as int];
                &&& r == Result::<(), ConfigError>::Ok(())
                &&& final(self).channels@.len() == old(self).channels@.len() + 1
                &&& final(self).spec_has_channel(id)
                &&& final(self).channels@.take(old(self).channels@.len() as int) == old(self).channels@
                &&& declared.id == id
                &&& declared.reliability == reliability
                &&& declared.ordering == ordering
                &&& declared.sent_log@.len() == 0
                &&& declared.ack_floor == 0
                &&& declared.rx.delivered@.len() == 0
                &&& declared.rx.pending@.len() == 0
                &&& declared.rx.drained == 0
                &&& declared.rx_ready@.len() == 0
            },
    {
        if self.traffic_started {
            return Err(ConfigError::TrafficAlreadyStarted);
        }
        if self.find(id).is_some() {
            return Err(ConfigError::DuplicateChannel);
        }
        let def = ChannelDef {
            id,
            reliability,
            ordering,
            sent_log: Vec::new(),
            ack_floor: 0,
            rx: OrderedReliableReceiver::new(),
            rx_ready: Vec::new(),
        };
        self.channels.push(def);
        proof {
            assert(self.channels@.take(old(self).channels@.len() as int) =~= old(self).channels@);
            assert(self.channels@[old(self).channels@.len() as int].id == id);
        }
        Ok(())
    }

    /// Accepts a message for outgoing delivery on its channel: the
    /// message is appended to the channel's send log and stamped with
    /// the next sequence number. Sending on an undeclared channel or
    /// after a disconnect is refused and changes nothing.
    pub fn send(&mut self, id: u64, payload: u64) -> (r: Result<usize, SendError>)
        requires
            old(self).wf(),
        ensures
            final(self).wf(),
            final(self).disconnected == old(self).disconnected,
            old(self).disconnected ==> r == Result::<usize, SendError>::Err(
                SendError::Disconnected,
            ) && *final(self) == *old(self),
            !old(self).disconnected && !old(self).spec_has_channel(id) ==> r == Result::<
                usize,
                SendError,
            >::Err(SendError::UnknownChannel) && *final(self) == *old(self),
            !old(self).disconnected && old(self).spec_has_channel(id) ==> {
                &&& final(self).traffic_started
                &&& final(self).channels@.len() == old(self).channels@.len()
                &&& forall|i: int|
                    0 <= i < old(self).channels@.len() && old(self).channels@[i].id != id ==> final(self).channels@[i] == old(self).channels@[i]
                &&& forall|i: int|
                    0 <= i < old(self).channels@.len() && old(self).channels@[i].id == id ==> {
                        &&& r == Result::<usize, SendError>::Ok(
                            old(self).channels@[i].sent_log@.len() as usize,
                        )
                        &&& final(self).channels@[i].sent_log@ == old(self).channels@[i].sent_log@.push(payload)
                        &&& final(self).channels@[i].id == old(self).channels@[i].id
                        &&& final(self).channels@[i].reliability == old(self).channels@[i].reliability
                        &&& final(self).channels@[i].ordering == old(self).channels@[i].ordering
                        &&& final(self).channels@[i].ack_floor == old(self).channels@[i].ack_floor
                        &&& final(self).channels@[i].rx == old(self).channels@[i].rx
                        &&& final(self).channels@[i].rx_ready@ == old(self).channels@[i].rx_ready@
                    }
            },
    {
        if self.disconnected {
            return Err(SendError::Disconnected);
        }
        match self.find(id) {
            Option::Some(i) => {
                let seq: usize = self.channels[i].sent_log.len();
                let mut def = self.channels.remove(i);
                def.sent_log.push(payload);
                self.channels.insert(i, def);
                self.traffic_started = true;
                proof {
                    assert forall|k: int|
                        0 <= k < old(self).channels@.len() && old(self).channels@[k].id
                            != id implies self.channels@[k] == old(self).channels@[k] by {
                        assert(self.channels@ == old(self).channels@.update(
                            i as int,
                            self.channels@[i as int],
                        ));
                    }
                }
                Ok(seq)
            },
            Option::None => Err(SendError::UnknownChannel),
        }
    }

    /// The stamped packets the transport should put on the wire now:
    /// for a reliable channel every message not yet acknowledged
    /// (sending them again until acknowledged is what makes the
    /// channel reliable); for an unreliable channel each message
    /// exactly once, never to be retried.
    pub fn poll_outgoing(&mut self, id: u64) -> (out: Vec<(usize, u64)>)
        requires
            old(self).wf(),
        ensures
            final(self).wf(),
            final(self).traffic_started == old(self).traffic_started,
            final(self).disconnected == old(self).disconnected,
            final(self).channels@.len() == old(self).channels@.len(),
            !old(self).spec_has_channel(id) ==> *final(self) == *old(self) && out@.len() == 0,
            forall|i: int|
                0 <= i < old(self).channels@.len() && old(self).channels@[i].id != id ==> final(self).channels@[i] == old(self).channels@[i],
            forall|i: int|
                0 <= i < old(self).channels@.len() && old(self).channels@[i].id == id ==> {
                    &&& out@.len() == old(self).channels@[i].sent_log@.len() - old(self).channels@[i].ack_floor
                    &&& forall|k: int|
                        0 <= k < out@.len() ==> out@[k] == (
                        (old(self).channels@[i].ack_floor + k) as usize,
                        old(self).channels@[i].sent_log@[old(self).channels@[i].ack_floor + k],
                        )
                    &&& final(self).channels@[i].sent_log@ == old(self).channels@[i].sent_log@
                    &&& final(self).channels@[i].rx == old(self).channels@[i].rx
                    &&& final(self).channels@[i].rx_ready@ == old(self).channels@[i].rx_ready@
                    &&& final(self).channels@[i].id == old(self).channels@[i].id
                    &&& final(self).channels@[i].reliability == old(self).channels@[i].reliability
                    &&& final(self).channels@[i].ordering == old(self).channels@[i].ordering
                    &&& old(self).channels@[i].reliability == ChannelReliability::Reliable ==> final(self).channels@[i].ack_floor == old(self).channels@[i].ack_floor
                    &&& old(self).channels@[i].reliability == ChannelReliability::Unreliable
                        ==> final(self).channels@[i].ack_floor == old(self).channels@[i].sent_log@.len()
                },
    {
        match self.find(id) {
            Option::Some(i) => {
                let mut def = self.channels.remove(i);
                let mut out: Vec<(usize, u64)> = Vec::new();
                let mut k: usize = def.ack_floor;
                while k < def.sent_log.len()
                    invariant
                        def.ack_floor <= k <= def.sent_log@.len(),
                        out@.len() == k - def.ack_floor,
                        forall|m: int|
                            0 <= m < out@.len() ==> out@[m] == (
                            (def.ack_floor + m) as usize,
                            def.sent_log@[def.ack_floor + m],
                            ),
                    decreases def.sent_log@.len() - k,
                {
                    out.push((k, def.sent_log[k]));
                    k = k + 1;
                }
                if matches!(def.reliability, ChannelReliability::Unreliable) {
                    def.ack_floor = def.sent_log.len();
                }
                self.channels.insert(i, def);
                proof {
                    assert forall|m: int|
                        0 <= m < old(self).channels@.len() && old(self).channels@[m].id
                            != id implies self.channels@[m] == old(self).channels@[m] by {
                        assert(self.channels@ == old(self).channels@.update(
                            i as int,
                            self.channels@[i as int],
                        ));
                    }
                }
                out
            },
            Option::None => Vec::new(),
        }
    }

    /// Records a cumulative acknowledgement from the peer: everything
    /// below `upto` arrived and needs no retransmission. Stale or
    /// impossible acknowledgements are ignored.
    pub fn on_ack(&mut self, id: u64, upto: usize)
        requires
            old(self).wf(),
        ensures
            final(self).wf(),
            final(self).traffic_started == old(self).traffic_started,
            final(self).disconnected == old(self).disconnected,
            final(self).channels@.len() == old(self).channels@.len(),
            !old(self).spec_has_channel(id) ==> *final(self) == *old(self),
            forall|i: int|
                0 <= i < old(self).channels@.len() && old(self).channels@[i].id != id ==> final(self).channels@[i] == old(self).channels@[i],
            forall|i: int|
                0 <= i < old(self).channels@.len() && old(self).channels@[i].id == id ==> {
                    &&& final(self).channels@[i].ack_floor == if old(self).channels@[i].ack_floor
                        <= upto <= old(self).channels@[i].sent_log@.len() {
                        upto
                    } else {
                        old(self).channels@[i].ack_floor
                    }
                    &&& final(self).channels@[i].sent_log@ == old(self).channels@[i].sent_log@
                    &&& final(self).channels@[i].rx == old(self).channels@[i].rx
                    &&& final(self).channels@[i].rx_ready@ == old(self).channels@[i].rx_ready@
                    &&& final(self).channels@[i].id == old(self).channels@[i].id
                    &&& final(self).channels@[i].reliability == old(self).channels@[i].reliability
                    &&& final(self).channels@[i].ordering == old(self).channels@[i].ordering
                },
    {
        match self.find(id) {
            Option::Some(i) => {
                let mut def = self.channels.remove(i);
                if upto >= def.ack_floor && upto <= def.sent_log.len() {
                    def.ack_floor = upto;
                }
                self.channels.insert(i, def);
                proof {
                    assert forall|m: int|
                        0 <= m < old(self).channels@.len() && old(self).channels@[m].id
                            != id implies self.channels@[m] == old(self).channels@[m] by {
                        assert(self.channels@ == old(self).channels@.update(
                            i as int,
                            self.channels@[i as int],
                        ));
                    }
                }
            },
            Option::None => {},
        }
    }

    /// Feeds one packet that arrived from the transport into its
    /// channel. An ordered reliable channel buffers and reorders; any
    /// other channel releases the payload in arrival order. Packets
    /// for unknown channels are dropped. Whatever send log the
    /// ordered reliable packets are drawn from, the receiver's
    /// agreement with it is preserved.
    pub fn deliver_packet(&mut self, id: u64, seq: usize, payload: u64)
        requires
            old(self).wf(),
        ensures
            final(self).wf(),
            final(self).traffic_started == old(self).traffic_started,
            final(self).disconnected == old(self).disconnected,
            final(self).channels@.len() == old(self).channels@.len(),
            !old(self).spec_has_channel(id) ==> *final(self) == *old(self),
            forall|i: int|
                0 <= i < old(self).channels@.len() && old(self).channels@[i].id != id ==> final(self).channels@[i] == old(self).channels@[i],
            forall|i: int|
                0 <= i < old(self).channels@.len() && old(self).channels@[i].id == id ==> {
                    &&& final(self).channels@[i].sent_log@ == old(self).channels@[i].sent_log@
                    &&& final(self).channels@[i].ack_floor == old(self).channels@[i].ack_floor
                    &&& final(self).channels@[i].id == old(self).channels@[i].id
                    &&& final(self).channels@[i].reliability == old(self).channels@[i].reliability
                    &&& final(self).channels@[i].ordering == old(self).channels@[i].ordering
                    &&& (old(self).channels@[i].reliability == ChannelReliability::Reliable && old(self).channels@[i].ordering == ChannelOrdering::Ordered) ==> {
                        &&& final(self).channels@[i].rx_ready@ == old(self).channels@[i].rx_ready@
                        &&& final(self).channels@[i].rx.drained == old(self).channels@[i].rx.drained
                        &&& forall|sent: Seq<u64>|
                            old(self).channels@[i].rx.consistent_with(sent) && seq < sent.len()
                                && sent[seq as int] == payload ==> final(self).channels@[i].rx.consistent_with(sent)
                        &&& seq < old(self).channels@[i].rx.delivered@.len() ==> final(self).channels@[i].rx == old(self).channels@[i].rx
                        &&& seq == old(self).channels@[i].rx.delivered@.len() ==> final(self).channels@[i].rx.delivered@.len() > old(self).channels@[i].rx.delivered@.len()
                            && final(self).channels@[i].rx.delivered@[seq as int] == payload
                        &&& seq > old(self).channels@[i].rx.delivered@.len() ==> final(self).channels@[i].rx.delivered@ == old(self).channels@[i].rx.delivered@
                        &&& seq > old(self).channels@[i].rx.delivered@.len() && (forall|k: int|
                            0 <= k < old(self).channels@[i].rx.pending@.len() ==> old(self).channels@[i].rx.pending@[k].0 != seq)
                            ==> final(self).channels@[i].rx.pending@ == old(self).channels@[i].rx.pending@.push((seq, payload))
                    }
                    &&& !(old(self).channels@[i].reliability == ChannelReliability::Reliable && old(self).channels@[i].ordering == ChannelOrdering::Ordered) ==> {
                        &&& final(self).channels@[i].rx == old(self).channels@[i].rx
                        &&& final(self).channels@[i].rx_ready@ == old(self).channels@[i].rx_ready@.push(payload)
                    }
                },
    {
        match self.find(id) {
            Option::Some(i) => {
                let mut def = self.channels.remove(i);
                if matches!(def.reliability, ChannelReliability::Reliable) && matches!(
                    def.ordering,
                    ChannelOrdering::Ordered,
                ) {
                    def.rx.on_packet(seq, payload);
                } else {
                    def.rx_ready.push(payload);
                }
                self.channels.insert(i, def);
                proof {
                    assert forall|m: int|
                        0 <= m < old(self).channels@.len() && old(self).channels@[m].id
                            != id implies self.channels@[m] == old(self).channels@[m] by {
                        assert(self.channels@ == old(self).channels@.update(
                            i as int,
                            self.channels@[i as int],
                        ));
                    }
                }
            },
            Option::None => {},
        }
    }

    /// Drains the messages that are ready for the application on one
    /// channel, in contract order: send order on an ordered reliable
    /// channel, arrival order otherwise. Non-blocking; an unknown
    /// channel yields nothing.
    pub fn receive(&mut self, id: u64) -> (out: Vec<u64>)
        requires
            old(self).wf(),
        ensures
            final(self).wf(),
            final(self).traffic_started == old(self).traffic_started,
            final(self).disconnected == old(self).disconnected,
            final(self).channels@.len() == old(self).channels@.len(),
            !old(self).spec_has_channel(id) ==> *final(self) == *old(self) && out@.len() == 0,
            forall|i: int|
                0 <= i < old(self).channels@.len() && old(self).channels@[i].id != id ==> final(self).channels@[i] == old(self).channels@[i],
            forall|i: int|
                0 <= i < old(self).channels@.len() && old(self).channels@[i].id == id ==> {
                    &&& final(self).channels@[i].sent_log@ == old(self).channels@[i].sent_log@
                    &&& final(self).channels@[i].ack_floor == old(self).channels@[i].ack_floor
                    &&& final(self).channels@[i].id == old(self).channels@[i].id
                    &&& final(self).channels@[i].reliability == old(self).channels@[i].reliability
                    &&& final(self).channels@[i].ordering == old(self).channels@[i].ordering
                    &&& (old(self).channels@[i].reliability == ChannelReliability::Reliable && old(self).channels@[i].ordering == ChannelOrdering::Ordered) ==> {
                        &&& out@ == old(self).channels@[i].rx.delivered@.subrange(
                            old(self).channels@[i].rx.drained as int,
                            old(self).channels@[i].rx.delivered@.len() as int,
                        )
                        &&& final(self).channels@[i].rx.delivered@ == old(self).channels@[i].rx.delivered@
                        &&& final(self).channels@[i].rx.pending@ == old(self).channels@[i].rx.pending@
                        &&& final(self).channels@[i].rx.drained == final(self).channels@[i].rx.delivered@.len()
                        &&& final(self).channels@[i].rx_ready@ == old(self).channels@[i].rx_ready@
                    }
                    &&& !(old(self).channels@[i].reliability == ChannelReliability::Reliable && old(self).channels@[i].ordering == ChannelOrdering::Ordered) ==> {
                        &&& out@ == old(self).channels@[i].rx_ready@
                        &&& final(self).channels@[i].rx == old(self).channels@[i].rx
                        &&& final(self).channels@[i].rx_ready@.len() == 0
                    }
                },
    {
        match self.find(id) {
            Option::Some(i) => {
                let mut def = self.channels.remove(i);
                let out: Vec<u64>;
                if matches!(def.reliability, ChannelReliability::Reliable) && matches!(
                    def.ordering,
                    ChannelOrdering::Ordered,
                ) {
                    out = def.rx.receive();
                } else {
                    let mut drained: Vec<u64> = Vec::new();
                    core::mem::swap(&mut drained, &mut def.rx_ready);
                    out = drained;
                }
                self.channels.insert(i, def);
                proof {
                    assert forall|m: int|
                        0 <= m < old(self).channels@.len() && old(self).channels@[m].id
                            != id implies self.channels@[m] == old(self).channels@[m] by {
                        assert(self.channels@ == old(self).channels@.update(
                            i as int,
                            self.channels@[i as int],
                        ));
                    }
                }
                out
            },
            Option::None => Vec::new(),
        }
    }

    /// The transport reported the connection dead: all further
    /// network-dependent processing is refused from here on.
    pub fn on_disconnect(&mut self)
        ensures
            final(self).disconnected,
            final(self).channels@ == old(self).channels@,
            final(self).traffic_started == old(self).traffic_started,
    {
        self.disconnected = true;
    }
}

} // verus!
