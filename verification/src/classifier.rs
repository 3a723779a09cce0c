//! The packet classifier: Ethernet, IPv4 and UDP header inspection, the port
//! whitelist and the per-processor flood threshold.

use crate::config::{DEFAULT_FLOOD_THRESHOLD, DEFAULT_WHITELIST_PORT};
use crate::counter::{slot_of, Counter, CounterField, CounterStore};
use crate::cursor::{BoundsError, HeaderCursor};
use crate::wire::{
    be16, eth_hdr_len, eth_hdr_size, ether_type_ipv4, ip_proto_udp, ipv4_declared_len,
    ipv4_hdr_len, udp_hdr_len, ETHER_TYPE_OFFSET, IPV4_PROTO_OFFSET, IPV4_VIHL_OFFSET,
    UDP_DST_PORT_OFFSET,
};
use vstd::prelude::*;

verus! {

/// What the hook does with a packet.
#[derive(Clone, Copy, Debug, PartialEq, Eq, Structural)]
pub enum Action {
    /// Hand the packet on to the network stack.
    Pass,
    /// Discard the packet: the flood threshold is exceeded.
    Drop,
    /// The packet could not be classified safely.
    Aborted,
}

/// Why a packet could not be classified.
#[derive(Clone, Copy, Debug, PartialEq, Eq, Structural)]
pub enum GuardError {
    /// A header would have been read past the end of the packet.
    OutOfBounds,
    /// The packet has to be counted and the processor has no counter slot.
    NoCounter,
}

/// What the headers of a packet say about it, when all of them lie inside the
/// packet.
#[derive(Clone, Copy, Debug, PartialEq, Eq, Structural)]
pub enum Inspection {
    /// The frame does not carry IPv4.
    NotIpv4,
    /// The IPv4 packet does not carry UDP.
    NotUdp,
    /// A UDP datagram to the whitelisted destination port.
    Whitelisted,
    /// A UDP datagram to any other port: it is subject to flood accounting.
    Counted,
}

/// Whether the ether-type of the frame `p` is that of IPv4. Meaningful where
/// the Ethernet header lies inside `p`.
pub open spec fn frame_is_ipv4(p: Seq<u8>) -> bool {
    be16(p[ETHER_TYPE_OFFSET as int], p[ETHER_TYPE_OFFSET + 1]) == ether_type_ipv4()
}

/// Whether the protocol field of the IPv4 header in `p` is that of UDP.
/// Meaningful where the IPv4 header lies inside `p`.
pub open spec fn packet_is_udp(p: Seq<u8>) -> bool {
    p[eth_hdr_len() + IPV4_PROTO_OFFSET] == ip_proto_udp()
}

/// Where the UDP header of `p` starts: behind the Ethernet header and an IPv4
/// header of the length that the IPv4 header declares.
pub open spec fn udp_offset(p: Seq<u8>) -> int {
    eth_hdr_len() + ipv4_declared_len(p[eth_hdr_len() + IPV4_VIHL_OFFSET])
}

/// The destination port of the UDP header in `p`, in host byte order.
pub open spec fn dst_port(p: Seq<u8>) -> int {
    be16(p[udp_offset(p) + UDP_DST_PORT_OFFSET], p[udp_offset(p) + UDP_DST_PORT_OFFSET + 1])
}

/// The outcome of inspecting the headers of `p` in order: the first header
/// that does not lie inside the packet is a bounds error, the first field that
/// names another protocol ends the inspection.
pub open spec fn inspect_spec(p: Seq<u8>, whitelist_port: u16) -> Result<Inspection, BoundsError> {
    if p.len() < eth_hdr_len() {
        Err(BoundsError)
    } else if !frame_is_ipv4(p) {
        Ok(Inspection::NotIpv4)
    } else if p.len() < eth_hdr_len() + ipv4_hdr_len() {
        Err(BoundsError)
    } else if !packet_is_udp(p) {
        Ok(Inspection::NotUdp)
    } else if p.len() < udp_offset(p) + udp_hdr_len() {
        Err(BoundsError)
    } else if dst_port(p) == whitelist_port {
        Ok(Inspection::Whitelisted)
    } else {
        Ok(Inspection::Counted)
    }
}

/// The record `c` after one more packet was counted under `threshold`: the
/// received count is incremented, and the dropped count too if the new
/// received count exceeds the threshold.
pub open spec fn counted(c: Counter, threshold: u64) -> Counter {
    let received = c.bumped(CounterField::Received);
    if received.udp_packets > threshold {
        received.bumped(CounterField::Dropped)
    } else {
        received
    }
}

/// The action for a packet that is counted into the record `c` under
/// `threshold`: the comparison is made after the increment and is strict.
pub open spec fn counted_action(c: Counter, threshold: u64) -> Action {
    if c.bumped(CounterField::Received).udp_packets > threshold {
        Action::Drop
    } else {
        Action::Pass
    }
}

/// The action that stands for an outcome: every error becomes `Aborted`.
pub open spec fn action_of(outcome: Result<Action, GuardError>) -> Action {
    match outcome {
        Ok(action) => action,
        Err(_) => Action::Aborted,
    }
}

/// The configuration of the classifier. It does not change once it is set.
#[derive(Clone, Copy, Debug, PartialEq, Eq, Structural)]
pub struct PacketClassifier {
    /// Packets per epoch and processor that are admitted before drops begin.
    pub flood_threshold: u64,
    /// The destination port that is exempt from flood accounting.
    pub whitelist_port: u16,
}

impl PacketClassifier {
    /// The outcome of classifying `p` on a processor whose slot is `slot`.
    pub open spec fn outcome(self, p: Seq<u8>, slot: Option<Counter>) -> Result<
        Action,
        GuardError,
    > {
        match inspect_spec(p, self.whitelist_port) {
            Err(_) => Err(GuardError::OutOfBounds),
            Ok(Inspection::Counted) => match slot {
                Some(c) => Ok(counted_action(c, self.flood_threshold)),
                None => Err(GuardError::NoCounter),
            },
            Ok(_) => Ok(Action::Pass),
        }
    }

    /// The record `c` of a processor after it classified `p`: only a packet
    /// that is subject to flood accounting changes it.
    pub open spec fn slot_after(self, p: Seq<u8>, c: Counter) -> Counter {
        if inspect_spec(p, self.whitelist_port) == Ok::<Inspection, BoundsError>(
            Inspection::Counted,
        ) {
            counted(c, self.flood_threshold)
        } else {
            c
        }
    }

    /// The store after processor `processor` classified `p`: at most the slot
    /// of that processor differs.
    pub open spec fn store_after(self, p: Seq<u8>, store: Seq<Counter>, processor: int) -> Seq<
        Counter,
    > {
        if 0 <= processor < store.len() {
            store.update(processor, self.slot_after(p, store[processor]))
        } else {
            store
        }
    }

    /// The record of a processor that held `c` and then classified `packets`
    /// in order, with no reset in between.
    pub open spec fn slot_after_all(self, packets: Seq<Seq<u8>>, c: Counter) -> Counter
        decreases packets.len(),
    {
        if packets.len() == 0 {
            c
        } else {
            self.slot_after(packets.last(), self.slot_after_all(packets.drop_last(), c))
        }
    }

    /// The action for `packets[i]` on a processor that held `c` and classified
    /// the packets before it in order.
    pub open spec fn action_at(self, packets: Seq<Seq<u8>>, c: Counter, i: int) -> Action {
        action_of(self.outcome(packets[i], Some(self.slot_after_all(packets.take(i), c))))
    }

    /// A classifier with the given flood threshold and whitelisted port.
    pub fn new(flood_threshold: u64, whitelist_port: u16) -> (classifier: PacketClassifier)
        ensures
            classifier.flood_threshold == flood_threshold,
            classifier.whitelist_port == whitelist_port,
    {
        PacketClassifier { flood_threshold, whitelist_port }
    }

    /// Follows the headers of `packet`: Ethernet at offset 0, IPv4 behind it,
    /// UDP behind the IPv4 header of the length that it declares. No header
    /// field is read before the whole header is known to lie inside the
    /// packet.
    pub fn inspect(&self, packet: &[u8]) -> (found: Result<Inspection, BoundsError>)
        ensures
            found == inspect_spec(packet@, self.whitelist_port),
    {
        let cursor = HeaderCursor::new(packet);
        let eth = match cursor.eth_at(0) {
            Ok(hdr) => hdr,
            Err(e) => {
                return Err(e);
            },
        };
        if !eth.is_ipv4() {
            return Ok(Inspection::NotIpv4);
        }
        let ip_offset = eth_hdr_size();
        let ip = match cursor.ipv4_at(ip_offset) {
            Ok(hdr) => hdr,
            Err(e) => {
                return Err(e);
            },
        };
        if !ip.is_udp() {
            return Ok(Inspection::NotUdp);
        }
        let udp_offset = ip_offset + ip.header_len();
        let udp = match cursor.udp_at(udp_offset) {
            Ok(hdr) => hdr,
            Err(e) => {
                return Err(e);
            },
        };
        if udp.dst_port() == self.whitelist_port {
            Ok(Inspection::Whitelisted)
        } else {
            Ok(Inspection::Counted)
        }
    }

    /// Classifies `packet` on processor `processor` of `store`. Every failure
    /// is resolved to `Aborted`. Only the slot of `processor` can change, and
    /// only when the packet is subject to flood accounting.
    pub fn classify(&self, packet: &[u8], store: &mut CounterStore, processor: usize) -> (action:
        Action)
        ensures
            action == action_of(self.outcome(packet@, slot_of(old(store)@, processor as int))),
            final(store)@ == self.store_after(packet@, old(store)@, processor as int),
    {
        xdp_ddos_guard(self, packet, store.slot_mut(processor))
    }
}

impl Default for PacketClassifier {
    /// A flood threshold of 5000 packets and the DNS port, 53, on the
    /// whitelist.
    fn default() -> (classifier: Self)
        ensures
            classifier.flood_threshold == DEFAULT_FLOOD_THRESHOLD,
            classifier.whitelist_port == DEFAULT_WHITELIST_PORT,
    {
        PacketClassifier {
            flood_threshold: DEFAULT_FLOOD_THRESHOLD,
            whitelist_port: DEFAULT_WHITELIST_PORT,
        }
    }
}

/// Classifies `packet` for the processor whose counter slot is `slot`, or
/// which has none.
///
/// The headers are inspected first. A frame that is not IPv4, a packet that is
/// not UDP and a datagram to the whitelisted port pass and do not touch the
/// slot. Any other datagram increments the received count of the slot; if the
/// count then exceeds the flood threshold, the dropped count is incremented
/// too and the packet is dropped. Both counts wrap to zero past `u64::MAX`.
pub fn try_xdp_ddos_guard(
    classifier: &PacketClassifier,
    packet: &[u8],
    slot: Option<&mut Counter>,
) -> (outcome: Result<Action, GuardError>)
    ensures
        slot is None ==> outcome == classifier.outcome(packet@, None),
        slot matches Some(c) ==> outcome == classifier.outcome(packet@, Some(*c)) && *final(c)
            == classifier.slot_after(packet@, *c),
{
    match classifier.inspect(packet) {
        Err(_) => Err(GuardError::OutOfBounds),
        Ok(Inspection::Counted) => match slot {
            Some(counter) => {
                let received = counter.increment(CounterField::Received);
                if received > classifier.flood_threshold {
                    counter.increment(CounterField::Dropped);
                    Ok(Action::Drop)
                } else {
                    Ok(Action::Pass)
                }
            },
            None => Err(GuardError::NoCounter),
        },
        Ok(_) => Ok(Action::Pass),
    }
}

/// The entry point of the hook: classifies `packet` as
/// [`try_xdp_ddos_guard`] does and resolves every failure to `Aborted`.
pub fn xdp_ddos_guard(
    classifier: &PacketClassifier,
    packet: &[u8],
    slot: Option<&mut Counter>,
) -> (action: Action)
    ensures
        slot is None ==> action == action_of(classifier.outcome(packet@, None)),
        slot matches Some(c) ==> action == action_of(classifier.outcome(packet@, Some(*c)))
            && *final(c) == classifier.slot_after(packet@, *c),
{
    match try_xdp_ddos_guard(classifier, packet, slot) {
        Ok(action) => action,
        Err(_) => Action::Aborted,
    }
}

/// A frame with a complete Ethernet header that does not carry IPv4 passes,
/// and no slot of the store changes.
pub proof fn lemma_non_ipv4_passes(
    classifier: PacketClassifier,
    p: Seq<u8>,
    store: Seq<Counter>,
    processor: int,
)
    requires
        p.len() >= eth_hdr_len(),
        !frame_is_ipv4(p),
    ensures
        action_of(classifier.outcome(p, slot_of(store, processor))) == Action::Pass,
        classifier.store_after(p, store, processor) == store,
{
}

/// A UDP datagram over IPv4 to the whitelisted port passes and no slot of the
/// store changes, whatever the counts are: also where the flood threshold is
/// already exceeded.
pub proof fn lemma_whitelisted_passes(
    classifier: PacketClassifier,
    p: Seq<u8>,
    store: Seq<Counter>,
    processor: int,
)
    requires
        p.len() >= eth_hdr_len() + ipv4_hdr_len(),
        frame_is_ipv4(p),
        packet_is_udp(p),
        p.len() >= udp_offset(p) + udp_hdr_len(),
        dst_port(p) == classifier.whitelist_port,
    ensures
        action_of(classifier.outcome(p, slot_of(store, processor))) == Action::Pass,
        classifier.store_after(p, store, processor) == store,
{
}

/// A packet that ends before the end of a header that has to be read is
/// aborted, and no slot of the store changes: a packet shorter than the
/// Ethernet header, an IPv4 frame shorter than the Ethernet and IPv4 headers,
/// a UDP packet that ends before the end of its UDP header.
pub proof fn lemma_truncated_aborts(
    classifier: PacketClassifier,
    p: Seq<u8>,
    store: Seq<Counter>,
    processor: int,
)
    requires
        p.len() < eth_hdr_len() || (frame_is_ipv4(p) && (p.len() < eth_hdr_len() + ipv4_hdr_len()
            || (packet_is_udp(p) && p.len() < udp_offset(p) + udp_hdr_len()))),
    ensures
        classifier.outcome(p, slot_of(store, processor)) == Err::<Action, GuardError>(
            GuardError::OutOfBounds,
        ),
        action_of(classifier.outcome(p, slot_of(store, processor))) == Action::Aborted,
        classifier.store_after(p, store, processor) == store,
{
}

/// Classifying a packet never decreases a count, except that a count of
/// `u64::MAX` wraps to zero.
pub proof fn lemma_counts_do_not_decrease(classifier: PacketClassifier, p: Seq<u8>, c: Counter)
    ensures
        classifier.slot_after(p, c).udp_packets >= c.udp_packets || (c.udp_packets == u64::MAX
            && classifier.slot_after(p, c).udp_packets == 0),
        classifier.slot_after(p, c).dropped >= c.dropped || (c.dropped == u64::MAX
            && classifier.slot_after(p, c).dropped == 0),
{
}

/// While a processor classifies `packets` in order and neither count can
/// reach `u64::MAX`, its counts at an earlier point are at most its counts at
/// a later point.
pub proof fn lemma_counts_monotone_in_epoch(
    classifier: PacketClassifier,
    packets: Seq<Seq<u8>>,
    c: Counter,
    i: int,
    j: int,
)
    requires
        c.udp_packets + packets.len() <= u64::MAX,
        c.dropped + packets.len() <= u64::MAX,
        0 <= i <= j <= packets.len(),
    ensures
        classifier.slot_after_all(packets.take(i), c).udp_packets <= classifier.slot_after_all(
            packets.take(j),
            c,
        ).udp_packets,
        classifier.slot_after_all(packets.take(i), c).dropped <= classifier.slot_after_all(
            packets.take(j),
            c,
        ).dropped,
    decreases j - i,
{
    if i < j {
        lemma_counts_monotone_in_epoch(classifier, packets, c, i, j - 1);
        lemma_counts_bounded(classifier, packets.take(j - 1), c);
        assert(packets.take(j).drop_last() =~= packets.take(j - 1));
    }
}

/// Each packet adds at most one to each count.
proof fn lemma_counts_bounded(classifier: PacketClassifier, packets: Seq<Seq<u8>>, c: Counter)
    requires
        c.udp_packets + packets.len() <= u64::MAX,
        c.dropped + packets.len() <= u64::MAX,
    ensures
        c.udp_packets <= classifier.slot_after_all(packets, c).udp_packets <= c.udp_packets
            + packets.len(),
        c.dropped <= classifier.slot_after_all(packets, c).dropped <= c.dropped + packets.len(),
    decreases packets.len(),
{
    if packets.len() > 0 {
        lemma_counts_bounded(classifier, packets.drop_last(), c);
    }
}

/// A processor that starts an epoch at zero and classifies packets that are
/// all subject to flood accounting has received as many as there were, and
/// has dropped those beyond the flood threshold.
pub proof fn lemma_counts_after_flood(classifier: PacketClassifier, packets: Seq<Seq<u8>>)
    requires
        packets.len() <= u64::MAX,
        forall|i: int|
            0 <= i < packets.len() ==> inspect_spec(
                #[trigger] packets[i],
                classifier.whitelist_port,
            ) == Ok::<Inspection, BoundsError>(Inspection::Counted),
    ensures
        classifier.slot_after_all(packets, Counter::zero()) == (Counter {
            udp_packets: packets.len() as u64,
            dropped: if packets.len() > classifier.flood_threshold {
                (packets.len() - classifier.flood_threshold) as u64
            } else {
                0
            },
        }),
    decreases packets.len(),
{
    if packets.len() > 0 {
        lemma_counts_after_flood(classifier, packets.drop_last());
    }
}

/// On one processor that starts an epoch at zero, of `flood_threshold + 1`
/// packets that are all subject to flood accounting the first
/// `flood_threshold` pass and the last one is dropped, which makes the
/// dropped count 1. A threshold of `u64::MAX` is left out: no count exceeds
/// it.
pub proof fn lemma_threshold_admitted_then_drop(
    classifier: PacketClassifier,
    packets: Seq<Seq<u8>>,
)
    requires
        classifier.flood_threshold < u64::MAX,
        packets.len() == classifier.flood_threshold + 1,
        forall|i: int|
            0 <= i < packets.len() ==> inspect_spec(
                #[trigger] packets[i],
                classifier.whitelist_port,
            ) == Ok::<Inspection, BoundsError>(Inspection::Counted),
    ensures
        forall|i: int|
            0 <= i < classifier.flood_threshold ==> #[trigger] classifier.action_at(
                packets,
                Counter::zero(),
                i,
            ) == Action::Pass,
        classifier.action_at(packets, Counter::zero(), classifier.flood_threshold as int)
            == Action::Drop,
        classifier.slot_after_all(packets, Counter::zero()) == (Counter {
            udp_packets: (classifier.flood_threshold + 1) as u64,
            dropped: 1,
        }),
{
    let t = classifier.flood_threshold as int;
    assert forall|i: int| 0 <= i <= t implies classifier.slot_after_all(
        #[trigger] packets.take(i),
        Counter::zero(),
    ) == (Counter { udp_packets: i as u64, dropped: 0 }) by {
        lemma_counts_after_flood(classifier, packets.take(i));
    }
    assert(packets.take(t + 1) =~= packets);
    lemma_counts_after_flood(classifier, packets);
}

} // verus!
