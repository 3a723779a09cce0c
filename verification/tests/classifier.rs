use xdp_ddos_agent::classifier::{
    try_xdp_ddos_guard, xdp_ddos_guard, Action, GuardError, Inspection, PacketClassifier,
};
use xdp_ddos_agent::counter::{Counter, CounterStore};
use xdp_ddos_agent::cursor::BoundsError;

const IPV4: u16 = 0x0800;
const ARP: u16 = 0x0806;
const IPV6: u16 = 0x86DD;
const UDP: u8 = 17;
const TCP: u8 = 6;
const ICMP: u8 = 1;

/// A frame of `len` bytes, zero but for the ether-type, the version and
/// header-length byte, the protocol and the destination port behind an IPv4
/// header of the declared length. A field that does not fit is left out.
fn frame(ether_type: u16, vihl: u8, proto: u8, dst_port: u16, len: usize) -> Vec<u8> {
    let mut p = vec![0u8; len];
    let mut put = |at: usize, byte: u8| {
        if at < len {
            p[at] = byte;
        }
    };
    put(12, (ether_type >> 8) as u8);
    put(13, (ether_type & 0xff) as u8);
    put(14, vihl);
    put(23, proto);
    let udp = 14 + ((vihl & 0x0f) as usize) * 4;
    put(udp + 2, (dst_port >> 8) as u8);
    put(udp + 3, (dst_port & 0xff) as u8);
    p
}

/// A UDP datagram over IPv4 without options and without payload: 42 bytes.
fn udp_packet(dst_port: u16) -> Vec<u8> {
    frame(IPV4, 0x45, UDP, dst_port, 42)
}

fn slots(store: &CounterStore) -> Vec<Counter> {
    store.as_slice().to_vec()
}

#[test]
fn non_ipv4_frame_passes_and_leaves_every_slot() {
    let classifier = PacketClassifier::default();
    for ether_type in [ARP, IPV6, 0x0000, 0xffff, 0x0801, 0x0900] {
        let mut store = CounterStore::new(3);
        store.increment(1, xdp_ddos_agent::CounterField::Received);
        let before = slots(&store);
        let packet = frame(ether_type, 0x45, UDP, 9999, 60);
        assert_eq!(classifier.classify(&packet, &mut store, 1), Action::Pass);
        assert_eq!(slots(&store), before);
        assert_eq!(classifier.inspect(&packet), Ok(Inspection::NotIpv4));
    }
}

#[test]
fn ether_type_is_read_in_network_byte_order() {
    let classifier = PacketClassifier::default();
    let mut counter = Counter::default();
    // 0x0008 on the wire is not IPv4, although it is 0x0800 with its bytes swapped.
    let swapped = frame(0x0008, 0x45, UDP, 9999, 42);
    assert_eq!(classifier.inspect(&swapped), Ok(Inspection::NotIpv4));
    assert_eq!(xdp_ddos_guard(&classifier, &swapped, Some(&mut counter)), Action::Pass);
    assert_eq!(counter, Counter { udp_packets: 0, dropped: 0 });
    let ipv4 = frame(IPV4, 0x45, UDP, 9999, 42);
    assert_eq!(ipv4[12], 0x08);
    assert_eq!(ipv4[13], 0x00);
    assert_eq!(classifier.inspect(&ipv4), Ok(Inspection::Counted));
}

#[test]
fn ipv4_frame_without_udp_passes_and_leaves_every_slot() {
    let classifier = PacketClassifier::default();
    for proto in [TCP, ICMP, 0u8, 16, 18, 255] {
        let mut store = CounterStore::new(2);
        let packet = frame(IPV4, 0x45, proto, 9999, 60);
        assert_eq!(classifier.inspect(&packet), Ok(Inspection::NotUdp));
        assert_eq!(classifier.classify(&packet, &mut store, 0), Action::Pass);
        assert_eq!(slots(&store), vec![Counter::default(); 2]);
    }
}

#[test]
fn whitelisted_port_passes_without_accounting() {
    let classifier = PacketClassifier::default();
    let mut store = CounterStore::new(1);
    let dns = udp_packet(53);
    assert_eq!(classifier.inspect(&dns), Ok(Inspection::Whitelisted));
    for _ in 0..10 {
        assert_eq!(classifier.classify(&dns, &mut store, 0), Action::Pass);
    }
    assert_eq!(store.get(0), Some(Counter { udp_packets: 0, dropped: 0 }));
}

#[test]
fn whitelisted_port_passes_when_threshold_is_exceeded() {
    let classifier = PacketClassifier::new(2, 53);
    let mut counter = Counter::default();
    let flood = udp_packet(4444);
    for _ in 0..5 {
        xdp_ddos_guard(&classifier, &flood, Some(&mut counter));
    }
    assert_eq!(counter, Counter { udp_packets: 5, dropped: 3 });
    let dns = udp_packet(53);
    assert_eq!(xdp_ddos_guard(&classifier, &dns, Some(&mut counter)), Action::Pass);
    assert_eq!(counter, Counter { udp_packets: 5, dropped: 3 });
    assert_eq!(xdp_ddos_guard(&classifier, &flood, Some(&mut counter)), Action::Drop);
    assert_eq!(counter, Counter { udp_packets: 6, dropped: 4 });
}

#[test]
fn destination_port_is_read_in_network_byte_order() {
    let classifier = PacketClassifier::default();
    let mut counter = Counter::default();
    // 0x3500 is port 53 with its bytes swapped: it is counted.
    let swapped = udp_packet(0x3500);
    assert_eq!(classifier.inspect(&swapped), Ok(Inspection::Counted));
    assert_eq!(xdp_ddos_guard(&classifier, &swapped, Some(&mut counter)), Action::Pass);
    assert_eq!(counter.udp_packets, 1);
    let dns = udp_packet(53);
    assert_eq!(dns[36], 0x00);
    assert_eq!(dns[37], 0x35);
    assert_eq!(classifier.inspect(&dns), Ok(Inspection::Whitelisted));
    // A port with a high byte.
    let wide = PacketClassifier::new(5000, 0x1f90);
    assert_eq!(wide.inspect(&udp_packet(8080)), Ok(Inspection::Whitelisted));
    assert_eq!(wide.inspect(&udp_packet(0x901f)), Ok(Inspection::Counted));
    assert_eq!(wide.inspect(&udp_packet(53)), Ok(Inspection::Counted));
}

#[test]
fn counted_packet_increments_received_only() {
    let classifier = PacketClassifier::default();
    let mut counter = Counter::default();
    let packet = udp_packet(4444);
    assert_eq!(
        try_xdp_ddos_guard(&classifier, &packet, Some(&mut counter)),
        Ok(Action::Pass)
    );
    assert_eq!(counter, Counter { udp_packets: 1, dropped: 0 });
    assert_eq!(
        try_xdp_ddos_guard(&classifier, &packet, Some(&mut counter)),
        Ok(Action::Pass)
    );
    assert_eq!(counter, Counter { udp_packets: 2, dropped: 0 });
}

#[test]
fn exactly_threshold_packets_are_admitted() {
    for threshold in [0u64, 1, 2, 7, 100] {
        let classifier = PacketClassifier::new(threshold, 53);
        let mut store = CounterStore::new(1);
        let packet = udp_packet(4444);
        for n in 1..=threshold {
            assert_eq!(classifier.classify(&packet, &mut store, 0), Action::Pass);
            assert_eq!(store.get(0), Some(Counter { udp_packets: n, dropped: 0 }));
        }
        assert_eq!(classifier.classify(&packet, &mut store, 0), Action::Drop);
        assert_eq!(
            store.get(0),
            Some(Counter { udp_packets: threshold + 1, dropped: 1 })
        );
        assert_eq!(classifier.classify(&packet, &mut store, 0), Action::Drop);
        assert_eq!(
            store.get(0),
            Some(Counter { udp_packets: threshold + 2, dropped: 2 })
        );
    }
}

#[test]
fn default_threshold_admits_five_thousand() {
    let classifier = PacketClassifier::default();
    assert_eq!(classifier.flood_threshold, 5000);
    assert_eq!(classifier.whitelist_port, 53);
    let mut counter = Counter::default();
    let packet = udp_packet(4444);
    for _ in 0..5000 {
        assert_eq!(xdp_ddos_guard(&classifier, &packet, Some(&mut counter)), Action::Pass);
    }
    assert_eq!(counter, Counter { udp_packets: 5000, dropped: 0 });
    assert_eq!(xdp_ddos_guard(&classifier, &packet, Some(&mut counter)), Action::Drop);
    assert_eq!(counter, Counter { udp_packets: 5001, dropped: 1 });
}

#[test]
fn udp_header_follows_ipv4_options() {
    let classifier = PacketClassifier::default();
    // Header length 6 words: the UDP header starts at 14 + 24 = 38.
    let mut packet = frame(IPV4, 0x46, UDP, 53, 46);
    assert_eq!(packet[40], 0x00);
    assert_eq!(packet[41], 0x35);
    assert_eq!(classifier.inspect(&packet), Ok(Inspection::Whitelisted));
    // What lies where the port would be without options does not count.
    packet[40] = 0x11;
    packet[41] = 0x5c;
    packet[36] = 0x00;
    packet[37] = 0x35;
    assert_eq!(classifier.inspect(&packet), Ok(Inspection::Counted));
    // One byte short of the UDP header.
    assert_eq!(classifier.inspect(&packet[..45]), Err(BoundsError));
    // The longest header, 15 words: the UDP header starts at 74 and ends at 82.
    let longest = frame(IPV4, 0x4f, UDP, 53, 82);
    assert_eq!(longest[76], 0x00);
    assert_eq!(longest[77], 0x35);
    assert_eq!(classifier.inspect(&longest), Ok(Inspection::Whitelisted));
    assert_eq!(classifier.inspect(&longest[..81]), Err(BoundsError));
}

#[test]
fn header_length_uses_the_low_nibble_only() {
    let classifier = PacketClassifier::default();
    // Version nibble 0xf, header length 5 words: the offset is still 34.
    let packet = frame(IPV4, 0xf5, UDP, 53, 42);
    assert_eq!(classifier.inspect(&packet), Ok(Inspection::Whitelisted));
    // A declared length of zero puts the UDP header right behind the Ethernet header.
    let mut zero = frame(IPV4, 0x40, UDP, 0, 34);
    zero[16] = 0x00;
    zero[17] = 0x35;
    assert_eq!(classifier.inspect(&zero), Ok(Inspection::Whitelisted));
    zero[17] = 0x36;
    assert_eq!(classifier.inspect(&zero), Ok(Inspection::Counted));
}

#[test]
fn truncated_packet_is_aborted_at_every_length() {
    let classifier = PacketClassifier::default();
    let whole = udp_packet(4444);
    for len in 0..42 {
        let mut store = CounterStore::new(2);
        store.increment(0, xdp_ddos_agent::CounterField::Received);
        let before = slots(&store);
        assert_eq!(
            classifier.classify(&whole[..len], &mut store, 0),
            Action::Aborted,
            "length {len}"
        );
        assert_eq!(slots(&store), before);
        assert_eq!(classifier.inspect(&whole[..len]), Err(BoundsError));
        let mut counter = Counter::default();
        assert_eq!(
            try_xdp_ddos_guard(&classifier, &whole[..len], Some(&mut counter)),
            Err(GuardError::OutOfBounds)
        );
        assert_eq!(counter, Counter::default());
    }
    let mut store = CounterStore::new(2);
    assert_eq!(classifier.classify(&whole, &mut store, 0), Action::Pass);
    assert_eq!(store.get(0), Some(Counter { udp_packets: 1, dropped: 0 }));
}

#[test]
fn truncation_is_judged_header_by_header() {
    let classifier = PacketClassifier::default();
    // Empty buffer and a buffer that ends inside the Ethernet header.
    assert_eq!(classifier.inspect(&[]), Err(BoundsError));
    assert_eq!(classifier.inspect(&frame(ARP, 0, 0, 0, 13)), Err(BoundsError));
    // A whole Ethernet header of another protocol: nothing more is read.
    assert_eq!(classifier.inspect(&frame(ARP, 0, 0, 0, 14)), Ok(Inspection::NotIpv4));
    // IPv4 that ends inside the IPv4 header, although the protocol byte is there.
    assert_eq!(
        classifier.inspect(&frame(IPV4, 0x45, TCP, 0, 33)),
        Err(BoundsError)
    );
    assert_eq!(classifier.inspect(&frame(IPV4, 0x45, TCP, 0, 34)), Ok(Inspection::NotUdp));
    // UDP that ends inside the UDP header, although the port is there.
    assert_eq!(
        classifier.inspect(&frame(IPV4, 0x45, UDP, 53, 41)),
        Err(BoundsError)
    );
    assert_eq!(
        classifier.inspect(&frame(IPV4, 0x45, UDP, 53, 42)),
        Ok(Inspection::Whitelisted)
    );
}

#[test]
fn packet_without_counter_slot() {
    let classifier = PacketClassifier::default();
    let counted = udp_packet(4444);
    assert_eq!(
        try_xdp_ddos_guard(&classifier, &counted, None),
        Err(GuardError::NoCounter)
    );
    assert_eq!(xdp_ddos_guard(&classifier, &counted, None), Action::Aborted);
    // Packets that are not counted need no slot.
    assert_eq!(try_xdp_ddos_guard(&classifier, &udp_packet(53), None), Ok(Action::Pass));
    assert_eq!(
        try_xdp_ddos_guard(&classifier, &frame(ARP, 0, 0, 0, 14), None),
        Ok(Action::Pass)
    );
    // A bounds error comes before the missing slot.
    assert_eq!(
        try_xdp_ddos_guard(&classifier, &counted[..41], None),
        Err(GuardError::OutOfBounds)
    );
}

#[test]
fn processor_without_slot_is_aborted_when_counting() {
    let classifier = PacketClassifier::default();
    let mut store = CounterStore::new(2);
    assert_eq!(classifier.classify(&udp_packet(4444), &mut store, 2), Action::Aborted);
    assert_eq!(classifier.classify(&udp_packet(4444), &mut store, usize::MAX), Action::Aborted);
    assert_eq!(classifier.classify(&udp_packet(53), &mut store, 2), Action::Pass);
    assert_eq!(slots(&store), vec![Counter::default(); 2]);
    let mut empty = CounterStore::new(0);
    assert_eq!(classifier.classify(&udp_packet(4444), &mut empty, 0), Action::Aborted);
}

#[test]
fn only_the_slot_of_the_processor_changes() {
    let classifier = PacketClassifier::new(1, 53);
    let mut store = CounterStore::new(4);
    let packet = udp_packet(4444);
    assert_eq!(classifier.classify(&packet, &mut store, 2), Action::Pass);
    assert_eq!(classifier.classify(&packet, &mut store, 2), Action::Drop);
    assert_eq!(classifier.classify(&packet, &mut store, 0), Action::Pass);
    assert_eq!(
        slots(&store),
        vec![
            Counter { udp_packets: 1, dropped: 0 },
            Counter { udp_packets: 0, dropped: 0 },
            Counter { udp_packets: 2, dropped: 1 },
            Counter { udp_packets: 0, dropped: 0 },
        ]
    );
}

#[test]
fn received_count_wraps_to_zero() {
    let classifier = PacketClassifier::new(5000, 53);
    let mut counter = Counter { udp_packets: u64::MAX, dropped: 7 };
    let packet = udp_packet(4444);
    // The count wraps to zero, which does not exceed the threshold.
    assert_eq!(
        try_xdp_ddos_guard(&classifier, &packet, Some(&mut counter)),
        Ok(Action::Pass)
    );
    assert_eq!(counter, Counter { udp_packets: 0, dropped: 7 });
    let mut counter = Counter { udp_packets: u64::MAX - 1, dropped: 7 };
    assert_eq!(
        try_xdp_ddos_guard(&classifier, &packet, Some(&mut counter)),
        Ok(Action::Drop)
    );
    assert_eq!(counter, Counter { udp_packets: u64::MAX, dropped: 8 });
}

#[test]
fn dropped_count_wraps_to_zero() {
    let classifier = PacketClassifier::new(10, 53);
    let mut counter = Counter { udp_packets: 10, dropped: u64::MAX };
    assert_eq!(
        xdp_ddos_guard(&classifier, &udp_packet(4444), Some(&mut counter)),
        Action::Drop
    );
    assert_eq!(counter, Counter { udp_packets: 11, dropped: 0 });
}

#[test]
fn threshold_of_u64_max_never_drops() {
    let classifier = PacketClassifier::new(u64::MAX, 53);
    let mut counter = Counter { udp_packets: u64::MAX - 1, dropped: 0 };
    let packet = udp_packet(4444);
    assert_eq!(xdp_ddos_guard(&classifier, &packet, Some(&mut counter)), Action::Pass);
    assert_eq!(counter, Counter { udp_packets: u64::MAX, dropped: 0 });
    assert_eq!(xdp_ddos_guard(&classifier, &packet, Some(&mut counter)), Action::Pass);
    assert_eq!(counter, Counter { udp_packets: 0, dropped: 0 });
}

#[test]
fn counts_do_not_decrease_within_an_epoch() {
    let classifier = PacketClassifier::new(3, 53);
    let mut counter = Counter::default();
    let packets = [
        udp_packet(4444),
        udp_packet(53),
        frame(ARP, 0, 0, 0, 20),
        udp_packet(1),
        udp_packet(4444)[..30].to_vec(),
        udp_packet(2),
        udp_packet(3),
        frame(IPV4, 0x45, TCP, 80, 54),
        udp_packet(4),
    ];
    for packet in &packets {
        let before = counter;
        xdp_ddos_guard(&classifier, packet, Some(&mut counter));
        assert!(counter.udp_packets >= before.udp_packets);
        assert!(counter.dropped >= before.dropped);
    }
    assert_eq!(counter, Counter { udp_packets: 5, dropped: 2 });
}

#[test]
fn packet_at_an_odd_address_is_classified() {
    let classifier = PacketClassifier::default();
    let mut buffer = vec![0xaau8];
    buffer.extend_from_slice(&udp_packet(53));
    buffer.push(0xbb);
    let mut counter = Counter::default();
    assert_eq!(
        xdp_ddos_guard(&classifier, &buffer[1..43], Some(&mut counter)),
        Action::Pass
    );
    assert_eq!(classifier.inspect(&buffer[1..43]), Ok(Inspection::Whitelisted));
    // The byte behind the window is never taken for part of the packet.
    assert_eq!(classifier.inspect(&buffer[1..42]), Err(BoundsError));
}

#[test]
fn payload_does_not_matter() {
    let classifier = PacketClassifier::default();
    let mut packet = frame(IPV4, 0x45, UDP, 4444, 1500);
    for byte in packet.iter_mut().skip(42) {
        *byte = 0xff;
    }
    assert_eq!(classifier.inspect(&packet), Ok(Inspection::Counted));
}

#[test]
fn flood_counts_every_packet_and_drops_those_beyond_the_threshold() {
    let classifier = PacketClassifier::new(3, 53);
    let mut counter = Counter::default();
    let packet = udp_packet(4444);
    let mut actions = Vec::new();
    for _ in 0..10 {
        actions.push(xdp_ddos_guard(&classifier, &packet, Some(&mut counter)));
    }
    assert_eq!(counter, Counter { udp_packets: 10, dropped: 7 });
    assert_eq!(&actions[..3], &[Action::Pass; 3][..]);
    assert_eq!(&actions[3..], &[Action::Drop; 7][..]);
}
