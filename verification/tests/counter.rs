use xdp_ddos_agent::counter::{reset_values, Counter, CounterField, CounterStore};

#[test]
fn new_store_is_zero_initialised() {
    let store = CounterStore::new(8);
    assert_eq!(store.len(), 8);
    for i in 0..8 {
        assert_eq!(store.get(i), Some(Counter { udp_packets: 0, dropped: 0 }));
    }
    assert_eq!(store.get(8), None);
    assert_eq!(CounterStore::new(0).len(), 0);
    assert_eq!(CounterStore::new(0).get(0), None);
}

#[test]
fn default_counter_is_zero() {
    assert_eq!(Counter::default(), Counter { udp_packets: 0, dropped: 0 });
}

#[test]
fn counter_increment_returns_the_new_count() {
    let mut counter = Counter { udp_packets: 41, dropped: 6 };
    assert_eq!(counter.increment(CounterField::Received), 42);
    assert_eq!(counter, Counter { udp_packets: 42, dropped: 6 });
    assert_eq!(counter.increment(CounterField::Dropped), 7);
    assert_eq!(counter, Counter { udp_packets: 42, dropped: 7 });
    assert_eq!(counter.get(CounterField::Received), 42);
    assert_eq!(counter.get(CounterField::Dropped), 7);
}

#[test]
fn counter_increment_wraps() {
    let mut counter = Counter { udp_packets: u64::MAX, dropped: u64::MAX };
    assert_eq!(counter.increment(CounterField::Received), 0);
    assert_eq!(counter, Counter { udp_packets: 0, dropped: u64::MAX });
    assert_eq!(counter.increment(CounterField::Dropped), 0);
    assert_eq!(counter, Counter { udp_packets: 0, dropped: 0 });
}

#[test]
fn store_increment_touches_one_slot() {
    let mut store = CounterStore::new(3);
    assert_eq!(store.increment(1, CounterField::Received), Some(1));
    assert_eq!(store.increment(1, CounterField::Received), Some(2));
    assert_eq!(store.increment(1, CounterField::Dropped), Some(1));
    assert_eq!(store.increment(2, CounterField::Dropped), Some(1));
    assert_eq!(store.get(0), Some(Counter { udp_packets: 0, dropped: 0 }));
    assert_eq!(store.get(1), Some(Counter { udp_packets: 2, dropped: 1 }));
    assert_eq!(store.get(2), Some(Counter { udp_packets: 0, dropped: 1 }));
    assert_eq!(store.len(), 3);
}

#[test]
fn store_increment_without_such_processor() {
    let mut store = CounterStore::new(2);
    assert_eq!(store.increment(2, CounterField::Received), None);
    assert_eq!(store.increment(usize::MAX, CounterField::Dropped), None);
    assert_eq!(store.as_slice(), &[Counter::default(); 2][..]);
}

#[test]
fn reset_all_then_get_is_zero_for_every_processor() {
    let mut store = CounterStore::new(5);
    for i in 0..5 {
        for _ in 0..=i {
            store.increment(i, CounterField::Received);
            store.increment(i, CounterField::Dropped);
        }
    }
    assert_eq!(store.get(4), Some(Counter { udp_packets: 5, dropped: 5 }));
    store.reset_all();
    assert_eq!(store.len(), 5);
    for i in 0..5 {
        assert_eq!(store.get(i), Some(Counter { udp_packets: 0, dropped: 0 }));
    }
    assert_eq!(store.get(5), None);
}

#[test]
fn reset_all_on_an_empty_store() {
    let mut store = CounterStore::new(0);
    store.reset_all();
    assert_eq!(store.len(), 0);
}

#[test]
fn reset_values_are_zeroed_records() {
    assert_eq!(reset_values(0), Vec::<Counter>::new());
    assert_eq!(reset_values(3), vec![Counter { udp_packets: 0, dropped: 0 }; 3]);
}
