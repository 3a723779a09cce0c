//! Per-processor packet counters.

use vstd::prelude::*;

verus! {

/// The successor of `x` in 64-bit wraparound arithmetic.
pub open spec fn wrapping_succ(x: u64) -> u64 {
    if x == u64::MAX {
        0
    } else {
        (x + 1) as u64
    }
}

/// One of the two counts that a [`Counter`] holds.
#[derive(Clone, Copy, Debug, PartialEq, Eq, Structural)]
pub enum CounterField {
    /// Packets that reached flood accounting.
    Received,
    /// Packets dropped because the flood threshold was exceeded.
    Dropped,
}

/// Packet counts of one processor for the current epoch.
#[derive(Clone, Copy, Debug, PartialEq, Eq, Structural)]
pub struct Counter {
    /// Packets that reached flood accounting.
    pub udp_packets: u64,
    /// Packets dropped because the flood threshold was exceeded.
    pub dropped: u64,
}

impl Counter {
    /// The record with both counts at zero.
    pub open spec fn zero() -> Counter {
        Counter { udp_packets: 0, dropped: 0 }
    }

    /// The count that `field` selects.
    pub open spec fn field(self, field: CounterField) -> u64 {
        match field {
            CounterField::Received => self.udp_packets,
            CounterField::Dropped => self.dropped,
        }
    }

    /// This record after one wraparound increment of `field`.
    pub open spec fn bumped(self, field: CounterField) -> Counter {
        match field {
            CounterField::Received => Counter {
                udp_packets: wrapping_succ(self.udp_packets),
                dropped: self.dropped,
            },
            CounterField::Dropped => Counter {
                udp_packets: self.udp_packets,
                dropped: wrapping_succ(self.dropped),
            },
        }
    }

    /// Reads the count that `field` selects.
    pub fn get(&self, field: CounterField) -> (value: u64)
        ensures
            value == self.field(field),
    {
        match field {
            CounterField::Received => self.udp_packets,
            CounterField::Dropped => self.dropped,
        }
    }

    /// Adds one to `field`, wrapping to zero past `u64::MAX`, and returns the
    /// new count.
    pub fn increment(&mut self, field: CounterField) -> (value: u64)
        ensures
            *final(self) == old(self).bumped(field),
            value == old(self).bumped(field).field(field),
    {
        match field {
            CounterField::Received => {
                self.udp_packets = self.udp_packets.wrapping_add(1);
                self.udp_packets
            },
            CounterField::Dropped => {
                self.dropped = self.dropped.wrapping_add(1);
                self.dropped
            },
        }
    }
}

impl Default for Counter {
    fn default() -> (c: Self)
        ensures
            c == Counter::zero(),
    {
        Counter { udp_packets: 0, dropped: 0 }
    }
}

/// The counter records of all processors: one slot per processor, indexed by
/// processor id. The number of slots is fixed when the store is created.
#[derive(Debug)]
pub struct CounterStore {
    slots: Vec<Counter>,
}

impl View for CounterStore {
    type V = Seq<Counter>;

    closed spec fn view(&self) -> Seq<Counter> {
        self.slots@
    }
}

/// `n` zeroed records.
pub open spec fn zeroed(n: nat) -> Seq<Counter> {
    Seq::new(n, |i: int| Counter::zero())
}

/// The record of processor `processor` among `slots`, if there is such a
/// processor.
pub open spec fn slot_of(slots: Seq<Counter>, processor: int) -> Option<Counter> {
    if 0 <= processor < slots.len() {
        Some(slots[processor])
    } else {
        None
    }
}

/// After a reset, the record of every processor reads as zero in both counts.
pub proof fn lemma_reset_then_get(slots: Seq<Counter>, processor: int)
    requires
        0 <= processor < slots.len(),
    ensures
        slot_of(zeroed(slots.len()), processor) == Some(Counter::zero()),
        zeroed(slots.len())[processor].udp_packets == 0,
        zeroed(slots.len())[processor].dropped == 0,
{
}

/// `processors` zeroed records: what a counter region holds when it is created
/// and what is written to it to reset it.
pub fn reset_values(processors: usize) -> (values: Vec<Counter>)
    ensures
        values@ == zeroed(processors as nat),
{
    let mut values: Vec<Counter> = Vec::new();
    let mut i: usize = 0;
    while i < processors
        invariant
            i <= processors,
            values@ == zeroed(i as nat),
        decreases processors - i,
    {
        values.push(Counter { udp_packets: 0, dropped: 0 });
        i += 1;
    }
    values
}

impl CounterStore {
    /// A store of `processors` slots, each zero-initialised.
    pub fn new(processors: usize) -> (store: CounterStore)
        ensures
            store@ == zeroed(processors as nat),
    {
        CounterStore { slots: reset_values(processors) }
    }

    /// The number of slots, which is the number of processors.
    pub fn len(&self) -> (n: usize)
        ensures
            n == self@.len(),
    {
        self.slots.len()
    }

    /// All slots, in the order of their processors.
    pub fn as_slice(&self) -> (slots: &[Counter])
        ensures
            slots@ == self@,
    {
        self.slots.as_slice()
    }

    /// The record of processor `processor`, or `None` when there is no such
    /// processor.
    pub fn get(&self, processor: usize) -> (record: Option<Counter>)
        ensures
            record == slot_of(self@, processor as int),
    {
        if processor < self.slots.len() {
            Some(self.slots[processor])
        } else {
            None
        }
    }

    /// Mutable access to the slot of processor `processor`, or `None` when
    /// there is no such processor. Whatever the caller writes to the slot is
    /// the only change to the store.
    pub(crate) fn slot_mut(&mut self, processor: usize) -> (slot: Option<&mut Counter>)
        ensures
            slot.is_some() == (processor < old(self)@.len()),
            slot.is_none() ==> final(self)@ == old(self)@,
            slot matches Some(c) ==> *c == old(self)@[processor as int] && final(self)@ == old(
                self,
            )@.update(processor as int, *final(c)),
    {
        if processor < self.slots.len() {
            Some(&mut self.slots[processor])
        } else {
            None
        }
    }

    /// Adds one to `field` in the slot of processor `processor`, wrapping to
    /// zero past `u64::MAX`, and returns the new count. Without such a
    /// processor nothing changes and `None` is returned.
    pub fn increment(&mut self, processor: usize, field: CounterField) -> (value: Option<u64>)
        ensures
            processor < old(self)@.len() ==> value == Some(
                old(self)@[processor as int].bumped(field).field(field),
            ) && final(self)@ == old(self)@.update(
                processor as int,
                old(self)@[processor as int].bumped(field),
            ),
            processor >= old(self)@.len() ==> value.is_none() && final(self)@ == old(self)@,
    {
        match self.slot_mut(processor) {
            Some(slot) => Some(slot.increment(field)),
            None => None,
        }
    }

    /// Sets every slot to zero. The number of slots stays the same.
    pub fn reset_all(&mut self)
        ensures
            final(self)@ == zeroed(old(self)@.len()),
    {
        let n = self.slots.len();
        let mut i: usize = 0;
        while i < n
            invariant
                i <= n,
                n == self.slots@.len(),
                forall|j: int| 0 <= j < i ==> self.slots@[j] == Counter::zero(),
            decreases n - i,
        {
            self.slots[i] = Counter { udp_packets: 0, dropped: 0 };
            i += 1;
        }
    }
}

} // verus!
