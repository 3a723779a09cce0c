//! The statistics aggregator: once per epoch it reads the counter records of
//! all processors, sums them, compares the sum with the alert threshold and
//! resets the records.

use crate::counter::{zeroed, Counter, CounterStore};
use vstd::prelude::*;

verus! {

/// The sum of the received counts of `slots`.
pub open spec fn sum_received(slots: Seq<Counter>) -> nat
    decreases slots.len(),
{
    if slots.len() == 0 {
        0
    } else {
        sum_received(slots.drop_last()) + slots.last().udp_packets as nat
    }
}

/// The sum of the dropped counts of `slots`.
pub open spec fn sum_dropped(slots: Seq<Counter>) -> nat
    decreases slots.len(),
{
    if slots.len() == 0 {
        0
    } else {
        sum_dropped(slots.drop_last()) + slots.last().dropped as nat
    }
}

/// `n` in 64-bit wraparound arithmetic.
pub open spec fn wrap64(n: nat) -> u64 {
    (n % 0x1_0000_0000_0000_0000) as u64
}

/// The counts of all processors added up.
#[derive(Clone, Copy, Debug, PartialEq, Eq, Structural)]
pub struct Totals {
    /// Packets that reached flood accounting, on all processors.
    pub received: u64,
    /// Packets dropped, on all processors.
    pub dropped: u64,
}

/// How a status line is logged.
#[derive(Clone, Copy, Debug, PartialEq, Eq, Structural)]
pub enum Severity {
    /// The received total is within the alert threshold.
    Info,
    /// The received total exceeds the alert threshold.
    Alert,
}

/// The content of the status line of one epoch.
#[derive(Clone, Copy, Debug, PartialEq, Eq, Structural)]
pub struct Report {
    /// Whether the line is an alert.
    pub severity: Severity,
    /// The totals that the line shows.
    pub totals: Totals,
}

/// The totals of `slots`. A sum that does not fit in 64 bits wraps around.
pub open spec fn totals_of(slots: Seq<Counter>) -> Totals {
    Totals { received: wrap64(sum_received(slots)), dropped: wrap64(sum_dropped(slots)) }
}

/// The status of an epoch with the given totals: an alert if and only if the
/// received total exceeds the alert threshold.
pub open spec fn report_of(totals: Totals, alert_threshold: u64) -> Report {
    Report {
        severity: if totals.received > alert_threshold {
            Severity::Alert
        } else {
            Severity::Info
        },
        totals,
    }
}

/// The totals of zeroed records are zero: an epoch that follows a reset and
/// sees no packet reports nothing received and nothing dropped.
pub proof fn lemma_totals_of_zeroed(n: nat)
    ensures
        sum_received(zeroed(n)) == 0,
        sum_dropped(zeroed(n)) == 0,
        totals_of(zeroed(n)) == (Totals { received: 0, dropped: 0 }),
    decreases n,
{
    if n > 0 {
        lemma_totals_of_zeroed((n - 1) as nat);
        assert(zeroed(n).drop_last() =~= zeroed((n - 1) as nat));
    }
}

/// Sums the received and the dropped counts of `slots`. Where a sum fits in
/// 64 bits the total is that sum; a larger sum wraps around.
pub fn aggregate(slots: &[Counter]) -> (totals: Totals)
    ensures
        totals == totals_of(slots@),
        sum_received(slots@) <= u64::MAX ==> totals.received == sum_received(slots@),
        sum_dropped(slots@) <= u64::MAX ==> totals.dropped == sum_dropped(slots@),
{
    let mut received: u64 = 0;
    let mut dropped: u64 = 0;
    let mut i: usize = 0;
    while i < slots.len()
        invariant
            i <= slots@.len(),
            received == wrap64(sum_received(slots@.take(i as int))),
            dropped == wrap64(sum_dropped(slots@.take(i as int))),
        decreases slots@.len() - i,
    {
        assert(slots@.take(i + 1).drop_last() =~= slots@.take(i as int));
        received = received.wrapping_add(slots[i].udp_packets);
        dropped = dropped.wrapping_add(slots[i].dropped);
        i += 1;
    }
    assert(slots@.take(i as int) =~= slots@);
    Totals { received, dropped }
}

/// Compares the received total with the alert threshold.
pub fn assess(totals: Totals, alert_threshold: u64) -> (report: Report)
    ensures
        report == report_of(totals, alert_threshold),
{
    let severity = if totals.received > alert_threshold {
        Severity::Alert
    } else {
        Severity::Info
    };
    Report { severity, totals }
}

/// One drain cycle on `store`: reads every slot, sums the counts, compares
/// the received total with the alert threshold and then resets every slot to
/// zero. The reset is the last step.
pub fn drain(store: &mut CounterStore, alert_threshold: u64) -> (report: Report)
    ensures
        report == report_of(totals_of(old(store)@), alert_threshold),
        final(store)@ == zeroed(old(store)@.len()),
{
    let totals = aggregate(store.as_slice());
    let report = assess(totals, alert_threshold);
    store.reset_all();
    report
}

/// Where the aggregator is in its cycle.
#[derive(Clone, Copy, Debug, PartialEq, Eq, Structural)]
pub enum AggregatorState {
    /// Between two ticks of the timer.
    Waiting,
    /// In a drain cycle: reading, summing, reporting, resetting.
    Draining(DrainStep),
}

/// The outside step of a drain cycle whose result is awaited.
#[derive(Clone, Copy, Debug, PartialEq, Eq, Structural)]
pub enum DrainStep {
    /// The slots of all processors are being read.
    Reading,
    /// The slots of all processors are being reset.
    Resetting,
}

/// What happened outside the aggregator.
#[derive(Debug)]
pub enum AggregatorEvent {
    /// The epoch timer fired.
    TimerFired,
    /// The slots of all processors were read; here they are.
    SlotsRead(Vec<Counter>),
    /// The shared counter region could not be read.
    ReadFailed,
    /// The slots of all processors were reset.
    ResetDone,
    /// The shared counter region could not be reset.
    ResetFailed,
    /// A termination signal arrived.
    ShutdownRequested,
}

/// What the caller of the aggregator has to do next.
#[derive(Clone, Copy, Debug, PartialEq, Eq, Structural)]
pub enum AggregatorAction {
    /// Nothing: wait for the next event.
    Wait,
    /// Read the slots of all processors and hand them back, or say that the
    /// read failed.
    ReadSlots,
    /// Log the status line, then reset the slots of all processors and say
    /// whether that failed.
    ReportAndReset(Report),
    /// Log that the counters could not be read, and go on.
    LogReadFailure,
    /// Log that the counters could not be reset, and go on.
    LogResetFailure,
    /// Leave the loop: detach and exit.
    Stop,
}

/// The transition of the aggregator: the state that follows `state` on
/// `event`, and the action that the event calls for.
///
/// A tick starts a drain cycle only while waiting, so no two cycles overlap.
/// A shutdown request is honoured only while waiting, so no cycle is left
/// half done. A failed read or reset ends the cycle; it is never fatal. An
/// event that does not fit the state changes nothing.
pub open spec fn transition(state: AggregatorState, alert_threshold: u64, event: AggregatorEvent) -> (
    AggregatorState,
    AggregatorAction,
) {
    match (state, event) {
        (AggregatorState::Waiting, AggregatorEvent::TimerFired) => (
            AggregatorState::Draining(DrainStep::Reading),
            AggregatorAction::ReadSlots,
        ),
        (AggregatorState::Waiting, AggregatorEvent::ShutdownRequested) => (
            AggregatorState::Waiting,
            AggregatorAction::Stop,
        ),
        (AggregatorState::Draining(DrainStep::Reading), AggregatorEvent::SlotsRead(slots)) => (
            AggregatorState::Draining(DrainStep::Resetting),
            AggregatorAction::ReportAndReset(report_of(totals_of(slots@), alert_threshold)),
        ),
        (AggregatorState::Draining(DrainStep::Reading), AggregatorEvent::ReadFailed) => (
            AggregatorState::Waiting,
            AggregatorAction::LogReadFailure,
        ),
        (AggregatorState::Draining(DrainStep::Resetting), AggregatorEvent::ResetDone) => (
            AggregatorState::Waiting,
            AggregatorAction::Wait,
        ),
        (AggregatorState::Draining(DrainStep::Resetting), AggregatorEvent::ResetFailed) => (
            AggregatorState::Waiting,
            AggregatorAction::LogResetFailure,
        ),
        _ => (state, AggregatorAction::Wait),
    }
}

/// The aggregator: its alert threshold, which does not change, and its place
/// in the cycle.
#[derive(Clone, Copy, Debug)]
pub struct StatsAggregator {
    alert_threshold: u64,
    state: AggregatorState,
}

impl StatsAggregator {
    /// The total of received packets per epoch above which an alert is
    /// raised.
    pub closed spec fn spec_alert_threshold(&self) -> u64 {
        self.alert_threshold
    }

    /// Where the aggregator is in its cycle.
    pub closed spec fn spec_state(&self) -> AggregatorState {
        self.state
    }

    /// An aggregator that waits for its first tick.
    pub fn new(alert_threshold: u64) -> (aggregator: StatsAggregator)
        ensures
            aggregator.spec_alert_threshold() == alert_threshold,
            aggregator.spec_state() == AggregatorState::Waiting,
    {
        StatsAggregator { alert_threshold, state: AggregatorState::Waiting }
    }

    /// The alert threshold.
    #[verifier::when_used_as_spec(spec_alert_threshold)]
    pub fn alert_threshold(&self) -> (threshold: u64)
        ensures
            threshold == self.spec_alert_threshold(),
    {
        self.alert_threshold
    }

    /// Where the aggregator is in its cycle.
    #[verifier::when_used_as_spec(spec_state)]
    pub fn state(&self) -> (state: AggregatorState)
        ensures
            state == self.spec_state(),
    {
        self.state
    }

    /// Takes `event` and says what to do next.
    pub fn step(&mut self, event: AggregatorEvent) -> (action: AggregatorAction)
        ensures
            final(self).alert_threshold() == old(self).alert_threshold(),
            (final(self).state(), action) == transition(
                old(self).state(),
                old(self).alert_threshold(),
                event,
            ),
    {
        match self.state {
            AggregatorState::Waiting => match event {
                AggregatorEvent::TimerFired => {
                    self.state = AggregatorState::Draining(DrainStep::Reading);
                    AggregatorAction::ReadSlots
                },
                AggregatorEvent::ShutdownRequested => AggregatorAction::Stop,
                _ => AggregatorAction::Wait,
            },
            AggregatorState::Draining(DrainStep::Reading) => match event {
                AggregatorEvent::SlotsRead(slots) => {
                    let report = assess(aggregate(slots.as_slice()), self.alert_threshold);
                    self.state = AggregatorState::Draining(DrainStep::Resetting);
                    AggregatorAction::ReportAndReset(report)
                },
                AggregatorEvent::ReadFailed => {
                    self.state = AggregatorState::Waiting;
                    AggregatorAction::LogReadFailure
                },
                _ => AggregatorAction::Wait,
            },
            AggregatorState::Draining(DrainStep::Resetting) => match event {
                AggregatorEvent::ResetDone => {
                    self.state = AggregatorState::Waiting;
                    AggregatorAction::Wait
                },
                AggregatorEvent::ResetFailed => {
                    self.state = AggregatorState::Waiting;
                    AggregatorAction::LogResetFailure
                },
                _ => AggregatorAction::Wait,
            },
        }
    }
}

} // verus!
