//! UDP flood mitigation at the receive-path hook.
//!
//! A packet classifier parses Ethernet, IPv4 and UDP headers from an untrusted
//! byte buffer and decides whether the packet passes, is dropped or cannot be
//! classified. It accounts each packet in the counter record of the processor
//! that handles it. A statistics aggregator sums the records of all processors
//! once per epoch, compares the sum with an alert threshold and resets the
//! records.

pub mod aggregator;
pub mod classifier;
pub mod config;
pub mod counter;
pub mod cursor;
pub mod lifecycle;
pub mod wire;

pub use aggregator::{
    aggregate, assess, drain, AggregatorAction, AggregatorEvent, AggregatorState, DrainStep, Report,
    Severity, StatsAggregator, Totals,
};
pub use classifier::{
    try_xdp_ddos_guard, xdp_ddos_guard, Action, GuardError, Inspection, PacketClassifier,
};
pub use config::Config;
pub use counter::{reset_values, Counter, CounterField, CounterStore};
pub use cursor::{BoundsError, EthHdrView, HeaderCursor, Ipv4HdrView, UdpHdrView};
pub use lifecycle::{
    LifecycleAction, LifecycleEvent, LifecycleManager, LifecycleState, StartupStep,
};
