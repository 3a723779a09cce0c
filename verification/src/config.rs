//! The configuration of the agent. It is resolved once at startup and does not
//! change afterwards.

use crate::aggregator::{AggregatorState, StatsAggregator};
use crate::classifier::PacketClassifier;
use vstd::prelude::*;

verus! {

/// Packets per epoch and processor that are admitted before drops begin, by
/// default.
pub const DEFAULT_FLOOD_THRESHOLD: u64 = 5000;

/// Packets per epoch on all processors above which an alert is logged, by
/// default.
pub const DEFAULT_ALERT_THRESHOLD: u64 = 3000;

/// Length of an epoch in seconds, by default.
pub const DEFAULT_STATS_INTERVAL: u64 = 1;

/// The destination port that is exempt from flood accounting by default: DNS.
pub const DEFAULT_WHITELIST_PORT: u16 = 53;

/// The configuration of the agent.
#[derive(Clone, Debug)]
pub struct Config {
    /// Name of the network interface that the classifier is attached to.
    pub iface: String,
    /// Packets per epoch and processor that are admitted before drops begin.
    pub flood_threshold: u64,
    /// Packets per epoch on all processors above which an alert is logged.
    pub alert_threshold: u64,
    /// Length of an epoch in seconds.
    pub stats_interval: u64,
    /// The destination port that is exempt from flood accounting.
    pub whitelist_port: u16,
}

impl Config {
    /// The classifier that this configuration asks for.
    pub fn classifier(&self) -> (classifier: PacketClassifier)
        ensures
            classifier.flood_threshold == self.flood_threshold,
            classifier.whitelist_port == self.whitelist_port,
    {
        PacketClassifier::new(self.flood_threshold, self.whitelist_port)
    }

    /// The aggregator that this configuration asks for, waiting for its first
    /// tick.
    pub fn aggregator(&self) -> (aggregator: StatsAggregator)
        ensures
            aggregator.alert_threshold() == self.alert_threshold,
            aggregator.state() == AggregatorState::Waiting,
    {
        StatsAggregator::new(self.alert_threshold)
    }
}

impl Default for Config {
    /// Interface `eth0`, a flood threshold of 5000, an alert threshold of
    /// 3000, epochs of one second and port 53 on the whitelist.
    fn default() -> (config: Self)
        ensures
            config.iface@ == "eth0"@,
            config.flood_threshold == DEFAULT_FLOOD_THRESHOLD,
            config.alert_threshold == DEFAULT_ALERT_THRESHOLD,
            config.stats_interval == DEFAULT_STATS_INTERVAL,
            config.whitelist_port == DEFAULT_WHITELIST_PORT,
    {
        Config {
            iface: "eth0".to_owned(),
            flood_threshold: DEFAULT_FLOOD_THRESHOLD,
            alert_threshold: DEFAULT_ALERT_THRESHOLD,
            stats_interval: DEFAULT_STATS_INTERVAL,
            whitelist_port: DEFAULT_WHITELIST_PORT,
        }
    }
}

} // verus!
