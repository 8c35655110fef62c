//! Domain records and events: the typed notifications the topic bridge hands
//! to the controller, and the commands the operator sends back.
//!
//! The wire decoding itself lives outside the crate; these types carry only
//! plain values. Percentages arrive in tenths of a percent and disk sizes in
//! tenths of a gigabyte, so that fractional readings stay exact integers.

use vstd::prelude::*;

verus! {

/// Bus topic carrying node status snapshots.
pub fn node_status_topic() -> (s: &'static str)
    ensures
        s@ == "macula.node.status"@,
{
    "macula.node.status"
}

/// Bus topic carrying peer discovery events.
pub fn peer_discovered_topic() -> (s: &'static str)
    ensures
        s@ == "macula.mesh.peer.discovered"@,
{
    "macula.mesh.peer.discovered"
}

/// Bus topic carrying peer disconnection events.
pub fn peer_disconnected_topic() -> (s: &'static str)
    ensures
        s@ == "macula.mesh.peer.disconnected"@,
{
    "macula.mesh.peer.disconnected"
}

/// Bus topic subtree carrying log records.
pub fn logs_topic() -> (s: &'static str)
    ensures
        s@ == "macula.logs.>"@,
{
    "macula.logs.>"
}

/// Bus topic carrying app status changes.
pub fn app_status_topic() -> (s: &'static str)
    ensures
        s@ == "macula.apps.status"@,
{
    "macula.apps.status"
}

/// Bus topic commands are published on.
pub fn commands_topic() -> (s: &'static str)
    ensures
        s@ == "macula.commands"@,
{
    "macula.commands"
}

/// Latest known snapshot of the node.
#[derive(Debug, Clone, PartialEq, Eq)]
pub struct NodeStatus {
    pub node_id: String,
    pub realm: String,
    pub uptime_secs: u64,
    pub peer_count: usize,
    /// CPU load in tenths of a percent (`125` is 12.5%).
    pub cpu_tenths_percent: u32,
    pub memory_mb: u64,
    pub memory_total_mb: u64,
    /// Disk used, in tenths of a gigabyte.
    pub disk_used_tenths_gb: u64,
    /// Disk size, in tenths of a gigabyte.
    pub disk_total_tenths_gb: u64,
}

/// One mesh peer, keyed by its node identifier.
#[derive(Debug, Clone, PartialEq, Eq)]
pub struct PeerInfo {
    pub node_id: String,
    pub address: String,
    /// Measured latency; absent means unmeasured, not zero.
    pub latency_ms: Option<u32>,
    pub connected_at: Option<u64>,
}

/// One log record from a service.
#[derive(Debug, Clone, PartialEq, Eq)]
pub struct LogEntry {
    pub timestamp: u64,
    pub level: String,
    pub service: String,
    pub message: String,
}

/// One managed application, keyed by its identifier.
#[derive(Debug, Clone, PartialEq, Eq)]
pub struct AppStatus {
    pub app_id: String,
    pub name: String,
    /// Run state: `running`, `stopped` or `error`.
    pub status: String,
    /// CPU load in tenths of a percent, when reported.
    pub cpu_tenths_percent: Option<u32>,
    pub memory_mb: Option<u64>,
}

/// Outbound operator request, published on the command topic.
#[derive(Debug, Clone, PartialEq, Eq)]
pub enum Command {
    StartApp { app_id: String },
    StopApp { app_id: String },
    RestartApp { app_id: String },
    RestartNode,
}

/// One decoded bus notification, as routed to the view models.
#[derive(Debug, Clone, PartialEq, Eq)]
pub enum NatsEvent {
    NodeStatus(NodeStatus),
    PeerDiscovered(PeerInfo),
    PeerDisconnected(String),
    Log(LogEntry),
    AppStatus(AppStatus),
    Connected,
    Disconnected,
    Error(String),
}

} // verus!
