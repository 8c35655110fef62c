//! Dashboard view: the node snapshot, peer count and connection indicator.
//!
//! The view keeps the last node status seen and never clears it: the most
//! recent snapshot persists even while disconnected. All projections are
//! pure reads.

use vstd::prelude::*;
use vstd::string::*;

use crate::events::NodeStatus;
use crate::text::{dec_digits, push_char, spec_tenths, spec_uptime, format_uptime, tenths_string, u64_string};

verus! {

/// Dashboard view state.
#[derive(Debug)]
pub struct DashboardView {
    /// Last node snapshot seen; kept until replaced, never cleared.
    pub node_status: Option<NodeStatus>,
    pub peer_count: usize,
    /// Whether a live bus connection exists.
    pub connected: bool,
}

/// The connection indicator text.
pub open spec fn spec_connection_label(connected: bool) -> Seq<char> {
    if connected {
        "Connected"@
    } else {
        "Disconnected"@
    }
}

/// The connection indicator text.
pub fn connection_label(connected: bool) -> (r: &'static str)
    ensures
        r@ == spec_connection_label(connected),
{
    if connected {
        "Connected"
    } else {
        "Disconnected"
    }
}

/// Usage as whole percent, clamped to 100; a zero total reads as full.
pub open spec fn spec_percent(used: int, total: int) -> int {
    if total == 0 {
        100
    } else if used * 100 / total > 100 {
        100
    } else {
        used * 100 / total
    }
}

/// Compute usage as whole percent, clamped to 100.
pub fn percent_of(used: u64, total: u64) -> (p: u64)
    ensures
        p == spec_percent(used as int, total as int),
        p <= 100,
{
    if total == 0 {
        100
    } else {
        let wide: u128 = (used as u128) * 100 / (total as u128);
        if wide > 100 {
            100
        } else {
            wide as u64
        }
    }
}

/// How a gauge reading is ranked: critical above 90%, high above 70%.
#[derive(Debug, Clone, Copy, PartialEq, Eq, Structural)]
pub enum GaugeLevel {
    Normal,
    High,
    Critical,
}

/// Rank a gauge reading given in tenths of a percent.
pub open spec fn spec_gauge_level(tenths: int) -> GaugeLevel {
    if tenths > 900 {
        GaugeLevel::Critical
    } else if tenths > 700 {
        GaugeLevel::High
    } else {
        GaugeLevel::Normal
    }
}

/// Rank a gauge reading given in tenths of a percent.
pub fn gauge_level(tenths: u64) -> (r: GaugeLevel)
    ensures
        r == spec_gauge_level(tenths as int),
{
    if tenths > 900 {
        GaugeLevel::Critical
    } else if tenths > 700 {
        GaugeLevel::High
    } else {
        GaugeLevel::Normal
    }
}

/// The memory gauge label: used and total megabytes.
pub open spec fn spec_memory_label(used_mb: int, total_mb: int) -> Seq<char> {
    dec_digits(used_mb) + seq!['/'] + dec_digits(total_mb) + " MB"@
}

/// Render the memory gauge label.
pub fn memory_label(used_mb: u64, total_mb: u64) -> (r: String)
    ensures
        r@ == spec_memory_label(used_mb as int, total_mb as int),
{
    let mut s = u64_string(used_mb);
    push_char(&mut s, '/');
    let t = u64_string(total_mb);
    s.append(t.as_str());
    s.append(" MB");
    proof {
        assert(s@ =~= spec_memory_label(used_mb as int, total_mb as int));
    }
    s
}

/// The disk gauge label: used and total gigabytes with one decimal place.
pub open spec fn spec_disk_label(used_tenths: int, total_tenths: int) -> Seq<char> {
    spec_tenths(used_tenths) + seq!['/'] + spec_tenths(total_tenths) + " GB"@
}

/// Render the disk gauge label from tenths of a gigabyte.
pub fn disk_label(used_tenths: u64, total_tenths: u64) -> (r: String)
    ensures
        r@ == spec_disk_label(used_tenths as int, total_tenths as int),
{
    let mut s = tenths_string(used_tenths);
    push_char(&mut s, '/');
    let t = tenths_string(total_tenths);
    s.append(t.as_str());
    s.append(" GB");
    proof {
        assert(s@ =~= spec_disk_label(used_tenths as int, total_tenths as int));
    }
    s
}

/// The CPU gauge label: a percentage with one decimal place.
pub open spec fn spec_cpu_label(tenths: int) -> Seq<char> {
    spec_tenths(tenths) + seq!['%']
}

/// Render the CPU gauge label from tenths of a percent.
pub fn cpu_label(tenths: u64) -> (r: String)
    ensures
        r@ == spec_cpu_label(tenths as int),
{
    let mut s = tenths_string(tenths);
    push_char(&mut s, '%');
    proof {
        assert(s@ =~= spec_cpu_label(tenths as int));
    }
    s
}

impl DashboardView {
    /// An empty dashboard: no snapshot yet, no peers, disconnected.
    pub fn new() -> (r: Self)
        ensures
            r.node_status is None,
            r.peer_count == 0,
            !r.connected,
    {
        DashboardView { node_status: None, peer_count: 0, connected: false }
    }

    /// The node identifier line, with a placeholder before any snapshot.
    pub fn node_id_line(&self) -> (r: String)
        ensures
            r@ == "Node ID: "@ + (match self.node_status {
                Some(st) => st.node_id@,
                None => "Unknown"@,
            }),
    {
        let mut s = String::from_str("Node ID: ");
        match &self.node_status {
            Some(st) => s.append(st.node_id.as_str()),
            None => s.append("Unknown"),
        }
        s
    }

    /// The realm as displayed, with a placeholder before any snapshot.
    pub fn realm_label(&self) -> (r: String)
        ensures
            r@ == (match self.node_status {
                Some(st) => st.realm@,
                None => "Unknown"@,
            }),
    {
        match &self.node_status {
            Some(st) => st.realm.clone(),
            None => String::from_str("Unknown"),
        }
    }

    /// The uptime as displayed, with a placeholder before any snapshot.
    pub fn uptime_label(&self) -> (r: String)
        ensures
            r@ == (match self.node_status {
                Some(st) => spec_uptime(st.uptime_secs),
                None => "Unknown"@,
            }),
    {
        match &self.node_status {
            Some(st) => format_uptime(st.uptime_secs),
            None => String::from_str("Unknown"),
        }
    }

    /// The mesh summary line: the number of known peers.
    pub fn peers_line(&self) -> (r: String)
        ensures
            r@ == "Peers: "@ + dec_digits(self.peer_count as int),
    {
        let mut s = String::from_str("Peers: ");
        let n = u64_string(self.peer_count as u64);
        s.append(n.as_str());
        s
    }
}

} // verus!
