//! The normalized system-state schema, as far as the decisions read it.
use vstd::prelude::*;

verus! {

/// How urgent an alert is.
#[derive(Debug, Clone, Copy, PartialEq, Eq, Structural)]
pub enum AlertSeverity {
    Info,
    Warning,
    Critical,
}

/// One alert raised from a state sample.
#[derive(Debug, Clone)]
pub struct SystemAlert {
    pub severity: AlertSeverity,
    pub code: String,
    pub message: String,
}

/// Host identity and uptime.
#[derive(Debug, Clone)]
pub struct MachineState {
    pub hostname: Option<String>,
    pub os_name: Option<String>,
    pub kernel_version: Option<String>,
    pub uptime_secs: u64,
}

/// Network connections and interfaces.
#[derive(Debug, Clone)]
pub struct NetworkState {
    pub active_connections: Vec<NetworkConnection>,
    pub interfaces: Vec<NetworkInterface>,
}

/// One open network connection.
#[derive(Debug, Clone)]
pub struct NetworkConnection {
    pub protocol: String,
    pub local_address: String,
    pub local_port: u16,
    pub remote_address: String,
    pub remote_port: u16,
    pub state: String,
    pub process_name: Option<String>,
}

/// One network interface and its traffic counters.
#[derive(Debug, Clone)]
pub struct NetworkInterface {
    pub name: String,
    pub mac_address: Option<String>,
    pub ip_addresses: Vec<String>,
    pub bytes_sent: u64,
    pub bytes_received: u64,
}

/// One attached USB device.
#[derive(Debug, Clone)]
pub struct UsbDevice {
    pub vendor_id: String,
    pub product_id: String,
    pub serial: Option<String>,
}

/// An `f32` reading by its order key: `None` stands for NaN, otherwise an integer
/// that compares as the reading does (`-0.0` and `0.0` share the key `0`).
#[derive(Debug, Clone, Copy)]
pub struct Level {
    pub key: Option<i32>,
}

/// `a >= b` on the readings the levels stand for.
pub open spec fn at_least(a: Level, b: Level) -> bool {
    a.key is Some && b.key is Some && a.key->0 >= b.key->0
}

/// `a > b` on the readings the levels stand for.
pub open spec fn above(a: Level, b: Level) -> bool {
    a.key is Some && b.key is Some && a.key->0 > b.key->0
}

impl Level {
    /// `self >= other`, false when either is NaN.
    pub fn at_least(&self, other: &Level) -> (b: bool)
        ensures
            b == at_least(*self, *other),
    {
        match (self.key, other.key) {
            (Some(a), Some(b)) => a >= b,
            _ => false,
        }
    }

    /// `self > other`, false when either is NaN.
    pub fn above(&self, other: &Level) -> (b: bool)
        ensures
            b == above(*self, *other),
    {
        match (self.key, other.key) {
            (Some(a), Some(b)) => a > b,
            _ => false,
        }
    }
}

/// An `f64` reading by its order key: `None` stands for NaN, otherwise an integer that
/// compares as the reading does.
#[derive(Debug, Clone, Copy)]
pub struct Gauge {
    pub key: Option<i64>,
}

/// A reading: its level, and its rendering with one decimal (`{:.1}`).
#[derive(Debug, Clone)]
pub struct Reading {
    pub level: Level,
    pub text: String,
}

} // verus!
