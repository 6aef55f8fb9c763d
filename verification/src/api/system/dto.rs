//! Payloads of the system resource.

use vstd::prelude::*;

verus! {

/// Health report of the running service.
#[derive(Debug, Clone, PartialEq, Eq)]
pub struct SystemStatus {
    /// Run state, e.g. `running`.
    pub status: String,
    /// Version of the service.
    pub version: String,
    /// Time since start, for humans.
    pub uptime: String,
    /// Memory in use, for humans.
    pub memory_usage: String,
    /// Processor share in use, for humans.
    pub cpu_usage: String,
}

/// Mathematical content of a [`SystemStatus`].
pub struct SystemStatusView {
    pub status: Seq<char>,
    pub version: Seq<char>,
    pub uptime: Seq<char>,
    pub memory_usage: Seq<char>,
    pub cpu_usage: Seq<char>,
}

impl View for SystemStatus {
    type V = SystemStatusView;

    open spec fn view(&self) -> SystemStatusView {
        SystemStatusView {
            status: self.status@,
            version: self.version@,
            uptime: self.uptime@,
            memory_usage: self.memory_usage@,
            cpu_usage: self.cpu_usage@,
        }
    }
}

/// Settings the service runs with.
#[derive(Debug, Clone, PartialEq, Eq)]
pub struct SystemConfig {
    /// Upper bound on simultaneous connections.
    pub max_connections: u32,
    /// Request timeout in seconds.
    pub timeout: u32,
    /// Whether debug output is on.
    pub debug_mode: bool,
    /// Verbosity of the log.
    pub log_level: String,
}

/// Mathematical content of a [`SystemConfig`].
pub struct SystemConfigView {
    pub max_connections: u32,
    pub timeout: u32,
    pub debug_mode: bool,
    pub log_level: Seq<char>,
}

impl View for SystemConfig {
    type V = SystemConfigView;

    open spec fn view(&self) -> SystemConfigView {
        SystemConfigView {
            max_connections: self.max_connections,
            timeout: self.timeout,
            debug_mode: self.debug_mode,
            log_level: self.log_level@,
        }
    }
}

} // verus!
