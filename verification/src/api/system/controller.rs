//! Handlers of the system resource.

use vstd::prelude::*;
use super::dto::{SystemConfig, SystemConfigView, SystemStatus, SystemStatusView};
use crate::utils::response::{success_view, ApiResponse};

verus! {

/// The health report of a service of version `version`.
pub open spec fn status_report(version: Seq<char>) -> SystemStatusView {
    SystemStatusView {
        status: "running"@,
        version,
        uptime: "3d 12h 5m"@,
        memory_usage: "128MB"@,
        cpu_usage: "5%"@,
    }
}

/// The settings every instance reports.
pub open spec fn standing_config() -> SystemConfigView {
    SystemConfigView { max_connections: 1000, timeout: 30, debug_mode: false, log_level: "info"@ }
}

/// Handlers of the system resource.
#[derive(Debug, Default, Clone, Copy, PartialEq, Eq, Structural)]
pub struct SystemController;

impl SystemController {
    /// Reports the state of the service, whose version the caller supplies.
    pub fn get_system_status(&self, version: &str) -> (r: ApiResponse<SystemStatus>)
        ensures
            r@ == success_view(Some(status_report(version@))),
    {
        let status = SystemStatus {
            status: "running".to_string(),
            version: version.to_string(),
            uptime: "3d 12h 5m".to_string(),
            memory_usage: "128MB".to_string(),
            cpu_usage: "5%".to_string(),
        };
        ApiResponse::success(status)
    }

    /// Reports the settings of the service.
    pub fn get_system_config(&self) -> (r: ApiResponse<SystemConfig>)
        ensures
            r@ == success_view(Some(standing_config())),
    {
        let config = SystemConfig {
            max_connections: 1000,
            timeout: 30,
            debug_mode: false,
            log_level: "info".to_string(),
        };
        ApiResponse::success(config)
    }
}

} // verus!
