//! The diagnostics report.

use vstd::prelude::*;

verus! {

/// The outcome of each diagnostic check.
#[derive(Debug, Clone)]
pub struct DiagnosticsReport {
    pub service_status: bool,
    pub dns_status: bool,
    pub network_status: bool,
    pub wfp_status: bool,
    pub ipc_status: bool,
}

impl Default for DiagnosticsReport {
    fn default() -> (r: Self)
        ensures
            !r.service_status,
            !r.dns_status,
            !r.network_status,
            !r.wfp_status,
            !r.ipc_status,
    {
        DiagnosticsReport {
            service_status: false,
            dns_status: false,
            network_status: false,
            wfp_status: false,
            ipc_status: false,
        }
    }
}

impl DiagnosticsReport {
    /// Every check passed.
    pub fn healthy(&self) -> (b: bool)
        ensures
            b == (self.service_status && self.dns_status && self.network_status
                && self.wfp_status && self.ipc_status),
    {
        self.service_status && self.dns_status && self.network_status && self.wfp_status
            && self.ipc_status
    }
}

pub fn doctor_summary() -> (s: &'static str)
    ensures
        s@ == "Diagnostics include service health, DNS validation, network adapter checks, WFP readiness, and IPC connectivity."@,
{
    "Diagnostics include service health, DNS validation, network adapter checks, WFP readiness, and IPC connectivity."
}

} // verus!
