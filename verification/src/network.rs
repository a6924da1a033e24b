//! Network health and the fail-open policy.

use vstd::prelude::*;

verus! {

/// What the last network check found.
#[derive(Debug, Clone)]
pub struct NetworkHealth {
    pub dns_ok: bool,
    pub internet_ok: bool,
    pub adapters: usize,
}

impl Default for NetworkHealth {
    fn default() -> (h: Self)
        ensures
            !h.dns_ok,
            !h.internet_ok,
            h.adapters == 0,
    {
        NetworkHealth { dns_ok: false, internet_ok: false, adapters: 0 }
    }
}

impl NetworkHealth {
    /// DNS and internet are reachable and at least one adapter is present.
    pub fn is_healthy(&self) -> (b: bool)
        ensures
            b == (self.dns_ok && self.internet_ok && self.adapters > 0),
    {
        self.dns_ok && self.internet_ok && self.adapters > 0
    }
}

pub fn fail_open_policy() -> (s: &'static str)
    ensures
        s@ == "Fail open: if the service cannot initialize, normal connectivity is preserved and previous network settings are restored."@,
{
    "Fail open: if the service cannot initialize, normal connectivity is preserved and previous network settings are restored."
}

} // verus!
