//! The Windows Filtering Platform controller state.

use vstd::prelude::*;

verus! {

/// Whether packet filtering is on, and how many filters are loaded.
#[derive(Debug, Clone)]
pub struct WfpController {
    pub enabled: bool,
    pub filters_loaded: usize,
}

impl Default for WfpController {
    fn default() -> (w: Self)
        ensures
            !w.enabled,
            w.filters_loaded == 0,
    {
        WfpController { enabled: false, filters_loaded: 0 }
    }
}

impl WfpController {
    pub fn new() -> (w: Self)
        ensures
            !w.enabled,
            w.filters_loaded == 0,
    {
        Self::default()
    }

    /// Turns filtering on with its one filter loaded.
    pub fn initialize(&mut self)
        ensures
            final(self).enabled,
            final(self).filters_loaded == 1,
    {
        self.enabled = true;
        self.filters_loaded = 1;
    }

    /// Turns filtering off and unloads every filter.
    pub fn shutdown(&mut self)
        ensures
            !final(self).enabled,
            final(self).filters_loaded == 0,
    {
        self.enabled = false;
        self.filters_loaded = 0;
    }
}

} // verus!
