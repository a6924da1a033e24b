//! Filter-list updates.

use vstd::prelude::*;
use crate::text::{trim, trim_str};

verus! {

/// A filter list to fetch from `source_url` into the file at `target_path`,
/// and whether the request was found valid.
#[derive(Debug, Clone)]
pub struct FilterListUpdate {
    pub source_url: String,
    pub target_path: String,
    pub validated: bool,
}

impl FilterListUpdate {
    pub fn new(source_url: &str, target_path: &str) -> (u: Self)
        ensures
            u.source_url@ == source_url@,
            u.target_path@ == target_path@,
            !u.validated,
    {
        FilterListUpdate {
            source_url: String::from_str(source_url),
            target_path: String::from_str(target_path),
            validated: false,
        }
    }

    /// Valid when the source URL holds more than whitespace and the target
    /// path is not empty; records and returns the outcome.
    pub fn validate(&mut self) -> (b: bool)
        ensures
            b == (trim(old(self).source_url@).len() > 0 && old(self).target_path@.len() > 0),
            final(self).validated == b,
            final(self).source_url == old(self).source_url,
            final(self).target_path == old(self).target_path,
    {
        let url_ok = !trim_str(self.source_url.as_str()).is_empty();
        let path_ok = !self.target_path.as_str().is_empty();
        self.validated = url_ok && path_ok;
        self.validated
    }
}

pub fn update_policy() -> (s: &'static str)
    ensures
        s@ == "Downloaded filter lists are validated and atomically swapped only after successful parsing and verification."@,
{
    "Downloaded filter lists are validated and atomically swapped only after successful parsing and verification."
}

} // verus!
