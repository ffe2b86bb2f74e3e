//! Data model for the Fastly IP-range publication.

use vstd::prelude::*;

verus! {

/// The parsed Fastly dataset: the v4 and v6 address lists.
pub struct FastlyIpRanges {
    pub ipv4_addresses: Vec<String>,
    pub ipv6_addresses: Vec<String>,
}

} // verus!
