//! Data model for the GCP IP-range publication.

use vstd::prelude::*;

verus! {

/// The parsed GCP dataset: one record per published prefix.
pub struct GcpIpRanges {
    pub prefixes: Vec<GcpPrefix>,
}

/// One GCP prefix record; each record carries a v4 or a v6 prefix.
pub struct GcpPrefix {
    pub ipv4_prefix: Option<String>,
    pub ipv6_prefix: Option<String>,
    pub service: String,
    pub scope: String,
}

} // verus!
