//! Data model for the Oracle IP-range publication.

use vstd::prelude::*;

verus! {

/// The parsed Oracle dataset: ranges grouped by region.
pub struct OracleIpRanges {
    pub regions: Vec<OracleRegion>,
}

/// One Oracle region with its CIDR blocks.
pub struct OracleRegion {
    pub region: String,
    pub cidrs: Vec<OracleCidr>,
}

/// One Oracle CIDR block with its classification tags.
pub struct OracleCidr {
    pub cidr: String,
    pub tags: Vec<String>,
}

/// The tag list an Oracle record carries when the upstream document omits one.
pub fn default_tags() -> (r: Vec<String>)
    ensures
        r@.len() == 0,
{
    Vec::new()
}

} // verus!
