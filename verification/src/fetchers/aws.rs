//! Data model for the AWS IP-range publication.

use vstd::prelude::*;

verus! {

/// The parsed AWS dataset: one record per published prefix.
pub struct AwsIpRanges {
    pub prefixes: Vec<AwsPrefix>,
}

/// One AWS prefix record.
pub struct AwsPrefix {
    pub ip_prefix: String,
    pub region: String,
    pub service: String,
    pub network_border_group: String,
}

} // verus!
