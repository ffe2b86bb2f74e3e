//! Data model for the Azure service-tag publication.

use vstd::prelude::*;

use crate::text::{contains_seq, str_contains};

verus! {

/// The parsed Azure dataset: one value per service tag.
pub struct AzureIpRanges {
    pub values: Vec<AzureValue>,
}

/// One Azure service-tag entry.
pub struct AzureValue {
    pub properties: AzureProperties,
}

/// The properties of one Azure service tag.
pub struct AzureProperties {
    pub region: String,
    pub system_service: String,
    pub address_prefixes: Vec<String>,
}

/// The first hyperlink that names a service-tag document, if any.
pub open spec fn spec_find_service_tags(hs: Seq<String>) -> Option<Seq<char>>
    decreases hs.len(),
{
    if hs.len() == 0 {
        None
    } else if contains_seq(hs[0]@, "ServiceTags_"@) {
        Some(hs[0]@)
    } else {
        spec_find_service_tags(hs.drop_first())
    }
}

/// Pick, from the hyperlinks of the download page, the first one that names
/// a service-tag document.
pub fn find_service_tags_url(hrefs: &Vec<String>) -> (r: Option<String>)
    ensures
        match r {
            Some(u) => spec_find_service_tags(hrefs@) == Some(u@),
            None => spec_find_service_tags(hrefs@) is None,
        },
{
    let mut i: usize = 0;
    let n = hrefs.len();
    proof {
        assert(hrefs@.skip(0) =~= hrefs@);
    }
    while i < n
        invariant
            n == hrefs@.len(),
            i <= n,
            spec_find_service_tags(hrefs@) == spec_find_service_tags(hrefs@.skip(i as int)),
        decreases n - i,
    {
        proof {
            assert(hrefs@.skip(i as int)[0] == hrefs@[i as int]);
        }
        if str_contains(hrefs[i].as_str(), "ServiceTags_") {
            return Some(hrefs[i].clone());
        }
        proof {
            assert(hrefs@.skip(i as int).drop_first() =~= hrefs@.skip(i as int + 1));
        }
        i = i + 1;
    }
    None
}

} // verus!
