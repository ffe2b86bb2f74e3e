//! The Cloudflare query projection: return the cached v4 and/or v6 CIDR
//! lists, as requested by the query's version flags.

use vstd::prelude::*;

use crate::cache::{CacheStore, Provider};
use crate::fetchers::cloudflare::CloudflareIpRanges;
use crate::fetchers::IntegrationResult;
use crate::handlers::{flag, flag_set, push_all};

verus! {

/// The shape of one query answer.
pub struct CloudflareApiResponse {
    pub status: String,
    pub data: Option<Vec<String>>,
    pub message: Option<String>,
}

/// The addresses a query with the given version flags selects: the v4 list
/// when v4 is requested, followed by the v6 list when v6 is requested.
pub open spec fn cloudflare_selected(d: CloudflareIpRanges, v4: bool, v6: bool) -> Seq<Seq<char>> {
    (if v4 {
        d.ipv4_cidrs.deep_view()
    } else {
        Seq::empty()
    }) + (if v6 {
        d.ipv6_cidrs.deep_view()
    } else {
        Seq::empty()
    })
}

/// The data a Cloudflare query sees in a given store state.
pub open spec fn cloudflare_query_data(
    m: Map<Provider, IntegrationResult>,
    v4: bool,
    v6: bool,
) -> Seq<Seq<char>> {
    if m.contains_key(Provider::Cloudflare) {
        match m[Provider::Cloudflare] {
            IntegrationResult::Cloudflare(c) => match c.data {
                Some(d) => cloudflare_selected(d, v4, v6),
                None => Seq::empty(),
            },
            _ => Seq::empty(),
        }
    } else {
        Seq::empty()
    }
}

/// Answer one Cloudflare query: a parameter error when neither version flag
/// is set, the selected addresses when any exist, a not-found answer
/// otherwise — also when Cloudflare has never published.
pub fn query_cloudflare_data(store: &CacheStore, ipv4: Option<bool>, ipv6: Option<bool>) -> (r: (
    u16,
    CloudflareApiResponse,
))
    ensures
        ({
            let v4 = flag_set(ipv4);
            let v6 = flag_set(ipv6);
            if !v4 && !v6 {
                &&& r.0 == 400u16
                &&& r.1.status@ == "error"@
                &&& r.1.data is None
                &&& r.1.message matches Some(msg) && msg@
                    == "Either ipv4 or ipv6 must be specified"@
            } else {
                let d = cloudflare_query_data(store@, v4, v6);
                if d.len() > 0 {
                    &&& r.0 == 200u16
                    &&& r.1.status@ == "success"@
                    &&& r.1.data matches Some(v) && v.deep_view() == d
                    &&& r.1.message is None
                } else {
                    &&& r.0 == 404u16
                    &&& r.1.status@ == "error"@
                    &&& r.1.data is None
                    &&& r.1.message matches Some(msg) && msg@ == "Cloudflare data not found"@
                }
            }
        }),
{
    let v4 = flag(ipv4);
    let v6 = flag(ipv6);
    if !(v4 || v6) {
        return (
            400,
            CloudflareApiResponse {
                status: String::from_str("error"),
                data: None,
                message: Some(String::from_str("Either ipv4 or ipv6 must be specified")),
            },
        );
    }
    match store.get_cloudflare() {
        Some(c) => match &c.data {
            Some(d) => {
                let mut selected: Vec<String> = Vec::new();
                proof {
                    assert(selected.deep_view() =~= Seq::<Seq<char>>::empty());
                }
                if v4 {
                    push_all(&mut selected, &d.ipv4_cidrs);
                }
                if v6 {
                    push_all(&mut selected, &d.ipv6_cidrs);
                }
                proof {
                    assert(selected.deep_view() =~= cloudflare_selected(*d, v4, v6));
                }
                if selected.len() > 0 {
                    return (
                        200,
                        CloudflareApiResponse {
                            status: String::from_str("success"),
                            data: Some(selected),
                            message: None,
                        },
                    );
                }
            },
            None => {},
        },
        None => {},
    }
    (
        404,
        CloudflareApiResponse {
            status: String::from_str("error"),
            data: None,
            message: Some(String::from_str("Cloudflare data not found")),
        },
    )
}

} // verus!
