//! The Fastly query projection: return the cached v4 and/or v6 address
//! lists, as requested by the query's version flags.

use vstd::prelude::*;

use crate::cache::{CacheStore, Provider};
use crate::fetchers::fastly::FastlyIpRanges;
use crate::fetchers::IntegrationResult;
use crate::handlers::{flag, flag_set, push_all};

verus! {

/// The shape of one query answer.
pub struct FastlyApiResponse {
    pub status: String,
    pub data: Option<Vec<String>>,
    pub message: Option<String>,
}

/// The addresses a query with the given version flags selects.
pub open spec fn fastly_selected(d: FastlyIpRanges, v4: bool, v6: bool) -> Seq<Seq<char>> {
    (if v4 {
        d.ipv4_addresses.deep_view()
    } else {
        Seq::empty()
    }) + (if v6 {
        d.ipv6_addresses.deep_view()
    } else {
        Seq::empty()
    })
}

/// The data a Fastly query sees in a given store state.
pub open spec fn fastly_query_data(
    m: Map<Provider, IntegrationResult>,
    v4: bool,
    v6: bool,
) -> Seq<Seq<char>> {
    if m.contains_key(Provider::Fastly) {
        match m[Provider::Fastly] {
            IntegrationResult::Fastly(c) => match c.data {
                Some(d) => fastly_selected(d, v4, v6),
                None => Seq::empty(),
            },
            _ => Seq::empty(),
        }
    } else {
        Seq::empty()
    }
}

/// Answer one Fastly query: a parameter error when neither version flag is
/// set, the selected addresses when any exist, a not-found answer otherwise
/// — also when Fastly has never published.
pub fn query_fastly_data(store: &CacheStore, ipv4: Option<bool>, ipv6: Option<bool>) -> (r: (
    u16,
    FastlyApiResponse,
))
    ensures
        ({
            let v4 = flag_set(ipv4);
            let v6 = flag_set(ipv6);
            if !v4 && !v6 {
                &&& r.0 == 400u16
                &&& r.1.status@ == "error"@
                &&& r.1.data is None
                &&& r.1.message matches Some(msg) && msg@
                    == "Either ipv4 or ipv6 must be specified"@
            } else {
                let d = fastly_query_data(store@, v4, v6);
                if d.len() > 0 {
                    &&& r.0 == 200u16
                    &&& r.1.status@ == "success"@
                    &&& r.1.data matches Some(v) && v.deep_view() == d
                    &&& r.1.message is None
                } else {
                    &&& r.0 == 404u16
                    &&& r.1.status@ == "error"@
                    &&& r.1.data is None
                    &&& r.1.message matches Some(msg) && msg@ == "Fastly data not found"@
                }
            }
        }),
{
    let v4 = flag(ipv4);
    let v6 = flag(ipv6);
    if !(v4 || v6) {
        return (
            400,
            FastlyApiResponse {
                status: String::from_str("error"),
                data: None,
                message: Some(String::from_str("Either ipv4 or ipv6 must be specified")),
            },
        );
    }
    match store.get_fastly() {
        Some(c) => match &c.data {
            Some(d) => {
                let mut selected: Vec<String> = Vec::new();
                proof {
                    assert(selected.deep_view() =~= Seq::<Seq<char>>::empty());
                }
                if v4 {
                    push_all(&mut selected, &d.ipv4_addresses);
                }
                if v6 {
                    push_all(&mut selected, &d.ipv6_addresses);
                }
                proof {
                    assert(selected.deep_view() =~= fastly_selected(*d, v4, v6));
                }
                if selected.len() > 0 {
                    return (
                        200,
                        FastlyApiResponse {
                            status: String::from_str("success"),
                            data: Some(selected),
                            message: None,
                        },
                    );
                }
            },
            None => {},
        },
        None => {},
    }
    (
        404,
        FastlyApiResponse {
            status: String::from_str("error"),
            data: None,
            message: Some(String::from_str("Fastly data not found")),
        },
    )
}

} // verus!
