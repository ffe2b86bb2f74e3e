//! The Linode query projection: filter the cached ranges by country code
//! and region substring, and keep the requested IP versions.

use vstd::prelude::*;

use crate::cache::{CacheStore, Provider};
use crate::fetchers::linode::LinodeRange;
use crate::fetchers::IntegrationResult;
use crate::handlers::{flag, flag_set, retain_by_version, retain_ip_version};
use crate::text::{
    contains_seq, lower_of, opt_str_view, str_contains, str_eq, to_lowercase, to_uppercase,
    upper_of,
};

verus! {

/// The shape of one query answer.
pub struct LinodeApiResponse<T> {
    pub status: String,
    pub data: Option<T>,
    pub message: Option<String>,
}

/// Whether one Linode range passes the query's optional filters: the
/// country code compared case-insensitively, the region as a
/// case-insensitive substring.
pub open spec fn linode_range_matches(
    rg: LinodeRange,
    alpha2code: Option<Seq<char>>,
    region: Option<Seq<char>>,
) -> bool {
    &&& match alpha2code {
        Some(q) => upper_of(q) == upper_of(rg.alpha2code@),
        None => true,
    }
    &&& match region {
        Some(q) => contains_seq(lower_of(rg.region@), lower_of(q)),
        None => true,
    }
}

/// The prefixes of the matching Linode ranges, in publication order.
pub open spec fn linode_filtered(
    rs: Seq<LinodeRange>,
    alpha2code: Option<Seq<char>>,
    region: Option<Seq<char>>,
) -> Seq<Seq<char>>
    decreases rs.len(),
{
    if rs.len() == 0 {
        Seq::empty()
    } else {
        let rest = linode_filtered(rs.drop_last(), alpha2code, region);
        if linode_range_matches(rs.last(), alpha2code, region) {
            rest.push(rs.last().ip_prefix@)
        } else {
            rest
        }
    }
}

/// Select the prefixes of the ranges that pass every given filter.
pub fn filter_linode_ranges(
    ranges: &Vec<LinodeRange>,
    alpha2code: Option<&String>,
    region: Option<&String>,
) -> (r: Vec<String>)
    ensures
        r.deep_view() == linode_filtered(ranges@, opt_str_view(alpha2code), opt_str_view(region)),
{
    let ghost qa = opt_str_view(alpha2code);
    let ghost qr = opt_str_view(region);
    let up_alpha = match alpha2code {
        Some(s) => Some(to_uppercase(s.as_str())),
        None => None,
    };
    let low_region = match region {
        Some(s) => Some(to_lowercase(s.as_str())),
        None => None,
    };
    let mut out: Vec<String> = Vec::new();
    let mut i: usize = 0;
    let len = ranges.len();
    proof {
        assert(out.deep_view() =~= linode_filtered(ranges@.take(0), qa, qr));
    }
    while i < len
        invariant
            len == ranges@.len(),
            i <= len,
            match (qa, &up_alpha) {
                (Some(q), Some(u)) => u@ == upper_of(q),
                (None, None) => true,
                _ => false,
            },
            match (qr, &low_region) {
                (Some(q), Some(l)) => l@ == lower_of(q),
                (None, None) => true,
                _ => false,
            },
            out.deep_view() == linode_filtered(ranges@.take(i as int), qa, qr),
        decreases len - i,
    {
        let ghost pre = out.deep_view();
        let rg = &ranges[i];
        let mut m = true;
        match &up_alpha {
            Some(q) => {
                let f = to_uppercase(rg.alpha2code.as_str());
                if !str_eq(q.as_str(), f.as_str()) {
                    m = false;
                }
            },
            None => {},
        }
        match &low_region {
            Some(q) => {
                let f = to_lowercase(rg.region.as_str());
                if !str_contains(f.as_str(), q.as_str()) {
                    m = false;
                }
            },
            None => {},
        }
        proof {
            assert(m == linode_range_matches(ranges@[i as int], qa, qr));
        }
        if m {
            out.push(rg.ip_prefix.clone());
        }
        proof {
            assert(ranges@.take(i as int + 1).drop_last() =~= ranges@.take(i as int));
            assert(ranges@.take(i as int + 1).last() == ranges@[i as int]);
            if m {
                assert(out.deep_view() =~= pre.push(ranges@[i as int].ip_prefix@));
            }
        }
        i = i + 1;
    }
    proof {
        assert(ranges@.take(len as int) =~= ranges@);
    }
    out
}

/// The data a Linode query sees in a given store state.
pub open spec fn linode_query_data(
    m: Map<Provider, IntegrationResult>,
    alpha2code: Option<Seq<char>>,
    region: Option<Seq<char>>,
    v4: bool,
    v6: bool,
) -> Seq<Seq<char>> {
    if m.contains_key(Provider::Linode) {
        match m[Provider::Linode] {
            IntegrationResult::Linode(c) => match c.data {
                Some(d) => retain_by_version(
                    linode_filtered(d.ranges@, alpha2code, region),
                    v4,
                    v6,
                ),
                None => Seq::empty(),
            },
            _ => Seq::empty(),
        }
    } else {
        Seq::empty()
    }
}

/// Answer one Linode query: a parameter error when neither version flag is
/// set, the matching prefixes when any survive the filters, a not-found
/// answer otherwise — also when Linode has never published.
pub fn query_linode_data(
    store: &CacheStore,
    alpha2code: Option<&String>,
    region: Option<&String>,
    ipv4: Option<bool>,
    ipv6: Option<bool>,
) -> (r: (u16, LinodeApiResponse<Vec<String>>))
    ensures
        ({
            let v4 = flag_set(ipv4);
            let v6 = flag_set(ipv6);
            if !v4 && !v6 {
                &&& r.0 == 400u16
                &&& r.1.status@ == "error"@
                &&& r.1.data is None
                &&& r.1.message matches Some(msg) && msg@
                    == "Either ipv4 or ipv6 must be specified"@
            } else {
                let d = linode_query_data(
                    store@,
                    opt_str_view(alpha2code),
                    opt_str_view(region),
                    v4,
                    v6,
                );
                if d.len() > 0 {
                    &&& r.0 == 200u16
                    &&& r.1.status@ == "success"@
                    &&& r.1.data matches Some(v) && v.deep_view() == d
                    &&& r.1.message is None
                } else {
                    &&& r.0 == 404u16
                    &&& r.1.status@ == "error"@
                    &&& r.1.data is None
                    &&& r.1.message matches Some(msg) && msg@ == "Linode data not found"@
                }
            }
        }),
{
    let v4 = flag(ipv4);
    let v6 = flag(ipv6);
    if !(v4 || v6) {
        return (
            400,
            LinodeApiResponse {
                status: String::from_str("error"),
                data: None,
                message: Some(String::from_str("Either ipv4 or ipv6 must be specified")),
            },
        );
    }
    match store.get_linode() {
        Some(c) => match &c.data {
            Some(d) => {
                let collected = filter_linode_ranges(&d.ranges, alpha2code, region);
                let filtered = retain_ip_version(collected, v4, v6);
                if filtered.len() > 0 {
                    return (
                        200,
                        LinodeApiResponse {
                            status: String::from_str("success"),
                            data: Some(filtered),
                            message: None,
                        },
                    );
                }
            },
            None => {},
        },
        None => {},
    }
    (
        404,
        LinodeApiResponse {
            status: String::from_str("error"),
            data: None,
            message: Some(String::from_str("Linode data not found")),
        },
    )
}

} // verus!
