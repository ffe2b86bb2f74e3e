//! The GCP query projection: filter the cached records by scope and
//! service, and return the prefix of the requested IP version from each
//! matching record.

use vstd::prelude::*;

use crate::cache::{CacheStore, Provider};
use crate::fetchers::gcp::GcpPrefix;
use crate::fetchers::IntegrationResult;
use crate::handlers::{flag, flag_set};
use crate::text::{lower_of, matches_lower, opt_str_view, str_eq, to_lowercase};

verus! {

/// The shape of one query answer.
pub struct GcpApiResponse<T> {
    pub status: String,
    pub data: Option<T>,
    pub message: Option<String>,
}

/// Whether one GCP record passes the query's optional filters and carries a
/// prefix of a requested IP version.
pub open spec fn gcp_prefix_matches(
    p: GcpPrefix,
    scope: Option<Seq<char>>,
    service: Option<Seq<char>>,
    v4: bool,
    v6: bool,
) -> bool {
    &&& matches_lower(p.scope@, scope)
    &&& matches_lower(p.service@, service)
    &&& ((v4 && p.ipv4_prefix is Some) || (v6 && p.ipv6_prefix is Some))
}

/// The prefix a matching record contributes: its v4 prefix when v4 was
/// requested and present, its v6 prefix otherwise.
pub open spec fn gcp_pick(p: GcpPrefix, v4: bool, v6: bool) -> Seq<char> {
    if v4 && p.ipv4_prefix is Some {
        match p.ipv4_prefix {
            Some(s) => s@,
            None => Seq::empty(),
        }
    } else {
        match p.ipv6_prefix {
            Some(s) => s@,
            None => Seq::empty(),
        }
    }
}

/// The prefixes of the matching GCP records, in publication order.
pub open spec fn gcp_filtered(
    ps: Seq<GcpPrefix>,
    scope: Option<Seq<char>>,
    service: Option<Seq<char>>,
    v4: bool,
    v6: bool,
) -> Seq<Seq<char>>
    decreases ps.len(),
{
    if ps.len() == 0 {
        Seq::empty()
    } else {
        let rest = gcp_filtered(ps.drop_last(), scope, service, v4, v6);
        if gcp_prefix_matches(ps.last(), scope, service, v4, v6) {
            rest.push(gcp_pick(ps.last(), v4, v6))
        } else {
            rest
        }
    }
}

/// Select the version-appropriate prefixes of the records that pass every
/// given filter.
pub fn filter_gcp_prefixes(
    prefixes: &Vec<GcpPrefix>,
    scope: Option<&String>,
    service: Option<&String>,
    v4: bool,
    v6: bool,
) -> (r: Vec<String>)
    ensures
        r.deep_view() == gcp_filtered(
            prefixes@,
            opt_str_view(scope),
            opt_str_view(service),
            v4,
            v6,
        ),
{
    let ghost qc = opt_str_view(scope);
    let ghost qs = opt_str_view(service);
    let low_scope = match scope {
        Some(s) => Some(to_lowercase(s.as_str())),
        None => None,
    };
    let low_service = match service {
        Some(s) => Some(to_lowercase(s.as_str())),
        None => None,
    };
    let mut out: Vec<String> = Vec::new();
    let mut i: usize = 0;
    let len = prefixes.len();
    proof {
        assert(out.deep_view() =~= gcp_filtered(prefixes@.take(0), qc, qs, v4, v6));
    }
    while i < len
        invariant
            len == prefixes@.len(),
            i <= len,
            match (qc, &low_scope) {
                (Some(q), Some(l)) => l@ == lower_of(q),
                (None, None) => true,
                _ => false,
            },
            match (qs, &low_service) {
                (Some(q), Some(l)) => l@ == lower_of(q),
                (None, None) => true,
                _ => false,
            },
            out.deep_view() == gcp_filtered(prefixes@.take(i as int), qc, qs, v4, v6),
        decreases len - i,
    {
        let ghost pre = out.deep_view();
        let p = &prefixes[i];
        let mut m = true;
        match &low_scope {
            Some(q) => {
                let f = to_lowercase(p.scope.as_str());
                if !str_eq(f.as_str(), q.as_str()) {
                    m = false;
                }
            },
            None => {},
        }
        match &low_service {
            Some(q) => {
                let f = to_lowercase(p.service.as_str());
                if !str_eq(f.as_str(), q.as_str()) {
                    m = false;
                }
            },
            None => {},
        }
        let version_ok = (v4 && p.ipv4_prefix.is_some()) || (v6 && p.ipv6_prefix.is_some());
        let keep = m && version_ok;
        proof {
            assert(keep == gcp_prefix_matches(prefixes@[i as int], qc, qs, v4, v6));
        }
        if keep {
            let mut pushed = false;
            if v4 {
                match &p.ipv4_prefix {
                    Some(s) => {
                        out.push(s.clone());
                        pushed = true;
                    },
                    None => {},
                }
            }
            if !pushed {
                match &p.ipv6_prefix {
                    Some(s) => {
                        out.push(s.clone());
                    },
                    None => {
                        proof {
                            assert(false);
                        }
                    },
                }
            }
            proof {
                assert(out.deep_view() =~= pre.push(gcp_pick(prefixes@[i as int], v4, v6)));
            }
        }
        proof {
            assert(prefixes@.take(i as int + 1).drop_last() =~= prefixes@.take(i as int));
            assert(prefixes@.take(i as int + 1).last() == prefixes@[i as int]);
        }
        i = i + 1;
    }
    proof {
        assert(prefixes@.take(len as int) =~= prefixes@);
    }
    out
}

/// The data a GCP query sees in a given store state.
pub open spec fn gcp_query_data(
    m: Map<Provider, IntegrationResult>,
    scope: Option<Seq<char>>,
    service: Option<Seq<char>>,
    v4: bool,
    v6: bool,
) -> Seq<Seq<char>> {
    if m.contains_key(Provider::Gcp) {
        match m[Provider::Gcp] {
            IntegrationResult::Gcp(c) => match c.data {
                Some(d) => gcp_filtered(d.prefixes@, scope, service, v4, v6),
                None => Seq::empty(),
            },
            _ => Seq::empty(),
        }
    } else {
        Seq::empty()
    }
}

/// Answer one GCP query: a parameter error when neither version flag is
/// set, the matching prefixes when any record matches, a not-found answer
/// otherwise — also when GCP has never published.
pub fn query_gcp_data(
    store: &CacheStore,
    scope: Option<&String>,
    service: Option<&String>,
    ipv4: Option<bool>,
    ipv6: Option<bool>,
) -> (r: (u16, GcpApiResponse<Vec<String>>))
    ensures
        ({
            let v4 = flag_set(ipv4);
            let v6 = flag_set(ipv6);
            if !v4 && !v6 {
                &&& r.0 == 400u16
                &&& r.1.status@ == "error"@
                &&& r.1.data is None
                &&& r.1.message matches Some(msg) && msg@
                    == "Either ipv4 or ipv6 must be specified"@
            } else {
                let d = gcp_query_data(store@, opt_str_view(scope), opt_str_view(service), v4, v6);
                if d.len() > 0 {
                    &&& r.0 == 200u16
                    &&& r.1.status@ == "success"@
                    &&& r.1.data matches Some(v) && v.deep_view() == d
                    &&& r.1.message is None
                } else {
                    &&& r.0 == 404u16
                    &&& r.1.status@ == "error"@
                    &&& r.1.data is None
                    &&& r.1.message matches Some(msg) && msg@ == "GCP data not found"@
                }
            }
        }),
{
    let v4 = flag(ipv4);
    let v6 = flag(ipv6);
    if !(v4 || v6) {
        return (
            400,
            GcpApiResponse {
                status: String::from_str("error"),
                data: None,
                message: Some(String::from_str("Either ipv4 or ipv6 must be specified")),
            },
        );
    }
    match store.get_gcp() {
        Some(c) => match &c.data {
            Some(d) => {
                let filtered = filter_gcp_prefixes(&d.prefixes, scope, service, v4, v6);
                if filtered.len() > 0 {
                    return (
                        200,
                        GcpApiResponse {
                            status: String::from_str("success"),
                            data: Some(filtered),
                            message: None,
                        },
                    );
                }
            },
            None => {},
        },
        None => {},
    }
    (
        404,
        GcpApiResponse {
            status: String::from_str("error"),
            data: None,
            message: Some(String::from_str("GCP data not found")),
        },
    )
}

} // verus!
