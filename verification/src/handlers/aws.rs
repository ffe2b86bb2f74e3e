//! The AWS query projection: filter the cached AWS records by region,
//! service and network border group, each compared case-insensitively.

use vstd::prelude::*;

use crate::cache::{CacheStore, Provider};
use crate::fetchers::aws::AwsPrefix;
use crate::fetchers::IntegrationResult;
use crate::text::{lower_of, matches_lower, opt_str_view, str_eq, to_lowercase};

verus! {

/// The shape of one query answer: a status word, the matching data when the
/// query succeeded, and a message when it did not.
pub struct AwsApiResponse<T> {
    pub status: String,
    pub data: Option<T>,
    pub message: Option<String>,
}

/// Whether one AWS record passes the query's optional filters.
pub open spec fn aws_prefix_matches(
    p: AwsPrefix,
    region: Option<Seq<char>>,
    service: Option<Seq<char>>,
    network_border_group: Option<Seq<char>>,
) -> bool {
    &&& matches_lower(p.region@, region)
    &&& matches_lower(p.service@, service)
    &&& matches_lower(p.network_border_group@, network_border_group)
}

/// The prefixes of the matching AWS records, in publication order.
pub open spec fn aws_filtered(
    ps: Seq<AwsPrefix>,
    region: Option<Seq<char>>,
    service: Option<Seq<char>>,
    network_border_group: Option<Seq<char>>,
) -> Seq<Seq<char>>
    decreases ps.len(),
{
    if ps.len() == 0 {
        Seq::empty()
    } else {
        let rest = aws_filtered(ps.drop_last(), region, service, network_border_group);
        if aws_prefix_matches(ps.last(), region, service, network_border_group) {
            rest.push(ps.last().ip_prefix@)
        } else {
            rest
        }
    }
}

/// Select the prefixes of the records that pass every given filter.
pub fn filter_aws_prefixes(
    prefixes: &Vec<AwsPrefix>,
    region: Option<&String>,
    service: Option<&String>,
    network_border_group: Option<&String>,
) -> (r: Vec<String>)
    ensures
        r.deep_view() == aws_filtered(
            prefixes@,
            opt_str_view(region),
            opt_str_view(service),
            opt_str_view(network_border_group),
        ),
{
    let ghost qr = opt_str_view(region);
    let ghost qs = opt_str_view(service);
    let ghost qn = opt_str_view(network_border_group);
    let low_region = match region {
        Some(s) => Some(to_lowercase(s.as_str())),
        None => None,
    };
    let low_service = match service {
        Some(s) => Some(to_lowercase(s.as_str())),
        None => None,
    };
    let low_nbg = match network_border_group {
        Some(s) => Some(to_lowercase(s.as_str())),
        None => None,
    };
    let mut out: Vec<String> = Vec::new();
    let mut i: usize = 0;
    let len = prefixes.len();
    proof {
        assert(out.deep_view() =~= aws_filtered(prefixes@.take(0), qr, qs, qn));
    }
    while i < len
        invariant
            len == prefixes@.len(),
            i <= len,
            match (qr, &low_region) {
                (Some(q), Some(l)) => l@ == lower_of(q),
                (None, None) => true,
                _ => false,
            },
            match (qs, &low_service) {
                (Some(q), Some(l)) => l@ == lower_of(q),
                (None, None) => true,
                _ => false,
            },
            match (qn, &low_nbg) {
                (Some(q), Some(l)) => l@ == lower_of(q),
                (None, None) => true,
                _ => false,
            },
            out.deep_view() == aws_filtered(prefixes@.take(i as int), qr, qs, qn),
        decreases len - i,
    {
        let ghost pre = out.deep_view();
        let p = &prefixes[i];
        let mut m = true;
        match &low_region {
            Some(q) => {
                let f = to_lowercase(p.region.as_str());
                if !str_eq(f.as_str(), q.as_str()) {
                    m = false;
                }
            },
            None => {},
        }
        match &low_service {
            Some(q) => {
                let f = to_lowercase(p.service.as_str());
                if !str_eq(f.as_str(), q.as_str()) {
                    m = false;
                }
            },
            None => {},
        }
        match &low_nbg {
            Some(q) => {
                let f = to_lowercase(p.network_border_group.as_str());
                if !str_eq(f.as_str(), q.as_str()) {
                    m = false;
                }
            },
            None => {},
        }
        proof {
            assert(m == aws_prefix_matches(prefixes@[i as int], qr, qs, qn));
        }
        if m {
            out.push(p.ip_prefix.clone());
        }
        proof {
            assert(prefixes@.take(i as int + 1).drop_last() =~= prefixes@.take(i as int));
            assert(prefixes@.take(i as int + 1).last() == prefixes@[i as int]);
            if m {
                assert(out.deep_view() =~= pre.push(prefixes@[i as int].ip_prefix@));
            }
        }
        i = i + 1;
    }
    proof {
        assert(prefixes@.take(len as int) =~= prefixes@);
    }
    out
}

/// The data an AWS query sees in a given store state: the filtered prefixes
/// when AWS holds a snapshot with data, nothing otherwise.
pub open spec fn aws_query_data(
    m: Map<Provider, IntegrationResult>,
    region: Option<Seq<char>>,
    service: Option<Seq<char>>,
    network_border_group: Option<Seq<char>>,
) -> Seq<Seq<char>> {
    if m.contains_key(Provider::Aws) {
        match m[Provider::Aws] {
            IntegrationResult::Aws(c) => match c.data {
                Some(d) => aws_filtered(d.prefixes@, region, service, network_border_group),
                None => Seq::empty(),
            },
            _ => Seq::empty(),
        }
    } else {
        Seq::empty()
    }
}

/// Answer one AWS query against the store: the matching prefixes with
/// success when any record matches, and a not-found answer otherwise —
/// also when AWS has never published.
pub fn query_aws_data(
    store: &CacheStore,
    region: Option<&String>,
    service: Option<&String>,
    network_border_group: Option<&String>,
) -> (r: (u16, AwsApiResponse<Vec<String>>))
    ensures
        ({
            let d = aws_query_data(
                store@,
                opt_str_view(region),
                opt_str_view(service),
                opt_str_view(network_border_group),
            );
            if d.len() > 0 {
                &&& r.0 == 200u16
                &&& r.1.status@ == "success"@
                &&& r.1.data matches Some(v) && v.deep_view() == d
                &&& r.1.message is None
            } else {
                &&& r.0 == 404u16
                &&& r.1.status@ == "error"@
                &&& r.1.data is None
                &&& r.1.message matches Some(msg) && msg@ == "AWS data not found"@
            }
        }),
{
    match store.get_aws() {
        Some(c) => match &c.data {
            Some(d) => {
                let filtered = filter_aws_prefixes(
                    &d.prefixes,
                    region,
                    service,
                    network_border_group,
                );
                if filtered.len() > 0 {
                    return (
                        200,
                        AwsApiResponse {
                            status: String::from_str("success"),
                            data: Some(filtered),
                            message: None,
                        },
                    );
                }
            },
            None => {},
        },
        None => {},
    }
    (
        404,
        AwsApiResponse {
            status: String::from_str("error"),
            data: None,
            message: Some(String::from_str("AWS data not found")),
        },
    )
}

} // verus!
