//! The Azure query projection: filter the cached service tags by region and
//! system service, flatten their address prefixes, and keep the requested
//! IP versions.

use vstd::prelude::*;

use crate::cache::{CacheStore, Provider};
use crate::fetchers::azure::AzureValue;
use crate::fetchers::IntegrationResult;
use crate::handlers::{flag, flag_set, push_all, retain_by_version, retain_ip_version};
use crate::text::{lower_of, matches_lower, opt_str_view, str_eq, to_lowercase};

verus! {

/// The shape of one query answer.
pub struct AzureApiResponse<T> {
    pub status: String,
    pub data: Option<T>,
    pub message: Option<String>,
}

/// Whether one Azure service tag passes the query's optional filters.
pub open spec fn azure_value_matches(
    v: AzureValue,
    region: Option<Seq<char>>,
    system_service: Option<Seq<char>>,
) -> bool {
    &&& matches_lower(v.properties.region@, region)
    &&& matches_lower(v.properties.system_service@, system_service)
}

/// The address prefixes of the matching service tags, flattened in order.
pub open spec fn azure_collected(
    vs: Seq<AzureValue>,
    region: Option<Seq<char>>,
    system_service: Option<Seq<char>>,
) -> Seq<Seq<char>>
    decreases vs.len(),
{
    if vs.len() == 0 {
        Seq::empty()
    } else {
        let rest = azure_collected(vs.drop_last(), region, system_service);
        if azure_value_matches(vs.last(), region, system_service) {
            rest + vs.last().properties.address_prefixes.deep_view()
        } else {
            rest
        }
    }
}

/// Collect the address prefixes of the service tags that pass every filter.
pub fn filter_azure_values(
    values: &Vec<AzureValue>,
    region: Option<&String>,
    system_service: Option<&String>,
) -> (r: Vec<String>)
    ensures
        r.deep_view() == azure_collected(
            values@,
            opt_str_view(region),
            opt_str_view(system_service),
        ),
{
    let ghost qr = opt_str_view(region);
    let ghost qs = opt_str_view(system_service);
    let low_region = match region {
        Some(s) => Some(to_lowercase(s.as_str())),
        None => None,
    };
    let low_service = match system_service {
        Some(s) => Some(to_lowercase(s.as_str())),
        None => None,
    };
    let mut out: Vec<String> = Vec::new();
    let mut i: usize = 0;
    let len = values.len();
    proof {
        assert(out.deep_view() =~= azure_collected(values@.take(0), qr, qs));
    }
    while i < len
        invariant
            len == values@.len(),
            i <= len,
            match (qr, &low_region) {
                (Some(q), Some(l)) => l@ == lower_of(q),
                (None, None) => true,
                _ => false,
            },
            match (qs, &low_service) {
                (Some(q), Some(l)) => l@ == lower_of(q),
                (None, None) => true,
                _ => false,
            },
            out.deep_view() == azure_collected(values@.take(i as int), qr, qs),
        decreases len - i,
    {
        let ghost pre = out.deep_view();
        let v = &values[i];
        let mut m = true;
        match &low_region {
            Some(q) => {
                let f = to_lowercase(v.properties.region.as_str());
                if !str_eq(f.as_str(), q.as_str()) {
                    m = false;
                }
            },
            None => {},
        }
        match &low_service {
            Some(q) => {
                let f = to_lowercase(v.properties.system_service.as_str());
                if !str_eq(f.as_str(), q.as_str()) {
                    m = false;
                }
            },
            None => {},
        }
        proof {
            assert(m == azure_value_matches(values@[i as int], qr, qs));
        }
        if m {
            push_all(&mut out, &v.properties.address_prefixes);
        }
        proof {
            assert(values@.take(i as int + 1).drop_last() =~= values@.take(i as int));
            assert(values@.take(i as int + 1).last() == values@[i as int]);
        }
        i = i + 1;
    }
    proof {
        assert(values@.take(len as int) =~= values@);
    }
    out
}

/// The data an Azure query sees in a given store state: the matching
/// prefixes of the requested IP versions.
pub open spec fn azure_query_data(
    m: Map<Provider, IntegrationResult>,
    region: Option<Seq<char>>,
    system_service: Option<Seq<char>>,
    v4: bool,
    v6: bool,
) -> Seq<Seq<char>> {
    if m.contains_key(Provider::Azure) {
        match m[Provider::Azure] {
            IntegrationResult::Azure(c) => match c.data {
                Some(d) => retain_by_version(
                    azure_collected(d.values@, region, system_service),
                    v4,
                    v6,
                ),
                None => Seq::empty(),
            },
            _ => Seq::empty(),
        }
    } else {
        Seq::empty()
    }
}

/// Answer one Azure query: a parameter error when neither version flag is
/// set, the matching prefixes when any survive the filters, a not-found
/// answer otherwise — also when Azure has never published.
pub fn query_azure_data(
    store: &CacheStore,
    region: Option<&String>,
    system_service: Option<&String>,
    ipv4: Option<bool>,
    ipv6: Option<bool>,
) -> (r: (u16, AzureApiResponse<Vec<String>>))
    ensures
        ({
            let v4 = flag_set(ipv4);
            let v6 = flag_set(ipv6);
            if !v4 && !v6 {
                &&& r.0 == 400u16
                &&& r.1.status@ == "error"@
                &&& r.1.data is None
                &&& r.1.message matches Some(msg) && msg@
                    == "Either ipv4 or ipv6 must be specified"@
            } else {
                let d = azure_query_data(
                    store@,
                    opt_str_view(region),
                    opt_str_view(system_service),
                    v4,
                    v6,
                );
                if d.len() > 0 {
                    &&& r.0 == 200u16
                    &&& r.1.status@ == "success"@
                    &&& r.1.data matches Some(v) && v.deep_view() == d
                    &&& r.1.message is None
                } else {
                    &&& r.0 == 404u16
                    &&& r.1.status@ == "error"@
                    &&& r.1.data is None
                    &&& r.1.message matches Some(msg) && msg@ == "Azure data not found"@
                }
            }
        }),
{
    let v4 = flag(ipv4);
    let v6 = flag(ipv6);
    if !(v4 || v6) {
        return (
            400,
            AzureApiResponse {
                status: String::from_str("error"),
                data: None,
                message: Some(String::from_str("Either ipv4 or ipv6 must be specified")),
            },
        );
    }
    match store.get_azure() {
        Some(c) => match &c.data {
            Some(d) => {
                let collected = filter_azure_values(&d.values, region, system_service);
                let filtered = retain_ip_version(collected, v4, v6);
                if filtered.len() > 0 {
                    return (
                        200,
                        AzureApiResponse {
                            status: String::from_str("success"),
                            data: Some(filtered),
                            message: None,
                        },
                    );
                }
            },
            None => {},
        },
        None => {},
    }
    (
        404,
        AzureApiResponse {
            status: String::from_str("error"),
            data: None,
            message: Some(String::from_str("Azure data not found")),
        },
    )
}

} // verus!
