//! The Oracle query projection: keep the CIDR blocks of the regions that
//! match the query's region, filtered by a case-insensitive tag match.

use vstd::prelude::*;

use crate::cache::{CacheStore, Provider};
use crate::fetchers::oracle::{OracleCidr, OracleRegion};
use crate::fetchers::IntegrationResult;
use crate::text::{lower_of, matches_lower, opt_str_view, str_eq, to_lowercase};

verus! {

/// The shape of one query answer.
pub struct OracleApiResponse {
    pub status: String,
    pub data: Option<Vec<String>>,
    pub message: Option<String>,
}

/// Whether a CIDR block's tag list satisfies the query's optional tag: some
/// tag must equal it after case folding.
pub open spec fn tag_list_matches(tags: Seq<String>, tag: Option<Seq<char>>) -> bool {
    match tag {
        Some(t) => exists|i: int|
            0 <= i < tags.len() && lower_of(#[trigger] tags[i]@) == lower_of(t),
        None => true,
    }
}

/// The CIDR strings of the blocks whose tags satisfy the query, in order.
pub open spec fn oracle_cidrs_filtered(cs: Seq<OracleCidr>, tag: Option<Seq<char>>) -> Seq<
    Seq<char>,
>
    decreases cs.len(),
{
    if cs.len() == 0 {
        Seq::empty()
    } else {
        let rest = oracle_cidrs_filtered(cs.drop_last(), tag);
        if tag_list_matches(cs.last().tags@, tag) {
            rest.push(cs.last().cidr@)
        } else {
            rest
        }
    }
}

/// The CIDR strings the query selects across all matching regions, in order.
pub open spec fn oracle_collected(
    regs: Seq<OracleRegion>,
    region: Option<Seq<char>>,
    tag: Option<Seq<char>>,
) -> Seq<Seq<char>>
    decreases regs.len(),
{
    if regs.len() == 0 {
        Seq::empty()
    } else {
        let rest = oracle_collected(regs.drop_last(), region, tag);
        if matches_lower(regs.last().region@, region) {
            rest + oracle_cidrs_filtered(regs.last().cidrs@, tag)
        } else {
            rest
        }
    }
}

/// Whether some tag in the list equals the lowered needle after case folding.
fn tags_contain_lower(tags: &Vec<String>, needle: &String) -> (r: bool)
    ensures
        r == exists|i: int| 0 <= i < tags@.len() && lower_of(#[trigger] tags@[i]@) == needle@,
{
    let mut i: usize = 0;
    let len = tags.len();
    while i < len
        invariant
            len == tags@.len(),
            i <= len,
            forall|j: int| 0 <= j < i ==> lower_of(#[trigger] tags@[j]@) != needle@,
        decreases len - i,
    {
        let f = to_lowercase(tags[i].as_str());
        if str_eq(f.as_str(), needle.as_str()) {
            return true;
        }
        i = i + 1;
    }
    false
}

/// Append the CIDR strings of the blocks whose tags satisfy the query.
fn append_matching_cidrs(
    out: &mut Vec<String>,
    cidrs: &Vec<OracleCidr>,
    low_tag: &Option<String>,
    Ghost(qt): Ghost<Option<Seq<char>>>,
)
    requires
        match (qt, low_tag) {
            (Some(t), Some(l)) => l@ == lower_of(t),
            (None, None) => true,
            _ => false,
        },
    ensures
        final(out).deep_view() == old(out).deep_view() + oracle_cidrs_filtered(cidrs@, qt),
{
    let mut j: usize = 0;
    let len = cidrs.len();
    proof {
        assert(out.deep_view() =~= old(out).deep_view() + oracle_cidrs_filtered(
            cidrs@.take(0),
            qt,
        ));
    }
    while j < len
        invariant
            len == cidrs@.len(),
            j <= len,
            match (qt, low_tag) {
                (Some(t), Some(l)) => l@ == lower_of(t),
                (None, None) => true,
                _ => false,
            },
            out.deep_view() == old(out).deep_view() + oracle_cidrs_filtered(
                cidrs@.take(j as int),
                qt,
            ),
        decreases len - j,
    {
        let ghost pre = out.deep_view();
        let c = &cidrs[j];
        let m = match low_tag {
            Some(l) => tags_contain_lower(&c.tags, l),
            None => true,
        };
        proof {
            assert(m == tag_list_matches(cidrs@[j as int].tags@, qt));
        }
        if m {
            out.push(c.cidr.clone());
        }
        proof {
            assert(cidrs@.take(j as int + 1).drop_last() =~= cidrs@.take(j as int));
            assert(cidrs@.take(j as int + 1).last() == cidrs@[j as int]);
            if m {
                assert(out.deep_view() =~= pre.push(cidrs@[j as int].cidr@));
            }
        }
        j = j + 1;
    }
    proof {
        assert(cidrs@.take(len as int) =~= cidrs@);
    }
}

/// Collect the CIDR strings of every region that passes the region filter.
pub fn filter_oracle_regions(
    regions: &Vec<OracleRegion>,
    region: Option<&String>,
    tag: Option<&String>,
) -> (r: Vec<String>)
    ensures
        r.deep_view() == oracle_collected(regions@, opt_str_view(region), opt_str_view(tag)),
{
    let ghost qr = opt_str_view(region);
    let ghost qt = opt_str_view(tag);
    let low_region = match region {
        Some(s) => Some(to_lowercase(s.as_str())),
        None => None,
    };
    let low_tag = match tag {
        Some(s) => Some(to_lowercase(s.as_str())),
        None => None,
    };
    let mut out: Vec<String> = Vec::new();
    let mut i: usize = 0;
    let len = regions.len();
    proof {
        assert(out.deep_view() =~= oracle_collected(regions@.take(0), qr, qt));
    }
    while i < len
        invariant
            len == regions@.len(),
            i <= len,
            match (qr, &low_region) {
                (Some(q), Some(l)) => l@ == lower_of(q),
                (None, None) => true,
                _ => false,
            },
            match (qt, &low_tag) {
                (Some(q), Some(l)) => l@ == lower_of(q),
                (None, None) => true,
                _ => false,
            },
            out.deep_view() == oracle_collected(regions@.take(i as int), qr, qt),
        decreases len - i,
    {
        let rg = &regions[i];
        let m = match &low_region {
            Some(q) => {
                let f = to_lowercase(rg.region.as_str());
                str_eq(f.as_str(), q.as_str())
            },
            None => true,
        };
        proof {
            assert(m == matches_lower(regions@[i as int].region@, qr));
        }
        if m {
            append_matching_cidrs(&mut out, &rg.cidrs, &low_tag, Ghost(qt));
        }
        proof {
            assert(regions@.take(i as int + 1).drop_last() =~= regions@.take(i as int));
            assert(regions@.take(i as int + 1).last() == regions@[i as int]);
        }
        i = i + 1;
    }
    proof {
        assert(regions@.take(len as int) =~= regions@);
    }
    out
}

/// The data an Oracle query sees in a given store state.
pub open spec fn oracle_query_data(
    m: Map<Provider, IntegrationResult>,
    region: Option<Seq<char>>,
    tag: Option<Seq<char>>,
) -> Seq<Seq<char>> {
    if m.contains_key(Provider::Oracle) {
        match m[Provider::Oracle] {
            IntegrationResult::Oracle(c) => match c.data {
                Some(d) => oracle_collected(d.regions@, region, tag),
                None => Seq::empty(),
            },
            _ => Seq::empty(),
        }
    } else {
        Seq::empty()
    }
}

/// Answer one Oracle query against the store: the matching CIDR blocks with
/// success when any exist, a not-found answer otherwise — also when Oracle
/// has never published.
pub fn query_oracle_data(store: &CacheStore, region: Option<&String>, tag: Option<&String>) -> (r:
    (u16, OracleApiResponse))
    ensures
        ({
            let d = oracle_query_data(store@, opt_str_view(region), opt_str_view(tag));
            if d.len() > 0 {
                &&& r.0 == 200u16
                &&& r.1.status@ == "success"@
                &&& r.1.data matches Some(v) && v.deep_view() == d
                &&& r.1.message is None
            } else {
                &&& r.0 == 404u16
                &&& r.1.status@ == "error"@
                &&& r.1.data is None
                &&& r.1.message matches Some(msg) && msg@ == "Oracle data not found"@
            }
        }),
{
    match store.get_oracle() {
        Some(c) => match &c.data {
            Some(d) => {
                let filtered = filter_oracle_regions(&d.regions, region, tag);
                if filtered.len() > 0 {
                    return (
                        200,
                        OracleApiResponse {
                            status: String::from_str("success"),
                            data: Some(filtered),
                            message: None,
                        },
                    );
                }
            },
            None => {},
        },
        None => {},
    }
    (
        404,
        OracleApiResponse {
            status: String::from_str("error"),
            data: None,
            message: Some(String::from_str("Oracle data not found")),
        },
    )
}

} // verus!
