//! The query layer: per-provider projections over the cache store. Each
//! handler reports presence with data, absence for a provider that never
//! published, and a parameter error where the query itself is malformed.

pub mod aws;
pub mod azure;
pub mod cloudflare;
pub mod digitalocean;
pub mod fastly;
pub mod gcp;
pub mod health;
pub mod linode;
pub mod oracle;

use vstd::prelude::*;

verus! {

/// A prefix string denotes an IPv4 range exactly when it contains a dot.
pub open spec fn spec_is_ipv4(s: Seq<char>) -> bool {
    s.contains('.')
}

/// Whether a prefix string denotes an IPv4 range.
pub fn is_ipv4(prefix: &str) -> (r: bool)
    ensures
        r == spec_is_ipv4(prefix@),
{
    let len = prefix.unicode_len();
    let mut i: usize = 0;
    while i < len
        invariant
            len == prefix@.len(),
            i <= len,
            forall|j: int| 0 <= j < i ==> prefix@[j] != '.',
        decreases len - i,
    {
        if prefix.get_char(i) == '.' {
            return true;
        }
        i = i + 1;
    }
    false
}

/// An optional boolean query flag counts as set only when it is present and true.
pub open spec fn flag_set(o: Option<bool>) -> bool {
    match o {
        Some(b) => b,
        None => false,
    }
}

/// Whether an optional boolean query flag is present and true.
pub fn flag(o: Option<bool>) -> (r: bool)
    ensures
        r == flag_set(o),
{
    match o {
        Some(b) => b,
        None => false,
    }
}

/// Whether a prefix is kept under the requested IP versions: one version
/// requested keeps only that version; both keep everything.
pub open spec fn keep_by_version(s: Seq<char>, v4: bool, v6: bool) -> bool {
    if v4 && !v6 {
        spec_is_ipv4(s)
    } else if !v4 && v6 {
        !spec_is_ipv4(s)
    } else {
        true
    }
}

/// The prefixes that survive the IP-version filter, in order.
pub open spec fn retain_by_version(ps: Seq<Seq<char>>, v4: bool, v6: bool) -> Seq<Seq<char>>
    decreases ps.len(),
{
    if ps.len() == 0 {
        Seq::empty()
    } else {
        let rest = retain_by_version(ps.drop_last(), v4, v6);
        if keep_by_version(ps.last(), v4, v6) {
            rest.push(ps.last())
        } else {
            rest
        }
    }
}

/// Keep only the prefixes of the requested IP versions.
pub fn retain_ip_version(prefixes: Vec<String>, ipv4: bool, ipv6: bool) -> (r: Vec<String>)
    ensures
        r.deep_view() == retain_by_version(prefixes.deep_view(), ipv4, ipv6),
{
    let mut out: Vec<String> = Vec::new();
    let mut i: usize = 0;
    let len = prefixes.len();
    proof {
        assert(out.deep_view() =~= retain_by_version(
            prefixes.deep_view().take(0),
            ipv4,
            ipv6,
        ));
    }
    while i < len
        invariant
            len == prefixes@.len(),
            i <= len,
            out.deep_view() == retain_by_version(prefixes.deep_view().take(i as int), ipv4, ipv6),
        decreases len - i,
    {
        let ghost pre = out.deep_view();
        let keep = {
            let dotted = is_ipv4(prefixes[i].as_str());
            if ipv4 && !ipv6 {
                dotted
            } else if !ipv4 && ipv6 {
                !dotted
            } else {
                true
            }
        };
        if keep {
            out.push(prefixes[i].clone());
        }
        proof {
            assert(prefixes.deep_view().take(i as int + 1).drop_last() =~= prefixes.deep_view()
                .take(i as int));
            assert(prefixes.deep_view().take(i as int + 1).last() == prefixes.deep_view()[i as int]);
            if keep {
                assert(out.deep_view() =~= pre.push(prefixes.deep_view()[i as int]));
            }
        }
        i = i + 1;
    }
    proof {
        assert(prefixes.deep_view().take(len as int) =~= prefixes.deep_view());
    }
    out
}

/// Append a copy of every string in `src` to `out`, keeping order.
pub fn push_all(out: &mut Vec<String>, src: &Vec<String>)
    ensures
        final(out).deep_view() == old(out).deep_view() + src.deep_view(),
{
    let mut i: usize = 0;
    let len = src.len();
    proof {
        assert(out.deep_view() =~= old(out).deep_view() + src.deep_view().take(0));
    }
    while i < len
        invariant
            len == src@.len(),
            i <= len,
            out.deep_view() == old(out).deep_view() + src.deep_view().take(i as int),
        decreases len - i,
    {
        let ghost pre = out.deep_view();
        out.push(src[i].clone());
        proof {
            assert(src.deep_view().take(i as int + 1).drop_last() =~= src.deep_view().take(
                i as int,
            ));
            assert(src.deep_view().take(i as int + 1).last() == src.deep_view()[i as int]);
            assert(out.deep_view() =~= pre.push(src.deep_view()[i as int]));
            assert(out.deep_view() =~= old(out).deep_view() + src.deep_view().take(i as int + 1));
        }
        i = i + 1;
    }
    proof {
        assert(src.deep_view().take(len as int) =~= src.deep_view());
        assert(out.deep_view() =~= old(out).deep_view() + src.deep_view());
    }
}

} // verus!
