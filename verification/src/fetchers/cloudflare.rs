//! Data model for the Cloudflare IP-range publication.

use vstd::prelude::*;

use crate::text::{lines_of, lines_str, trim_of, trim_str};

verus! {

/// The parsed Cloudflare dataset: the v4 and v6 CIDR lists.
pub struct CloudflareIpRanges {
    pub ipv4_cidrs: Vec<String>,
    pub ipv6_cidrs: Vec<String>,
}

/// Every line trimmed of surrounding whitespace, in order.
pub open spec fn trim_all(ps: Seq<Seq<char>>) -> Seq<Seq<char>>
    decreases ps.len(),
{
    if ps.len() == 0 {
        Seq::empty()
    } else {
        trim_all(ps.drop_last()).push(trim_of(ps.last()))
    }
}

/// Parse one Cloudflare list payload: one CIDR per line, each line trimmed.
pub fn parse_ip_list(text: &str) -> (r: Vec<String>)
    ensures
        r.deep_view() == trim_all(lines_of(text@)),
{
    let lines = lines_str(text);
    let mut out: Vec<String> = Vec::new();
    let mut i: usize = 0;
    let n = lines.len();
    proof {
        assert(out.deep_view() =~= trim_all(lines_of(text@).take(0)));
    }
    while i < n
        invariant
            n == lines@.len(),
            i <= n,
            lines.deep_view() == lines_of(text@),
            out.deep_view() == trim_all(lines_of(text@).take(i as int)),
        decreases n - i,
    {
        let ghost pre = out.deep_view();
        let t = trim_str(lines[i].as_str());
        out.push(t);
        proof {
            let ls = lines_of(text@);
            assert(ls.take(i as int + 1).drop_last() =~= ls.take(i as int));
            assert(ls.take(i as int + 1).last() == ls[i as int]);
            assert(out.deep_view() =~= pre.push(trim_of(ls[i as int])));
        }
        i = i + 1;
    }
    proof {
        assert(lines_of(text@).take(n as int) =~= lines_of(text@));
    }
    out
}

} // verus!
