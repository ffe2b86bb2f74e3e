//! Data model for the Linode IP-range publication.

use vstd::prelude::*;

use crate::fetchers::csv_rows_kept;
use crate::text::{lines_of, lines_str, split_str, trim_of, trim_str};

verus! {

/// The parsed Linode dataset.
pub struct LinodeIpRanges {
    pub ranges: Vec<LinodeRange>,
}

/// One Linode range record.
pub struct LinodeRange {
    pub ip_prefix: String,
    pub alpha2code: String,
    pub region: String,
}

/// The data lines of the Linode geo feed: everything after the three
/// header lines.
pub open spec fn linode_body_lines(s: Seq<char>) -> Seq<Seq<char>> {
    let ls = lines_of(s);
    if ls.len() >= 3 {
        ls.skip(3)
    } else {
        Seq::empty()
    }
}

/// Parse the Linode geo feed: three header lines are skipped; each further
/// line is comma-separated, a line with fewer than three fields is dropped,
/// and the first three fields, trimmed, become prefix, country code and
/// region.
pub fn parse_geo_csv(text: &str) -> (r: Vec<LinodeRange>)
    ensures
        ({
            let rows = csv_rows_kept(linode_body_lines(text@));
            &&& r@.len() == rows.len()
            &&& forall|k: int|
                0 <= k < rows.len() ==> {
                    &&& (#[trigger] r@[k]).ip_prefix@ == trim_of(rows[k][0])
                    &&& r@[k].alpha2code@ == trim_of(rows[k][1])
                    &&& r@[k].region@ == trim_of(rows[k][2])
                }
        }),
{
    let lines = lines_str(text);
    let mut out: Vec<LinodeRange> = Vec::new();
    let n = lines.len();
    if n < 3 {
        proof {
            assert(csv_rows_kept(linode_body_lines(text@)) =~= Seq::<Seq<Seq<char>>>::empty());
        }
        return out;
    }
    let ghost body = linode_body_lines(text@);
    proof {
        assert(body =~= lines_of(text@).skip(3));
    }
    let mut i: usize = 3;
    proof {
        assert(body.take(0) =~= Seq::<Seq<char>>::empty());
    }
    while i < n
        invariant
            n == lines@.len(),
            3 <= i <= n,
            lines.deep_view() == lines_of(text@),
            body == lines_of(text@).skip(3),
            n >= 3,
            out@.len() == csv_rows_kept(body.take(i as int - 3)).len(),
            forall|k: int|
                0 <= k < out@.len() ==> {
                    let rows = csv_rows_kept(body.take(i as int - 3));
                    &&& (#[trigger] out@[k]).ip_prefix@ == trim_of(rows[k][0])
                    &&& out@[k].alpha2code@ == trim_of(rows[k][1])
                    &&& out@[k].region@ == trim_of(rows[k][2])
                },
        decreases n - i,
    {
        let fields = split_str(lines[i].as_str(), ',');
        proof {
            assert(body[i as int - 3] == lines_of(text@)[i as int]);
        }
        if fields.len() >= 3 {
            let rg = LinodeRange {
                ip_prefix: trim_str(fields[0].as_str()),
                alpha2code: trim_str(fields[1].as_str()),
                region: trim_str(fields[2].as_str()),
            };
            out.push(rg);
        }
        proof {
            assert(body.take(i as int - 3 + 1).drop_last() =~= body.take(i as int - 3));
            assert(body.take(i as int - 3 + 1).last() == body[i as int - 3]);
        }
        i = i + 1;
    }
    proof {
        assert(body.take(n as int - 3) =~= body);
    }
    out
}

} // verus!
