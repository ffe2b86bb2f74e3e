//! Data model for the DigitalOcean IP-range publication.

use vstd::prelude::*;

use crate::fetchers::csv_rows_kept;
use crate::text::{lines_of, lines_str, split_str, trim_of, trim_str};

verus! {

/// The parsed DigitalOcean dataset.
pub struct DigitalOceanIpRanges {
    pub ranges: Vec<DigitalOceanRange>,
}

/// One DigitalOcean range record.
pub struct DigitalOceanRange {
    pub ip_prefix: String,
    pub alpha2code: String,
    pub region: String,
}

/// Parse the DigitalOcean geo feed: one range per line, comma-separated;
/// a line with fewer than three fields is dropped, and the first three
/// fields, trimmed, become prefix, country code and region.
pub fn parse_geo_csv(text: &str) -> (r: Vec<DigitalOceanRange>)
    ensures
        ({
            let rows = csv_rows_kept(lines_of(text@));
            &&& r@.len() == rows.len()
            &&& forall|k: int|
                0 <= k < rows.len() ==> {
                    &&& (#[trigger] r@[k]).ip_prefix@ == trim_of(rows[k][0])
                    &&& r@[k].alpha2code@ == trim_of(rows[k][1])
                    &&& r@[k].region@ == trim_of(rows[k][2])
                }
        }),
{
    let lines = lines_str(text);
    let mut out: Vec<DigitalOceanRange> = Vec::new();
    let mut i: usize = 0;
    let n = lines.len();
    while i < n
        invariant
            n == lines@.len(),
            i <= n,
            lines.deep_view() == lines_of(text@),
            out@.len() == csv_rows_kept(lines_of(text@).take(i as int)).len(),
            forall|k: int|
                0 <= k < out@.len() ==> {
                    let rows = csv_rows_kept(lines_of(text@).take(i as int));
                    &&& (#[trigger] out@[k]).ip_prefix@ == trim_of(rows[k][0])
                    &&& out@[k].alpha2code@ == trim_of(rows[k][1])
                    &&& out@[k].region@ == trim_of(rows[k][2])
                },
        decreases n - i,
    {
        let fields = split_str(lines[i].as_str(), ',');
        if fields.len() >= 3 {
            let rg = DigitalOceanRange {
                ip_prefix: trim_str(fields[0].as_str()),
                alpha2code: trim_str(fields[1].as_str()),
                region: trim_str(fields[2].as_str()),
            };
            out.push(rg);
        }
        proof {
            let ls = lines_of(text@);
            assert(ls.take(i as int + 1).drop_last() =~= ls.take(i as int));
            assert(ls.take(i as int + 1).last() == ls[i as int]);
        }
        i = i + 1;
    }
    proof {
        assert(lines_of(text@).take(n as int) =~= lines_of(text@));
    }
    out
}

} // verus!
