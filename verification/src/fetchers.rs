//! The adapter contract, the per-provider cycle results, and the refresh
//! cycle core: every successful result is offered to the store, no failed
//! result touches it, and one provider's failure never affects another.

pub mod aws;
pub mod azure;
pub mod cloudflare;
pub mod digitalocean;
pub mod fastly;
pub mod gcp;
pub mod linode;
pub mod oracle;

use vstd::prelude::*;

use crate::cache::{fingerprint_unchanged, spec_publish, CacheStore, IntegrationCache, Provider};
use aws::AwsIpRanges;
use azure::AzureIpRanges;
use cloudflare::CloudflareIpRanges;
use digitalocean::DigitalOceanIpRanges;
use fastly::FastlyIpRanges;
use gcp::GcpIpRanges;
use linode::LinodeIpRanges;
use oracle::OracleIpRanges;

verus! {

/// The capability every provider source implements: turning a raw payload
/// into the provider's typed data model, or nothing when the payload is
/// malformed. Fetching itself is network work and stays with the adapters.
pub trait Integration {
    type DataModel;

    fn parse(&self, data: &str) -> Option<Self::DataModel>;
}

/// One provider's cycle result: its snapshot, tagged by provider.
pub enum IntegrationResult {
    Aws(IntegrationCache<AwsIpRanges>),
    Azure(IntegrationCache<AzureIpRanges>),
    Cloudflare(IntegrationCache<CloudflareIpRanges>),
    DigitalOcean(IntegrationCache<DigitalOceanIpRanges>),
    Fastly(IntegrationCache<FastlyIpRanges>),
    Gcp(IntegrationCache<GcpIpRanges>),
    Linode(IntegrationCache<LinodeIpRanges>),
    Oracle(IntegrationCache<OracleIpRanges>),
}

impl IntegrationResult {
    /// The provider this result belongs to.
    pub open spec fn spec_provider(&self) -> Provider {
        match self {
            IntegrationResult::Aws(_) => Provider::Aws,
            IntegrationResult::Azure(_) => Provider::Azure,
            IntegrationResult::Cloudflare(_) => Provider::Cloudflare,
            IntegrationResult::DigitalOcean(_) => Provider::DigitalOcean,
            IntegrationResult::Fastly(_) => Provider::Fastly,
            IntegrationResult::Gcp(_) => Provider::Gcp,
            IntegrationResult::Linode(_) => Provider::Linode,
            IntegrationResult::Oracle(_) => Provider::Oracle,
        }
    }

    /// The provider this result belongs to.
    pub fn provider(&self) -> (p: Provider)
        ensures
            p == self.spec_provider(),
    {
        match self {
            IntegrationResult::Aws(_) => Provider::Aws,
            IntegrationResult::Azure(_) => Provider::Azure,
            IntegrationResult::Cloudflare(_) => Provider::Cloudflare,
            IntegrationResult::DigitalOcean(_) => Provider::DigitalOcean,
            IntegrationResult::Fastly(_) => Provider::Fastly,
            IntegrationResult::Gcp(_) => Provider::Gcp,
            IntegrationResult::Linode(_) => Provider::Linode,
            IntegrationResult::Oracle(_) => Provider::Oracle,
        }
    }

    /// Whether the cycle produced a dataset; a result without one records a
    /// failed fetch or parse.
    pub open spec fn spec_has_data(&self) -> bool {
        match self {
            IntegrationResult::Aws(c) => c.data is Some,
            IntegrationResult::Azure(c) => c.data is Some,
            IntegrationResult::Cloudflare(c) => c.data is Some,
            IntegrationResult::DigitalOcean(c) => c.data is Some,
            IntegrationResult::Fastly(c) => c.data is Some,
            IntegrationResult::Gcp(c) => c.data is Some,
            IntegrationResult::Linode(c) => c.data is Some,
            IntegrationResult::Oracle(c) => c.data is Some,
        }
    }

    /// Whether the cycle produced a dataset.
    pub fn has_data(&self) -> (b: bool)
        ensures
            b == self.spec_has_data(),
    {
        match self {
            IntegrationResult::Aws(c) => c.data.is_some(),
            IntegrationResult::Azure(c) => c.data.is_some(),
            IntegrationResult::Cloudflare(c) => c.data.is_some(),
            IntegrationResult::DigitalOcean(c) => c.data.is_some(),
            IntegrationResult::Fastly(c) => c.data.is_some(),
            IntegrationResult::Gcp(c) => c.data.is_some(),
            IntegrationResult::Linode(c) => c.data.is_some(),
            IntegrationResult::Oracle(c) => c.data.is_some(),
        }
    }

    /// The content fingerprint the snapshot carries, if any.
    pub open spec fn spec_fingerprint(&self) -> Option<Seq<char>> {
        match self {
            IntegrationResult::Aws(c) => spec_fingerprint_view(c.fingerprint),
            IntegrationResult::Azure(c) => spec_fingerprint_view(c.fingerprint),
            IntegrationResult::Cloudflare(c) => spec_fingerprint_view(c.fingerprint),
            IntegrationResult::DigitalOcean(c) => spec_fingerprint_view(c.fingerprint),
            IntegrationResult::Fastly(c) => spec_fingerprint_view(c.fingerprint),
            IntegrationResult::Gcp(c) => spec_fingerprint_view(c.fingerprint),
            IntegrationResult::Linode(c) => spec_fingerprint_view(c.fingerprint),
            IntegrationResult::Oracle(c) => spec_fingerprint_view(c.fingerprint),
        }
    }

    /// The content fingerprint the snapshot carries, if any.
    pub fn fingerprint(&self) -> (r: Option<&String>)
        ensures
            match r {
                Some(f) => self.spec_fingerprint() == Some(f@),
                None => self.spec_fingerprint() is None,
            },
    {
        match self {
            IntegrationResult::Aws(c) => c.fingerprint.as_ref(),
            IntegrationResult::Azure(c) => c.fingerprint.as_ref(),
            IntegrationResult::Cloudflare(c) => c.fingerprint.as_ref(),
            IntegrationResult::DigitalOcean(c) => c.fingerprint.as_ref(),
            IntegrationResult::Fastly(c) => c.fingerprint.as_ref(),
            IntegrationResult::Gcp(c) => c.fingerprint.as_ref(),
            IntegrationResult::Linode(c) => c.fingerprint.as_ref(),
            IntegrationResult::Oracle(c) => c.fingerprint.as_ref(),
        }
    }
}

/// The view of an optional fingerprint string.
pub open spec fn spec_fingerprint_view(f: Option<String>) -> Option<Seq<char>> {
    match f {
        Some(s) => Some(s@),
        None => None,
    }
}

/// What one provider's part of a cycle came to.
#[derive(PartialEq, Eq, Structural, Clone, Copy, Debug)]
pub enum CycleOutcome {
    /// A fresh snapshot was published.
    Published,
    /// The fetch succeeded but the fingerprint was unchanged, so the existing
    /// snapshot was kept and no redundant publish happened.
    SkippedUnchanged,
    /// The fetch or parse failed; the store was left untouched.
    Failed,
}

/// The record of one refresh cycle: its correlation identity and, per
/// offered result, what became of it.
pub struct CycleReport {
    pub execution_id: u128,
    pub outcomes: Vec<(Provider, CycleOutcome)>,
}

/// Relies on uuid::Uuid::new_v4 for a fresh random correlation identity;
/// nothing is assumed about the value drawn.
#[verifier::external_body]
fn new_execution_id() -> u128 {
    uuid::Uuid::new_v4().as_u128()
}

/// At most one result per provider: the shape a cycle's fan-in hands over,
/// since each provider runs at most one fetch per cycle.
pub open spec fn unique_providers(rs: Seq<IntegrationResult>) -> bool {
    forall|i: int, j: int|
        0 <= i < j < rs.len() ==> rs[i].spec_provider() != rs[j].spec_provider()
}

/// The store after a cycle: each result applied in order, each under the
/// publish-unless-unchanged rule.
pub open spec fn spec_run_cycle(
    m: Map<Provider, IntegrationResult>,
    rs: Seq<IntegrationResult>,
) -> Map<Provider, IntegrationResult>
    decreases rs.len(),
{
    if rs.len() == 0 {
        m
    } else {
        spec_publish(spec_run_cycle(m, rs.drop_last()), rs.last())
    }
}

/// The outcome recorded for one result offered to a store in state `m`.
pub open spec fn spec_outcome(m: Map<Provider, IntegrationResult>, r: IntegrationResult) -> CycleOutcome {
    if !r.spec_has_data() {
        CycleOutcome::Failed
    } else if fingerprint_unchanged(m, r) {
        CycleOutcome::SkippedUnchanged
    } else {
        CycleOutcome::Published
    }
}

/// Apply one cycle's fan-in to the store. Results are offered one by one:
/// successes replace their provider's entry, failures leave it untouched,
/// and an unchanged fingerprint is recorded as a no-op success.
pub fn run_cycle(store: &mut CacheStore, results: Vec<IntegrationResult>) -> (report: CycleReport)
    ensures
        final(store)@ == spec_run_cycle(old(store)@, results@),
        report.outcomes@.len() == results@.len(),
        forall|i: int|
            0 <= i < results@.len() ==> #[trigger] report.outcomes@[i] == (
                results@[i].spec_provider(),
                spec_outcome(spec_run_cycle(old(store)@, results@.take(i)), results@[i]),
            ),
{
    let execution_id = new_execution_id();
    let ghost all = results@;
    let mut rest = results;
    let n: usize = rest.len();
    proof {
        assert(all.len() == n);
    }
    let mut outcomes: Vec<(Provider, CycleOutcome)> = Vec::new();
    let mut i: usize = 0;
    while rest.len() > 0
        invariant
            all.len() <= usize::MAX,
            i + rest@.len() == all.len(),
            rest@ == all.skip(i as int),
            store@ == spec_run_cycle(old(store)@, all.take(i as int)),
            outcomes@.len() == i,
            forall|k: int|
                0 <= k < i ==> #[trigger] outcomes@[k] == (
                    all[k].spec_provider(),
                    spec_outcome(spec_run_cycle(old(store)@, all.take(k)), all[k]),
                ),
        decreases rest@.len(),
    {
        let r = rest.remove(0);
        proof {
            assert(r == all[i as int]);
            assert(rest@ =~= all.skip(i as int + 1));
        }
        let p = r.provider();
        let has = r.has_data();
        let published = store.publish_if_changed(r);
        let outcome = if has {
            if published {
                CycleOutcome::Published
            } else {
                CycleOutcome::SkippedUnchanged
            }
        } else {
            CycleOutcome::Failed
        };
        outcomes.push((p, outcome));
        proof {
            assert(all.take(i as int + 1).drop_last() =~= all.take(i as int));
            assert(all.take(i as int + 1).last() == all[i as int]);
        }
        i = i + 1;
    }
    proof {
        assert(all.take(i as int) =~= all);
    }
    CycleReport { execution_id, outcomes }
}

/// The unique result a cycle carries for a provider, if any.
pub open spec fn result_for(rs: Seq<IntegrationResult>, p: Provider) -> Option<IntegrationResult>
    decreases rs.len(),
{
    if rs.len() == 0 {
        None
    } else if rs.last().spec_provider() == p {
        Some(rs.last())
    } else {
        result_for(rs.drop_last(), p)
    }
}

/// A cycle that carries no result for a provider leaves no trace for it.
proof fn lemma_result_for_none(rs: Seq<IntegrationResult>, p: Provider)
    requires
        forall|i: int| 0 <= i < rs.len() ==> (#[trigger] rs[i]).spec_provider() != p,
    ensures
        result_for(rs, p) is None,
    decreases rs.len(),
{
    if rs.len() > 0 {
        lemma_result_for_none(rs.drop_last(), p);
    }
}

/// How one cycle treats one provider's entry, seen on its own: a successful,
/// changed result replaces it; a failed, skipped or absent result leaves it
/// exactly as it was. Each provider's fate depends only on its own result.
pub proof fn lemma_run_cycle_per_key(
    m: Map<Provider, IntegrationResult>,
    rs: Seq<IntegrationResult>,
    p: Provider,
)
    requires
        unique_providers(rs),
    ensures
        ({
            let m1 = spec_run_cycle(m, rs);
            match result_for(rs, p) {
                Some(r) => {
                    if r.spec_has_data() && !fingerprint_unchanged(m, r) {
                        m1.contains_key(p) && m1[p] == r
                    } else {
                        m1.contains_key(p) == m.contains_key(p) && (m.contains_key(p) ==> m1[p]
                            == m[p])
                    }
                },
                None => m1.contains_key(p) == m.contains_key(p) && (m.contains_key(p) ==> m1[p]
                    == m[p]),
            }
        }),
    decreases rs.len(),
{
    if rs.len() > 0 {
        let rest = rs.drop_last();
        let last = rs.last();
        lemma_run_cycle_per_key(m, rest, p);
        if last.spec_provider() == p {
            assert(forall|i: int|
                0 <= i < rest.len() ==> (#[trigger] rest[i]).spec_provider() != p);
            lemma_result_for_none(rest, p);
        }
    }
}

/// Failure isolation: when one provider's adapter fails in a cycle where
/// another provider succeeds with fresh content, the successful provider's
/// entry is replaced and the failing provider's entry — present or absent —
/// is exactly what it was before the cycle.
pub proof fn lemma_failure_isolation(
    m: Map<Provider, IntegrationResult>,
    rs: Seq<IntegrationResult>,
    failed: IntegrationResult,
    fresh: IntegrationResult,
)
    requires
        unique_providers(rs),
        result_for(rs, failed.spec_provider()) == Some(failed),
        !failed.spec_has_data(),
        result_for(rs, fresh.spec_provider()) == Some(fresh),
        fresh.spec_has_data(),
        !fingerprint_unchanged(m, fresh),
    ensures
        spec_run_cycle(m, rs).contains_key(fresh.spec_provider()),
        spec_run_cycle(m, rs)[fresh.spec_provider()] == fresh,
        spec_run_cycle(m, rs).contains_key(failed.spec_provider()) == m.contains_key(
            failed.spec_provider(),
        ),
        m.contains_key(failed.spec_provider()) ==> spec_run_cycle(m, rs)[failed.spec_provider()]
            == m[failed.spec_provider()],
{
    lemma_run_cycle_per_key(m, rs, failed.spec_provider());
    lemma_run_cycle_per_key(m, rs, fresh.spec_provider());
}

/// Staleness over unavailability: a provider that holds a successful
/// snapshot and then fails a cycle still serves that snapshot, unchanged.
pub proof fn lemma_staleness_over_unavailability(
    m: Map<Provider, IntegrationResult>,
    rs: Seq<IntegrationResult>,
    failed: IntegrationResult,
)
    requires
        unique_providers(rs),
        result_for(rs, failed.spec_provider()) == Some(failed),
        !failed.spec_has_data(),
        m.contains_key(failed.spec_provider()),
    ensures
        spec_run_cycle(m, rs).contains_key(failed.spec_provider()),
        spec_run_cycle(m, rs)[failed.spec_provider()] == m[failed.spec_provider()],
{
    lemma_run_cycle_per_key(m, rs, failed.spec_provider());
}

/// No data, no entry: starting from a store in which every entry carries a
/// dataset, any number of cycles preserves that. Presence of a key always
/// means a successful publish — distinguishable from absence even when the
/// published dataset is empty.
pub proof fn lemma_store_holds_data_only(
    m: Map<Provider, IntegrationResult>,
    rs: Seq<IntegrationResult>,
)
    requires
        forall|q: Provider| m.contains_key(q) ==> (#[trigger] m[q]).spec_has_data(),
    ensures
        forall|q: Provider|
            #[trigger] spec_run_cycle(m, rs).contains_key(q) ==> spec_run_cycle(
                m,
                rs,
            )[q].spec_has_data(),
    decreases rs.len(),
{
    if rs.len() > 0 {
        lemma_store_holds_data_only(m, rs.drop_last());
        let mid = spec_run_cycle(m, rs.drop_last());
        let last = rs.last();
        let m1 = spec_run_cycle(m, rs);
        assert forall|q: Provider| #[trigger] m1.contains_key(q) implies
            m1[q].spec_has_data() by {
            if !(last.spec_has_data() && !fingerprint_unchanged(mid, last) && q
                == last.spec_provider()) {
                assert(mid.contains_key(q));
            }
        }
    }
}

/// Atomic visibility: a publish rebinds one key to the complete new snapshot
/// and leaves every other key bound to its complete old snapshot; no
/// observable state mixes the two.
pub proof fn lemma_atomic_visibility(
    m: Map<Provider, IntegrationResult>,
    r: IntegrationResult,
    q: Provider,
)
    ensures
        ({
            let m1 = spec_publish(m, r);
            if q == r.spec_provider() && r.spec_has_data() && !fingerprint_unchanged(m, r) {
                m1.contains_key(q) && m1[q] == r
            } else {
                m1.contains_key(q) == m.contains_key(q) && (m.contains_key(q) ==> m1[q] == m[q])
            }
        }),
{
}

/// The comma-split rows of the given lines that carry at least three
/// fields; a shorter row is dropped, as the geo-feed parsers drop it.
pub open spec fn csv_rows_kept(lines: Seq<Seq<char>>) -> Seq<Seq<Seq<char>>>
    decreases lines.len(),
{
    if lines.len() == 0 {
        Seq::empty()
    } else {
        let rest = csv_rows_kept(lines.drop_last());
        let fields = crate::text::split_on(lines.last(), ',');
        if fields.len() >= 3 {
            rest.push(fields)
        } else {
            rest
        }
    }
}

} // verus!
