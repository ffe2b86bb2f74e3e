//! The cache store: the latest successfully parsed snapshot per provider,
//! replaced wholesale on publish and never overwritten by a failed cycle.

use vstd::prelude::*;

use crate::fetchers::aws::AwsIpRanges;
use crate::fetchers::azure::AzureIpRanges;
use crate::fetchers::cloudflare::CloudflareIpRanges;
use crate::fetchers::digitalocean::DigitalOceanIpRanges;
use crate::fetchers::fastly::FastlyIpRanges;
use crate::fetchers::gcp::GcpIpRanges;
use crate::fetchers::linode::LinodeIpRanges;
use crate::fetchers::oracle::OracleIpRanges;
use crate::fetchers::IntegrationResult;
use crate::text::str_eq;

verus! {

/// One provider's snapshot: the parsed dataset of the last cycle that reached
/// the parser, plus an optional content fingerprint of the raw payload.
/// `data == None` stands for a failed fetch or parse; the store below never
/// lets such a value displace an earlier successful snapshot.
pub struct IntegrationCache<T> {
    pub data: Option<T>,
    pub fingerprint: Option<String>,
}

impl<T> IntegrationCache<T> {
    /// A snapshot without a fingerprint.
    pub fn new(data: Option<T>) -> (r: Self)
        ensures
            r.data == data,
            r.fingerprint is None,
    {
        IntegrationCache { data, fingerprint: None }
    }

    /// A snapshot carrying the content fingerprint of the raw payload.
    pub fn with_fingerprint(data: Option<T>, fingerprint: String) -> (r: Self)
        ensures
            r.data == data,
            r.fingerprint == Some(fingerprint),
    {
        IntegrationCache { data, fingerprint: Some(fingerprint) }
    }
}

/// The stable identifier of an upstream provider. The orchestrator publishes
/// and the query layer looks up under the same identifier.
#[derive(PartialEq, Eq, Structural, Clone, Copy, Debug)]
pub enum Provider {
    Aws,
    Azure,
    Cloudflare,
    DigitalOcean,
    Fastly,
    Gcp,
    Linode,
    Oracle,
}

impl Provider {
    /// The provider-name string under which this provider is keyed.
    pub open spec fn spec_name(self) -> Seq<char> {
        match self {
            Provider::Aws => "aws"@,
            Provider::Azure => "azure"@,
            Provider::Cloudflare => "cloudflare"@,
            Provider::DigitalOcean => "digitalocean"@,
            Provider::Fastly => "fastly"@,
            Provider::Gcp => "gcp"@,
            Provider::Linode => "linode"@,
            Provider::Oracle => "oracle"@,
        }
    }

    /// The provider-name string, as the orchestrator and the query layer use it.
    pub fn name(self) -> (r: &'static str)
        ensures
            r@ == self.spec_name(),
    {
        match self {
            Provider::Aws => "aws",
            Provider::Azure => "azure",
            Provider::Cloudflare => "cloudflare",
            Provider::DigitalOcean => "digitalocean",
            Provider::Fastly => "fastly",
            Provider::Gcp => "gcp",
            Provider::Linode => "linode",
            Provider::Oracle => "oracle",
        }
    }

    /// Which provider a name string denotes; the match is case-sensitive.
    pub open spec fn spec_from_name(s: Seq<char>) -> Option<Provider> {
        if s == "aws"@ {
            Some(Provider::Aws)
        } else if s == "azure"@ {
            Some(Provider::Azure)
        } else if s == "cloudflare"@ {
            Some(Provider::Cloudflare)
        } else if s == "digitalocean"@ {
            Some(Provider::DigitalOcean)
        } else if s == "fastly"@ {
            Some(Provider::Fastly)
        } else if s == "gcp"@ {
            Some(Provider::Gcp)
        } else if s == "linode"@ {
            Some(Provider::Linode)
        } else if s == "oracle"@ {
            Some(Provider::Oracle)
        } else {
            None
        }
    }

    /// Case-sensitive lookup of a provider by its name string.
    pub fn from_name(s: &str) -> (r: Option<Provider>)
        ensures
            r == Self::spec_from_name(s@),
    {
        if str_eq(s, "aws") {
            Some(Provider::Aws)
        } else if str_eq(s, "azure") {
            Some(Provider::Azure)
        } else if str_eq(s, "cloudflare") {
            Some(Provider::Cloudflare)
        } else if str_eq(s, "digitalocean") {
            Some(Provider::DigitalOcean)
        } else if str_eq(s, "fastly") {
            Some(Provider::Fastly)
        } else if str_eq(s, "gcp") {
            Some(Provider::Gcp)
        } else if str_eq(s, "linode") {
            Some(Provider::Linode)
        } else if str_eq(s, "oracle") {
            Some(Provider::Oracle)
        } else {
            None
        }
    }
}

/// The store: one slot per provider behind a uniform, provider-keyed facade.
/// Its view is the map from providers to their current snapshot; a provider
/// that has never published successfully is absent from the map.
pub struct CacheStore {
    aws: Option<IntegrationCache<AwsIpRanges>>,
    azure: Option<IntegrationCache<AzureIpRanges>>,
    cloudflare: Option<IntegrationCache<CloudflareIpRanges>>,
    digitalocean: Option<IntegrationCache<DigitalOceanIpRanges>>,
    fastly: Option<IntegrationCache<FastlyIpRanges>>,
    gcp: Option<IntegrationCache<GcpIpRanges>>,
    linode: Option<IntegrationCache<LinodeIpRanges>>,
    oracle: Option<IntegrationCache<OracleIpRanges>>,
}

impl View for CacheStore {
    type V = Map<Provider, IntegrationResult>;

    closed spec fn view(&self) -> Map<Provider, IntegrationResult> {
        let m = Map::empty();
        let m = match self.aws {
            Some(c) => m.insert(Provider::Aws, IntegrationResult::Aws(c)),
            None => m,
        };
        let m = match self.azure {
            Some(c) => m.insert(Provider::Azure, IntegrationResult::Azure(c)),
            None => m,
        };
        let m = match self.cloudflare {
            Some(c) => m.insert(Provider::Cloudflare, IntegrationResult::Cloudflare(c)),
            None => m,
        };
        let m = match self.digitalocean {
            Some(c) => m.insert(Provider::DigitalOcean, IntegrationResult::DigitalOcean(c)),
            None => m,
        };
        let m = match self.fastly {
            Some(c) => m.insert(Provider::Fastly, IntegrationResult::Fastly(c)),
            None => m,
        };
        let m = match self.gcp {
            Some(c) => m.insert(Provider::Gcp, IntegrationResult::Gcp(c)),
            None => m,
        };
        let m = match self.linode {
            Some(c) => m.insert(Provider::Linode, IntegrationResult::Linode(c)),
            None => m,
        };
        let m = match self.oracle {
            Some(c) => m.insert(Provider::Oracle, IntegrationResult::Oracle(c)),
            None => m,
        };
        m
    }
}

/// Whether the store already holds, for the incoming result's provider, a
/// snapshot whose fingerprint equals the incoming one. Only then may a
/// publish be skipped as redundant.
pub open spec fn fingerprint_unchanged(m: Map<Provider, IntegrationResult>, r: IntegrationResult) -> bool {
    &&& m.contains_key(r.spec_provider())
    &&& match (m[r.spec_provider()].spec_fingerprint(), r.spec_fingerprint()) {
        (Some(a), Some(b)) => a == b,
        _ => false,
    }
}

/// The effect of offering one cycle result to the store: a successful result
/// with a changed (or absent) fingerprint replaces its provider's entry
/// wholesale; everything else leaves the store as it was.
pub open spec fn spec_publish(m: Map<Provider, IntegrationResult>, r: IntegrationResult) -> Map<
    Provider,
    IntegrationResult,
> {
    if r.spec_has_data() && !fingerprint_unchanged(m, r) {
        m.insert(r.spec_provider(), r)
    } else {
        m
    }
}

impl CacheStore {
    /// An empty store: no provider has published yet.
    pub fn new() -> (r: CacheStore)
        ensures
            r@ == Map::<Provider, IntegrationResult>::empty(),
    {
        let r = CacheStore {
            aws: None,
            azure: None,
            cloudflare: None,
            digitalocean: None,
            fastly: None,
            gcp: None,
            linode: None,
            oracle: None,
        };
        proof {
            assert(r@ =~= Map::<Provider, IntegrationResult>::empty());
        }
        r
    }

    /// Whether a provider has ever published successfully. Absence is
    /// distinguishable from a published-but-empty dataset, which is present.
    pub fn contains(&self, p: Provider) -> (r: bool)
        ensures
            r == self@.contains_key(p),
    {
        match p {
            Provider::Aws => self.aws.is_some(),
            Provider::Azure => self.azure.is_some(),
            Provider::Cloudflare => self.cloudflare.is_some(),
            Provider::DigitalOcean => self.digitalocean.is_some(),
            Provider::Fastly => self.fastly.is_some(),
            Provider::Gcp => self.gcp.is_some(),
            Provider::Linode => self.linode.is_some(),
            Provider::Oracle => self.oracle.is_some(),
        }
    }

    /// The fingerprint stored for a provider, when one is present.
    pub fn current_fingerprint(&self, p: Provider) -> (r: Option<&String>)
        ensures
            match r {
                Some(f) => self@.contains_key(p) && self@[p].spec_fingerprint() == Some(f@),
                None => !self@.contains_key(p) || self@[p].spec_fingerprint() is None,
            },
    {
        match p {
            Provider::Aws => match &self.aws {
                Some(c) => c.fingerprint.as_ref(),
                None => None,
            },
            Provider::Azure => match &self.azure {
                Some(c) => c.fingerprint.as_ref(),
                None => None,
            },
            Provider::Cloudflare => match &self.cloudflare {
                Some(c) => c.fingerprint.as_ref(),
                None => None,
            },
            Provider::DigitalOcean => match &self.digitalocean {
                Some(c) => c.fingerprint.as_ref(),
                None => None,
            },
            Provider::Fastly => match &self.fastly {
                Some(c) => c.fingerprint.as_ref(),
                None => None,
            },
            Provider::Gcp => match &self.gcp {
                Some(c) => c.fingerprint.as_ref(),
                None => None,
            },
            Provider::Linode => match &self.linode {
                Some(c) => c.fingerprint.as_ref(),
                None => None,
            },
            Provider::Oracle => match &self.oracle {
                Some(c) => c.fingerprint.as_ref(),
                None => None,
            },
        }
    }

    /// Atomically replace the entry for the result's provider. The view moves
    /// from the old map to the old map with one key rebound to the complete
    /// new snapshot — a reader of either map sees whole snapshots only. A
    /// result without data (a failed fetch or parse) leaves the store
    /// untouched, so a prior successful snapshot is never displaced.
    /// The exclusive borrow makes a second publish against the same store —
    /// and so against the same key — impossible while this one runs.
    pub fn publish(&mut self, result: IntegrationResult)
        ensures
            result.spec_has_data() ==> final(self)@ == old(self)@.insert(
                result.spec_provider(),
                result,
            ),
            !result.spec_has_data() ==> final(self)@ == old(self)@,
    {
        if !result.has_data() {
            return ;
        }
        match result {
            IntegrationResult::Aws(c) => {
                self.aws = Some(c);
            },
            IntegrationResult::Azure(c) => {
                self.azure = Some(c);
            },
            IntegrationResult::Cloudflare(c) => {
                self.cloudflare = Some(c);
            },
            IntegrationResult::DigitalOcean(c) => {
                self.digitalocean = Some(c);
            },
            IntegrationResult::Fastly(c) => {
                self.fastly = Some(c);
            },
            IntegrationResult::Gcp(c) => {
                self.gcp = Some(c);
            },
            IntegrationResult::Linode(c) => {
                self.linode = Some(c);
            },
            IntegrationResult::Oracle(c) => {
                self.oracle = Some(c);
            },
        }
        proof {
            assert(self@ =~= old(self)@.insert(result.spec_provider(), result));
        }
    }

    /// Publish unless the store already holds an equal fingerprint for this
    /// provider; the comparison and the replace happen on the same store
    /// value, so no two cycles can both decide to skip against stale state.
    /// Returns whether the entry was replaced.
    pub fn publish_if_changed(&mut self, result: IntegrationResult) -> (published: bool)
        ensures
            final(self)@ == spec_publish(old(self)@, result),
            published == (result.spec_has_data() && !fingerprint_unchanged(old(self)@, result)),
    {
        if !result.has_data() {
            return false;
        }
        let p = result.provider();
        let unchanged = match (self.current_fingerprint(p), result.fingerprint()) {
            (Some(a), Some(b)) => str_eq(a.as_str(), b.as_str()),
            _ => false,
        };
        if unchanged {
            return false;
        }
        self.publish(result);
        true
    }

    /// The AWS snapshot, when one has been published.
    pub fn get_aws(&self) -> (r: Option<&IntegrationCache<AwsIpRanges>>)
        ensures
            match r {
                Some(c) => self@.contains_key(Provider::Aws) && self@[Provider::Aws]
                    == IntegrationResult::Aws(*c),
                None => !self@.contains_key(Provider::Aws),
            },
    {
        self.aws.as_ref()
    }

    /// The Azure snapshot, when one has been published.
    pub fn get_azure(&self) -> (r: Option<&IntegrationCache<AzureIpRanges>>)
        ensures
            match r {
                Some(c) => self@.contains_key(Provider::Azure) && self@[Provider::Azure]
                    == IntegrationResult::Azure(*c),
                None => !self@.contains_key(Provider::Azure),
            },
    {
        self.azure.as_ref()
    }

    /// The Cloudflare snapshot, when one has been published.
    pub fn get_cloudflare(&self) -> (r: Option<&IntegrationCache<CloudflareIpRanges>>)
        ensures
            match r {
                Some(c) => self@.contains_key(Provider::Cloudflare) && self@[Provider::Cloudflare]
                    == IntegrationResult::Cloudflare(*c),
                None => !self@.contains_key(Provider::Cloudflare),
            },
    {
        self.cloudflare.as_ref()
    }

    /// The DigitalOcean snapshot, when one has been published.
    pub fn get_digitalocean(&self) -> (r: Option<&IntegrationCache<DigitalOceanIpRanges>>)
        ensures
            match r {
                Some(c) => self@.contains_key(Provider::DigitalOcean) && self@[Provider::DigitalOcean]
                    == IntegrationResult::DigitalOcean(*c),
                None => !self@.contains_key(Provider::DigitalOcean),
            },
    {
        self.digitalocean.as_ref()
    }

    /// The Fastly snapshot, when one has been published.
    pub fn get_fastly(&self) -> (r: Option<&IntegrationCache<FastlyIpRanges>>)
        ensures
            match r {
                Some(c) => self@.contains_key(Provider::Fastly) && self@[Provider::Fastly]
                    == IntegrationResult::Fastly(*c),
                None => !self@.contains_key(Provider::Fastly),
            },
    {
        self.fastly.as_ref()
    }

    /// The GCP snapshot, when one has been published.
    pub fn get_gcp(&self) -> (r: Option<&IntegrationCache<GcpIpRanges>>)
        ensures
            match r {
                Some(c) => self@.contains_key(Provider::Gcp) && self@[Provider::Gcp]
                    == IntegrationResult::Gcp(*c),
                None => !self@.contains_key(Provider::Gcp),
            },
    {
        self.gcp.as_ref()
    }

    /// The Linode snapshot, when one has been published.
    pub fn get_linode(&self) -> (r: Option<&IntegrationCache<LinodeIpRanges>>)
        ensures
            match r {
                Some(c) => self@.contains_key(Provider::Linode) && self@[Provider::Linode]
                    == IntegrationResult::Linode(*c),
                None => !self@.contains_key(Provider::Linode),
            },
    {
        self.linode.as_ref()
    }

    /// The Oracle snapshot, when one has been published.
    pub fn get_oracle(&self) -> (r: Option<&IntegrationCache<OracleIpRanges>>)
        ensures
            match r {
                Some(c) => self@.contains_key(Provider::Oracle) && self@[Provider::Oracle]
                    == IntegrationResult::Oracle(*c),
                None => !self@.contains_key(Provider::Oracle),
            },
    {
        self.oracle.as_ref()
    }
}

} // verus!
