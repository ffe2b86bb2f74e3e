//! Behaviour of the per-provider query projections: case-insensitive
//! matching, version selection, substring filters and tag filters.

use ipranges::cache::{CacheStore, IntegrationCache};
use ipranges::fetchers::aws::{AwsIpRanges, AwsPrefix};
use ipranges::fetchers::cloudflare::CloudflareIpRanges;
use ipranges::fetchers::digitalocean::{DigitalOceanIpRanges, DigitalOceanRange};
use ipranges::fetchers::fastly::FastlyIpRanges;
use ipranges::fetchers::gcp::{GcpIpRanges, GcpPrefix};
use ipranges::fetchers::linode::{LinodeIpRanges, LinodeRange};
use ipranges::fetchers::oracle::{default_tags, OracleCidr, OracleIpRanges, OracleRegion};
use ipranges::fetchers::IntegrationResult;
use ipranges::handlers::aws::query_aws_data;
use ipranges::handlers::cloudflare::query_cloudflare_data;
use ipranges::handlers::digitalocean::query_digitalocean_data;
use ipranges::handlers::fastly::query_fastly_data;
use ipranges::handlers::gcp::query_gcp_data;
use ipranges::handlers::health::health_check;
use ipranges::handlers::is_ipv4;
use ipranges::handlers::linode::query_linode_data;
use ipranges::handlers::oracle::query_oracle_data;
use ipranges::text::{str_contains, str_eq};

fn aws_store() -> CacheStore {
    let prefixes = vec![
        AwsPrefix {
            ip_prefix: "3.5.140.0/22".to_string(),
            region: "US-East-1".to_string(),
            service: "AMAZON".to_string(),
            network_border_group: "us-east-1".to_string(),
        },
        AwsPrefix {
            ip_prefix: "15.230.39.0/24".to_string(),
            region: "eu-west-1".to_string(),
            service: "EC2".to_string(),
            network_border_group: "eu-west-1".to_string(),
        },
    ];
    let mut store = CacheStore::new();
    store.publish(IntegrationResult::Aws(IntegrationCache::new(Some(AwsIpRanges { prefixes }))));
    store
}

#[test]
fn aws_filter_is_case_insensitive() {
    let store = aws_store();
    let (status, body) = query_aws_data(&store, Some(&"us-east-1".to_string()), None, None);
    assert_eq!(status, 200);
    assert_eq!(body.status, "success");
    assert_eq!(body.data.unwrap(), vec!["3.5.140.0/22".to_string()]);

    let (status, body) = query_aws_data(&store, None, Some(&"ec2".to_string()), None);
    assert_eq!(status, 200);
    assert_eq!(body.data.unwrap(), vec!["15.230.39.0/24".to_string()]);
}

#[test]
fn aws_filter_misses_answer_not_found() {
    let store = aws_store();
    let (status, body) = query_aws_data(&store, Some(&"ap-south-2".to_string()), None, None);
    assert_eq!(status, 404);
    assert_eq!(body.status, "error");
    assert!(body.data.is_none());
}

#[test]
fn aws_filters_combine() {
    let store = aws_store();
    // region matches the first record, service the second: no record passes both
    let (status, _) = query_aws_data(
        &store,
        Some(&"us-east-1".to_string()),
        Some(&"ec2".to_string()),
        None,
    );
    assert_eq!(status, 404);
}

fn cloudflare_store() -> CacheStore {
    let data = CloudflareIpRanges {
        ipv4_cidrs: vec!["173.245.48.0/20".to_string(), "103.21.244.0/22".to_string()],
        ipv6_cidrs: vec!["2400:cb00::/32".to_string()],
    };
    let mut store = CacheStore::new();
    store.publish(IntegrationResult::Cloudflare(IntegrationCache::new(Some(data))));
    store
}

#[test]
fn cloudflare_requires_a_version_flag() {
    let store = cloudflare_store();
    let (status, body) = query_cloudflare_data(&store, None, None);
    assert_eq!(status, 400);
    assert_eq!(body.message.as_deref(), Some("Either ipv4 or ipv6 must be specified"));
    let (status, _) = query_cloudflare_data(&store, Some(false), Some(false));
    assert_eq!(status, 400);
}

#[test]
fn cloudflare_selects_by_version() {
    let store = cloudflare_store();
    let (status, body) = query_cloudflare_data(&store, Some(true), None);
    assert_eq!(status, 200);
    assert_eq!(
        body.data.unwrap(),
        vec!["173.245.48.0/20".to_string(), "103.21.244.0/22".to_string()]
    );
    let (_, body) = query_cloudflare_data(&store, None, Some(true));
    assert_eq!(body.data.unwrap(), vec!["2400:cb00::/32".to_string()]);
    let (_, body) = query_cloudflare_data(&store, Some(true), Some(true));
    assert_eq!(body.data.unwrap().len(), 3);
}

#[test]
fn fastly_selects_by_version() {
    let data = FastlyIpRanges {
        ipv4_addresses: vec!["23.235.32.0/20".to_string()],
        ipv6_addresses: vec!["2a04:4e40::/32".to_string()],
    };
    let mut store = CacheStore::new();
    store.publish(IntegrationResult::Fastly(IntegrationCache::new(Some(data))));
    let (status, body) = query_fastly_data(&store, Some(true), None);
    assert_eq!(status, 200);
    assert_eq!(body.data.unwrap(), vec!["23.235.32.0/20".to_string()]);
    let (status, body) = query_fastly_data(&store, None, None);
    assert_eq!(status, 400);
    assert!(body.data.is_none());
}

fn digitalocean_store() -> CacheStore {
    let ranges = vec![
        DigitalOceanRange {
            ip_prefix: "104.131.0.0/18".to_string(),
            alpha2code: "us".to_string(),
            region: "New York City".to_string(),
        },
        DigitalOceanRange {
            ip_prefix: "2604:a880::/32".to_string(),
            alpha2code: "US".to_string(),
            region: "New York City".to_string(),
        },
        DigitalOceanRange {
            ip_prefix: "139.59.0.0/16".to_string(),
            alpha2code: "IN".to_string(),
            region: "Bangalore".to_string(),
        },
    ];
    let mut store = CacheStore::new();
    store.publish(IntegrationResult::DigitalOcean(IntegrationCache::new(Some(
        DigitalOceanIpRanges { ranges },
    ))));
    store
}

#[test]
fn digitalocean_filters_by_country_and_region_substring() {
    let store = digitalocean_store();
    // country code comparison folds case on both sides
    let (status, body) = query_digitalocean_data(
        &store,
        Some(&"Us".to_string()),
        None,
        Some(true),
        Some(true),
    );
    assert_eq!(status, 200);
    assert_eq!(
        body.data.unwrap(),
        vec!["104.131.0.0/18".to_string(), "2604:a880::/32".to_string()]
    );
    // the region filter is a case-insensitive substring match
    let (status, body) = query_digitalocean_data(
        &store,
        None,
        Some(&"york".to_string()),
        Some(true),
        None,
    );
    assert_eq!(status, 200);
    assert_eq!(body.data.unwrap(), vec!["104.131.0.0/18".to_string()]);
}

#[test]
fn digitalocean_version_flags_partition() {
    let store = digitalocean_store();
    let (_, body) = query_digitalocean_data(&store, None, None, Some(true), None);
    assert_eq!(
        body.data.unwrap(),
        vec!["104.131.0.0/18".to_string(), "139.59.0.0/16".to_string()]
    );
    let (_, body) = query_digitalocean_data(&store, None, None, None, Some(true));
    assert_eq!(body.data.unwrap(), vec!["2604:a880::/32".to_string()]);
    let (status, _) = query_digitalocean_data(&store, None, None, None, None);
    assert_eq!(status, 400);
}

#[test]
fn linode_filters_like_digitalocean() {
    let ranges = vec![
        LinodeRange {
            ip_prefix: "172.104.128.0/19".to_string(),
            alpha2code: "JP".to_string(),
            region: "Tokyo".to_string(),
        },
        LinodeRange {
            ip_prefix: "2400:8901::/32".to_string(),
            alpha2code: "jp".to_string(),
            region: "Tokyo".to_string(),
        },
    ];
    let mut store = CacheStore::new();
    store.publish(IntegrationResult::Linode(IntegrationCache::new(Some(LinodeIpRanges {
        ranges,
    }))));
    let (status, body) = query_linode_data(
        &store,
        Some(&"jp".to_string()),
        Some(&"tok".to_string()),
        Some(true),
        Some(true),
    );
    assert_eq!(status, 200);
    assert_eq!(
        body.data.unwrap(),
        vec!["172.104.128.0/19".to_string(), "2400:8901::/32".to_string()]
    );
    let (status, _) = query_linode_data(&store, Some(&"de".to_string()), None, Some(true), None);
    assert_eq!(status, 404);
}

fn gcp_store() -> CacheStore {
    let prefixes = vec![
        GcpPrefix {
            ipv4_prefix: Some("8.8.4.0/24".to_string()),
            ipv6_prefix: None,
            service: "Google Cloud".to_string(),
            scope: "us-central1".to_string(),
        },
        GcpPrefix {
            ipv4_prefix: None,
            ipv6_prefix: Some("2600:1900::/35".to_string()),
            service: "Google Cloud".to_string(),
            scope: "us-central1".to_string(),
        },
    ];
    let mut store = CacheStore::new();
    store.publish(IntegrationResult::Gcp(IntegrationCache::new(Some(GcpIpRanges { prefixes }))));
    store
}

#[test]
fn gcp_returns_the_requested_version_prefix() {
    let store = gcp_store();
    let (status, body) = query_gcp_data(&store, None, None, Some(true), None);
    assert_eq!(status, 200);
    assert_eq!(body.data.unwrap(), vec!["8.8.4.0/24".to_string()]);
    let (_, body) = query_gcp_data(&store, None, None, None, Some(true));
    assert_eq!(body.data.unwrap(), vec!["2600:1900::/35".to_string()]);
    let (_, body) = query_gcp_data(&store, None, None, Some(true), Some(true));
    assert_eq!(
        body.data.unwrap(),
        vec!["8.8.4.0/24".to_string(), "2600:1900::/35".to_string()]
    );
}

#[test]
fn gcp_scope_filter_folds_case() {
    let store = gcp_store();
    let (status, body) = query_gcp_data(
        &store,
        Some(&"US-CENTRAL1".to_string()),
        None,
        Some(true),
        None,
    );
    assert_eq!(status, 200);
    assert_eq!(body.data.unwrap(), vec!["8.8.4.0/24".to_string()]);
    let (status, _) = query_gcp_data(&store, Some(&"europe-west1".to_string()), None, Some(true), None);
    assert_eq!(status, 404);
}

fn oracle_store() -> CacheStore {
    let regions = vec![
        OracleRegion {
            region: "us-ashburn-1".to_string(),
            cidrs: vec![
                OracleCidr {
                    cidr: "129.213.0.0/16".to_string(),
                    tags: vec!["OCI".to_string(), "OSN".to_string()],
                },
                OracleCidr { cidr: "140.91.0.0/17".to_string(), tags: default_tags() },
            ],
        },
        OracleRegion {
            region: "eu-frankfurt-1".to_string(),
            cidrs: vec![OracleCidr {
                cidr: "130.61.0.0/16".to_string(),
                tags: vec!["OCI".to_string()],
            }],
        },
    ];
    let mut store = CacheStore::new();
    store.publish(IntegrationResult::Oracle(IntegrationCache::new(Some(OracleIpRanges {
        regions,
    }))));
    store
}

#[test]
fn oracle_filters_by_region_and_tag() {
    let store = oracle_store();
    let (status, body) = query_oracle_data(&store, Some(&"US-Ashburn-1".to_string()), None);
    assert_eq!(status, 200);
    assert_eq!(
        body.data.unwrap(),
        vec!["129.213.0.0/16".to_string(), "140.91.0.0/17".to_string()]
    );
    // the tag comparison folds case; a block without tags never matches a tag query
    let (status, body) = query_oracle_data(&store, None, Some(&"oci".to_string()));
    assert_eq!(status, 200);
    assert_eq!(
        body.data.unwrap(),
        vec!["129.213.0.0/16".to_string(), "130.61.0.0/16".to_string()]
    );
    let (status, _) = query_oracle_data(&store, None, Some(&"absent".to_string()));
    assert_eq!(status, 404);
}

#[test]
fn is_ipv4_looks_for_a_dot() {
    assert!(is_ipv4("104.131.0.0/18"));
    assert!(!is_ipv4("2604:a880::/32"));
    assert!(!is_ipv4(""));
}

#[test]
fn string_helpers_behave_like_std() {
    assert!(str_eq("abc", "abc"));
    assert!(!str_eq("abc", "abd"));
    assert!(!str_eq("abc", "ab"));
    assert!(str_contains("service tags", "tags"));
    assert!(str_contains("anything", ""));
    assert!(!str_contains("abc", "abd"));
    assert!(!str_contains("ab", "abc"));
}

#[test]
fn health_answers_ok() {
    assert_eq!(health_check().status_text(), "ok");
}
