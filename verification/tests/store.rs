//! Behaviour of the cache store and the refresh cycle: absence before any
//! publish, wholesale replacement on success, retention on failure, and the
//! fingerprint-based skip.

use ipranges::cache::{CacheStore, IntegrationCache, Provider};
use ipranges::fetchers::aws::{AwsIpRanges, AwsPrefix};
use ipranges::fetchers::azure::{AzureIpRanges, AzureProperties, AzureValue};
use ipranges::fetchers::{run_cycle, CycleOutcome, IntegrationResult};
use ipranges::handlers::aws::query_aws_data;
use ipranges::handlers::azure::query_azure_data;

fn aws_prefix(prefix: &str, region: &str) -> AwsPrefix {
    AwsPrefix {
        ip_prefix: prefix.to_string(),
        region: region.to_string(),
        service: "AMAZON".to_string(),
        network_border_group: region.to_string(),
    }
}

fn aws_result(prefixes: Vec<AwsPrefix>) -> IntegrationResult {
    IntegrationResult::Aws(IntegrationCache::new(Some(AwsIpRanges { prefixes })))
}

fn aws_failure() -> IntegrationResult {
    IntegrationResult::Aws(IntegrationCache::new(None))
}

fn azure_result(prefixes: Vec<&str>) -> IntegrationResult {
    let value = AzureValue {
        properties: AzureProperties {
            region: "westeurope".to_string(),
            system_service: "AzureSQL".to_string(),
            address_prefixes: prefixes.iter().map(|p| p.to_string()).collect(),
        },
    };
    IntegrationResult::Azure(IntegrationCache::new(Some(AzureIpRanges { values: vec![value] })))
}

fn azure_failure() -> IntegrationResult {
    IntegrationResult::Azure(IntegrationCache::new(None))
}

#[test]
fn empty_store_answers_not_found() {
    let store = CacheStore::new();
    assert!(!store.contains(Provider::Aws));
    assert!(store.get_aws().is_none());
    let (status, body) = query_aws_data(&store, None, None, None);
    assert_eq!(status, 404);
    assert_eq!(body.status, "error");
    assert!(body.data.is_none());
    assert_eq!(body.message.as_deref(), Some("AWS data not found"));
}

#[test]
fn published_empty_dataset_is_present_but_yields_not_found() {
    let mut store = CacheStore::new();
    store.publish(aws_result(Vec::new()));
    // present in the store: distinguishable from a provider never published
    assert!(store.contains(Provider::Aws));
    assert!(store.get_aws().is_some());
    // but an empty dataset still answers not-found
    let (status, _) = query_aws_data(&store, None, None, None);
    assert_eq!(status, 404);
}

#[test]
fn publish_replaces_wholesale() {
    let mut store = CacheStore::new();
    store.publish(aws_result(vec![aws_prefix("10.0.0.0/8", "us-east-1")]));
    store.publish(aws_result(vec![
        aws_prefix("172.16.0.0/12", "eu-west-1"),
        aws_prefix("192.168.0.0/16", "eu-west-1"),
    ]));
    let (status, body) = query_aws_data(&store, None, None, None);
    assert_eq!(status, 200);
    let data = body.data.unwrap();
    assert_eq!(data, vec!["172.16.0.0/12".to_string(), "192.168.0.0/16".to_string()]);
}

#[test]
fn failed_result_never_overwrites() {
    let mut store = CacheStore::new();
    store.publish(aws_result(vec![aws_prefix("10.0.0.0/8", "us-east-1")]));
    store.publish(aws_failure());
    let (status, body) = query_aws_data(&store, None, None, None);
    assert_eq!(status, 200);
    assert_eq!(body.data.unwrap(), vec!["10.0.0.0/8".to_string()]);
}

#[test]
fn two_cycle_scenario() {
    let mut store = CacheStore::new();

    // cycle 1: AWS returns 3 prefixes, Azure fails with a network error
    let report = run_cycle(
        &mut store,
        vec![
            aws_result(vec![
                aws_prefix("10.0.0.0/8", "us-east-1"),
                aws_prefix("172.16.0.0/12", "us-east-1"),
                aws_prefix("192.168.0.0/16", "us-east-1"),
            ]),
            azure_failure(),
        ],
    );
    assert_eq!(report.outcomes.len(), 2);
    assert_eq!(report.outcomes[0], (Provider::Aws, CycleOutcome::Published));
    assert_eq!(report.outcomes[1], (Provider::Azure, CycleOutcome::Failed));

    let (aws_status, aws_body) = query_aws_data(&store, None, None, None);
    assert_eq!(aws_status, 200);
    assert_eq!(aws_body.data.unwrap().len(), 3);
    let (azure_status, _) = query_azure_data(&store, None, None, Some(true), Some(true));
    assert_eq!(azure_status, 404);

    // cycle 2: AWS fails, Azure returns 2 prefixes
    let report = run_cycle(
        &mut store,
        vec![aws_failure(), azure_result(vec!["20.0.0.0/16", "2603:1000::/40"])],
    );
    assert_eq!(report.outcomes[0], (Provider::Aws, CycleOutcome::Failed));
    assert_eq!(report.outcomes[1], (Provider::Azure, CycleOutcome::Published));

    // AWS still serves the stale cycle-1 snapshot
    let (aws_status, aws_body) = query_aws_data(&store, None, None, None);
    assert_eq!(aws_status, 200);
    assert_eq!(aws_body.data.unwrap().len(), 3);

    // Azure serves the fresh cycle-2 snapshot
    let (azure_status, azure_body) = query_azure_data(&store, None, None, Some(true), Some(true));
    assert_eq!(azure_status, 200);
    assert_eq!(
        azure_body.data.unwrap(),
        vec!["20.0.0.0/16".to_string(), "2603:1000::/40".to_string()]
    );
}

#[test]
fn unchanged_fingerprint_skips_publish() {
    let mut store = CacheStore::new();
    let first = IntegrationResult::Aws(IntegrationCache::with_fingerprint(
        Some(AwsIpRanges { prefixes: vec![aws_prefix("10.0.0.0/8", "us-east-1")] }),
        "fp-1".to_string(),
    ));
    assert!(store.publish_if_changed(first));

    // same fingerprint: kept as a no-op success, the old snapshot stays
    let same = IntegrationResult::Aws(IntegrationCache::with_fingerprint(
        Some(AwsIpRanges { prefixes: Vec::new() }),
        "fp-1".to_string(),
    ));
    assert!(!store.publish_if_changed(same));
    let (_, body) = query_aws_data(&store, None, None, None);
    assert_eq!(body.data.unwrap(), vec!["10.0.0.0/8".to_string()]);

    // changed fingerprint: replaced
    let changed = IntegrationResult::Aws(IntegrationCache::with_fingerprint(
        Some(AwsIpRanges { prefixes: vec![aws_prefix("172.16.0.0/12", "eu-west-1")] }),
        "fp-2".to_string(),
    ));
    assert!(store.publish_if_changed(changed));
    let (_, body) = query_aws_data(&store, None, None, None);
    assert_eq!(body.data.unwrap(), vec!["172.16.0.0/12".to_string()]);
}

#[test]
fn cycle_reports_skip_outcome() {
    let mut store = CacheStore::new();
    let snap = |fp: &str| {
        IntegrationResult::Aws(IntegrationCache::with_fingerprint(
            Some(AwsIpRanges { prefixes: vec![aws_prefix("10.0.0.0/8", "us-east-1")] }),
            fp.to_string(),
        ))
    };
    let report = run_cycle(&mut store, vec![snap("abc")]);
    assert_eq!(report.outcomes[0], (Provider::Aws, CycleOutcome::Published));
    let report = run_cycle(&mut store, vec![snap("abc")]);
    assert_eq!(report.outcomes[0], (Provider::Aws, CycleOutcome::SkippedUnchanged));
    let report = run_cycle(&mut store, vec![snap("def")]);
    assert_eq!(report.outcomes[0], (Provider::Aws, CycleOutcome::Published));
}

#[test]
fn provider_names_round_trip() {
    let all = [
        Provider::Aws,
        Provider::Azure,
        Provider::Cloudflare,
        Provider::DigitalOcean,
        Provider::Fastly,
        Provider::Gcp,
        Provider::Linode,
        Provider::Oracle,
    ];
    for p in all {
        assert_eq!(Provider::from_name(p.name()), Some(p));
    }
    assert_eq!(Provider::from_name("aws"), Some(Provider::Aws));
    // the match is case-sensitive and exact
    assert_eq!(Provider::from_name("AWS"), None);
    assert_eq!(Provider::from_name("aws "), None);
    assert_eq!(Provider::from_name("unknown"), None);
}
