//! Behaviour of the adapters' payload parsers: line lists, geo-feed CSV
//! and the Azure service-tag link selection.

use ipranges::fetchers::azure::find_service_tags_url;
use ipranges::fetchers::cloudflare::parse_ip_list;
use ipranges::fetchers::digitalocean::parse_geo_csv as parse_digitalocean_csv;
use ipranges::fetchers::linode::parse_geo_csv as parse_linode_csv;

#[test]
fn cloudflare_list_is_split_and_trimmed() {
    let text = "173.245.48.0/20\n 103.21.244.0/22 \r\n2400:cb00::/32\n";
    let cidrs = parse_ip_list(text);
    assert_eq!(
        cidrs,
        vec![
            "173.245.48.0/20".to_string(),
            "103.21.244.0/22".to_string(),
            "2400:cb00::/32".to_string(),
        ]
    );
    assert!(parse_ip_list("").is_empty());
}

#[test]
fn digitalocean_csv_keeps_complete_rows() {
    let text = "104.131.0.0/18,US,New York City\nmalformed line\n139.59.0.0/16, IN ,Bangalore\n";
    let ranges = parse_digitalocean_csv(text);
    assert_eq!(ranges.len(), 2);
    assert_eq!(ranges[0].ip_prefix, "104.131.0.0/18");
    assert_eq!(ranges[0].alpha2code, "US");
    assert_eq!(ranges[0].region, "New York City");
    assert_eq!(ranges[1].alpha2code, "IN");
    assert_eq!(ranges[1].region, "Bangalore");
}

#[test]
fn digitalocean_csv_ignores_extra_fields() {
    let ranges = parse_digitalocean_csv("1.2.3.0/24,US,Texas,extra,fields\n");
    assert_eq!(ranges.len(), 1);
    assert_eq!(ranges[0].region, "Texas");
}

#[test]
fn linode_csv_skips_three_header_lines() {
    let text = "# header one\n# header two\n# header three\n\
                172.104.128.0/19,JP,Tokyo\n2400:8901::/32,JP,Tokyo\n";
    let ranges = parse_linode_csv(text);
    assert_eq!(ranges.len(), 2);
    assert_eq!(ranges[0].ip_prefix, "172.104.128.0/19");
    assert_eq!(ranges[1].ip_prefix, "2400:8901::/32");
    // shorter than the header: nothing to parse
    assert!(parse_linode_csv("only\ntwo lines, here, though\n").is_empty());
}

#[test]
fn azure_link_selection_takes_the_first_service_tags_href() {
    let hrefs = vec![
        "https://example.com/other.json".to_string(),
        "https://example.com/ServiceTags_Public_1.json".to_string(),
        "https://example.com/ServiceTags_Public_2.json".to_string(),
    ];
    assert_eq!(
        find_service_tags_url(&hrefs),
        Some("https://example.com/ServiceTags_Public_1.json".to_string())
    );
    let none = vec!["https://example.com/other.json".to_string()];
    assert_eq!(find_service_tags_url(&none), None);
    assert_eq!(find_service_tags_url(&Vec::new()), None);
}
