use swbus::service_path::ServicePath;

fn sp(text: &str) -> ServicePath {
    ServicePath::from_string(text).unwrap()
}

#[test]
fn parse_full_path() {
    let p = sp("region-a.cluster-a.10.0.0.2-dpu0/testsvc/0/ping/0");
    assert_eq!(p.region_id, "region-a");
    assert_eq!(p.cluster_id, "cluster-a");
    assert_eq!(p.node_id, "10.0.0.2-dpu0");
    assert_eq!(p.resource_type, "testsvc");
    assert_eq!(p.resource_id, "0");
    assert_eq!(p.service_type, "ping");
    assert_eq!(p.service_id, "0");
}

#[test]
fn parse_node_path() {
    let p = sp("regiona.clustera.10.0.0.1-dpu0");
    assert_eq!(p.region_id, "regiona");
    assert_eq!(p.cluster_id, "clustera");
    assert_eq!(p.node_id, "10.0.0.1-dpu0");
    assert_eq!(p.resource_type, "");
    assert_eq!(p.service_type, "");
}

#[test]
fn parse_resource_path() {
    let p = sp("r.c.n/swss-common-bridge/APPL_DB|SOME_TABLE");
    assert_eq!(p.resource_type, "swss-common-bridge");
    assert_eq!(p.resource_id, "APPL_DB|SOME_TABLE");
    assert_eq!(p.service_type, "");
    assert_eq!(p.service_id, "");
}

#[test]
fn format_round_trips_through_parse() {
    for text in [
        "region-a.cluster-a.10.0.0.2-dpu0",
        "r.c.n/rt/rid",
        "region-a.cluster-a.10.0.0.1-dpu0/testsvc/0/ping/0",
    ] {
        let p = sp(text);
        assert_eq!(p.to_path_string(), text);
        let again = sp(&p.to_path_string());
        assert!(again.eq_path(&p));
    }
}

#[test]
fn parse_rejects_malformed_paths() {
    for text in [
        "",
        "region",
        "a.b",
        "a..b.c",
        ".b.c",
        "a.b.",
        "a.b.c/x",
        "a.b.c/x/y/z",
        "a.b.c//y",
        "a.b.c/x/y/z/",
        "a.b.c/x/y/z/w/v",
        "a.b/c.d",
    ] {
        assert!(
            ServicePath::from_string(text).is_err(),
            "expected rejection of {:?}",
            text
        );
    }
}

#[test]
fn prefix_match_by_nonempty_components() {
    let key = sp("region-a.cluster-a.10.0.0.2-dpu0");
    let dest = sp("region-a.cluster-a.10.0.0.2-dpu0/local-mgmt/0");
    let other = sp("region-a.cluster-a.10.0.0.1-dpu0/local-mgmt/0");
    assert!(key.prefix_match(&dest));
    assert!(!key.prefix_match(&other));
    // A full service path only matches itself.
    assert!(dest.prefix_match(&dest));
    assert!(!dest.prefix_match(&key));
}

#[test]
fn specificity_counts_nonempty_components() {
    assert_eq!(sp("a.b.c").specificity(), 3);
    assert_eq!(sp("a.b.c/x/y").specificity(), 5);
    assert_eq!(sp("a.b.c/x/y/s/t").specificity(), 7);
}
