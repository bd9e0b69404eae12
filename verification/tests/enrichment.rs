use onion_client::app::CircuitInfo;
use onion_client::circuit::{
    enrich_records, hop_lookup_tasks, plan_lookups, record_for, sentinel_record, split_tokens,
    strip_candidate, EnrichTask, GeoLocation,
};
use onion_client::transport::{OnionConnection, UrlParts};

fn geo(ip: &str, city: &str, country: &str) -> GeoLocation {
    GeoLocation { ip: ip.to_string(), city: city.to_string(), country: country.to_string() }
}

fn assert_sentinel(record: &CircuitInfo) {
    assert_eq!(record.ip_address, "x.x.x.x");
    assert_eq!(record.city, "UNKNOWN");
    assert_eq!(record.country, "UNKNOWN");
}

fn lookup_address(task: &EnrichTask) -> &str {
    match task {
        EnrichTask::Lookup(addr) => addr.as_str(),
        EnrichTask::Sentinel => panic!("expected a lookup task"),
    }
}

#[test]
fn scenario_a_one_success_one_failure() {
    let hops = vec!["1.2.3.4:9001".to_string(), "5.6.7.8:443".to_string()];
    let tasks = plan_lookups(&hops);
    assert_eq!(tasks.len(), 2);
    assert_eq!(lookup_address(&tasks[0]), "1.2.3.4");
    assert_eq!(lookup_address(&tasks[1]), "5.6.7.8");

    let outcomes = vec![Some(geo("1.2.3.4", "X", "Y")), None];
    let records = enrich_records(&tasks, &outcomes);
    assert_eq!(records.len(), 2);
    assert_eq!(records[0].ip_address, "1.2.3.4");
    assert_eq!(records[0].city, "X");
    assert_eq!(records[0].country, "Y");
    assert_sentinel(&records[1]);
}

#[test]
fn scenario_b_aggregate_marker_hop() {
    let tasks = hop_lookup_tasks("A>B");
    assert_eq!(tasks.len(), 1);
    assert!(matches!(tasks[0], EnrichTask::Sentinel));

    let conn = OnionConnection::from_parts(UrlParts {
        host: "example.onion".to_string(),
        secure: false,
        port: None,
    });
    let hops = vec!["A>B".to_string()];
    let records = conn.get_circuit_information(&hops, &vec![None]);
    assert_eq!(records.len(), 1);
    assert_sentinel(&records[0]);
}

#[test]
fn bracket_and_port_are_stripped() {
    assert_eq!(strip_candidate("[1.2.3.4:9001"), "1.2.3.4");
    assert_eq!(strip_candidate("1.2.3.4:443"), "1.2.3.4");
    assert_eq!(strip_candidate("5.6.7.8"), "5.6.7.8");
}

#[test]
fn tokens_without_dot_are_ignored() {
    let tasks = hop_lookup_tasks("$fingerprint nickname 1.2.3.4:9001");
    assert_eq!(tasks.len(), 1);
    assert_eq!(lookup_address(&tasks[0]), "1.2.3.4");
}

#[test]
fn split_tokens_on_whitespace() {
    let toks = split_tokens("alpha  beta\tgamma ");
    assert_eq!(toks, vec!["alpha".to_string(), "beta".to_string(), "gamma".to_string()]);
    assert_eq!(split_tokens(""), Vec::<String>::new());
}

#[test]
fn record_count_matches_tokens_plus_aggregates() {
    let hops = vec![
        "1.2.3.4:1 5.6.7.8:2".to_string(),
        "A>B".to_string(),
        "nodots here".to_string(),
    ];
    let tasks = plan_lookups(&hops);
    assert_eq!(tasks.len(), 3);
    let outcomes = vec![None, None, None];
    let records = enrich_records(&tasks, &outcomes);
    assert_eq!(records.len(), 3);
}

#[test]
fn one_failing_lookup_leaves_other_records_alone() {
    let hops = vec!["1.1.1.1 2.2.2.2 3.3.3.3".to_string()];
    let tasks = plan_lookups(&hops);
    assert_eq!(tasks.len(), 3);

    let all_good = vec![
        Some(geo("1.1.1.1", "A", "B")),
        Some(geo("2.2.2.2", "C", "D")),
        Some(geo("3.3.3.3", "E", "F")),
    ];
    let middle_fails = vec![
        Some(geo("1.1.1.1", "A", "B")),
        None,
        Some(geo("3.3.3.3", "E", "F")),
    ];
    let good = enrich_records(&tasks, &all_good);
    let with_failure = enrich_records(&tasks, &middle_fails);
    assert_eq!(good.len(), 3);
    assert_eq!(with_failure.len(), 3);
    assert_eq!(with_failure[0].city, good[0].city);
    assert_eq!(with_failure[2].city, good[2].city);
    assert_sentinel(&with_failure[1]);
}

#[test]
fn record_for_folds_failure_into_sentinel() {
    let task = EnrichTask::Lookup("9.9.9.9".to_string());
    let hit = record_for(&task, Some(&geo("9.9.9.9", "Q", "R")));
    assert_eq!(hit.ip_address, "9.9.9.9");
    assert_eq!(hit.city, "Q");
    let miss = record_for(&task, None);
    assert_sentinel(&miss);
    let sentinel = sentinel_record();
    assert_sentinel(&sentinel);
}
