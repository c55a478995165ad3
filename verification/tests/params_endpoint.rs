use request_core::ParamSet;
use request_core::build;
use request_core::create_endpoint;

#[test]
fn create_endpoint_joins_with_slash() {
    let url = create_endpoint("https://api.example.com", "users");
    assert_eq!(url, "https://api.example.com/users");
}

#[test]
fn create_endpoint_does_not_normalize() {
    // A trailing slash on the base and a leading slash on the path both
    // pass through: no slash deduplication happens.
    assert_eq!(create_endpoint("https://h/", "p"), "https://h//p");
    assert_eq!(create_endpoint("https://h", "/p"), "https://h//p");
    assert_eq!(create_endpoint("https://h/", "/p"), "https://h///p");
}

#[test]
fn create_endpoint_empty_parts() {
    assert_eq!(create_endpoint("", ""), "/");
    assert_eq!(create_endpoint("base", ""), "base/");
    assert_eq!(create_endpoint("", "p"), "/p");
}

#[test]
fn build_contains_exactly_inserted_entries() {
    let params = build(|mut p: ParamSet| {
        p.insert("q".to_string(), Some("rust".to_string()));
        p.insert("page".to_string(), Some("2".to_string()));
        p.insert("flag".to_string(), None);
        p
    });
    assert_eq!(params.len(), 3);
    assert_eq!(params.get(&"q".to_string()), Some(&Some("rust".to_string())));
    assert_eq!(params.get(&"page".to_string()), Some(&Some("2".to_string())));
    assert_eq!(params.get(&"flag".to_string()), Some(&None));
    assert_eq!(params.get(&"absent".to_string()), None);
}

#[test]
fn build_twice_yields_equal_mappings() {
    let configure: fn(ParamSet) -> ParamSet = |mut p: ParamSet| {
        p.insert("k".to_string(), Some("v".to_string()));
        p.insert("n".to_string(), None);
        p
    };
    let a = build(configure);
    let b = build(configure);
    assert_eq!(a, b);
    assert_eq!(a.len(), b.len());
    assert_eq!(a.get(&"k".to_string()), b.get(&"k".to_string()));
    assert_eq!(a.get(&"n".to_string()), b.get(&"n".to_string()));
}

#[test]
fn build_empty_callback_yields_empty_mapping() {
    let params = build(|p: ParamSet| p);
    assert_eq!(params.len(), 0);
    assert!(params.query_pairs().is_empty());
}

#[test]
fn insert_overrides_earlier_value_for_same_key() {
    let mut params = ParamSet::new();
    params.insert("k".to_string(), Some("old".to_string()));
    params.insert("k".to_string(), Some("new".to_string()));
    assert_eq!(params.len(), 1);
    assert_eq!(params.get(&"k".to_string()), Some(&Some("new".to_string())));
    params.insert("k".to_string(), None);
    assert_eq!(params.len(), 1);
    assert_eq!(params.get(&"k".to_string()), Some(&None));
}

#[test]
fn query_pairs_omit_absent_values() {
    let mut params = ParamSet::new();
    params.insert("a".to_string(), Some("1".to_string()));
    params.insert("b".to_string(), None);
    params.insert("c".to_string(), Some("3".to_string()));
    let mut pairs = params.query_pairs();
    pairs.sort();
    assert_eq!(
        pairs,
        vec![("a".to_string(), "1".to_string()), ("c".to_string(), "3".to_string())]
    );
}
