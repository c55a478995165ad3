use request_core::Method;
use request_core::ParamSet;
use request_core::Payload;
use request_core::RequestDefaults;
use request_core::RequestDescriptor;
use request_core::add_header;
use request_core::add_header_if;
use request_core::identity_stage;

fn plain_defaults() -> RequestDefaults<
    fn(RequestDescriptor) -> RequestDescriptor,
    fn(RequestDescriptor) -> RequestDescriptor,
> {
    RequestDefaults {
        base_url: "https://api.example.com".to_string(),
        header_stage: identity_stage,
        parameter_stage: identity_stage,
    }
}

#[test]
fn default_get_requestor_assembles_descriptor() {
    let mut params = ParamSet::new();
    params.insert("q".to_string(), Some("rust".to_string()));
    let d = plain_defaults().default_get_requestor("search", params);
    assert_eq!(d.method, Method::Get);
    assert_eq!(d.url, "https://api.example.com/search");
    assert!(d.headers.is_empty());
    match d.payload {
        Payload::Query(p) => {
            assert_eq!(p.get(&"q".to_string()), Some(&Some("rust".to_string())));
            assert_eq!(p.len(), 1);
        }
        Payload::RawBody(_) => panic!("a GET descriptor must carry a query"),
    }
}

#[test]
fn default_post_requestor_assembles_descriptor() {
    let d = plain_defaults().default_post_requestor("items", r#"{"name":"x"}"#.to_string());
    assert_eq!(d.method, Method::Post);
    assert_eq!(d.url, "https://api.example.com/items");
    assert!(d.headers.is_empty());
    assert_eq!(d.payload, Payload::RawBody(r#"{"name":"x"}"#.to_string()));
}

#[test]
fn header_stage_injects_headers() {
    let defaults = RequestDefaults {
        base_url: "https://h".to_string(),
        header_stage: |d: RequestDescriptor| add_header(d, "x-api-key", "secret"),
        parameter_stage: identity_stage,
    };
    let d = defaults.default_get_requestor("ep", ParamSet::new());
    assert_eq!(
        d.headers,
        vec![("x-api-key".to_string(), "secret".to_string())]
    );
}

#[test]
fn stages_apply_in_order_headers_then_parameters() {
    let defaults = RequestDefaults {
        base_url: "https://h".to_string(),
        header_stage: |d: RequestDescriptor| add_header(d, "first", "1"),
        parameter_stage: |d: RequestDescriptor| add_header(d, "second", "2"),
    };
    let d = defaults.default_post_requestor("ep", "{}".to_string());
    assert_eq!(
        d.headers,
        vec![
            ("first".to_string(), "1".to_string()),
            ("second".to_string(), "2".to_string()),
        ]
    );
}

#[test]
fn add_header_if_applies_on_true() {
    let base = plain_defaults().default_get_requestor("ep", ParamSet::new());
    let d = add_header_if(base, "authorization", "token", || true);
    assert_eq!(
        d.headers,
        vec![("authorization".to_string(), "token".to_string())]
    );
}

#[test]
fn add_header_if_skips_on_false() {
    let base = plain_defaults().default_get_requestor("ep", ParamSet::new());
    let d = add_header_if(base, "authorization", "token", || false);
    assert!(d.headers.is_empty());
}

#[test]
fn assembly_twice_yields_equal_descriptors() {
    let one = plain_defaults().default_post_requestor("ep", "{}".to_string());
    let two = plain_defaults().default_post_requestor("ep", "{}".to_string());
    assert_eq!(one, two);
}
