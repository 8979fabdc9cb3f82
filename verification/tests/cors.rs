use dash33::{ApiConfig, CorsPolicy, DashboardConfig, RateLimit};

fn api(cors_enabled: bool) -> ApiConfig {
    ApiConfig {
        host: "127.0.0.1".to_string(),
        port: 3000,
        cors_enabled,
        rate_limit: RateLimit { requests_per_second: 10, burst_size: 50 },
    }
}

fn policy(origin: bool, method: bool, header: bool) -> CorsPolicy {
    CorsPolicy { allow_any_origin: origin, allow_any_method: method, allow_any_header: header }
}

#[test]
fn enabled_policy_allows_everything() {
    assert_eq!(CorsPolicy::from_config(&api(true)), policy(true, true, true));
}

#[test]
fn disabled_policy_allows_nothing() {
    assert_eq!(CorsPolicy::from_config(&api(false)), policy(false, false, false));
}

#[test]
fn default_config_gives_the_open_policy() {
    let config = DashboardConfig::default();
    assert_eq!(CorsPolicy::from_config(&config.api_config), policy(true, true, true));
}

#[test]
fn open_layer_holds_all_three_wildcards() {
    let shown = format!("{:?}", policy(true, true, true).layer());
    assert!(shown.contains("allow_origin: Const(\"*\")"), "{}", shown);
    assert!(shown.contains("allow_methods: Const(Some(\"*\"))"), "{}", shown);
    assert!(shown.contains("allow_headers: Const(Some(\"*\"))"), "{}", shown);
}

#[test]
fn closed_layer_is_the_layer_that_sends_nothing() {
    let shown = format!("{:?}", policy(false, false, false).layer());
    let fresh = format!("{:?}", tower_http::cors::CorsLayer::new());
    assert_eq!(shown, fresh);
    assert!(shown.contains("allow_origin: List([])"), "{}", shown);
    assert!(shown.contains("allow_methods: Const(None)"), "{}", shown);
    assert!(shown.contains("allow_headers: Const(None)"), "{}", shown);
}

#[test]
fn layer_holds_exactly_the_wildcards_of_the_policy() {
    for bits in 0u8..8 {
        let origin = bits & 1 != 0;
        let method = bits & 2 != 0;
        let header = bits & 4 != 0;
        let shown = format!("{:?}", policy(origin, method, header).layer());
        assert_eq!(shown.contains("allow_origin: Const(\"*\")"), origin, "{}", shown);
        assert_eq!(shown.contains("allow_methods: Const(Some(\"*\"))"), method, "{}", shown);
        assert_eq!(shown.contains("allow_headers: Const(Some(\"*\"))"), header, "{}", shown);
    }
}

#[test]
fn layer_grants_nothing_besides_the_wildcards() {
    let shown = format!("{:?}", policy(true, true, true).layer());
    let same = format!(
        "{:?}",
        tower_http::cors::CorsLayer::new()
            .allow_origin(tower_http::cors::Any)
            .allow_methods(tower_http::cors::Any)
            .allow_headers(tower_http::cors::Any)
    );
    assert_eq!(shown, same);
}
