use dash33::handlers::STATUS_OK;
use dash33::{
    get_metrics, update_metrics, AppState, DashboardConfig, Double, MetricUpdate, Network,
    Timestamp,
};

fn state() -> AppState<()> {
    AppState { pool: (), config: DashboardConfig::default() }
}

fn update(name: &str, value: f64) -> MetricUpdate {
    MetricUpdate {
        metric_type: name.to_string(),
        value: Double::from_bits(value.to_bits()),
        timestamp: None,
    }
}

fn float(value: Double) -> f64 {
    f64::from_bits(value.to_bits())
}

#[test]
fn status_ok_is_200() {
    assert_eq!(STATUS_OK, 200);
}

#[test]
fn metrics_are_the_fixed_snapshot() {
    let reply = get_metrics(&state());
    assert_eq!(reply.status, 200);
    assert_eq!(reply.body.transactions, 100);
    assert_eq!(reply.body.active_users, 50);
    assert_eq!(float(reply.body.system_health), 0.99);
    assert_eq!(float(reply.body.model_accuracy), 0.95);
    assert_eq!(float(reply.body.api_latency), 50.0);
}

#[test]
fn metrics_scores_lie_between_zero_and_one() {
    let reply = get_metrics(&state());
    let health = float(reply.body.system_health);
    let accuracy = float(reply.body.model_accuracy);
    assert!(0.0 <= health && health <= 1.0);
    assert!(0.0 <= accuracy && accuracy <= 1.0);
}

#[test]
fn metrics_do_not_depend_on_the_state() {
    let mut other_config = DashboardConfig::default();
    other_config.network = Network::Testnet;
    other_config.api_config.cors_enabled = false;
    other_config.api_config.port = 1;
    let first = get_metrics(&state());
    let second = get_metrics(&AppState { pool: 17u8, config: other_config });
    assert_eq!(first.status, second.status);
    assert_eq!(first.body.transactions, second.body.transactions);
    assert_eq!(first.body.active_users, second.body.active_users);
    assert_eq!(first.body.system_health.to_bits(), second.body.system_health.to_bits());
    assert_eq!(first.body.model_accuracy.to_bits(), second.body.model_accuracy.to_bits());
    assert_eq!(first.body.api_latency.to_bits(), second.body.api_latency.to_bits());
}

#[test]
fn two_requests_for_metrics_get_identical_payloads() {
    let shared = state();
    let first = get_metrics(&shared);
    let second = get_metrics(&shared);
    assert_eq!(first.status, second.status);
    assert_eq!(first.body.transactions, second.body.transactions);
    assert_eq!(first.body.active_users, second.body.active_users);
    assert_eq!(first.body.system_health.to_bits(), second.body.system_health.to_bits());
    assert_eq!(first.body.model_accuracy.to_bits(), second.body.model_accuracy.to_bits());
    assert_eq!(first.body.api_latency.to_bits(), second.body.api_latency.to_bits());
}

#[test]
fn update_of_system_health_is_accepted() {
    let outcome = update_metrics(&state(), &update("system_health", 0.98));
    assert_eq!(outcome.reply.status, 200);
    assert!(outcome.reply.body);
    assert!(outcome.warning.is_none());
}

#[test]
fn negative_update_is_accepted_with_a_warning() {
    let outcome = update_metrics(&state(), &update("x", -5.0));
    assert_eq!(outcome.reply.status, 200);
    assert!(outcome.reply.body);
    match outcome.warning {
        Some(warning) => assert_eq!(float(warning.value), -5.0),
        None => panic!("a negative value must be warned about"),
    }
}

#[test]
fn zero_and_nan_updates_earn_no_warning() {
    for value in [0.0f64, -0.0, f64::NAN, -f64::NAN, f64::INFINITY] {
        let outcome = update_metrics(&state(), &update("load", value));
        assert_eq!(outcome.reply.status, 200);
        assert!(outcome.reply.body);
        assert!(outcome.warning.is_none(), "for {:?}", value);
    }
}

#[test]
fn tiny_negative_and_negative_infinity_updates_earn_a_warning() {
    for value in [-5e-324f64, -f64::MIN_POSITIVE, f64::MIN, f64::NEG_INFINITY] {
        let outcome = update_metrics(&state(), &update("load", value));
        assert_eq!(outcome.reply.status, 200);
        assert!(outcome.reply.body);
        match outcome.warning {
            Some(warning) => assert_eq!(warning.value.to_bits(), value.to_bits()),
            None => panic!("no warning for {:?}", value),
        }
    }
}

#[test]
fn update_outcome_ignores_name_timestamp_and_state() {
    let plain = update("a", -1.5);
    let stamped = MetricUpdate {
        metric_type: "another name".to_string(),
        value: Double::from_bits((-1.5f64).to_bits()),
        timestamp: Some(Timestamp { seconds: 1_700_000_000, nanoseconds: 250 }),
    };
    let first = update_metrics(&state(), &plain);
    let second = update_metrics(&AppState { pool: "pool", config: DashboardConfig::default() }, &stamped);
    assert_eq!(first.reply.status, second.reply.status);
    assert_eq!(first.reply.body, second.reply.body);
    assert_eq!(
        first.warning.map(|warning| warning.value.to_bits()),
        second.warning.map(|warning| warning.value.to_bits())
    );
}

#[test]
fn update_leaves_the_request_untouched() {
    let request = MetricUpdate {
        metric_type: "system_health".to_string(),
        value: Double::from_bits(0.98f64.to_bits()),
        timestamp: Some(Timestamp { seconds: -1, nanoseconds: 999_999_999 }),
    };
    let copy = request.clone();
    let _ = update_metrics(&state(), &request);
    assert_eq!(request.metric_type, copy.metric_type);
    assert_eq!(request.value.to_bits(), copy.value.to_bits());
    assert_eq!(request.timestamp, copy.timestamp);
}
