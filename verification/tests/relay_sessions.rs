use aethos_core::session::{backoff_after, RelaySessionConfig, RelaySessionManager};

fn config(base: u64, max: u64) -> RelaySessionConfig {
    RelaySessionConfig {
        base_backoff: base,
        max_backoff: max,
        ..Default::default()
    }
}

fn pool(names: &[&str], config: RelaySessionConfig, now: u64) -> RelaySessionManager {
    RelaySessionManager::new(names.iter().map(|n| n.to_string()).collect(), config, now)
}

#[test]
fn default_config_values() {
    let config = RelaySessionConfig::default();
    assert_eq!(config.base_backoff, 1_000);
    assert_eq!(config.max_backoff, 60_000);
    assert_eq!(config.min_health_score, -10);
    assert_eq!(config.max_health_score, 10);
}

#[test]
fn backoff_doubles_up_to_the_cap() {
    let config = config(50, 500);
    assert_eq!(backoff_after(&config, 1), 50);
    assert_eq!(backoff_after(&config, 2), 100);
    assert_eq!(backoff_after(&config, 3), 200);
    assert_eq!(backoff_after(&config, 4), 400);
    assert_eq!(backoff_after(&config, 5), 500);
    assert_eq!(backoff_after(&config, 6), 500);
    assert_eq!(backoff_after(&config, 64), 500);
    assert_eq!(backoff_after(&config, u32::MAX), 500);
}

#[test]
fn backoff_with_default_config() {
    let config = RelaySessionConfig::default();
    assert_eq!(backoff_after(&config, 1), 1_000);
    assert_eq!(backoff_after(&config, 6), 32_000);
    assert_eq!(backoff_after(&config, 7), 60_000);
}

#[test]
fn backoff_edge_cases() {
    assert_eq!(backoff_after(&config(0, 500), 10), 0);
    assert_eq!(backoff_after(&config(50, 0), 10), 0);
    assert_eq!(backoff_after(&config(600, 500), 1), 500);
    assert_eq!(backoff_after(&config(50, 500), 0), 50);
    assert_eq!(backoff_after(&config(1, u64::MAX), 64), 1 << 63);
    assert_eq!(backoff_after(&config(1, u64::MAX), 65), u64::MAX);
    assert_eq!(backoff_after(&config(3, u64::MAX), 64), u64::MAX);
}

#[test]
fn new_pool_starts_neutral_and_eligible() {
    let manager = pool(&["http://a:1", "b.example", "not a url"], config(50, 500), 7);
    let relays = manager.relays();
    assert_eq!(relays.len(), 3);
    assert_eq!(relays[0].relay_http, "http://a:1");
    assert_eq!(relays[0].relay_ws, "ws://a:1/ws");
    assert_eq!(relays[1].relay_http, "b.example");
    assert_eq!(relays[1].relay_ws, "ws://b.example/ws");
    assert_eq!(relays[2].relay_ws, "not a url");
    for relay in relays {
        assert_eq!(relay.auth_token, None);
        assert_eq!(relay.health_score, 0);
        assert_eq!(relay.consecutive_failures, 0);
        assert_eq!(relay.next_attempt_at, 7);
    }
}

#[test]
fn empty_pool_selects_nothing() {
    let mut manager = pool(&[], config(50, 500), 0);
    assert_eq!(manager.select_relay(100), None);
    manager.mark_failure(0, 100);
    manager.mark_success(0, 100);
    manager.set_auth_token(0, Some("t".to_string()));
    assert_eq!(manager.relays().len(), 0);
}

#[test]
fn selection_rotates_round_robin() {
    let mut manager = pool(&["http://a", "http://b", "http://c"], config(50, 500), 0);
    let slots: Vec<usize> = (0..7)
        .map(|_| manager.select_relay(0).expect("eligible").relay_slot)
        .collect();
    assert_eq!(slots, vec![0, 1, 2, 0, 1, 2, 0]);
}

#[test]
fn selection_carries_the_relay() {
    let mut manager = pool(&["http://a:9"], config(50, 500), 0);
    let selection = manager.select_relay(0).expect("eligible");
    assert_eq!(selection.relay_slot, 0);
    assert_eq!(selection.relay_http, "http://a:9");
    assert_eq!(selection.relay_ws, "ws://a:9/ws");
    assert_eq!(selection.auth_token, None);
}

#[test]
fn selection_waits_for_the_start_time() {
    let mut manager = pool(&["http://a"], config(50, 500), 100);
    assert_eq!(manager.select_relay(99), None);
    assert_eq!(manager.select_relay(100).expect("eligible").relay_slot, 0);
}

#[test]
fn failure_on_first_slot_fails_over_to_second() {
    let mut manager = pool(&["http://a", "http://b"], config(50, 500), 0);
    assert_eq!(manager.select_relay(0).expect("first").relay_slot, 0);
    manager.mark_failure(0, 0);
    assert_eq!(manager.select_relay(0).expect("second").relay_slot, 1);
    assert_eq!(manager.select_relay(0).expect("still second").relay_slot, 1);
    assert_eq!(manager.select_relay(49).expect("still second").relay_slot, 1);
    assert_eq!(manager.select_relay(50).expect("first again").relay_slot, 0);
}

#[test]
fn all_backed_off_selects_nothing_and_keeps_the_cursor() {
    let mut manager = pool(&["http://a", "http://b"], config(50, 500), 0);
    assert_eq!(manager.select_relay(0).expect("first").relay_slot, 0);
    manager.mark_failure(0, 10);
    manager.mark_failure(1, 20);
    assert_eq!(manager.select_relay(59), None);
    assert_eq!(manager.select_relay(59), None);
    assert_eq!(manager.select_relay(60).expect("first").relay_slot, 0);
    assert_eq!(manager.select_relay(69).expect("first again").relay_slot, 0);
    assert_eq!(manager.select_relay(70).expect("second").relay_slot, 1);
}

#[test]
fn failures_lengthen_the_backoff_up_to_the_cap() {
    let mut manager = pool(&["http://a"], config(50, 500), 0);
    let mut waits = Vec::new();
    for round in 1..=7u32 {
        manager.mark_failure(0, 1_000);
        let relay = &manager.relays()[0];
        assert_eq!(relay.consecutive_failures, round);
        waits.push(relay.next_attempt_at - 1_000);
    }
    assert_eq!(waits, vec![50, 100, 200, 400, 500, 500, 500]);
}

#[test]
fn health_score_stays_within_bounds() {
    let mut manager = pool(&["http://a"], config(50, 500), 0);
    for _ in 0..25 {
        manager.mark_failure(0, 0);
    }
    assert_eq!(manager.relays()[0].health_score, -10);
    assert_eq!(manager.relays()[0].consecutive_failures, 25);
    for round in 1..=25 {
        manager.mark_success(0, 5);
        let expected = if round <= 20 { -10 + round } else { 10 };
        assert_eq!(manager.relays()[0].health_score, expected);
    }
    assert_eq!(manager.relays()[0].consecutive_failures, 0);
    assert_eq!(manager.relays()[0].next_attempt_at, 5);
}

#[test]
fn success_makes_a_backed_off_relay_eligible() {
    let mut manager = pool(&["http://a"], config(50, 500), 0);
    manager.mark_failure(0, 0);
    assert_eq!(manager.select_relay(10), None);
    manager.mark_success(0, 10);
    assert_eq!(manager.select_relay(10).expect("eligible").relay_slot, 0);
    assert_eq!(manager.relays()[0].health_score, 0);
}

#[test]
fn deadline_stops_at_the_last_time() {
    let mut manager = pool(&["http://a"], config(50, 500), 0);
    manager.mark_failure(0, u64::MAX - 10);
    assert_eq!(manager.relays()[0].next_attempt_at, u64::MAX);
}

#[test]
fn marks_outside_the_pool_are_ignored() {
    let mut manager = pool(&["http://a"], config(50, 500), 0);
    manager.mark_failure(1, 0);
    manager.mark_success(7, 3);
    manager.set_auth_token(1, Some("t".to_string()));
    let relay = &manager.relays()[0];
    assert_eq!(relay.health_score, 0);
    assert_eq!(relay.consecutive_failures, 0);
    assert_eq!(relay.next_attempt_at, 0);
    assert_eq!(relay.auth_token, None);
}

#[test]
fn tokens_are_kept_per_slot() {
    let mut manager = pool(&["http://a", "http://b"], config(50, 500), 0);
    manager.set_auth_token(1, Some("second".to_string()));
    assert_eq!(manager.select_relay(0).expect("first").auth_token, None);
    assert_eq!(
        manager.select_relay(0).expect("second").auth_token,
        Some("second".to_string())
    );
    manager.set_auth_token(1, None);
    manager.set_auth_token(0, Some("first".to_string()));
    assert_eq!(
        manager.select_relay(0).expect("first").auth_token,
        Some("first".to_string())
    );
    assert_eq!(manager.select_relay(0).expect("second").auth_token, None);
}

#[test]
fn odd_score_bounds_are_followed_as_configured() {
    let mut manager = pool(
        &["http://a"],
        RelaySessionConfig {
            base_backoff: 1,
            max_backoff: 1,
            min_health_score: 3,
            max_health_score: -3,
        },
        0,
    );
    manager.mark_success(0, 0);
    assert_eq!(manager.relays()[0].health_score, -3);
    manager.mark_failure(0, 0);
    assert_eq!(manager.relays()[0].health_score, 3);
}
