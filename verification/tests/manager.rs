use rid_simulator::mqtt_manager::{MqttManager, PollDecision};

#[test]
fn connect_and_disconnect_flip_the_flag() {
    let mut mgr = MqttManager::new();
    assert!(!mgr.is_connected());
    mgr.begin_connect();
    assert!(mgr.is_connected());
    mgr.disconnect();
    assert!(!mgr.is_connected());
    // Disconnecting again still reports cleanly.
    mgr.disconnect();
    assert!(!mgr.is_connected());
}

#[test]
fn backoff_delays_follow_the_ladder() {
    let mut mgr = MqttManager::new();
    mgr.begin_connect();
    let mut delays = Vec::new();
    for _ in 0..8 {
        match mgr.on_poll_error() {
            PollDecision::RetryAfter(secs) => delays.push(secs),
            PollDecision::Exit => panic!("connected manager must retry"),
        }
    }
    assert_eq!(delays, vec![1, 2, 4, 8, 16, 30, 30, 30]);
}

#[test]
fn poll_success_resets_the_ladder() {
    let mut mgr = MqttManager::new();
    mgr.begin_connect();
    for _ in 0..4 {
        mgr.on_poll_error();
    }
    mgr.on_poll_success();
    assert_eq!(mgr.on_poll_error(), PollDecision::RetryAfter(1));
}

#[test]
fn intentional_disconnect_exits_without_delay() {
    let mut mgr = MqttManager::new();
    mgr.begin_connect();
    mgr.on_poll_error();
    mgr.disconnect();
    assert_eq!(mgr.on_poll_error(), PollDecision::Exit);
}

#[test]
fn rate_limiter_accepts_first_message() {
    let mut mgr = MqttManager::new();
    assert!(mgr.accept_message(0));
}

#[test]
fn rate_limiter_drops_second_message_within_interval() {
    let mut mgr = MqttManager::new();
    assert!(mgr.accept_message(1000));
    assert!(!mgr.accept_message(1049));
    // The dropped message did not move the limiter.
    assert!(mgr.accept_message(1050));
}

#[test]
fn rate_limiter_accepts_messages_a_full_interval_apart() {
    let mut mgr = MqttManager::new();
    assert!(mgr.accept_message(2000));
    assert!(mgr.accept_message(2050));
    assert!(mgr.accept_message(2100));
}
