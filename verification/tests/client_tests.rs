use compressed_log::client::{
    classify_status, ClientConfig, ConnectionState, DeliveryClient, DeliveryError, TickAction,
};
use compressed_log::compression::FinishValue;
use compressed_log::logger::PlaintextLogs;

fn test_config() -> ClientConfig {
    ClientConfig {
        probe_interval_ms: 1000,
        liveness_multiple: 5,
        min_backoff_ms: 100,
        max_backoff_ms: 1000,
    }
}

fn batch_of(text: &str) -> FinishValue {
    FinishValue::Uncompressed(PlaintextLogs { logs: vec![text.to_string()] })
}

fn batch_text(batch: FinishValue) -> String {
    match batch {
        FinishValue::Uncompressed(p) => p.logs[0].clone(),
        FinishValue::Compressed(_) => panic!("expected a plaintext batch"),
    }
}

#[test]
fn construction_starts_connecting() {
    let client = DeliveryClient::new(test_config(), 0).unwrap();
    assert_eq!(client.state(), ConnectionState::Connecting);
    assert_eq!(client.current_backoff(), 100);
    assert_eq!(client.queue_len(), 0);
}

#[test]
fn invalid_config_rejected() {
    let bad = ClientConfig { probe_interval_ms: 0, ..test_config() };
    assert!(DeliveryClient::new(bad, 0).is_err());
    let bad = ClientConfig { min_backoff_ms: 2000, ..test_config() };
    assert!(DeliveryClient::new(bad, 0).is_err());
}

/// Heartbeat timeout: with 1s probes and a multiple of 5, a connection with
/// no acknowledgement for 5s is torn down and a reconnect starts at once.
#[test]
fn test_heartbeat_timeout() {
    let mut client = DeliveryClient::new(test_config(), 0).unwrap();
    client.on_connect_ok(0);
    assert_eq!(client.state(), ConnectionState::Connected);
    // Probes go out each second; acknowledgements keep the connection alive.
    assert_eq!(client.on_tick(1000), TickAction::SendProbe);
    client.on_ack(1200);
    assert_eq!(client.on_tick(1500), TickAction::Idle);
    assert_eq!(client.on_tick(2000), TickAction::SendProbe);
    // Silence after the last acknowledgement at 1200: the deadline is 6200.
    assert_eq!(client.on_tick(6199), TickAction::SendProbe);
    assert_eq!(client.state(), ConnectionState::Connected);
    assert_eq!(client.on_tick(6200), TickAction::Reconnect);
    assert_eq!(client.state(), ConnectionState::Connecting);
}

/// A send never extends the heartbeat deadline; only an acknowledgement does.
#[test]
fn send_does_not_reset_heartbeat() {
    let mut client = DeliveryClient::new(test_config(), 0).unwrap();
    client.on_connect_ok(0);
    client.enqueue(batch_of("payload"));
    assert_eq!(batch_text(client.next_to_send().unwrap()), "payload");
    // The write at 4999 notwithstanding, the deadline stays at 5000.
    assert_eq!(client.on_tick(5000), TickAction::Reconnect);
}

/// Backoff growth: consecutive failures schedule non-decreasing delays,
/// capped at the maximum; a successful connect resets the ladder.
#[test]
fn test_backoff_growth() {
    let mut client = DeliveryClient::new(test_config(), 0).unwrap();
    // First failure: delay = 100 + min(jitter, 100).
    let d1 = client.on_connect_failed(0, 37);
    assert_eq!(d1, 137);
    assert_eq!(client.state(), ConnectionState::Backoff { until_ms: 137 });
    assert_eq!(client.on_tick(136), TickAction::Idle);
    assert_eq!(client.on_tick(137), TickAction::Reconnect);
    // Second failure: base doubled to 200; jitter clamps to the base.
    let d2 = client.on_connect_failed(137, 250);
    assert_eq!(d2, 400);
    assert!(d1 <= d2);
    assert_eq!(client.on_tick(137 + 400), TickAction::Reconnect);
    // Third and fourth failures: 400 + 0 = 400, then capped 800 + 800 -> 1000.
    let d3 = client.on_connect_failed(537, 0);
    assert_eq!(d3, 400);
    assert_eq!(client.on_tick(937), TickAction::Reconnect);
    let d4 = client.on_connect_failed(937, u64::MAX);
    assert_eq!(d4, 1000);
    assert_eq!(client.on_tick(1937), TickAction::Reconnect);
    let d5 = client.on_connect_failed(1937, u64::MAX);
    assert_eq!(d5, 1000);
    assert_eq!(client.on_tick(2937), TickAction::Reconnect);
    // A successful connect resets the ladder to its minimum.
    client.on_connect_ok(2937);
    assert_eq!(client.current_backoff(), 100);
    client.on_connection_lost();
    assert_eq!(client.state(), ConnectionState::Connecting);
    let d6 = client.on_connect_failed(3000, 0);
    assert_eq!(d6, 100);
}

/// Queued batches leave in arrival order, and only while connected.
#[test]
fn queue_is_fifo_and_gated() {
    let mut client = DeliveryClient::new(test_config(), 0).unwrap();
    client.enqueue(batch_of("first"));
    client.enqueue(batch_of("second"));
    assert!(client.next_to_send().is_none());
    client.on_connect_ok(0);
    assert_eq!(batch_text(client.next_to_send().unwrap()), "first");
    // A failed write goes back to the head, keeping the order.
    client.requeue_front(batch_of("first"));
    client.on_connection_lost();
    assert!(client.next_to_send().is_none());
    client.on_connect_ok(10);
    assert_eq!(batch_text(client.next_to_send().unwrap()), "first");
    assert_eq!(batch_text(client.next_to_send().unwrap()), "second");
    assert!(client.next_to_send().is_none());
}

#[test]
fn classify_status_boundaries() {
    assert!(classify_status(200).is_ok());
    assert!(classify_status(204).is_ok());
    assert!(classify_status(299).is_ok());
    assert_eq!(classify_status(199), Err(DeliveryError::ServerError(199)));
    assert_eq!(classify_status(404), Err(DeliveryError::ServerError(404)));
    assert_eq!(classify_status(500), Err(DeliveryError::ServerError(500)));
}
