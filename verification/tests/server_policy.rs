use scoreboard_core::config::{
    FRAME_LEN, FRAME_MARKER, HTTP_PORT, JOIN_BACKOFF_MS, READ_TIMEOUT_MS, SERIAL_BAUD,
    START_READ_TIMEOUT_MS, WEB_TASK_POOL_SIZE, WRITE_TIMEOUT_MS,
};
use scoreboard_core::config::{network_name, static_net_config};
use scoreboard_core::pool::{PoolSlot, ServeOutcome, SlotDirective, server_timeouts};

#[test]
fn deployment_constants() {
    assert_eq!(HTTP_PORT, 80);
    assert_eq!(WEB_TASK_POOL_SIZE, 8);
    assert_eq!(START_READ_TIMEOUT_MS, 60_000);
    assert_eq!(READ_TIMEOUT_MS, 60_000);
    assert_eq!(WRITE_TIMEOUT_MS, 1_000);
    assert_eq!(JOIN_BACKOFF_MS, 500);
    assert_eq!(SERIAL_BAUD, 38_400);
    assert_eq!(FRAME_LEN, 4);
    assert_eq!(FRAME_MARKER, 0);
    assert_eq!(network_name(), "Scoreboard");

    let net = static_net_config();
    assert_eq!(net.addr, (192, 168, 0, 10));
    assert_eq!(net.prefix_len, 16);
    assert_eq!(net.gateway, None);
}

#[test]
fn timeouts_bundle_matches_config() {
    let t = server_timeouts();
    assert_eq!(t.start_read_ms, 60_000);
    assert_eq!(t.read_ms, 60_000);
    assert_eq!(t.write_ms, 1_000);
}

#[test]
fn slot_always_accepts_again() {
    // every way an exchange can conclude — timeouts included — sends the
    // slot back to accepting on the same task
    let mut slot = PoolSlot::new();
    let outcomes = [
        ServeOutcome::Completed { requests: 3 },
        ServeOutcome::ReadTimeout,
        ServeOutcome::WriteTimeout,
        ServeOutcome::ProtocolError,
    ];
    for (i, o) in outcomes.iter().enumerate() {
        assert_eq!(slot.on_serve_outcome(*o), SlotDirective::AcceptNext);
        assert_eq!(slot.connections, (i + 1) as u64);
    }
    assert_eq!(slot.on_accept_error(), SlotDirective::AcceptNext);
    assert_eq!(slot.connections, 4, "a failed accept concludes no connection");
}
