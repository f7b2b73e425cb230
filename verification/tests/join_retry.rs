use scoreboard_core::config::JOIN_BACKOFF_MS;
use scoreboard_core::join::{JoinPhase, JoinStep, JoinSupervisor};
use scoreboard_core::radio::RadioControl;

#[test]
fn joins_after_kth_attempt() {
    // a network that accepts on the 4th attempt: exactly 4 attempts are made
    let k = 4u64;
    let mut sup = JoinSupervisor::new();
    let mut radio = RadioControl::new();
    let mut made = 0u64;
    loop {
        sup.begin_attempt(&mut radio);
        assert!(radio.indicator, "indicator high before each attempt");
        made += 1;
        let accepted = made == k;
        match sup.record_outcome(&mut radio, accepted) {
            JoinStep::Done => break,
            JoinStep::Retry { backoff_ms } => {
                assert_eq!(backoff_ms, JOIN_BACKOFF_MS);
                assert!(!radio.indicator, "indicator low after a failure");
            }
        }
    }
    assert_eq!(sup.attempts, k);
    assert_eq!(sup.phase, JoinPhase::Joined);
    assert!(radio.indicator, "indicator left as the last attempt set it");
}

#[test]
fn failures_keep_joining_with_backoff() {
    // a network that never responds: the supervisor never reports Done
    let mut sup = JoinSupervisor::new();
    let mut radio = RadioControl::new();
    for _ in 0..1000 {
        sup.begin_attempt(&mut radio);
        match sup.record_outcome(&mut radio, false) {
            JoinStep::Done => panic!("a failed attempt must not join"),
            JoinStep::Retry { backoff_ms } => assert!(backoff_ms >= 500),
        }
        assert_eq!(sup.phase, JoinPhase::Joining);
    }
    assert_eq!(sup.attempts, 1000);
}
