use scoreboard_core::config::PULSE_MS;
use scoreboard_core::latch::{pulse_plan, LatchBank, LatchLine, LatchOp};

#[test]
fn pulse_plan_is_high_wait_low() {
    // one contiguous high interval of PULSE_MS on the start/stop line
    let plan = pulse_plan();
    assert_eq!(
        plan,
        vec![
            LatchOp::Drive { line: LatchLine::StartStop, high: true },
            LatchOp::Wait { ms: PULSE_MS },
            LatchOp::Drive { line: LatchLine::StartStop, high: false },
        ]
    );
    assert_eq!(PULSE_MS, 50);
}

#[test]
fn bank_starts_low_and_drives_lines() {
    let mut bank = LatchBank::new();
    assert!(
        !bank.start_stop
            && !bank.home_inc
            && !bank.home_dec
            && !bank.away_inc
            && !bank.away_dec
            && !bank.reset
    );
    bank.drive(LatchLine::Reset, true);
    assert!(bank.reset && !bank.start_stop);
    bank.drive(LatchLine::Reset, false);
    assert!(!bank.reset);
}

#[test]
fn serialized_pulses_leave_line_low() {
    // two pulse plans performed back to back, as the latch-bank lock
    // serializes them: after each the line is low again, so the next
    // pulse's high interval cannot overlap the previous one
    let mut bank = LatchBank::new();
    for _ in 0..2 {
        let plan = pulse_plan();
        let mut highs = 0;
        for op in plan.iter() {
            match op {
                LatchOp::Drive { line, high } => bank.drive(*line, *high),
                LatchOp::Wait { ms } => {
                    assert!(bank.start_stop, "line is high across the whole wait");
                    assert_eq!(*ms, PULSE_MS);
                    highs += 1;
                }
            }
        }
        assert_eq!(highs, 1);
        assert!(!bank.start_stop, "line is low after the pulse");
    }
}
