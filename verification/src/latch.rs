//! The output latch bank: six digital lines driving the scoreboard console's
//! buttons.  The whole bank sits behind one exclusive-access lock, so timed
//! pulse sequences — set a line high, hold it a fixed time, set it low —
//! are atomic with respect to every other latch operation.
//!
//! A handler does not sleep while computing; it emits a *plan*, a short
//! sequence of latch operations, and the task that holds the lock performs
//! the plan in order, sleeping on each `Wait`.  Serialization by the lock
//! means concurrent plans execute back to back, never interleaved, which is
//! what `lemma_pulses_do_not_overlap` turns into a proved statement.

use vstd::prelude::*;

verus! {

use crate::config::PULSE_MS;

/// One of the six output lines.
#[derive(Clone, Copy, PartialEq, Eq, Debug)]
pub enum LatchLine {
    StartStop,
    HomeInc,
    HomeDec,
    AwayInc,
    AwayDec,
    Reset,
}

/// One step of a plan performed under the latch-bank lock.
#[derive(Clone, Copy, PartialEq, Eq, Debug)]
pub enum LatchOp {
    /// Drive a line to a level.
    Drive { line: LatchLine, high: bool },
    /// Hold every line as it is for `ms` milliseconds.
    Wait { ms: u64 },
}

/// Logical levels of the six output lines.
#[derive(Clone, Copy, PartialEq, Eq, Debug)]
pub struct LatchBank {
    pub start_stop: bool,
    pub home_inc: bool,
    pub home_dec: bool,
    pub away_inc: bool,
    pub away_dec: bool,
    pub reset: bool,
}

/// The bank with one line driven to `high` and the rest unchanged.
pub open spec fn spec_with_line(bank: LatchBank, line: LatchLine, high: bool) -> LatchBank {
    match line {
        LatchLine::StartStop => LatchBank { start_stop: high, ..bank },
        LatchLine::HomeInc => LatchBank { home_inc: high, ..bank },
        LatchLine::HomeDec => LatchBank { home_dec: high, ..bank },
        LatchLine::AwayInc => LatchBank { away_inc: high, ..bank },
        LatchLine::AwayDec => LatchBank { away_dec: high, ..bank },
        LatchLine::Reset => LatchBank { reset: high, ..bank },
    }
}

/// Effect of one plan step on the bank; a `Wait` changes nothing.
pub open spec fn spec_apply_op(bank: LatchBank, op: LatchOp) -> LatchBank {
    match op {
        LatchOp::Drive { line, high } => spec_with_line(bank, line, high),
        LatchOp::Wait { .. } => bank,
    }
}

/// Effect of a whole plan, applied front to back.
pub open spec fn spec_apply(bank: LatchBank, ops: Seq<LatchOp>) -> LatchBank
    decreases ops.len(),
{
    if ops.len() == 0 {
        bank
    } else {
        spec_apply(spec_apply_op(bank, ops[0]), ops.skip(1))
    }
}

/// One timed interval of a plan's execution: the level the start/stop line
/// holds, and for how many milliseconds.
#[derive(Clone, Copy, PartialEq, Eq, Debug)]
pub struct Hold {
    pub high: bool,
    pub ms: u64,
}

/// The timeline of the start/stop line over a plan: one `Hold` per `Wait`,
/// labelled with the level the line has while that wait runs.
pub open spec fn spec_holds(bank: LatchBank, ops: Seq<LatchOp>) -> Seq<Hold>
    decreases ops.len(),
{
    if ops.len() == 0 {
        Seq::<Hold>::empty()
    } else {
        let rest = spec_holds(spec_apply_op(bank, ops[0]), ops.skip(1));
        match ops[0] {
            LatchOp::Wait { ms } => seq![Hold { high: bank.start_stop, ms }] + rest,
            LatchOp::Drive { .. } => rest,
        }
    }
}

impl LatchBank {
    /// All six lines start low.
    pub fn new() -> (r: LatchBank)
        ensures
            r == (LatchBank {
                start_stop: false,
                home_inc: false,
                home_dec: false,
                away_inc: false,
                away_dec: false,
                reset: false,
            }),
    {
        LatchBank {
            start_stop: false,
            home_inc: false,
            home_dec: false,
            away_inc: false,
            away_dec: false,
            reset: false,
        }
    }

    /// Drives one line to a level.
    pub fn drive(&mut self, line: LatchLine, high: bool)
        ensures
            *final(self) == spec_with_line(*old(self), line, high),
    {
        match line {
            LatchLine::StartStop => self.start_stop = high,
            LatchLine::HomeInc => self.home_inc = high,
            LatchLine::HomeDec => self.home_dec = high,
            LatchLine::AwayInc => self.away_inc = high,
            LatchLine::AwayDec => self.away_dec = high,
            LatchLine::Reset => self.reset = high,
        }
    }

    /// Applies a whole plan to the bank's levels.  The runtime performing a
    /// plan additionally sleeps on each `Wait`; the levels are unaffected by
    /// that, so this is the plan's full effect on the bank.
    pub fn apply_plan(&mut self, ops: &Vec<LatchOp>)
        ensures
            *final(self) == spec_apply(*old(self), ops@),
    {
        let n = ops.len();
        let mut i: usize = 0;
        proof {
            assert(ops@.skip(0) =~= ops@);
        }
        while i < n
            invariant
                n == ops@.len(),
                i <= n,
                spec_apply(*self, ops@.skip(i as int)) == spec_apply(*old(self), ops@),
            decreases n - i,
        {
            let ghost pre = *self;
            match ops[i] {
                LatchOp::Drive { line, high } => self.drive(line, high),
                LatchOp::Wait { .. } => (),
            }
            proof {
                assert(*self == spec_apply_op(pre, ops@[i as int]));
                assert(ops@.skip(i as int)[0] == ops@[i as int]);
                assert(ops@.skip(i as int).skip(1) =~= ops@.skip(i + 1));
            }
            i = i + 1;
        }
        proof {
            assert(ops@.skip(n as int) =~= Seq::<LatchOp>::empty());
        }
    }
}

/// The plan behind `/ctrl/0`: start/stop high, hold `PULSE_MS`, low again.
pub open spec fn pulse_plan_spec() -> Seq<LatchOp> {
    seq![
        LatchOp::Drive { line: LatchLine::StartStop, high: true },
        LatchOp::Wait { ms: PULSE_MS },
        LatchOp::Drive { line: LatchLine::StartStop, high: false },
    ]
}

/// Builds the start/stop pulse plan.
pub fn pulse_plan() -> (r: Vec<LatchOp>)
    ensures
        r@ == pulse_plan_spec(),
{
    let mut r: Vec<LatchOp> = Vec::new();
    r.push(LatchOp::Drive { line: LatchLine::StartStop, high: true });
    r.push(LatchOp::Wait { ms: PULSE_MS });
    r.push(LatchOp::Drive { line: LatchLine::StartStop, high: false });
    proof {
        assert(r@ =~= pulse_plan_spec());
    }
    r
}

/// Splitting a serialized execution splits its effect and its timeline.
pub proof fn lemma_apply_concat(bank: LatchBank, a: Seq<LatchOp>, b: Seq<LatchOp>)
    ensures
        spec_apply(bank, a + b) == spec_apply(spec_apply(bank, a), b),
        spec_holds(bank, a + b) == spec_holds(bank, a) + spec_holds(spec_apply(bank, a), b),
    decreases a.len(),
{
    if a.len() == 0 {
        assert(a + b =~= b);
        assert(spec_holds(bank, a) + spec_holds(spec_apply(bank, a), b) =~= spec_holds(bank, b));
    } else {
        assert((a + b)[0] == a[0]);
        assert((a + b).skip(1) =~= a.skip(1) + b);
        lemma_apply_concat(spec_apply_op(bank, a[0]), a.skip(1), b);
    }
}

/// One pulse, from any starting levels: the timeline is a single contiguous
/// hold of the start/stop line, high, `PULSE_MS` long, and afterwards the
/// line is low with every other line unchanged.
pub proof fn lemma_pulse_shape(bank: LatchBank)
    ensures
        spec_holds(bank, pulse_plan_spec()) =~= seq![Hold { high: true, ms: PULSE_MS }],
        spec_apply(bank, pulse_plan_spec()) == (LatchBank { start_stop: false, ..bank }),
{
    let p = pulse_plan_spec();
    let p1 = p.skip(1);
    let p2 = p1.skip(1);
    let p3 = p2.skip(1);
    assert(p1[0] == p[1] && p1[1] == p[2] && p1.len() == 2);
    assert(p2[0] == p[2] && p2.len() == 1);
    assert(p3 =~= Seq::<LatchOp>::empty());
    let b1 = spec_apply_op(bank, p[0]);
    let b2 = spec_apply_op(b1, p[2]);
    assert(b1.start_stop == true);
    assert(spec_holds(bank, p) == spec_holds(b1, p1));
    assert(spec_holds(b1, p1) == seq![Hold { high: true, ms: PULSE_MS }] + spec_holds(b1, p2));
    assert(spec_holds(b1, p2) == spec_holds(b2, p3));
    assert(spec_holds(b2, p3) == Seq::<Hold>::empty());
    assert(spec_apply(bank, p) == spec_apply(b1, p1));
    assert(spec_apply(b1, p1) == spec_apply(b1, p2));
    assert(spec_apply(b1, p2) == spec_apply(b2, p3));
    assert(spec_apply(b2, p3) == b2);
    assert(b2 == (LatchBank { start_stop: false, ..bank }));
}

/// `n` start/stop pulses executed back to back.
pub open spec fn repeated_pulses(n: nat) -> Seq<LatchOp>
    decreases n,
{
    if n == 0 {
        Seq::<LatchOp>::empty()
    } else {
        pulse_plan_spec() + repeated_pulses((n - 1) as nat)
    }
}

/// Any number of concurrent start/stop pulse requests, serialized by the
/// latch-bank lock, execute as `n` plans back to back.  Their combined
/// timeline is exactly `n` timed holds, each with the start/stop line high
/// for a contiguous `PULSE_MS`, one per request — so no two pulses overlap —
/// and the line ends low.
pub proof fn lemma_pulses_do_not_overlap(bank: LatchBank, n: nat)
    ensures
        spec_holds(bank, repeated_pulses(n)) =~= Seq::new(n, |i: int| Hold {
            high: true,
            ms: PULSE_MS,
        }),
        n > 0 ==> spec_apply(bank, repeated_pulses(n)).start_stop == false,
    decreases n,
{
    if n > 0 {
        let rest = repeated_pulses((n - 1) as nat);
        lemma_apply_concat(bank, pulse_plan_spec(), rest);
        lemma_pulse_shape(bank);
        let bank1 = spec_apply(bank, pulse_plan_spec());
        lemma_pulses_do_not_overlap(bank1, (n - 1) as nat);
        if n == 1 {
            assert(rest =~= Seq::<LatchOp>::empty());
        }
    }
}

} // verus!
