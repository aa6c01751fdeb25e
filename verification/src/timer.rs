//! The shared timer resource and its locking discipline.
//!
//! The live configuration is the interrupt rate in Hz; the period driven
//! onto the hardware is `1 / rate` seconds. A reprogram writes two
//! hardware registers (a clock divider and a reload value), so it is not
//! atomic at the register level; the priority-ceiling model below shows
//! that the timer interrupt can never observe a half-written pair.
use vstd::prelude::*;

verus! {

/// The live timer configuration the shell retunes: the interrupt rate in
/// Hz. A blink command at frequency `f` programs `2 * f` interrupts per
/// second, one per edge of a full on/off cycle, so the programmed period
/// is `1 / (2 * f)` seconds.
pub struct TimerConfig {
    pub rate_hz: u32,
}

impl TimerConfig {
    /// A configuration started at the given rate.
    pub fn new(rate_hz: u32) -> (r: TimerConfig)
        ensures
            r.rate_hz == rate_hz,
    {
        TimerConfig { rate_hz }
    }

    /// Installs a new interrupt rate. The caller holds the resource's
    /// lock for the duration of the call.
    pub fn reprogram(&mut self, rate_hz: u32)
        ensures
            final(self).rate_hz == rate_hz,
    {
        self.rate_hz = rate_hz;
    }

    /// Applies a command outcome: an accepted blink command installs its
    /// rate; anything else leaves the previous configuration unchanged.
    pub fn apply(&mut self, action: Option<u32>)
        ensures
            action is Some ==> final(self).rate_hz == action->0,
            action is None ==> *final(self) == *old(self),
    {
        if let Some(rate) = action {
            self.rate_hz = rate;
        }
    }
}

/// The two hardware registers one reprogram writes.
pub struct TimerRegs {
    pub divider: u16,
    pub reload: u16,
}

/// One event of the two-context system: the shell context acquires the
/// ceiling lock, writes the two registers, and releases; the timer
/// interrupt fires a tick.
pub enum TimerOp {
    /// The shell context raises its priority to the resource's ceiling.
    Acquire,
    /// The shell context writes the clock divider register.
    WriteDivider(u16),
    /// The shell context writes the reload register.
    WriteReload(u16),
    /// The shell context drops back below the ceiling.
    Release,
    /// The timer interrupt runs and reads the register pair.
    Tick,
}

/// The model state: the registers, whether the shell context is at the
/// ceiling, whether a reprogram is half done, and every register pair a
/// completed start or reprogram has installed.
pub struct CeilingState {
    pub regs: TimerRegs,
    pub at_ceiling: bool,
    pub mid_write: bool,
    pub committed: Seq<TimerRegs>,
}

/// The state after `start` programmed the initial configuration, before
/// either interrupt context runs.
pub open spec fn init_state(r: TimerRegs) -> CeilingState {
    CeilingState { regs: r, at_ceiling: false, mid_write: false, committed: seq![r] }
}

/// When an event can happen. Writes demand the ceiling; a tick cannot
/// fire while the shell context is at the ceiling, because running at
/// the ceiling masks the timer interrupt; a reprogram writes the divider
/// and then the reload, and releases only when both are written.
pub open spec fn enabled(s: CeilingState, op: TimerOp) -> bool {
    match op {
        TimerOp::Acquire => !s.at_ceiling,
        TimerOp::WriteDivider(_) => s.at_ceiling && !s.mid_write,
        TimerOp::WriteReload(_) => s.at_ceiling && s.mid_write,
        TimerOp::Release => s.at_ceiling && !s.mid_write,
        TimerOp::Tick => !s.at_ceiling,
    }
}

/// The state after an event.
pub open spec fn op_step(s: CeilingState, op: TimerOp) -> CeilingState {
    match op {
        TimerOp::Acquire => CeilingState { at_ceiling: true, ..s },
        TimerOp::WriteDivider(d) => CeilingState {
            regs: TimerRegs { divider: d, ..s.regs },
            mid_write: true,
            ..s
        },
        TimerOp::WriteReload(r) => {
            let regs = TimerRegs { reload: r, ..s.regs };
            CeilingState { regs, mid_write: false, committed: s.committed.push(regs), ..s }
        },
        TimerOp::Release => CeilingState { at_ceiling: false, ..s },
        TimerOp::Tick => s,
    }
}

/// The state after a sequence of events.
pub open spec fn run_ops(s: CeilingState, ops: Seq<TimerOp>) -> CeilingState
    decreases ops.len(),
{
    if ops.len() == 0 {
        s
    } else {
        run_ops(op_step(s, ops[0]), ops.skip(1))
    }
}

/// Every event of the sequence is enabled when it happens.
pub open spec fn valid_from(s: CeilingState, ops: Seq<TimerOp>) -> bool
    decreases ops.len(),
{
    ops.len() == 0 || (enabled(s, ops[0]) && valid_from(op_step(s, ops[0]), ops.skip(1)))
}

/// The registers hold a pair that one completed start or reprogram
/// installed: nothing half-written.
pub open spec fn coherent(s: CeilingState) -> bool {
    s.committed.contains(s.regs)
}

/// The protocol invariant: a half-done reprogram happens only at the
/// ceiling, and outside of one the registers are coherent.
pub open spec fn ceiling_inv(s: CeilingState) -> bool {
    &&& s.mid_write ==> s.at_ceiling
    &&& !s.mid_write ==> coherent(s)
}

/// Each enabled event preserves the invariant.
pub proof fn lemma_step_preserves_inv(s: CeilingState, op: TimerOp)
    requires
        ceiling_inv(s),
        enabled(s, op),
    ensures
        ceiling_inv(op_step(s, op)),
{
    if let TimerOp::WriteReload(_) = op {
        let s2 = op_step(s, op);
        assert(s2.committed[s2.committed.len() - 1] == s2.regs);
        assert(s2.committed.contains(s2.regs));
    }
}

/// The invariant holds along any valid run, and at every event the run's
/// current state satisfies the invariant and enables the event.
pub proof fn lemma_run_inv(s: CeilingState, ops: Seq<TimerOp>, i: int)
    requires
        ceiling_inv(s),
        valid_from(s, ops),
        0 <= i < ops.len(),
    ensures
        ceiling_inv(run_ops(s, ops.take(i))),
        enabled(run_ops(s, ops.take(i)), ops[i]),
    decreases i,
{
    if i == 0 {
        assert(ops.take(0) =~= Seq::<TimerOp>::empty());
    } else {
        lemma_step_preserves_inv(s, ops[0]);
        lemma_run_inv(op_step(s, ops[0]), ops.skip(1), i - 1);
        assert(ops.take(i).skip(1) =~= ops.skip(1).take(i - 1));
        assert(ops.take(i)[0] == ops[0]);
        assert(ops.skip(1)[i - 1] == ops[i]);
    }
}

/// A pending timer interrupt and a reprogram never race: whenever a tick
/// can fire in a valid run from the initial configuration, the register
/// pair it reads is one that a completed start or reprogram installed —
/// the reprogram's two writes are atomic as seen from the timer context.
pub proof fn lemma_tick_reads_whole_configuration(r0: TimerRegs, ops: Seq<TimerOp>, i: int)
    requires
        valid_from(init_state(r0), ops),
        0 <= i < ops.len(),
        ops[i] is Tick,
    ensures
        coherent(run_ops(init_state(r0), ops.take(i))),
{
    assert(init_state(r0).committed[0] == init_state(r0).regs);
    assert(coherent(init_state(r0)));
    lemma_run_inv(init_state(r0), ops, i);
    let s = run_ops(init_state(r0), ops.take(i));
    assert(!s.at_ceiling);
    assert(!s.mid_write);
}

/// The event sequence of one shell reprogram: acquire the ceiling, write
/// both registers, release.
pub open spec fn reprogram_ops(d: u16, r: u16) -> Seq<TimerOp> {
    seq![TimerOp::Acquire, TimerOp::WriteDivider(d), TimerOp::WriteReload(r), TimerOp::Release]
}

/// A reprogram is always admissible outside the ceiling, and it leaves
/// the registers holding exactly the new pair, now committed.
pub proof fn lemma_reprogram_runs(s: CeilingState, d: u16, r: u16)
    requires
        ceiling_inv(s),
        !s.at_ceiling,
    ensures
        valid_from(s, reprogram_ops(d, r)),
        ceiling_inv(run_ops(s, reprogram_ops(d, r))),
        run_ops(s, reprogram_ops(d, r)).regs == (TimerRegs { divider: d, reload: r }),
        !run_ops(s, reprogram_ops(d, r)).at_ceiling,
        coherent(run_ops(s, reprogram_ops(d, r))),
{
    let ops = reprogram_ops(d, r);
    let s1 = op_step(s, TimerOp::Acquire);
    let s2 = op_step(s1, TimerOp::WriteDivider(d));
    let s3 = op_step(s2, TimerOp::WriteReload(r));
    let s4 = op_step(s3, TimerOp::Release);
    let ops1 = seq![TimerOp::WriteDivider(d), TimerOp::WriteReload(r), TimerOp::Release];
    let ops2 = seq![TimerOp::WriteReload(r), TimerOp::Release];
    let ops3 = seq![TimerOp::Release];
    assert(ops.skip(1) =~= ops1);
    assert(ops1.skip(1) =~= ops2);
    assert(ops2.skip(1) =~= ops3);
    assert(ops3.skip(1) =~= Seq::<TimerOp>::empty());
    assert(ops[0] == TimerOp::Acquire && ops1[0] == TimerOp::WriteDivider(d) && ops2[0]
        == TimerOp::WriteReload(r) && ops3[0] == TimerOp::Release);
    assert(valid_from(s4, Seq::<TimerOp>::empty()));
    assert(valid_from(s3, ops3));
    assert(valid_from(s2, ops2));
    assert(valid_from(s1, ops1));
    assert(valid_from(s, ops));
    assert(run_ops(s4, Seq::<TimerOp>::empty()) == s4);
    assert(run_ops(s3, ops3) == s4);
    assert(run_ops(s2, ops2) == s4);
    assert(run_ops(s1, ops1) == s4);
    assert(run_ops(s, ops) == s4);
    assert(s4.committed[s4.committed.len() - 1] == s4.regs);
    assert(coherent(s4));
}

} // verus!
