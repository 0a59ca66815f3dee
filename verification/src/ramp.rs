//! The triangular duty-cycle waveform that makes an LED breathe.
//!
//! One cycle has two passes over the indices `FLOOR..PERIOD`: a rising pass
//! that writes the index itself and a falling pass that writes its mirror
//! image `PERIOD - index`. Each write is held for `STEP_TICKS` no-op cycles.

use vstd::prelude::*;

verus! {

/// Counting period of the timer, in ticks.
pub const PERIOD: u32 = 500;

/// First index of each pass: keeps the rising pass away from a dark LED.
pub const FLOOR: u32 = 10;

/// Busy-wait after each comparator write, in no-op cycles of the CPU.
pub const STEP_TICKS: usize = 2500;

/// Number of comparator writes in one pass.
pub const PASS_STEPS: u32 = 490;

/// Number of comparator writes in one full cycle (both passes).
pub const CYCLE_STEPS: u32 = 980;

/// Duty written by the rising pass at index `i`.
pub open spec fn rising_duty(i: int) -> int {
    i
}

/// Duty written by the falling pass at index `i`.
pub open spec fn falling_duty(i: int) -> int {
    PERIOD - i
}

/// Duty written at step `k` of the ramp, counted from power-up.
pub open spec fn duty_at(k: nat) -> int {
    let p = (k % (CYCLE_STEPS as nat)) as int;
    if p < PASS_STEPS {
        rising_duty(FLOOR + p)
    } else {
        falling_duty(FLOOR + (p - PASS_STEPS))
    }
}

/// Which half of the triangle the ramp is in.
#[derive(Clone, Copy, Debug, PartialEq, Eq, Structural)]
pub enum Pass {
    Rising,
    Falling,
}

/// What the firmware does for one step: write `duty` to the comparator,
/// then spin for `hold_ticks` no-op cycles.
#[derive(Clone, Copy, Debug, PartialEq, Eq, Structural)]
pub struct RampStep {
    pub duty: u32,
    pub hold_ticks: usize,
}

/// Position of the ramp inside its cycle.
#[derive(Clone, Copy, Debug)]
pub struct Ramp {
    pass: Pass,
    index: u32,
}

impl Ramp {
    #[verifier::type_invariant]
    spec fn in_range(self) -> bool {
        FLOOR <= self.index < PERIOD
    }

    /// Number of steps taken since the start of the current cycle.
    pub closed spec fn phase(self) -> nat {
        match self.pass {
            Pass::Rising => (self.index - FLOOR) as nat,
            Pass::Falling => (PASS_STEPS + self.index - FLOOR) as nat,
        }
    }

    /// The pass that the next step belongs to.
    pub closed spec fn spec_pass(self) -> Pass {
        self.pass
    }

    /// A ramp at the start of its rising pass.
    pub fn new() -> (ramp: Ramp)
        ensures
            ramp.phase() == 0,
            ramp.spec_pass() == Pass::Rising,
    {
        Ramp { pass: Pass::Rising, index: FLOOR }
    }

    /// The pass that the next step belongs to.
    pub fn pass(&self) -> (pass: Pass)
        ensures
            pass == self.spec_pass(),
            pass == (if self.phase() < PASS_STEPS { Pass::Rising } else { Pass::Falling }),
            self.phase() < CYCLE_STEPS,
    {
        proof {
            use_type_invariant(self);
        }
        self.pass
    }

    /// Takes one step: returns the comparator write that is due and moves on
    /// to the next position, wrapping round at the end of the falling pass.
    pub fn step(&mut self) -> (step: RampStep)
        ensures
            old(self).phase() < CYCLE_STEPS,
            step.duty == duty_at(old(self).phase()),
            step.hold_ticks == STEP_TICKS,
            final(self).phase() == (old(self).phase() + 1) % (CYCLE_STEPS as nat),
    {
        proof {
            use_type_invariant(&*self);
        }
        let duty: u32 = match self.pass {
            Pass::Rising => self.index,
            Pass::Falling => PERIOD - self.index,
        };
        if self.index + 1 < PERIOD {
            self.index = self.index + 1;
        } else {
            self.index = FLOOR;
            self.pass = match self.pass {
                Pass::Rising => Pass::Falling,
                Pass::Falling => Pass::Rising,
            };
        }
        RampStep { duty, hold_ticks: STEP_TICKS }
    }
}

/// The ramp never writes a fully-off or a fully-on duty: every step's duty
/// lies strictly between 0 and the period.
pub proof fn lemma_duty_never_extreme(k: nat)
    ensures
        0 < duty_at(k) < PERIOD,
        duty_at(k) != 0,
        duty_at(k) != PERIOD,
{
}

/// Away from the midpoint of the period, the duty that the rising pass writes
/// at an index differs from the one that the falling pass writes there.
pub proof fn lemma_mirror_duties_differ(d: int)
    requires
        FLOOR <= d < PERIOD,
        2 * d != PERIOD,
    ensures
        rising_duty(d) != falling_duty(d),
{
}

/// The waveform repeats after one full cycle.
pub proof fn lemma_cycle_repeats(k: nat)
    ensures
        duty_at(k + CYCLE_STEPS as nat) == duty_at(k),
{
    vstd::arithmetic::div_mod::lemma_mod_add_multiples_vanish(k as int, CYCLE_STEPS as int);
}

/// Step `p` of cycle number `cycle` writes what step `p` of the first cycle
/// writes.
pub proof fn lemma_duty_in_cycle(cycle: nat, p: nat)
    requires
        p < CYCLE_STEPS,
    ensures
        duty_at(cycle * (CYCLE_STEPS as nat) + p) == duty_at(p),
        duty_at(p) == (if p < PASS_STEPS { FLOOR + p } else { CYCLE_STEPS - p }),
{
    vstd::arithmetic::div_mod::lemma_mod_multiples_vanish(
        cycle as int,
        p as int,
        CYCLE_STEPS as int,
    );
    vstd::arithmetic::div_mod::lemma_small_mod(p, CYCLE_STEPS as nat);
}

/// The waveform is a triangle, not a sawtooth: inside any one cycle the
/// duties strictly increase over the rising pass, and strictly decrease from
/// the last rising step to the end of the falling pass.
pub proof fn lemma_rises_then_falls(cycle: nat, j: nat, k: nat)
    requires
        j < k < CYCLE_STEPS,
    ensures
        k < PASS_STEPS ==> duty_at(cycle * (CYCLE_STEPS as nat) + j) < duty_at(
            cycle * (CYCLE_STEPS as nat) + k,
        ),
        j >= PASS_STEPS - 1 ==> duty_at(cycle * (CYCLE_STEPS as nat) + j) > duty_at(
            cycle * (CYCLE_STEPS as nat) + k,
        ),
{
    lemma_duty_in_cycle(cycle, j);
    lemma_duty_in_cycle(cycle, k);
}

/// The rising pass writes each of `FLOOR..PERIOD` once, in order; the falling
/// pass writes each of `1..=PERIOD - FLOOR` once, in reverse order.
pub proof fn lemma_pass_values(p: nat)
    requires
        p < PASS_STEPS,
    ensures
        duty_at(p) == FLOOR + p,
        duty_at(PASS_STEPS as nat + p) == PERIOD - FLOOR - p,
{
    lemma_duty_in_cycle(0, p);
    lemma_duty_in_cycle(0, PASS_STEPS as nat + p);
}

/// Every step changes the comparator: two successive writes never carry the
/// same duty, not even across the turn at the top or the wrap at the bottom.
pub proof fn lemma_successive_duties_differ(k: nat)
    ensures
        duty_at(k) != duty_at(k + 1),
{
    let cycle = k / (CYCLE_STEPS as nat);
    let p = k % (CYCLE_STEPS as nat);
    vstd::arithmetic::div_mod::lemma_fundamental_div_mod(k as int, CYCLE_STEPS as int);
    assert(k == cycle * (CYCLE_STEPS as nat) + p) by (nonlinear_arith)
        requires
            k as int == (CYCLE_STEPS as int) * (cycle as int) + (p as int),
    ;
    lemma_duty_in_cycle(cycle, p);
    if p + 1 < CYCLE_STEPS {
        lemma_duty_in_cycle(cycle, p + 1);
    } else {
        assert((cycle + 1) * (CYCLE_STEPS as nat) + 0 == k + 1) by (nonlinear_arith)
            requires
                k == cycle * (CYCLE_STEPS as nat) + p,
                p + 1 == CYCLE_STEPS as nat,
        ;
        lemma_duty_in_cycle(cycle + 1, 0);
    }
}

} // verus!
