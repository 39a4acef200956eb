//! The ball's speed multiplier, which rises with the time played.
use vstd::prelude::*;
use crate::units::lemma_product_bounds;

verus! {

/// The speed multiplier one, in its steps of 1e-10.
pub const MULTIPLIER_ONE: u64 = 10_000_000_000;

/// Steps by which the speed multiplier grows in a microsecond: 0.0001 in a
/// second.
pub const BALL_SPEED_MULTIPLIER_INCREASE_PER_MICROSECOND: u64 = 1;

/// The factor on the ball's speed, in steps of 1e-10. It starts at one and
/// only ever grows; it stays at the largest value once it has reached it.
#[derive(Clone, Copy, Debug, PartialEq, Eq, Structural)]
pub struct SpeedMultiplier {
    pub steps: u64,
}

impl SpeedMultiplier {
    /// The multiplier at the start of a match.
    pub open spec fn one() -> SpeedMultiplier {
        SpeedMultiplier { steps: MULTIPLIER_ONE }
    }

    /// Computes [`SpeedMultiplier::one`].
    pub fn initial() -> (multiplier: SpeedMultiplier)
        ensures
            multiplier == SpeedMultiplier::one(),
    {
        SpeedMultiplier { steps: MULTIPLIER_ONE }
    }

    /// The multiplier after `elapsed` more microseconds.
    pub open spec fn ramped(self, elapsed: nat) -> SpeedMultiplier {
        let grown = self.steps + BALL_SPEED_MULTIPLIER_INCREASE_PER_MICROSECOND * elapsed;
        SpeedMultiplier {
            steps: if grown > u64::MAX {
                u64::MAX
            } else {
                grown as u64
            },
        }
    }
}

/// The time that a run of ticks takes in all.
pub open spec fn total_time(ticks: Seq<u32>) -> nat
    decreases ticks.len(),
{
    if ticks.len() == 0 {
        0
    } else {
        total_time(ticks.drop_last()) + ticks.last() as nat
    }
}

/// The multiplier after a run of ticks, grown tick by tick.
pub open spec fn ramped_through(multiplier: SpeedMultiplier, ticks: Seq<u32>) -> SpeedMultiplier
    decreases ticks.len(),
{
    if ticks.len() == 0 {
        multiplier
    } else {
        ramped_through(multiplier, ticks.drop_last()).ramped(ticks.last() as nat)
    }
}

/// Growing for one span of time and then for another is growing for their
/// sum.
pub proof fn lemma_ramp_adds(multiplier: SpeedMultiplier, first: nat, second: nat)
    ensures
        multiplier.ramped(first).ramped(second) == multiplier.ramped(first + second),
{
    let rate = BALL_SPEED_MULTIPLIER_INCREASE_PER_MICROSECOND as int;
    assert(rate * (first + second) == rate * first + rate * second) by (nonlinear_arith);
    assert(0 <= rate * first) by (nonlinear_arith)
        requires
            0 <= rate,
            0 <= first,
    ;
    assert(0 <= rate * second) by (nonlinear_arith)
        requires
            0 <= rate,
            0 <= second,
    ;
}

/// The multiplier after a run of ticks depends on the time that they take in
/// all and not on how that time is divided into ticks: it has grown by the
/// rate times that time, or has reached the largest value.
pub proof fn lemma_ramp_depends_on_total_time(multiplier: SpeedMultiplier, ticks: Seq<u32>)
    ensures
        ramped_through(multiplier, ticks) == multiplier.ramped(total_time(ticks)),
        multiplier.steps + BALL_SPEED_MULTIPLIER_INCREASE_PER_MICROSECOND * total_time(ticks)
            <= u64::MAX ==> ramped_through(multiplier, ticks).steps == multiplier.steps
            + BALL_SPEED_MULTIPLIER_INCREASE_PER_MICROSECOND * total_time(ticks),
    decreases ticks.len(),
{
    if ticks.len() == 0 {
        assert(BALL_SPEED_MULTIPLIER_INCREASE_PER_MICROSECOND * 0nat == 0) by (nonlinear_arith);
    } else {
        lemma_ramp_depends_on_total_time(multiplier, ticks.drop_last());
        lemma_ramp_adds(multiplier, total_time(ticks.drop_last()), ticks.last() as nat);
    }
}

/// Two runs of ticks that take the same time in all leave the same
/// multiplier.
pub proof fn lemma_ramp_ignores_division(
    multiplier: SpeedMultiplier,
    ticks: Seq<u32>,
    others: Seq<u32>,
)
    requires
        total_time(ticks) == total_time(others),
    ensures
        ramped_through(multiplier, ticks) == ramped_through(multiplier, others),
{
    lemma_ramp_depends_on_total_time(multiplier, ticks);
    lemma_ramp_depends_on_total_time(multiplier, others);
}

/// From a multiplier of one, after ticks that took `earlier` and one more
/// tick of `dt`, the multiplier is one plus the rate times all the time
/// played, however that time was divided, as long as that fits.
pub proof fn lemma_ramp_from_one(earlier: Seq<u32>, dt: u32)
    requires
        MULTIPLIER_ONE + BALL_SPEED_MULTIPLIER_INCREASE_PER_MICROSECOND * (total_time(earlier)
            + dt) <= u64::MAX,
    ensures
        ramped_through(SpeedMultiplier::one(), earlier).ramped(dt as nat).steps == MULTIPLIER_ONE
            + BALL_SPEED_MULTIPLIER_INCREASE_PER_MICROSECOND * (total_time(earlier) + dt),
        ramped_through(SpeedMultiplier::one(), earlier).ramped(dt as nat).steps
            == 10_000_000_000 + total_time(earlier) + dt,
{
    lemma_ramp_depends_on_total_time(SpeedMultiplier::one(), earlier);
    lemma_ramp_adds(SpeedMultiplier::one(), total_time(earlier), dt as nat);
    assert(BALL_SPEED_MULTIPLIER_INCREASE_PER_MICROSECOND * (total_time(earlier) + dt)
        == total_time(earlier) + dt) by (nonlinear_arith)
        requires
            BALL_SPEED_MULTIPLIER_INCREASE_PER_MICROSECOND == 1,
    ;
}

/// Lets the speed multiplier grow for a tick of `dt` microseconds: by the
/// rate times `dt`, as long as that fits.
pub fn update_ball_speed_multiplier(multiplier: &mut SpeedMultiplier, dt: u32)
    ensures
        *final(multiplier) == old(multiplier).ramped(dt as nat),
        old(multiplier).steps + BALL_SPEED_MULTIPLIER_INCREASE_PER_MICROSECOND * dt <= u64::MAX
            ==> final(multiplier).steps == old(multiplier).steps
            + BALL_SPEED_MULTIPLIER_INCREASE_PER_MICROSECOND * dt,
{
    proof {
        lemma_product_bounds(
            BALL_SPEED_MULTIPLIER_INCREASE_PER_MICROSECOND as int,
            dt as int,
            1,
            u32::MAX as int,
        );
    }
    let increase: u64 = BALL_SPEED_MULTIPLIER_INCREASE_PER_MICROSECOND * (dt as u64);
    multiplier.steps = multiplier.steps.saturating_add(increase);
}

} // verus!
