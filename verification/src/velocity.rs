//! The ball's direction of travel, and the random draw that serves it.
use vstd::prelude::*;
use rand::rngs::ThreadRng;

verus! {

/// The thread-local generator of `rand`, carried through as an opaque value.
#[verifier::external_type_specification]
#[verifier::external_body]
pub struct ExThreadRng(ThreadRng);

/// `rand::Rng::gen_ratio` on the thread-local generator: `true` with a chance
/// of `numerator` in `denominator`. The call panics on a zero denominator and
/// on a numerator above the denominator, so both are left out. It always
/// returns `true` for equal arguments and `false` for a zero numerator; of
/// any other draw nothing is claimed.
///
/// One panic no argument can rule out: from time to time, and after a fork,
/// the generator takes a fresh seed from the operating system, and it
/// panics where the system gives none. That is a failure of the machine,
/// as running out of memory is.
#[verifier::external_body]
fn draw_ratio(rng: &mut ThreadRng, numerator: u32, denominator: u32) -> (heads: bool)
    requires
        denominator != 0,
        numerator <= denominator,
    ensures
        numerator == denominator ==> heads,
        numerator == 0 ==> !heads,
{
    rand::Rng::gen_ratio(rng, numerator, denominator)
}

/// Direction of travel, one component per axis. A served ball has each
/// component at plus or minus one; the integrator scales it by the speed and
/// never normalises it.
#[derive(Clone, Copy, Debug, PartialEq, Eq, Structural)]
pub struct Velocity {
    pub x: i32,
    pub y: i32,
}

/// The direction component that a draw stands for.
pub open spec fn direction_of(heads: bool) -> i32 {
    if heads {
        1i32
    } else {
        (-1) as i32
    }
}

/// The component with its sign turned round. The one value that has no
/// negation of its own turns into the largest.
pub open spec fn inverted(component: i32) -> i32 {
    if component == i32::MIN {
        i32::MAX
    } else {
        (-component) as i32
    }
}

/// Computes [`inverted`].
pub fn invert(component: i32) -> (r: i32)
    ensures
        r == inverted(component),
{
    if component == i32::MIN {
        i32::MAX
    } else {
        -component
    }
}

impl Velocity {
    /// Whether this is a velocity that a serve can produce.
    pub open spec fn is_serve(self) -> bool {
        (self.x == 1 || self.x == -1) && (self.y == 1 || self.y == -1)
    }

    /// The velocity that two draws stand for.
    pub open spec fn of_draws(x_heads: bool, y_heads: bool) -> Velocity {
        Velocity { x: direction_of(x_heads), y: direction_of(y_heads) }
    }

    /// Turns one draw into a direction component.
    pub fn direction_from(heads: bool) -> (d: i32)
        ensures
            d == direction_of(heads),
    {
        if heads {
            1
        } else {
            -1
        }
    }

    /// Turns two draws into a velocity.
    pub fn from_draws(x_heads: bool, y_heads: bool) -> (v: Velocity)
        ensures
            v == Velocity::of_draws(x_heads, y_heads),
            v.is_serve(),
    {
        Velocity { x: Velocity::direction_from(x_heads), y: Velocity::direction_from(y_heads) }
    }

    /// Draws one direction component, plus or minus one with even chance.
    pub fn gen_direction(rng: &mut ThreadRng) -> (d: i32)
        ensures
            d == 1 || d == -1,
    {
        let heads = draw_ratio(rng, 1, 2);
        Velocity::direction_from(heads)
    }

    /// A freshly drawn serve.
    pub fn from_random(rng: &mut ThreadRng) -> (v: Velocity)
        ensures
            v.is_serve(),
    {
        let x = Velocity::gen_direction(rng);
        let y = Velocity::gen_direction(rng);
        Velocity { x, y }
    }

    /// Replaces this velocity by a freshly drawn serve.
    pub fn regen(&mut self, rng: &mut ThreadRng)
        ensures
            final(self).is_serve(),
    {
        self.x = Velocity::gen_direction(rng);
        self.y = Velocity::gen_direction(rng);
    }
}

} // verus!
