//! Lasting contacts: what repeated looks at the walls and at the paddles do
//! to a ball that stays in touch.
use vstd::prelude::*;
use crate::ball::{
    overlaps_any, paddles_resolved, touches_wall, wall_resolved, Ball,
};
use crate::geometry::WindowBounds;
use crate::paddle::{Paddle, PaddleDimensions};
use crate::velocity::inverted;

verus! {

/// A second look at the walls, with nothing changed in between, changes
/// nothing.
pub proof fn lemma_wall_look_is_idempotent(ball: Ball, bounds: WindowBounds)
    ensures
        wall_resolved(wall_resolved(ball, bounds), bounds) == wall_resolved(ball, bounds),
{
}

/// A second look at the paddles, with nothing changed in between, changes
/// nothing.
pub proof fn lemma_paddle_look_is_idempotent(
    ball: Ball,
    paddles: Seq<Paddle>,
    dimensions: PaddleDimensions,
)
    ensures
        paddles_resolved(paddles_resolved(ball, paddles, dimensions), paddles, dimensions)
            == paddles_resolved(ball, paddles, dimensions),
{
    let once = paddles_resolved(ball, paddles, dimensions);
    assert(overlaps_any(once, paddles, dimensions) == overlaps_any(ball, paddles, dimensions));
}

/// One contact with a wall, look by look: `looks[k]` is the ball as look `k`
/// finds it, within the bounds `bounds[k]`. The ball comes to the first look
/// without contact, every look finds it at a wall, and from one look to the
/// next nothing but the look itself has touched the vertical direction or
/// the wall contact.
pub open spec fn wall_episode(looks: Seq<Ball>, bounds: Seq<WindowBounds>) -> bool {
    &&& looks.len() > 0
    &&& looks.len() == bounds.len()
    &&& !looks[0].wall_contact
    &&& forall|k: int| 0 <= k < looks.len() ==> touches_wall(#[trigger] looks[k], bounds[k])
    &&& forall|k: int|
        0 < k < looks.len() ==> {
            let left = wall_resolved(looks[k - 1], bounds[k - 1]);
            &&& (#[trigger] looks[k]).wall_contact == left.wall_contact
            &&& looks[k].velocity.y == left.velocity.y
        }
}

/// Over one contact with a wall the ball turns round once: the first look
/// inverts the vertical direction, and every later look leaves the ball
/// exactly as it finds it. The inverted direction is the negation wherever
/// the direction has one.
pub proof fn lemma_wall_contact_turns_once(looks: Seq<Ball>, bounds: Seq<WindowBounds>, k: int)
    requires
        wall_episode(looks, bounds),
        0 <= k < looks.len(),
    ensures
        wall_resolved(looks[k], bounds[k]).velocity.y == inverted(looks[0].velocity.y),
        looks[0].velocity.y > i32::MIN ==> wall_resolved(looks[k], bounds[k]).velocity.y
            == -looks[0].velocity.y,
        wall_resolved(looks[k], bounds[k]).wall_contact,
        k > 0 ==> wall_resolved(looks[k], bounds[k]) == looks[k],
    decreases k,
{
    if k > 0 {
        lemma_wall_contact_turns_once(looks, bounds, k - 1);
        assert(touches_wall(looks[k], bounds[k]));
        assert(looks[k].wall_contact);
    } else {
        assert(touches_wall(looks[0], bounds[0]));
    }
}

/// One contact with the paddles, look by look: `looks[k]` is the ball as
/// look `k` finds it, among the paddles `paddles[k]`. The ball comes to the
/// first look without contact, every look finds it overlapping some paddle,
/// and from one look to the next nothing but the look itself has touched the
/// horizontal direction or the paddle contact.
pub open spec fn paddle_episode(
    looks: Seq<Ball>,
    paddles: Seq<Seq<Paddle>>,
    dimensions: PaddleDimensions,
) -> bool {
    &&& looks.len() > 0
    &&& looks.len() == paddles.len()
    &&& !looks[0].paddle_contact
    &&& forall|k: int|
        0 <= k < looks.len() ==> overlaps_any(#[trigger] looks[k], paddles[k], dimensions)
    &&& forall|k: int|
        0 < k < looks.len() ==> {
            let left = paddles_resolved(looks[k - 1], paddles[k - 1], dimensions);
            &&& (#[trigger] looks[k]).paddle_contact == left.paddle_contact
            &&& looks[k].velocity.x == left.velocity.x
        }
}

/// Over one contact with the paddles the ball turns round once: the first
/// look inverts the horizontal direction, and every later look leaves the
/// ball exactly as it finds it. The inverted direction is the negation
/// wherever the direction has one.
pub proof fn lemma_paddle_contact_turns_once(
    looks: Seq<Ball>,
    paddles: Seq<Seq<Paddle>>,
    dimensions: PaddleDimensions,
    k: int,
)
    requires
        paddle_episode(looks, paddles, dimensions),
        0 <= k < looks.len(),
    ensures
        paddles_resolved(looks[k], paddles[k], dimensions).velocity.x == inverted(
            looks[0].velocity.x,
        ),
        looks[0].velocity.x > i32::MIN ==> paddles_resolved(
            looks[k],
            paddles[k],
            dimensions,
        ).velocity.x == -looks[0].velocity.x,
        paddles_resolved(looks[k], paddles[k], dimensions).paddle_contact,
        k > 0 ==> paddles_resolved(looks[k], paddles[k], dimensions) == looks[k],
    decreases k,
{
    if k > 0 {
        lemma_paddle_contact_turns_once(looks, paddles, dimensions, k - 1);
        assert(overlaps_any(looks[k], paddles[k], dimensions));
        assert(looks[k].paddle_contact);
    } else {
        assert(overlaps_any(looks[0], paddles[0], dimensions));
    }
}

} // verus!
