//! Points: a ball that reaches the left or the right end of the field
//! scores and is served again from the centre.
use vstd::prelude::*;
use rand::rngs::ThreadRng;
use crate::ball::Ball;
use crate::geometry::{Position, WindowBounds};
use crate::score::{Score, Side};
use crate::velocity::Velocity;

verus! {

/// The side on which the ball's square has reached the end of the field, if
/// it has. The left is looked at first.
pub open spec fn crossing(ball: Ball, bounds: WindowBounds) -> Option<Side> {
    if ball.position.x - ball.half_extent <= -(bounds.half_width as int) {
        Some(Side::Left)
    } else if ball.position.x + ball.half_extent >= bounds.half_width {
        Some(Side::Right)
    } else {
        None
    }
}

/// Computes [`crossing`].
pub fn crossed_side(ball: &Ball, bounds: &WindowBounds) -> (side: Option<Side>)
    ensures
        side == crossing(*ball, *bounds),
{
    let x = ball.position.x as i128;
    let extent = ball.half_extent as i128;
    let width = bounds.half_width as i128;
    if x - extent <= -width {
        Some(Side::Left)
    } else if x + extent >= width {
        Some(Side::Right)
    } else {
        None
    }
}

/// The ball served with the given velocity: back at the centre, all else as
/// it was.
pub open spec fn served(ball: Ball, velocity: Velocity) -> Ball {
    Ball { position: Position::origin(), velocity, ..ball }
}

/// Computes [`served`] in place.
pub fn serve(ball: &mut Ball, velocity: Velocity)
    ensures
        *final(ball) == served(*old(ball), velocity),
{
    ball.position = Position::at_origin();
    ball.velocity = velocity;
}

/// Puts a position back at the centre and draws a fresh serve for the
/// velocity: each component plus or minus one, each with even chance.
pub fn reset(position: &mut Position, velocity: &mut Velocity, rng: &mut ThreadRng)
    ensures
        *final(position) == Position::origin(),
        final(velocity).is_serve(),
{
    position.x = 0;
    position.y = 0;
    velocity.regen(rng);
}

/// Ball and score after a look at the left and right ends of the field,
/// where `velocity` is what a serve would draw. A ball that has reached an
/// end gives a point and is served; any other ball changes nothing.
pub open spec fn point_resolved(
    ball: Ball,
    score: Score,
    bounds: WindowBounds,
    velocity: Velocity,
) -> (Ball, Score) {
    match crossing(ball, bounds) {
        Some(side) => (served(ball, velocity), score.awarded(side)),
        None => (ball, score),
    }
}

/// A ball that has reached the left end of the field gives the second
/// player exactly one point, unless the counter is full, and goes back to
/// the centre.
pub proof fn lemma_left_exit_scores(
    ball: Ball,
    score: Score,
    bounds: WindowBounds,
    velocity: Velocity,
)
    requires
        ball.position.x - ball.half_extent <= -(bounds.half_width as int),
        score.p2 < u32::MAX,
    ensures
        point_resolved(ball, score, bounds, velocity).1.p2 == score.p2 + 1,
        point_resolved(ball, score, bounds, velocity).1.p1 == score.p1,
        point_resolved(ball, score, bounds, velocity).0.position == Position::origin(),
{
}

/// A ball that has reached the right end of the field, and not the left
/// one, gives the first player exactly one point, unless the counter is
/// full, and goes back to the centre.
pub proof fn lemma_right_exit_scores(
    ball: Ball,
    score: Score,
    bounds: WindowBounds,
    velocity: Velocity,
)
    requires
        ball.position.x + ball.half_extent >= bounds.half_width,
        ball.position.x - ball.half_extent > -(bounds.half_width as int),
        score.p1 < u32::MAX,
    ensures
        point_resolved(ball, score, bounds, velocity).1.p1 == score.p1 + 1,
        point_resolved(ball, score, bounds, velocity).1.p2 == score.p2,
        point_resolved(ball, score, bounds, velocity).0.position == Position::origin(),
{
}

/// A ball within the field scores nothing and stays as it is.
pub proof fn lemma_no_exit_no_point(
    ball: Ball,
    score: Score,
    bounds: WindowBounds,
    velocity: Velocity,
)
    requires
        ball.position.x - ball.half_extent > -(bounds.half_width as int),
        ball.position.x + ball.half_extent < bounds.half_width,
    ensures
        point_resolved(ball, score, bounds, velocity) == (ball, score),
{
}

/// Computes [`point_resolved`] in place, with the serve handed in.
pub fn score_point(ball: &mut Ball, score: &mut Score, bounds: &WindowBounds, velocity: Velocity)
    ensures
        (*final(ball), *final(score)) == point_resolved(*old(ball), *old(score), *bounds, velocity),
{
    match crossed_side(ball, bounds) {
        Some(side) => {
            serve(ball, velocity);
            score.award(side);
        },
        None => {},
    }
}

/// Gives a point and serves the ball where it has reached the left or the
/// right end of the field. The serve is drawn at random, and only then.
pub fn check_for_point(
    ball: &mut Ball,
    score: &mut Score,
    bounds: &WindowBounds,
    rng: &mut ThreadRng,
)
    ensures
        (*final(ball), *final(score)) == point_resolved(
            *old(ball),
            *old(score),
            *bounds,
            final(ball).velocity,
        ),
        crossing(*old(ball), *bounds) is Some ==> final(ball).velocity.is_serve(),
{
    match crossed_side(ball, bounds) {
        Some(side) => {
            reset(&mut ball.position, &mut ball.velocity, rng);
            score.award(side);
        },
        None => {},
    }
}

} // verus!
