//! The ball: how it travels and how it bounces off walls and paddles.
use vstd::prelude::*;
use crate::geometry::{Position, WindowBounds};
use crate::paddle::{Paddle, PaddleDimensions};
use crate::speed::{SpeedMultiplier, MULTIPLIER_ONE};
use crate::units::{lemma_product_bounds, saturate, saturated, MICROS_PER_SECOND};
use crate::velocity::{invert, inverted, Velocity};

verus! {

/// Distance that the ball covers in a second, per unit of its direction, at
/// a speed multiplier of one.
pub const BASE_BALL_SPEED: u32 = 300_000;

/// The ball. `half_extent` is half the side of the square that collisions
/// are tested with. `wall_contact` and `paddle_contact` remember that the
/// ball was in touch at the last look, so that one contact turns the ball
/// round once however long it lasts.
#[derive(Clone, Copy, Debug, PartialEq, Eq, Structural)]
pub struct Ball {
    pub position: Position,
    pub velocity: Velocity,
    pub half_extent: u32,
    pub wall_contact: bool,
    pub paddle_contact: bool,
}

impl Ball {
    /// A ball at the centre of the field, out of touch with everything.
    pub open spec fn fresh(velocity: Velocity, half_extent: u32) -> Ball {
        Ball {
            position: Position::origin(),
            velocity,
            half_extent,
            wall_contact: false,
            paddle_contact: false,
        }
    }

    /// Computes [`Ball::fresh`].
    pub fn new(velocity: Velocity, half_extent: u32) -> (ball: Ball)
        ensures
            ball == Ball::fresh(velocity, half_extent),
    {
        Ball {
            position: Position::at_origin(),
            velocity,
            half_extent,
            wall_contact: false,
            paddle_contact: false,
        }
    }
}

/// Distance that the ball covers per unit of its direction in a tick of `dt`
/// microseconds: base speed times multiplier times time, rounded down to a
/// whole unit.
pub open spec fn reach(multiplier: SpeedMultiplier, dt: u32) -> int {
    (BASE_BALL_SPEED * multiplier.steps * dt) / (MULTIPLIER_ONE * MICROS_PER_SECOND)
}

/// Computes [`reach`].
pub fn ball_reach(multiplier: &SpeedMultiplier, dt: u32) -> (distance: i64)
    ensures
        distance == reach(*multiplier, dt),
        0 <= distance <= 0x4000_0000_0000_0000,
{
    proof {
        lemma_product_bounds(
            BASE_BALL_SPEED as int,
            multiplier.steps as int,
            300_000,
            u64::MAX as int,
        );
    }
    let per_second: u128 = (BASE_BALL_SPEED as u128) * (multiplier.steps as u128);
    proof {
        lemma_product_bounds(
            per_second as int,
            dt as int,
            300_000 * u64::MAX as int,
            u32::MAX as int,
        );
        lemma_product_bounds(
            MULTIPLIER_ONE as int,
            MICROS_PER_SECOND as int,
            10_000_000_000,
            1_000_000,
        );
        lemma_product_bounds(
            10_000_000_000,
            1_000_000,
            MULTIPLIER_ONE as int,
            MICROS_PER_SECOND as int,
        );
    }
    let covered: u128 = per_second * (dt as u128);
    let divisor: u128 = (MULTIPLIER_ONE as u128) * (MICROS_PER_SECOND as u128);
    (covered / divisor) as i64
}

/// A coordinate after the ball has travelled `distance` per unit of the
/// direction component `direction`.
pub open spec fn travelled(coordinate: i64, direction: i32, distance: int) -> i64 {
    saturated(coordinate + direction * distance)
}

/// The ball after a tick of `dt` microseconds in free flight: each
/// coordinate moves by its direction component times the reach, on its own.
pub open spec fn advanced(ball: Ball, multiplier: SpeedMultiplier, dt: u32) -> Ball {
    Ball {
        position: Position {
            x: travelled(ball.position.x, ball.velocity.x, reach(multiplier, dt)),
            y: travelled(ball.position.y, ball.velocity.y, reach(multiplier, dt)),
        },
        ..ball
    }
}

/// Computes [`travelled`].
fn travel(coordinate: i64, direction: i32, distance: i64) -> (r: i64)
    requires
        0 <= distance <= 0x4000_0000_0000_0000,
    ensures
        r == travelled(coordinate, direction, distance as int),
{
    proof {
        if direction >= 0 {
            lemma_product_bounds(
                direction as int,
                distance as int,
                0x8000_0000,
                0x4000_0000_0000_0000,
            );
        } else {
            lemma_product_bounds(
                -(direction as int),
                distance as int,
                0x8000_0000,
                0x4000_0000_0000_0000,
            );
            assert((-(direction as int)) * distance == -(direction * distance))
                by (nonlinear_arith);
        }
    }
    let step: i128 = (direction as i128) * (distance as i128);
    saturate(coordinate as i128 + step)
}

/// Moves the ball for a tick of `dt` microseconds. The direction is taken
/// as it stands and is not brought to unit length.
pub fn update_ball(ball: &mut Ball, multiplier: &SpeedMultiplier, dt: u32)
    ensures
        *final(ball) == advanced(*old(ball), *multiplier, dt),
{
    let distance = ball_reach(multiplier, dt);
    ball.position.x = travel(ball.position.x, ball.velocity.x, distance);
    ball.position.y = travel(ball.position.y, ball.velocity.y, distance);
}

/// Whether the ball's square reaches the top or the bottom of the field.
pub open spec fn touches_wall(ball: Ball, bounds: WindowBounds) -> bool {
    ball.position.y - ball.half_extent <= -(bounds.half_height as int) || ball.position.y
        + ball.half_extent >= bounds.half_height
}

/// The ball with its vertical direction turned round and the wall contact
/// noted.
pub open spec fn bounced_off_wall(ball: Ball) -> Ball {
    Ball {
        velocity: Velocity { x: ball.velocity.x, y: inverted(ball.velocity.y) },
        wall_contact: true,
        ..ball
    }
}

/// The ball after a look at the walls. On the first look that finds it in
/// touch it turns round; while the touch lasts nothing more happens; out of
/// touch the contact is forgotten.
pub open spec fn wall_resolved(ball: Ball, bounds: WindowBounds) -> Ball {
    if touches_wall(ball, bounds) {
        if ball.wall_contact {
            ball
        } else {
            bounced_off_wall(ball)
        }
    } else {
        Ball { wall_contact: false, ..ball }
    }
}

/// Computes [`touches_wall`].
pub fn at_wall(ball: &Ball, bounds: &WindowBounds) -> (touching: bool)
    ensures
        touching == touches_wall(*ball, *bounds),
{
    let y = ball.position.y as i128;
    let extent = ball.half_extent as i128;
    let height = bounds.half_height as i128;
    y - extent <= -height || y + extent >= height
}

/// Lets the ball bounce off the top and the bottom of the field.
pub fn check_for_wall_bounce(ball: &mut Ball, bounds: &WindowBounds)
    ensures
        *final(ball) == wall_resolved(*old(ball), *bounds),
        final(ball).wall_contact == touches_wall(*final(ball), *bounds),
        touches_wall(*old(ball), *bounds) && !old(ball).wall_contact && old(ball).velocity.y
            > i32::MIN ==> final(ball).velocity.y == -old(ball).velocity.y,
{
    if at_wall(ball, bounds) {
        if !ball.wall_contact {
            ball.velocity.y = invert(ball.velocity.y);
            ball.wall_contact = true;
        }
    } else {
        ball.wall_contact = false;
    }
}

/// Whether the ball's square and the paddle's rectangle share more than an
/// edge: on each axis the one begins before the other ends.
pub open spec fn overlaps(ball: Ball, paddle: Paddle, dimensions: PaddleDimensions) -> bool {
    let half_width = dimensions.width / 2;
    let half_height = dimensions.height / 2;
    &&& paddle.position.x - half_width < ball.position.x + ball.half_extent
    &&& paddle.position.x + half_width > ball.position.x - ball.half_extent
    &&& paddle.position.y - half_height < ball.position.y + ball.half_extent
    &&& paddle.position.y + half_height > ball.position.y - ball.half_extent
}

/// Computes [`overlaps`].
pub fn collide_ball_paddle(
    ball: &Ball,
    paddle: &Paddle,
    dimensions: &PaddleDimensions,
) -> (hit: bool)
    ensures
        hit == overlaps(*ball, *paddle, *dimensions),
{
    let half_paddle_x = (dimensions.width / 2) as i128;
    let half_paddle_y = (dimensions.height / 2) as i128;
    let half_ball = ball.half_extent as i128;
    let ball_x = ball.position.x as i128;
    let ball_y = ball.position.y as i128;
    let paddle_x = paddle.position.x as i128;
    let paddle_y = paddle.position.y as i128;
    let collision_x = paddle_x - half_paddle_x < ball_x + half_ball && paddle_x + half_paddle_x
        > ball_x - half_ball;
    let collision_y = paddle_y - half_paddle_y < ball_y + half_ball && paddle_y + half_paddle_y
        > ball_y - half_ball;
    collision_x && collision_y
}

/// Whether the ball overlaps any of the first `count` paddles.
pub open spec fn overlaps_among(
    ball: Ball,
    paddles: Seq<Paddle>,
    dimensions: PaddleDimensions,
    count: int,
) -> bool {
    exists|i: int| 0 <= i < count && i < paddles.len() && overlaps(ball, paddles[i], dimensions)
}

/// Whether the ball overlaps any paddle.
pub open spec fn overlaps_any(
    ball: Ball,
    paddles: Seq<Paddle>,
    dimensions: PaddleDimensions,
) -> bool {
    overlaps_among(ball, paddles, dimensions, paddles.len() as int)
}

/// The ball with its horizontal direction turned round and the paddle
/// contact noted.
pub open spec fn bounced_off_paddle(ball: Ball) -> Ball {
    Ball {
        velocity: Velocity { x: inverted(ball.velocity.x), y: ball.velocity.y },
        paddle_contact: true,
        ..ball
    }
}

/// The ball after a look at the paddles. On the first look that finds it
/// overlapping one it turns round, once even where it overlaps several;
/// while any overlap lasts nothing more happens; clear of all paddles the
/// contact is forgotten.
pub open spec fn paddles_resolved(
    ball: Ball,
    paddles: Seq<Paddle>,
    dimensions: PaddleDimensions,
) -> Ball {
    if overlaps_any(ball, paddles, dimensions) {
        if ball.paddle_contact {
            ball
        } else {
            bounced_off_paddle(ball)
        }
    } else {
        Ball { paddle_contact: false, ..ball }
    }
}

/// Lets the ball bounce off the paddles.
pub fn check_for_paddle_collision(
    ball: &mut Ball,
    paddles: &Vec<Paddle>,
    dimensions: &PaddleDimensions,
)
    ensures
        *final(ball) == paddles_resolved(*old(ball), paddles@, *dimensions),
        final(ball).paddle_contact == overlaps_any(*final(ball), paddles@, *dimensions),
        overlaps_any(*old(ball), paddles@, *dimensions) && !old(ball).paddle_contact && old(
            ball,
        ).velocity.x > i32::MIN ==> final(ball).velocity.x == -old(ball).velocity.x,
{
    let mut just_collided = false;
    let mut i: usize = 0;
    while i < paddles.len()
        invariant
            i <= paddles@.len(),
            just_collided == overlaps_among(*old(ball), paddles@, *dimensions, i as int),
            *ball == if just_collided && !old(ball).paddle_contact {
                bounced_off_paddle(*old(ball))
            } else {
                *old(ball)
            },
        decreases paddles@.len() - i,
    {
        if collide_ball_paddle(ball, &paddles[i], dimensions) {
            if !ball.paddle_contact {
                ball.velocity.x = invert(ball.velocity.x);
                ball.paddle_contact = true;
            }
            just_collided = true;
        }
        i += 1;
    }
    if !just_collided {
        ball.paddle_contact = false;
    }
}

} // verus!
