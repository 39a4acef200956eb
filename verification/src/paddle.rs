//! The paddles: their size, their place near the edges of the window, and how
//! the players move them.
use vstd::prelude::*;
use crate::geometry::{Position, WindowBounds};
use crate::units::{lemma_product_bounds, saturate, saturated, MICROS_PER_SECOND};

verus! {

/// Width of a paddle.
pub const PADDLE_WIDTH: u32 = 20_000;

/// Height of a paddle.
pub const PADDLE_HEIGHT: u32 = 160_000;

/// Distance from the side of the window to the centre of a paddle.
pub const PADDLE_OFFSET_FROM_WALL: u32 = 50_000;

/// A paddle crosses three quarters of the window's height in a second:
/// the numerator of that fraction.
pub const PADDLE_SPEED_NUMERATOR: u32 = 3;

/// The denominator of the fraction of the window's height that a paddle
/// crosses in a second.
pub const PADDLE_SPEED_DENOMINATOR: u32 = 4;

/// A paddle. Player 0 plays on the right, every other player on the left.
#[derive(Clone, Copy, Debug, PartialEq, Eq, Structural)]
pub struct Paddle {
    pub player: u8,
    pub position: Position,
}

/// Width and height shared by all paddles.
#[derive(Clone, Copy, Debug, PartialEq, Eq, Structural)]
pub struct PaddleDimensions {
    pub width: u32,
    pub height: u32,
}

impl PaddleDimensions {
    /// The dimensions of the standard paddle.
    pub open spec fn standard() -> PaddleDimensions {
        PaddleDimensions { width: PADDLE_WIDTH, height: PADDLE_HEIGHT }
    }
}

impl Default for PaddleDimensions {
    fn default() -> (dimensions: PaddleDimensions)
        ensures
            dimensions == PaddleDimensions::standard(),
    {
        PaddleDimensions { width: PADDLE_WIDTH, height: PADDLE_HEIGHT }
    }
}

/// Which of the four movement keys are held down.
#[derive(Clone, Copy, Debug, PartialEq, Eq, Structural)]
pub struct Keys {
    pub player_one_up: bool,
    pub player_one_down: bool,
    pub player_two_up: bool,
    pub player_two_down: bool,
}

impl Keys {
    /// Whether the given player holds the key that moves the paddle up.
    pub open spec fn up_held(self, player: u8) -> bool {
        if player == 0 {
            self.player_one_up
        } else {
            self.player_two_up
        }
    }

    /// Whether the given player holds the key that moves the paddle down.
    pub open spec fn down_held(self, player: u8) -> bool {
        if player == 0 {
            self.player_one_down
        } else {
            self.player_two_down
        }
    }
}

/// How far a held key moves a paddle in `dt` microseconds, for a window of
/// the given half height.
pub open spec fn travel(window_half_height: u32, dt: u32) -> int {
    (2 * window_half_height * PADDLE_SPEED_NUMERATOR * dt) / (PADDLE_SPEED_DENOMINATOR
        * MICROS_PER_SECOND)
}

/// Computes [`travel`].
pub fn paddle_travel(window_half_height: u32, dt: u32) -> (distance: i64)
    ensures
        distance == travel(window_half_height, dt),
        0 <= distance <= 0x2000_0000_0000,
{
    let height: u128 = 2 * (window_half_height as u128);
    proof {
        lemma_product_bounds(height as int, PADDLE_SPEED_NUMERATOR as int, 0x2_0000_0000, 3);
    }
    let per_second: u128 = height * (PADDLE_SPEED_NUMERATOR as u128);
    proof {
        lemma_product_bounds(per_second as int, dt as int, 0x6_0000_0000, 0x1_0000_0000);
        lemma_product_bounds(
            PADDLE_SPEED_DENOMINATOR as int,
            MICROS_PER_SECOND as int,
            4,
            1_000_000,
        );
        lemma_product_bounds(
            4,
            1_000_000,
            PADDLE_SPEED_DENOMINATOR as int,
            MICROS_PER_SECOND as int,
        );
    }
    let covered: u128 = per_second * (dt as u128);
    let divisor: u128 = (PADDLE_SPEED_DENOMINATOR as u128) * (MICROS_PER_SECOND as u128);
    (covered / divisor) as i64
}

/// The height at which a paddle centred at `y` comes to rest: inside the
/// window where it reaches past the top or the bottom, `y` itself otherwise.
/// The top is looked at first.
pub open spec fn clamped(y: i64, half_height: u32, window_half_height: u32) -> i64 {
    if y + half_height > window_half_height {
        (window_half_height - half_height) as i64
    } else if y - half_height < -(window_half_height as int) {
        (half_height - window_half_height) as i64
    } else {
        y
    }
}

/// Computes [`clamped`]: a hard stop at the top and the bottom of the window.
pub fn clamp_to_field(y: i64, half_height: u32, window_half_height: u32) -> (r: i64)
    ensures
        r == clamped(y, half_height, window_half_height),
{
    if y as i128 + half_height as i128 > window_half_height as i128 {
        window_half_height as i64 - half_height as i64
    } else if (y as i128 - half_height as i128) < -(window_half_height as i128) {
        half_height as i64 - window_half_height as i64
    } else {
        y
    }
}

/// A paddle that is no taller than the window comes to rest wholly inside
/// it, and one that is inside already stays where it is.
pub proof fn lemma_clamped_stays_in_window(y: i64, half_height: u32, window_half_height: u32)
    requires
        half_height <= window_half_height,
    ensures
        half_height - window_half_height <= clamped(y, half_height, window_half_height)
            <= window_half_height - half_height,
        half_height - window_half_height <= y <= window_half_height - half_height ==> clamped(
            y,
            half_height,
            window_half_height,
        ) == y,
{
}

/// The end of the window that stops a paddle.
#[derive(Clone, Copy, Debug, PartialEq, Eq, Structural)]
pub enum Stop {
    Upper,
    Lower,
}

/// The end of the window that a paddle centred at `y` reaches past, if it
/// reaches past one. The top is looked at first.
pub open spec fn stop_met(y: i64, half_height: u32, window_half_height: u32) -> Option<Stop> {
    if y + half_height > window_half_height {
        Some(Stop::Upper)
    } else if y - half_height < -(window_half_height as int) {
        Some(Stop::Lower)
    } else {
        None
    }
}

/// The height to which the keys carry a paddle in one tick, before the
/// window stops it: raised where its player holds the up key, lowered where
/// its player holds the down key, both where both are held.
pub open spec fn carried(paddle: Paddle, keys: Keys, dt: u32, bounds: WindowBounds) -> i64 {
    let step = travel(bounds.half_height, dt);
    let raised = if keys.up_held(paddle.player) {
        saturated(paddle.position.y + step)
    } else {
        paddle.position.y
    };
    if keys.down_held(paddle.player) {
        saturated(raised - step)
    } else {
        raised
    }
}

/// A paddle after one tick: carried by its player's keys and then stopped
/// at the window's edge.
pub open spec fn moved(paddle: Paddle, keys: Keys, dt: u32, bounds: WindowBounds) -> Paddle {
    Paddle {
        player: paddle.player,
        position: Position {
            x: paddle.position.x,
            y: clamped(carried(paddle, keys, dt, bounds), PADDLE_HEIGHT / 2, bounds.half_height),
        },
    }
}

/// Whatever the keys and however long the tick, a paddle in a window at
/// least as tall as itself ends the tick wholly inside the window, and
/// where it started sideways.
pub proof fn lemma_moved_stays_in_window(paddle: Paddle, keys: Keys, dt: u32, bounds: WindowBounds)
    requires
        PADDLE_HEIGHT / 2 <= bounds.half_height,
    ensures
        PADDLE_HEIGHT / 2 - bounds.half_height <= moved(paddle, keys, dt, bounds).position.y
            <= bounds.half_height - PADDLE_HEIGHT / 2,
        moved(paddle, keys, dt, bounds).position.x == paddle.position.x,
        moved(paddle, keys, dt, bounds).player == paddle.player,
{
}

/// Computes [`carried`].
fn carry(paddle: Paddle, keys: &Keys, dt: u32, bounds: &WindowBounds) -> (y: i64)
    ensures
        y == carried(paddle, *keys, dt, *bounds),
{
    let up = if paddle.player == 0 {
        keys.player_one_up
    } else {
        keys.player_two_up
    };
    let down = if paddle.player == 0 {
        keys.player_one_down
    } else {
        keys.player_two_down
    };
    let step = paddle_travel(bounds.half_height, dt);
    let mut y = paddle.position.y;
    if up {
        y = saturate(y as i128 + step as i128);
    }
    if down {
        y = saturate(y as i128 - step as i128);
    }
    y
}

/// Computes [`moved`] for one paddle.
pub fn move_one(paddle: Paddle, keys: &Keys, dt: u32, bounds: &WindowBounds) -> (r: Paddle)
    ensures
        r == moved(paddle, *keys, dt, *bounds),
{
    let y = clamp_to_field(carry(paddle, keys, dt, bounds), PADDLE_HEIGHT / 2, bounds.half_height);
    Paddle { player: paddle.player, position: Position { x: paddle.position.x, y } }
}

/// Tells which end of the window stops the paddle in a tick of `dt`
/// microseconds, if one does: the paddle is stopped exactly where the keys
/// would carry it past that end.
pub fn stop_reached(
    paddle: Paddle,
    keys: &Keys,
    dt: u32,
    bounds: &WindowBounds,
) -> (stop: Option<Stop>)
    ensures
        stop == stop_met(
            carried(paddle, *keys, dt, *bounds),
            PADDLE_HEIGHT / 2,
            bounds.half_height,
        ),
        stop is None <==> moved(paddle, *keys, dt, *bounds).position.y == carried(
            paddle,
            *keys,
            dt,
            *bounds,
        ),
{
    let y = carry(paddle, keys, dt, bounds) as i128;
    let half_height = (PADDLE_HEIGHT / 2) as i128;
    let window_half_height = bounds.half_height as i128;
    if y + half_height > window_half_height {
        Some(Stop::Upper)
    } else if y - half_height < -window_half_height {
        Some(Stop::Lower)
    } else {
        None
    }
}

/// Every paddle of a sequence after one tick.
pub open spec fn all_moved(
    paddles: Seq<Paddle>,
    keys: Keys,
    dt: u32,
    bounds: WindowBounds,
) -> Seq<Paddle> {
    Seq::new(paddles.len(), |i: int| moved(paddles[i], keys, dt, bounds))
}

/// Moves every paddle by the keys that its player holds, for a tick of `dt`
/// microseconds.
pub fn move_paddle(paddles: &mut Vec<Paddle>, keys: &Keys, dt: u32, bounds: &WindowBounds)
    ensures
        final(paddles)@ == all_moved(old(paddles)@, *keys, dt, *bounds),
{
    let mut i: usize = 0;
    while i < paddles.len()
        invariant
            i <= paddles@.len(),
            paddles@.len() == old(paddles)@.len(),
            forall|j: int| 0 <= j < i ==> paddles@[j] == moved(old(paddles)@[j], *keys, dt, *bounds),
            forall|j: int| i <= j < paddles@.len() ==> paddles@[j] == old(paddles)@[j],
        decreases paddles@.len() - i,
    {
        let next = move_one(paddles[i], keys, dt, bounds);
        paddles.set(i, next);
        i += 1;
    }
}

/// A paddle put at its distance from the side of the window that its player
/// defends.
pub open spec fn placed(paddle: Paddle, bounds: WindowBounds) -> Paddle {
    Paddle {
        player: paddle.player,
        position: Position {
            x: if paddle.player == 0 {
                (bounds.half_width - PADDLE_OFFSET_FROM_WALL) as i64
            } else {
                (PADDLE_OFFSET_FROM_WALL - bounds.half_width) as i64
            },
            y: paddle.position.y,
        },
    }
}

/// Every paddle of a sequence put at its side of the window.
pub open spec fn all_placed(paddles: Seq<Paddle>, bounds: WindowBounds) -> Seq<Paddle> {
    Seq::new(paddles.len(), |i: int| placed(paddles[i], bounds))
}

/// Puts every paddle at its side of a window that may have changed its size.
pub fn update_to_screensize(paddles: &mut Vec<Paddle>, bounds: &WindowBounds)
    ensures
        final(paddles)@ == all_placed(old(paddles)@, *bounds),
{
    let mut i: usize = 0;
    while i < paddles.len()
        invariant
            i <= paddles@.len(),
            paddles@.len() == old(paddles)@.len(),
            forall|j: int| 0 <= j < i ==> paddles@[j] == placed(old(paddles)@[j], *bounds),
            forall|j: int| i <= j < paddles@.len() ==> paddles@[j] == old(paddles)@[j],
        decreases paddles@.len() - i,
    {
        let paddle = paddles[i];
        let offset = if paddle.player == 0 {
            bounds.half_width as i64 - PADDLE_OFFSET_FROM_WALL as i64
        } else {
            PADDLE_OFFSET_FROM_WALL as i64 - bounds.half_width as i64
        };
        paddles.set(
            i,
            Paddle { player: paddle.player, position: Position { x: offset, y: paddle.position.y } },
        );
        i += 1;
    }
}

} // verus!
