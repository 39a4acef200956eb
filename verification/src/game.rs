//! The match as a whole, and the order in which one tick works through it.
use vstd::prelude::*;
use rand::rngs::ThreadRng;
use crate::ball::{
    advanced, check_for_paddle_collision, check_for_wall_bounce, paddles_resolved, touches_wall,
    update_ball, wall_resolved, Ball,
};
use crate::geometry::{Position, WindowBounds};
use crate::paddle::{
    all_moved, all_placed, move_paddle, update_to_screensize, Keys, Paddle, PaddleDimensions,
};
use crate::point::{check_for_point, crossing, point_resolved, score_point, served};
use crate::score::Score;
use crate::speed::{
    update_ball_speed_multiplier, SpeedMultiplier, BALL_SPEED_MULTIPLIER_INCREASE_PER_MICROSECOND,
};
use crate::velocity::Velocity;

verus! {

/// Everything that a match holds: the one ball, the paddles, the score, the
/// bounds of the field and the ball's speed multiplier.
#[derive(Debug)]
pub struct Game {
    pub ball: Ball,
    pub paddles: Vec<Paddle>,
    pub dimensions: PaddleDimensions,
    pub score: Score,
    pub bounds: WindowBounds,
    pub multiplier: SpeedMultiplier,
}

/// A match as contracts see it.
pub struct GameState {
    pub ball: Ball,
    pub paddles: Seq<Paddle>,
    pub dimensions: PaddleDimensions,
    pub score: Score,
    pub bounds: WindowBounds,
    pub multiplier: SpeedMultiplier,
}

impl View for Game {
    type V = GameState;

    open spec fn view(&self) -> GameState {
        GameState {
            ball: self.ball,
            paddles: self.paddles@,
            dimensions: self.dimensions,
            score: self.score,
            bounds: self.bounds,
            multiplier: self.multiplier,
        }
    }
}

/// A match before its first tick: the ball at the centre with the given
/// velocity and no extent yet, the paddle of player 0 and the paddle of
/// player 1 at the centre, no points, and a speed multiplier of one.
pub open spec fn opening(bounds: WindowBounds, velocity: Velocity) -> GameState {
    GameState {
        ball: Ball::fresh(velocity, 0),
        paddles: seq![
            Paddle { player: 0, position: Position::origin() },
            Paddle { player: 1, position: Position::origin() },
        ],
        dimensions: PaddleDimensions::standard(),
        score: Score::zero(),
        bounds,
        multiplier: SpeedMultiplier::one(),
    }
}

/// A match up to the look at the ends of the field: the multiplier has
/// grown, the paddles have moved and stand at their sides, and the ball has
/// travelled at the new speed and met the walls.
pub open spec fn before_point(state: GameState, keys: Keys, dt: u32) -> GameState {
    let multiplier = state.multiplier.ramped(dt as nat);
    GameState {
        ball: wall_resolved(advanced(state.ball, multiplier, dt), state.bounds),
        paddles: all_placed(all_moved(state.paddles, keys, dt, state.bounds), state.bounds),
        multiplier,
        ..state
    }
}

/// A match after a tick of `dt` microseconds, where `serve` is the velocity
/// that a serve would draw: after [`before_point`] a ball at an end of the
/// field gives a point and is served, and last the ball meets the paddles.
pub open spec fn ticked(state: GameState, keys: Keys, dt: u32, serve: Velocity) -> GameState {
    let reached = before_point(state, keys, dt);
    let (ball, score) = point_resolved(reached.ball, reached.score, reached.bounds, serve);
    GameState {
        ball: paddles_resolved(ball, reached.paddles, reached.dimensions),
        score,
        ..reached
    }
}

/// After a tick the wall contact says whether the ball is at a wall. A tick
/// that serves the ball is left out where the ball was at a wall and the
/// centre is not, or the other way round: the serve moves the ball and
/// leaves the contact as it was.
pub proof fn lemma_wall_contact_after_tick(state: GameState, keys: Keys, dt: u32, serve: Velocity)
    requires
        ({
            let reached = before_point(state, keys, dt);
            crossing(reached.ball, reached.bounds) is Some ==> touches_wall(
                reached.ball,
                reached.bounds,
            ) == touches_wall(served(reached.ball, serve), reached.bounds)
        }),
    ensures
        ticked(state, keys, dt, serve).ball.wall_contact == touches_wall(
            ticked(state, keys, dt, serve).ball,
            ticked(state, keys, dt, serve).bounds,
        ),
{
}

/// A tick leaves the bounds and the paddles' dimensions alone, takes no
/// point away, and lets the speed multiplier only grow.
pub proof fn lemma_tick_keeps_and_grows(state: GameState, keys: Keys, dt: u32, serve: Velocity)
    ensures
        ticked(state, keys, dt, serve).bounds == state.bounds,
        ticked(state, keys, dt, serve).dimensions == state.dimensions,
        ticked(state, keys, dt, serve).paddles.len() == state.paddles.len(),
        ticked(state, keys, dt, serve).score.p1 >= state.score.p1,
        ticked(state, keys, dt, serve).score.p2 >= state.score.p2,
        ticked(state, keys, dt, serve).multiplier.steps >= state.multiplier.steps,
{
    let rate = BALL_SPEED_MULTIPLIER_INCREASE_PER_MICROSECOND as int;
    assert(0 <= rate * (dt as nat)) by (nonlinear_arith)
        requires
            0 <= rate,
    ;
}

impl Game {
    /// Sets up the match of [`opening`].
    pub fn new(bounds: WindowBounds, velocity: Velocity) -> (game: Game)
        ensures
            game@ == opening(bounds, velocity),
    {
        let mut paddles: Vec<Paddle> = Vec::new();
        paddles.push(Paddle { player: 0, position: Position::at_origin() });
        paddles.push(Paddle { player: 1, position: Position::at_origin() });
        let game = Game {
            ball: Ball::new(velocity, 0),
            paddles,
            dimensions: PaddleDimensions::default(),
            score: Score::default(),
            bounds,
            multiplier: SpeedMultiplier::initial(),
        };
        assert(game@.paddles =~= opening(bounds, velocity).paddles);
        game
    }

    /// Sets up a match whose first serve is drawn at random.
    pub fn setup(bounds: WindowBounds, rng: &mut ThreadRng) -> (game: Game)
        ensures
            game@ == opening(bounds, game.ball.velocity),
            game.ball.velocity.is_serve(),
    {
        let velocity = Velocity::from_random(rng);
        Game::new(bounds, velocity)
    }

    /// The part of a tick that comes before the look at the ends of the
    /// field.
    fn advance(&mut self, keys: &Keys, dt: u32)
        ensures
            final(self)@ == before_point(old(self)@, *keys, dt),
    {
        update_ball_speed_multiplier(&mut self.multiplier, dt);
        move_paddle(&mut self.paddles, keys, dt, &self.bounds);
        update_to_screensize(&mut self.paddles, &self.bounds);
        update_ball(&mut self.ball, &self.multiplier, dt);
        check_for_wall_bounce(&mut self.ball, &self.bounds);
    }

    /// Runs one tick of `dt` microseconds with the serve handed in: where
    /// the ball scores in this tick it is served with `serve`.
    pub fn tick_with(&mut self, keys: &Keys, dt: u32, serve: Velocity)
        ensures
            final(self)@ == ticked(old(self)@, *keys, dt, serve),
    {
        self.advance(keys, dt);
        score_point(&mut self.ball, &mut self.score, &self.bounds, serve);
        check_for_paddle_collision(&mut self.ball, &self.paddles, &self.dimensions);
    }

    /// Runs one tick of `dt` microseconds. Where the ball scores in this
    /// tick its serve is drawn at random.
    pub fn tick(&mut self, keys: &Keys, dt: u32, rng: &mut ThreadRng)
        ensures
            exists|serve: Velocity|
                serve.is_serve() && final(self)@ == #[trigger] ticked(old(self)@, *keys, dt, serve),
    {
        self.advance(keys, dt);
        let ghost reached = self@;
        check_for_point(&mut self.ball, &mut self.score, &self.bounds, rng);
        let ghost serve = if crossing(reached.ball, reached.bounds) is Some {
            self.ball.velocity
        } else {
            Velocity { x: 1, y: 1 }
        };
        check_for_paddle_collision(&mut self.ball, &self.paddles, &self.dimensions);
        assert(self@ == ticked(old(self)@, *keys, dt, serve));
    }
}

} // verus!
