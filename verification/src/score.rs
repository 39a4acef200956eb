//! The score of the match and where it is shown.
use vstd::prelude::*;
use crate::geometry::{Position, WindowBounds};

verus! {

/// Distance from the top of the window down to the centre of a score.
pub const SCORE_OFFSET_FROM_TOP: u32 = 125_000;

/// A side of the play-field.
#[derive(Clone, Copy, Debug, PartialEq, Eq, Structural)]
pub enum Side {
    Left,
    Right,
}

/// The points of the two players. A counter only ever grows, and stays at
/// the largest count once it has reached it.
#[derive(Clone, Copy, Debug, PartialEq, Eq, Structural)]
pub struct Score {
    pub p1: u32,
    pub p2: u32,
}

/// A counter with one point more.
pub open spec fn incremented(points: u32) -> u32 {
    if points == u32::MAX {
        u32::MAX
    } else {
        (points + 1) as u32
    }
}

impl Score {
    /// The score at the start of a match.
    pub open spec fn zero() -> Score {
        Score { p1: 0, p2: 0 }
    }

    /// The score after the ball left the field on `side`: a ball that leaves
    /// on the left is a point for the second player, one that leaves on the
    /// right a point for the first.
    pub open spec fn awarded(self, side: Side) -> Score {
        match side {
            Side::Left => Score { p1: self.p1, p2: incremented(self.p2) },
            Side::Right => Score { p1: incremented(self.p1), p2: self.p2 },
        }
    }

    /// The counter that the score display of `player_id` shows, if it shows
    /// any: display 0 shows the first player's points, display 1 the second
    /// player's.
    pub open spec fn shown(self, player_id: u8) -> Option<u32> {
        if player_id == 0 {
            Some(self.p1)
        } else if player_id == 1 {
            Some(self.p2)
        } else {
            None
        }
    }

    /// Computes [`Score::awarded`] in place.
    pub fn award(&mut self, side: Side)
        ensures
            *final(self) == old(self).awarded(side),
    {
        match side {
            Side::Left => {
                self.p2 = self.p2.saturating_add(1);
            },
            Side::Right => {
                self.p1 = self.p1.saturating_add(1);
            },
        }
    }

    /// Computes [`Score::shown`]: the number to write into the display of
    /// `player_id`, or `None` where the display keeps its text.
    pub fn update_score_text(&self, player_id: u8) -> (points: Option<u32>)
        ensures
            points == self.shown(player_id),
    {
        if player_id == 0 {
            Some(self.p1)
        } else if player_id == 1 {
            Some(self.p2)
        } else {
            None
        }
    }
}

impl Default for Score {
    fn default() -> (score: Score)
        ensures
            score == Score::zero(),
    {
        Score { p1: 0, p2: 0 }
    }
}

/// Where the score display of `player_id` stands: a quarter of the window's
/// width from the centre and a fixed distance below the top. Display 1
/// stands on the left, every other on the right.
pub open spec fn score_position(player_id: u8, bounds: WindowBounds) -> Position {
    Position {
        x: if player_id == 1 {
            -((bounds.half_width / 2) as int) as i64
        } else {
            (bounds.half_width / 2) as i64
        },
        y: (bounds.half_height - SCORE_OFFSET_FROM_TOP) as i64,
    }
}

/// Computes [`score_position`].
pub fn update_score_position(player_id: u8, bounds: &WindowBounds) -> (position: Position)
    ensures
        position == score_position(player_id, *bounds),
{
    let quarter = (bounds.half_width / 2) as i64;
    Position {
        x: if player_id == 1 {
            -quarter
        } else {
            quarter
        },
        y: bounds.half_height as i64 - SCORE_OFFSET_FROM_TOP as i64,
    }
}

} // verus!
