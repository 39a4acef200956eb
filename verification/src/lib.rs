//! The simulation core of a two-player Pong match: a ball, two paddles, the
//! walls of the play-field, the score, and a ball speed that rises with time.
//!
//! Every quantity is a whole number. Lengths and coordinates count thousandths
//! of a pixel, a tick's duration counts microseconds, and the speed multiplier
//! counts steps of 1e-10. Sums that leave their type stop at its ends.
pub mod assets;
pub mod ball;
pub mod contact;
pub mod game;
pub mod geometry;
pub mod paddle;
pub mod point;
pub mod score;
pub mod speed;
pub mod units;
pub mod velocity;
