//! The rules of a whale's migration across a scrolling sea: how far it has
//! travelled and when it turns round, when birds, fish, ships, icebergs and
//! other whales appear, how birds and whales take an interest in it, and
//! what the weather does.
//!
//! Nothing here draws, plays or reads anything: each function takes the
//! state and what has happened, and gives back the next state and what is
//! to be done. Every quantity (distances, times, speeds, sizes, colours) is
//! a signed fixed-point number with six decimal places, see [`units`], and
//! all arithmetic stops at the ends of the `i64` range instead of wrapping.
//!
//! What is drawn at random comes from [`rng`]. Every function that draws has
//! a companion that takes the draw as an argument and says exactly what
//! follows from it.

pub mod adult_whale;
pub mod animation;
pub mod assets;
pub mod baby_whale;
pub mod bird;
pub mod boid;
pub mod creature;
pub mod day_night_cycle;
pub mod encounters;
pub mod flipper;
pub mod geometry;
pub mod movement;
pub mod player;
pub mod rain;
pub mod rng;
pub mod sfx;
pub mod splash;
pub mod travel;
pub mod units;
pub mod waves;
pub mod window;
