//! A small 2D side-scrolling platformer simulation.
//!
//! A player-controlled square accelerates left and right from directional
//! input, jumps, falls under gravity, and collides with axis-aligned platform
//! rectangles.  The world scrolls instead of the player: every "movement" of
//! the player is realized as a displacement of the platforms and of a parallax
//! background offset, so the player sprite stays centred on screen.
//!
//! All quantities are fixed-point integers counting hundredths of a world
//! unit (a tile is 32 units, stored as 3200), so every rule of the simulation
//! is exact and every function is total.  Rendering, asset loading and the
//! windowed event loop are external collaborators and live outside this
//! library; the library exposes the per-frame state they need.

pub mod units;
pub mod geometry;
pub mod player;
pub mod object;
pub mod game;
