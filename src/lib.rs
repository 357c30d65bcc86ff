//! A small fixed-timestep platformer simulation: a pixel-mask collision oracle,
//! a player, bubbles that burst into splashes, a level portal, and the
//! accumulator that turns frame times into whole simulation ticks.
pub mod fixed;
pub mod raster;
pub mod color;
pub mod level;
pub mod splash;
pub mod bubble;
pub mod player;
pub mod portal;
pub mod game;
