//! Chat commands for a voxel-game server: an argument grammar, a fixed
//! registry of commands and the handlers that apply them to the world.

pub mod text;
pub mod number;
pub mod message;
pub mod world;
pub mod args;
pub mod registry;
pub mod handlers;
pub mod clock;
pub mod players;
pub mod spawn;
pub mod dispatch;
pub mod skeleton;
