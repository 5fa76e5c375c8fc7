//! Squares that bounce inside a window: the world state, the physics step that
//! moves and reflects them, the draw commands of a frame, and the decisions of
//! the event loop.

pub mod game;
pub mod physics;
pub mod render;
pub mod spawn;
pub mod world;
