//! Simulation core of a grid-based snake game: a discrete-time state
//! machine over buffered directional input, ordered segment movement,
//! random food placement, growth on eating, and collision-triggered
//! game over and reset. Rendering, menus and input sampling are external
//! collaborators that read the state through the narrow interface of
//! [`game::Game`].

pub mod arena;
pub mod food;
pub mod game;
pub mod snake;
