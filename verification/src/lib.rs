mod food;
mod game;
mod grid;
mod rng;

pub use game::GameState;
pub use game::TickEvents;
pub use grid::Direction;
pub use grid::Position;
pub use grid::ARENA_HEIGHT;
pub use grid::ARENA_WIDTH;
