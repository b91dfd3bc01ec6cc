//! Core of a Game of Life simulation: a square grid of boolean cells stored
//! as a flat vector, bidirectional index/coordinate mapping, Moore-neighbor
//! counting with hard (non-wrapping) edges, and the synchronous generation
//! step. Rendering and input handling live outside this crate; a driver owns
//! the grid value and calls in once per tick.

pub mod grid;

pub use grid::GRID_SIZE;
pub use grid::OutOfRange;

pub mod coords;
pub mod neighbors;
pub mod seed;
pub mod stepper;

pub use coords::index_to_pos;
pub use coords::pos_to_index;
pub use coords::try_index_to_pos;
pub use coords::try_pos_to_index;
pub use neighbors::count_alive_neighbors;
pub use neighbors::try_count_alive_neighbors;
pub use seed::new_grid;
pub use seed::new_grid_from_draws;
pub use stepper::process_ruleset;
pub use stepper::step;
