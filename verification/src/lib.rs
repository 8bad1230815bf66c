//! Rules engine for a five-by-five shogi variant in which every piece that
//! moves converts into its paired alternate form, and captured pieces join
//! one of four grouped reserve categories for later placement.

pub mod board;
pub mod coord;
pub mod engine;
pub mod kinds;
pub mod parser;
pub mod render;
pub mod rules;

pub use board::Board;
pub use coord::Column;
pub use coord::Coord;
pub use coord::Row;
pub use engine::State;
pub use engine::StateOrVictory;
pub use engine::apply_movement;
pub use engine::apply_parachute;
pub use engine::initial_state;
pub use kinds::Captured;
pub use kinds::Profession;
pub use kinds::Side;
pub use parser::M;
pub use parser::Movement;
pub use parser::parse_coord;
pub use parser::parse_movement;
pub use render::render_board;
pub use render::render_state;
pub use rules::validate_move_legality;
