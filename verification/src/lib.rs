//! Langton's ant: a two-state cellular automaton on a bounded grid.
//!
//! The library holds the automaton core: a grid of binary cells, an agent
//! with a position and a heading, and the per-tick transition rule. A driver
//! outside the library repeatedly calls [`Automaton::step`] and renders the
//! outcome; the core knows nothing of screens, keyboards or time.

mod automaton;
mod direction;
mod grid;
mod state;

pub use automaton::Automaton;
pub use automaton::RenderHint;
pub use automaton::StepOutcome;
pub use direction::Direction;
pub use grid::AntError;
pub use grid::Grid;
pub use state::State;
