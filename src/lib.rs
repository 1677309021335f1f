//! A terminal snake game, split into a verified model and a thin terminal front end.
//!
//! `geometry` holds grid points and directions, `game` the board state and its
//! step function, and `session` the decisions of the frame loop (resizing,
//! keys, pause and the simulation tick) as a state machine. `lemmas` states
//! and proves the laws that every step obeys.
pub mod game;
pub mod geometry;
pub mod lemmas;
mod random;
pub mod session;

pub use game::{Cell, Game, GameView};
pub use geometry::{Direction, Point};
pub use session::{Key, Overlay, Response, Session, SessionView};
