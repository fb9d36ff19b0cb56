//! A three-by-three board game for one human and one opponent that moves at
//! random, together with the host side of a renderer that shows it on a GPU
//! surface.
//!
//! The library holds the rules and the decisions: the board and when a round
//! is over ([`board`]), the game and what a click does ([`game`]), which
//! instances of a shape are visible and the draw calls that show them
//! ([`shape`], [`mesh`]), what a frame holds and what to do when the surface
//! changes or fails ([`backend`]). It touches neither a window nor a GPU: it
//! takes what the window reports as an [`event::Event`] and answers with an
//! [`event::Request`].

pub mod backend;
pub mod board;
pub mod event;
pub mod game;
pub mod mesh;
mod random;
pub mod shape;

pub use backend::Backend;
pub use board::Cell;
pub use event::HandleEvent;
