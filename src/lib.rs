//! Presentation state for one player's viewport in a falling-block puzzle game.
//!
//! The library folds the game engine's event stream into what a viewport shows:
//! its own copy of the board, the phase of the current piece, running statistics,
//! fading banners for the last attack and combo, and the sound cues to start.
//! Rendering is a pure function from that state to a description of the frame.
pub mod piece;
pub mod lock;
pub mod statistics;
pub mod board;
pub mod fade;
pub mod player;
pub mod frame;
