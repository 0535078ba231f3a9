//! A countdown work timer: the three-phase countdown controller, the playback
//! state machine of each sound channel, and the clock text shown to the user.
//!
//! Time is handed in by the caller as a [`span::Span`] measured on a monotonic
//! clock; the controller answers with the commands that the two sound channels
//! are to receive.

pub mod display;
pub mod music_player;
pub mod span;
pub mod timer;
pub mod volume;
