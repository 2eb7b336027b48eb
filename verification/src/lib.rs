//! Playback control for a small video player: the decisions that drive the
//! media pipeline and the window, with their contracts.

pub mod timecode;
pub mod gesture;
pub mod text;
pub mod args;
pub mod uri;
pub mod frame;
pub mod control;
