//! A two-frame avatar driven by microphone loudness.
//!
//! The crate holds the decisions of the avatar: whether a block of audio
//! counts as speech, which of the two prepared frames must be resident in the
//! texture after a tick, and how the two frames are derived from the artwork.
//! Capturing audio and talking to the graphics host are left to the caller.

pub mod detector;
pub mod error;
pub mod pixels;
pub mod presenter;
pub mod bank;
pub mod flag;
pub mod avatar;
