//! Core of a live soundboard: per-clip trigger modes, the registry of clips
//! and the records a scene is persisted as.
//!
//! The crate decides; it never touches a device or a file. Callers hand in
//! what they found on disk and which control was used, and get back what to
//! do with the audio output:
//!
//! - what was found at a path comes in as a [`probe::Probe`]; of a sound
//!   file it holds the bytes and, for containers that the library does not
//!   hand to the decoder itself, the verdict of the caller's decoder;
//! - an input on a clip's control goes to [`board::Board::dispatch`], which
//!   answers with a [`trigger::Action`] to replay on the clip's device
//!   handle;
//! - the board keeps a model of every such handle, the
//!   [`handle::PlaybackHandle`]; a caller whose device handle has run empty
//!   says so with [`board::Board::drained`] before the next event.
//!
//! Volume and pan are integers in thousandths.

pub mod board;
pub mod decode;
pub mod error;
pub mod handle;
pub mod probe;
pub mod scene;
pub mod sound;
pub mod trigger;
