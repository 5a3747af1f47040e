//! Playback session logic for a keyboard-driven terminal audio player.
//!
//! The library holds the decisions of the player: focus cycling between the
//! screen regions, selection and search over the sorted track list, the
//! autoplay rules applied when a track completes, and the volume and seek
//! arithmetic. The playback engine, the terminal and the file system stay
//! outside: the caller reads them into plain values, hands those to a
//! [`session::Session`], and performs the [`session::Command`] it gets back.
use vstd::prelude::*;

pub mod autoplay;
pub mod controls;
pub mod focus;
pub mod search;
pub mod selection;
pub mod session;
pub mod tracks;

verus! {

} // verus!
