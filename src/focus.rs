//! Which screen region receives the region-scoped keys.
use vstd::prelude::*;

verus! {

/// The region that has the keyboard focus.
///
/// The regions form a cycle in declaration order; the focus-advance key moves
/// to the next one and wraps from `Search` back to `MusicList`.
#[derive(Clone, Copy, PartialEq, Eq, Structural, Debug)]
pub enum CursorState {
    MusicList,
    Volume,
    Control,
    Search,
}

impl CursorState {
    /// The region that follows this one in the focus cycle.
    pub open spec fn successor(self) -> CursorState {
        match self {
            CursorState::MusicList => CursorState::Volume,
            CursorState::Volume => CursorState::Control,
            CursorState::Control => CursorState::Search,
            CursorState::Search => CursorState::MusicList,
        }
    }

    /// Advances the focus to the next region, wrapping around after the last.
    pub fn overflowing_next(&mut self)
        ensures
            *final(self) == old(self).successor(),
    {
        *self = match *self {
            CursorState::MusicList => CursorState::Volume,
            CursorState::Volume => CursorState::Control,
            CursorState::Control => CursorState::Search,
            CursorState::Search => CursorState::MusicList,
        };
    }
}

impl Default for CursorState {
    /// A session starts with the track list focused.
    fn default() -> (r: Self)
        ensures
            r == CursorState::MusicList,
    {
        CursorState::MusicList
    }
}

} // verus!
