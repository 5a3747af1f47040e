//! The four autoplay toggles and the rule that decides what a completed track
//! leads to.
use vstd::prelude::*;

verus! {

/// The four independent autoplay toggles. Any combination is allowed.
#[derive(Clone, Copy, PartialEq, Eq, Structural, Debug)]
pub struct AutoplayState {
    /// Start the list over after its last track.
    pub repeat_list: bool,
    /// Replay the current track indefinitely.
    pub repeat: bool,
    /// Continue with the next track of the list.
    pub sequential: bool,
    /// Continue with a random track of the list.
    pub shuffle: bool,
}

/// Names one of the four toggles of an [`AutoplayState`].
#[derive(Clone, Copy, PartialEq, Eq, Structural, Debug)]
pub enum AutoplayFlag {
    RepeatList,
    Repeat,
    Sequential,
    Shuffle,
}

/// What a completed track leads to, before any track index is worked out.
#[derive(Clone, Copy, PartialEq, Eq, Structural, Debug)]
pub enum CompletionRule {
    /// Play the loaded track again, without reloading it.
    Replay,
    /// Load the track that follows the loaded one in the list.
    Advance,
    /// Load a randomly chosen track of the list.
    Shuffle,
    /// Leave the session: nothing is left to play.
    Exit,
    /// Stay idle until the user acts.
    Stay,
}

impl AutoplayState {
    /// The value of one toggle.
    pub open spec fn flag(self, f: AutoplayFlag) -> bool {
        match f {
            AutoplayFlag::RepeatList => self.repeat_list,
            AutoplayFlag::Repeat => self.repeat,
            AutoplayFlag::Sequential => self.sequential,
            AutoplayFlag::Shuffle => self.shuffle,
        }
    }

    /// This state with one toggle flipped and the other three kept.
    pub open spec fn toggled(self, f: AutoplayFlag) -> AutoplayState {
        match f {
            AutoplayFlag::RepeatList => AutoplayState { repeat_list: !self.repeat_list, ..self },
            AutoplayFlag::Repeat => AutoplayState { repeat: !self.repeat, ..self },
            AutoplayFlag::Sequential => AutoplayState { sequential: !self.sequential, ..self },
            AutoplayFlag::Shuffle => AutoplayState { shuffle: !self.shuffle, ..self },
        }
    }

    /// The rule that a completed track triggers: the first toggle that is set
    /// among repeat, sequential and shuffle wins, in that order; with none set
    /// the session exits if it was told to leave when idle, and stays otherwise.
    pub open spec fn rule_spec(self, exit_when_idle: bool) -> CompletionRule {
        if self.repeat {
            CompletionRule::Replay
        } else if self.sequential {
            CompletionRule::Advance
        } else if self.shuffle {
            CompletionRule::Shuffle
        } else if exit_when_idle {
            CompletionRule::Exit
        } else {
            CompletionRule::Stay
        }
    }

    /// Reads one toggle.
    pub fn get(&self, f: AutoplayFlag) -> (r: bool)
        ensures
            r == self.flag(f),
    {
        match f {
            AutoplayFlag::RepeatList => self.repeat_list,
            AutoplayFlag::Repeat => self.repeat,
            AutoplayFlag::Sequential => self.sequential,
            AutoplayFlag::Shuffle => self.shuffle,
        }
    }

    /// Flips one toggle, leaving the other three as they were.
    pub fn toggle(&mut self, f: AutoplayFlag)
        ensures
            *final(self) == old(self).toggled(f),
    {
        match f {
            AutoplayFlag::RepeatList => self.repeat_list = !self.repeat_list,
            AutoplayFlag::Repeat => self.repeat = !self.repeat,
            AutoplayFlag::Sequential => self.sequential = !self.sequential,
            AutoplayFlag::Shuffle => self.shuffle = !self.shuffle,
        }
    }

    /// Decides which rule a completed track triggers.
    pub fn completion_rule(&self, exit_when_idle: bool) -> (r: CompletionRule)
        ensures
            r == self.rule_spec(exit_when_idle),
    {
        if self.repeat {
            CompletionRule::Replay
        } else if self.sequential {
            CompletionRule::Advance
        } else if self.shuffle {
            CompletionRule::Shuffle
        } else if exit_when_idle {
            CompletionRule::Exit
        } else {
            CompletionRule::Stay
        }
    }
}

impl Default for AutoplayState {
    /// All four toggles off.
    fn default() -> (r: Self)
        ensures
            !r.repeat_list && !r.repeat && !r.sequential && !r.shuffle,
    {
        AutoplayState { repeat_list: false, repeat: false, sequential: false, shuffle: false }
    }
}

/// Flipping the same toggle twice gives back the state one started from.
pub proof fn lemma_toggle_twice(s: AutoplayState, f: AutoplayFlag)
    ensures
        s.toggled(f).toggled(f) == s,
        s.toggled(f).flag(f) == !s.flag(f),
{
}

} // verus!
