//! The state machine that hotkey events drive.

use vstd::prelude::*;

verus! {

/// How the hotkey controls recording.
#[derive(Debug, Clone, Copy, PartialEq, Eq, Structural)]
pub enum InputMode {
    /// Hold to record, release to transcribe.
    PushToTalk,
    /// Press to start, press again to stop.
    Toggle,
}

/// Where a cycle is, as the hotkey sees it.
#[derive(Debug, Clone, Copy, PartialEq, Eq, Structural)]
pub enum RecordingState {
    Idle,
    Recording,
    Processing,
}

/// The state after the key went down.
pub open spec fn after_key_down(mode: InputMode, state: RecordingState) -> RecordingState {
    match mode {
        InputMode::PushToTalk => if state == RecordingState::Idle {
            RecordingState::Recording
        } else {
            state
        },
        InputMode::Toggle => match state {
            RecordingState::Idle => RecordingState::Recording,
            RecordingState::Recording => RecordingState::Processing,
            RecordingState::Processing => RecordingState::Processing,
        },
    }
}

/// The state after the key went up.
pub open spec fn after_key_up(mode: InputMode, state: RecordingState) -> RecordingState {
    match mode {
        InputMode::PushToTalk => if state == RecordingState::Recording {
            RecordingState::Processing
        } else {
            state
        },
        InputMode::Toggle => state,
    }
}

/// Follows a recording cycle through the hotkey's events.
pub struct HotkeyManager {
    pub mode: InputMode,
    pub state: RecordingState,
}

impl HotkeyManager {
    /// A manager in the given mode, idle.
    pub fn new(mode: InputMode) -> (m: Self)
        ensures
            m.mode == mode,
            m.state == RecordingState::Idle,
    {
        HotkeyManager { mode, state: RecordingState::Idle }
    }

    /// Takes a key-down event and returns the new state.
    ///
    /// Push-to-talk starts recording from idle and ignores the event
    /// otherwise. Toggle starts recording from idle, ends it while
    /// recording, and ignores the event while processing.
    pub fn on_key_down(&mut self) -> (s: RecordingState)
        ensures
            final(self).mode == old(self).mode,
            final(self).state == after_key_down(old(self).mode, old(self).state),
            s == final(self).state,
    {
        match self.mode {
            InputMode::PushToTalk => {
                if self.state == RecordingState::Idle {
                    self.state = RecordingState::Recording;
                }
            },
            InputMode::Toggle => {
                self.state = match self.state {
                    RecordingState::Idle => RecordingState::Recording,
                    RecordingState::Recording => RecordingState::Processing,
                    RecordingState::Processing => RecordingState::Processing,
                };
            },
        }
        self.state
    }

    /// Takes a key-up event and returns the new state.
    ///
    /// Push-to-talk ends recording; toggle does not react to key-up.
    pub fn on_key_up(&mut self) -> (s: RecordingState)
        ensures
            final(self).mode == old(self).mode,
            final(self).state == after_key_up(old(self).mode, old(self).state),
            s == final(self).state,
    {
        match self.mode {
            InputMode::PushToTalk => {
                if self.state == RecordingState::Recording {
                    self.state = RecordingState::Processing;
                }
            },
            InputMode::Toggle => {},
        }
        self.state
    }

    /// Marks processing as complete: the manager is idle again.
    pub fn on_processing_complete(&mut self)
        ensures
            final(self).mode == old(self).mode,
            final(self).state == RecordingState::Idle,
    {
        self.state = RecordingState::Idle;
    }
}

/// While processing, no key event changes the state: only completion
/// leads back to idle.
pub proof fn lemma_processing_ignores_keys(mode: InputMode)
    ensures
        after_key_down(mode, RecordingState::Processing) == RecordingState::Processing,
        after_key_up(mode, RecordingState::Processing) == RecordingState::Processing,
{
}

} // verus!
