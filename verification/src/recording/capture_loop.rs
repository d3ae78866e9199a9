//! The loop of the capture task.
//!
//! Each turn the loop first looks at the stop flag and only then waits for
//! audio, and never longer than a short timeout, so that a stop is seen
//! soon even when no audio arrives. Once the stop is seen no new audio is
//! admitted: the capture session is ended and what is already queued is
//! taken without waiting. Then the loop ends and hands its samples over.

use vstd::prelude::*;

verus! {

/// The longest that one wait for audio lasts, in milliseconds.
pub const RECEIVE_TIMEOUT_MS: u64 = 50;

/// The shortest time between two level notifications, in milliseconds.
pub const LEVEL_INTERVAL_MS: u64 = 33;

/// Where the loop is.
#[derive(Debug, Clone, Copy, PartialEq, Eq, Structural)]
pub enum LoopPhase {
    /// Audio is admitted.
    Running,
    /// The stop was seen; what is queued is taken.
    Draining,
    /// The loop has ended.
    Finished,
}

/// What the loop does next.
#[derive(Debug, Clone, Copy, PartialEq, Eq, Structural)]
pub enum LoopAction {
    /// Wait for the next chunk, at most this many milliseconds.
    Receive(u64),
    /// End the capture session if that was not done, then take the next
    /// queued chunk without waiting.
    Drain,
    /// Leave the loop and hand the samples over.
    Finish,
}

/// What a wait for audio brought.
#[derive(Debug, Clone, PartialEq, Eq)]
pub enum Received {
    /// A chunk of samples.
    Chunk(Vec<i16>),
    /// Nothing: the wait timed out, or nothing was queued.
    Nothing,
    /// The sending side is gone.
    Disconnected,
}

/// The view of `Received`.
pub enum ReceivedView {
    Chunk(Seq<i16>),
    Nothing,
    Disconnected,
}

impl View for Received {
    type V = ReceivedView;

    open spec fn view(&self) -> ReceivedView {
        match self {
            Received::Chunk(c) => ReceivedView::Chunk(c@),
            Received::Nothing => ReceivedView::Nothing,
            Received::Disconnected => ReceivedView::Disconnected,
        }
    }
}

/// The state of the loop as a mathematical value.
pub struct LoopState {
    pub phase: LoopPhase,
    pub samples: Seq<i16>,
    pub last_level_ms: u64,
}

/// The action for a state and the stop flag as just read.
pub open spec fn action_for(phase: LoopPhase, stop_requested: bool) -> LoopAction {
    match phase {
        LoopPhase::Running => if stop_requested {
            LoopAction::Drain
        } else {
            LoopAction::Receive(RECEIVE_TIMEOUT_MS)
        },
        LoopPhase::Draining => LoopAction::Drain,
        LoopPhase::Finished => LoopAction::Finish,
    }
}

/// The phase after the stop flag was read.
pub open spec fn phase_after_look(phase: LoopPhase, stop_requested: bool) -> LoopPhase {
    if phase == LoopPhase::Running && stop_requested {
        LoopPhase::Draining
    } else {
        phase
    }
}

/// Whether a chunk that arrives now is due a level notification.
pub open spec fn level_due_at(state: LoopState, now_ms: u64) -> bool {
    state.phase == LoopPhase::Running && now_ms >= state.last_level_ms && now_ms
        - state.last_level_ms >= LEVEL_INTERVAL_MS
}

/// The state after a wait for audio brought `received` at `now_ms`.
pub open spec fn after_received(state: LoopState, received: ReceivedView, now_ms: u64) -> LoopState {
    match state.phase {
        LoopPhase::Running => match received {
            ReceivedView::Chunk(c) => LoopState {
                phase: LoopPhase::Running,
                samples: state.samples + c,
                last_level_ms: if level_due_at(state, now_ms) {
                    now_ms
                } else {
                    state.last_level_ms
                },
            },
            ReceivedView::Nothing => state,
            ReceivedView::Disconnected => LoopState { phase: LoopPhase::Finished, ..state },
        },
        LoopPhase::Draining => match received {
            ReceivedView::Chunk(c) => LoopState { samples: state.samples + c, ..state },
            ReceivedView::Nothing => LoopState { phase: LoopPhase::Finished, ..state },
            ReceivedView::Disconnected => LoopState { phase: LoopPhase::Finished, ..state },
        },
        LoopPhase::Finished => state,
    }
}

/// The loop of one capture task: its phase, the samples collected so far
/// and the time of the last level notification.
pub struct CaptureLoop {
    phase: LoopPhase,
    buffer: Vec<i16>,
    last_level_ms: u64,
}

impl View for CaptureLoop {
    type V = LoopState;

    closed spec fn view(&self) -> LoopState {
        LoopState { phase: self.phase, samples: self.buffer@, last_level_ms: self.last_level_ms }
    }
}

impl CaptureLoop {
    /// The loop at its start: running, with no samples, the level clock
    /// set to now.
    pub fn begin(now_ms: u64) -> (l: Self)
        ensures
            l@ == (LoopState {
                phase: LoopPhase::Running,
                samples: Seq::empty(),
                last_level_ms: now_ms,
            }),
    {
        CaptureLoop { phase: LoopPhase::Running, buffer: Vec::new(), last_level_ms: now_ms }
    }

    /// Decides the next action from the stop flag as just read.
    ///
    /// A loop that sees the flag set does not wait for audio again: it
    /// drains, and ends when the queue is empty.
    pub fn next_action(&mut self, stop_requested: bool) -> (action: LoopAction)
        ensures
            action == action_for(old(self)@.phase, stop_requested),
            final(self)@ == (LoopState {
                phase: phase_after_look(old(self)@.phase, stop_requested),
                ..old(self)@
            }),
            stop_requested ==> !(action is Receive),
            action is Receive ==> action == LoopAction::Receive(RECEIVE_TIMEOUT_MS),
            action is Receive ==> final(self)@.phase == LoopPhase::Running,
    {
        match self.phase {
            LoopPhase::Running => {
                if stop_requested {
                    self.phase = LoopPhase::Draining;
                    LoopAction::Drain
                } else {
                    LoopAction::Receive(RECEIVE_TIMEOUT_MS)
                }
            },
            LoopPhase::Draining => LoopAction::Drain,
            LoopPhase::Finished => LoopAction::Finish,
        }
    }

    /// Whether a chunk that arrives now is due a level notification: the
    /// loop is running and the last notification is at least
    /// `LEVEL_INTERVAL_MS` ago.
    pub fn level_due(&self, now_ms: u64) -> (due: bool)
        ensures
            due == level_due_at(self@, now_ms),
    {
        match self.phase {
            LoopPhase::Running => now_ms >= self.last_level_ms && now_ms - self.last_level_ms
                >= LEVEL_INTERVAL_MS,
            _ => false,
        }
    }

    /// Takes in what a wait for audio brought.
    ///
    /// A chunk is appended while the loop has not ended. Returns whether
    /// a level notification is due for that chunk; if so the level clock
    /// is set to now.
    pub fn on_received(&mut self, received: Received, now_ms: u64) -> (notify: bool)
        ensures
            final(self)@ == after_received(old(self)@, received@, now_ms),
            notify == (received is Chunk && level_due_at(old(self)@, now_ms)),
    {
        match self.phase {
            LoopPhase::Running => match received {
                Received::Chunk(mut chunk) => {
                    let due: bool = self.level_due(now_ms);
                    self.buffer.append(&mut chunk);
                    if due {
                        self.last_level_ms = now_ms;
                    }
                    due
                },
                Received::Nothing => false,
                Received::Disconnected => {
                    self.phase = LoopPhase::Finished;
                    false
                },
            },
            LoopPhase::Draining => match received {
                Received::Chunk(mut chunk) => {
                    self.buffer.append(&mut chunk);
                    false
                },
                Received::Nothing => {
                    self.phase = LoopPhase::Finished;
                    false
                },
                Received::Disconnected => {
                    self.phase = LoopPhase::Finished;
                    false
                },
            },
            LoopPhase::Finished => false,
        }
    }

    /// Whether the loop has ended.
    pub fn is_finished(&self) -> (b: bool)
        ensures
            b == (self@.phase == LoopPhase::Finished),
    {
        match self.phase {
            LoopPhase::Finished => true,
            _ => false,
        }
    }

    /// The number of samples collected so far.
    pub fn sample_count(&self) -> (n: usize)
        ensures
            n == self@.samples.len(),
    {
        self.buffer.len()
    }

    /// Ends the loop's life and hands the samples over.
    pub fn into_samples(self) -> (samples: Vec<i16>)
        ensures
            samples@ == self@.samples,
    {
        self.buffer
    }
}

/// Once the stop flag has been seen, the loop never again waits for
/// audio, whatever arrives and whatever the flag reads later.
pub proof fn lemma_no_wait_after_stop(state: LoopState, received: ReceivedView, now_ms: u64, later_flag: bool)
    requires
        state.phase != LoopPhase::Running,
    ensures
        after_received(state, received, now_ms).phase != LoopPhase::Running,
        !(action_for(after_received(state, received, now_ms).phase, later_flag) is Receive),
        phase_after_look(state.phase, later_flag) != LoopPhase::Running,
{
}

/// A chunk is never lost while the loop has not ended, and nothing but
/// chunks adds samples: what the loop holds after a wait is what it held
/// before, followed by the chunk if one came.
pub proof fn lemma_samples_only_grow(state: LoopState, received: ReceivedView, now_ms: u64)
    ensures
        after_received(state, received, now_ms).samples == if state.phase != LoopPhase::Finished {
            match received {
                ReceivedView::Chunk(c) => state.samples + c,
                _ => state.samples,
            }
        } else {
            state.samples
        },
{
}

} // verus!
