//! The one session of the process.
//!
//! A session is published in two parts: the stop signal when a start is
//! accepted, the handle of the capture task once that task has reported.
//! A stop takes both, in that order, and gets the samples from the task.
//! The slot holds the parts and says in which phase the session is. It is
//! meant to live behind one lock, held for one call at a time.

use vstd::prelude::*;
use vstd::string::StringExecFns;
use crate::error::{AppError, AppErrorView};

verus! {

/// Where a session is in its life.
#[derive(Debug, Clone, Copy, PartialEq, Eq, Structural)]
pub enum Phase {
    /// No session.
    Idle,
    /// A start was accepted; the capture task has not been published.
    Starting,
    /// Signal and task are published; audio is collected.
    Recording,
    /// A stop has taken the signal; the samples have not been handed off.
    Stopping,
}

/// The slot for the session's stop signal (`S`) and task handle (`T`).
pub struct SessionSlot<S, T> {
    stop_signal: Option<S>,
    task: Option<T>,
    draining: bool,
}

impl<S, T> SessionSlot<S, T> {
    /// The stop signal, while it is published and not taken.
    pub closed spec fn signal(&self) -> Option<S> {
        self.stop_signal
    }

    /// The task handle, while it is published and not taken.
    pub closed spec fn task(&self) -> Option<T> {
        self.task
    }

    /// Whether a stop has taken the signal and not finished.
    pub closed spec fn draining(&self) -> bool {
        self.draining
    }

    /// The session's phase.
    pub open spec fn phase(&self) -> Phase {
        if self.draining() {
            Phase::Stopping
        } else if self.signal() is Some {
            if self.task() is Some {
                Phase::Recording
            } else {
                Phase::Starting
            }
        } else if self.task() is Some {
            Phase::Stopping
        } else {
            Phase::Idle
        }
    }

    /// The empty slot.
    pub fn new() -> (slot: Self)
        ensures
            slot.phase() == Phase::Idle,
            slot.signal() is None,
            slot.task() is None,
            !slot.draining(),
    {
        SessionSlot { stop_signal: None, task: None, draining: false }
    }

    /// The phase, for callers that report it.
    pub fn current_phase(&self) -> (p: Phase)
        ensures
            p == self.phase(),
    {
        if self.draining {
            Phase::Stopping
        } else if self.stop_signal.is_some() {
            if self.task.is_some() {
                Phase::Recording
            } else {
                Phase::Starting
            }
        } else if self.task.is_some() {
            Phase::Stopping
        } else {
            Phase::Idle
        }
    }

    /// Accepts a start: publishes the new session's stop signal.
    ///
    /// While a session exists the start is refused with the audio error
    /// `Already recording`, the signal offered is dropped and the slot
    /// stays exactly as it was.
    pub fn begin(&mut self, signal: S) -> (r: Result<(), AppError>)
        ensures
            r is Ok == (old(self).phase() == Phase::Idle),
            r is Ok ==> final(self).signal() == Some(signal) && final(self).task() is None
                && !final(self).draining() && final(self).phase() == Phase::Starting,
            r matches Err(e) ==> e@ == AppErrorView::Audio("Already recording"@) && *final(self)
                == *old(self),
    {
        if self.draining || self.stop_signal.is_some() || self.task.is_some() {
            return Err(AppError::Audio(String::from_str("Already recording")));
        }
        self.stop_signal = Some(signal);
        Ok(())
    }

    /// Publishes the capture task of the session that is starting, or of
    /// one whose stop is already waiting for it.
    ///
    /// Where no session waits for a task (none exists, or it has one) the
    /// task is handed back and the slot stays as it was.
    pub fn publish_task(&mut self, task: T) -> (refused: Option<T>)
        ensures
            refused is None == (old(self).task() is None && old(self).phase() != Phase::Idle),
            refused is None ==> final(self).task() == Some(task) && final(self).signal() == old(
                self,
            ).signal() && final(self).draining() == old(self).draining(),
            refused is None && old(self).phase() == Phase::Starting ==> final(self).phase()
                == Phase::Recording,
            refused matches Some(t) ==> t == task && *final(self) == *old(self),
    {
        if self.task.is_some() || !(self.draining || self.stop_signal.is_some()) {
            return Some(task);
        }
        self.task = Some(task);
        None
    }

    /// Takes the stop signal, if one is published: the stop is accepted
    /// and the session is stopping from here on.
    pub fn take_signal(&mut self) -> (signal: Option<S>)
        ensures
            signal == old(self).signal(),
            final(self).signal() is None,
            final(self).task() == old(self).task(),
            final(self).draining() == (old(self).draining() || signal is Some),
            signal is Some ==> final(self).phase() == Phase::Stopping,
            signal is None ==> *final(self) == *old(self),
    {
        let signal: Option<S> = self.stop_signal.take();
        if signal.is_some() {
            self.draining = true;
        }
        signal
    }

    /// Takes the task handle, if the session is stopping and the handle is
    /// published.
    pub fn take_task(&mut self) -> (task: Option<T>)
        ensures
            task == if old(self).phase() == Phase::Stopping {
                old(self).task()
            } else {
                None
            },
            task is Some ==> final(self).task() is None,
            task is None ==> final(self).task() == old(self).task(),
            final(self).signal() == old(self).signal(),
            final(self).draining() == (old(self).draining() || task is Some),
            old(self).phase() == Phase::Stopping ==> final(self).phase() == Phase::Stopping,
            task is None ==> *final(self) == *old(self),
    {
        if self.draining || self.stop_signal.is_none() {
            let task: Option<T> = self.task.take();
            if task.is_some() {
                self.draining = true;
            }
            task
        } else {
            None
        }
    }

    /// Ends the session: after the samples were handed off, or when a stop
    /// gave up. What is still published is handed back to be dropped.
    pub fn finish(&mut self) -> (left: (Option<S>, Option<T>))
        ensures
            left.0 == old(self).signal(),
            left.1 == old(self).task(),
            final(self).phase() == Phase::Idle,
            final(self).signal() is None,
            final(self).task() is None,
            !final(self).draining(),
    {
        let signal: Option<S> = self.stop_signal.take();
        let task: Option<T> = self.task.take();
        self.draining = false;
        (signal, task)
    }
}

} // verus!
