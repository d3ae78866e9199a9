//! Which application gets the text.
//!
//! The application that was in front when the user began is looked up
//! while this application's own windows may already have taken the focus.
//! So the system is asked repeatedly, for a bounded time, until it names an
//! application other than this one. What was found when recording began is
//! kept for the delivery; where nothing was kept, delivery looks again.

use vstd::prelude::*;
use vstd::string::StringExecFns;
use crate::error::{AppError, AppErrorView, prefixed};
use crate::text::cloned_text;
use crate::recording::outcome::text_view;

verus! {

/// How long the look at the start of a recording lasts.
pub const START_WINDOW_MS: u64 = 500;

/// The interval between looks at the start of a recording.
pub const START_POLL_MS: u64 = 25;

/// How long a look before a direct insertion or a preview lasts.
pub const INSERT_WINDOW_MS: u64 = 800;

/// The interval between looks before a direct insertion or a preview.
pub const INSERT_POLL_MS: u64 = 40;

/// How long a look lasts when a preview is applied.
pub const APPLY_WINDOW_MS: u64 = 1200;

/// The interval between looks when a preview is applied.
pub const APPLY_POLL_MS: u64 = 50;

/// A bounded wait: its length and the interval between looks.
#[derive(Debug, Clone, Copy, PartialEq, Eq, Structural)]
pub struct FocusPolicy {
    pub timeout_ms: u64,
    pub interval_ms: u64,
}

/// The wait before a direct insertion or a preview.
pub open spec fn insert_policy() -> FocusPolicy {
    FocusPolicy { timeout_ms: INSERT_WINDOW_MS, interval_ms: INSERT_POLL_MS }
}

/// The wait when a preview is applied.
pub open spec fn apply_policy() -> FocusPolicy {
    FocusPolicy { timeout_ms: APPLY_WINDOW_MS, interval_ms: APPLY_POLL_MS }
}

/// Whether a name that the system gave at the start of a recording or for
/// a preview is a target: it is not empty and not this application's.
pub open spec fn is_target(candidate: Seq<char>, own: Seq<char>) -> bool {
    candidate.len() > 0 && candidate != own
}

/// What a look gave, as a target or nothing.
pub open spec fn target_in(observed: Option<Seq<char>>, own: Seq<char>) -> Option<Seq<char>> {
    match observed {
        Some(c) => if is_target(c, own) {
            Some(c)
        } else {
            None
        },
        None => None,
    }
}

/// What a look during a settling wait gave: there any name other than
/// this application's counts.
pub open spec fn other_in(observed: Option<Seq<char>>, own: Seq<char>) -> Option<Seq<char>> {
    match observed {
        Some(c) => if c != own {
            Some(c)
        } else {
            None
        },
        None => None,
    }
}

/// Judges one look: the name that the system gave is the target if it is
/// not empty and not this application's own.
pub fn judge_look(observed: Option<String>, own: &str) -> (target: Option<String>)
    ensures
        text_view(target) == target_in(text_view(observed), own@),
{
    match observed {
        Some(c) => {
            if c.as_str().is_empty() || c.as_str().eq(own) {
                None
            } else {
                Some(c)
            }
        },
        None => None,
    }
}

/// What a wait does after a look.
#[derive(Debug, Clone, PartialEq, Eq)]
pub enum FocusStep {
    /// This application is the target.
    Found(String),
    /// The time is up: there is no target.
    GiveUp,
    /// Sleep this many milliseconds and look again.
    Sleep(u64),
}

/// A step as a mathematical value.
pub enum FocusStepView {
    Found(Seq<char>),
    GiveUp,
    Sleep(u64),
}

impl View for FocusStep {
    type V = FocusStepView;

    open spec fn view(&self) -> FocusStepView {
        match self {
            FocusStep::Found(t) => FocusStepView::Found(t@),
            FocusStep::GiveUp => FocusStepView::GiveUp,
            FocusStep::Sleep(ms) => FocusStepView::Sleep(*ms),
        }
    }
}

/// Whether the look at the start of a recording goes on: it does while
/// less than `START_WINDOW_MS` have passed.
pub fn start_window_open(elapsed_ms: u64) -> (open: bool)
    ensures
        open == (elapsed_ms < START_WINDOW_MS),
{
    elapsed_ms < START_WINDOW_MS
}

/// The step after a look at the start of a recording.
pub open spec fn start_step(observed: Option<Seq<char>>, own: Seq<char>) -> FocusStepView {
    match target_in(observed, own) {
        Some(t) => FocusStepView::Found(t),
        None => FocusStepView::Sleep(START_POLL_MS),
    }
}

/// One look at the start of a recording, made while the window is open:
/// the first target ends the wait, anything else is followed by a sleep.
/// When the window has closed without a target, nothing is kept.
pub fn start_look(observed: Option<String>, own: &str) -> (step: FocusStep)
    ensures
        step@ == start_step(text_view(observed), own@),
{
    match judge_look(observed, own) {
        Some(t) => FocusStep::Found(t),
        None => FocusStep::Sleep(START_POLL_MS),
    }
}

/// The step after a look during a settling wait.
pub open spec fn settle_step(
    observed: Option<Seq<char>>,
    own: Seq<char>,
    elapsed_ms: u64,
    policy: FocusPolicy,
) -> FocusStepView {
    match other_in(observed, own) {
        Some(t) => FocusStepView::Found(t),
        None => if elapsed_ms >= policy.timeout_ms {
            FocusStepView::GiveUp
        } else {
            FocusStepView::Sleep(policy.interval_ms)
        },
    }
}

/// One look during a settling wait. The wait always looks at least once:
/// a name other than this application's ends it, else it gives up once
/// the time is up, else it sleeps and looks again.
pub fn settle_look(observed: Option<String>, own: &str, elapsed_ms: u64, policy: FocusPolicy) -> (step:
    FocusStep)
    ensures
        step@ == settle_step(text_view(observed), own@, elapsed_ms, policy),
{
    match observed {
        Some(c) => {
            if !c.as_str().eq(own) {
                return FocusStep::Found(c);
            }
        },
        None => {},
    }
    if elapsed_ms >= policy.timeout_ms {
        FocusStep::GiveUp
    } else {
        FocusStep::Sleep(policy.interval_ms)
    }
}

/// A settling wait that never sees another application gives up, never
/// later than the look after `timeout_ms / interval_ms` sleeps, as long as
/// each sleep lasts at least the interval.
///
/// `looks` holds the time since the wait began at each look.
pub proof fn lemma_settling_is_bounded(policy: FocusPolicy, own: Seq<char>, looks: Seq<u64>)
    requires
        policy.interval_ms > 0,
        looks.len() > policy.timeout_ms / policy.interval_ms + 1,
        forall|k: int| 0 < k < looks.len() ==> #[trigger] looks[k] >= looks[k - 1] + policy.interval_ms,
    ensures
        exists|k: int|
            0 <= k <= policy.timeout_ms / policy.interval_ms + 1 && #[trigger] settle_step(
                None,
                own,
                looks[k],
                policy,
            ) == FocusStepView::GiveUp,
{
    let last = (policy.timeout_ms / policy.interval_ms) as int + 1;
    crate::recording::waits::lemma_clock_advances(looks, policy.interval_ms as int, last);
    let t = policy.timeout_ms as int;
    let i = policy.interval_ms as int;
    assert(last * i >= t) by (nonlinear_arith)
        requires
            last == t / i + 1,
            i > 0,
            t >= 0,
    ;
    assert(settle_step(None, own, looks[last], policy) == FocusStepView::GiveUp);
}

/// Why an application could not be brought to the front.
#[derive(Debug, Clone, Copy, PartialEq, Eq, Structural)]
pub enum ActivationFailure {
    /// Its name could not be handed to the system.
    NameNotBuilt,
    /// The system does not know of running applications.
    NoApplicationClass,
    /// The system gave no list of running applications.
    NoApplicationList,
    /// The application is not running.
    NotRunning,
    /// The running application could not be had.
    NoInstance,
    /// The system refused to bring it to the front.
    Refused,
}

/// The message for a failed activation of `target`.
pub open spec fn activation_failure_text(failure: ActivationFailure, target: Seq<char>) -> Seq<
    char,
> {
    match failure {
        ActivationFailure::NameNotBuilt => "Failed to build bundle id string"@,
        ActivationFailure::NoApplicationClass => "NSRunningApplication class not found"@,
        ActivationFailure::NoApplicationList => "No running applications array returned"@,
        ActivationFailure::NotRunning => "Target app not running: "@ + target,
        ActivationFailure::NoInstance => "Failed to get target app instance"@,
        ActivationFailure::Refused => "Failed to activate app: "@ + target,
    }
}

/// The error for a failed activation of `target`. A delivery logs it and
/// goes on.
pub fn activation_error(failure: ActivationFailure, target: &str) -> (e: AppError)
    ensures
        e@ == AppErrorView::TextInsertion(activation_failure_text(failure, target@)),
{
    let text: String = match failure {
        ActivationFailure::NameNotBuilt => String::from_str("Failed to build bundle id string"),
        ActivationFailure::NoApplicationClass => String::from_str(
            "NSRunningApplication class not found",
        ),
        ActivationFailure::NoApplicationList => String::from_str(
            "No running applications array returned",
        ),
        ActivationFailure::NotRunning => prefixed("Target app not running: ", target),
        ActivationFailure::NoInstance => String::from_str("Failed to get target app instance"),
        ActivationFailure::Refused => prefixed("Failed to activate app: ", target),
    };
    AppError::TextInsertion(text)
}

/// How the target of a delivery is found.
#[derive(Debug, Clone, PartialEq, Eq)]
pub enum Resolution {
    /// It is known.
    Known(String),
    /// Look once, as at the start of a recording; if that gives no target,
    /// wait with this policy.
    LookThenWait(FocusPolicy),
    /// Wait with this policy.
    Wait(FocusPolicy),
}

/// A resolution as a mathematical value.
pub enum ResolutionView {
    Known(Seq<char>),
    LookThenWait(FocusPolicy),
    Wait(FocusPolicy),
}

impl View for Resolution {
    type V = ResolutionView;

    open spec fn view(&self) -> ResolutionView {
        match self {
            Resolution::Known(t) => ResolutionView::Known(t@),
            Resolution::LookThenWait(p) => ResolutionView::LookThenWait(*p),
            Resolution::Wait(p) => ResolutionView::Wait(*p),
        }
    }
}

/// The targets kept for one cycle: one from the start of the recording,
/// one from the opening of the preview. Each is found on its own.
pub struct TargetSlots {
    recording: Option<String>,
    preview: Option<String>,
}

impl TargetSlots {
    /// The target kept at the start of the recording.
    pub closed spec fn recording(&self) -> Option<Seq<char>> {
        text_view(self.recording)
    }

    /// The target kept when the preview opened.
    pub closed spec fn preview(&self) -> Option<Seq<char>> {
        text_view(self.preview)
    }

    /// No targets.
    pub fn new() -> (s: Self)
        ensures
            s.recording() is None,
            s.preview() is None,
    {
        TargetSlots { recording: None, preview: None }
    }

    /// Keeps what the look at the start of a recording gave, a target or
    /// nothing.
    pub fn set_recording(&mut self, target: Option<String>)
        ensures
            final(self).recording() == text_view(target),
            final(self).preview() == old(self).preview(),
    {
        self.recording = target;
    }

    /// Keeps what was found when the preview opened.
    pub fn set_preview(&mut self, target: Option<String>)
        ensures
            final(self).preview() == text_view(target),
            final(self).recording() == old(self).recording(),
    {
        self.preview = target;
    }

    /// Forgets both targets: the cycle is over.
    pub fn clear(&mut self)
        ensures
            final(self).recording() is None,
            final(self).preview() is None,
    {
        self.recording = None;
        self.preview = None;
    }

    /// How a direct insertion finds its target: the one kept at the start
    /// of the recording unless that is this application itself, else a
    /// wait.
    pub fn for_insert(&self, own: &str) -> (r: Resolution)
        ensures
            r@ == match self.recording() {
                Some(t) => if t != own@ {
                    ResolutionView::Known(t)
                } else {
                    ResolutionView::Wait(insert_policy())
                },
                None => ResolutionView::Wait(insert_policy()),
            },
    {
        match &self.recording {
            Some(t) => {
                if !t.as_str().eq(own) {
                    return Resolution::Known(t.clone());
                }
            },
            None => {},
        }
        Resolution::Wait(FocusPolicy { timeout_ms: INSERT_WINDOW_MS, interval_ms: INSERT_POLL_MS })
    }

    /// How the opening of a preview finds its target: the one kept at the
    /// start of the recording, else one look, else a wait.
    pub fn for_preview_open(&self) -> (r: Resolution)
        ensures
            r@ == match self.recording() {
                Some(t) => ResolutionView::Known(t),
                None => ResolutionView::LookThenWait(insert_policy()),
            },
    {
        match &self.recording {
            Some(t) => Resolution::Known(t.clone()),
            None => Resolution::LookThenWait(
                FocusPolicy { timeout_ms: INSERT_WINDOW_MS, interval_ms: INSERT_POLL_MS },
            ),
        }
    }

    /// How applying a preview finds its target: the one kept when the
    /// preview opened, else a longer wait, for the closing preview window
    /// competes for the focus.
    pub fn for_preview_apply(&self) -> (r: Resolution)
        ensures
            r@ == match self.preview() {
                Some(t) => ResolutionView::Known(t),
                None => ResolutionView::Wait(apply_policy()),
            },
    {
        match &self.preview {
            Some(t) => Resolution::Known(t.clone()),
            None => Resolution::Wait(
                FocusPolicy { timeout_ms: APPLY_WINDOW_MS, interval_ms: APPLY_POLL_MS },
            ),
        }
    }

    /// A copy of the target kept when the preview opened.
    pub fn preview_target(&self) -> (t: Option<String>)
        ensures
            text_view(t) == self.preview(),
    {
        cloned_text(&self.preview)
    }

    /// A copy of the target kept at the start of the recording.
    pub fn recording_target(&self) -> (t: Option<String>)
        ensures
            text_view(t) == self.recording(),
    {
        cloned_text(&self.recording)
    }
}

} // verus!
