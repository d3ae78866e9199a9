//! What the global shortcut sets going: pressing it keeps the target
//! application and starts a recording, releasing it stops the recording
//! and announces the result.

use vstd::prelude::*;
use crate::error::AppError;
use crate::recording::outcome::{failure_notice, RecordingResult, StatusEvent, StatusKind};

verus! {

/// The shortcut for push-to-talk.
pub const PUSH_TO_TALK_SHORTCUT: &'static str = "alt+space";

/// Where the floating widget stands on the screen.
#[derive(Debug, Clone, Copy, PartialEq, Eq, Structural)]
pub enum WidgetCorner {
    TopLeft,
    TopRight,
    BottomLeft,
    BottomRight,
}

/// The corner that a setting names; the bottom right for any other text.
pub open spec fn corner_named(position: Seq<char>) -> WidgetCorner {
    if position == "top-left"@ {
        WidgetCorner::TopLeft
    } else if position == "top-right"@ {
        WidgetCorner::TopRight
    } else if position == "bottom-left"@ {
        WidgetCorner::BottomLeft
    } else {
        WidgetCorner::BottomRight
    }
}

/// The corner in which the floating widget stands: the one that the
/// setting names, the bottom right where it names none or is absent.
pub fn widget_corner(position: Option<&str>) -> (corner: WidgetCorner)
    ensures
        corner == match position {
            Some(p) => corner_named(p@),
            None => WidgetCorner::BottomRight,
        },
{
    match position {
        Some(p) => {
            if p.eq("top-left") {
                WidgetCorner::TopLeft
            } else if p.eq("top-right") {
                WidgetCorner::TopRight
            } else if p.eq("bottom-left") {
                WidgetCorner::BottomLeft
            } else {
                WidgetCorner::BottomRight
            }
        },
        None => WidgetCorner::BottomRight,
    }
}

/// A step of what a key event sets going.
#[derive(Debug, Clone, Copy, PartialEq, Eq, Structural)]
pub enum ShortcutStep {
    /// Look for the application in front and keep it as the target.
    KeepTarget,
    /// Show the floating widget.
    ShowWidget,
    /// Start a recording.
    StartRecording,
    /// Stop the recording.
    StopRecording,
    /// Hide the floating widget.
    HideWidget,
}

/// What pressing the shortcut sets going: the target is kept before
/// anything of this application can take the focus, the widget is shown
/// where the settings ask for it, then the recording starts.
pub open spec fn pressed_steps(floating_enabled: bool) -> Seq<ShortcutStep> {
    if floating_enabled {
        seq![ShortcutStep::KeepTarget, ShortcutStep::ShowWidget, ShortcutStep::StartRecording]
    } else {
        seq![ShortcutStep::KeepTarget, ShortcutStep::StartRecording]
    }
}

/// Gives the steps that pressing the shortcut sets going.
pub fn on_pressed(floating_enabled: bool) -> (steps: Vec<ShortcutStep>)
    ensures
        steps@ == pressed_steps(floating_enabled),
{
    let mut steps: Vec<ShortcutStep> = Vec::new();
    steps.push(ShortcutStep::KeepTarget);
    if floating_enabled {
        steps.push(ShortcutStep::ShowWidget);
    }
    steps.push(ShortcutStep::StartRecording);
    assert(steps@ =~= pressed_steps(floating_enabled));
    steps
}

/// Gives the steps that releasing the shortcut sets going: the recording
/// is stopped, then the widget is hidden, whatever the stop came to.
pub fn on_released() -> (steps: Vec<ShortcutStep>)
    ensures
        steps@ == seq![ShortcutStep::StopRecording, ShortcutStep::HideWidget],
{
    let mut steps: Vec<ShortcutStep> = Vec::new();
    steps.push(ShortcutStep::StopRecording);
    steps.push(ShortcutStep::HideWidget);
    assert(steps@ =~= seq![ShortcutStep::StopRecording, ShortcutStep::HideWidget]);
    steps
}

/// What is sent to the user interface after a stop.
#[derive(Debug, Clone, PartialEq, Eq)]
pub enum Announcement {
    /// The result of the recording.
    Result(RecordingResult),
    /// An error notice.
    Notice(StatusEvent),
    /// Nothing.
    Nothing,
}

/// Decides what is sent after a stop: a result with a transcript is
/// announced, one without is not, and a failed stop is told as an
/// error.
pub fn announce(stopped: Result<RecordingResult, AppError>) -> (a: Announcement)
    ensures
        match stopped {
            Ok(result) => if result@.text.len() > 0 {
                a matches Announcement::Result(r) && r@ == result@
            } else {
                a is Nothing
            },
            Err(e) => a matches Announcement::Notice(n) && n@ == (
                StatusKind::Error,
                Some(e@.display()),
            ),
        },
{
    match stopped {
        Ok(result) => {
            if result.has_text() {
                Announcement::Result(result)
            } else {
                Announcement::Nothing
            }
        },
        Err(e) => Announcement::Notice(failure_notice(&e)),
    }
}

} // verus!
