//! The delivery protocol.
//!
//! The text is put on the clipboard first, so that it is never lost. Then
//! the two permissions that a simulated keystroke needs are checked; where
//! one is missing the system is asked for it once and both are checked
//! again after a settling delay. The paste keystroke is tried through
//! event injection and, if that fails, through scripting. Only where both
//! permissions were granted and a keystroke was reported sent is the old
//! clipboard content put back and the delivery called automatic. In every
//! other case the text stays on the clipboard for the user to paste.
//!
//! The protocol is a state machine: the caller performs each action and
//! reports what came of it.

use vstd::prelude::*;
use vstd::string::StringExecFns;
use crate::error::{AppError, AppErrorView, prefixed};
use crate::recording::outcome::text_view;

verus! {

/// The delay after the clipboard was set, in milliseconds.
pub const CLIPBOARD_SETTLE_MS: u64 = 50;

/// The delay after the system was asked for a permission.
pub const PERMISSION_SETTLE_MS: u64 = 200;

/// The delay after the keystroke was sent.
pub const PASTE_SETTLE_MS: u64 = 200;

/// Where a delivery is.
#[derive(Debug, Clone, Copy, PartialEq, Eq, Structural)]
pub enum Stage {
    Start,
    ReadingClipboard,
    WritingClipboard,
    SettlingAfterWrite,
    Checking,
    Requesting,
    SettlingAfterRequest,
    Rechecking,
    Injecting,
    Scripting,
    SettlingAfterPaste,
    Restoring,
    Finished,
}

/// What the caller does next.
#[derive(Debug, Clone, PartialEq, Eq)]
pub enum Action {
    /// Read the clipboard and report what it holds.
    ReadClipboard,
    /// Put this text on the clipboard.
    WriteClipboard(String),
    /// Wait this many milliseconds.
    Settle(u64),
    /// Report whether the process is trusted for accessibility and
    /// whether it may post events.
    CheckPermissions,
    /// Ask the system for the permissions named.
    RequestPermissions { accessibility: bool, post_event: bool },
    /// Send the paste keystroke through event injection.
    InjectPaste,
    /// Send the paste keystroke through scripting.
    ScriptPaste,
    /// Put this earlier content back on the clipboard; a failure to do so
    /// is not reported.
    RestoreClipboard(String),
    /// The delivery is over: `true` where it was automatic, `false` where
    /// the text waits on the clipboard.
    Finish(bool),
    /// The delivery failed.
    Fail(AppError),
}

/// An action as a mathematical value.
pub enum ActionView {
    ReadClipboard,
    WriteClipboard(Seq<char>),
    Settle(u64),
    CheckPermissions,
    RequestPermissions { accessibility: bool, post_event: bool },
    InjectPaste,
    ScriptPaste,
    RestoreClipboard(Seq<char>),
    Finish(bool),
    Fail(AppErrorView),
}

impl View for Action {
    type V = ActionView;

    open spec fn view(&self) -> ActionView {
        match self {
            Action::ReadClipboard => ActionView::ReadClipboard,
            Action::WriteClipboard(t) => ActionView::WriteClipboard(t@),
            Action::Settle(ms) => ActionView::Settle(*ms),
            Action::CheckPermissions => ActionView::CheckPermissions,
            Action::RequestPermissions { accessibility, post_event } => {
                ActionView::RequestPermissions {
                    accessibility: *accessibility,
                    post_event: *post_event,
                }
            },
            Action::InjectPaste => ActionView::InjectPaste,
            Action::ScriptPaste => ActionView::ScriptPaste,
            Action::RestoreClipboard(t) => ActionView::RestoreClipboard(t@),
            Action::Finish(b) => ActionView::Finish(*b),
            Action::Fail(e) => ActionView::Fail(e@),
        }
    }
}

/// Why the clipboard could not be written.
#[derive(Debug, Clone, PartialEq, Eq)]
pub enum ClipboardFailure {
    /// The tool that sets the clipboard could not be started.
    Start(String),
    /// The text could not be handed to it.
    Write(String),
    /// It did not end in order.
    Wait(String),
}

/// What came of the last action.
#[derive(Debug, Clone, PartialEq, Eq)]
pub enum Event {
    /// The clipboard was read: its content, if it could be read.
    ClipboardRead(Option<String>),
    /// The clipboard was written, or could not be.
    ClipboardWritten(Option<ClipboardFailure>),
    /// The wait is over.
    Settled,
    /// The permissions as the system reports them.
    Permissions { trusted: bool, post_event: bool },
    /// The system was asked.
    Requested,
    /// Event injection reported the keystroke as sent, or failed.
    Injected(bool),
    /// Scripting reported the keystroke as sent, or failed.
    Scripted(bool),
    /// The earlier content was put back, or the attempt was made.
    Restored,
}

/// An event as a mathematical value.
pub enum EventView {
    ClipboardRead(Option<Seq<char>>),
    /// The message of the failure, if there was one.
    ClipboardWritten(Option<Seq<char>>),
    Settled,
    Permissions { trusted: bool, post_event: bool },
    Requested,
    Injected(bool),
    Scripted(bool),
    Restored,
}

impl View for Event {
    type V = EventView;

    open spec fn view(&self) -> EventView {
        match self {
            Event::ClipboardRead(c) => EventView::ClipboardRead(text_view(*c)),
            Event::ClipboardWritten(r) => EventView::ClipboardWritten(
                match r {
                    None => None,
                    Some(failure) => Some(clipboard_failure_text(*failure)),
                },
            ),
            Event::Settled => EventView::Settled,
            Event::Permissions { trusted, post_event } => EventView::Permissions {
                trusted: *trusted,
                post_event: *post_event,
            },
            Event::Requested => EventView::Requested,
            Event::Injected(ok) => EventView::Injected(*ok),
            Event::Scripted(ok) => EventView::Scripted(*ok),
            Event::Restored => EventView::Restored,
        }
    }
}

/// A delivery as a mathematical value.
pub struct DeliveryView {
    pub stage: Stage,
    /// The text to deliver.
    pub text: Seq<char>,
    /// What the clipboard held before.
    pub saved: Option<Seq<char>>,
    /// Whether both permissions were granted at the last check.
    pub granted: bool,
    /// Whether a keystroke was reported sent.
    pub pasted: bool,
}

/// The message of the error for an event that does not answer the action
/// that was asked for.
pub open spec fn out_of_turn_text() -> Seq<char> {
    "Delivery step reported out of turn"@
}

/// The message for a clipboard that could not be written.
pub open spec fn clipboard_failure_text(failure: ClipboardFailure) -> Seq<char> {
    match failure {
        ClipboardFailure::Start(cause) => "Failed to set clipboard: "@ + cause@,
        ClipboardFailure::Write(cause) => "Failed to write to clipboard: "@ + cause@,
        ClipboardFailure::Wait(cause) => "pbcopy failed: "@ + cause@,
    }
}

/// The message for a clipboard that could not be written.
pub fn clipboard_failure_message(failure: &ClipboardFailure) -> (m: String)
    ensures
        m@ == clipboard_failure_text(*failure),
{
    match failure {
        ClipboardFailure::Start(cause) => prefixed("Failed to set clipboard: ", cause.as_str()),
        ClipboardFailure::Write(cause) => prefixed(
            "Failed to write to clipboard: ",
            cause.as_str(),
        ),
        ClipboardFailure::Wait(cause) => prefixed("pbcopy failed: ", cause.as_str()),
    }
}

/// The action that ends a delivery whose keystroke has had its time.
pub open spec fn verdict(d: DeliveryView) -> ActionView {
    if d.pasted && d.granted {
        match d.saved {
            Some(earlier) => ActionView::RestoreClipboard(earlier),
            None => ActionView::Finish(true),
        }
    } else {
        ActionView::Finish(false)
    }
}

/// The state and the action that follow an event.
pub open spec fn next(d: DeliveryView, event: EventView) -> (DeliveryView, ActionView) {
    let failed = (
        DeliveryView { stage: Stage::Finished, ..d },
        ActionView::Fail(AppErrorView::TextInsertion(out_of_turn_text())),
    );
    match (d.stage, event) {
        (Stage::ReadingClipboard, EventView::ClipboardRead(held)) => (
            DeliveryView { stage: Stage::WritingClipboard, saved: held, ..d },
            ActionView::WriteClipboard(d.text),
        ),
        (Stage::WritingClipboard, EventView::ClipboardWritten(None)) => (
            DeliveryView { stage: Stage::SettlingAfterWrite, ..d },
            ActionView::Settle(CLIPBOARD_SETTLE_MS),
        ),
        (Stage::WritingClipboard, EventView::ClipboardWritten(Some(message))) => (
            DeliveryView { stage: Stage::Finished, ..d },
            ActionView::Fail(AppErrorView::TextInsertion(message)),
        ),
        (Stage::SettlingAfterWrite, EventView::Settled) => (
            DeliveryView { stage: Stage::Checking, ..d },
            ActionView::CheckPermissions,
        ),
        (Stage::Checking, EventView::Permissions { trusted, post_event }) => if trusted
            && post_event {
            (DeliveryView { stage: Stage::Injecting, granted: true, ..d }, ActionView::InjectPaste)
        } else {
            (
                DeliveryView { stage: Stage::Requesting, granted: false, ..d },
                ActionView::RequestPermissions {
                    accessibility: !trusted,
                    post_event: !post_event,
                },
            )
        },
        (Stage::Requesting, EventView::Requested) => (
            DeliveryView { stage: Stage::SettlingAfterRequest, ..d },
            ActionView::Settle(PERMISSION_SETTLE_MS),
        ),
        (Stage::SettlingAfterRequest, EventView::Settled) => (
            DeliveryView { stage: Stage::Rechecking, ..d },
            ActionView::CheckPermissions,
        ),
        (Stage::Rechecking, EventView::Permissions { trusted, post_event }) => (
            DeliveryView { stage: Stage::Injecting, granted: trusted && post_event, ..d },
            ActionView::InjectPaste,
        ),
        (Stage::Injecting, EventView::Injected(sent)) => if sent {
            (
                DeliveryView { stage: Stage::SettlingAfterPaste, pasted: true, ..d },
                ActionView::Settle(PASTE_SETTLE_MS),
            )
        } else {
            (DeliveryView { stage: Stage::Scripting, ..d }, ActionView::ScriptPaste)
        },
        (Stage::Scripting, EventView::Scripted(sent)) => (
            DeliveryView { stage: Stage::SettlingAfterPaste, pasted: sent, ..d },
            ActionView::Settle(PASTE_SETTLE_MS),
        ),
        (Stage::SettlingAfterPaste, EventView::Settled) => {
            let act = verdict(d);
            (
                DeliveryView {
                    stage: if act is RestoreClipboard {
                        Stage::Restoring
                    } else {
                        Stage::Finished
                    },
                    ..d
                },
                act,
            )
        },
        (Stage::Restoring, EventView::Restored) => (
            DeliveryView { stage: Stage::Finished, ..d },
            ActionView::Finish(true),
        ),
        _ => failed,
    }
}

/// One delivery of one text.
pub struct Delivery {
    stage: Stage,
    text: String,
    saved: Option<String>,
    granted: bool,
    pasted: bool,
}

impl View for Delivery {
    type V = DeliveryView;

    closed spec fn view(&self) -> DeliveryView {
        DeliveryView {
            stage: self.stage,
            text: self.text@,
            saved: text_view(self.saved),
            granted: self.granted,
            pasted: self.pasted,
        }
    }
}

impl Delivery {
    /// A delivery of `text`, and its first action: read the clipboard.
    pub fn begin(text: String) -> (started: (Self, Action))
        ensures
            started.0@ == begun(text@),
            started.1@ == ActionView::ReadClipboard,
    {
        (
            Delivery {
                stage: Stage::ReadingClipboard,
                text,
                saved: None,
                granted: false,
                pasted: false,
            },
            Action::ReadClipboard,
        )
    }

    /// Takes what came of the last action and gives the next.
    ///
    /// An event that does not answer the last action ends the delivery
    /// with an error.
    pub fn on_event(&mut self, event: Event) -> (action: Action)
        ensures
            final(self)@ == next(old(self)@, event@).0,
            action@ == next(old(self)@, event@).1,
    {
        match (self.stage, event) {
            (Stage::ReadingClipboard, Event::ClipboardRead(held)) => {
                self.saved = held;
                self.stage = Stage::WritingClipboard;
                Action::WriteClipboard(self.text.clone())
            },
            (Stage::WritingClipboard, Event::ClipboardWritten(None)) => {
                self.stage = Stage::SettlingAfterWrite;
                Action::Settle(CLIPBOARD_SETTLE_MS)
            },
            (Stage::WritingClipboard, Event::ClipboardWritten(Some(failure))) => {
                self.stage = Stage::Finished;
                Action::Fail(AppError::TextInsertion(clipboard_failure_message(&failure)))
            },
            (Stage::SettlingAfterWrite, Event::Settled) => {
                self.stage = Stage::Checking;
                Action::CheckPermissions
            },
            (Stage::Checking, Event::Permissions { trusted, post_event }) => {
                if trusted && post_event {
                    self.granted = true;
                    self.stage = Stage::Injecting;
                    Action::InjectPaste
                } else {
                    self.granted = false;
                    self.stage = Stage::Requesting;
                    Action::RequestPermissions { accessibility: !trusted, post_event: !post_event }
                }
            },
            (Stage::Requesting, Event::Requested) => {
                self.stage = Stage::SettlingAfterRequest;
                Action::Settle(PERMISSION_SETTLE_MS)
            },
            (Stage::SettlingAfterRequest, Event::Settled) => {
                self.stage = Stage::Rechecking;
                Action::CheckPermissions
            },
            (Stage::Rechecking, Event::Permissions { trusted, post_event }) => {
                self.granted = trusted && post_event;
                self.stage = Stage::Injecting;
                Action::InjectPaste
            },
            (Stage::Injecting, Event::Injected(sent)) => {
                if sent {
                    self.pasted = true;
                    self.stage = Stage::SettlingAfterPaste;
                    Action::Settle(PASTE_SETTLE_MS)
                } else {
                    self.stage = Stage::Scripting;
                    Action::ScriptPaste
                }
            },
            (Stage::Scripting, Event::Scripted(sent)) => {
                self.pasted = sent;
                self.stage = Stage::SettlingAfterPaste;
                Action::Settle(PASTE_SETTLE_MS)
            },
            (Stage::SettlingAfterPaste, Event::Settled) => {
                if self.pasted && self.granted {
                    match &self.saved {
                        Some(earlier) => {
                            let back: String = earlier.clone();
                            self.stage = Stage::Restoring;
                            Action::RestoreClipboard(back)
                        },
                        None => {
                            self.stage = Stage::Finished;
                            Action::Finish(true)
                        },
                    }
                } else {
                    self.stage = Stage::Finished;
                    Action::Finish(false)
                }
            },
            (Stage::Restoring, Event::Restored) => {
                self.stage = Stage::Finished;
                Action::Finish(true)
            },
            _ => {
                self.stage = Stage::Finished;
                Action::Fail(
                    AppError::TextInsertion(
                        String::from_str("Delivery step reported out of turn"),
                    ),
                )
            },
        }
    }

    /// Whether the delivery is over.
    pub fn is_finished(&self) -> (b: bool)
        ensures
            b == (self@.stage == Stage::Finished),
    {
        match self.stage {
            Stage::Finished => true,
            _ => false,
        }
    }
}

/// The clipboard gets the text before anything else is done to the
/// system: the answer to the first action is followed by writing the text,
/// whatever the clipboard held.
pub proof fn lemma_text_reaches_clipboard_first(text: Seq<char>, held: Option<Seq<char>>)
    ensures
        next(begun(text), EventView::ClipboardRead(held)).1 == ActionView::WriteClipboard(text),
{
}

/// The earlier clipboard content is put back, and the delivery called
/// automatic, only where both permissions were granted at the last check
/// and a keystroke was reported sent.
pub proof fn lemma_restore_needs_grant_and_paste(d: DeliveryView, event: EventView)
    requires
        d.stage != Stage::Restoring,
    ensures
        next(d, event).1 is RestoreClipboard ==> d.granted && d.pasted,
        next(d, event).1 == ActionView::Finish(true) ==> d.granted && d.pasted,
{
}

/// A delivery that is restoring was granted and did paste, if it got
/// there by the protocol: whatever leads into that stage had both.
pub proof fn lemma_restoring_is_earned(d: DeliveryView, event: EventView)
    ensures
        next(d, event).0.stage == Stage::Restoring ==> next(d, event).0.granted && next(
            d,
            event,
        ).0.pasted,
{
}

/// A delivery of `text` at its start.
pub open spec fn begun(text: Seq<char>) -> DeliveryView {
    DeliveryView { stage: Stage::ReadingClipboard, text, saved: None, granted: false, pasted: false }
}

/// The actions that a delivery in state `d` gives in answer to a run of
/// events.
pub open spec fn actions_for(d: DeliveryView, events: Seq<EventView>) -> Seq<ActionView>
    decreases events.len(),
{
    if events.len() == 0 {
        Seq::empty()
    } else {
        seq![next(d, events[0]).1] + actions_for(next(d, events[0]).0, events.drop_first())
    }
}

/// Whether an event reports both permissions as granted.
pub open spec fn grants(event: EventView) -> bool {
    event matches EventView::Permissions { trusted, post_event } && trusted && post_event
}

/// Whether an action puts the earlier clipboard content back or calls the
/// delivery automatic.
pub open spec fn claims_paste(action: ActionView) -> bool {
    action is RestoreClipboard || action == ActionView::Finish(true)
}

/// A delivery that has not been granted both permissions, and is not
/// restoring, never restores the clipboard nor ends as automatic while no
/// event grants them.
pub proof fn lemma_ungranted_run_keeps_text(d: DeliveryView, events: Seq<EventView>)
    requires
        !d.granted,
        d.stage != Stage::Restoring,
        forall|i: int| 0 <= i < events.len() ==> !grants(#[trigger] events[i]),
    ensures
        forall|i: int|
            0 <= i < actions_for(d, events).len() ==> !claims_paste(
                #[trigger] actions_for(d, events)[i],
            ),
    decreases events.len(),
{
    if events.len() > 0 {
        let step = next(d, events[0]);
        let rest = events.drop_first();
        assert(!grants(events[0]));
        assert(!step.0.granted);
        assert(step.0.stage != Stage::Restoring);
        assert forall|i: int| 0 <= i < rest.len() implies !grants(#[trigger] rest[i]) by {
            assert(rest[i] == events[i + 1]);
        }
        lemma_ungranted_run_keeps_text(step.0, rest);
        let all = actions_for(d, events);
        let tail = actions_for(step.0, rest);
        assert forall|i: int| 0 <= i < all.len() implies !claims_paste(#[trigger] all[i]) by {
            if i > 0 {
                assert(all[i] == tail[i - 1]);
            }
        }
    }
}

/// Whatever the system answers, a delivery in which the permissions are
/// never both granted leaves the text on the clipboard: from its start to
/// its end no action restores the earlier content, and it does not end as
/// automatic.
pub proof fn lemma_denied_delivery_keeps_text(text: Seq<char>, events: Seq<EventView>)
    requires
        forall|i: int| 0 <= i < events.len() ==> !grants(#[trigger] events[i]),
    ensures
        forall|i: int|
            0 <= i < actions_for(begun(text), events).len() ==> !claims_paste(
                #[trigger] actions_for(begun(text), events)[i],
            ),
{
    lemma_ungranted_run_keeps_text(begun(text), events);
}

/// The text and what the clipboard held before never change once the
/// clipboard has been read.
pub proof fn lemma_text_is_kept(d: DeliveryView, event: EventView)
    ensures
        next(d, event).0.text == d.text,
        d.stage != Stage::ReadingClipboard ==> next(d, event).0.saved == d.saved,
{
}

} // verus!
