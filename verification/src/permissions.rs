//! The permissions that recording and delivery need, and what is done
//! where one is missing.
//!
//! How the system is asked differs from platform to platform and is the
//! caller's part. The functions without arguments here are the stand-ins
//! for a platform that has no such permissions: everything is granted.

use vstd::prelude::*;
use vstd::string::StringExecFns;
use crate::error::{AppError, AppErrorView};
use crate::recording::outcome::{StatusEvent, StatusKind};
use crate::text::concat3;

verus! {

/// The state of the two permissions, for the user interface.
#[derive(Debug, Clone, PartialEq, Eq)]
pub struct PermissionStatus {
    pub microphone: String,
    pub accessibility: String,
}

/// What the system says of the microphone.
#[derive(Debug, Clone, Copy, PartialEq, Eq, Structural)]
pub enum MicrophoneAccess {
    NotDetermined,
    Restricted,
    Denied,
    Granted,
    Unknown,
}

/// The authorization for the number by which the system reports it.
pub open spec fn access_of_code(code: i64) -> MicrophoneAccess {
    if code == 0 {
        MicrophoneAccess::NotDetermined
    } else if code == 1 {
        MicrophoneAccess::Restricted
    } else if code == 2 {
        MicrophoneAccess::Denied
    } else if code == 3 {
        MicrophoneAccess::Granted
    } else {
        MicrophoneAccess::Unknown
    }
}

/// The word for an authorization.
pub open spec fn access_word(access: MicrophoneAccess) -> Seq<char> {
    match access {
        MicrophoneAccess::NotDetermined => "not_determined"@,
        MicrophoneAccess::Restricted => "restricted"@,
        MicrophoneAccess::Denied => "denied"@,
        MicrophoneAccess::Granted => "granted"@,
        MicrophoneAccess::Unknown => "unknown"@,
    }
}

impl MicrophoneAccess {
    /// The authorization for the number by which the system reports it:
    /// 0 to 3 in the order of the variants, anything else unknown.
    pub fn from_code(code: i64) -> (access: Self)
        ensures
            access == access_of_code(code),
    {
        if code == 0 {
            MicrophoneAccess::NotDetermined
        } else if code == 1 {
            MicrophoneAccess::Restricted
        } else if code == 2 {
            MicrophoneAccess::Denied
        } else if code == 3 {
            MicrophoneAccess::Granted
        } else {
            MicrophoneAccess::Unknown
        }
    }

    /// The word for the authorization.
    pub fn word(&self) -> (w: &'static str)
        ensures
            w@ == access_word(*self),
    {
        match self {
            MicrophoneAccess::NotDetermined => "not_determined",
            MicrophoneAccess::Restricted => "restricted",
            MicrophoneAccess::Denied => "denied",
            MicrophoneAccess::Granted => "granted",
            MicrophoneAccess::Unknown => "unknown",
        }
    }
}

/// The word for the state of the accessibility permissions: granted only
/// where the process is trusted and may post events.
pub fn accessibility_word(trusted: bool, post_event: bool) -> (w: &'static str)
    ensures
        w@ == if trusted && post_event {
            "granted"@
        } else {
            "denied"@
        },
{
    if trusted && post_event {
        "granted"
    } else {
        "denied"
    }
}

/// What a start does about the microphone.
#[derive(Debug, Clone, Copy, PartialEq, Eq, Structural)]
pub enum MicrophoneDecision {
    /// Access is granted: go on.
    Proceed,
    /// The user was never asked: ask now.
    Ask,
    /// Access is refused: tell the user and fail.
    Refuse,
}

/// The decision for a status word.
pub open spec fn decision_for(status: Seq<char>) -> MicrophoneDecision {
    if status == "granted"@ {
        MicrophoneDecision::Proceed
    } else if status == "not_determined"@ {
        MicrophoneDecision::Ask
    } else {
        MicrophoneDecision::Refuse
    }
}

/// Decides what a start does about the microphone, from the word for its
/// authorization.
pub fn microphone_decision(status: &str) -> (decision: MicrophoneDecision)
    ensures
        decision == decision_for(status@),
{
    if status.eq("granted") {
        MicrophoneDecision::Proceed
    } else if status.eq("not_determined") {
        MicrophoneDecision::Ask
    } else {
        MicrophoneDecision::Refuse
    }
}

/// The notice sent where a start is refused for want of the microphone.
pub fn microphone_denied_notice() -> (n: StatusEvent)
    ensures
        n@ == (
            StatusKind::Error,
            Some(
                "Microphone access denied. Please grant permission in System Settings > Privacy > Microphone."@,
            ),
        ),
{
    StatusEvent::error(
        String::from_str(
            "Microphone access denied. Please grant permission in System Settings > Privacy > Microphone.",
        ),
    )
}

/// The error of a start whose request for the microphone was turned down.
pub fn microphone_denied_error() -> (e: AppError)
    ensures
        e@ == AppErrorView::Audio("Microphone access denied"@),
{
    AppError::Audio(String::from_str("Microphone access denied"))
}

/// The error of a start that is refused; it quotes the status.
pub fn microphone_refused_error(status: &str) -> (e: AppError)
    ensures
        e@ == AppErrorView::Audio(
            "Microphone permission "@ + status@
                + ". Open System Settings > Privacy > Microphone."@,
        ),
{
    AppError::Audio(
        concat3(
            "Microphone permission ",
            status,
            ". Open System Settings > Privacy > Microphone.",
        ),
    )
}

/// What a request for the microphone does, from the word for its
/// authorization: where access was denied or is restricted the system's
/// settings are opened and the request counts as turned down, else the
/// system is asked.
pub fn request_opens_settings(status: &str) -> (open: bool)
    ensures
        open == (status@ == "denied"@ || status@ == "restricted"@),
{
    status.eq("denied") || status.eq("restricted")
}

/// The authorization of the microphone where the platform has none to
/// give: granted.
pub fn check_microphone() -> (status: String)
    ensures
        status@ == "granted"@,
{
    String::from_str("granted")
}

/// The state of the accessibility permissions where the platform has
/// none: granted.
pub fn check_accessibility() -> (status: String)
    ensures
        status@ == "granted"@,
{
    String::from_str("granted")
}

/// Asks for the microphone where there is nothing to ask: granted.
pub fn request_microphone() -> (granted: bool)
    ensures
        granted,
{
    true
}

/// Asks for accessibility where there is nothing to ask.
pub fn request_accessibility() {
}

/// Opens the microphone settings where there are none.
pub fn open_microphone_settings() {
}

/// The word for the microphone's authorization.
pub fn microphone_status() -> (status: String)
    ensures
        status@ == "granted"@,
{
    check_microphone()
}

/// Whether access follows from a status and, where the user was never
/// asked, from the answer to asking.
pub open spec fn access_after(status: Seq<char>, answer: bool) -> bool {
    match decision_for(status) {
        MicrophoneDecision::Proceed => true,
        MicrophoneDecision::Ask => answer,
        MicrophoneDecision::Refuse => false,
    }
}

/// Gets access to the microphone: it is there, or it is asked for, or it
/// is refused.
pub fn request_microphone_access() -> (granted: bool)
    ensures
        granted,
{
    let status: String = check_microphone();
    proof {
        reveal_strlit("granted");
        reveal_strlit("not_determined");
    }
    match microphone_decision(status.as_str()) {
        MicrophoneDecision::Proceed => true,
        MicrophoneDecision::Ask => request_microphone(),
        MicrophoneDecision::Refuse => false,
    }
}

/// The state of both permissions.
pub fn check_permissions() -> (status: PermissionStatus)
    ensures
        status.microphone@ == "granted"@,
        status.accessibility@ == "granted"@,
{
    PermissionStatus { microphone: check_microphone(), accessibility: check_accessibility() }
}

} // verus!
