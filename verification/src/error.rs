//! The library's error type.

use vstd::prelude::*;
use vstd::string::StringExecFns;

verus! {

/// What went wrong, by subsystem, with a message for the user.
#[derive(Debug, Clone, PartialEq, Eq)]
pub enum AppError {
    /// Transcription or a transcription provider failed.
    Stt(String),
    /// Rewriting the transcript failed.
    Enhancement(String),
    /// The audio device, the stream or the recording session failed.
    Audio(String),
    /// The clipboard or keystroke injection failed.
    TextInsertion(String),
    /// The secret store failed.
    Security(String),
    /// A file operation failed.
    Io(String),
    /// A network operation failed.
    Network(String),
    /// Encoding or decoding a value failed.
    Serialization(String),
}

/// An error as a mathematical value.
pub enum AppErrorView {
    Stt(Seq<char>),
    Enhancement(Seq<char>),
    Audio(Seq<char>),
    TextInsertion(Seq<char>),
    Security(Seq<char>),
    Io(Seq<char>),
    Network(Seq<char>),
    Serialization(Seq<char>),
}

impl View for AppError {
    type V = AppErrorView;

    open spec fn view(&self) -> AppErrorView {
        match self {
            AppError::Stt(m) => AppErrorView::Stt(m@),
            AppError::Enhancement(m) => AppErrorView::Enhancement(m@),
            AppError::Audio(m) => AppErrorView::Audio(m@),
            AppError::TextInsertion(m) => AppErrorView::TextInsertion(m@),
            AppError::Security(m) => AppErrorView::Security(m@),
            AppError::Io(m) => AppErrorView::Io(m@),
            AppError::Network(m) => AppErrorView::Network(m@),
            AppError::Serialization(m) => AppErrorView::Serialization(m@),
        }
    }
}

impl AppErrorView {
    /// The text shown to the user: the subsystem, then the message.
    pub open spec fn display(self) -> Seq<char> {
        match self {
            AppErrorView::Stt(m) => "STT error: "@ + m,
            AppErrorView::Enhancement(m) => "Enhancement error: "@ + m,
            AppErrorView::Audio(m) => "Audio error: "@ + m,
            AppErrorView::TextInsertion(m) => "Text insertion error: "@ + m,
            AppErrorView::Security(m) => "Security error: "@ + m,
            AppErrorView::Io(m) => "IO error: "@ + m,
            AppErrorView::Network(m) => "Network error: "@ + m,
            AppErrorView::Serialization(m) => "Serialization error: "@ + m,
        }
    }
}

/// `prefix` followed by `rest`.
pub fn prefixed(prefix: &str, rest: &str) -> (s: String)
    ensures
        s@ == prefix@ + rest@,
{
    let mut s: String = String::from_str(prefix);
    s.append(rest);
    s
}

impl AppError {
    /// The text shown to the user.
    pub fn message(&self) -> (s: String)
        ensures
            s@ == self@.display(),
    {
        match self {
            AppError::Stt(m) => prefixed("STT error: ", m.as_str()),
            AppError::Enhancement(m) => prefixed("Enhancement error: ", m.as_str()),
            AppError::Audio(m) => prefixed("Audio error: ", m.as_str()),
            AppError::TextInsertion(m) => prefixed("Text insertion error: ", m.as_str()),
            AppError::Security(m) => prefixed("Security error: ", m.as_str()),
            AppError::Io(m) => prefixed("IO error: ", m.as_str()),
            AppError::Network(m) => prefixed("Network error: ", m.as_str()),
            AppError::Serialization(m) => prefixed("Serialization error: ", m.as_str()),
        }
    }
}

} // verus!
