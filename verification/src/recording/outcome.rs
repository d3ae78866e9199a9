//! What a finished session yields: the result handed to the caller, the
//! notifications sent on the way and the names of the files written.

use vstd::prelude::*;
use vstd::string::StringExecFns;
use crate::error::{AppError, prefixed};
use crate::text::concat3;

verus! {

/// The rate of the samples that a session collects, per second.
pub const SAMPLE_RATE: u32 = 16000;

/// What one press-to-record cycle produced.
#[derive(Debug, Clone, PartialEq, Eq)]
pub struct RecordingResult {
    /// The transcript; empty where there is none.
    pub text: String,
    /// Where the audio was saved.
    pub audio_path: Option<String>,
    /// Where the transcript was saved.
    pub text_path: Option<String>,
    /// The number of samples captured. The duration follows from it and
    /// from `SAMPLE_RATE`, not from a clock.
    pub sample_count: usize,
}

/// A result as a mathematical value.
pub struct RecordingResultView {
    pub text: Seq<char>,
    pub audio_path: Option<Seq<char>>,
    pub text_path: Option<Seq<char>>,
    pub sample_count: nat,
}

/// The view of a text that may be absent.
pub open spec fn text_view(t: Option<String>) -> Option<Seq<char>> {
    match t {
        Some(s) => Some(s@),
        None => None,
    }
}

impl View for RecordingResult {
    type V = RecordingResultView;

    open spec fn view(&self) -> RecordingResultView {
        RecordingResultView {
            text: self.text@,
            audio_path: text_view(self.audio_path),
            text_path: text_view(self.text_path),
            sample_count: self.sample_count as nat,
        }
    }
}

/// The result of a session that captured nothing.
pub open spec fn empty_result() -> RecordingResultView {
    RecordingResultView { text: Seq::empty(), audio_path: None, text_path: None, sample_count: 0 }
}

/// The whole milliseconds that `sample_count` samples last.
pub open spec fn duration_millis_of(sample_count: nat) -> nat {
    sample_count * 1000 / (SAMPLE_RATE as nat)
}

impl RecordingResult {
    /// The result of a session that captured nothing: no text, no files,
    /// no duration.
    pub fn empty() -> (r: Self)
        ensures
            r@ == empty_result(),
            duration_millis_of(r@.sample_count) == 0,
    {
        RecordingResult { text: String::new(), audio_path: None, text_path: None, sample_count: 0 }
    }

    /// The result of a session whose audio and transcript were saved.
    pub fn saved(text: String, audio_path: String, text_path: String, sample_count: usize) -> (r:
        Self)
        ensures
            r@ == (RecordingResultView {
                text: text@,
                audio_path: Some(audio_path@),
                text_path: Some(text_path@),
                sample_count: sample_count as nat,
            }),
    {
        RecordingResult {
            text,
            audio_path: Some(audio_path),
            text_path: Some(text_path),
            sample_count,
        }
    }

    /// The duration in whole milliseconds.
    pub fn duration_millis(&self) -> (ms: u64)
        ensures
            ms == duration_millis_of(self@.sample_count),
    {
        assert(self.sample_count as nat * 1000 / 16000 == self.sample_count as nat / 16);
        (self.sample_count / 16) as u64
    }

    /// Whether there is a transcript to show.
    pub fn has_text(&self) -> (b: bool)
        ensures
            b == (self@.text.len() > 0),
    {
        !self.text.as_str().is_empty()
    }
}

/// The kind of a status notification.
#[derive(Debug, Clone, Copy, PartialEq, Eq, Structural)]
pub enum StatusKind {
    Recording,
    Processing,
    Done,
    Error,
}

/// A status notification for the user interface.
#[derive(Debug, Clone, PartialEq, Eq)]
pub struct StatusEvent {
    pub kind: StatusKind,
    pub message: Option<String>,
}

impl View for StatusEvent {
    type V = (StatusKind, Option<Seq<char>>);

    open spec fn view(&self) -> (StatusKind, Option<Seq<char>>) {
        (self.kind, text_view(self.message))
    }
}

/// The word that stands for a kind in a notification.
pub open spec fn status_word(kind: StatusKind) -> Seq<char> {
    match kind {
        StatusKind::Recording => "recording"@,
        StatusKind::Processing => "processing"@,
        StatusKind::Done => "done"@,
        StatusKind::Error => "error"@,
    }
}

impl StatusEvent {
    /// The notification that recording has started.
    pub fn recording() -> (e: Self)
        ensures
            e@ == (StatusKind::Recording, None::<Seq<char>>),
    {
        StatusEvent { kind: StatusKind::Recording, message: None }
    }

    /// The notification that the cycle is complete.
    pub fn done() -> (e: Self)
        ensures
            e@ == (StatusKind::Done, None::<Seq<char>>),
    {
        StatusEvent { kind: StatusKind::Done, message: None }
    }

    /// An error notification with a message for the user.
    pub fn error(message: String) -> (e: Self)
        ensures
            e@ == (StatusKind::Error, Some(message@)),
    {
        StatusEvent { kind: StatusKind::Error, message: Some(message) }
    }

    /// A notification that transcription is under way.
    pub fn processing(message: String) -> (e: Self)
        ensures
            e@ == (StatusKind::Processing, Some(message@)),
    {
        StatusEvent { kind: StatusKind::Processing, message: Some(message) }
    }

    /// The word that stands for this notification's kind.
    pub fn word(&self) -> (w: &'static str)
        ensures
            w@ == status_word(self.kind),
    {
        match self.kind {
            StatusKind::Recording => "recording",
            StatusKind::Processing => "processing",
            StatusKind::Done => "done",
            StatusKind::Error => "error",
        }
    }
}

/// What a stop does with the samples that the capture task hands over.
#[derive(Debug, Clone, PartialEq, Eq)]
pub enum HandOff {
    /// Nothing was captured: the stop returns this result at once, does
    /// not transcribe, and sends the notice.
    Empty { result: RecordingResult, notice: StatusEvent },
    /// Samples were captured: they are saved and transcribed.
    Captured { sample_count: usize },
}

/// The message sent where a session captured nothing.
pub open spec fn nothing_captured_text() -> Seq<char> {
    "No audio captured. Check microphone permissions."@
}

/// Decides what a stop does with the samples handed over.
///
/// A session without samples (a device that failed, a permission that is
/// missing) is no error of the stop: it yields the empty result, and the
/// user is told through a notification.
pub fn hand_off(samples: &[i16]) -> (h: HandOff)
    ensures
        samples@.len() == 0 ==> (h matches HandOff::Empty { result, notice } && result@
            == empty_result() && notice@ == (StatusKind::Error, Some(nothing_captured_text()))),
        samples@.len() > 0 ==> h == (HandOff::Captured { sample_count: samples@.len() as usize }),
{
    if samples.len() == 0 {
        HandOff::Empty {
            result: RecordingResult::empty(),
            notice: StatusEvent::error(
                String::from_str("No audio captured. Check microphone permissions."),
            ),
        }
    } else {
        HandOff::Captured { sample_count: samples.len() }
    }
}

/// A step of what a stop does with captured samples.
#[derive(Debug, Clone, Copy, PartialEq, Eq, Structural)]
pub enum SaveStep {
    /// Write the audio file.
    SaveAudio,
    /// Tell the user that transcription begins.
    AnnounceProcessing,
    /// Transcribe. A failure is told to the user and leaves the
    /// transcript empty; the steps go on.
    Transcribe,
    /// Write the transcript, empty or not.
    SaveTranscript,
    /// Tell the user that the cycle is complete.
    AnnounceDone,
}

/// What a stop does with captured samples, in order. The audio is saved
/// before anything that can fail for reasons outside this machine, so
/// that a failed transcription never costs the recording.
pub open spec fn save_steps() -> Seq<SaveStep> {
    seq![
        SaveStep::SaveAudio,
        SaveStep::AnnounceProcessing,
        SaveStep::Transcribe,
        SaveStep::SaveTranscript,
        SaveStep::AnnounceDone,
    ]
}

/// Gives the steps of a stop for captured samples.
pub fn steps_after_capture() -> (steps: Vec<SaveStep>)
    ensures
        steps@ == save_steps(),
{
    let mut steps: Vec<SaveStep> = Vec::new();
    steps.push(SaveStep::SaveAudio);
    steps.push(SaveStep::AnnounceProcessing);
    steps.push(SaveStep::Transcribe);
    steps.push(SaveStep::SaveTranscript);
    steps.push(SaveStep::AnnounceDone);
    assert(steps@ =~= save_steps());
    steps
}

/// The names of the two files of a session.
#[derive(Debug, Clone, PartialEq, Eq)]
pub struct RecordingNames {
    pub audio: String,
    pub text: String,
}

/// The stem shared by a session's files.
pub open spec fn recording_stem(timestamp: Seq<char>) -> Seq<char> {
    "recording_"@ + timestamp
}

/// The names of the files of a session that ended at `timestamp`, which
/// the caller gives as year, month, day, an underscore, hour, minute and
/// second in digits: the same stem with `.wav` and with `.txt`.
pub fn recording_names(timestamp: &str) -> (names: RecordingNames)
    ensures
        names.audio@ == recording_stem(timestamp@) + ".wav"@,
        names.text@ == recording_stem(timestamp@) + ".txt"@,
{
    RecordingNames {
        audio: concat3("recording_", timestamp, ".wav"),
        text: concat3("recording_", timestamp, ".txt"),
    }
}

/// Where a session's files go.
#[derive(Debug, Clone, PartialEq, Eq)]
pub enum OutputDir {
    /// The directory that the caller named.
    Custom(String),
    /// The default directory below the user's home directory.
    HomeDefault,
}

/// Chooses the output directory: the one given unless it is absent or
/// empty, else the default.
pub fn choose_output_dir(custom: Option<String>) -> (dir: OutputDir)
    ensures
        match custom {
            Some(d) => if d@.len() > 0 {
                dir matches OutputDir::Custom(c) && c@ == d@
            } else {
                dir is HomeDefault
            },
            None => dir is HomeDefault,
        },
{
    match custom {
        Some(d) => {
            if d.as_str().is_empty() {
                OutputDir::HomeDefault
            } else {
                OutputDir::Custom(d)
            }
        },
        None => OutputDir::HomeDefault,
    }
}

/// The directories from the home directory down to the default output
/// directory.
pub fn default_dir_below_home() -> (parts: Vec<&'static str>)
    ensures
        parts@.len() == 3,
        parts@[0]@ == "Documents"@,
        parts@[1]@ == "Voxlore"@,
        parts@[2]@ == "recordings"@,
{
    let mut parts: Vec<&'static str> = Vec::new();
    parts.push("Documents");
    parts.push("Voxlore");
    parts.push("recordings");
    parts
}

/// The error where the default directory is needed and the home directory
/// is not known.
pub fn home_unknown_error() -> (e: AppError)
    ensures
        e@ == crate::error::AppErrorView::Io("Cannot determine home directory"@),
{
    AppError::Io(String::from_str("Cannot determine home directory"))
}

/// The message sent when transcription begins.
pub open spec fn processing_text(provider: Seq<char>) -> Seq<char> {
    if provider == "vosk"@ {
        "Processing transcription locally..."@
    } else {
        "Processing via cloud AI ("@ + provider + ")... If network is slow, this may timeout."@
    }
}

/// The notification sent when transcription begins.
pub fn processing_notice(provider: &str) -> (e: StatusEvent)
    ensures
        e@ == (StatusKind::Processing, Some(processing_text(provider@))),
{
    if provider.eq("vosk") {
        StatusEvent::processing(String::from_str("Processing transcription locally..."))
    } else {
        StatusEvent::processing(
            concat3(
                "Processing via cloud AI (",
                provider,
                ")... If network is slow, this may timeout.",
            ),
        )
    }
}

/// The transcript that a session keeps, and the notice to send, for what
/// transcription returned: a failure leaves the transcript empty and is
/// told to the user, it does not fail the stop.
pub fn transcript_or_notice(outcome: Result<String, AppError>) -> (kept: (
    String,
    Option<StatusEvent>,
))
    ensures
        match outcome {
            Ok(text) => kept.0@ == text@ && kept.1 is None,
            Err(e) => kept.0@.len() == 0 && (kept.1 matches Some(n) && n@ == (
                StatusKind::Error,
                Some("Transcription failed: "@ + e@.display()),
            )),
        },
{
    match outcome {
        Ok(text) => (text, None),
        Err(e) => {
            let shown: String = e.message();
            (
                String::new(),
                Some(StatusEvent::error(prefixed("Transcription failed: ", shown.as_str()))),
            )
        },
    }
}

/// The notice sent where the capture task could not open the stream.
pub fn capture_failed_notice(cause: &AppError) -> (e: StatusEvent)
    ensures
        e@ == (StatusKind::Error, Some("Audio capture failed: "@ + cause@.display())),
{
    let shown: String = cause.message();
    StatusEvent::error(prefixed("Audio capture failed: ", shown.as_str()))
}

/// The notice that tells the user of an error.
pub fn failure_notice(cause: &AppError) -> (e: StatusEvent)
    ensures
        e@ == (StatusKind::Error, Some(cause@.display())),
{
    StatusEvent::error(cause.message())
}

/// The notice sent where the capture task got no channel to receive
/// audio from.
pub fn no_receiver_notice() -> (e: StatusEvent)
    ensures
        e@ == (StatusKind::Error, Some("No audio receiver available"@)),
{
    StatusEvent::error(String::from_str("No audio receiver available"))
}

/// The error of a stop whose capture task did not end in order.
pub fn task_failed_error(cause: &str) -> (e: AppError)
    ensures
        e@ == crate::error::AppErrorView::Audio("Recording task failed: "@ + cause@),
{
    AppError::Audio(prefixed("Recording task failed: ", cause))
}

} // verus!
