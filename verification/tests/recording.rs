use voxlore::error::AppError;
use voxlore::recording::capture_loop::{
    CaptureLoop, LoopAction, Received, LEVEL_INTERVAL_MS, RECEIVE_TIMEOUT_MS,
};
use voxlore::recording::outcome::{
    capture_failed_notice, choose_output_dir, default_dir_below_home, failure_notice, hand_off,
    home_unknown_error, no_receiver_notice, processing_notice, recording_names,
    steps_after_capture, task_failed_error, transcript_or_notice, HandOff, OutputDir,
    RecordingResult, SaveStep, StatusEvent, StatusKind,
};
use voxlore::recording::slot::{Phase, SessionSlot};
use voxlore::recording::waits::{
    deadline, ready_wait_step, stop_timeout_error, stop_wait_step, StopPart, WaitStep,
    READY_POLL_MS, READY_TIMEOUT_MS, STOP_POLL_MS, STOP_TIMEOUT_MS,
};

#[test]
fn start_publish_stop_cycle() {
    let mut slot: SessionSlot<u8, &str> = SessionSlot::new();
    assert_eq!(slot.current_phase(), Phase::Idle);
    assert_eq!(slot.begin(7), Ok(()));
    assert_eq!(slot.current_phase(), Phase::Starting);
    assert_eq!(slot.publish_task("task"), None);
    assert_eq!(slot.current_phase(), Phase::Recording);
    assert_eq!(slot.take_signal(), Some(7));
    assert_eq!(slot.current_phase(), Phase::Stopping);
    assert_eq!(slot.take_task(), Some("task"));
    assert_eq!(slot.current_phase(), Phase::Stopping);
    assert_eq!(slot.finish(), (None, None));
    assert_eq!(slot.current_phase(), Phase::Idle);
    assert_eq!(slot.begin(8), Ok(()));
}

#[test]
fn start_while_a_session_exists_is_refused_and_changes_nothing() {
    let mut slot: SessionSlot<u8, &str> = SessionSlot::new();
    slot.begin(1).unwrap();
    assert_eq!(slot.begin(2), Err(AppError::Audio("Already recording".to_string())));
    assert_eq!(slot.current_phase(), Phase::Starting);
    slot.publish_task("t");
    assert_eq!(slot.begin(3), Err(AppError::Audio("Already recording".to_string())));
    assert_eq!(slot.current_phase(), Phase::Recording);
    assert_eq!(slot.take_signal(), Some(1));
    assert_eq!(slot.begin(4), Err(AppError::Audio("Already recording".to_string())));
    assert_eq!(slot.take_task(), Some("t"));
    assert_eq!(slot.begin(5), Err(AppError::Audio("Already recording".to_string())));
    assert_eq!(slot.current_phase(), Phase::Stopping);
}

#[test]
fn stop_may_come_before_the_task_is_published() {
    let mut slot: SessionSlot<u8, &str> = SessionSlot::new();
    slot.begin(1).unwrap();
    assert_eq!(slot.take_signal(), Some(1));
    assert_eq!(slot.take_task(), None);
    assert_eq!(slot.publish_task("late"), None);
    assert_eq!(slot.take_task(), Some("late"));
    slot.finish();
    assert_eq!(slot.current_phase(), Phase::Idle);
}

#[test]
fn nothing_is_taken_from_an_idle_slot() {
    let mut slot: SessionSlot<u8, &str> = SessionSlot::new();
    assert_eq!(slot.take_signal(), None);
    assert_eq!(slot.take_task(), None);
    assert_eq!(slot.publish_task("orphan"), Some("orphan"));
    assert_eq!(slot.current_phase(), Phase::Idle);
}

#[test]
fn task_is_not_taken_before_the_signal() {
    let mut slot: SessionSlot<u8, &str> = SessionSlot::new();
    slot.begin(1).unwrap();
    slot.publish_task("t");
    assert_eq!(slot.take_task(), None);
    assert_eq!(slot.publish_task("second"), Some("second"));
    assert_eq!(slot.current_phase(), Phase::Recording);
}

#[test]
fn finish_hands_back_what_was_left() {
    let mut slot: SessionSlot<u8, &str> = SessionSlot::new();
    slot.begin(9).unwrap();
    slot.publish_task("t");
    assert_eq!(slot.finish(), (Some(9), Some("t")));
    assert_eq!(slot.current_phase(), Phase::Idle);
}

#[test]
fn stop_without_a_session_times_out_with_no_recording_in_progress() {
    let start: u64 = 1_000;
    let end = deadline(start, STOP_TIMEOUT_MS);
    assert_eq!(end, 6_000);
    let mut now = start;
    let mut looks = 0;
    loop {
        looks += 1;
        match stop_wait_step(false, now, end) {
            WaitStep::Sleep(ms) => {
                assert_eq!(ms, STOP_POLL_MS);
                now += ms;
            }
            WaitStep::TimedOut => break,
            WaitStep::Proceed => panic!("nothing was there to take"),
        }
        assert!(looks <= 102);
    }
    assert_eq!(looks, 102);
    assert_eq!(
        stop_timeout_error(StopPart::Signal),
        AppError::Audio("No recording in progress".to_string())
    );
    assert_eq!(
        stop_timeout_error(StopPart::Task),
        AppError::Audio("Recording task not ready".to_string())
    );
}

#[test]
fn stop_wait_steps() {
    assert_eq!(stop_wait_step(true, 10_000, 5), WaitStep::Proceed);
    assert_eq!(stop_wait_step(false, 5, 5), WaitStep::Sleep(50));
    assert_eq!(stop_wait_step(false, 6, 5), WaitStep::TimedOut);
}

#[test]
fn ready_wait_steps() {
    assert_eq!(READY_TIMEOUT_MS, 3000);
    assert_eq!(READY_POLL_MS, 10);
    assert_eq!(ready_wait_step(true, 99, 5), WaitStep::Proceed);
    assert_eq!(ready_wait_step(false, 4, 5), WaitStep::Sleep(10));
    assert_eq!(ready_wait_step(false, 5, 5), WaitStep::TimedOut);
    assert_eq!(deadline(u64::MAX - 1, 3000), u64::MAX);
}

#[test]
fn loop_sees_stop_before_it_waits_again() {
    let mut l = CaptureLoop::begin(0);
    assert_eq!(l.next_action(false), LoopAction::Receive(RECEIVE_TIMEOUT_MS));
    assert!(!l.on_received(Received::Chunk(vec![1, 2]), 10));
    assert_eq!(l.next_action(true), LoopAction::Drain);
    // The flag is not looked at again: the loop drains whatever it reads.
    assert_eq!(l.next_action(false), LoopAction::Drain);
    assert!(!l.on_received(Received::Chunk(vec![3]), 100));
    assert_eq!(l.next_action(true), LoopAction::Drain);
    assert!(!l.on_received(Received::Nothing, 101));
    assert!(l.is_finished());
    assert_eq!(l.next_action(false), LoopAction::Finish);
    assert_eq!(l.into_samples(), vec![1, 2, 3]);
}

#[test]
fn loop_ends_when_the_sender_is_gone() {
    let mut l = CaptureLoop::begin(0);
    l.on_received(Received::Chunk(vec![5]), 1);
    l.on_received(Received::Nothing, 2);
    assert!(!l.is_finished());
    l.on_received(Received::Disconnected, 3);
    assert!(l.is_finished());
    l.on_received(Received::Chunk(vec![6]), 4);
    assert_eq!(l.sample_count(), 1);
    assert_eq!(l.into_samples(), vec![5]);
}

#[test]
fn level_is_sent_at_most_every_33_ms() {
    assert_eq!(LEVEL_INTERVAL_MS, 33);
    let mut l = CaptureLoop::begin(1000);
    assert!(!l.level_due(1032));
    assert!(!l.on_received(Received::Chunk(vec![1]), 1032));
    assert!(l.level_due(1033));
    assert!(l.on_received(Received::Chunk(vec![2]), 1033));
    assert!(!l.on_received(Received::Chunk(vec![3]), 1065));
    assert!(l.on_received(Received::Chunk(vec![4]), 1066));
    assert!(!l.on_received(Received::Nothing, 2000));
    assert!(!l.level_due(999));
    assert_eq!(l.into_samples(), vec![1, 2, 3, 4]);
}

#[test]
fn start_then_stop_without_audio_gives_the_empty_result() {
    let mut slot: SessionSlot<u8, Vec<i16>> = SessionSlot::new();
    slot.begin(0).unwrap();
    let mut l = CaptureLoop::begin(0);
    assert_eq!(l.next_action(true), LoopAction::Drain);
    l.on_received(Received::Nothing, 1);
    assert_eq!(l.next_action(true), LoopAction::Finish);
    slot.publish_task(l.into_samples());
    slot.take_signal().unwrap();
    let samples = slot.take_task().unwrap();
    slot.finish();
    match hand_off(&samples) {
        HandOff::Empty { result, notice } => {
            assert_eq!(
                result,
                RecordingResult {
                    text: String::new(),
                    audio_path: None,
                    text_path: None,
                    sample_count: 0
                }
            );
            assert_eq!(result.duration_millis(), 0);
            assert_eq!(result.duration_millis() as f32 / 1000.0, 0.0);
            assert!(!result.has_text());
            assert_eq!(notice.kind, StatusKind::Error);
            assert_eq!(
                notice.message.as_deref(),
                Some("No audio captured. Check microphone permissions.")
            );
        }
        HandOff::Captured { .. } => panic!("nothing was captured"),
    }
}

#[test]
fn captured_samples_are_handed_on() {
    assert_eq!(hand_off(&[1, 2, 3]), HandOff::Captured { sample_count: 3 });
}

#[test]
fn duration_follows_from_the_sample_count() {
    let r = RecordingResult::saved("hi".into(), "a.wav".into(), "a.txt".into(), 24_000);
    assert_eq!(r.duration_millis(), 1500);
    assert!(r.has_text());
    assert_eq!(r.audio_path.as_deref(), Some("a.wav"));
    assert_eq!(r.text_path.as_deref(), Some("a.txt"));
    let odd = RecordingResult::saved(String::new(), "a".into(), "b".into(), 31);
    assert_eq!(odd.duration_millis(), 1);
    assert_eq!(RecordingResult::empty().duration_millis(), 0);
}

#[test]
fn files_share_a_stem() {
    let names = recording_names("20240131_235959");
    assert_eq!(names.audio, "recording_20240131_235959.wav");
    assert_eq!(names.text, "recording_20240131_235959.txt");
}

#[test]
fn output_directory_is_the_one_given_unless_empty() {
    assert_eq!(choose_output_dir(Some("/tmp/x".into())), OutputDir::Custom("/tmp/x".into()));
    assert_eq!(choose_output_dir(Some(String::new())), OutputDir::HomeDefault);
    assert_eq!(choose_output_dir(None), OutputDir::HomeDefault);
    assert_eq!(default_dir_below_home(), vec!["Documents", "Voxlore", "recordings"]);
    assert_eq!(home_unknown_error(), AppError::Io("Cannot determine home directory".into()));
}

#[test]
fn notices_have_their_words() {
    assert_eq!(StatusEvent::recording().word(), "recording");
    assert_eq!(StatusEvent::done().word(), "done");
    assert_eq!(StatusEvent::recording().message, None);
    let local = processing_notice("vosk");
    assert_eq!(local.word(), "processing");
    assert_eq!(local.message.as_deref(), Some("Processing transcription locally..."));
    let cloud = processing_notice("openai");
    assert_eq!(
        cloud.message.as_deref(),
        Some("Processing via cloud AI (openai)... If network is slow, this may timeout.")
    );
    let e = AppError::Audio("No input device available".into());
    assert_eq!(
        capture_failed_notice(&e).message.as_deref(),
        Some("Audio capture failed: Audio error: No input device available")
    );
    assert_eq!(failure_notice(&e).word(), "error");
    assert_eq!(failure_notice(&e).message.as_deref(), Some("Audio error: No input device available"));
    assert_eq!(no_receiver_notice().message.as_deref(), Some("No audio receiver available"));
    assert_eq!(task_failed_error("panicked"), AppError::Audio("Recording task failed: panicked".into()));
}

#[test]
fn failed_transcription_leaves_an_empty_transcript() {
    assert_eq!(transcript_or_notice(Ok("hello".into())), ("hello".to_string(), None));
    let (text, notice) = transcript_or_notice(Err(AppError::Stt("boom".into())));
    assert_eq!(text, "");
    let notice = notice.unwrap();
    assert_eq!(notice.kind, StatusKind::Error);
    assert_eq!(notice.message.as_deref(), Some("Transcription failed: STT error: boom"));
}

#[test]
fn audio_is_saved_before_transcription() {
    assert_eq!(
        steps_after_capture(),
        vec![
            SaveStep::SaveAudio,
            SaveStep::AnnounceProcessing,
            SaveStep::Transcribe,
            SaveStep::SaveTranscript,
            SaveStep::AnnounceDone,
        ]
    );
}
