use voxlore::audio::capture::{capture_error, mix_to_mono, CaptureFailure, CaptureSession};
use voxlore::error::AppError;

#[test]
fn frames_are_averaged_toward_zero() {
    assert_eq!(mix_to_mono(&[100, 200, -100, -200], 2), vec![150, -150]);
    assert_eq!(mix_to_mono(&[-3, 0, 3, 0, -1, 0, 1, 0], 2), vec![-1, 1, 0, 0]);
    assert_eq!(mix_to_mono(&[32767, 32767, -32768, -32768], 2), vec![32767, -32768]);
    assert_eq!(mix_to_mono(&[1, 2, 3, 4, 5, 6], 3), vec![2, 5]);
}

#[test]
fn a_short_last_frame_is_divided_by_the_channel_count() {
    assert_eq!(mix_to_mono(&[10, 20, 7], 2), vec![15, 3]);
    assert_eq!(mix_to_mono(&[9, 9, 9, 9], 3), vec![9, 3]);
}

#[test]
fn one_channel_or_none_passes_through() {
    assert_eq!(mix_to_mono(&[1, -2, 3], 1), vec![1, -2, 3]);
    assert_eq!(mix_to_mono(&[1, -2, 3], 0), vec![1, -2, 3]);
    assert_eq!(mix_to_mono(&[], 2), Vec::<i16>::new());
}

#[test]
fn session_mixes_then_converts() {
    let mut s = CaptureSession::open(48000, 2);
    assert!(s.is_active());
    // 96 interleaved samples: 48 frames whose mean is the frame number.
    let data: Vec<i16> = (0..48).flat_map(|k| [k - 1, k + 1]).collect();
    let chunk = s.on_samples(&data).unwrap();
    let expected: Vec<i16> = (0..16).map(|k| 3 * k + 2).collect();
    assert_eq!(chunk, expected);
}

#[test]
fn session_continues_across_buffers() {
    let mut s = CaptureSession::open(48000, 1);
    assert_eq!(s.on_mono(&[0, 1]), Some(vec![]));
    assert_eq!(s.on_mono(&[2, 3, 4]), Some(vec![2]));
    assert_eq!(s.on_samples(&[5, 6]), Some(vec![5]));
}

#[test]
fn ended_session_drops_samples() {
    let mut s = CaptureSession::open(16000, 1);
    assert_eq!(s.on_samples(&[1, 2, 3]), Some(vec![1, 2, 3]));
    s.stop();
    assert!(!s.is_active());
    assert_eq!(s.on_samples(&[4, 5, 6]), None);
    assert_eq!(s.on_mono(&[4, 5, 6]), None);
    s.stop();
    assert!(!s.is_active());
}

#[test]
fn each_failure_has_its_message() {
    assert_eq!(
        capture_error(&CaptureFailure::NoInputDevice),
        AppError::Audio("No input device available".to_string())
    );
    assert_eq!(
        capture_error(&CaptureFailure::InputConfig("busy".to_string())),
        AppError::Audio("Failed to get input config: busy".to_string())
    );
    assert_eq!(
        capture_error(&CaptureFailure::UnsupportedFormat("U8".to_string())),
        AppError::Audio("Unsupported sample format: U8".to_string())
    );
    assert_eq!(
        capture_error(&CaptureFailure::BuildStream("x".to_string())),
        AppError::Audio("Failed to build stream: x".to_string())
    );
    assert_eq!(
        capture_error(&CaptureFailure::StartStream("y".to_string())),
        AppError::Audio("Failed to start stream: y".to_string())
    );
}

#[test]
fn errors_show_their_subsystem() {
    assert_eq!(AppError::Stt("a".into()).message(), "STT error: a");
    assert_eq!(AppError::Enhancement("b".into()).message(), "Enhancement error: b");
    assert_eq!(AppError::Audio("c".into()).message(), "Audio error: c");
    assert_eq!(AppError::TextInsertion("d".into()).message(), "Text insertion error: d");
    assert_eq!(AppError::Security("e".into()).message(), "Security error: e");
    assert_eq!(AppError::Io("f".into()).message(), "IO error: f");
    assert_eq!(AppError::Network("g".into()).message(), "Network error: g");
    assert_eq!(AppError::Serialization("h".into()).message(), "Serialization error: h");
}
