use voxlore::error::AppError;
use voxlore::hotkey::manager::{HotkeyManager, InputMode, RecordingState};
use voxlore::hotkey::shortcut::{
    announce, on_pressed, on_released, widget_corner, Announcement, ShortcutStep, WidgetCorner,
    PUSH_TO_TALK_SHORTCUT,
};
use voxlore::recording::outcome::RecordingResult;

#[test]
fn test_push_to_talk_flow() {
    let mut mgr = HotkeyManager::new(InputMode::PushToTalk);
    assert_eq!(mgr.state, RecordingState::Idle);

    assert_eq!(mgr.on_key_down(), RecordingState::Recording);
    assert_eq!(mgr.on_key_up(), RecordingState::Processing);

    mgr.on_processing_complete();
    assert_eq!(mgr.state, RecordingState::Idle);
}

#[test]
fn test_toggle_flow() {
    let mut mgr = HotkeyManager::new(InputMode::Toggle);
    assert_eq!(mgr.state, RecordingState::Idle);

    // First press -> recording
    assert_eq!(mgr.on_key_down(), RecordingState::Recording);
    mgr.on_key_up(); // no-op for toggle

    // Second press -> processing
    assert_eq!(mgr.on_key_down(), RecordingState::Processing);

    mgr.on_processing_complete();
    assert_eq!(mgr.state, RecordingState::Idle);
}

#[test]
fn keys_are_ignored_while_processing() {
    for mode in [InputMode::PushToTalk, InputMode::Toggle] {
        let mut mgr = HotkeyManager::new(mode);
        mgr.state = RecordingState::Processing;
        assert_eq!(mgr.on_key_down(), RecordingState::Processing);
        assert_eq!(mgr.on_key_up(), RecordingState::Processing);
        assert_eq!(mgr.mode, mode);
    }
}

#[test]
fn push_to_talk_ignores_repeated_key_down_and_stray_key_up() {
    let mut mgr = HotkeyManager::new(InputMode::PushToTalk);
    assert_eq!(mgr.on_key_up(), RecordingState::Idle);
    assert_eq!(mgr.on_key_down(), RecordingState::Recording);
    assert_eq!(mgr.on_key_down(), RecordingState::Recording);
}

#[test]
fn pressing_keeps_the_target_before_anything_else() {
    assert_eq!(PUSH_TO_TALK_SHORTCUT, "alt+space");
    assert_eq!(
        on_pressed(true),
        vec![ShortcutStep::KeepTarget, ShortcutStep::ShowWidget, ShortcutStep::StartRecording]
    );
    assert_eq!(on_pressed(false), vec![ShortcutStep::KeepTarget, ShortcutStep::StartRecording]);
    assert_eq!(on_released(), vec![ShortcutStep::StopRecording, ShortcutStep::HideWidget]);
}

#[test]
fn only_a_result_with_text_is_announced() {
    let with_text = RecordingResult::saved("hi".into(), "a".into(), "b".into(), 16);
    assert_eq!(announce(Ok(with_text.clone())), Announcement::Result(with_text));
    assert_eq!(announce(Ok(RecordingResult::empty())), Announcement::Nothing);
    match announce(Err(AppError::Audio("No recording in progress".into()))) {
        Announcement::Notice(n) => {
            assert_eq!(n.word(), "error");
            assert_eq!(n.message.as_deref(), Some("Audio error: No recording in progress"));
        }
        other => panic!("{other:?}"),
    }
}

#[test]
fn widget_stands_in_the_corner_named() {
    assert_eq!(widget_corner(Some("top-left")), WidgetCorner::TopLeft);
    assert_eq!(widget_corner(Some("top-right")), WidgetCorner::TopRight);
    assert_eq!(widget_corner(Some("bottom-left")), WidgetCorner::BottomLeft);
    assert_eq!(widget_corner(Some("bottom-right")), WidgetCorner::BottomRight);
    assert_eq!(widget_corner(Some("middle")), WidgetCorner::BottomRight);
    assert_eq!(widget_corner(None), WidgetCorner::BottomRight);
}
