use voxlore::error::AppError;
use voxlore::focus::{
    activation_error, ActivationFailure, judge_look, settle_look, start_look, start_window_open, FocusPolicy, FocusStep, Resolution,
    TargetSlots, APPLY_POLL_MS, APPLY_WINDOW_MS, INSERT_POLL_MS, INSERT_WINDOW_MS, START_POLL_MS,
    START_WINDOW_MS,
};

const OWN: &str = "app.voxlore";

fn insert_policy() -> FocusPolicy {
    FocusPolicy { timeout_ms: INSERT_WINDOW_MS, interval_ms: INSERT_POLL_MS }
}

#[test]
fn a_look_gives_a_target_only_if_it_is_another_application() {
    assert_eq!(judge_look(Some("com.apple.Notes".into()), OWN), Some("com.apple.Notes".to_string()));
    assert_eq!(judge_look(Some(OWN.into()), OWN), None);
    assert_eq!(judge_look(Some(String::new()), OWN), None);
    assert_eq!(judge_look(None, OWN), None);
}

#[test]
fn start_window_lasts_half_a_second() {
    assert_eq!(START_WINDOW_MS, 500);
    assert_eq!(START_POLL_MS, 25);
    assert!(start_window_open(0));
    assert!(start_window_open(499));
    assert!(!start_window_open(500));
}

#[test]
fn first_other_application_ends_the_look_at_start() {
    assert_eq!(start_look(None, OWN), FocusStep::Sleep(25));
    assert_eq!(start_look(Some(OWN.into()), OWN), FocusStep::Sleep(25));
    assert_eq!(start_look(Some(String::new()), OWN), FocusStep::Sleep(25));
    assert_eq!(start_look(Some("com.x".into()), OWN), FocusStep::Found("com.x".to_string()));
}

#[test]
fn nothing_is_kept_when_only_this_application_is_in_front() {
    let mut elapsed = 0;
    let mut found = None;
    let mut looks = 0;
    while start_window_open(elapsed) {
        looks += 1;
        match start_look(Some(OWN.into()), OWN) {
            FocusStep::Found(t) => {
                found = Some(t);
                break;
            }
            FocusStep::Sleep(ms) => elapsed += ms,
            FocusStep::GiveUp => break,
        }
    }
    assert_eq!(found, None);
    assert_eq!(looks, 20);
}

#[test]
fn settling_wait_looks_at_least_once_and_gives_up_in_time() {
    let p = insert_policy();
    assert_eq!(settle_look(Some("com.x".into()), OWN, 10_000, p), FocusStep::Found("com.x".into()));
    assert_eq!(settle_look(Some(String::new()), OWN, 0, p), FocusStep::Found(String::new()));
    assert_eq!(settle_look(Some(OWN.into()), OWN, 799, p), FocusStep::Sleep(40));
    assert_eq!(settle_look(Some(OWN.into()), OWN, 800, p), FocusStep::GiveUp);
    assert_eq!(settle_look(None, OWN, 0, p), FocusStep::Sleep(40));
    let mut elapsed = 0;
    let mut looks = 0;
    loop {
        looks += 1;
        match settle_look(None, OWN, elapsed, p) {
            FocusStep::Sleep(ms) => elapsed += ms,
            FocusStep::GiveUp => break,
            FocusStep::Found(_) => panic!("nothing was in front"),
        }
    }
    assert_eq!(looks, 21);
}

#[test]
fn direct_insert_wants_the_kept_target_unless_it_is_this_application() {
    let mut slots = TargetSlots::new();
    assert_eq!(slots.for_insert(OWN), Resolution::Wait(insert_policy()));
    slots.set_recording(Some("com.x".into()));
    assert_eq!(slots.for_insert(OWN), Resolution::Known("com.x".into()));
    slots.set_recording(Some(OWN.into()));
    assert_eq!(slots.for_insert(OWN), Resolution::Wait(insert_policy()));
}

#[test]
fn preview_takes_the_kept_target_then_looks_then_waits() {
    let mut slots = TargetSlots::new();
    assert_eq!(slots.for_preview_open(), Resolution::LookThenWait(insert_policy()));
    slots.set_recording(Some("com.x".into()));
    assert_eq!(slots.for_preview_open(), Resolution::Known("com.x".into()));
    assert_eq!(
        slots.for_preview_apply(),
        Resolution::Wait(FocusPolicy { timeout_ms: APPLY_WINDOW_MS, interval_ms: APPLY_POLL_MS })
    );
    assert_eq!((APPLY_WINDOW_MS, APPLY_POLL_MS), (1200, 50));
    slots.set_preview(Some("com.y".into()));
    assert_eq!(slots.for_preview_apply(), Resolution::Known("com.y".into()));
    assert_eq!(slots.recording_target().as_deref(), Some("com.x"));
    assert_eq!(slots.preview_target().as_deref(), Some("com.y"));
}

#[test]
fn targets_are_forgotten_at_the_end_of_a_cycle() {
    let mut slots = TargetSlots::new();
    slots.set_recording(Some("com.x".into()));
    slots.set_preview(Some("com.y".into()));
    slots.clear();
    assert_eq!(slots.recording_target(), None);
    assert_eq!(slots.preview_target(), None);
}

#[test]
fn activation_failures_have_their_messages() {
    let text = |f| match activation_error(f, "com.x") {
        AppError::TextInsertion(m) => m,
        other => panic!("{other:?}"),
    };
    assert_eq!(text(ActivationFailure::NameNotBuilt), "Failed to build bundle id string");
    assert_eq!(text(ActivationFailure::NoApplicationClass), "NSRunningApplication class not found");
    assert_eq!(text(ActivationFailure::NoApplicationList), "No running applications array returned");
    assert_eq!(text(ActivationFailure::NotRunning), "Target app not running: com.x");
    assert_eq!(text(ActivationFailure::NoInstance), "Failed to get target app instance");
    assert_eq!(text(ActivationFailure::Refused), "Failed to activate app: com.x");
}
