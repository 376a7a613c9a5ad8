use codex_overlay::echo::{resampled_length, EchoCancellationState};

#[test]
fn resamples_ten_milliseconds_to_capture_rate() {
    assert_eq!(resampled_length(441, 44_100, 48_000), 480);
    assert_eq!(resampled_length(480, 48_000, 44_100), 441);
}

#[test]
fn processes_render_and_capture_frames() {
    let mut state = EchoCancellationState::default();
    state.configure_capture(48_000);
    let plan = state.plan_render_frame(480, 48_000).unwrap();
    assert!(!plan.resample);
    state.check_capture_frame(480, 48_000).unwrap();
}

#[test]
fn resampled_render_frames_are_accepted() {
    let mut state = EchoCancellationState::new();
    state.configure_capture(48_000);
    assert!(state.plan_render_frame(441, 44_100).unwrap().resample);
    assert_eq!(
        state.plan_render_frame(440, 44_100).unwrap_err(),
        "AEC render frame has 479 samples; expected 480"
    );
}

#[test]
fn frames_are_refused_before_configuration_and_after_reset() {
    let mut state = EchoCancellationState::new();
    assert_eq!(
        state.plan_render_frame(480, 48_000).unwrap_err(),
        "AEC is waiting for the microphone stream"
    );
    state.configure_capture(48_000);
    state.reset();
    assert_eq!(
        state.check_capture_frame(480, 48_000).unwrap_err(),
        "AEC is waiting for the microphone stream"
    );
}

#[test]
fn capture_frames_must_match_rate_and_length() {
    let mut state = EchoCancellationState::new();
    state.configure_capture(48_000);
    assert_eq!(
        state.check_capture_frame(441, 44_100).unwrap_err(),
        "AEC microphone rate changed from 48000 Hz to 44100 Hz"
    );
    assert_eq!(
        state.check_capture_frame(479, 48_000).unwrap_err(),
        "AEC capture frame has 479 samples; expected 480"
    );
    assert_eq!(resampled_length(0, 44_100, 48_000), 0);
}
