use codex_overlay::microphone::{
    check_not_capturing, frame_sizes, microphone_devices, microphone_startup, pcm16_bytes,
    select_device, take_front, ActivityWatchdog, AecStatusReporter, BypassReporter, DeviceChoice,
    LevelCounter, MicrophoneState, StartupWait, STALLED_AFTER_TICKS,
};

#[test]
fn encodes_signed_little_endian_pcm() {
    assert_eq!(pcm16_bytes(&[-32767, 0, 32767]), vec![1, 128, 0, 0, 255, 127]);
}

#[test]
fn devices_are_listed_with_the_default_marked() {
    let names = vec!["Built-in".to_string(), "USB".to_string()];
    let devices = microphone_devices(&names, Some("USB"));
    assert_eq!(devices.len(), 2);
    assert_eq!(devices[0].name, "Built-in");
    assert!(!devices[0].is_default);
    assert!(devices[1].is_default);
    assert!(microphone_devices(&names, None).iter().all(|d| !d.is_default));
}

#[test]
fn devices_are_chosen_by_name_or_default() {
    let names = vec![None, Some("USB".to_string()), Some("USB".to_string())];
    assert_eq!(select_device(&names, Some("USB"), true).unwrap(), DeviceChoice::Index(1));
    assert_eq!(
        select_device(&names, Some("Studio"), true).unwrap_err(),
        "Microphone not found: Studio"
    );
    assert_eq!(select_device(&names, None, true).unwrap(), DeviceChoice::Default);
    assert_eq!(select_device(&names, None, false).unwrap_err(), "No microphone found");
}

#[test]
fn frames_are_cut_from_the_front() {
    let sizes = frame_sizes(48_000);
    assert_eq!((sizes.aec, sizes.stt, sizes.level_window), (480, 4_800, 9_600));
    let mut buf = vec![1, 2, 3, 4, 5];
    assert_eq!(take_front(&mut buf, 2), vec![1, 2]);
    assert_eq!(buf, vec![3, 4, 5]);
    assert_eq!(take_front(&mut buf, 3), vec![3, 4, 5]);
    assert!(buf.is_empty());
}

#[test]
fn a_stream_stalls_after_a_dozen_quiet_ticks() {
    let mut dog = ActivityWatchdog::new(7);
    for _ in 0..STALLED_AFTER_TICKS - 1 {
        assert!(!dog.tick(7));
    }
    assert!(dog.tick(7));
    let mut dog = ActivityWatchdog::new(7);
    for _ in 0..5 {
        dog.tick(7);
    }
    assert!(!dog.tick(8));
    assert_eq!(dog.stagnant_ticks, 0);
}

#[test]
fn capture_generations_move_on_start_and_stop() {
    let mut state = MicrophoneState::new();
    let g = state.begin();
    assert!(state.is_current(g));
    state.invalidate();
    assert!(!state.is_current(g));
    let h = state.begin();
    assert_eq!(h, g + 2);
}

#[test]
fn startup_outcomes() {
    assert_eq!(microphone_startup(StartupWait::Ready), (Ok(()), false));
    assert_eq!(microphone_startup(StartupWait::Failed("denied".to_string())), (Err("denied".to_string()), true));
    assert_eq!(
        microphone_startup(StartupWait::TimedOut),
        (Err("Microphone opened but no audio samples arrived within 5 seconds".to_string()), true)
    );
    assert!(check_not_capturing(false).is_ok());
    assert_eq!(check_not_capturing(true).unwrap_err(), "Capture already running");
}

#[test]
fn echo_cancellation_status_is_reported_once_per_change() {
    let mut bypass = BypassReporter::default();
    assert_eq!(
        bypass.on_capture_error("bad frame").as_deref(),
        Some("AEC bypassed · bad frame · transcript fallback active")
    );
    assert_eq!(bypass.on_capture_error("again"), None);

    let mut status = AecStatusReporter::default();
    assert_eq!(
        status.on_render(Ok(true)).as_deref(),
        Some("AEC3 active · system audio resampled to microphone rate")
    );
    assert_eq!(status.on_render(Ok(false)), None);
    assert_eq!(
        status.on_render(Err("no mic")).as_deref(),
        Some("AEC waiting · no mic · transcript fallback active")
    );
    assert_eq!(status.on_render(Err("no mic")), None);
    assert_eq!(
        status.on_render(Ok(false)).as_deref(),
        Some("AEC3 active · system audio reference aligned to microphone")
    );
}

#[test]
fn every_second_frame_updates_the_level() {
    let mut counter = LevelCounter::default();
    assert!(!counter.tick());
    assert!(counter.tick());
    assert!(!counter.tick());
}
