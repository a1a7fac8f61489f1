use audiobud::audio::{should_emit_mic_level, AudioLifecycle, RecordingMuteIntent};
use std::sync::atomic::{AtomicUsize, Ordering};

#[test]
fn mic_level_emission_requires_recording_or_monitor_session() {
    assert!(!should_emit_mic_level(false, false));
    assert!(should_emit_mic_level(true, false));
    assert!(should_emit_mic_level(false, true));
    assert!(should_emit_mic_level(true, true));
}

#[test]
fn quick_stop_invalidates_delayed_mute() {
    let mut intent = RecordingMuteIntent::default();
    let generation = intent.arm("transcribe");

    assert!(intent.is_active(generation));
    assert!(intent.disarm("transcribe"));
    assert!(!intent.is_active(generation));
}

#[test]
fn old_delayed_mute_cannot_attach_to_new_recording() {
    let mut intent = RecordingMuteIntent::default();
    let old_generation = intent.arm("transcribe");
    assert!(intent.disarm("transcribe"));

    let new_generation = intent.arm("transcribe");

    assert!(!intent.is_active(old_generation));
    assert!(intent.is_active(new_generation));
}

#[test]
fn unrelated_stop_cannot_invalidate_active_mute() {
    let mut intent = RecordingMuteIntent::default();
    let generation = intent.arm("transcribe");

    assert!(!intent.disarm("transcribe-with-post-process"));
    assert!(intent.is_active(generation));
}

#[test]
fn failed_native_mute_does_not_commit_mute_state() {
    let mut lifecycle = AudioLifecycle::default();
    lifecycle.open(|| Ok::<(), &str>(())).unwrap();
    assert_eq!(
        lifecycle.apply_mute(true, || Err("simulated mute failure")),
        Err("simulated mute failure")
    );

    assert!(!lifecycle.did_mute());
    assert_eq!(lifecycle.apply_mute(true, || Ok::<(), &str>(())), Ok(true));
    assert!(lifecycle.did_mute());
}

#[test]
fn failed_unmute_during_close_is_retryable_after_stream_close() {
    let mut lifecycle = AudioLifecycle::default();
    let close_calls = AtomicUsize::new(0);
    lifecycle.open(|| Ok::<(), &str>(())).unwrap();
    lifecycle.apply_mute(true, || Ok::<(), &str>(())).unwrap();
    assert_eq!(
        lifecycle.close(
            || Err("simulated unmute failure"),
            || {
                close_calls.fetch_add(1, Ordering::SeqCst);
            },
        ),
        Err("simulated unmute failure")
    );

    assert_eq!(close_calls.load(Ordering::SeqCst), 1);
    assert!(!lifecycle.is_open());
    assert!(lifecycle.did_mute());

    lifecycle.open(|| Ok::<(), &str>(())).unwrap();
    assert!(lifecycle.did_mute());

    assert_eq!(
        lifecycle.remove_mute(|| Err("simulated retry failure")),
        Err("simulated retry failure")
    );
    assert!(lifecycle.did_mute());

    assert_eq!(lifecycle.remove_mute(|| Ok::<(), &str>(())), Ok(true));
    assert!(!lifecycle.did_mute());
}

#[test]
fn a_closed_stream_is_not_muted_and_a_second_open_is_a_no_op() {
    let mut lifecycle = AudioLifecycle::default();
    assert_eq!(lifecycle.apply_mute(true, || Ok::<(), &str>(())), Ok(false));
    assert_eq!(lifecycle.open(|| Ok::<(), &str>(())), Ok(true));
    assert_eq!(lifecycle.open(|| Err("must not run")), Ok(false));
    assert_eq!(lifecycle.apply_mute(false, || Err("must not run")), Ok(false));
    assert_eq!(lifecycle.close(|| Err("no mute to lift"), || {}), Ok(true));
    assert_eq!(lifecycle.close(|| Err("must not run"), || {}), Ok(false));
}
