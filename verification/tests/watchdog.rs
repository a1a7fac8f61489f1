use audiobud::watchdog::{
    transcription_watchdog_timeout, GenerationGate, WatchdogHandshake,
    TRANSCRIPTION_TIMEOUT_CEILING_SECS, TRANSCRIPTION_TIMEOUT_FLOOR_SECS,
};

#[test]
fn watchdog_watchdog_timeout_scales_with_audio_duration_within_bounds() {
    const RATE: u32 = 16_000;
    // Short clip: clamped up to the floor.
    assert_eq!(
        transcription_watchdog_timeout(10 * RATE as usize, RATE),
        TRANSCRIPTION_TIMEOUT_FLOOR_SECS
    );
    // 30s of audio: 10x realtime = 300s, between floor and ceiling.
    assert_eq!(transcription_watchdog_timeout(30 * RATE as usize, RATE), 300);
    // Very long recording: clamped down to the ceiling.
    assert_eq!(
        transcription_watchdog_timeout(600 * RATE as usize, RATE),
        TRANSCRIPTION_TIMEOUT_CEILING_SECS
    );
    // Empty audio still gets the floor.
    assert_eq!(
        transcription_watchdog_timeout(0, RATE),
        TRANSCRIPTION_TIMEOUT_FLOOR_SECS
    );
}

#[test]
fn watchdog_generation_gate_restores_when_the_slot_is_untouched() {
    let mut gate: GenerationGate<u32> = GenerationGate::new();
    gate.install(7);
    let (value, generation) = gate.take().expect("installed value must be takeable");
    assert!(!gate.is_occupied());
    assert!(
        gate.try_restore(value, generation),
        "a take/restore with no intervening slot change must succeed"
    );
    assert!(gate.is_occupied());
}

#[test]
fn watchdog_generation_gate_rejects_a_restore_after_clear() {
    let mut gate: GenerationGate<u32> = GenerationGate::new();
    gate.install(7);
    let (value, generation) = gate.take().expect("installed value must be takeable");
    gate.clear();
    assert!(
        !gate.try_restore(value, generation),
        "restoring after an unload must be rejected"
    );
    assert!(!gate.is_occupied());
}

#[test]
fn watchdog_generation_gate_rejects_a_restore_after_a_new_install() {
    let mut gate: GenerationGate<u32> = GenerationGate::new();
    gate.install(7);
    let (stale, generation) = gate.take().expect("installed value must be takeable");
    gate.install(8);
    assert!(
        !gate.try_restore(stale, generation),
        "restoring over a newly installed value must be rejected"
    );
    let (current, _) = gate.take().expect("the new value must still be in the slot");
    assert_eq!(current, 8, "the newly installed value must win");
}

#[test]
fn transcription_watchdog_timeout_scales_with_audio_duration_within_bounds() {
    const RATE: u32 = 16_000;
    // Short clip: clamped up to the floor.
    assert_eq!(
        transcription_watchdog_timeout(10 * RATE as usize, RATE),
        TRANSCRIPTION_TIMEOUT_FLOOR_SECS
    );
    // 30s of audio: 10x realtime = 300s, between floor and ceiling.
    assert_eq!(transcription_watchdog_timeout(30 * RATE as usize, RATE), 300);
    // Very long recording: clamped down to the ceiling.
    assert_eq!(
        transcription_watchdog_timeout(600 * RATE as usize, RATE),
        TRANSCRIPTION_TIMEOUT_CEILING_SECS
    );
    // Empty audio still gets the floor.
    assert_eq!(
        transcription_watchdog_timeout(0, RATE),
        TRANSCRIPTION_TIMEOUT_FLOOR_SECS
    );
}

#[test]
fn transcription_generation_gate_restores_when_the_slot_is_untouched() {
    let mut gate: GenerationGate<u32> = GenerationGate::new();
    gate.install(7);
    let (value, generation) = gate.take().expect("installed value must be takeable");
    assert!(!gate.is_occupied());
    assert!(
        gate.try_restore(value, generation),
        "a take/restore with no intervening slot change must succeed"
    );
    assert!(gate.is_occupied());
}

#[test]
fn transcription_generation_gate_rejects_a_restore_after_clear() {
    let mut gate: GenerationGate<u32> = GenerationGate::new();
    gate.install(7);
    let (value, generation) = gate.take().expect("installed value must be takeable");
    gate.clear();
    assert!(
        !gate.try_restore(value, generation),
        "restoring after an unload must be rejected"
    );
    assert!(!gate.is_occupied());
}

#[test]
fn transcription_generation_gate_rejects_a_restore_after_a_new_install() {
    let mut gate: GenerationGate<u32> = GenerationGate::new();
    gate.install(7);
    let (stale, generation) = gate.take().expect("installed value must be takeable");
    gate.install(8);
    assert!(
        !gate.try_restore(stale, generation),
        "restoring over a newly installed value must be rejected"
    );
    let (current, _) = gate.take().expect("the new value must still be in the slot");
    assert_eq!(current, 8, "the newly installed value must win");
}

#[test]
fn the_deadline_rounds_partial_seconds_up() {
    // 12.5 s of audio counts as 13 s, so 130 s.
    assert_eq!(transcription_watchdog_timeout(200_000, 16_000), 130);
    // A zero rate is read as one sample per second.
    assert_eq!(transcription_watchdog_timeout(20, 0), 200);
}

#[test]
fn a_worker_finishing_after_the_deadline_takes_itself_off_the_wedged_count() {
    let mut late = WatchdogHandshake::new();
    assert!(!late.deadline_passed());
    assert!(late.worker_finished());

    let mut on_time = WatchdogHandshake::new();
    assert!(!on_time.worker_finished());
    assert!(on_time.deadline_passed());
}
