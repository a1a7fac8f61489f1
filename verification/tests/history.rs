use audiobud::history::{cleanup_rule, is_safe_recording_filename, CleanupRule, RecordingRetentionPeriod};

#[test]
fn is_safe_recording_filename_accepts_generated_names() {
    assert!(is_safe_recording_filename("handy-1700000000.wav"));
    assert!(is_safe_recording_filename("custom_start.wav"));
}

#[test]
fn is_safe_recording_filename_rejects_traversal_and_absolute() {
    assert!(!is_safe_recording_filename(""));
    assert!(!is_safe_recording_filename(".."));
    assert!(!is_safe_recording_filename("../secret.txt"));
    assert!(!is_safe_recording_filename("..\\..\\Windows\\win.ini"));
    assert!(!is_safe_recording_filename("sub/handy.wav"));
    assert!(!is_safe_recording_filename("sub\\handy.wav"));
    assert!(!is_safe_recording_filename("C:\\Windows\\win.ini"));
    assert!(!is_safe_recording_filename("\\\\server\\share\\payload"));
    assert!(!is_safe_recording_filename("handy\0.wav"));
}

#[test]
fn dot_names_and_drive_prefixes_are_refused() {
    assert!(!is_safe_recording_filename("."));
    assert!(!is_safe_recording_filename("C:handy.wav"));
    assert!(is_safe_recording_filename("...wav"));
    assert!(is_safe_recording_filename("2024:01.wav"));
}

#[test]
fn retention_settings_pick_the_cleanup() {
    use_cleanup_rules();
}

fn use_cleanup_rules() {
    let now = 1_700_000_000;
    assert_eq!(cleanup_rule(RecordingRetentionPeriod::Never, 5, now), CleanupRule::KeepAll);
    assert_eq!(
        cleanup_rule(RecordingRetentionPeriod::PreserveLimit, 5, now),
        CleanupRule::BeyondCount(5)
    );
    assert_eq!(
        cleanup_rule(RecordingRetentionPeriod::Days3, 5, now),
        CleanupRule::OlderThan(now - 259_200)
    );
    assert_eq!(
        cleanup_rule(RecordingRetentionPeriod::Weeks2, 5, now),
        CleanupRule::OlderThan(now - 1_209_600)
    );
    assert_eq!(
        cleanup_rule(RecordingRetentionPeriod::Months3, 5, now),
        CleanupRule::OlderThan(now - 7_776_000)
    );
}
