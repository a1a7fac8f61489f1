use audiobud::main_window::{required_at_launch, MainWindowState};

#[test]
fn hidden_launch_skips_the_webview_only_when_tray_is_usable() {
    assert!(!required_at_launch(true, false, false, true));
    assert!(!required_at_launch(false, true, false, true));
    assert!(required_at_launch(true, false, false, false));
    assert!(required_at_launch(true, false, true, true));
    assert!(required_at_launch(false, false, false, true));
}

#[test]
fn only_one_claimant_builds_the_window() {
    let mut state = MainWindowState::default();
    let winners = (0..8).filter(|_| state.claim_creation()).count();
    assert_eq!(winners, 1);
    state.request_show();
    assert!(state.creation_finished(true));
    assert!(state.claim_creation());
}

#[test]
fn an_update_check_waits_for_the_window_to_be_ready() {
    let mut state = MainWindowState::default();
    state.request_update_check();
    assert!(!state.take_update_check());
    assert!(state.mark_ready());
    assert!(!state.take_update_check());
    state.request_update_check();
    assert!(state.take_update_check());
    assert!(!state.take_update_check());
}
