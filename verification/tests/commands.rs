use audiobud::commands::{initialize_shortcuts_once, ShortcutInitializationStatus};
use std::sync::atomic::{AtomicUsize, Ordering};

/// Errors after which registration may be attempted again: none of the ones used here.
fn no_retry(_error: &String) -> bool {
    false
}

#[test]
fn cleanup_failure_blocks_a_same_process_retry() {
    let mut state = ShortcutInitializationStatus::Idle;
    let initialization_calls = AtomicUsize::new(0);
    let cleanup_error = "shortcut state may remain active".to_string();

    let first = initialize_shortcuts_once(
        &mut state,
        || false,
        || {
            initialization_calls.fetch_add(1, Ordering::SeqCst);
            Err(cleanup_error.clone())
        },
        || {},
        no_retry,
    );
    let second = initialize_shortcuts_once(
        &mut state,
        || false,
        || {
            initialization_calls.fetch_add(1, Ordering::SeqCst);
            Ok(())
        },
        || {},
        no_retry,
    );

    assert_eq!(first, Err(cleanup_error.clone()));
    assert_eq!(second, Err(cleanup_error));
    assert_eq!(initialization_calls.load(Ordering::SeqCst), 1);
}

#[test]
fn registration_runs_once_and_adopts_existing_shortcuts() {
    let mut state = ShortcutInitializationStatus::default();
    let calls = AtomicUsize::new(0);
    let marks = AtomicUsize::new(0);
    for _ in 0..2 {
        assert_eq!(
            initialize_shortcuts_once(
                &mut state,
                || false,
                || {
                    calls.fetch_add(1, Ordering::SeqCst);
                    Ok(())
                },
                || {
                    marks.fetch_add(1, Ordering::SeqCst);
                },
                no_retry,
            ),
            Ok(())
        );
    }
    assert_eq!(calls.load(Ordering::SeqCst), 1);
    assert_eq!(marks.load(Ordering::SeqCst), 1);

    let mut adopted = ShortcutInitializationStatus::default();
    assert_eq!(
        initialize_shortcuts_once(&mut adopted, || true, || Err("must not run".to_string()), || {}, no_retry),
        Ok(())
    );
}

#[test]
fn a_retryable_failure_leaves_registration_open() {
    let mut state = ShortcutInitializationStatus::default();
    assert_eq!(
        initialize_shortcuts_once(&mut state, || false, || Err("busy".to_string()), || {}, |_: &String| true),
        Err("busy".to_string())
    );
    assert_eq!(
        initialize_shortcuts_once(&mut state, || false, || Ok(()), || {}, no_retry),
        Ok(())
    );
}
