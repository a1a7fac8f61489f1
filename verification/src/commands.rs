//! The one-time registration of the keyboard shortcuts. Registration is idempotent within
//! a process, and a failure that may have left shortcuts half-registered blocks a retry.
use vstd::prelude::*;

verus! {

/// Marker that the shortcuts were registered.
pub struct ShortcutsInitialized;

/// Where shortcut registration stands in this process.
#[derive(Debug)]
pub enum ShortcutInitializationStatus {
    Idle,
    Initialized,
    /// Registration failed in a way that may have left state behind; the error is repeated.
    CleanupFailed(String),
}

impl Default for ShortcutInitializationStatus {
    fn default() -> (r: Self)
        ensures
            r is Idle,
    {
        ShortcutInitializationStatus::Idle
    }
}

/// Registers the shortcuts once. A finished registration answers `Ok` without running
/// anything, and a failed cleanup answers its error again. Otherwise shortcuts registered
/// elsewhere are adopted; failing that, `initialize` runs, and on success
/// `mark_initialized` records it. A failure is returned, and blocks later attempts unless
/// `allows_retry` says the error left nothing behind.
pub fn initialize_shortcuts_once<I, N, M, R>(
    state: &mut ShortcutInitializationStatus,
    is_initialized: I,
    initialize: N,
    mark_initialized: M,
    allows_retry: R,
) -> (r: Result<(), String>) where
    I: FnOnce() -> bool,
    N: FnOnce() -> Result<(), String>,
    M: FnOnce(),
    R: FnOnce(&String) -> bool,

    requires
        is_initialized.requires(()),
        initialize.requires(()),
        mark_initialized.requires(()),
        forall|e: &String| allows_retry.requires((e,)),
    ensures
        *old(state) is Initialized ==> r is Ok && *final(state) is Initialized,
        *old(state) matches ShortcutInitializationStatus::CleanupFailed(e) ==> (r matches Err(m) && m@ == e@
            && *final(state) == *old(state)),
        *old(state) is Idle ==> match r {
            Ok(_) => *final(state) is Initialized && (is_initialized.ensures((), true) || (
            is_initialized.ensures((), false) && (exists|res: Result<(), String>|
                #[trigger] initialize.ensures((), res) && res is Ok) && mark_initialized.ensures((), ()))),
            Err(e) => {
                &&& is_initialized.ensures((), false)
                &&& initialize.ensures((), Err(e))
                &&& *final(state) is Idle ==> allows_retry.ensures((&e,), true)
                &&& !(*final(state) is Idle) ==> (*final(state) matches ShortcutInitializationStatus::CleanupFailed(f)
                    && f@ == e@ && allows_retry.ensures((&e,), false))
            },
        },
{
    match state {
        ShortcutInitializationStatus::Initialized => return Ok(()),
        ShortcutInitializationStatus::CleanupFailed(error) => return Err(error.clone()),
        ShortcutInitializationStatus::Idle => {},
    }
    if is_initialized() {
        *state = ShortcutInitializationStatus::Initialized;
        return Ok(());
    }
    let outcome = initialize();
    match outcome {
        Ok(()) => {
            mark_initialized();
            *state = ShortcutInitializationStatus::Initialized;
            Ok(())
        },
        Err(error) => {
            if !allows_retry(&error) {
                *state = ShortcutInitializationStatus::CleanupFailed(error.clone());
            }
            Err(error)
        },
    }
}

} // verus!
