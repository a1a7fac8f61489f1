//! The settings window's launch rule and the flags that serialize its creation and its
//! queued update check. Building and showing the webview are the caller's.
use vstd::prelude::*;

verus! {

/// Whether the settings webview must be built at launch: during permission onboarding,
/// when neither the settings nor the command line asked to start hidden, or when there is
/// no usable tray icon to reopen it from.
pub fn required_at_launch(
    settings_start_hidden: bool,
    cli_start_hidden: bool,
    permission_onboarding: bool,
    tray_available: bool,
) -> (r: bool)
    ensures
        r == (permission_onboarding || !(settings_start_hidden || cli_start_hidden) || !tray_available),
{
    permission_onboarding || !(settings_start_hidden || cli_start_hidden) || !tray_available
}

/// Creation, show and update-check flags of the settings window. Callers sharing it across
/// threads hold one lock around each call.
pub struct MainWindowState {
    creating: bool,
    show_requested: bool,
    ready: bool,
    pending_update_check: bool,
}

impl Default for MainWindowState {
    fn default() -> (r: Self)
        ensures
            !r.creating_spec() && !r.show_requested_spec() && !r.ready_spec() && !r.pending_update_check_spec(),
    {
        MainWindowState { creating: false, show_requested: false, ready: false, pending_update_check: false }
    }
}

impl MainWindowState {
    pub closed spec fn creating_spec(&self) -> bool {
        self.creating
    }

    pub closed spec fn show_requested_spec(&self) -> bool {
        self.show_requested
    }

    pub closed spec fn ready_spec(&self) -> bool {
        self.ready
    }

    pub closed spec fn pending_update_check_spec(&self) -> bool {
        self.pending_update_check
    }

    /// Claims the right to build the window; only one claimant wins until creation ends.
    pub fn claim_creation(&mut self) -> (won: bool)
        ensures
            won == !old(self).creating_spec(),
            final(self).creating_spec(),
            final(self).show_requested_spec() == old(self).show_requested_spec(),
            final(self).ready_spec() == old(self).ready_spec(),
            final(self).pending_update_check_spec() == old(self).pending_update_check_spec(),
    {
        if self.creating {
            false
        } else {
            self.creating = true;
            true
        }
    }

    /// Records that the window should be shown.
    pub fn request_show(&mut self)
        ensures
            final(self).show_requested_spec(),
            final(self).creating_spec() == old(self).creating_spec(),
            final(self).ready_spec() == old(self).ready_spec(),
            final(self).pending_update_check_spec() == old(self).pending_update_check_spec(),
    {
        self.show_requested = true;
    }

    /// An existing window was shown, so the request is served.
    pub fn shown(&mut self)
        ensures
            !final(self).show_requested_spec(),
            final(self).creating_spec() == old(self).creating_spec(),
            final(self).ready_spec() == old(self).ready_spec(),
            final(self).pending_update_check_spec() == old(self).pending_update_check_spec(),
    {
        self.show_requested = false;
    }

    /// Creation ended (`built` tells whether a window now exists). Returns whether the new
    /// window must be shown: it was built and a show request is pending, which it serves.
    pub fn creation_finished(&mut self, built: bool) -> (show: bool)
        ensures
            !final(self).creating_spec(),
            show == (built && old(self).show_requested_spec()),
            final(self).show_requested_spec() == (old(self).show_requested_spec() && !built),
            final(self).ready_spec() == old(self).ready_spec(),
            final(self).pending_update_check_spec() == old(self).pending_update_check_spec(),
    {
        self.creating = false;
        if built {
            let show = self.show_requested;
            self.show_requested = false;
            show
        } else {
            false
        }
    }

    /// Queues an update check for the settings window.
    pub fn request_update_check(&mut self)
        ensures
            final(self).pending_update_check_spec(),
            final(self).creating_spec() == old(self).creating_spec(),
            final(self).show_requested_spec() == old(self).show_requested_spec(),
            final(self).ready_spec() == old(self).ready_spec(),
    {
        self.pending_update_check = true;
    }

    /// Takes the queued update check if the window is ready to receive it. A caller whose
    /// delivery then fails queues it again.
    pub fn take_update_check(&mut self) -> (deliver: bool)
        ensures
            deliver == (old(self).ready_spec() && old(self).pending_update_check_spec()),
            final(self).pending_update_check_spec() == (old(self).pending_update_check_spec() && !deliver),
            final(self).creating_spec() == old(self).creating_spec(),
            final(self).show_requested_spec() == old(self).show_requested_spec(),
            final(self).ready_spec() == old(self).ready_spec(),
    {
        if self.ready && self.pending_update_check {
            self.pending_update_check = false;
            true
        } else {
            false
        }
    }

    /// The window's listeners are ready. Returns the update check queued before they
    /// existed, which the window then runs itself.
    pub fn mark_ready(&mut self) -> (pending: bool)
        ensures
            final(self).ready_spec(),
            pending == old(self).pending_update_check_spec(),
            !final(self).pending_update_check_spec(),
            final(self).creating_spec() == old(self).creating_spec(),
            final(self).show_requested_spec() == old(self).show_requested_spec(),
    {
        self.ready = true;
        let pending = self.pending_update_check;
        self.pending_update_check = false;
        pending
    }
}

} // verus!
