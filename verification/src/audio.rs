//! Recording-side state machines: when the microphone level is shown, the serialized
//! open/close/mute lifecycle of the input stream, and the generation that ties a delayed
//! system mute to the recording that asked for it. The native audio calls are passed in.
use vstd::prelude::*;
use vstd::string::StringExecFns;
use crate::unicode::{chars_eq, chars_of};

verus! {

/// Whether a recording is running, and for which shortcut binding.
#[derive(Clone, Debug)]
pub enum RecordingState {
    Idle,
    Recording { binding_id: String },
}

/// Whether the microphone stream stays open between recordings.
#[derive(Clone, Debug)]
pub enum MicrophoneMode {
    AlwaysOn,
    OnDemand,
}

/// Microphone levels are emitted while recording or while a monitoring session asks.
pub fn should_emit_mic_level(is_recording: bool, monitoring_requested: bool) -> (r: bool)
    ensures
        r == (is_recording || monitoring_requested),
{
    is_recording || monitoring_requested
}

/// Whether the input stream is open and whether this app muted the system output. Stream
/// and mute transitions go through these methods one at a time (callers hold one lock
/// around them); each native operation is handed in as a closure and its failure leaves
/// the recorded state as it was.
pub struct AudioLifecycle {
    is_open: bool,
    did_mute: bool,
}

impl Default for AudioLifecycle {
    fn default() -> (r: Self)
        ensures
            !r.open_spec(),
            !r.muted_spec(),
    {
        AudioLifecycle { is_open: false, did_mute: false }
    }
}

impl AudioLifecycle {
    pub closed spec fn open_spec(&self) -> bool {
        self.is_open
    }

    pub closed spec fn muted_spec(&self) -> bool {
        self.did_mute
    }

    pub fn is_open(&self) -> (r: bool)
        ensures
            r == self.open_spec(),
    {
        self.is_open
    }

    pub fn did_mute(&self) -> (r: bool)
        ensures
            r == self.muted_spec(),
    {
        self.did_mute
    }

    /// Opens the stream unless it is open. `Ok(true)` when `open` ran and succeeded; an
    /// error from `open` leaves the stream closed.
    pub fn open<E, F: FnOnce() -> Result<(), E>>(&mut self, open: F) -> (r: Result<bool, E>)
        requires
            open.requires(()),
        ensures
            final(self).muted_spec() == old(self).muted_spec(),
            old(self).open_spec() ==> (r matches Ok(false) && final(self).open_spec()),
            !old(self).open_spec() ==> match r {
                Ok(b) => b && (exists|res: Result<(), E>| #[trigger] open.ensures((), res) && res is Ok) && final(self).open_spec(),
                Err(e) => open.ensures((), Err(e)) && !final(self).open_spec(),
            },
    {
        if self.is_open {
            return Ok(false);
        }
        match open() {
            Ok(()) => {
                self.is_open = true;
                Ok(true)
            },
            Err(e) => Err(e),
        }
    }

    /// Closes an open stream: first lifts a mute this app applied (a failed unmute keeps the
    /// mute recorded so it can be retried), then closes the stream whatever the unmute did,
    /// and reports the unmute's error if there was one.
    pub fn close<E, U: FnOnce() -> Result<(), E>, C: FnOnce()>(&mut self, unmute: U, close: C) -> (r: Result<bool, E>)
        requires
            unmute.requires(()),
            close.requires(()),
        ensures
            !final(self).open_spec(),
            old(self).open_spec() ==> close.ensures((), ()),
            !old(self).open_spec() ==> (r matches Ok(false) && final(self).muted_spec() == old(self).muted_spec()),
            old(self).open_spec() && !old(self).muted_spec() ==> (r matches Ok(true) && !final(self).muted_spec()),
            old(self).open_spec() && old(self).muted_spec() ==> match r {
                Ok(b) => b && (exists|res: Result<(), E>| #[trigger] unmute.ensures((), res) && res is Ok) && !final(self).muted_spec(),
                Err(e) => unmute.ensures((), Err(e)) && final(self).muted_spec(),
            },
    {
        if !self.is_open {
            return Ok(false);
        }
        let unmute_result = if self.did_mute {
            unmute()
        } else {
            Ok(())
        };
        let failed = unmute_result.is_err();
        if self.did_mute && !failed {
            self.did_mute = false;
        }
        close();
        self.is_open = false;
        match unmute_result {
            Ok(()) => Ok(true),
            Err(e) => Err(e),
        }
    }

    /// Mutes the system output for a recording when enabled, the stream is open, and no
    /// mute is in place yet. Only a successful `mute` is recorded.
    pub fn apply_mute<E, M: FnOnce() -> Result<(), E>>(&mut self, enabled: bool, mute: M) -> (r: Result<bool, E>)
        requires
            mute.requires(()),
        ensures
            final(self).open_spec() == old(self).open_spec(),
            !enabled || !old(self).open_spec() || old(self).muted_spec() ==> (r matches Ok(false)
                && final(self).muted_spec() == old(self).muted_spec()),
            enabled && old(self).open_spec() && !old(self).muted_spec() ==> match r {
                Ok(b) => b && (exists|res: Result<(), E>| #[trigger] mute.ensures((), res) && res is Ok) && final(self).muted_spec(),
                Err(e) => mute.ensures((), Err(e)) && !final(self).muted_spec(),
            },
    {
        if !enabled || !self.is_open || self.did_mute {
            return Ok(false);
        }
        match mute() {
            Ok(()) => {
                self.did_mute = true;
                Ok(true)
            },
            Err(e) => Err(e),
        }
    }

    /// Lifts a mute this app applied; a failed `unmute` keeps it recorded.
    pub fn remove_mute<E, U: FnOnce() -> Result<(), E>>(&mut self, unmute: U) -> (r: Result<bool, E>)
        requires
            unmute.requires(()),
        ensures
            final(self).open_spec() == old(self).open_spec(),
            !old(self).muted_spec() ==> (r matches Ok(false) && !final(self).muted_spec()),
            old(self).muted_spec() ==> match r {
                Ok(b) => b && (exists|res: Result<(), E>| #[trigger] unmute.ensures((), res) && res is Ok) && !final(self).muted_spec(),
                Err(e) => unmute.ensures((), Err(e)) && final(self).muted_spec(),
            },
    {
        if !self.did_mute {
            return Ok(false);
        }
        match unmute() {
            Ok(()) => {
                self.did_mute = false;
                Ok(true)
            },
            Err(e) => Err(e),
        }
    }
}

/// Which recording may still run a delayed mute. A recording can stop while the feedback
/// thread is still waiting to mute, so each recording arms a fresh generation and only the
/// armed one is active.
pub struct RecordingMuteIntent {
    next_generation: u64,
    active: Option<(String, u64)>,
}

impl Default for RecordingMuteIntent {
    fn default() -> (r: Self)
        ensures
            r.issued_spec() == 0,
            r.active_spec() is None,
    {
        RecordingMuteIntent { next_generation: 0, active: None }
    }
}

impl RecordingMuteIntent {
    /// The last generation handed out.
    pub closed spec fn issued_spec(&self) -> u64 {
        self.next_generation
    }

    /// The binding and generation of the armed mute, if any.
    pub closed spec fn active_spec(&self) -> Option<(Seq<char>, u64)> {
        match self.active {
            Some((b, g)) => Some((b@, g)),
            None => None,
        }
    }

    /// Arms a new generation for `binding_id`, replacing any armed one.
    pub fn arm(&mut self, binding_id: &str) -> (generation: u64)
        requires
            old(self).issued_spec() < u64::MAX,
        ensures
            generation == old(self).issued_spec() + 1,
            final(self).issued_spec() == generation,
            final(self).active_spec() == Some((binding_id@, generation)),
    {
        self.next_generation = self.next_generation + 1;
        let generation = self.next_generation;
        self.active = Some((String::from_str(binding_id), generation));
        generation
    }

    /// Whether `generation` is the armed one.
    pub fn is_active(&self, generation: u64) -> (r: bool)
        ensures
            r == (self.active_spec() matches Some((_, g)) && g == generation),
    {
        match &self.active {
            Some((_, g)) => *g == generation,
            None => false,
        }
    }

    /// Disarms the mute if it belongs to `binding_id`; a stop of another binding leaves it.
    pub fn disarm(&mut self, binding_id: &str) -> (r: bool)
        ensures
            final(self).issued_spec() == old(self).issued_spec(),
            r == (old(self).active_spec() matches Some((b, _)) && b == binding_id@),
            r ==> final(self).active_spec() is None,
            !r ==> final(self).active_spec() == old(self).active_spec(),
    {
        let matches = match &self.active {
            Some((b, _)) => chars_eq(chars_of(b.as_str()).as_slice(), chars_of(binding_id).as_slice()),
            None => false,
        };
        if matches {
            self.active = None;
        }
        matches
    }
}

/// A generation handed out before a later arm is never active after it: a delayed mute of
/// an earlier recording cannot attach to a newer one.
pub proof fn law_old_generation_cannot_attach(before: RecordingMuteIntent, after: RecordingMuteIntent, old_generation: u64, binding: Seq<char>)
    requires
        old_generation <= before.issued_spec(),
        after.issued_spec() == before.issued_spec() + 1,
        after.active_spec() == Some((binding, after.issued_spec())),
    ensures
        !(after.active_spec() matches Some((_, g)) && g == old_generation),
{
}

} // verus!
