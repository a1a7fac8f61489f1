//! Watchdog rules of the transcription pipeline: how long a transcription may run, the
//! generation-guarded slot that keeps a late engine from clobbering a newer one, and the
//! handshake that keeps the count of wedged workers exact. Threads and clocks are the
//! caller's.
use vstd::prelude::*;

verus! {

/// Shortest watchdog deadline, in seconds.
pub const TRANSCRIPTION_TIMEOUT_FLOOR_SECS: u64 = 120;

/// Longest watchdog deadline, in seconds.
pub const TRANSCRIPTION_TIMEOUT_CEILING_SECS: u64 = 600;

/// Budget per second of recorded audio.
pub const TRANSCRIPTION_TIMEOUT_REALTIME_FACTOR: u64 = 10;

/// Whole seconds of audio in `samples` at `rate` Hz, rounded up (a rate of 0 counts as 1).
pub open spec fn audio_secs(samples: nat, rate: nat) -> nat {
    let r = if rate == 0 { 1 } else { rate };
    samples / r + if samples % r == 0 { 0nat } else { 1nat }
}

/// `x` clamped to `[lo, hi]`.
pub open spec fn clamp(x: int, lo: int, hi: int) -> int {
    if x < lo { lo } else if x > hi { hi } else { x }
}

/// The watchdog deadline in seconds: ten times the audio's duration, clamped to the floor
/// and the ceiling.
pub open spec fn watchdog_timeout_secs(samples: nat, rate: nat) -> int {
    clamp((audio_secs(samples, rate) * 10) as int, 120, 600)
}

/// Watchdog deadline, in whole seconds, for a transcription of `sample_count` mono samples
/// at `sample_rate` Hz: ten times the audio duration, clamped so short clips are not cut
/// off early and long ones cannot wedge the interface forever.
pub fn transcription_watchdog_timeout(sample_count: usize, sample_rate: u32) -> (r: u64)
    ensures
        r == watchdog_timeout_secs(sample_count as nat, sample_rate as nat),
{
    let rate: u64 = if sample_rate == 0 { 1 } else { sample_rate as u64 };
    let samples = sample_count as u64;
    let whole = samples / rate;
    if whole >= TRANSCRIPTION_TIMEOUT_CEILING_SECS / TRANSCRIPTION_TIMEOUT_REALTIME_FACTOR {
        return TRANSCRIPTION_TIMEOUT_CEILING_SECS;
    }
    let secs = whole + if samples % rate == 0 { 0 } else { 1 };
    let t = secs * TRANSCRIPTION_TIMEOUT_REALTIME_FACTOR;
    if t < TRANSCRIPTION_TIMEOUT_FLOOR_SECS {
        TRANSCRIPTION_TIMEOUT_FLOOR_SECS
    } else if t > TRANSCRIPTION_TIMEOUT_CEILING_SECS {
        TRANSCRIPTION_TIMEOUT_CEILING_SECS
    } else {
        t
    }
}

/// The slot for the loaded engine, guarded by a generation counter. Every install and
/// clear bumps the generation and a take records the one it saw, so a late restore after
/// the slot changed is refused instead of clobbering it. Sharing callers wrap it in a lock.
pub struct GenerationGate<T> {
    value: Option<T>,
    generation: u64,
}

impl<T> GenerationGate<T> {
    /// What the slot holds.
    pub closed spec fn value_spec(&self) -> Option<T> {
        self.value
    }

    /// The current generation.
    pub closed spec fn generation_spec(&self) -> u64 {
        self.generation
    }

    /// An empty slot at generation 0.
    pub fn new() -> (g: Self)
        ensures
            g.value_spec() is None,
            g.generation_spec() == 0,
    {
        GenerationGate { value: None, generation: 0 }
    }

    pub fn is_occupied(&self) -> (r: bool)
        ensures
            r == self.value_spec() is Some,
    {
        self.value.is_some()
    }

    /// Puts a new value in the slot, replacing any previous one.
    pub fn install(&mut self, value: T)
        requires
            old(self).generation_spec() < u64::MAX,
        ensures
            final(self).value_spec() == Some(value),
            final(self).generation_spec() == old(self).generation_spec() + 1,
    {
        self.generation = self.generation + 1;
        self.value = Some(value);
    }

    /// Empties the slot. The generation moves even when it was already empty, so a value
    /// taken out by a running transcription cannot come back after the unload.
    pub fn clear(&mut self)
        requires
            old(self).generation_spec() < u64::MAX,
        ensures
            final(self).value_spec() is None,
            final(self).generation_spec() == old(self).generation_spec() + 1,
    {
        self.generation = self.generation + 1;
        self.value = None;
    }

    /// Takes the value out together with the generation observed at take time.
    pub fn take(&mut self) -> (r: Option<(T, u64)>)
        ensures
            final(self).value_spec() is None,
            final(self).generation_spec() == old(self).generation_spec(),
            r == match old(self).value_spec() {
                Some(v) => Some((v, old(self).generation_spec())),
                None => None,
            },
    {
        let generation = self.generation;
        match self.value.take() {
            Some(value) => Some((value, generation)),
            None => None,
        }
    }

    /// Puts a taken value back only if the generation is unchanged since the take; `false`
    /// (dropping the stale value) if the slot was cleared or refilled meanwhile.
    pub fn try_restore(&mut self, value: T, taken_generation: u64) -> (r: bool)
        ensures
            r == (old(self).generation_spec() == taken_generation),
            final(self).generation_spec() == old(self).generation_spec(),
            r ==> final(self).value_spec() == Some(value),
            !r ==> final(self).value_spec() == old(self).value_spec(),
    {
        if self.generation == taken_generation {
            self.value = Some(value);
            true
        } else {
            false
        }
    }
}

/// One operation on a [`GenerationGate`].
#[derive(Clone, Copy, Debug, PartialEq, Eq, Structural)]
pub enum GateOp {
    Install,
    Clear,
    Take,
    /// A restore, accepted or refused; it never moves the generation.
    Restore,
}

/// The generation after the operations `ops`, starting from `g`.
pub open spec fn generation_after(g: int, ops: Seq<GateOp>) -> int
    decreases ops.len(),
{
    if ops.len() == 0 {
        g
    } else {
        let g1 = match ops[0] {
            GateOp::Install => g + 1,
            GateOp::Clear => g + 1,
            GateOp::Take => g,
            GateOp::Restore => g,
        };
        generation_after(g1, ops.drop_first())
    }
}

/// Whether `ops` refills or empties the slot.
pub open spec fn changes_slot(ops: Seq<GateOp>) -> bool {
    exists|i: int| 0 <= i < ops.len() && (ops[i] == GateOp::Install || ops[i] == GateOp::Clear)
}

/// A restore with the generation seen at a take is accepted exactly when no install or
/// clear happened since: the generation after the operations in between equals the taken
/// one iff none of them refilled or emptied the slot.
pub proof fn law_restore_accepted_iff_untouched(g: int, ops: Seq<GateOp>)
    ensures
        (generation_after(g, ops) == g) <==> !changes_slot(ops),
        generation_after(g, ops) >= g,
    decreases ops.len(),
{
    if ops.len() > 0 {
        let g1 = match ops[0] {
            GateOp::Install => g + 1,
            GateOp::Clear => g + 1,
            GateOp::Take => g,
            GateOp::Restore => g,
        };
        law_restore_accepted_iff_untouched(g1, ops.drop_first());
        law_restore_accepted_iff_untouched(g, ops.drop_first());
        lemma_generation_after_shift(g, ops.drop_first());
        if changes_slot(ops.drop_first()) {
            let i = choose|i: int| 0 <= i < ops.drop_first().len() && (ops.drop_first()[i] == GateOp::Install
                || ops.drop_first()[i] == GateOp::Clear);
            assert(ops[i + 1] == ops.drop_first()[i]);
        }
        if changes_slot(ops) && ops[0] != GateOp::Install && ops[0] != GateOp::Clear {
            let i = choose|i: int| 0 <= i < ops.len() && (ops[i] == GateOp::Install || ops[i] == GateOp::Clear);
            assert(ops.drop_first()[i - 1] == ops[i]);
        }
    }
}

/// How a call moves a gate's generation, as the contracts of `install`, `clear`, `take` and
/// `try_restore` say.
pub open spec fn gate_step<T>(before: GenerationGate<T>, op: GateOp, after: GenerationGate<T>) -> bool {
    match op {
        GateOp::Install | GateOp::Clear => after.generation_spec() == before.generation_spec() + 1,
        GateOp::Take | GateOp::Restore => after.generation_spec() == before.generation_spec(),
    }
}

proof fn lemma_gate_run<T>(gates: Seq<GenerationGate<T>>, ops: Seq<GateOp>)
    requires
        gates.len() == ops.len() + 1,
        forall|i: int| 0 <= i < ops.len() ==> gate_step(#[trigger] gates[i], ops[i], gates[i + 1]),
    ensures
        gates.last().generation_spec() == generation_after(gates[0].generation_spec() as int, ops),
    decreases ops.len(),
{
    if ops.len() > 0 {
        let rest = gates.drop_first();
        assert forall|i: int| 0 <= i < ops.drop_first().len() implies gate_step(
            #[trigger] rest[i],
            ops.drop_first()[i],
            rest[i + 1],
        ) by {
            assert(gate_step(gates[i + 1], ops[i + 1], gates[i + 2]));
        }
        assert(gate_step(gates[0], ops[0], gates[1]));
        lemma_gate_run(rest, ops.drop_first());
    }
}

/// Over any run of calls on a gate after a take, `try_restore` with the taken generation is
/// accepted exactly when none of the calls was an `install` or a `clear`: `gates` are the
/// gate's states between the calls `ops`, starting right after the take.
pub proof fn law_restore_after_calls<T>(gates: Seq<GenerationGate<T>>, ops: Seq<GateOp>, taken: u64)
    requires
        gates.len() == ops.len() + 1,
        gates[0].generation_spec() == taken,
        forall|i: int| 0 <= i < ops.len() ==> gate_step(#[trigger] gates[i], ops[i], gates[i + 1]),
    ensures
        (gates.last().generation_spec() == taken) <==> !changes_slot(ops),
{
    lemma_gate_run(gates, ops);
    law_restore_accepted_iff_untouched(taken as int, ops);
}

/// The restore law for `try_restore`. `gates` are the states of one gate, the first right
/// after a take that saw generation `taken`, each next one reached by a call in `ops`;
/// `accepted` is what `try_restore` with `taken` returns on the last state, which by its
/// contract is whether the generation is still `taken`. It is `true` exactly when none of
/// the calls was an `install` or a `clear`.
pub proof fn law_try_restore_after_calls<T>(
    gates: Seq<GenerationGate<T>>,
    ops: Seq<GateOp>,
    taken: u64,
    accepted: bool,
)
    requires
        gates.len() == ops.len() + 1,
        gates[0].generation_spec() == taken,
        forall|i: int| 0 <= i < ops.len() ==> gate_step(#[trigger] gates[i], ops[i], gates[i + 1]),
        accepted == (gates.last().generation_spec() == taken),
    ensures
        accepted <==> !changes_slot(ops),
{
    law_restore_after_calls(gates, ops, taken);
}

/// Starting one higher ends one higher.
pub proof fn lemma_generation_after_shift(g: int, ops: Seq<GateOp>)
    ensures
        generation_after(g + 1, ops) == generation_after(g, ops) + 1,
    decreases ops.len(),
{
    if ops.len() > 0 {
        let g1 = match ops[0] {
            GateOp::Install => g + 1,
            GateOp::Clear => g + 1,
            GateOp::Take => g,
            GateOp::Restore => g,
        };
        lemma_generation_after_shift(g1, ops.drop_first());
    }
}

/// How a watchdog-guarded call ended.
#[derive(Debug)]
pub enum WatchdogOutcome<T> {
    /// The call finished within the deadline; its result is inside.
    Completed(T),
    /// The deadline passed with the worker still running; it counts as wedged until it
    /// resolves.
    TimedOut,
    /// The worker panicked before producing a result.
    Panicked,
}

/// The handshake between a watchdog and its worker, so that the wedged-worker count stays
/// exact even when the worker finishes right at the deadline. Both sides act under one lock.
#[derive(Clone, Copy, Debug, PartialEq, Eq, Structural)]
pub struct WatchdogHandshake {
    pub finished: bool,
    pub timed_out: bool,
}

/// The worker's step: it is finished, and it learns whether it had been timed out.
pub open spec fn worker_step(h: WatchdogHandshake) -> (WatchdogHandshake, bool) {
    (WatchdogHandshake { finished: true, timed_out: h.timed_out }, h.timed_out)
}

/// The watchdog's step at the deadline: it learns whether the worker had finished, and
/// marks an unfinished worker timed out.
pub open spec fn deadline_step(h: WatchdogHandshake) -> (WatchdogHandshake, bool) {
    (WatchdogHandshake { finished: h.finished, timed_out: h.timed_out || !h.finished }, h.finished)
}

impl WatchdogHandshake {
    /// Neither side has acted yet.
    pub fn new() -> (h: Self)
        ensures
            !h.finished && !h.timed_out,
    {
        WatchdogHandshake { finished: false, timed_out: false }
    }

    /// The worker finished. Returns whether the watchdog had already given up on it, in
    /// which case the worker takes itself off the wedged count.
    pub fn worker_finished(&mut self) -> (was_timed_out: bool)
        ensures
            (*final(self), was_timed_out) == worker_step(*old(self)),
    {
        self.finished = true;
        self.timed_out
    }

    /// The deadline passed. Returns whether the worker had already finished (its result,
    /// or its panic, is then final); otherwise the worker is marked timed out and the
    /// watchdog adds it to the wedged count.
    pub fn deadline_passed(&mut self) -> (already_finished: bool)
        ensures
            (*final(self), already_finished) == deadline_step(*old(self)),
    {
        if self.finished {
            true
        } else {
            self.timed_out = true;
            false
        }
    }
}

/// Net change of the wedged count once both sides have acted on a fresh handshake, in the
/// given order: the watchdog adds one when the deadline finds the worker unfinished, and
/// the worker removes one when it finds itself timed out.
pub open spec fn wedged_delta(deadline_first: bool) -> int {
    let h0 = WatchdogHandshake { finished: false, timed_out: false };
    if deadline_first {
        let (h1, finished) = deadline_step(h0);
        let (_, timed_out) = worker_step(h1);
        (if finished { 0int } else { 1int }) - (if timed_out { 1int } else { 0int })
    } else {
        let (h1, timed_out) = worker_step(h0);
        let (_, finished) = deadline_step(h1);
        (if finished { 0int } else { 1int }) - (if timed_out { 1int } else { 0int })
    }
}

/// Whichever side acts first, a worker leaves the wedged count as it found it once both
/// have acted.
pub proof fn law_wedged_count_balances(deadline_first: bool)
    ensures
        wedged_delta(deadline_first) == 0,
{
}

} // verus!
