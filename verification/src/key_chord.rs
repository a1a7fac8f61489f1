//! Key chords sent through a keyboard backend: the modifiers are held down in order, the main
//! key is clicked (or pressed and held), and every key that was pressed is released again in
//! reverse order. A backend failure at any step still releases everything that was pressed.
//!
//! The chord is a small state machine: [`KeyChord::next_action`] says what the backend must do
//! next, and [`KeyChord::report`] takes the backend's answer. [`send_click_chord`] and
//! [`send_pressed_key_chord_with`] run it against any [`KeyInput`].
use vstd::prelude::*;
use crate::settings::AutoSubmitKey;

verus! {

/// A key as the chord logic sees it.
#[derive(Clone, Copy, Debug, PartialEq, Eq, Structural)]
pub enum ChordKey {
    Meta,
    Control,
    Shift,
    Return,
    Unicode(char),
    /// A raw platform key code.
    Other(u32),
}

/// What happens to a key in one backend event.
#[derive(Clone, Copy, Debug, PartialEq, Eq, Structural)]
pub enum KeyDirection {
    Press,
    Release,
    Click,
}

/// How the main key of a chord is sent.
#[derive(Clone, Copy, Debug, PartialEq, Eq, Structural)]
pub enum ChordStyle {
    /// Clicked while the modifiers are held, then a pause before the release.
    Click,
    /// Pressed and held like a modifier, then released first.
    Press,
}

/// The first backend failure of a chord, with the key it concerned and the backend's message.
#[derive(Clone, Debug, PartialEq, Eq)]
pub enum ChordError {
    Press(ChordKey, String),
    Click(ChordKey, String),
    Release(ChordKey, String),
}

/// Where a chord stands.
#[derive(Clone, Copy, Debug, PartialEq, Eq, Structural)]
pub enum ChordPhase {
    /// The modifier at this index is the next to press.
    Holding(usize),
    /// The main key is next.
    Main,
    /// The main key was clicked; the backend waits before releasing.
    Settling,
    /// Releasing the held keys, most recent first.
    Releasing,
    /// A backend call failed; releasing whatever is still held, ignoring further failures.
    Cleanup,
}

/// What the backend must do next.
#[derive(Clone, Copy, Debug, PartialEq, Eq, Structural)]
pub enum ChordAction {
    /// Send this event and report its outcome.
    Emit(ChordKey, KeyDirection),
    /// Wait the chord's delay, then call [`KeyChord::settle`].
    Settle,
    /// Nothing is held any more; [`KeyChord::finish`] gives the result.
    Finish,
}

/// A backend that emits single key events. A failing event may still have taken effect, so
/// the chord releases a key whose press was reported as failed too.
pub trait KeyInput {
    /// Every event sent so far, with whether the backend reported it as done.
    spec fn log(&self) -> Vec<(ChordKey, KeyDirection, bool)>;

    fn emit_key(&mut self, key: ChordKey, direction: KeyDirection) -> (r: Result<(), String>)
        ensures
            final(self).log()@ == old(self).log()@.push((key, direction, r is Ok)),
    ;

    /// Blocks for about `ms` milliseconds between a click and the release of its modifiers.
    fn wait_ms(&mut self, ms: u64)
        ensures
            final(self).log()@ == old(self).log()@,
    ;
}

/// The events a backend received after its log had `start` entries.
pub open spec fn sent_after(log: Seq<(ChordKey, KeyDirection, bool)>, start: int) -> Seq<
    (ChordKey, KeyDirection, bool),
> {
    log.skip(start)
}

/// How a chord sends its main key.
pub open spec fn main_direction(style: ChordStyle) -> KeyDirection {
    match style {
        ChordStyle::Click => KeyDirection::Click,
        ChordStyle::Press => KeyDirection::Press,
    }
}

/// The events a chord sends before releasing: each modifier pressed in order, then the
/// main key clicked or pressed.
pub open spec fn chord_plan(modifiers: Seq<ChordKey>, key: ChordKey, style: ChordStyle) -> Seq<
    (ChordKey, KeyDirection),
> {
    Seq::new(modifiers.len(), |i: int| (modifiers[i], KeyDirection::Press)).push(
        (key, main_direction(style)),
    )
}

/// What a run of key events means for a chord: the keys pressed and not yet released (most
/// recent last), whether some event failed, how much of the plan was sent, and whether the
/// run kept to the chord's rules so far.
pub struct ChordReplay {
    pub stack: Seq<ChordKey>,
    pub failed: bool,
    pub sent: nat,
    pub valid: bool,
}

/// One event of a run. A press or click must be the next planned event, and none is sent
/// after a failure. A release must name the most recently pressed key still held, and comes
/// only once the whole plan was sent or something failed; it takes the key off unless it
/// failed outside a cleanup, in which case the cleanup releases the same key again.
pub open spec fn replay_step(
    plan: Seq<(ChordKey, KeyDirection)>,
    s: ChordReplay,
    e: (ChordKey, KeyDirection, bool),
) -> ChordReplay {
    if e.1 == KeyDirection::Release {
        ChordReplay {
            stack: if e.2 || s.failed {
                s.stack.drop_last()
            } else {
                s.stack
            },
            failed: s.failed || !e.2,
            sent: s.sent,
            valid: s.valid && s.stack.len() > 0 && s.stack.last() == e.0 && (s.failed || s.sent
                == plan.len()),
        }
    } else {
        ChordReplay {
            stack: if e.1 == KeyDirection::Press {
                s.stack.push(e.0)
            } else {
                s.stack
            },
            failed: s.failed || !e.2,
            sent: s.sent + 1,
            valid: s.valid && !s.failed && s.sent < plan.len() && plan[s.sent as int] == (e.0, e.1),
        }
    }
}

/// The meaning of a run of events, from the state `start`.
pub open spec fn replay(
    plan: Seq<(ChordKey, KeyDirection)>,
    start: ChordReplay,
    events: Seq<(ChordKey, KeyDirection, bool)>,
) -> ChordReplay
    decreases events.len(),
{
    if events.len() == 0 {
        start
    } else {
        replay_step(plan, replay(plan, start, events.drop_last()), events.last())
    }
}

/// A chord before its first event.
pub open spec fn fresh_replay() -> ChordReplay {
    ChordReplay { stack: seq![], failed: false, sent: 0, valid: true }
}

/// A complete run: it kept to the rules and nothing is left pressed.
pub open spec fn released_everything(end: ChordReplay) -> bool {
    end.valid && end.stack.len() == 0
}

/// Whether every event of a run was done.
pub open spec fn all_done(events: Seq<(ChordKey, KeyDirection, bool)>) -> bool {
    forall|j: int| 0 <= j < events.len() ==> (#[trigger] events[j]).2
}

/// One chord in progress.
pub struct KeyChord {
    modifiers: Vec<ChordKey>,
    key: ChordKey,
    style: ChordStyle,
    phase: ChordPhase,
    pressed: Vec<ChordKey>,
    failure: Option<ChordError>,
}

/// The keys a chord holds down: its modifiers, and the main key as well when it is pressed.
pub open spec fn held_keys(modifiers: Seq<ChordKey>, key: ChordKey, style: ChordStyle) -> Seq<
    ChordKey,
> {
    match style {
        ChordStyle::Click => modifiers,
        ChordStyle::Press => modifiers.push(key),
    }
}

impl KeyChord {
    pub closed spec fn modifiers_spec(&self) -> Seq<ChordKey> {
        self.modifiers@
    }

    pub closed spec fn key_spec(&self) -> ChordKey {
        self.key
    }

    pub closed spec fn style_spec(&self) -> ChordStyle {
        self.style
    }

    pub closed spec fn phase_spec(&self) -> ChordPhase {
        self.phase
    }

    /// The keys pressed and not yet released, oldest first.
    pub closed spec fn pressed_spec(&self) -> Seq<ChordKey> {
        self.pressed@
    }

    pub closed spec fn failure_spec(&self) -> Option<ChordError> {
        self.failure
    }

    pub open spec fn held(&self) -> Seq<ChordKey> {
        held_keys(self.modifiers_spec(), self.key_spec(), self.style_spec())
    }

    /// The pressed keys are always the first keys of the chord's held keys, and the phase
    /// matches them.
    pub open spec fn well_formed(&self) -> bool {
        let pressed = self.pressed_spec();
        &&& pressed.len() <= self.held().len()
        &&& pressed == self.held().take(pressed.len() as int)
        &&& match self.phase_spec() {
            ChordPhase::Holding(i) => i < self.modifiers_spec().len() && pressed.len() == i
                && self.failure_spec() is None,
            ChordPhase::Main => pressed == self.modifiers_spec() && self.failure_spec() is None,
            ChordPhase::Settling => self.style_spec() == ChordStyle::Click && pressed
                == self.modifiers_spec() && self.failure_spec() is None,
            ChordPhase::Releasing => self.failure_spec() is None,
            ChordPhase::Cleanup => self.failure_spec() is Some,
        }
    }

    /// A chord is finished once it is releasing and nothing is held any more.
    pub open spec fn finished(&self) -> bool {
        (self.phase_spec() == ChordPhase::Releasing || self.phase_spec() == ChordPhase::Cleanup)
            && self.pressed_spec().len() == 0
    }

    /// An upper bound on the backend steps left; every step lowers it.
    pub open spec fn steps_left(&self) -> nat {
        let base = 2 * self.held().len() + 3;
        match self.phase_spec() {
            ChordPhase::Holding(i) => (base + (self.modifiers_spec().len() - i)) as nat,
            ChordPhase::Main => base as nat,
            ChordPhase::Settling => (2 * self.held().len() + 2) as nat,
            ChordPhase::Releasing => (2 * self.pressed_spec().len() + 1) as nat,
            ChordPhase::Cleanup => (2 * self.pressed_spec().len()) as nat,
        }
    }

    /// The events this chord sends before releasing.
    pub open spec fn plan(&self) -> Seq<(ChordKey, KeyDirection)> {
        chord_plan(self.modifiers_spec(), self.key_spec(), self.style_spec())
    }

    /// How many planned events the chord has sent by its phase; from releasing on, all.
    pub open spec fn sent_spec(&self) -> nat {
        match self.phase_spec() {
            ChordPhase::Holding(i) => i as nat,
            ChordPhase::Main => self.modifiers_spec().len(),
            _ => self.modifiers_spec().len() + 1,
        }
    }

    /// The chord's state in the terms of [`replay`].
    pub open spec fn replay_start(&self) -> ChordReplay {
        ChordReplay {
            stack: self.pressed_spec(),
            failed: self.failure_spec() is Some,
            sent: self.sent_spec(),
            valid: true,
        }
    }

    /// The action the chord asks for in a given state.
    pub open spec fn action_spec(&self) -> ChordAction {
        match self.phase_spec() {
            ChordPhase::Holding(i) => ChordAction::Emit(
                self.modifiers_spec()[i as int],
                KeyDirection::Press,
            ),
            ChordPhase::Main => ChordAction::Emit(
                self.key_spec(),
                match self.style_spec() {
                    ChordStyle::Click => KeyDirection::Click,
                    ChordStyle::Press => KeyDirection::Press,
                },
            ),
            ChordPhase::Settling => ChordAction::Settle,
            ChordPhase::Releasing | ChordPhase::Cleanup => if self.pressed_spec().len() == 0 {
                ChordAction::Finish
            } else {
                ChordAction::Emit(self.pressed_spec().last(), KeyDirection::Release)
            },
        }
    }

    fn start(modifiers: Vec<ChordKey>, key: ChordKey, style: ChordStyle) -> (c: KeyChord)
        ensures
            c.modifiers_spec() == modifiers@,
            c.key_spec() == key,
            c.style_spec() == style,
            c.pressed_spec() == Seq::<ChordKey>::empty(),
            c.failure_spec() is None,
            c.phase_spec() == if modifiers@.len() > 0 {
                ChordPhase::Holding(0)
            } else {
                ChordPhase::Main
            },
            c.well_formed(),
    {
        let phase = if modifiers.len() > 0 {
            ChordPhase::Holding(0)
        } else {
            ChordPhase::Main
        };
        let c = KeyChord { modifiers, key, style, phase, pressed: Vec::new(), failure: None };
        assert(c.pressed_spec() =~= c.held().take(0));
        assert(c.modifiers_spec().len() == 0 ==> c.pressed_spec() =~= c.modifiers_spec());
        c
    }

    /// A chord that holds `modifiers`, clicks `key`, waits, and releases the modifiers.
    pub fn click(modifiers: Vec<ChordKey>, key: ChordKey) -> (c: KeyChord)
        ensures
            c.modifiers_spec() == modifiers@,
            c.key_spec() == key,
            c.style_spec() == ChordStyle::Click,
            c.pressed_spec() == Seq::<ChordKey>::empty(),
            c.failure_spec() is None,
            c.phase_spec() == if modifiers@.len() > 0 {
                ChordPhase::Holding(0)
            } else {
                ChordPhase::Main
            },
            c.well_formed(),
    {
        KeyChord::start(modifiers, key, ChordStyle::Click)
    }

    /// A chord that holds `modifiers`, presses `key` as well, and releases all of them.
    pub fn pressed(modifiers: Vec<ChordKey>, key: ChordKey) -> (c: KeyChord)
        ensures
            c.modifiers_spec() == modifiers@,
            c.key_spec() == key,
            c.style_spec() == ChordStyle::Press,
            c.pressed_spec() == Seq::<ChordKey>::empty(),
            c.failure_spec() is None,
            c.phase_spec() == if modifiers@.len() > 0 {
                ChordPhase::Holding(0)
            } else {
                ChordPhase::Main
            },
            c.well_formed(),
    {
        KeyChord::start(modifiers, key, ChordStyle::Press)
    }

    /// What the backend must do next. A release always names the most recently pressed key
    /// that is still held, and `Finish` comes only once nothing is held.
    pub fn next_action(&self) -> (a: ChordAction)
        requires
            self.well_formed(),
        ensures
            a == self.action_spec(),
            a == ChordAction::Finish <==> self.finished(),
            a matches ChordAction::Emit(k, KeyDirection::Release) ==> self.pressed_spec().len() > 0
                && k == self.pressed_spec().last(),
    {
        match self.phase {
            ChordPhase::Holding(i) => ChordAction::Emit(self.modifiers[i], KeyDirection::Press),
            ChordPhase::Main => {
                let direction = match self.style {
                    ChordStyle::Click => KeyDirection::Click,
                    ChordStyle::Press => KeyDirection::Press,
                };
                ChordAction::Emit(self.key, direction)
            },
            ChordPhase::Settling => ChordAction::Settle,
            ChordPhase::Releasing | ChordPhase::Cleanup => {
                let n = self.pressed.len();
                if n == 0 {
                    ChordAction::Finish
                } else {
                    ChordAction::Emit(self.pressed[n - 1], KeyDirection::Release)
                }
            },
        }
    }

    /// Takes the backend's answer to the event that [`KeyChord::next_action`] asked for.
    ///
    /// A key is counted as held as soon as its press is attempted. The first failure is kept
    /// and turns the chord to releasing everything still held; during that cleanup a failed
    /// release is not retried and later failures are ignored. Outside cleanup, a failed
    /// release leaves the key held, so the cleanup attempts it once more.
    pub fn report(&mut self, outcome: Result<(), String>)
        requires
            old(self).well_formed(),
            old(self).action_spec() matches ChordAction::Emit(_, _),
        ensures
            final(self).well_formed(),
            final(self).steps_left() < old(self).steps_left(),
            final(self).modifiers_spec() == old(self).modifiers_spec(),
            final(self).key_spec() == old(self).key_spec(),
            final(self).style_spec() == old(self).style_spec(),
            old(self).failure_spec() is Some ==> final(self).failure_spec() == old(
                self,
            ).failure_spec(),
            match old(self).phase_spec() {
                ChordPhase::Holding(i) => {
                    let m = old(self).modifiers_spec()[i as int];
                    &&& final(self).pressed_spec() == old(self).pressed_spec().push(m)
                    &&& match outcome {
                        Ok(_) => final(self).failure_spec() is None && final(self).phase_spec() == (
                        if i + 1 < old(self).modifiers_spec().len() {
                            ChordPhase::Holding((i + 1) as usize)
                        } else {
                            ChordPhase::Main
                        }),
                        Err(e) => final(self).failure_spec() == Some(ChordError::Press(m, e))
                            && final(self).phase_spec() == ChordPhase::Cleanup,
                    }
                },
                ChordPhase::Main => {
                    let k = old(self).key_spec();
                    match old(self).style_spec() {
                        ChordStyle::Click => final(self).pressed_spec() == old(self).pressed_spec()
                            && match outcome {
                            Ok(_) => final(self).failure_spec() is None && final(self).phase_spec()
                                == ChordPhase::Settling,
                            Err(e) => final(self).failure_spec() == Some(ChordError::Click(k, e))
                                && final(self).phase_spec() == ChordPhase::Cleanup,
                        },
                        ChordStyle::Press => final(self).pressed_spec() == old(
                            self,
                        ).pressed_spec().push(k) && match outcome {
                            Ok(_) => final(self).failure_spec() is None && final(self).phase_spec()
                                == ChordPhase::Releasing,
                            Err(e) => final(self).failure_spec() == Some(ChordError::Press(k, e))
                                && final(self).phase_spec() == ChordPhase::Cleanup,
                        },
                    }
                },
                ChordPhase::Settling => false,
                ChordPhase::Releasing => {
                    let top = old(self).pressed_spec().last();
                    match outcome {
                        Ok(_) => final(self).pressed_spec() == old(self).pressed_spec().drop_last()
                            && final(self).failure_spec() is None && final(self).phase_spec()
                            == ChordPhase::Releasing,
                        Err(e) => final(self).pressed_spec() == old(self).pressed_spec()
                            && final(self).failure_spec() == Some(ChordError::Release(top, e))
                            && final(self).phase_spec() == ChordPhase::Cleanup,
                    }
                },
                ChordPhase::Cleanup => final(self).pressed_spec() == old(
                    self,
                ).pressed_spec().drop_last() && final(self).phase_spec() == ChordPhase::Cleanup,
            },
    {
        match self.phase {
            ChordPhase::Holding(i) => {
                let m = self.modifiers[i];
                let count = self.modifiers.len();
                let next = i + 1;
                self.pressed.push(m);
                match outcome {
                    Ok(()) => {
                        if next < count {
                            self.phase = ChordPhase::Holding(next);
                        } else {
                            self.phase = ChordPhase::Main;
                        }
                    },
                    Err(e) => {
                        self.failure = Some(ChordError::Press(m, e));
                        self.phase = ChordPhase::Cleanup;
                    },
                }
                proof {
                    assert(self.pressed@ =~= self.held().take(self.pressed@.len() as int));
                    if i + 1 >= self.modifiers@.len() {
                        assert(self.pressed@ =~= self.modifiers@);
                    }
                }
            },
            ChordPhase::Main => {
                let k = self.key;
                match self.style {
                    ChordStyle::Click => {
                        match outcome {
                            Ok(()) => {
                                self.phase = ChordPhase::Settling;
                            },
                            Err(e) => {
                                self.failure = Some(ChordError::Click(k, e));
                                self.phase = ChordPhase::Cleanup;
                            },
                        }
                    },
                    ChordStyle::Press => {
                        self.pressed.push(k);
                        match outcome {
                            Ok(()) => {
                                self.phase = ChordPhase::Releasing;
                            },
                            Err(e) => {
                                self.failure = Some(ChordError::Press(k, e));
                                self.phase = ChordPhase::Cleanup;
                            },
                        }
                        proof {
                            assert(self.pressed@ =~= self.held().take(self.pressed@.len() as int));
                        }
                    },
                }
            },
            ChordPhase::Settling => {},
            ChordPhase::Releasing => {
                let n = self.pressed.len();
                let top = self.pressed[n - 1];
                match outcome {
                    Ok(()) => {
                        self.pressed.pop();
                        proof {
                            assert(self.pressed@ =~= self.held().take(self.pressed@.len() as int));
                        }
                    },
                    Err(e) => {
                        self.failure = Some(ChordError::Release(top, e));
                        self.phase = ChordPhase::Cleanup;
                    },
                }
            },
            ChordPhase::Cleanup => {
                self.pressed.pop();
                proof {
                    assert(self.pressed@ =~= self.held().take(self.pressed@.len() as int));
                }
            },
        }
    }

    /// Ends the pause after a click; the modifiers are released next.
    pub fn settle(&mut self)
        requires
            old(self).well_formed(),
            old(self).action_spec() == ChordAction::Settle,
        ensures
            final(self).well_formed(),
            final(self).steps_left() < old(self).steps_left(),
            final(self).phase_spec() == ChordPhase::Releasing,
            final(self).pressed_spec() == old(self).pressed_spec(),
            final(self).failure_spec() == old(self).failure_spec(),
            final(self).modifiers_spec() == old(self).modifiers_spec(),
            final(self).key_spec() == old(self).key_spec(),
            final(self).style_spec() == old(self).style_spec(),
    {
        self.phase = ChordPhase::Releasing;
    }

    /// The chord's result: `Ok` when no backend call failed, else the first failure.
    pub fn finish(self) -> (r: Result<(), ChordError>)
        requires
            self.well_formed(),
            self.finished(),
        ensures
            match self.failure_spec() {
                None => r is Ok,
                Some(e) => r == Err::<(), ChordError>(e),
            },
    {
        match self.failure {
            None => Ok(()),
            Some(e) => Err(e),
        }
    }
}

fn copy_keys(keys: &[ChordKey]) -> (r: Vec<ChordKey>)
    ensures
        r@ == keys@,
{
    let mut r: Vec<ChordKey> = Vec::new();
    let mut i: usize = 0;
    while i < keys.len()
        invariant
            i <= keys.len(),
            r@ == keys@.take(i as int),
        decreases keys.len() - i,
    {
        r.push(keys[i]);
        i = i + 1;
        assert(r@ =~= keys@.take(i as int));
    }
    assert(keys@.take(keys.len() as int) =~= keys@);
    r
}

/// Runs a chord against a backend until it finishes, waiting `delay_ms` after a click.
///
/// The events it sends keep to the chord's rules (see [`replay_step`]) and leave nothing
/// pressed, whatever the backend answers. The result is `Ok` exactly when the chord had not
/// failed before and the backend did every event, and then the whole plan was sent.
pub fn run_chord<T: KeyInput>(input: &mut T, chord: KeyChord, delay_ms: u64) -> (r: Result<
    (),
    ChordError,
>)
    requires
        chord.well_formed(),
    ensures
        final(input).log()@.len() >= old(input).log()@.len(),
        final(input).log()@.take(old(input).log()@.len() as int) == old(input).log()@,
        released_everything(
            replay(
                chord.plan(),
                chord.replay_start(),
                sent_after(final(input).log()@, old(input).log()@.len() as int),
            ),
        ),
        r is Ok <==> (chord.failure_spec() is None && all_done(
            sent_after(final(input).log()@, old(input).log()@.len() as int),
        )),
        r is Ok ==> replay(
            chord.plan(),
            chord.replay_start(),
            sent_after(final(input).log()@, old(input).log()@.len() as int),
        ).sent == chord.plan().len(),
        chord.failure_spec() matches Some(e) ==> r == Err::<(), ChordError>(e),
        chord.finished() && chord.failure_spec() is None ==> r is Ok,
{
    let ghost start = chord;
    let ghost start_log = input.log()@;
    let ghost l0 = start_log.len() as int;
    let mut current = chord;
    assert(input.log()@.skip(l0) =~= Seq::<(ChordKey, KeyDirection, bool)>::empty());
    loop
        invariant
            current.well_formed(),
            start == chord,
            start_log == old(input).log()@,
            start_log.len() == l0,
            input.log()@.len() >= l0,
            input.log()@.take(l0) == start_log,
            current.modifiers_spec() == start.modifiers_spec(),
            current.key_spec() == start.key_spec(),
            current.style_spec() == start.style_spec(),
            replay(start.plan(), start.replay_start(), input.log()@.skip(l0)).valid,
            replay(start.plan(), start.replay_start(), input.log()@.skip(l0)).stack
                == current.pressed_spec(),
            replay(start.plan(), start.replay_start(), input.log()@.skip(l0)).failed == (
            current.failure_spec() is Some),
            current.phase_spec() != ChordPhase::Cleanup ==> replay(
                start.plan(),
                start.replay_start(),
                input.log()@.skip(l0),
            ).sent == current.sent_spec(),
            current.failure_spec() is Some <==> (start.failure_spec() is Some || !all_done(
                input.log()@.skip(l0),
            )),
            start.failure_spec() is Some ==> current.failure_spec() == start.failure_spec(),
            start.finished() ==> current == start,
        decreases current.steps_left(),
    {
        let ghost before = input.log()@;
        let ghost old_state = replay(start.plan(), start.replay_start(), before.skip(l0));
        match current.next_action() {
            ChordAction::Emit(key, direction) => {
                let outcome = input.emit_key(key, direction);
                let ghost ok = outcome is Ok;
                current.report(outcome);
                proof {
                    let e = (key, direction, ok);
                    assert(input.log()@ == before.push(e));
                    assert(input.log()@.skip(l0) =~= before.skip(l0).push(e));
                    assert(input.log()@.skip(l0).drop_last() =~= before.skip(l0));
                    assert(input.log()@.take(l0) =~= before.take(l0));
                    assert(all_done(input.log()@.skip(l0)) == (all_done(before.skip(l0)) && ok)) by {
                        let n2 = input.log()@.skip(l0);
                        if all_done(n2) {
                            assert(n2[n2.len() - 1] == e);
                            assert forall|j: int| 0 <= j < before.skip(l0).len() implies (
                            #[trigger] before.skip(l0)[j]).2 by {
                                assert(n2[j] == before.skip(l0)[j]);
                            }
                        }
                        if all_done(before.skip(l0)) && ok {
                            assert forall|j: int| 0 <= j < n2.len() implies (#[trigger] n2[j]).2 by {
                                if j < n2.len() - 1 {
                                    assert(n2[j] == before.skip(l0)[j]);
                                }
                            }
                        }
                    }
                }
            },
            ChordAction::Settle => {
                input.wait_ms(delay_ms);
                current.settle();
                proof {
                    assert(input.log()@.skip(l0) =~= before.skip(l0));
                }
            },
            ChordAction::Finish => {
                proof {
                    assert(current.plan() == start.plan());
                }
                return current.finish();
            },
        }
    }
}

/// Holds `modifiers`, clicks `key`, waits `delay_ms`, and releases the modifiers in reverse
/// order; after a failure everything pressed is still released.
pub fn send_click_chord<T: KeyInput>(
    input: &mut T,
    modifiers: &[ChordKey],
    key: ChordKey,
    delay_ms: u64,
) -> (r: Result<(), ChordError>)
    ensures
        final(input).log()@.len() >= old(input).log()@.len(),
        final(input).log()@.take(old(input).log()@.len() as int) == old(input).log()@,
        released_everything(
            replay(
                chord_plan(modifiers@, key, ChordStyle::Click),
                fresh_replay(),
                sent_after(final(input).log()@, old(input).log()@.len() as int),
            ),
        ),
        r is Ok <==> all_done(sent_after(final(input).log()@, old(input).log()@.len() as int)),
        r is Ok ==> replay(
            chord_plan(modifiers@, key, ChordStyle::Click),
            fresh_replay(),
            sent_after(final(input).log()@, old(input).log()@.len() as int),
        ).sent == modifiers@.len() + 1,
{
    let chord = KeyChord::click(copy_keys(modifiers), key);
    assert(chord.replay_start() =~= fresh_replay());
    run_chord(input, chord, delay_ms)
}

/// Holds `modifiers`, presses `key`, and releases all of them in reverse order; after a
/// failure everything pressed is still released.
pub fn send_pressed_key_chord_with<T: KeyInput>(
    input: &mut T,
    modifiers: &[ChordKey],
    key: ChordKey,
) -> (r: Result<(), ChordError>)
    ensures
        final(input).log()@.len() >= old(input).log()@.len(),
        final(input).log()@.take(old(input).log()@.len() as int) == old(input).log()@,
        released_everything(
            replay(
                chord_plan(modifiers@, key, ChordStyle::Press),
                fresh_replay(),
                sent_after(final(input).log()@, old(input).log()@.len() as int),
            ),
        ),
        r is Ok <==> all_done(sent_after(final(input).log()@, old(input).log()@.len() as int)),
        r is Ok ==> replay(
            chord_plan(modifiers@, key, ChordStyle::Press),
            fresh_replay(),
            sent_after(final(input).log()@, old(input).log()@.len() as int),
        ).sent == modifiers@.len() + 1,
{
    let chord = KeyChord::pressed(copy_keys(modifiers), key);
    assert(chord.replay_start() =~= fresh_replay());
    run_chord(input, chord, 0)
}

/// The operating systems whose paste shortcuts differ.
#[derive(Clone, Copy, Debug, PartialEq, Eq, Structural)]
pub enum KeyboardPlatform {
    MacOs,
    Windows,
    Linux,
}

/// The clipboard shortcuts that are sent as key chords.
#[derive(Clone, Copy, Debug, PartialEq, Eq, Structural)]
pub enum PasteShortcut {
    CtrlV,
    CtrlShiftV,
    ShiftInsert,
}

pub open spec fn paste_v_keys(platform: KeyboardPlatform) -> (ChordKey, ChordKey) {
    match platform {
        KeyboardPlatform::MacOs => (ChordKey::Meta, ChordKey::Other(9)),
        KeyboardPlatform::Windows => (ChordKey::Control, ChordKey::Other(0x56)),
        KeyboardPlatform::Linux => (ChordKey::Control, ChordKey::Unicode('v')),
    }
}

/// The modifiers and the clicked key of a paste shortcut on a platform, by layout-independent
/// key codes where the platform has them.
pub fn paste_chord_keys(platform: KeyboardPlatform, shortcut: PasteShortcut) -> (r: (
    Vec<ChordKey>,
    ChordKey,
))
    ensures
        match shortcut {
            PasteShortcut::CtrlV => r.0@ == seq![paste_v_keys(platform).0] && r.1 == paste_v_keys(
                platform,
            ).1,
            PasteShortcut::CtrlShiftV => r.0@ == seq![paste_v_keys(platform).0, ChordKey::Shift]
                && r.1 == paste_v_keys(platform).1,
            PasteShortcut::ShiftInsert => r.0@ == seq![ChordKey::Shift] && r.1 == if platform
                == KeyboardPlatform::Windows {
                ChordKey::Other(0x2D)
            } else {
                ChordKey::Other(0x76)
            },
        },
{
    let (modifier, v_key) = match platform {
        KeyboardPlatform::MacOs => (ChordKey::Meta, ChordKey::Other(9)),
        KeyboardPlatform::Windows => (ChordKey::Control, ChordKey::Other(0x56)),
        KeyboardPlatform::Linux => (ChordKey::Control, ChordKey::Unicode('v')),
    };
    match shortcut {
        PasteShortcut::CtrlV => (vec![modifier], v_key),
        PasteShortcut::CtrlShiftV => (vec![modifier, ChordKey::Shift], v_key),
        PasteShortcut::ShiftInsert => {
            let insert = match platform {
                KeyboardPlatform::Windows => ChordKey::Other(0x2D),
                _ => ChordKey::Other(0x76),
            };
            (vec![ChordKey::Shift], insert)
        },
    }
}

/// The key events that submit a message after the transcript: Return alone, or Return
/// inside a held Control or Meta (Cmd).
pub open spec fn auto_submit_sequence(key: AutoSubmitKey) -> Seq<(ChordKey, KeyDirection)> {
    let ret = seq![(ChordKey::Return, KeyDirection::Press), (ChordKey::Return, KeyDirection::Release)];
    match key {
        AutoSubmitKey::Enter => ret,
        AutoSubmitKey::CtrlEnter => seq![(ChordKey::Control, KeyDirection::Press)] + ret + seq![
            (ChordKey::Control, KeyDirection::Release),
        ],
        AutoSubmitKey::CmdEnter => seq![(ChordKey::Meta, KeyDirection::Press)] + ret + seq![
            (ChordKey::Meta, KeyDirection::Release),
        ],
    }
}

/// The key events of an auto-submit key, in the order they are sent.
pub fn auto_submit_events(key: AutoSubmitKey) -> (r: Vec<(ChordKey, KeyDirection)>)
    ensures
        r@ == auto_submit_sequence(key),
{
    let r = match key {
        AutoSubmitKey::Enter => vec![
            (ChordKey::Return, KeyDirection::Press),
            (ChordKey::Return, KeyDirection::Release),
        ],
        AutoSubmitKey::CtrlEnter => vec![
            (ChordKey::Control, KeyDirection::Press),
            (ChordKey::Return, KeyDirection::Press),
            (ChordKey::Return, KeyDirection::Release),
            (ChordKey::Control, KeyDirection::Release),
        ],
        AutoSubmitKey::CmdEnter => vec![
            (ChordKey::Meta, KeyDirection::Press),
            (ChordKey::Return, KeyDirection::Press),
            (ChordKey::Return, KeyDirection::Release),
            (ChordKey::Meta, KeyDirection::Release),
        ],
    };
    assert(r@ =~= auto_submit_sequence(key));
    r
}

/// The key event that a chord error reports as failed.
pub open spec fn failed_event(e: ChordError) -> (ChordKey, KeyDirection) {
    match e {
        ChordError::Press(k, _) => (k, KeyDirection::Press),
        ChordError::Release(k, _) => (k, KeyDirection::Release),
        ChordError::Click(k, _) => (k, KeyDirection::Click),
    }
}

/// A run of events that follows `plan` from its start and stops after its first failure:
/// each event is the planned one at its position, and every event before the last was done.
pub open spec fn sent_in_order(
    plan: Seq<(ChordKey, KeyDirection)>,
    sent: Seq<(ChordKey, KeyDirection, bool)>,
) -> bool {
    &&& sent.len() <= plan.len()
    &&& forall|j: int| 0 <= j < sent.len() ==> (#[trigger] sent[j]).0 == plan[j].0 && sent[j].1 == plan[j].1
    &&& forall|j: int| 0 <= j < sent.len() - 1 ==> (#[trigger] sent[j]).2
}

/// Sends the auto-submit key's events in order and stops at the first failure, which is
/// returned. Unlike a paste chord, nothing is released after a failure.
pub fn send_return_key<T: KeyInput>(input: &mut T, key: AutoSubmitKey) -> (r: Result<
    (),
    ChordError,
>)
    ensures
        final(input).log()@.len() >= old(input).log()@.len(),
        final(input).log()@.take(old(input).log()@.len() as int) == old(input).log()@,
        sent_in_order(
            auto_submit_sequence(key),
            sent_after(final(input).log()@, old(input).log()@.len() as int),
        ),
        r is Ok <==> (sent_after(final(input).log()@, old(input).log()@.len() as int).len()
            == auto_submit_sequence(key).len() && all_done(
            sent_after(final(input).log()@, old(input).log()@.len() as int),
        )),
        r matches Err(e) ==> ({
            let sent = sent_after(final(input).log()@, old(input).log()@.len() as int);
            &&& sent.len() > 0
            &&& !sent.last().2
            &&& failed_event(e) == auto_submit_sequence(key)[sent.len() - 1]
        }),
{
    let events = auto_submit_events(key);
    let ghost start_log = input.log()@;
    let ghost l0 = start_log.len() as int;
    let mut i: usize = 0;
    assert(input.log()@.skip(l0) =~= Seq::<(ChordKey, KeyDirection, bool)>::empty());
    while i < events.len()
        invariant
            i <= events@.len(),
            events@ == auto_submit_sequence(key),
            start_log == old(input).log()@,
            start_log.len() == l0,
            input.log()@.len() == l0 + i,
            input.log()@.take(l0) == start_log,
            forall|j: int|
                0 <= j < i ==> (#[trigger] input.log()@.skip(l0)[j]).0 == events@[j].0
                    && input.log()@.skip(l0)[j].1 == events@[j].1 && input.log()@.skip(l0)[j].2,
        decreases events.len() - i,
    {
        let ghost before = input.log()@;
        let (k, direction) = events[i];
        let outcome = input.emit_key(k, direction);
        proof {
            assert(input.log()@.take(l0) =~= before.take(l0));
            assert(input.log()@.skip(l0) =~= before.skip(l0).push((k, direction, outcome is Ok)));
            assert(events@[i as int] == (k, direction));
        }
        match outcome {
            Ok(()) => {},
            Err(message) => {
                let e = match direction {
                    KeyDirection::Press => ChordError::Press(k, message),
                    KeyDirection::Release => ChordError::Release(k, message),
                    KeyDirection::Click => ChordError::Click(k, message),
                };
                proof {
                    let sent = input.log()@.skip(l0);
                    assert(sent.len() == i + 1);
                    assert(sent.last() == (k, direction, false));
                    assert(!all_done(sent));
                }
                return Err(e);
            },
        }
        i += 1;
    }
    proof {
        let sent = input.log()@.skip(l0);
        assert(sent.len() == events@.len());
    }
    Ok(())
}

} // verus!
