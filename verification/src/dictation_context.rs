//! Per-dictation context: the intent captured once at recording start and carried unchanged
//! to paste time, plus the registries that hand it from start to stop and guard the final
//! delivery boundary against duplicates.
use vstd::prelude::*;
use vstd::string::StringExecFns;

verus! {

/// A window handle as the platform reports it.
#[derive(Clone, Copy, Debug, PartialEq, Eq, Structural)]
pub struct WindowHandle(pub isize);

/// The identity of a captured window: its handle, owning process and thread, and a
/// fingerprint of its class name.
#[derive(Clone, Copy, Debug, PartialEq, Eq, Structural)]
pub struct WindowIdentity {
    pub handle: WindowHandle,
    pub process_id: u32,
    pub thread_id: u32,
    pub class: u64,
}

/// Why a delivery is pinned to a window.
#[derive(Clone, Copy, Debug, PartialEq, Eq, Structural)]
pub enum DeliverySource {
    /// The user locked dictation to the window.
    Lock,
    /// The user picked the window for one dictation.
    Pick,
}

/// Where a finished transcript is delivered.
#[derive(Clone, Copy, Debug, PartialEq, Eq, Structural)]
pub enum Delivery {
    /// Whatever window has focus at paste time.
    Foreground,
    /// The window captured when the dictation started.
    Pinned(WindowIdentity, DeliverySource),
}

/// One dictation's intent, fixed at recording start.
#[derive(Clone, Copy, Debug, PartialEq, Eq, Structural)]
pub struct DictationContext {
    raw_requested: bool,
    post_process_requested: bool,
    effective_raw: bool,
    delivery_target: Delivery,
    sequence: u64,
}

/// The raw-output decision: an explicit raw request always wins; otherwise the global toggle
/// applies unless this dictation asked to post-process.
pub open spec fn resolve_raw(raw_requested: bool, post_process_requested: bool, raw_output_setting: bool) -> bool {
    raw_requested || (raw_output_setting && !post_process_requested)
}

impl DictationContext {
    pub closed spec fn raw_requested_spec(self) -> bool {
        self.raw_requested
    }

    pub closed spec fn post_process_requested_spec(self) -> bool {
        self.post_process_requested
    }

    pub closed spec fn effective_raw_spec(self) -> bool {
        self.effective_raw
    }

    pub closed spec fn delivery_target_spec(self) -> Delivery {
        self.delivery_target
    }

    pub closed spec fn sequence_spec(self) -> u64 {
        self.sequence
    }

    /// Captures the per-dictation intent at recording start; the global raw toggle is read
    /// here once and not stored.
    pub fn capture(
        raw_requested: bool,
        post_process_requested: bool,
        raw_output_setting: bool,
        delivery_target: Delivery,
        sequence: u64,
    ) -> (c: Self)
        ensures
            c.raw_requested_spec() == raw_requested,
            c.post_process_requested_spec() == post_process_requested,
            c.effective_raw_spec() == resolve_raw(raw_requested, post_process_requested, raw_output_setting),
            c.delivery_target_spec() == delivery_target,
            c.sequence_spec() == sequence,
    {
        let effective_raw = raw_requested || (raw_output_setting && !post_process_requested);
        DictationContext { raw_requested, post_process_requested, effective_raw, delivery_target, sequence }
    }

    /// Whether this dictation explicitly asked for raw output.
    pub fn raw_requested(&self) -> (r: bool)
        ensures
            r == self.raw_requested_spec(),
    {
        self.raw_requested
    }

    /// Whether this dictation explicitly asked to post-process.
    pub fn post_process_requested(&self) -> (r: bool)
        ensures
            r == self.post_process_requested_spec(),
    {
        self.post_process_requested
    }

    /// Whether the emitted text is raw, resolved once at capture.
    pub fn effective_raw(&self) -> (r: bool)
        ensures
            r == self.effective_raw_spec(),
    {
        self.effective_raw
    }

    /// Where the finished transcript is delivered, captured at recording start.
    pub fn delivery_target(&self) -> (r: Delivery)
        ensures
            r == self.delivery_target_spec(),
    {
        self.delivery_target
    }

    /// Where this dictation falls in the order they were started.
    pub fn sequence(&self) -> (r: u64)
        ensures
            r == self.sequence_spec(),
    {
        self.sequence
    }
}

/// Counts dictations in the order they start.
pub struct DictationSequence(u64);

impl DictationSequence {
    pub closed spec fn count(self) -> u64 {
        self.0
    }

    /// No dictation has started.
    pub fn new() -> (s: Self)
        ensures
            s.count() == 0,
    {
        DictationSequence(0)
    }

    /// The number for a dictation starting now: one more than the count so far.
    pub fn next(&mut self) -> (n: u64)
        requires
            old(self).count() < u64::MAX,
        ensures
            final(self).count() == old(self).count() + 1,
            n == final(self).count(),
    {
        self.0 = self.0 + 1;
        self.0
    }

    /// How many dictations have started so far.
    pub fn current(&self) -> (n: u64)
        ensures
            n == self.count(),
    {
        self.0
    }
}

/// How many recent sequences the delivery gate remembers.
pub const RECENT_DELIVERY_SEQUENCE_CAPACITY: usize = 64;

/// Idempotency gate at the final delivery boundary: a bounded set of recent nonzero
/// sequences, each of which can be claimed once. Sequence zero (the counter was unavailable)
/// is always allowed.
pub struct DeliverySequenceGate {
    recent: VecDeque<u64>,
}

use std::collections::VecDeque;

impl DeliverySequenceGate {
    /// At most the capacity of sequences is remembered.
    pub closed spec fn well_formed(self) -> bool {
        self.recent@.len() <= RECENT_DELIVERY_SEQUENCE_CAPACITY
    }

    /// The recently claimed sequences, oldest first.
    pub closed spec fn recent_spec(self) -> Seq<u64> {
        self.recent@
    }

    /// A gate that has seen nothing.
    pub fn new() -> (g: Self)
        ensures
            g.recent_spec() == Seq::<u64>::empty(),
            g.well_formed(),
    {
        DeliverySequenceGate { recent: VecDeque::new() }
    }

    /// Claims `sequence` for delivery. Zero is always granted; another value is granted unless
    /// it is among the remembered recent claims, and is then remembered (the oldest is
    /// forgotten past the capacity).
    pub fn claim(&mut self, sequence: u64) -> (r: bool)
        requires
            old(self).well_formed(),
        ensures
            final(self).well_formed(),
            sequence == 0 ==> r && final(self).recent_spec() == old(self).recent_spec(),
            sequence != 0 && old(self).recent_spec().contains(sequence) ==> !r && final(self).recent_spec()
                == old(self).recent_spec(),
            sequence != 0 && !old(self).recent_spec().contains(sequence) ==> r && final(self).recent_spec()
                == (if old(self).recent_spec().len() >= RECENT_DELIVERY_SEQUENCE_CAPACITY {
                    old(self).recent_spec().push(sequence).drop_first()
                } else {
                    old(self).recent_spec().push(sequence)
                }),
    {
        if sequence == 0 {
            return true;
        }
        let mut k: usize = 0;
        let n = self.recent.len();
        while k < n
            invariant
                n == self.recent@.len(),
                k <= n,
                sequence != 0,
                self.recent@ == old(self).recent@,
                old(self).well_formed(),
                forall|j: int| 0 <= j < k ==> self.recent@[j] != sequence,
            decreases n - k,
        {
            if self.recent[k] == sequence {
                assert(self.recent@.contains(sequence));
                return false;
            }
            k += 1;
        }
        assert(!self.recent@.contains(sequence));
        self.recent.push_back(sequence);
        if self.recent.len() > RECENT_DELIVERY_SEQUENCE_CAPACITY {
            self.recent.pop_front();
        }
        true
    }
}

/// A claimed nonzero sequence cannot be claimed again right away.
pub proof fn law_claim_once(g: DeliverySequenceGate, after: DeliverySequenceGate, s: u64)
    requires
        s != 0,
        after.recent_spec() == (if g.recent_spec().len() >= RECENT_DELIVERY_SEQUENCE_CAPACITY {
            g.recent_spec().push(s).drop_first()
        } else {
            g.recent_spec().push(s)
        }),
    ensures
        after.recent_spec().contains(s),
{
    let p = g.recent_spec().push(s);
    if g.recent_spec().len() >= RECENT_DELIVERY_SEQUENCE_CAPACITY {
        assert(p.drop_first()[p.len() - 2] == s);
    } else {
        assert(p[p.len() - 1] == s);
    }
}

impl Default for DeliverySequenceGate {
    fn default() -> (g: Self)
        ensures
            g.recent_spec() == Seq::<u64>::empty(),
            g.well_formed(),
    {
        DeliverySequenceGate::new()
    }
}

/// The in-flight contexts between recording start and stop, keyed by the binding that started
/// the recording.
pub struct ActiveDictations {
    entries: Vec<(String, DictationContext)>,
}

/// The context stored under `key` in an association list, if any (the latest entry wins).
pub open spec fn assoc(entries: Seq<(Seq<char>, DictationContext)>, key: Seq<char>) -> Option<DictationContext>
    decreases entries.len(),
{
    if entries.len() == 0 {
        None
    } else if entries.last().0 == key {
        Some(entries.last().1)
    } else {
        assoc(entries.drop_last(), key)
    }
}

/// The association list without the entries for `key`.
pub open spec fn without(entries: Seq<(Seq<char>, DictationContext)>, key: Seq<char>) -> Seq<(Seq<char>, DictationContext)>
    decreases entries.len(),
{
    if entries.len() == 0 {
        seq![]
    } else if entries.last().0 == key {
        without(entries.drop_last(), key)
    } else {
        without(entries.drop_last(), key).push(entries.last())
    }
}

pub proof fn lemma_without(entries: Seq<(Seq<char>, DictationContext)>, key: Seq<char>, k: Seq<char>)
    ensures
        assoc(without(entries, key), k) == if k == key { None } else { assoc(entries, k) },
    decreases entries.len(),
{
    if entries.len() > 0 {
        lemma_without(entries.drop_last(), key, k);
        let w = without(entries.drop_last(), key);
        assert(w.push(entries.last()).drop_last() =~= w);
    }
}

/// The map an association list stands for.
pub open spec fn as_map(entries: Seq<(Seq<char>, DictationContext)>) -> Map<Seq<char>, DictationContext> {
    Map::new(|k: Seq<char>| assoc(entries, k) is Some, |k: Seq<char>| assoc(entries, k)->0)
}

impl ActiveDictations {
    closed spec fn entry_views(self) -> Seq<(Seq<char>, DictationContext)> {
        Seq::new(self.entries@.len(), |k: int| (self.entries@[k].0@, self.entries@[k].1))
    }

    /// The parked contexts by binding.
    pub closed spec fn parked(self) -> Map<Seq<char>, DictationContext> {
        as_map(self.entry_views())
    }

    /// Nothing parked.
    pub fn new() -> (a: Self)
        ensures
            a.parked() == Map::<Seq<char>, DictationContext>::empty(),
    {
        let a = ActiveDictations { entries: Vec::new() };
        assert(a.parked() =~= Map::<Seq<char>, DictationContext>::empty());
        a
    }

    /// The context stored for `key` and the entries without it.
    fn split_out(&self, key: &String) -> (r: (Option<DictationContext>, Vec<(String, DictationContext)>))
        ensures
            r.0 == assoc(self.entry_views(), key@),
            Seq::new(r.1@.len(), |k: int| (r.1@[k].0@, r.1@[k].1)) == without(self.entry_views(), key@),
    {
        let ghost ev = self.entry_views();
        let mut found: Option<DictationContext> = None;
        let mut rest: Vec<(String, DictationContext)> = Vec::new();
        let mut i: usize = 0;
        while i < self.entries.len()
            invariant
                i <= self.entries@.len(),
                ev == self.entry_views(),
                found == assoc(ev.take(i as int), key@),
                Seq::new(rest@.len(), |k: int| (rest@[k].0@, rest@[k].1)) == without(ev.take(i as int), key@),
            decreases self.entries@.len() - i,
        {
            assert(ev.take(i + 1).drop_last() =~= ev.take(i as int));
            let ghost before = Seq::new(rest@.len(), |k: int| (rest@[k].0@, rest@[k].1));
            let entry = &self.entries[i];
            if entry.0 == *key {
                found = Some(entry.1);
            } else {
                rest.push((entry.0.clone(), entry.1));
                assert(Seq::new(rest@.len(), |k: int| (rest@[k].0@, rest@[k].1)) =~= before.push(ev[i as int]));
            }
            i += 1;
        }
        assert(ev.take(self.entries@.len() as int) =~= ev);
        (found, rest)
    }

    /// Parks the context of a dictation that just started recording, replacing one left for
    /// the same binding by a recording that never reached its stop.
    pub fn begin(&mut self, binding_id: &str, context: DictationContext)
        ensures
            final(self).parked() == old(self).parked().insert(binding_id@, context),
    {
        let key = String::from_str(binding_id);
        let (_, mut rest) = self.split_out(&key);
        let ghost ev = old(self).entry_views();
        let ghost rv = Seq::new(rest@.len(), |k: int| (rest@[k].0@, rest@[k].1));
        rest.push((key, context));
        self.entries = rest;
        assert(self.entry_views() =~= rv.push((binding_id@, context)));
        assert(rv.push((binding_id@, context)).drop_last() =~= rv);
        assert forall|k: Seq<char>| true implies #[trigger] assoc(self.entry_views(), k) == if k == binding_id@ {
            Some(context)
        } else {
            assoc(ev, k)
        } by {
            lemma_without(ev, binding_id@, k);
        }
        assert(self.parked() =~= old(self).parked().insert(binding_id@, context));
    }

    /// Takes the context this binding parked, if one is still there; it is removed.
    pub fn take(&mut self, binding_id: &str) -> (r: Option<DictationContext>)
        ensures
            r == (if old(self).parked().contains_key(binding_id@) {
                Some(old(self).parked()[binding_id@])
            } else {
                None
            }),
            final(self).parked() == old(self).parked().remove(binding_id@),
    {
        let key = String::from_str(binding_id);
        let (found, rest) = self.split_out(&key);
        let ghost ev = old(self).entry_views();
        self.entries = rest;
        assert forall|k: Seq<char>| true implies #[trigger] assoc(self.entry_views(), k) == if k == binding_id@ {
            None
        } else {
            assoc(ev, k)
        } by {
            lemma_without(ev, binding_id@, k);
        }
        assert(self.parked() =~= old(self).parked().remove(binding_id@));
        found
    }

    /// Drops the context a binding parked, because its recording never became a dictation.
    pub fn discard(&mut self, binding_id: &str)
        ensures
            final(self).parked() == old(self).parked().remove(binding_id@),
    {
        let _ = self.take(binding_id);
    }

    /// Drops every parked context.
    pub fn discard_all(&mut self)
        ensures
            final(self).parked() == Map::<Seq<char>, DictationContext>::empty(),
    {
        self.entries = Vec::new();
        assert(self.parked() =~= Map::<Seq<char>, DictationContext>::empty());
    }
}

/// A parked context is handed out once: after a take, the same binding has nothing left.
pub proof fn law_taken_once(before: Map<Seq<char>, DictationContext>, key: Seq<char>)
    ensures
        !before.remove(key).contains_key(key),
{
}

impl Default for ActiveDictations {
    fn default() -> (a: Self)
        ensures
            a.parked() == Map::<Seq<char>, DictationContext>::empty(),
    {
        ActiveDictations::new()
    }
}

} // verus!
