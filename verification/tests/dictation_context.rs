use audiobud::dictation_context::{
    ActiveDictations, Delivery, DeliverySequenceGate, DeliverySource, DictationContext,
    DictationSequence, WindowHandle, WindowIdentity,
};

/// A fixed stand-in for the fingerprint of the "Chrome_WidgetWin_1" window class.
const CHROME_CLASS: u64 = 0x6368_726f_6d65;

/// A captured window: handle `h`, owned by process `pid` / thread `tid`.
fn win(h: isize, pid: u32, tid: u32) -> WindowIdentity {
    WindowIdentity {
        handle: WindowHandle(h),
        process_id: pid,
        thread_id: tid,
        class: CHROME_CLASS,
    }
}

#[test]
fn a_delivery_sequence_can_be_claimed_only_once() {
    let mut gate = DeliverySequenceGate::default();

    assert!(gate.claim(7));
    assert!(!gate.claim(7));
    assert!(gate.claim(8));
}

#[test]
fn missing_sequence_state_keeps_best_effort_delivery() {
    let mut gate = DeliverySequenceGate::default();

    assert!(gate.claim(0));
    assert!(gate.claim(0));
}

#[test]
fn effective_raw_matches_the_resolution_rule() {
    let cap = |raw, post, global| {
        DictationContext::capture(raw, post, global, Delivery::Foreground, 1).effective_raw()
    };
    // An explicit per-dictation raw request always forces raw.
    assert!(cap(true, false, false));
    // An explicit per-dictation post-process request suppresses the global raw toggle.
    assert!(!cap(false, true, true));
    // With no per-dictation request, the global raw toggle still applies.
    assert!(cap(false, false, true));
    // Nothing requested and the toggle off -> not raw.
    assert!(!cap(false, false, false));
}

#[test]
fn effective_raw_is_frozen_at_capture() {
    let intent = (false, false); // no per-dictation override, so the global decides
    let with_global_on =
        DictationContext::capture(intent.0, intent.1, true, Delivery::Foreground, 1);
    let with_global_off =
        DictationContext::capture(intent.0, intent.1, false, Delivery::Foreground, 1);
    assert!(with_global_on.effective_raw());
    assert!(!with_global_off.effective_raw());
    assert_eq!(
        with_global_on.effective_raw(),
        with_global_on.effective_raw()
    );
}

#[test]
fn per_dictation_intent_is_carried_verbatim() {
    let ctx = DictationContext::capture(true, false, false, Delivery::Foreground, 1);
    assert!(ctx.raw_requested());
    assert!(!ctx.post_process_requested());
}

#[test]
fn delivery_target_is_captured_with_its_identity() {
    let window = win(42, 100, 200);
    let ctx = DictationContext::capture(
        false,
        false,
        false,
        Delivery::Pinned(window, DeliverySource::Lock),
        1,
    );
    assert_eq!(
        ctx.delivery_target(),
        Delivery::Pinned(window, DeliverySource::Lock)
    );

    let fg = DictationContext::capture(false, false, false, Delivery::Foreground, 1);
    assert_eq!(fg.delivery_target(), Delivery::Foreground);
}

#[test]
fn a_lock_toggled_mid_dictation_cannot_redirect_the_context() {
    // The live lock, as the target-lock state holds it.
    let mut lock: Option<WindowIdentity> = None;
    let started_with = win(42, 100, 200);
    lock = Some(started_with);
    let ctx = DictationContext::capture(
        false,
        false,
        false,
        Delivery::Pinned(lock.expect("locked"), DeliverySource::Lock),
        1,
    );

    // Released mid-dictation.
    lock = None;
    assert!(lock.is_none());
    assert_eq!(
        ctx.delivery_target(),
        Delivery::Pinned(started_with, DeliverySource::Lock)
    );

    // Re-pointed at another window mid-dictation: that governs the next dictation.
    lock = Some(win(7, 500, 600));
    assert!(lock.is_some());
    assert_eq!(
        ctx.delivery_target(),
        Delivery::Pinned(started_with, DeliverySource::Lock)
    );
}

fn ctx(raw: bool) -> DictationContext {
    DictationContext::capture(raw, false, false, Delivery::Foreground, 1)
}

#[test]
fn a_started_dictation_is_taken_once() {
    let mut active = ActiveDictations::default();
    active.begin("transcribe", ctx(true));
    let taken = active.take("transcribe");
    assert_eq!(taken, Some(ctx(true)));
    assert_eq!(active.take("transcribe"), None);
}

#[test]
fn an_unstarted_binding_has_no_context() {
    let mut active = ActiveDictations::default();
    active.begin("transcribe", ctx(false));
    assert_eq!(active.take("transcribe_raw"), None);
}

#[test]
fn bindings_do_not_overwrite_each_other() {
    let mut active = ActiveDictations::default();
    active.begin("transcribe", ctx(false));
    active.begin("transcribe_raw", ctx(true));
    assert_eq!(
        active.take("transcribe_raw").map(|c| c.effective_raw()),
        Some(true)
    );
    assert_eq!(
        active.take("transcribe").map(|c| c.effective_raw()),
        Some(false)
    );
}

#[test]
fn abandoned_contexts_are_dropped() {
    let mut active = ActiveDictations::default();
    active.begin("transcribe", ctx(true));
    active.discard("transcribe");
    assert_eq!(active.take("transcribe"), None);

    active.begin("transcribe", ctx(true));
    active.begin("transcribe_raw", ctx(true));
    active.discard_all();
    assert_eq!(active.take("transcribe"), None);
    assert_eq!(active.take("transcribe_raw"), None);
}

#[test]
fn the_gate_forgets_only_past_its_capacity() {
    let mut gate = DeliverySequenceGate::new();
    for sequence in 1..=64u64 {
        assert!(gate.claim(sequence));
    }
    // All sixty-four are still remembered.
    assert!(!gate.claim(1));
    assert!(gate.claim(65));
    // Claiming the sixty-fifth pushed the oldest out.
    assert!(gate.claim(1));
}

#[test]
fn dictation_numbers_count_up_from_one() {
    let mut sequence = DictationSequence::new();
    assert_eq!(sequence.current(), 0);
    assert_eq!(sequence.next(), 1);
    assert_eq!(sequence.next(), 2);
    assert_eq!(sequence.current(), 2);
}
