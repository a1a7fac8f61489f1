use audiobud::key_chord::{auto_submit_events, send_return_key};
use audiobud::settings::AutoSubmitKey;
use audiobud::key_chord::{
    paste_chord_keys, send_click_chord, send_pressed_key_chord_with, ChordAction, ChordError,
    ChordKey, KeyChord, KeyDirection, KeyInput, KeyboardPlatform, PasteShortcut,
};

#[derive(Default)]
struct FakeKeyboard {
    events: Vec<(ChordKey, KeyDirection)>,
    pressed: Vec<ChordKey>,
    fail_at: Option<usize>,
    waits: Vec<u64>,
}

impl FakeKeyboard {
    fn failing_at(event: usize) -> Self {
        Self {
            fail_at: Some(event),
            ..Self::default()
        }
    }
}

impl KeyInput for FakeKeyboard {
    fn log(&self) -> Vec<(ChordKey, KeyDirection, bool)> {
        self.events
            .iter()
            .enumerate()
            .map(|(index, (key, direction))| (*key, *direction, self.fail_at != Some(index)))
            .collect()
    }

    fn emit_key(&mut self, key: ChordKey, direction: KeyDirection) -> Result<(), String> {
        self.events.push((key, direction));
        match direction {
            KeyDirection::Press => self.pressed.push(key),
            KeyDirection::Release => {
                if let Some(position) = self.pressed.iter().rposition(|pressed| *pressed == key) {
                    self.pressed.remove(position);
                }
            }
            KeyDirection::Click => {}
        }

        if self.fail_at == Some(self.events.len() - 1) {
            Err("simulated input failure".to_string())
        } else {
            Ok(())
        }
    }

    fn wait_ms(&mut self, ms: u64) {
        self.waits.push(ms);
    }
}

#[test]
fn click_chord_releases_modifiers_after_each_possible_failure() {
    for fail_at in 0..5 {
        let mut keyboard = FakeKeyboard::failing_at(fail_at);
        let result = send_click_chord(
            &mut keyboard,
            &[ChordKey::Meta, ChordKey::Shift],
            ChordKey::Unicode('v'),
            0,
        );

        assert!(result.is_err(), "event {fail_at} must fail");
        assert!(
            keyboard.pressed.is_empty(),
            "event {fail_at} left keys pressed: {:?}",
            keyboard.pressed
        );
    }
}

#[test]
fn pressed_key_chord_releases_return_and_modifier_after_each_failure() {
    for fail_at in 0..4 {
        let mut keyboard = FakeKeyboard::failing_at(fail_at);
        let result =
            send_pressed_key_chord_with(&mut keyboard, &[ChordKey::Meta], ChordKey::Return);

        assert!(result.is_err(), "event {fail_at} must fail");
        assert!(
            keyboard.pressed.is_empty(),
            "event {fail_at} left keys pressed: {:?}",
            keyboard.pressed
        );
    }
}

#[test]
fn cleanup_releases_pressed_keys_in_reverse_order() {
    let mut keyboard = FakeKeyboard::failing_at(2);
    let result = send_click_chord(
        &mut keyboard,
        &[ChordKey::Meta, ChordKey::Shift],
        ChordKey::Unicode('v'),
        0,
    );

    assert!(result.is_err());
    let releases: Vec<ChordKey> = keyboard
        .events
        .iter()
        .filter(|(_, direction)| matches!(direction, KeyDirection::Release))
        .map(|(key, _)| *key)
        .collect();
    assert_eq!(releases, vec![ChordKey::Shift, ChordKey::Meta]);
}

#[test]
fn successful_click_chord_sends_the_full_sequence_and_waits_once() {
    let mut keyboard = FakeKeyboard::default();
    let result = send_click_chord(
        &mut keyboard,
        &[ChordKey::Control, ChordKey::Shift],
        ChordKey::Unicode('v'),
        100,
    );

    assert_eq!(result, Ok(()));
    assert_eq!(
        keyboard.events,
        vec![
            (ChordKey::Control, KeyDirection::Press),
            (ChordKey::Shift, KeyDirection::Press),
            (ChordKey::Unicode('v'), KeyDirection::Click),
            (ChordKey::Shift, KeyDirection::Release),
            (ChordKey::Control, KeyDirection::Release),
        ]
    );
    assert_eq!(keyboard.waits, vec![100]);
}

#[test]
fn successful_pressed_chord_releases_the_main_key_first() {
    let mut keyboard = FakeKeyboard::default();
    let result = send_pressed_key_chord_with(&mut keyboard, &[ChordKey::Meta], ChordKey::Return);

    assert_eq!(result, Ok(()));
    assert_eq!(
        keyboard.events,
        vec![
            (ChordKey::Meta, KeyDirection::Press),
            (ChordKey::Return, KeyDirection::Press),
            (ChordKey::Return, KeyDirection::Release),
            (ChordKey::Meta, KeyDirection::Release),
        ]
    );
    assert!(keyboard.waits.is_empty());
}

#[test]
fn a_failed_press_is_reported_and_its_key_still_released() {
    let mut keyboard = FakeKeyboard::failing_at(1);
    let result = send_click_chord(
        &mut keyboard,
        &[ChordKey::Meta, ChordKey::Shift],
        ChordKey::Unicode('v'),
        0,
    );

    assert_eq!(
        result,
        Err(ChordError::Press(
            ChordKey::Shift,
            "simulated input failure".to_string()
        ))
    );
    assert_eq!(
        keyboard.events[2..].to_vec(),
        vec![
            (ChordKey::Shift, KeyDirection::Release),
            (ChordKey::Meta, KeyDirection::Release),
        ]
    );
}

#[test]
fn a_failed_release_is_retried_once_during_cleanup() {
    // Events: press Meta, click v, release Meta (fails), release Meta again.
    let mut keyboard = FakeKeyboard::failing_at(2);
    let result = send_click_chord(&mut keyboard, &[ChordKey::Meta], ChordKey::Unicode('v'), 0);

    assert_eq!(
        result,
        Err(ChordError::Release(
            ChordKey::Meta,
            "simulated input failure".to_string()
        ))
    );
    assert_eq!(keyboard.events.len(), 4);
    assert_eq!(keyboard.events[3], (ChordKey::Meta, KeyDirection::Release));
}

#[test]
fn a_chord_without_modifiers_starts_at_the_main_key() {
    let chord = KeyChord::click(Vec::new(), ChordKey::Return);
    assert_eq!(
        chord.next_action(),
        ChordAction::Emit(ChordKey::Return, KeyDirection::Click)
    );
}

#[test]
fn paste_shortcuts_use_layout_independent_keys() {
    assert_eq!(
        paste_chord_keys(KeyboardPlatform::MacOs, PasteShortcut::CtrlV),
        (vec![ChordKey::Meta], ChordKey::Other(9))
    );
    assert_eq!(
        paste_chord_keys(KeyboardPlatform::Windows, PasteShortcut::CtrlShiftV),
        (vec![ChordKey::Control, ChordKey::Shift], ChordKey::Other(0x56))
    );
    assert_eq!(
        paste_chord_keys(KeyboardPlatform::Linux, PasteShortcut::CtrlV),
        (vec![ChordKey::Control], ChordKey::Unicode('v'))
    );
    assert_eq!(
        paste_chord_keys(KeyboardPlatform::Windows, PasteShortcut::ShiftInsert),
        (vec![ChordKey::Shift], ChordKey::Other(0x2D))
    );
    assert_eq!(
        paste_chord_keys(KeyboardPlatform::Linux, PasteShortcut::ShiftInsert),
        (vec![ChordKey::Shift], ChordKey::Other(0x76))
    );
}

#[test]
fn auto_submit_keys_hold_their_modifier_around_return() {
    assert_eq!(
        auto_submit_events(AutoSubmitKey::Enter),
        vec![
            (ChordKey::Return, KeyDirection::Press),
            (ChordKey::Return, KeyDirection::Release),
        ]
    );
    assert_eq!(
        auto_submit_events(AutoSubmitKey::CtrlEnter),
        vec![
            (ChordKey::Control, KeyDirection::Press),
            (ChordKey::Return, KeyDirection::Press),
            (ChordKey::Return, KeyDirection::Release),
            (ChordKey::Control, KeyDirection::Release),
        ]
    );
    assert_eq!(
        auto_submit_events(AutoSubmitKey::CmdEnter)[0],
        (ChordKey::Meta, KeyDirection::Press)
    );
}

#[test]
fn auto_submit_sends_every_event_and_stops_at_the_first_failure() {
    let mut keyboard = FakeKeyboard::default();
    assert_eq!(send_return_key(&mut keyboard, AutoSubmitKey::CmdEnter), Ok(()));
    assert_eq!(keyboard.events.len(), 4);
    assert!(keyboard.pressed.is_empty());

    let mut failing = FakeKeyboard::failing_at(1);
    assert_eq!(
        send_return_key(&mut failing, AutoSubmitKey::CtrlEnter),
        Err(ChordError::Press(
            ChordKey::Return,
            "simulated input failure".to_string()
        ))
    );
    assert_eq!(failing.events.len(), 2);
}
