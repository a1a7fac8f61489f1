use audiobud::engine_limits::{check_parakeet_input_length, PARAKEET_MAX_INPUT_SAMPLES};

#[test]
fn accepts_input_just_under_the_limit() {
    assert!(check_parakeet_input_length(PARAKEET_MAX_INPUT_SAMPLES - 1).is_ok());
}

#[test]
fn accepts_input_exactly_at_the_limit() {
    assert!(check_parakeet_input_length(PARAKEET_MAX_INPUT_SAMPLES).is_ok());
}

#[test]
fn rejects_input_just_over_the_limit() {
    let message = check_parakeet_input_length(PARAKEET_MAX_INPUT_SAMPLES + 1)
        .expect_err("input past the limit must be refused");
    assert_eq!(message, "parakeet_input_too_long:390");
}

#[test]
fn the_reported_length_is_in_whole_seconds() {
    assert_eq!(
        check_parakeet_input_length(16000 * 1000 + 15999),
        Err("parakeet_input_too_long:1000".to_string())
    );
}
