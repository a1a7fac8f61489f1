//! Input-length limits for engines whose models bake in a maximum sequence length, and the
//! fixed failure messages of the transcription pipeline.
use vstd::prelude::*;
use crate::unicode::{chars_of, decimal, decimal_digits, extend_chars, string_from};

verus! {

/// Sample rate (Hz) of the mono audio handed to the engines.
pub const WHISPER_SAMPLE_RATE: u32 = 16000;

/// Maximum input length, in mono 16 kHz samples, that the Parakeet engines transcribe
/// completely: 390 s, ten seconds below the 400 s their positional embeddings cover.
pub const PARAKEET_MAX_INPUT_SAMPLES: usize = 390 * 16000;

/// Stable prefix of the too-long error, parsed by the frontend so it can be localized.
pub const PARAKEET_INPUT_TOO_LONG_PREFIX: &'static str = "parakeet_input_too_long:";

/// Refusal while an earlier timed-out transcription still holds an engine.
pub const WEDGED_ENGINE_ERROR: &'static str =
    "The transcription engine is stuck from an earlier timeout. Restart AudioBud to recover.";

/// Refusal when no model is loaded.
pub const MODEL_NOT_LOADED_ERROR: &'static str = "Model is not loaded for transcription.";

/// Refusal after an automatic model load failed (already reported by its own event).
pub const MODEL_AUTO_LOAD_FAILED_ERROR: &'static str =
    "Model failed to load after auto-load attempt. Please check your model settings.";

/// Refuses Parakeet input that would be silently truncated. The error is the stable prefix
/// followed by the recording's length in whole seconds.
pub fn check_parakeet_input_length(sample_count: usize) -> (r: Result<(), String>)
    ensures
        sample_count <= PARAKEET_MAX_INPUT_SAMPLES ==> r is Ok,
        sample_count > PARAKEET_MAX_INPUT_SAMPLES ==> (r matches Err(m) && m@
            == PARAKEET_INPUT_TOO_LONG_PREFIX@ + decimal((sample_count / 16000) as nat)),
{
    if sample_count <= PARAKEET_MAX_INPUT_SAMPLES {
        return Ok(());
    }
    let total_seconds = sample_count / (WHISPER_SAMPLE_RATE as usize);
    let mut text = chars_of(PARAKEET_INPUT_TOO_LONG_PREFIX);
    let digits = decimal_digits(total_seconds as u64);
    extend_chars(&mut text, digits.as_slice());
    Err(string_from(text.as_slice()))
}

} // verus!
