use audiobud::actions::{plain_transcript, raw_transcript};
use audiobud::actions::{history_record, HistoryRecord, ProcessedTranscription};
use audiobud::language::TextPipelineLanguage;
use audiobud::actions::{
    chinese_conversion, process_transcription_output, selected_prompt_text,
    wants_post_processing, ChineseConversion, PostProcessPrompt, TranscriptFormatting,
};
use audiobud::actions::{
    build_system_prompt, force_english_i_casing, strip_invisible_chars,
    transcription_error_already_notified,
};
use audiobud::engine_limits::{
    MODEL_AUTO_LOAD_FAILED_ERROR, MODEL_NOT_LOADED_ERROR, WEDGED_ENGINE_ERROR,
};

#[test]
fn suppresses_generic_toasts_for_model_failures_with_specific_events() {
    assert!(!transcription_error_already_notified(MODEL_NOT_LOADED_ERROR));
    assert!(transcription_error_already_notified(MODEL_AUTO_LOAD_FAILED_ERROR));
    assert!(transcription_error_already_notified(WEDGED_ENGINE_ERROR));
    assert!(!transcription_error_already_notified("parakeet_input_too_long:391"));
}

#[test]
fn force_english_i_casing_forces_when_translating() {
    assert!(force_english_i_casing(true, "de"));
    assert!(force_english_i_casing(true, "auto"));
}

#[test]
fn force_english_i_casing_forces_for_explicit_english() {
    assert!(force_english_i_casing(false, "en"));
    assert!(force_english_i_casing(false, "en-US"));
}

#[test]
fn force_english_i_casing_defers_for_auto_and_non_english() {
    assert!(!force_english_i_casing(false, "auto"));
    assert!(!force_english_i_casing(false, "fr"));
    assert!(!force_english_i_casing(false, "de"));
}

#[test]
fn invisible_characters_are_removed() {
    assert_eq!(
        strip_invisible_chars("a\u{200B}b\u{200C}c\u{200D}d\u{FEFF}e"),
        "abcde"
    );
    assert_eq!(strip_invisible_chars("plain"), "plain");
}

#[test]
fn the_output_placeholder_leaves_the_system_prompt() {
    assert_eq!(
        build_system_prompt("  Fix the grammar of ${output}  "),
        "Fix the grammar of"
    );
    assert_eq!(build_system_prompt("${output}${output}"), "");
    assert_eq!(build_system_prompt("keep $ and {output}"), "keep $ and {output}");
}

#[test]
fn raw_mode_formats_only_when_asked() {
    assert_eq!(
        raw_transcript("Twenty five, question mark", false, "en", &TextPipelineLanguage::known("en"), false, true),
        "twenty five question mark"
    );
    assert_eq!(
        raw_transcript("Twenty five, question mark", false, "en", &TextPipelineLanguage::known("en"), true, true),
        "25?"
    );
    assert_eq!(raw_transcript("i think so.", false, "auto", &TextPipelineLanguage::unknown(), false, false), "i think so");
    assert_eq!(raw_transcript("i think so.", true, "auto", &TextPipelineLanguage::english(), false, false), "I think so");
}

#[test]
fn the_normal_path_records_a_changed_variant() {
    assert_eq!(
        plain_transcript("it costs five dollars", "it costs five dollars", true, &TextPipelineLanguage::english()),
        ("it costs $5".to_string(), Some("it costs $5".to_string()))
    );
    assert_eq!(
        plain_transcript("hello there", "hello there", true, &TextPipelineLanguage::english()),
        ("hello there".to_string(), None)
    );
    assert_eq!(
        plain_transcript("five", "five", false, &TextPipelineLanguage::english()),
        ("five".to_string(), None)
    );
}

#[test]
fn chinese_script_conversion_follows_the_selected_language() {
    assert_eq!(
        chinese_conversion("zh-Hans"),
        Some(ChineseConversion::TraditionalToSimplified)
    );
    assert_eq!(
        chinese_conversion("zh-Hant"),
        Some(ChineseConversion::SimplifiedToTraditional)
    );
    assert_eq!(chinese_conversion("zh"), None);
    assert_eq!(chinese_conversion("en"), None);
}

fn prompt(id: &str, text: &str) -> PostProcessPrompt {
    PostProcessPrompt {
        id: id.to_string(),
        prompt: text.to_string(),
    }
}

#[test]
fn the_selected_prompt_is_the_first_with_its_id() {
    let prompts = vec![
        prompt("a", "Fix ${output}"),
        prompt("b", "Shorten ${output}"),
        prompt("b", "unused"),
    ];
    assert_eq!(
        selected_prompt_text(&prompts, Some("b")),
        Some("Shorten ${output}".to_string())
    );
    assert_eq!(selected_prompt_text(&prompts, Some("c")), None);
    assert_eq!(selected_prompt_text(&prompts, None), None);
}

#[test]
fn raw_output_excludes_post_processing() {
    assert!(wants_post_processing(true, false));
    assert!(!wants_post_processing(true, true));
    assert!(!wants_post_processing(false, false));
}

fn english_formatting(format_raw_output: bool, format_numbers: bool) -> TranscriptFormatting {
    TranscriptFormatting {
        translate_to_english: false,
        selected_language: "en".to_string(),
        language: TextPipelineLanguage::from_transcription_settings("en", false, true, None),
        format_raw_output,
        format_numbers,
    }
}

#[test]
fn raw_output_is_the_last_stage() {
    let processed = process_transcription_output(
        "Twenty five, question mark",
        None,
        true,
        true,
        Some("ignored".to_string()),
        Some("prompt".to_string()),
        &english_formatting(true, true),
    );
    assert_eq!(processed.final_text, "25?");
    assert_eq!(processed.post_processed_text, None);
    assert_eq!(processed.post_process_prompt, None);
}

#[test]
fn a_post_processed_reply_replaces_the_text_and_is_recorded() {
    let processed = process_transcription_output(
        "it costs five dollars",
        None,
        true,
        false,
        Some("It costs five dollars.".to_string()),
        Some("Fix ${output}".to_string()),
        &english_formatting(false, true),
    );
    assert_eq!(processed.final_text, "It costs five dollars.");
    assert_eq!(
        processed.post_processed_text,
        Some("It costs five dollars.".to_string())
    );
    assert_eq!(processed.post_process_prompt, Some("Fix ${output}".to_string()));
}

#[test]
fn a_missing_reply_leaves_the_text_unformatted() {
    let processed = process_transcription_output(
        "it costs five dollars",
        None,
        true,
        false,
        None,
        Some("Fix ${output}".to_string()),
        &english_formatting(false, true),
    );
    assert_eq!(processed.final_text, "it costs five dollars");
    assert_eq!(processed.post_processed_text, None);
    assert_eq!(processed.post_process_prompt, None);
}

#[test]
fn the_normal_path_formats_the_converted_text() {
    let processed = process_transcription_output(
        "it costs five dollars",
        Some("it costs five dollars".to_string()),
        false,
        false,
        None,
        None,
        &english_formatting(false, true),
    );
    assert_eq!(processed.final_text, "it costs $5");
    assert_eq!(processed.post_processed_text, Some("it costs $5".to_string()));

    let converted = process_transcription_output(
        "汉字",
        Some("漢字".to_string()),
        false,
        false,
        None,
        None,
        &english_formatting(false, false),
    );
    assert_eq!(converted.final_text, "漢字");
    assert_eq!(converted.post_processed_text, Some("漢字".to_string()));
}

#[test]
fn an_engine_with_a_fixed_english_language_formats_numbers_under_auto() {
    let formatting = TranscriptFormatting {
        translate_to_english: false,
        selected_language: "auto".to_string(),
        language: TextPipelineLanguage::from_transcription_settings("auto", false, false, Some("en")),
        format_raw_output: false,
        format_numbers: true,
    };
    let processed = process_transcription_output(
        "it costs five dollars",
        None,
        false,
        false,
        None,
        None,
        &formatting,
    );
    assert_eq!(processed.final_text, "it costs $5");
}

fn processed(final_text: &str, post: Option<&str>) -> ProcessedTranscription {
    ProcessedTranscription {
        final_text: final_text.to_string(),
        post_processed_text: post.map(|p| p.to_string()),
        post_process_prompt: None,
    }
}

#[test]
fn history_keeps_the_verbatim_transcript_outside_raw_mode() {
    assert_eq!(
        history_record("it costs five dollars", &processed("it costs $5", Some("it costs $5")), false, true, None),
        HistoryRecord::Entry {
            primary: "it costs five dollars".to_string(),
            post_processed_text: Some("it costs $5".to_string())
        }
    );
    assert_eq!(
        history_record("Twenty five", &processed("25", None), true, true, None),
        HistoryRecord::Entry { primary: "25".to_string(), post_processed_text: None }
    );
    assert_eq!(
        history_record("hello", &processed("hello", None), false, false, None),
        HistoryRecord::Skip
    );
}

#[test]
fn an_overflowed_transcript_is_always_recovered() {
    assert_eq!(
        history_record("汉字", &processed("漢字", None), false, false, Some("漢字".to_string())),
        HistoryRecord::Recovery {
            primary: "汉字".to_string(),
            post_processed_text: Some("漢字".to_string())
        }
    );
    assert_eq!(
        history_record("hello", &processed("hello", None), false, false, Some("hello".to_string())),
        HistoryRecord::Recovery { primary: "hello".to_string(), post_processed_text: None }
    );
    assert_eq!(
        history_record("Twenty five", &processed("25", None), true, true, Some("25".to_string())),
        HistoryRecord::Recovery { primary: "25".to_string(), post_processed_text: None }
    );
}
