use audiobud::language::TextPipelineLanguage;

#[test]
fn derives_the_effective_output_language_once() {
    assert_eq!(
        TextPipelineLanguage::from_transcription_settings("fr-CA", false, true, None).tag(),
        Some("fr-CA")
    );
    assert_eq!(
        TextPipelineLanguage::from_transcription_settings("auto", false, true, None).tag(),
        None
    );
    assert_eq!(
        TextPipelineLanguage::from_transcription_settings("fr", true, true, None).tag(),
        Some("en")
    );
    assert_eq!(
        TextPipelineLanguage::from_transcription_settings("auto", false, false, Some("ru")).tag(),
        Some("ru")
    );
    assert_eq!(
        TextPipelineLanguage::from_transcription_settings("fr", false, false, None).tag(),
        None
    );
    assert!(TextPipelineLanguage::known("en-US").is_english());
    assert!(!TextPipelineLanguage::known("pl").is_english());
}

#[test]
fn the_base_language_drops_the_region() {
    assert_eq!(
        TextPipelineLanguage::known("pt_BR").base_language(),
        Some("pt".to_string())
    );
    assert_eq!(TextPipelineLanguage::unknown().base_language(), None);
    assert!(TextPipelineLanguage::english().is_english());
    assert!(TextPipelineLanguage::known("EN").is_english());
}

#[test]
fn english_only_stages_leave_other_languages_alone() {
    let english = TextPipelineLanguage::known("en-US");
    let numbered = audiobud::numbers::format_numbers("twenty five question mark", &english);
    assert_eq!(numbered, "25 question mark");
    assert_eq!(
        audiobud::spoken_punctuation::apply_spoken_punctuation(&numbered, &english),
        "25?"
    );

    for language in [TextPipelineLanguage::known("fr"), TextPipelineLanguage::unknown()] {
        let numbered =
            audiobud::numbers::format_numbers("um twenty five question mark", &language);
        assert_eq!(
            audiobud::spoken_punctuation::apply_spoken_punctuation(&numbered, &language),
            "um twenty five question mark"
        );
    }
}
