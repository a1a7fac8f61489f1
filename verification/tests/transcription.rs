use audiobud::transcription::{
    effective_list, engine_language, should_apply_custom_words, validated_language,
    whisper_initial_prompt, EngineKind,
};

fn strings(v: &[&str]) -> Vec<String> {
    v.iter().map(|s| s.to_string()).collect()
}

#[test]
fn learned_vocabulary_joins_only_when_personalization_is_on() {
    let user = strings(&["Codex"]);
    let learned = strings(&["Grafana"]);
    assert_eq!(
        effective_list(user.clone(), learned.clone(), true),
        strings(&["Codex", "Grafana"])
    );
    assert_eq!(effective_list(user, learned, false), strings(&["Codex"]));
}

#[test]
fn an_unsupported_language_falls_back_to_auto() {
    let langs = strings(&["en", "de"]);
    assert_eq!(validated_language("de", Some(&langs)), "de");
    assert_eq!(validated_language("fr", Some(&langs)), "auto");
    assert_eq!(validated_language("fr", Some(&Vec::new())), "fr");
    assert_eq!(validated_language("fr", None), "fr");
    assert_eq!(validated_language("auto", Some(&langs)), "auto");
}

#[test]
fn each_engine_gets_the_language_it_understands() {
    assert_eq!(engine_language(EngineKind::Whisper, "auto"), None);
    assert_eq!(engine_language(EngineKind::Whisper, "zh-Hant"), Some("zh".to_string()));
    assert_eq!(engine_language(EngineKind::Whisper, "de"), Some("de".to_string()));
    assert_eq!(engine_language(EngineKind::Cohere, "zh-Hans"), Some("zh".to_string()));
    assert_eq!(engine_language(EngineKind::Canary, "zh-Hans"), Some("zh-Hans".to_string()));
    assert_eq!(engine_language(EngineKind::SenseVoice, "yue"), Some("yue".to_string()));
    assert_eq!(engine_language(EngineKind::SenseVoice, "de"), None);
    assert_eq!(engine_language(EngineKind::Parakeet, "en"), None);
}

#[test]
fn whisper_is_prompted_with_the_custom_words() {
    assert_eq!(whisper_initial_prompt(&Vec::new()), None);
    assert_eq!(
        whisper_initial_prompt(&strings(&["Codex", "Grafana", "Ada"])),
        Some("Codex, Grafana, Ada".to_string())
    );
    assert!(should_apply_custom_words(true, false));
    assert!(!should_apply_custom_words(true, true));
    assert!(!should_apply_custom_words(false, false));
}
