use audiobud::actions::PostProcessPrompt;
use audiobud::post_process::{
    on_device_reply_text, post_process_plan, structured_reply_text, PostProcessProvider,
    PostProcessSettings, ReasoningOverride,
};

fn settings(provider: &str, model: &str, prompt: &str) -> PostProcessSettings {
    PostProcessSettings {
        provider: Some(PostProcessProvider {
            id: provider.to_string(),
            supports_structured_output: true,
        }),
        models: vec![(provider.to_string(), model.to_string())],
        api_keys: vec![(provider.to_string(), "key".to_string())],
        selected_prompt_id: Some("fix".to_string()),
        prompts: vec![PostProcessPrompt {
            id: "fix".to_string(),
            prompt: prompt.to_string(),
        }],
    }
}

#[test]
fn a_complete_setup_builds_both_request_forms() {
    let request = post_process_plan(&settings("openrouter", "m1", "Fix this: ${output}"), "hello")
        .expect("a request");
    assert_eq!(request.provider_id, "openrouter");
    assert_eq!(request.model, "m1");
    assert_eq!(request.api_key, "key");
    assert_eq!(request.reasoning, ReasoningOverride::ExcludedEffortNone);
    assert!(request.structured);
    assert_eq!(request.system_prompt, "Fix this:");
    assert_eq!(request.user_content, "hello");
    assert_eq!(request.legacy_prompt, "Fix this: hello");
}

#[test]
fn each_provider_gets_its_reasoning_override() {
    let custom = post_process_plan(&settings("custom", "m", "p ${output}"), "t").unwrap();
    assert_eq!(custom.reasoning, ReasoningOverride::EffortNone);
    let other = post_process_plan(&settings("openai", "m", "p ${output}"), "t").unwrap();
    assert_eq!(other.reasoning, ReasoningOverride::Unchanged);
}

#[test]
fn post_processing_is_skipped_without_a_usable_setup() {
    let mut none = settings("custom", "m", "p");
    none.provider = None;
    assert!(post_process_plan(&none, "t").is_none());
    assert!(post_process_plan(&settings("custom", "   ", "p"), "t").is_none());
    assert!(post_process_plan(&settings("custom", "m", "  "), "t").is_none());
    let mut unselected = settings("custom", "m", "p");
    unselected.selected_prompt_id = None;
    assert!(post_process_plan(&unselected, "t").is_none());
    let mut missing = settings("custom", "m", "p");
    missing.selected_prompt_id = Some("other".to_string());
    assert!(post_process_plan(&missing, "t").is_none());
    let mut no_model = settings("custom", "m", "p");
    no_model.models = Vec::new();
    assert!(post_process_plan(&no_model, "t").is_none());
}

#[test]
fn every_placeholder_is_filled_in_the_legacy_prompt() {
    let request = post_process_plan(&settings("x", "m", "${output} / ${output}"), "ab").unwrap();
    assert_eq!(request.legacy_prompt, "ab / ab");
    assert_eq!(request.system_prompt, "/");
}

#[test]
fn a_structured_reply_gives_its_transcription_field() {
    assert_eq!(
        structured_reply_text("{\"transcription\": \"Hello\u{200B} world\"}"),
        "Hello world"
    );
    assert_eq!(structured_reply_text("{\"other\": 1}"), "{\"other\": 1}");
    assert_eq!(structured_reply_text("plain text"), "plain text");
}

#[test]
fn a_blank_on_device_reply_is_no_reply() {
    assert_eq!(on_device_reply_text("   "), None);
    assert_eq!(on_device_reply_text("ok\u{FEFF}"), Some("ok".to_string()));
}
