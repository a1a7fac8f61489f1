use audiobud::personalization::{accept_word_suggestion, dismiss_word_suggestion, excluded_words, LEARNED_WORDS_CAP};
use audiobud::personalization::{mine_word_suggestions, WordSuggestion};
use audiobud::personalization::get_word_suggestions;
use audiobud::settings::PersonalizationData;


fn no_exclude() -> Vec<String> {
    Vec::new()
}

#[test]
fn suggests_frequent_proper_nouns() {
    // "Codex" appears 3x mid-sentence, capitalized -> a proper-noun suggestion.
    let texts = vec![
        "I asked Codex to review it.".to_string(),
        "Then Codex found a bug.".to_string(),
        "Finally Codex shipped it.".to_string(),
    ];
    let out = mine_word_suggestions(&texts, &no_exclude(), 10);
    assert_eq!(out.len(), 1, "expected exactly one suggestion: {out:?}");
    assert_eq!(out[0].word, "Codex");
    assert_eq!(out[0].count, 3);
}

#[test]
fn honors_minimum_frequency() {
    // Only 2 occurrences -> below MIN_FREQUENCY (3).
    let texts = vec![
        "Ask Codex about it.".to_string(),
        "Codex knows.".to_string(),
    ];
    assert!(mine_word_suggestions(&texts, &no_exclude(), 10).is_empty());
}

#[test]
fn vetoes_common_words() {
    // "There" is capitalized mid-sentence but is an everyday word -> never suggested.
    let texts = vec![
        "Look There it goes.".to_string(),
        "Stop There right now.".to_string(),
        "Wait There a moment.".to_string(),
    ];
    assert!(mine_word_suggestions(&texts, &no_exclude(), 10).is_empty());
}

#[test]
fn excludes_sentence_initial_only_capitalization() {
    // "Tomorrow" is only ever capitalized as the first word of a sentence -> not a proper noun.
    let texts = vec![
        "Tomorrow we ship.".to_string(),
        "Tomorrow it rains.".to_string(),
        "Tomorrow we rest.".to_string(),
    ];
    assert!(mine_word_suggestions(&texts, &no_exclude(), 10).is_empty());
}

#[test]
fn excludes_sentence_start_after_midtext_terminator() {
    // "Tomorrow" only ever appears right after a sentence terminator inside the text. It must be
    // treated as sentence-initial (not a proper noun) even mid-string -- the separator between
    // the terminator and the word must not reset the sentence-start flag.
    let texts =
        vec!["We ship today. Tomorrow we rest. Tomorrow we plan. Tomorrow we go.".to_string()];
    assert!(mine_word_suggestions(&texts, &no_exclude(), 10).is_empty());
}

#[test]
fn rejects_overlong_tokens() {
    // A repeated capitalized token longer than the manual custom-word cap must not be suggested.
    let long = "Supercalifragilisticexpialidocious".repeat(2); // 68 chars > MAX_WORD_LEN
    let texts = vec![
        format!("We love {long} here."),
        format!("We love {long} there."),
        format!("We love {long} daily."),
    ];
    assert!(mine_word_suggestions(&texts, &no_exclude(), 10).is_empty());
}

#[test]
fn respects_exclude_set() {
    let texts = vec![
        "I asked Codex to review it.".to_string(),
        "Then Codex found a bug.".to_string(),
        "Finally Codex shipped it.".to_string(),
    ];
    let exclude = vec!["codex".to_string()];
    assert!(mine_word_suggestions(&texts, &exclude, 10).is_empty());
}

#[test]
fn ranks_by_frequency_then_alphabetically() {
    let mut texts = Vec::new();
    // Kubernetes capitalized mid-sentence 5x.
    for _ in 0..5 {
        texts.push("We deployed Kubernetes today.".to_string());
    }
    // Grafana capitalized mid-sentence 3x.
    for _ in 0..3 {
        texts.push("We checked Grafana again.".to_string());
    }
    let out = mine_word_suggestions(&texts, &no_exclude(), 10);
    assert_eq!(out.len(), 2, "{out:?}");
    assert_eq!(out[0].word, "Kubernetes");
    assert_eq!(out[0].count, 5);
    assert_eq!(out[1].word, "Grafana");
    assert_eq!(out[1].count, 3);
}

#[test]
fn truncates_to_limit() {
    let texts = vec![
        "Use Alpha then Bravo then Charlie now.".to_string(),
        "Use Alpha then Bravo then Charlie again.".to_string(),
        "Use Alpha then Bravo then Charlie today.".to_string(),
    ];
    let out = mine_word_suggestions(&texts, &no_exclude(), 2);
    assert_eq!(out.len(), 2, "limit should cap results: {out:?}");
}

#[test]
fn zero_limit_returns_empty() {
    let texts = vec!["Codex Codex Codex are mid sentence here.".to_string()];
    assert!(mine_word_suggestions(&texts, &no_exclude(), 0).is_empty());
}

#[test]
fn ignores_pure_numbers() {
    let texts = vec![
        "We shipped 2024 builds.".to_string(),
        "We shipped 2024 builds.".to_string(),
        "We shipped 2024 builds.".to_string(),
    ];
    assert!(mine_word_suggestions(&texts, &no_exclude(), 10).is_empty());
}

#[test]
fn prefers_capitalized_surface_form() {
    // Mixed casing: the capitalized spelling should be the suggested surface form.
    let texts = vec![
        "We use Grafana here.".to_string(),
        "We use Grafana there.".to_string(),
        "We use grafana sometimes.".to_string(),
        "We use Grafana daily.".to_string(),
    ];
    let out = mine_word_suggestions(&texts, &no_exclude(), 10);
    assert_eq!(out.len(), 1, "{out:?}");
    assert_eq!(out[0].word, "Grafana");
    assert_eq!(out[0].count, 4, "count is case-insensitive");
}

#[test]
fn keeps_alphanumeric_tokens_together() {
    // A versioned product name keeps its digits (tokenizer allows internal alphanumerics).
    let texts = vec![
        "Deploy Parakeet3 to prod.".to_string(),
        "Deploy Parakeet3 to stage.".to_string(),
        "Deploy Parakeet3 to dev.".to_string(),
    ];
    let out = mine_word_suggestions(&texts, &no_exclude(), 10);
    assert_eq!(out.len(), 1, "{out:?}");
    assert_eq!(out[0].word, "Parakeet3");
}

#[test]
fn suggestions_carry_word_and_count() {
    let texts = vec![
        "We met Ada today.".to_string(),
        "Then we met Ada again.".to_string(),
        "Call Ada later.".to_string(),
    ];
    let out = mine_word_suggestions(&texts, &no_exclude(), 5);
    assert_eq!(
        out,
        vec![WordSuggestion {
            word: "Ada".to_string(),
            count: 3
        }]
    );
}

#[test]
fn accepting_a_word_learns_it_once_and_undismisses_it() {
    let mut learned = vec!["Grafana".to_string()];
    let mut dismissed = vec!["codex".to_string(), "Other".to_string()];
    assert_eq!(accept_word_suggestion(&mut learned, &mut dismissed, "  Codex "), Ok(()));
    assert_eq!(learned, vec!["Grafana".to_string(), "Codex".to_string()]);
    assert_eq!(dismissed, vec!["Other".to_string()]);
    assert_eq!(accept_word_suggestion(&mut learned, &mut dismissed, "GRAFANA"), Ok(()));
    assert_eq!(learned.len(), 2);
    assert_eq!(
        accept_word_suggestion(&mut learned, &mut dismissed, "   "),
        Err("Word is empty".to_string())
    );
}

#[test]
fn a_full_learned_list_refuses_new_words_and_changes_nothing() {
    let mut learned: Vec<String> = (0..LEARNED_WORDS_CAP).map(|i| format!("word{i}")).collect();
    let mut dismissed = vec!["extra".to_string()];
    assert_eq!(
        accept_word_suggestion(&mut learned, &mut dismissed, "extra"),
        Err("Learned words list is full (500 max)".to_string())
    );
    assert_eq!(dismissed, vec!["extra".to_string()]);
    // A word already learned is still accepted when the list is full.
    assert_eq!(accept_word_suggestion(&mut learned, &mut dismissed, "WORD7"), Ok(()));
}

#[test]
fn dismissing_is_idempotent_and_exclusions_are_lowercase() {
    let mut dismissed = Vec::new();
    assert_eq!(dismiss_word_suggestion(&mut dismissed, " Foo "), Ok(()));
    assert_eq!(dismiss_word_suggestion(&mut dismissed, "FOO"), Ok(()));
    assert_eq!(dismissed, vec!["Foo".to_string()]);
    assert_eq!(
        excluded_words(&vec!["ChatBot".to_string()], &vec!["Ada".to_string()], &dismissed),
        vec!["chatbot".to_string(), "ada".to_string(), "foo".to_string()]
    );
}

fn codex_history() -> Vec<String> {
    vec![
        "I asked Codex to review it.".to_string(),
        "Then Codex found a bug.".to_string(),
        "Finally Codex shipped it.".to_string(),
    ]
}

fn personalization(enabled: bool, dismissed: Vec<String>) -> PersonalizationData {
    PersonalizationData {
        enabled,
        learned_words: Vec::new(),
        learned_replacements: Vec::new(),
        dismissed_suggestions: dismissed,
    }
}

#[test]
fn no_suggestions_while_personalization_is_off() {
    let out = get_word_suggestions(&personalization(false, Vec::new()), &Vec::new(), &codex_history(), 10);
    assert!(out.is_empty());
}

#[test]
fn suggestions_skip_known_and_dismissed_words() {
    let on = personalization(true, Vec::new());
    let out = get_word_suggestions(&on, &Vec::new(), &codex_history(), 10);
    assert_eq!(
        out,
        vec![WordSuggestion {
            word: "Codex".to_string(),
            count: 3
        }]
    );

    let known = vec!["codex".to_string()];
    assert!(get_word_suggestions(&on, &known, &codex_history(), 10).is_empty());

    let dismissed = personalization(true, vec!["CODEX".to_string()]);
    assert!(get_word_suggestions(&dismissed, &Vec::new(), &codex_history(), 10).is_empty());
}
