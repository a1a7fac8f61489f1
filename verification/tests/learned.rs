use audiobud::learned::learned_replacement_candidates;
use audiobud::settings::WordReplacement;

fn pairs(original: &str, corrected: &str) -> Option<Vec<(String, String)>> {
    learned_replacement_candidates(original, corrected, &[])
}

fn pair(from: &str, to: &str) -> (String, String) {
    (from.to_string(), to.to_string())
}

#[test]
fn a_one_word_correction_is_a_candidate() {
    assert_eq!(pairs("ask clawed now", "ask Clyde now"), Some(vec![pair("clawed", "Clyde")]));
}

#[test]
fn unchanged_text_has_no_candidates() {
    assert_eq!(pairs("hello there", "hello   there"), Some(vec![]));
}

#[test]
fn surrounding_punctuation_is_trimmed_when_it_is_kept() {
    assert_eq!(pairs("open clawed.", "open Clyde."), Some(vec![pair("clawed", "Clyde")]));
}

#[test]
fn a_changed_mark_around_a_word_rejects_the_edit() {
    assert_eq!(pairs("call prent now", "call print() now"), None);
}

#[test]
fn insertions_deletions_and_rewrites_reject_the_whole_edit() {
    assert_eq!(pairs("ask clawed now", "ask clawed right now"), None);
    assert_eq!(pairs("ask clawed right now", "ask clawed now"), None);
    assert_eq!(pairs("one two three", "four five three"), None);
    assert_eq!(pairs("alpha beta", "beta alpha"), None);
}

#[test]
fn several_substitutions_are_collected_in_order() {
    assert_eq!(
        pairs("the cat sat on the mat", "the bat sat on the hat"),
        Some(vec![pair("cat", "bat"), pair("mat", "hat")])
    );
}

#[test]
fn preceding_rules_that_delete_or_change_shape_block_learning() {
    let deleting = WordReplacement {
        from: "um".to_string(),
        to: String::new(),
        whole_word: true,
        case_sensitive: false,
        preserve_replacement_case: false,
    };
    assert_eq!(learned_replacement_candidates("a cat", "a bat", &[deleting]), None);
    let reshaping = WordReplacement {
        from: "foo".to_string(),
        to: "bar.".to_string(),
        whole_word: true,
        case_sensitive: false,
        preserve_replacement_case: false,
    };
    assert_eq!(learned_replacement_candidates("a cat", "a bat", &[reshaping]), None);
}

#[test]
fn overlong_input_is_not_aligned() {
    let long_token = "x".repeat(257);
    assert_eq!(pairs(&long_token, "y"), None);
}
