use audiobud::unicode::trim_whitespace;
use audiobud::text::{
    alpha_only, alphanumeric_components, build_ngram, common_prefix_len, first_alnum,
    has_intentional_mixed_case, is_all_caps, is_capitalized, is_contraction_edit,
    is_regular_inflection_edit, lcs_anchors, word_core,
};

fn chars(s: &str) -> Vec<char> {
    s.chars().collect()
}

fn text(v: &[char]) -> String {
    v.iter().collect()
}

#[test]
fn word_cores_lose_only_prose_marks() {
    assert_eq!(text(&word_core(&chars("(Name),"))), "Name");
    assert_eq!(text(&word_core(&chars("clawed."))), "clawed");
    assert_eq!(text(&word_core(&chars(".env"))), ".env");
    assert_eq!(text(&word_core(&chars("C#"))), "C#");
    assert_eq!(text(&word_core(&chars("\u{201C}quote\u{201D}"))), "quote");
}

#[test]
fn components_are_the_alphanumeric_runs() {
    let parts: Vec<String> = alphanumeric_components(&chars("mother-in-law"))
        .iter()
        .map(|p| text(p))
        .collect();
    assert_eq!(parts, vec!["mother", "in", "law"]);
    assert!(alphanumeric_components(&chars("--")).is_empty());
}

#[test]
fn casing_shapes_are_told_apart() {
    assert!(has_intentional_mixed_case(&chars("iOS")));
    assert!(has_intentional_mixed_case(&chars("OpenAI")));
    assert!(!has_intentional_mixed_case(&chars("Hello")));
    assert!(!has_intentional_mixed_case(&chars("HELLO")));
    assert!(is_all_caps(&chars("GPU-2")));
    assert!(!is_all_caps(&chars("42")));
    assert!(is_capitalized(&chars("Monday")));
    assert!(!is_capitalized(&chars("McDonald")));
}

#[test]
fn contractions_are_grammar_edits() {
    assert!(is_contraction_edit(&chars("Name"), &chars("Name'll")));
    assert!(is_contraction_edit(&chars("can\u{2019}t"), &chars("can")));
    assert!(is_contraction_edit(&chars("will"), &chars("won't")));
    assert!(!is_contraction_edit(&chars("cat"), &chars("cats")));
}

#[test]
fn inflections_are_grammar_edits() {
    assert!(is_regular_inflection_edit(&chars("API"), &chars("APIs")));
    assert!(is_regular_inflection_edit(&chars("Zorp"), &chars("Zorped")));
    assert!(is_regular_inflection_edit(&chars("run"), &chars("running")));
    assert!(is_regular_inflection_edit(&chars("carry"), &chars("carried")));
    assert!(is_regular_inflection_edit(&chars("bake"), &chars("baked")));
    assert!(is_regular_inflection_edit(&chars("mother-in-law"), &chars("mothers-in-law")));
    // A stylized brand recasing is not a plural.
    assert!(!is_regular_inflection_edit(&chars("io"), &chars("iOS")));
    assert!(!is_regular_inflection_edit(&chars("clawed"), &chars("Name")));
}

#[test]
fn lcs_anchors_follow_the_common_tokens() {
    let a = vec!["a".to_string(), "b".to_string(), "c".to_string()];
    let b = vec!["a".to_string(), "x".to_string(), "c".to_string()];
    assert_eq!(lcs_anchors(&a, &b), vec![(0, 0), (2, 2)]);

    // On a tie the walk advances on the corrected side, so the later unchanged token anchors.
    let a = vec!["jon".to_string(), "john".to_string()];
    let b = vec!["john".to_string(), "john".to_string()];
    assert_eq!(lcs_anchors(&a, &b), vec![(1, 1)]);

    assert!(lcs_anchors(&[], &a).is_empty());
}

#[test]
fn ngram_keys_and_anchors() {
    assert_eq!(build_ngram(&["Charge", "B,"]), "chargeb");
    assert_eq!(build_ngram(&[]), "");
    assert_eq!(first_alnum(&chars("...x1")), Some('x'));
    assert_eq!(first_alnum(&chars("--")), None);
    assert_eq!(text(&alpha_only(&chars("a1-b\u{e9}C"))), "abC");
    assert_eq!(common_prefix_len(&chars("macbook"), &chars("mach")), 3);
    assert_eq!(common_prefix_len(&chars("ab"), &chars("abc")), 2);
}

#[test]
fn whitespace_is_exactly_the_white_space_property() {
    for code in 0u32..=0x10FFFF {
        if let Some(c) = char::from_u32(code) {
            let trimmed = trim_whitespace(&[c]);
            assert_eq!(trimmed.is_empty(), c.is_whitespace(), "U+{code:04X}");
        }
    }
}
