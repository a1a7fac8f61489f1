use audiobud::text::{
    extract_punctuation, is_common_word, preserve_case_pattern, strip_to_raw_text,
};

#[test]
fn test_preserve_case_pattern() {
    assert_eq!(preserve_case_pattern("HELLO", "world"), "WORLD");
    assert_eq!(preserve_case_pattern("Hello", "world"), "World");
    assert_eq!(preserve_case_pattern("hello", "WORLD"), "WORLD");
}

#[test]
fn test_extract_punctuation() {
    assert_eq!(extract_punctuation("hello"), ("".to_string(), "".to_string()));
    assert_eq!(extract_punctuation("!hello?"), ("!".to_string(), "?".to_string()));
    assert_eq!(
        extract_punctuation("...hello..."),
        ("...".to_string(), "...".to_string())
    );
}

#[test]
fn test_strip_to_raw_text_worked_example() {
    assert_eq!(
        strip_to_raw_text("Open Readme.md and read ISO-9 notes.", true),
        "open readme.md and read ISO-9 notes"
    );
}

#[test]
fn test_strip_to_raw_text_preserves_acronyms_and_i() {
    assert_eq!(
        strip_to_raw_text("I'm using the API on a GPU now.", true),
        "I'm using the API on a GPU now"
    );
}

#[test]
fn test_strip_to_raw_text_preserves_structural_punctuation() {
    assert_eq!(
        strip_to_raw_text("Email Me@Example.com about v0.1.0, well-known stuff!", true),
        "email me@example.com about v0.1.0 well-known stuff"
    );
}

#[test]
fn test_strip_to_raw_text_forces_english_i_when_known_english() {
    assert_eq!(strip_to_raw_text("i am", true), "I am");
}

#[test]
fn test_strip_to_raw_text_preserves_engine_casing_when_language_unknown() {
    assert_eq!(strip_to_raw_text("I am", false), "I am");
    assert_eq!(strip_to_raw_text("kot i pies", false), "kot i pies");
}

#[test]
fn test_strip_to_raw_text_preserves_technical_symbols() {
    assert_eq!(
        strip_to_raw_text("I write C# and C++ and F#.", true),
        "I write c# and c++ and f#"
    );
}

#[test]
fn test_strip_to_raw_text_preserves_windows_path() {
    assert_eq!(
        strip_to_raw_text("Open C:\\Users\\Joe please.", true),
        "open c:\\users\\joe please"
    );
}

#[test]
fn raw_text_drops_tokens_that_are_only_punctuation() {
    assert_eq!(strip_to_raw_text("Well -- \u{2014} ok...", false), "well -- ok");
    assert_eq!(strip_to_raw_text("   ", true), "");
    assert_eq!(strip_to_raw_text("\u{201C}I'll\u{201D} go", false), "I'll go");
}

#[test]
fn a_word_with_no_letters_is_all_punctuation_on_both_sides() {
    assert_eq!(extract_punctuation("?!"), ("?!".to_string(), "?!".to_string()));
    assert_eq!(extract_punctuation(""), ("".to_string(), "".to_string()));
}

#[test]
fn case_adaptation_of_an_empty_or_digit_original() {
    assert_eq!(preserve_case_pattern("42", "word"), "word");
    assert_eq!(preserve_case_pattern("Hello", ""), "");
    assert_eq!(preserve_case_pattern("BIG DOG", "Small cat"), "SMALL CAT");
}

#[test]
fn everyday_words_are_recognized_whatever_their_case() {
    assert!(is_common_word("There"));
    assert!(is_common_word("THE"));
    assert!(!is_common_word("Kubernetes"));
}
