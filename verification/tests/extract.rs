use audiobud::extract::{extract_learned_replacements, spelling_pairs};
use audiobud::learnable::{is_learnable_substitution, Lexicon};
use audiobud::replacements::apply_replacements;
use audiobud::settings::WordReplacement;

const WORDS: &[&str] = &[
    "a", "about", "accept", "advice", "advise", "and", "api", "apple", "angel", "ask", "asked",
    "based", "big", "browser", "cat", "clawed", "cloud", "crowd", "daily", "deploy", "edit",
    "edits", "except", "expose", "file", "first", "fix", "format", "from", "going", "good",
    "goodbye", "grade", "hello", "help", "here", "i", "in", "it", "keep", "law", "like", "market",
    "meet", "morning", "mother", "mothers", "my", "no", "now", "open", "please", "print",
    "production", "read", "released", "rose", "run", "same", "sample", "sat", "saw", "say",
    "section", "send", "settings", "sonnet", "staging", "start", "steady", "storage", "team",
    "tell", "that", "the", "their", "there", "these", "think", "this", "to", "today",
    "tomorrow", "try", "updates", "us", "use", "vendor", "visit", "we", "we're", "were", "work",
    "world", "wrote",
];

const NAMES: &[&str] = &[
    "alice", "angel", "angela", "bob", "charlie", "john", "jon", "london", "monday", "paris",
    "rose", "tuesday",
];

fn lexicon() -> Lexicon {
    Lexicon {
        words: WORDS.iter().map(|w| w.to_string()).collect(),
        named_entities: NAMES.iter().map(|w| w.to_string()).collect(),
    }
}

/// The spelling-key pairs whose Jaro-Winkler similarity reaches 0.90.
fn close_pairs(pairs: Vec<(String, String)>) -> Vec<(String, String)> {
    pairs.into_iter().filter(|(a, b)| strsim::jaro_winkler(a, b) >= 0.90).collect()
}

fn learn_after(original: &str, corrected: &str, preceding: &[WordReplacement]) -> Vec<WordReplacement> {
    let close = close_pairs(spelling_pairs(original, corrected, preceding));
    extract_learned_replacements(original, corrected, preceding, &lexicon(), &close)
}

fn learn(original: &str, corrected: &str) -> Vec<WordReplacement> {
    learn_after(original, corrected, &[])
}

fn learned_pairs(v: &[WordReplacement]) -> Vec<(String, String)> {
    v.iter().map(|r| (r.from.clone(), r.to.clone())).collect()
}

fn pair(a: &str, b: &str) -> (String, String) {
    (a.to_string(), b.to_string())
}

fn repl(from: &str, to: &str) -> WordReplacement {
    WordReplacement {
        from: from.to_string(),
        to: to.to_string(),
        whole_word: true,
        case_sensitive: false,
        preserve_replacement_case: false,
    }
}

#[test]
fn extractor_learns_a_clean_mishear() {
    let out = learn("I asked clawed to help", "I asked Clyde to help");
    assert_eq!(learned_pairs(&out), vec![pair("clawed", "Clyde")]);
    assert!(out[0].whole_word && !out[0].case_sensitive);
    assert!(!out[0].preserve_replacement_case);
}

#[test]
fn extractor_ignores_unchanged_text() {
    assert!(learn("no edits here", "no edits here").is_empty());
}

#[test]
fn extractor_ignores_pure_case_change() {
    assert!(learn("hello world", "Hello world").is_empty());
}

#[test]
fn extractor_ignores_common_to_common_swap() {
    assert!(learn("their cat sat", "there cat sat").is_empty());
    assert!(learn("please accept this", "please except this").is_empty());
    assert!(learn("good advice today", "good advise today").is_empty());
}

#[test]
fn extractor_rejects_cross_category_semantic_swaps() {
    assert!(learn("open browser now", "open Firefox now").is_empty());
    assert!(learn("meet monday", "meet today").is_empty());
    assert!(learn("ask OpenBSD now", "ask NetBSD now").is_empty());
    assert!(learn("open figma now", "open gitlab now").is_empty());
}

#[test]
fn extractor_drops_contradicted_heard_word() {
    let out = learn("clawed here and clawed there", "Clyde here and Cloud there");
    assert!(out.is_empty(), "contradicted pairs must be dropped, got {out:?}");
    assert!(learn("clawed here and clawed there", "Clyde here and Cloud Code there").is_empty());
}

#[test]
fn extractor_ignores_insertion_and_deletion() {
    assert!(learn("hello world", "hello big world").is_empty());
    assert!(learn("hello big world", "hello world").is_empty());
}

#[test]
fn extractor_trims_surrounding_punctuation() {
    let out = learn("I saw clawed.", "I saw Clyde.");
    assert_eq!(learned_pairs(&out), vec![pair("clawed", "Clyde")]);
}

#[test]
fn extractor_dedupes_repeated_pair() {
    let out = learn("clawed and clawed", "Clyde and Clyde");
    assert_eq!(learned_pairs(&out), vec![pair("clawed", "Clyde")]);
}

#[test]
fn extractor_merges_compatible_casing_variants() {
    let out = learn("Sonet and sonet", "sonnet and sonnet");
    assert_eq!(learned_pairs(&out), vec![pair("Sonet", "sonnet")]);
    assert!(out[0].preserve_replacement_case);
    assert_eq!(apply_replacements("Sonet and sonet", &out), "sonnet and sonnet");
}

#[test]
fn extractor_ignores_numeric_only_change() {
    assert!(learn("section 204", "section 205").is_empty());
}

#[test]
fn extractor_ignores_single_character_change() {
    assert!(learn("grade a work", "grade b work").is_empty());
}

#[test]
fn extractor_learns_multiple_distinct_pairs_in_reading_order() {
    let out = learn("clawed wrote a sonet", "Clyde wrote a sonnet");
    assert_eq!(learned_pairs(&out), vec![pair("clawed", "Clyde"), pair("sonet", "sonnet")]);
}

#[test]
fn extractor_keeps_symbol_bearing_term_intact() {
    let out = learn("use stagign-api today", "use staging-api today");
    assert_eq!(learned_pairs(&out), vec![pair("stagign-api", "staging-api")]);
    assert!(learn("deploy staging-api today", "deploy production-api today").is_empty());
}

#[test]
fn extractor_keeps_leading_dot_so_a_case_edit_is_not_a_new_word() {
    assert!(learn("edit the .env file", "edit the .ENV file").is_empty());
}

#[test]
fn extractor_never_learns_from_a_punctuation_only_token() {
    assert!(learn("I saw !!!", "I saw Clyde").is_empty());
    assert!(learn("", "").is_empty());
    assert!(learn("...", "Clyde").is_empty());
}

#[test]
fn extractor_rejects_a_possessive_inflection_edit() {
    assert!(learn("ask Clyde team", "ask Clyde's team").is_empty());
}

#[test]
fn extractor_rejects_a_possessive_edit_with_a_curly_apostrophe() {
    assert!(learn("ask Clyde team", "ask Clyde\u{2019}s team").is_empty());
}

#[test]
fn extractor_rejects_a_version_bump_on_an_identifier() {
    assert!(learn("try ISO-4 first", "try ISO-5 first").is_empty());
    assert!(learn("try ISO4 first", "try ISO-5 first").is_empty());
    assert!(learn("try ISO-٤ first", "try ISO-٥ first").is_empty());
    assert!(learn("try ISO-４ first", "try ISO-５ first").is_empty());
    assert!(learn("try ISO-4 first", "try ISO-4o first").is_empty());
}

#[test]
fn extractor_rejects_a_word_kept_unchanged_elsewhere() {
    assert!(learn("ask cloud about the cloud", "ask Clyde about the cloud").is_empty());
}

#[test]
fn extractor_does_not_learn_from_a_word_reorder() {
    assert!(learn("Alice Bob Charlie Delta", "Bob Alice Delta Charlie").is_empty());
    assert!(learn("Alice Bob Charlie", "Delta Bob Alice").is_empty());
}

#[test]
fn extractor_learns_correcting_one_name_to_match_another() {
    let out = learn("send it to John from jon", "send it to John from John");
    assert_eq!(learned_pairs(&out), vec![pair("jon", "John")]);
}

#[test]
fn extractor_rejects_a_common_contraction_edit() {
    assert!(learn("i think were going", "i think we're going").is_empty());
    assert!(learn("i think were going", "i think we\u{2019}re going").is_empty());
}

#[test]
fn extractor_rejects_contractions_of_unknown_names() {
    assert!(learn("ask Clyde today", "ask Clyde'll today").is_empty());
    assert!(learn("ask Clyde today", "ask Clyde\u{2019}ll today").is_empty());
}

#[test]
fn extractor_rejects_diacritic_only_edits() {
    assert!(learn("read the expose today", "read the expos\u{e9} today").is_empty());
}

#[test]
fn extractor_rejects_runtime_equivalent_unicode_forms() {
    assert!(learn("use \u{17f}ample today", "use Sample today").is_empty());
}

#[test]
fn extractor_rejects_conflicting_runtime_equivalent_sources() {
    assert!(learn("\u{17f}aaaaaa keep saaaaaa", "\u{17f}aaaaab keep saaaaac").is_empty());
}

#[test]
fn extractor_rejects_mixed_script_changes_as_spelling_evidence() {
    assert!(learn("use \u{3b1}foo today", "use \u{3b2}foo today").is_empty());
    assert!(learn("use foooooo\u{3b1} today", "use foooooo\u{3b2} today").is_empty());
}

#[test]
fn extractor_rejects_ambiguous_presentation_case() {
    assert!(learn("Helo there", "Hello there").is_empty());
    assert!(learn("Goodbye. Helo there", "Goodbye. Hello there").is_empty());
    assert!(learn("FIX SONET TODAY", "FIX SONNET TODAY").is_empty());
    assert!(learn("Aple released updates", "Apple released updates").is_empty());
    assert!(learn("meet Monday morning", "meet Tuesday morning").is_empty());
    assert!(learn("meet monday morning", "meet tuesday morning").is_empty());
    assert!(learn("visit Paris", "visit London").is_empty());
    assert!(learn("visit paris", "visit london").is_empty());
    assert!(learn("ask USA", "ask UK").is_empty());

    let lowercase = learn("fix sonet today", "fix sonnet today");
    assert_eq!(learned_pairs(&lowercase), vec![pair("sonet", "sonnet")]);

    let explicit_lowercase = learn("fix Sonet today", "fix sonnet today");
    assert_eq!(learned_pairs(&explicit_lowercase), vec![pair("Sonet", "sonnet")]);
    assert!(explicit_lowercase[0].preserve_replacement_case);
    assert_eq!(apply_replacements("Sonet", &explicit_lowercase), "sonnet");

    let symbol_led = learn("fix .Sonet today", "fix .sonnet today");
    assert_eq!(learned_pairs(&symbol_led), vec![pair(".Sonet", ".sonnet")]);
    assert!(symbol_led[0].preserve_replacement_case);
    assert_eq!(apply_replacements(".SONET", &symbol_led), ".sonnet");
}

#[test]
fn extractor_rejects_targets_that_add_outer_syntax() {
    assert!(learn("run prent today", "run print() today").is_empty());
    assert!(learn("ask dokter tomorrow", "ask Dr. tomorrow").is_empty());
    assert!(learn("run prent.", "run print().").is_empty());
    assert!(learn("open clawed", "open Clyde.md").is_empty());
    assert!(learn("ask clawed", "ask Clyde-Code").is_empty());
}

#[test]
fn extractor_rejects_targets_with_conflicting_semantic_case() {
    assert!(learn("opnbsd and opnbsd", "OpenBSD and Openbsd").is_empty());
}

#[test]
fn extractor_preserves_a_dictionary_homograph_used_as_a_name() {
    assert!(learn("Use Aple Music", "Use Apple Music").is_empty());
    assert!(learn("Aple Music", "Apple Music").is_empty());

    let learned = learn("Use aple Music", "Use Apple Music");
    assert_eq!(learned_pairs(&learned), vec![pair("aple", "Apple")]);
    assert!(learned[0].preserve_replacement_case);
    assert_eq!(apply_replacements("try aple", &learned), "try Apple");
}

#[test]
fn extractor_rejects_a_dictionary_homograph_corrected_to_a_name() {
    assert!(learn("ask angel", "ask Angela").is_empty());
    assert!(learn("ask rose", "ask Roz").is_empty());
}

#[test]
fn extractor_rejects_a_source_retained_inside_a_runtime_word_boundary() {
    assert!(learn("ask cloud about cloud-based storage", "ask Clyde about cloud-based storage").is_empty());
    assert!(learn("ask cloud about cloud's storage", "ask Clyde about cloud's storage").is_empty());
    let learned = learn("ask cloud about foo's storage", "ask Clyde about cloud's storage");
    assert!(learned.is_empty(), "unexpected learned rules: {learned:?}");
}

#[test]
fn extractor_learns_an_adjacent_typo_when_its_target_follows() {
    let learned = learn("klohd Clyde", "Clyde Clyde");
    assert_eq!(learned_pairs(&learned), vec![pair("klohd", "Clyde")]);
}

#[test]
fn extractor_rejects_a_rule_that_would_cascade_from_a_preceding_target() {
    let preceding = vec![repl("foo", "bar-baz")];
    assert!(learn_after("use bar today", "use qux today", &preceding).is_empty());

    let contextual_preceding = vec![repl("foo", "bar")];
    assert!(learn_after("use bar-baz today", "use qux-quux today", &contextual_preceding).is_empty());

    assert!(learn_after("use bar-baz today", "use qux-baz today", &[repl("foo-bar", "x-bar")]).is_empty());
    assert!(learn_after("use y-bar today", "use y-qux today", &[repl("foo", "bar-x")]).is_empty());

    assert!(learn_after("fix sonet today", "fix sonnet today", &[repl("x-sonet", "x-poem")]).is_empty());

    let mut case_sensitive_preemption = repl("SONET", "poem");
    case_sensitive_preemption.case_sensitive = true;
    assert!(learn_after("fix sonet today", "fix sonnet today", &[case_sensitive_preemption]).is_empty());

    let mut shorter_case_sensitive_preemption = repl("SONET", "poem");
    shorter_case_sensitive_preemption.case_sensitive = true;
    assert!(learn_after("fix sonet-api today", "fix sonnet-api today", &[shorter_case_sensitive_preemption])
        .is_empty());

    assert!(learn_after("fix bar-baz today", "fix bar-bazz today", &[repl("foo-bar", "foo-qux")]).is_empty());

    let mut substring_deletion = repl("-", "");
    substring_deletion.whole_word = false;
    assert!(learn_after("use clawd today", "use Clyde today", &[substring_deletion]).is_empty());

    let whole_word_deletion = repl("foo", "");
    assert!(learn_after("use bar- today", "use baz- today", &[whole_word_deletion]).is_empty());

    let mut boundary_changer = repl("_", "-");
    boundary_changer.whole_word = false;
    assert!(learn_after("use clawd today", "use Clyde today", &[boundary_changer]).is_empty());

    assert!(learn_after("use .clawd today", "use .Clyde today", &[repl("foo", "bar.")]).is_empty());

    assert!(learn_after("use SSAMPLE today", "use Stample today", &[repl("foo", "\u{df}ample")]).is_empty());

    assert!(learn_after("xample here and sample", "\u{df}ample here and stample", &[]).is_empty());

    assert!(learn_after("xample here and iample", "\u{131}ample here and izample", &[]).is_empty());

    let already_cascading = vec![repl("foo", "bar"), repl("bar", "baz")];
    let unrelated = learn_after("ask clawd today", "ask Clyde today", &already_cascading);
    assert_eq!(learned_pairs(&unrelated), vec![pair("clawd", "Clyde")]);

    let earlier_zorp_rule = vec![repl("zorp", "qux")];
    let later_target = learn_after("use zopr today", "use zorp today", &earlier_zorp_rule);
    assert_eq!(learned_pairs(&later_target), vec![pair("zopr", "zorp")]);
}

#[test]
fn extractor_rejects_an_lcs_table_above_the_cell_budget() {
    let original = std::iter::repeat_n("same", 1_000)
        .chain(std::iter::once("clawd"))
        .collect::<Vec<_>>()
        .join(" ");
    let corrected = std::iter::repeat_n("same", 1_000)
        .chain(std::iter::once("Clyde"))
        .collect::<Vec<_>>()
        .join(" ");
    assert!(learn(&original, &corrected).is_empty());
}

#[test]
fn extractor_rejects_too_many_candidates_for_the_cascade_scan() {
    let original = std::iter::repeat_n("clawd steady", 65).collect::<Vec<_>>().join(" ");
    let corrected = std::iter::repeat_n("Clyde steady", 65).collect::<Vec<_>>().join(" ");
    assert!(learn(&original, &corrected).is_empty());
}

#[test]
fn extractor_rejects_oversized_input_and_tokens() {
    let oversized_source = "a".repeat(257);
    let oversized_target = "b".repeat(257);
    assert!(learn(&oversized_source, &oversized_target).is_empty());

    let padding = "x".repeat(140);
    let original = std::iter::once("clawed".to_string())
        .chain(std::iter::repeat_n(padding.clone(), 499))
        .collect::<Vec<_>>()
        .join(" ");
    let corrected = std::iter::once("Clyde".to_string())
        .chain(std::iter::repeat_n(padding, 499))
        .collect::<Vec<_>>()
        .join(" ");
    assert!(learn(&original, &corrected).is_empty());
}

#[test]
fn extractor_rejects_pairs_that_would_cascade_when_applied() {
    assert!(learn("crowd here and cloud", "cloud here and Clyde").is_empty());
    assert!(learn("use foo and bar", "use bar-baz and qux").is_empty());
    assert!(learn("use aple and aple-pay", "use Apple and ample-pay").is_empty());
}

#[test]
fn extractor_bounds_contextual_cascade_match_work() {
    let preceding = (0..80)
        .map(|index| repl(&format!("q{index}q"), &format!("z{index}z")))
        .collect::<Vec<_>>();
    let from = format!("{}b", "a".repeat(239));
    let to = format!("{}c", "a".repeat(239));
    assert!(learn_after(&from, &to, &preceding).is_empty());
}

#[test]
fn extractor_ignores_unicode_dash_punctuation_edits() {
    assert!(learn("hello there", "\u{2014}hello there").is_empty());
    assert!(learn("hello there", "hello\u{2014} there").is_empty());
}

#[test]
fn extractor_rejects_punctuation_only_edits() {
    assert!(learn("the US market", "the U.S. market").is_empty());
    assert!(learn("tell us tomorrow", "tell U.S. tomorrow").is_empty());
}

#[test]
fn extractor_rejects_inflection_only_edits_for_unknown_terms() {
    assert!(learn("these API work", "these APIs work").is_empty());
    assert!(learn("ask Clyde now", "ask Clydes now").is_empty());
    assert!(learn("we Zorp daily", "we Zorped daily").is_empty());
    assert!(learn("start Zorp now", "start Zorping now").is_empty());
}

#[test]
fn extractor_rejects_inflections_inside_compound_terms() {
    assert!(learn("visit my mother-in-law", "visit my mothers-in-law").is_empty());
    assert!(learn("use Zorp-api", "use Zorps-api").is_empty());
    assert!(learn("open API/client", "open APIs/client").is_empty());
}

#[test]
fn extractor_rejects_homographs_inside_compound_terms() {
    assert!(learn("ask angel-like", "ask Angela-like").is_empty());
    assert!(learn("ask rose-api", "ask Roz-api").is_empty());
}

#[test]
fn extractor_learns_a_target_word_that_naturally_ends_in_s() {
    let out = learn("open io settings", "open iOS settings");
    assert_eq!(learned_pairs(&out), vec![pair("io", "iOS")]);
    assert!(out[0].preserve_replacement_case);
}

#[test]
fn learned_replacement_preserves_intentional_mixed_case() {
    let learned = learn("open io settings", "open iOS settings");
    assert_eq!(apply_replacements("io Io IO", &learned), "iOS iOS iOS");
}

#[test]
fn extractor_learns_a_correction_that_adds_digits() {
    let out = learn("the mp format", "the MP3 format");
    assert_eq!(learned_pairs(&out), vec![pair("mp", "MP3")]);
    assert!(out[0].case_sensitive);
    assert_eq!(apply_replacements("mp MP", &out), "MP3 MP");

    let b2b = learn("a bb vendor", "a B2B vendor");
    assert_eq!(learned_pairs(&b2b), vec![pair("bb", "B2B")]);
    assert!(b2b[0].case_sensitive);
    assert_eq!(apply_replacements("bb BB", &b2b), "B2B BB");
    assert!(learn("say no today", "say NO2 today").is_empty());
    assert!(learn("ask ai today", "ask AI2 today").is_empty());
    assert!(learn("ask uk today", "ask UK2 today").is_empty());
    assert!(learn("buy iphone now", "buy iphone16 now").is_empty());
}

#[test]
fn extractor_keeps_distinct_case_sensitive_digit_rules() {
    let out = learn("Mp and mp", "MP3 and MP3");
    assert_eq!(learned_pairs(&out), vec![pair("Mp", "MP3"), pair("mp", "MP3")]);
    assert!(out.iter().all(|rule| rule.case_sensitive));
    assert_eq!(apply_replacements("Mp mp MP", &out), "MP3 MP3 MP");
}

#[test]
fn extractor_allows_case_distinct_preceding_targets_for_digit_rules() {
    let preceding = vec![repl("foo", "MP")];
    let out = learn_after("use mp today", "use MP3 today", &preceding);
    assert_eq!(learned_pairs(&out), vec![pair("mp", "MP3")]);
    assert!(out[0].case_sensitive);
}

#[test]
fn spelling_pairs_cover_the_whole_pair_and_each_component() {
    assert_eq!(
        spelling_pairs("use stagign-api today", "use staging-api today", &[]),
        vec![pair("stagignapi", "stagingapi"), pair("stagign", "staging"), pair("api", "api")]
    );
    assert!(spelling_pairs("hello world", "hello big world", &[]).is_empty());
}

#[test]
fn a_substitution_is_learnable_only_with_mishear_evidence() {
    let lex = lexicon();
    let close = vec![pair("sonet", "sonnet")];
    assert!(is_learnable_substitution("sonet", "sonnet", &lex, &close));
    // Without the closeness judgement there is no spelling evidence, and no phonetic match
    // between these two spellings would be needed for the refusal.
    assert!(!is_learnable_substitution("figma", "gitlab", &lex, &[]));
    // Two ordinary words are never learnable, whatever the evidence.
    assert!(!is_learnable_substitution("their", "there", &lex, &[pair("their", "there")]));
}
