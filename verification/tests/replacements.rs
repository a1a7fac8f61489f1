use audiobud::replacements::apply_replacements;
use audiobud::settings::WordReplacement;

fn repl(from: &str, to: &str) -> WordReplacement {
    WordReplacement {
        from: from.to_string(),
        to: to.to_string(),
        whole_word: true,
        case_sensitive: false,
        preserve_replacement_case: false,
    }
}

#[test]
fn test_apply_replacements_basic() {
    let result = apply_replacements("Open clawed.md please", &[repl("clawed", "Clyde")]);
    assert_eq!(result, "Open Clyde.md please");
}

#[test]
fn test_apply_replacements_preserves_case() {
    assert_eq!(
        apply_replacements("CLAWED is here", &[repl("clawed", "Clyde")]),
        "CLYDE is here"
    );
    assert_eq!(
        apply_replacements("Clawed is here", &[repl("clawed", "Clyde")]),
        "Clyde is here"
    );
}

#[test]
fn test_apply_replacements_preserves_caps_multiword() {
    assert_eq!(
        apply_replacements("CLOUD CODE rocks", &[repl("cloud code", "Clyde Code")]),
        "CLYDE CODE rocks"
    );
}

#[test]
fn test_apply_replacements_multi_word() {
    let result = apply_replacements("use cloud code daily", &[repl("cloud code", "Clyde Code")]);
    assert_eq!(result, "use Clyde Code daily");
}

#[test]
fn test_apply_replacements_whole_word_only() {
    let result = apply_replacements("a category of cat", &[repl("cat", "dog")]);
    assert_eq!(result, "a category of dog");
}

#[test]
fn test_apply_replacements_deletion_cleans_spaces() {
    let result = apply_replacements("this is basically fine", &[repl("basically", "")]);
    assert_eq!(result, "this is fine");
}

#[test]
fn test_apply_replacements_case_sensitive() {
    let r = WordReplacement {
        from: "WIP".to_string(),
        to: "work in progress".to_string(),
        whole_word: true,
        case_sensitive: true,
        preserve_replacement_case: false,
    };
    assert_eq!(apply_replacements("WIP and wip", &[r]), "work in progress and wip");
}

#[test]
fn test_apply_replacements_whole_word_trailing_punctuation() {
    let r = WordReplacement {
        from: "C#".to_string(),
        to: "CSharp".to_string(),
        whole_word: true,
        case_sensitive: true,
        preserve_replacement_case: false,
    };
    assert_eq!(apply_replacements("C#12 ships", std::slice::from_ref(&r)), "C#12 ships");
    assert_eq!(apply_replacements("I love C# code", &[r]), "I love CSharp code");
}

#[test]
fn test_apply_replacements_whole_word_leading_punctuation() {
    let r = WordReplacement {
        from: ".env".to_string(),
        to: "dotenv".to_string(),
        whole_word: true,
        case_sensitive: true,
        preserve_replacement_case: false,
    };
    assert_eq!(
        apply_replacements("edit foo.env now", std::slice::from_ref(&r)),
        "edit foo.env now"
    );
    assert_eq!(apply_replacements("edit the .env now", &[r]), "edit the dotenv now");
}

#[test]
fn test_apply_replacements_deletion_before_punctuation() {
    let r = WordReplacement {
        from: "basically".to_string(),
        to: String::new(),
        whole_word: true,
        case_sensitive: false,
        preserve_replacement_case: false,
    };
    assert_eq!(
        apply_replacements("this is basically, fine", std::slice::from_ref(&r)),
        "this is, fine"
    );
    assert_eq!(apply_replacements("stop basically. go", std::slice::from_ref(&r)), "stop. go");
    assert_eq!(apply_replacements("this is basically fine", &[r]), "this is fine");
}

#[test]
fn replacements_run_in_order_and_keep_their_own_casing_when_asked() {
    let mut io = repl("io", "iOS");
    io.preserve_replacement_case = true;
    assert_eq!(apply_replacements("IO and io", &[io]), "iOS and iOS");
    assert_eq!(
        apply_replacements("one two", &[repl("one", "two"), repl("two", "three")]),
        "three three"
    );
    assert_eq!(apply_replacements("keep me", &[repl("", "x")]), "keep me");
    let mut partial = repl("cat", "dog");
    partial.whole_word = false;
    assert_eq!(apply_replacements("category", &[partial]), "dogegory");
}
