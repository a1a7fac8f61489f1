use audiobud::spoken_punctuation::apply_spoken_punctuation;
use audiobud::language::TextPipelineLanguage;

fn en() -> TextPipelineLanguage {
    TextPipelineLanguage::english()
}


#[test]
fn closes_a_question_up_to_the_word_before_it() {
    assert_eq!(
        apply_spoken_punctuation("is this thing on question mark", &en()),
        "is this thing on?"
    );
}

#[test]
fn opens_a_paren_up_to_the_word_after_it() {
    assert_eq!(
        apply_spoken_punctuation("call me open paren later close paren today", &en()),
        "call me (later) today"
    );
}

#[test]
fn handles_each_single_word_command() {
    assert_eq!(
        apply_spoken_punctuation("wait comma then go", &en()),
        "wait, then go"
    );
    assert_eq!(apply_spoken_punctuation("done period", &en()), "done.");
    assert_eq!(apply_spoken_punctuation("stop semicolon go", &en()), "stop; go");
    assert_eq!(apply_spoken_punctuation("note colon this", &en()), "note: this");
    assert_eq!(apply_spoken_punctuation("well hyphen known", &en()), "well-known");
}

#[test]
fn handles_multi_word_commands() {
    assert_eq!(apply_spoken_punctuation("stop full stop", &en()), "stop.");
    assert_eq!(apply_spoken_punctuation("wow exclamation mark", &en()), "wow!");
    assert_eq!(apply_spoken_punctuation("wow exclamation point", &en()), "wow!");
}

#[test]
fn quote_opens_and_unquote_closes() {
    assert_eq!(
        apply_spoken_punctuation("she said quote hello unquote loudly", &en()),
        "she said \"hello\" loudly"
    );
}

// "close quote" must not be read as the "quote" that opens one. The two phrases start on
// different words so the longest-match rule is not what saves it, but the outcome is the
// one that matters and it is worth pinning either way.
#[test]
fn a_closing_quote_is_not_read_as_an_opening_one() {
    assert_eq!(
        apply_spoken_punctuation("open quote hi close quote there", &en()),
        "\"hi\" there"
    );
}

// A left-attached symbol has to leave a space behind it, or the next word runs into it.
// Every other test here ends on its command, where that is invisible.
#[test]
fn a_left_attached_symbol_keeps_the_space_after_it() {
    assert_eq!(
        apply_spoken_punctuation("is it on question mark yes it is", &en()),
        "is it on? yes it is"
    );
    assert_eq!(
        apply_spoken_punctuation("stop full stop then go", &en()),
        "stop. then go"
    );
}

#[test]
fn new_line_and_new_paragraph_break_the_text() {
    assert_eq!(apply_spoken_punctuation("one new line two", &en()), "one\ntwo");
    assert_eq!(
        apply_spoken_punctuation("one new paragraph two", &en()),
        "one\n\ntwo"
    );
}

// The engine punctuates its own output, so the command word often arrives with a comma
// or period stuck to it. It is still the command.
#[test]
fn matches_a_command_the_engine_already_punctuated() {
    assert_eq!(
        apply_spoken_punctuation("is it on question mark.", &en()),
        "is it on?"
    );
}

#[test]
fn is_case_insensitive() {
    assert_eq!(apply_spoken_punctuation("Really Question Mark", &en()), "Really?");
}

// Text with no commands must come back as it went in. Raw mode's promise is that it does
// not touch what you said, so a pass that reflowed ordinary prose would break it.
#[test]
fn leaves_text_without_commands_alone() {
    let plain = "the quick brown fox jumps over the lazy dog";
    assert_eq!(apply_spoken_punctuation(plain, &en()), plain);
}

#[test]
fn handles_empty_and_whitespace_only_input() {
    assert_eq!(apply_spoken_punctuation("", &en()), "");
    assert_eq!(apply_spoken_punctuation("   ", &en()), "");
}

// A command with nothing before it must not emit a leading space.
#[test]
fn does_not_open_the_output_with_a_space() {
    assert_eq!(apply_spoken_punctuation("open paren hi", &en()), "(hi");
    assert_eq!(apply_spoken_punctuation("comma hi", &en()), ", hi");
}

// Back-to-back commands are how a real sentence ends: "...done period new paragraph".
#[test]
fn handles_consecutive_commands() {
    assert_eq!(
        apply_spoken_punctuation("done period new paragraph next", &en()),
        "done.\n\nnext"
    );
}
