use audiobud::command::{parse_command, DeleteTarget, EditCommand, Motion};


#[test]
fn parses_bare_and_explicit_moves() {
    assert_eq!(
        parse_command("left"),
        Some(EditCommand::Move(Motion::CharLeft))
    );
    assert_eq!(
        parse_command("move left"),
        Some(EditCommand::Move(Motion::CharLeft))
    );
    assert_eq!(
        parse_command("word right"),
        Some(EditCommand::Move(Motion::WordRight))
    );
    assert_eq!(
        parse_command("end of line"),
        Some(EditCommand::Move(Motion::LineEnd))
    );
    assert_eq!(
        parse_command("go to top"),
        Some(EditCommand::Move(Motion::DocumentStart))
    );
}

#[test]
fn go_to_prefix_resolves_for_every_motion() {
    // The module doc advertises "go to end of line", so the "go to" lead-in
    // must resolve for line motions, not only the document ones it once
    // listed explicitly.
    assert_eq!(
        parse_command("go to end of line"),
        Some(EditCommand::Move(Motion::LineEnd))
    );
    assert_eq!(
        parse_command("go to start of line"),
        Some(EditCommand::Move(Motion::LineStart))
    );
    assert_eq!(
        parse_command("go to bottom"),
        Some(EditCommand::Move(Motion::DocumentEnd))
    );
    // It also composes with the select prefix.
    assert_eq!(
        parse_command("select go to end of line"),
        Some(EditCommand::Select(Motion::LineEnd))
    );
}

#[test]
fn select_reuses_the_motion_vocabulary() {
    assert_eq!(
        parse_command("select left"),
        Some(EditCommand::Select(Motion::CharLeft))
    );
    assert_eq!(
        parse_command("select word right"),
        Some(EditCommand::Select(Motion::WordRight))
    );
    assert_eq!(
        parse_command("select to end of line"),
        Some(EditCommand::Select(Motion::LineEnd))
    );
    // "select" with no motion is not a command on its own.
    assert_eq!(parse_command("select"), None);
    assert_eq!(parse_command("select the whole thing"), None);
}

#[test]
fn parses_delete_targets() {
    assert_eq!(
        parse_command("delete"),
        Some(EditCommand::Delete(DeleteTarget::Selection))
    );
    assert_eq!(
        parse_command("delete that"),
        Some(EditCommand::Delete(DeleteTarget::Selection))
    );
    assert_eq!(
        parse_command("delete word"),
        Some(EditCommand::Delete(DeleteTarget::WordBack))
    );
    assert_eq!(
        parse_command("delete next word"),
        Some(EditCommand::Delete(DeleteTarget::WordForward))
    );
    assert_eq!(
        parse_command("delete line"),
        Some(EditCommand::Delete(DeleteTarget::Line))
    );
}

#[test]
fn parses_insert_and_history_commands() {
    assert_eq!(parse_command("new line"), Some(EditCommand::InsertNewline));
    assert_eq!(parse_command("newline"), Some(EditCommand::InsertNewline));
    assert_eq!(parse_command("indent"), Some(EditCommand::InsertTab));
    assert_eq!(parse_command("undo"), Some(EditCommand::Undo));
    assert_eq!(parse_command("redo that"), Some(EditCommand::Redo));
}

#[test]
fn normalizes_case_whitespace_and_trailing_punctuation() {
    assert_eq!(
        parse_command("Delete that."),
        Some(EditCommand::Delete(DeleteTarget::Selection))
    );
    assert_eq!(
        parse_command("  NEW   line  "),
        Some(EditCommand::InsertNewline)
    );
    assert_eq!(
        parse_command("Word, left"),
        Some(EditCommand::Move(Motion::WordLeft))
    );
}

#[test]
fn rejects_non_commands_and_empty_input() {
    assert_eq!(parse_command(""), None);
    assert_eq!(parse_command("   "), None);
    assert_eq!(parse_command("the quick brown fox"), None);
    assert_eq!(parse_command("please write a paragraph about cats"), None);
}

#[test]
fn rejects_dictation_that_merely_starts_with_a_command_word() {
    // The #7 safety contract is that a command never fires from ordinary
    // dictation. The dangerous class is prose that opens with command
    // vocabulary, which the exact-match grammar must reject. These pin that
    // contract so a later move to fuzzy or prefix matching cannot loosen it
    // with green tests.
    assert_eq!(parse_command("delete the seventh paragraph"), None);
    assert_eq!(parse_command("up in the mountains"), None);
    assert_eq!(parse_command("left of the door"), None);
    assert_eq!(parse_command("select a good time to meet"), None);
    // "move" alone is not a command, same as bare "select".
    assert_eq!(parse_command("move"), None);
}
