//! Voice-command grammar: a spoken phrase in, a structured [`EditCommand`] out. Exact-match
//! vocabulary tables, so prose that merely starts with a command word is never a command.
use vstd::prelude::*;
use crate::cli::starts_with;
use crate::spoken_punctuation::{trim_non_alnum, trim_non_alphanumeric};
use crate::unicode::{
    chars_of, eq_lit, join_space, join_words, lower_chars, split_whitespace, split_ws, str_lower,
    views,
};

verus! {

/// A cursor or edit action parsed from a spoken command phrase.
#[derive(Debug, Clone, PartialEq, Eq, Structural)]
pub enum EditCommand {
    /// Move the cursor.
    Move(Motion),
    /// Extend the selection in a direction.
    Select(Motion),
    /// Delete text.
    Delete(DeleteTarget),
    /// Insert a line break.
    InsertNewline,
    /// Insert a tab / indent.
    InsertTab,
    /// Undo the last edit.
    Undo,
    /// Redo the last undone edit.
    Redo,
}

/// A cursor motion, shared by moves and selections.
#[derive(Debug, Clone, Copy, PartialEq, Eq, Structural)]
pub enum Motion {
    CharLeft,
    CharRight,
    WordLeft,
    WordRight,
    LineUp,
    LineDown,
    LineStart,
    LineEnd,
    DocumentStart,
    DocumentEnd,
}

/// What a delete command removes.
#[derive(Debug, Clone, Copy, PartialEq, Eq, Structural)]
pub enum DeleteTarget {
    /// The word before the cursor.
    WordBack,
    /// The word after the cursor.
    WordForward,
    /// The current line.
    Line,
    /// The active selection.
    Selection,
}

/// The trimmed cores of the words, empty ones dropped.
pub open spec fn trimmed_words(ws: Seq<Seq<char>>) -> Seq<Seq<char>>
    decreases ws.len(),
{
    if ws.len() == 0 {
        seq![]
    } else {
        let rest = trimmed_words(ws.drop_last());
        let t = trim_non_alnum(ws.last());
        if t.len() > 0 { rest.push(t) } else { rest }
    }
}

/// A phrase lowercased, single-spaced, and without punctuation at the edges of its words.
pub open spec fn normalized(phrase: Seq<char>) -> Seq<char> {
    join_space(trimmed_words(split_ws(str_lower(phrase))))
}

fn normalize(phrase: &str) -> (r: Vec<char>)
    ensures
        r@ == normalized(phrase@),
{
    let lower = lower_chars(&chars_of(phrase));
    let words = split_whitespace(&lower);
    let ghost ws = views(words@);
    let mut kept: Vec<Vec<char>> = Vec::new();
    let mut k: usize = 0;
    while k < words.len()
        invariant
            k <= words@.len(),
            ws == views(words@),
            views(kept@) == trimmed_words(ws.take(k as int)),
        decreases words@.len() - k,
    {
        assert(ws.take(k + 1).drop_last() =~= ws.take(k as int));
        let t = trim_non_alphanumeric(&words[k]);
        if t.len() > 0 {
            let ghost before = views(kept@);
            kept.push(t);
            assert(views(kept@) =~= before.push(trim_non_alnum(ws[k as int])));
        }
        k += 1;
    }
    assert(ws.take(words@.len() as int) =~= ws);
    join_words(&kept)
}

/// The motion a phrase names, after an optional "go to " lead-in.
pub open spec fn motion_of(phrase: Seq<char>) -> Option<Motion> {
    let p = if starts_with(phrase, "go to "@) { phrase.skip("go to "@.len() as int) } else { phrase };
    if p == "left"@ || p == "char left"@ || p == "character left"@ {
        Some(Motion::CharLeft)
    } else if p == "right"@ || p == "char right"@ || p == "character right"@ {
        Some(Motion::CharRight)
    } else if p == "word left"@ || p == "left word"@ || p == "previous word"@ || p == "back word"@ {
        Some(Motion::WordLeft)
    } else if p == "word right"@ || p == "right word"@ || p == "next word"@ || p == "forward word"@ {
        Some(Motion::WordRight)
    } else if p == "up"@ || p == "line up"@ || p == "up line"@ {
        Some(Motion::LineUp)
    } else if p == "down"@ || p == "line down"@ || p == "down line"@ {
        Some(Motion::LineDown)
    } else if p == "home"@ || p == "line start"@ || p == "start of line"@ || p == "beginning of line"@
        || p == "to start of line"@ {
        Some(Motion::LineStart)
    } else if p == "end"@ || p == "line end"@ || p == "end of line"@ || p == "to end of line"@ {
        Some(Motion::LineEnd)
    } else if p == "document start"@ || p == "start of document"@ || p == "top of document"@
        || p == "top"@ {
        Some(Motion::DocumentStart)
    } else if p == "document end"@ || p == "end of document"@ || p == "bottom of document"@
        || p == "bottom"@ {
        Some(Motion::DocumentEnd)
    } else {
        None
    }
}

fn skip_chars(s: &[char], n: usize) -> (r: Vec<char>)
    requires
        n <= s@.len(),
    ensures
        r@ == s@.skip(n as int),
{
    let mut r = Vec::new();
    let mut k = n;
    while k < s.len()
        invariant
            n <= k <= s@.len(),
            r@ == s@.subrange(n as int, k as int),
        decreases s@.len() - k,
    {
        r.push(s[k]);
        k += 1;
        assert(s@.subrange(n as int, k as int) =~= s@.subrange(n as int, k - 1).push(s@[k - 1]));
    }
    assert(r@ =~= s@.skip(n as int));
    r
}

/// `strip_prefix`: the rest of `s` after `p`, when `s` starts with `p`.
fn strip_prefix(s: &[char], p: &str) -> (r: Option<Vec<char>>)
    ensures
        r is Some <==> starts_with(s@, p@),
        r matches Some(v) ==> v@ == s@.skip(p@.len() as int),
{
    let pc = chars_of(p);
    if pc.len() > s.len() {
        return None;
    }
    let mut k: usize = 0;
    while k < pc.len()
        invariant
            k <= pc@.len() <= s@.len(),
            pc@ == p@,
            forall|j: int| 0 <= j < k ==> s@[j] == pc@[j],
        decreases pc@.len() - k,
    {
        if s[k] != pc[k] {
            assert(s@.take(pc@.len() as int)[k as int] != pc@[k as int]);
            return None;
        }
        k += 1;
    }
    assert(s@.take(pc@.len() as int) =~= pc@);
    Some(skip_chars(s, pc.len()))
}

fn parse_motion(phrase: &[char]) -> (r: Option<Motion>)
    ensures
        r == motion_of(phrase@),
{
    let stripped = strip_prefix(phrase, "go to ");
    let p = match stripped {
        Some(rest) => rest,
        None => crate::unicode::copy_chars(phrase),
    };
    if eq_lit(&p, "left") || eq_lit(&p, "char left") || eq_lit(&p, "character left") {
        Some(Motion::CharLeft)
    } else if eq_lit(&p, "right") || eq_lit(&p, "char right") || eq_lit(&p, "character right") {
        Some(Motion::CharRight)
    } else if eq_lit(&p, "word left") || eq_lit(&p, "left word") || eq_lit(&p, "previous word")
        || eq_lit(&p, "back word") {
        Some(Motion::WordLeft)
    } else if eq_lit(&p, "word right") || eq_lit(&p, "right word") || eq_lit(&p, "next word")
        || eq_lit(&p, "forward word") {
        Some(Motion::WordRight)
    } else if eq_lit(&p, "up") || eq_lit(&p, "line up") || eq_lit(&p, "up line") {
        Some(Motion::LineUp)
    } else if eq_lit(&p, "down") || eq_lit(&p, "line down") || eq_lit(&p, "down line") {
        Some(Motion::LineDown)
    } else if eq_lit(&p, "home") || eq_lit(&p, "line start") || eq_lit(&p, "start of line")
        || eq_lit(&p, "beginning of line") || eq_lit(&p, "to start of line") {
        Some(Motion::LineStart)
    } else if eq_lit(&p, "end") || eq_lit(&p, "line end") || eq_lit(&p, "end of line") || eq_lit(
        &p,
        "to end of line",
    ) {
        Some(Motion::LineEnd)
    } else if eq_lit(&p, "document start") || eq_lit(&p, "start of document") || eq_lit(
        &p,
        "top of document",
    ) || eq_lit(&p, "top") {
        Some(Motion::DocumentStart)
    } else if eq_lit(&p, "document end") || eq_lit(&p, "end of document") || eq_lit(
        &p,
        "bottom of document",
    ) || eq_lit(&p, "bottom") {
        Some(Motion::DocumentEnd)
    } else {
        None
    }
}

/// The delete command a phrase names; bare "delete" removes the selection.
pub open spec fn delete_of(p: Seq<char>) -> Option<EditCommand> {
    if p == "delete"@ || p == "delete that"@ || p == "delete this"@ || p == "delete selection"@ {
        Some(EditCommand::Delete(DeleteTarget::Selection))
    } else if p == "delete word"@ || p == "delete previous word"@ || p == "delete last word"@
        || p == "delete word back"@ || p == "backspace word"@ {
        Some(EditCommand::Delete(DeleteTarget::WordBack))
    } else if p == "delete next word"@ || p == "delete word forward"@ || p == "delete forward word"@ {
        Some(EditCommand::Delete(DeleteTarget::WordForward))
    } else if p == "delete line"@ || p == "delete this line"@ || p == "delete the line"@ {
        Some(EditCommand::Delete(DeleteTarget::Line))
    } else {
        None
    }
}

fn parse_delete(p: &[char]) -> (r: Option<EditCommand>)
    ensures
        r == delete_of(p@),
{
    if eq_lit(p, "delete") || eq_lit(p, "delete that") || eq_lit(p, "delete this") || eq_lit(
        p,
        "delete selection",
    ) {
        Some(EditCommand::Delete(DeleteTarget::Selection))
    } else if eq_lit(p, "delete word") || eq_lit(p, "delete previous word") || eq_lit(
        p,
        "delete last word",
    ) || eq_lit(p, "delete word back") || eq_lit(p, "backspace word") {
        Some(EditCommand::Delete(DeleteTarget::WordBack))
    } else if eq_lit(p, "delete next word") || eq_lit(p, "delete word forward") || eq_lit(
        p,
        "delete forward word",
    ) {
        Some(EditCommand::Delete(DeleteTarget::WordForward))
    } else if eq_lit(p, "delete line") || eq_lit(p, "delete this line") || eq_lit(
        p,
        "delete the line",
    ) {
        Some(EditCommand::Delete(DeleteTarget::Line))
    } else {
        None
    }
}

/// The command a normalized phrase names.
pub open spec fn command_of_normalized(n: Seq<char>) -> Option<EditCommand> {
    if n.len() == 0 {
        None
    } else if starts_with(n, "select "@) {
        match motion_of(n.skip("select "@.len() as int)) {
            Some(m) => Some(EditCommand::Select(m)),
            None => None,
        }
    } else if delete_of(n) is Some {
        delete_of(n)
    } else if n == "new line"@ || n == "newline"@ || n == "insert line"@ || n == "line break"@ {
        Some(EditCommand::InsertNewline)
    } else if n == "tab"@ || n == "insert tab"@ || n == "indent"@ {
        Some(EditCommand::InsertTab)
    } else if n == "undo"@ || n == "undo that"@ {
        Some(EditCommand::Undo)
    } else if n == "redo"@ || n == "redo that"@ {
        Some(EditCommand::Redo)
    } else {
        let m = if starts_with(n, "move "@) { n.skip("move "@.len() as int) } else { n };
        match motion_of(m) {
            Some(mo) => Some(EditCommand::Move(mo)),
            None => None,
        }
    }
}

/// Parses a spoken phrase into an [`EditCommand`], or `None` when it is not a known command.
pub fn parse_command(phrase: &str) -> (r: Option<EditCommand>)
    ensures
        r == command_of_normalized(normalized(phrase@)),
{
    let normalized = normalize(phrase);
    if normalized.len() == 0 {
        return None;
    }
    match strip_prefix(&normalized, "select ") {
        Some(rest) => {
            return match parse_motion(&rest) {
                Some(m) => Some(EditCommand::Select(m)),
                None => None,
            };
        },
        None => {},
    }
    let delete = parse_delete(&normalized);
    if delete.is_some() {
        return delete;
    }
    let n = &normalized;
    if eq_lit(n, "new line") || eq_lit(n, "newline") || eq_lit(n, "insert line") || eq_lit(n, "line break") {
        return Some(EditCommand::InsertNewline);
    }
    if eq_lit(n, "tab") || eq_lit(n, "insert tab") || eq_lit(n, "indent") {
        return Some(EditCommand::InsertTab);
    }
    if eq_lit(n, "undo") || eq_lit(n, "undo that") {
        return Some(EditCommand::Undo);
    }
    if eq_lit(n, "redo") || eq_lit(n, "redo that") {
        return Some(EditCommand::Redo);
    }
    let motion_phrase = match strip_prefix(&normalized, "move ") {
        Some(rest) => rest,
        None => crate::unicode::copy_chars(&normalized),
    };
    match parse_motion(&motion_phrase) {
        Some(m) => Some(EditCommand::Move(m)),
        None => None,
    }
}

} // verus!

verus! {

// ---------------------------------------------------------------------------
// Which way a word command goes.
// ---------------------------------------------------------------------------

/// Whether `w` occurs in `n`.
pub open spec fn mentions(n: Seq<char>, w: Seq<char>) -> bool {
    exists|i: int| 0 <= i && i + w.len() <= n.len() && #[trigger] n.subrange(i, i + w.len()) == w
}

/// A command that acts on the word before the cursor: deleting it, or moving or selecting
/// one word to the left.
pub open spec fn goes_back_a_word(c: Option<EditCommand>) -> bool {
    c == Some(EditCommand::Delete(DeleteTarget::WordBack)) || c == Some(EditCommand::Move(Motion::WordLeft))
        || c == Some(EditCommand::Select(Motion::WordLeft))
}

/// A command that acts on the word after the cursor: deleting it, or moving or selecting
/// one word to the right.
pub open spec fn goes_forward_a_word(c: Option<EditCommand>) -> bool {
    c == Some(EditCommand::Delete(DeleteTarget::WordForward)) || c == Some(EditCommand::Move(Motion::WordRight))
        || c == Some(EditCommand::Select(Motion::WordRight))
}

/// The phrases of a word motion, with or without "go to ".
proof fn lemma_word_motion_phrases(p: Seq<char>, mo: Motion)
    requires
        motion_of(p) == Some(mo),
    ensures
        mo == Motion::WordLeft ==> (p == "word left"@ || p == "go to "@ + "word left"@ || p == "left word"@ || p == "go to "@ + "left word"@ || p == "previous word"@ || p == "go to "@ + "previous word"@ || p == "back word"@ || p == "go to "@ + "back word"@),
        mo == Motion::WordRight ==> (p == "word right"@ || p == "go to "@ + "word right"@ || p == "right word"@ || p == "go to "@ + "right word"@ || p == "next word"@ || p == "go to "@ + "next word"@ || p == "forward word"@ || p == "go to "@ + "forward word"@),
{
    reveal_strlit("go to ");
    if starts_with(p, "go to "@) {
        assert(p =~= "go to "@ + p.skip(6));
    }
}

proof fn lemma_nm_delete_word()
    ensures
        !mentions("delete word"@, "forward"@),
        !mentions("delete word"@, "next"@),
        !mentions("delete word"@, "right"@),
{
    reveal_strlit("delete word");
    reveal_strlit("forward");
    reveal_strlit("next");
    reveal_strlit("right");
    assert forall|i: int| 0 <= i && i + 7 <= "delete word"@.len() implies #[trigger] "delete word"@.subrange(i, i + 7) != "forward"@ by {
        if i == 0 { assert("delete word"@.subrange(i, i + 7)[0] == "delete word"@[0]); assert("delete word"@[0] != "forward"@[0]); }
        if i == 1 { assert("delete word"@.subrange(i, i + 7)[0] == "delete word"@[1]); assert("delete word"@[1] != "forward"@[0]); }
        if i == 2 { assert("delete word"@.subrange(i, i + 7)[0] == "delete word"@[2]); assert("delete word"@[2] != "forward"@[0]); }
        if i == 3 { assert("delete word"@.subrange(i, i + 7)[0] == "delete word"@[3]); assert("delete word"@[3] != "forward"@[0]); }
        if i == 4 { assert("delete word"@.subrange(i, i + 7)[0] == "delete word"@[4]); assert("delete word"@[4] != "forward"@[0]); }
    }
    assert forall|i: int| 0 <= i && i + 4 <= "delete word"@.len() implies #[trigger] "delete word"@.subrange(i, i + 4) != "next"@ by {
        if i == 0 { assert("delete word"@.subrange(i, i + 4)[0] == "delete word"@[0]); assert("delete word"@[0] != "next"@[0]); }
        if i == 1 { assert("delete word"@.subrange(i, i + 4)[0] == "delete word"@[1]); assert("delete word"@[1] != "next"@[0]); }
        if i == 2 { assert("delete word"@.subrange(i, i + 4)[0] == "delete word"@[2]); assert("delete word"@[2] != "next"@[0]); }
        if i == 3 { assert("delete word"@.subrange(i, i + 4)[0] == "delete word"@[3]); assert("delete word"@[3] != "next"@[0]); }
        if i == 4 { assert("delete word"@.subrange(i, i + 4)[0] == "delete word"@[4]); assert("delete word"@[4] != "next"@[0]); }
        if i == 5 { assert("delete word"@.subrange(i, i + 4)[0] == "delete word"@[5]); assert("delete word"@[5] != "next"@[0]); }
        if i == 6 { assert("delete word"@.subrange(i, i + 4)[0] == "delete word"@[6]); assert("delete word"@[6] != "next"@[0]); }
        if i == 7 { assert("delete word"@.subrange(i, i + 4)[0] == "delete word"@[7]); assert("delete word"@[7] != "next"@[0]); }
    }
    assert forall|i: int| 0 <= i && i + 5 <= "delete word"@.len() implies #[trigger] "delete word"@.subrange(i, i + 5) != "right"@ by {
        if i == 0 { assert("delete word"@.subrange(i, i + 5)[0] == "delete word"@[0]); assert("delete word"@[0] != "right"@[0]); }
        if i == 1 { assert("delete word"@.subrange(i, i + 5)[0] == "delete word"@[1]); assert("delete word"@[1] != "right"@[0]); }
        if i == 2 { assert("delete word"@.subrange(i, i + 5)[0] == "delete word"@[2]); assert("delete word"@[2] != "right"@[0]); }
        if i == 3 { assert("delete word"@.subrange(i, i + 5)[0] == "delete word"@[3]); assert("delete word"@[3] != "right"@[0]); }
        if i == 4 { assert("delete word"@.subrange(i, i + 5)[0] == "delete word"@[4]); assert("delete word"@[4] != "right"@[0]); }
        if i == 5 { assert("delete word"@.subrange(i, i + 5)[0] == "delete word"@[5]); assert("delete word"@[5] != "right"@[0]); }
        if i == 6 { assert("delete word"@.subrange(i, i + 5)[0] == "delete word"@[6]); assert("delete word"@[6] != "right"@[0]); }
    }
}

proof fn lemma_nm_delete_previous_word()
    ensures
        !mentions("delete previous word"@, "forward"@),
        !mentions("delete previous word"@, "next"@),
        !mentions("delete previous word"@, "right"@),
{
    reveal_strlit("delete previous word");
    reveal_strlit("forward");
    reveal_strlit("next");
    reveal_strlit("right");
    assert forall|i: int| 0 <= i && i + 7 <= "delete previous word"@.len() implies #[trigger] "delete previous word"@.subrange(i, i + 7) != "forward"@ by {
        if i == 0 { assert("delete previous word"@.subrange(i, i + 7)[0] == "delete previous word"@[0]); assert("delete previous word"@[0] != "forward"@[0]); }
        if i == 1 { assert("delete previous word"@.subrange(i, i + 7)[0] == "delete previous word"@[1]); assert("delete previous word"@[1] != "forward"@[0]); }
        if i == 2 { assert("delete previous word"@.subrange(i, i + 7)[0] == "delete previous word"@[2]); assert("delete previous word"@[2] != "forward"@[0]); }
        if i == 3 { assert("delete previous word"@.subrange(i, i + 7)[0] == "delete previous word"@[3]); assert("delete previous word"@[3] != "forward"@[0]); }
        if i == 4 { assert("delete previous word"@.subrange(i, i + 7)[0] == "delete previous word"@[4]); assert("delete previous word"@[4] != "forward"@[0]); }
        if i == 5 { assert("delete previous word"@.subrange(i, i + 7)[0] == "delete previous word"@[5]); assert("delete previous word"@[5] != "forward"@[0]); }
        if i == 6 { assert("delete previous word"@.subrange(i, i + 7)[0] == "delete previous word"@[6]); assert("delete previous word"@[6] != "forward"@[0]); }
        if i == 7 { assert("delete previous word"@.subrange(i, i + 7)[0] == "delete previous word"@[7]); assert("delete previous word"@[7] != "forward"@[0]); }
        if i == 8 { assert("delete previous word"@.subrange(i, i + 7)[0] == "delete previous word"@[8]); assert("delete previous word"@[8] != "forward"@[0]); }
        if i == 9 { assert("delete previous word"@.subrange(i, i + 7)[0] == "delete previous word"@[9]); assert("delete previous word"@[9] != "forward"@[0]); }
        if i == 10 { assert("delete previous word"@.subrange(i, i + 7)[0] == "delete previous word"@[10]); assert("delete previous word"@[10] != "forward"@[0]); }
        if i == 11 { assert("delete previous word"@.subrange(i, i + 7)[0] == "delete previous word"@[11]); assert("delete previous word"@[11] != "forward"@[0]); }
        if i == 12 { assert("delete previous word"@.subrange(i, i + 7)[0] == "delete previous word"@[12]); assert("delete previous word"@[12] != "forward"@[0]); }
        if i == 13 { assert("delete previous word"@.subrange(i, i + 7)[0] == "delete previous word"@[13]); assert("delete previous word"@[13] != "forward"@[0]); }
    }
    assert forall|i: int| 0 <= i && i + 4 <= "delete previous word"@.len() implies #[trigger] "delete previous word"@.subrange(i, i + 4) != "next"@ by {
        if i == 0 { assert("delete previous word"@.subrange(i, i + 4)[0] == "delete previous word"@[0]); assert("delete previous word"@[0] != "next"@[0]); }
        if i == 1 { assert("delete previous word"@.subrange(i, i + 4)[0] == "delete previous word"@[1]); assert("delete previous word"@[1] != "next"@[0]); }
        if i == 2 { assert("delete previous word"@.subrange(i, i + 4)[0] == "delete previous word"@[2]); assert("delete previous word"@[2] != "next"@[0]); }
        if i == 3 { assert("delete previous word"@.subrange(i, i + 4)[0] == "delete previous word"@[3]); assert("delete previous word"@[3] != "next"@[0]); }
        if i == 4 { assert("delete previous word"@.subrange(i, i + 4)[0] == "delete previous word"@[4]); assert("delete previous word"@[4] != "next"@[0]); }
        if i == 5 { assert("delete previous word"@.subrange(i, i + 4)[0] == "delete previous word"@[5]); assert("delete previous word"@[5] != "next"@[0]); }
        if i == 6 { assert("delete previous word"@.subrange(i, i + 4)[0] == "delete previous word"@[6]); assert("delete previous word"@[6] != "next"@[0]); }
        if i == 7 { assert("delete previous word"@.subrange(i, i + 4)[0] == "delete previous word"@[7]); assert("delete previous word"@[7] != "next"@[0]); }
        if i == 8 { assert("delete previous word"@.subrange(i, i + 4)[0] == "delete previous word"@[8]); assert("delete previous word"@[8] != "next"@[0]); }
        if i == 9 { assert("delete previous word"@.subrange(i, i + 4)[0] == "delete previous word"@[9]); assert("delete previous word"@[9] != "next"@[0]); }
        if i == 10 { assert("delete previous word"@.subrange(i, i + 4)[0] == "delete previous word"@[10]); assert("delete previous word"@[10] != "next"@[0]); }
        if i == 11 { assert("delete previous word"@.subrange(i, i + 4)[0] == "delete previous word"@[11]); assert("delete previous word"@[11] != "next"@[0]); }
        if i == 12 { assert("delete previous word"@.subrange(i, i + 4)[0] == "delete previous word"@[12]); assert("delete previous word"@[12] != "next"@[0]); }
        if i == 13 { assert("delete previous word"@.subrange(i, i + 4)[0] == "delete previous word"@[13]); assert("delete previous word"@[13] != "next"@[0]); }
        if i == 14 { assert("delete previous word"@.subrange(i, i + 4)[0] == "delete previous word"@[14]); assert("delete previous word"@[14] != "next"@[0]); }
        if i == 15 { assert("delete previous word"@.subrange(i, i + 4)[0] == "delete previous word"@[15]); assert("delete previous word"@[15] != "next"@[0]); }
        if i == 16 { assert("delete previous word"@.subrange(i, i + 4)[0] == "delete previous word"@[16]); assert("delete previous word"@[16] != "next"@[0]); }
    }
    assert forall|i: int| 0 <= i && i + 5 <= "delete previous word"@.len() implies #[trigger] "delete previous word"@.subrange(i, i + 5) != "right"@ by {
        if i == 0 { assert("delete previous word"@.subrange(i, i + 5)[0] == "delete previous word"@[0]); assert("delete previous word"@[0] != "right"@[0]); }
        if i == 1 { assert("delete previous word"@.subrange(i, i + 5)[0] == "delete previous word"@[1]); assert("delete previous word"@[1] != "right"@[0]); }
        if i == 2 { assert("delete previous word"@.subrange(i, i + 5)[0] == "delete previous word"@[2]); assert("delete previous word"@[2] != "right"@[0]); }
        if i == 3 { assert("delete previous word"@.subrange(i, i + 5)[0] == "delete previous word"@[3]); assert("delete previous word"@[3] != "right"@[0]); }
        if i == 4 { assert("delete previous word"@.subrange(i, i + 5)[0] == "delete previous word"@[4]); assert("delete previous word"@[4] != "right"@[0]); }
        if i == 5 { assert("delete previous word"@.subrange(i, i + 5)[0] == "delete previous word"@[5]); assert("delete previous word"@[5] != "right"@[0]); }
        if i == 6 { assert("delete previous word"@.subrange(i, i + 5)[0] == "delete previous word"@[6]); assert("delete previous word"@[6] != "right"@[0]); }
        if i == 7 { assert("delete previous word"@.subrange(i, i + 5)[0] == "delete previous word"@[7]); assert("delete previous word"@[7] != "right"@[0]); }
        if i == 8 { assert("delete previous word"@.subrange(i, i + 5)[1] == "delete previous word"@[9]); assert("delete previous word"@[9] != "right"@[1]); }
        if i == 9 { assert("delete previous word"@.subrange(i, i + 5)[0] == "delete previous word"@[9]); assert("delete previous word"@[9] != "right"@[0]); }
        if i == 10 { assert("delete previous word"@.subrange(i, i + 5)[0] == "delete previous word"@[10]); assert("delete previous word"@[10] != "right"@[0]); }
        if i == 11 { assert("delete previous word"@.subrange(i, i + 5)[0] == "delete previous word"@[11]); assert("delete previous word"@[11] != "right"@[0]); }
        if i == 12 { assert("delete previous word"@.subrange(i, i + 5)[0] == "delete previous word"@[12]); assert("delete previous word"@[12] != "right"@[0]); }
        if i == 13 { assert("delete previous word"@.subrange(i, i + 5)[0] == "delete previous word"@[13]); assert("delete previous word"@[13] != "right"@[0]); }
        if i == 14 { assert("delete previous word"@.subrange(i, i + 5)[0] == "delete previous word"@[14]); assert("delete previous word"@[14] != "right"@[0]); }
        if i == 15 { assert("delete previous word"@.subrange(i, i + 5)[0] == "delete previous word"@[15]); assert("delete previous word"@[15] != "right"@[0]); }
    }
}

proof fn lemma_nm_delete_last_word()
    ensures
        !mentions("delete last word"@, "forward"@),
        !mentions("delete last word"@, "next"@),
        !mentions("delete last word"@, "right"@),
{
    reveal_strlit("delete last word");
    reveal_strlit("forward");
    reveal_strlit("next");
    reveal_strlit("right");
    assert forall|i: int| 0 <= i && i + 7 <= "delete last word"@.len() implies #[trigger] "delete last word"@.subrange(i, i + 7) != "forward"@ by {
        if i == 0 { assert("delete last word"@.subrange(i, i + 7)[0] == "delete last word"@[0]); assert("delete last word"@[0] != "forward"@[0]); }
        if i == 1 { assert("delete last word"@.subrange(i, i + 7)[0] == "delete last word"@[1]); assert("delete last word"@[1] != "forward"@[0]); }
        if i == 2 { assert("delete last word"@.subrange(i, i + 7)[0] == "delete last word"@[2]); assert("delete last word"@[2] != "forward"@[0]); }
        if i == 3 { assert("delete last word"@.subrange(i, i + 7)[0] == "delete last word"@[3]); assert("delete last word"@[3] != "forward"@[0]); }
        if i == 4 { assert("delete last word"@.subrange(i, i + 7)[0] == "delete last word"@[4]); assert("delete last word"@[4] != "forward"@[0]); }
        if i == 5 { assert("delete last word"@.subrange(i, i + 7)[0] == "delete last word"@[5]); assert("delete last word"@[5] != "forward"@[0]); }
        if i == 6 { assert("delete last word"@.subrange(i, i + 7)[0] == "delete last word"@[6]); assert("delete last word"@[6] != "forward"@[0]); }
        if i == 7 { assert("delete last word"@.subrange(i, i + 7)[0] == "delete last word"@[7]); assert("delete last word"@[7] != "forward"@[0]); }
        if i == 8 { assert("delete last word"@.subrange(i, i + 7)[0] == "delete last word"@[8]); assert("delete last word"@[8] != "forward"@[0]); }
        if i == 9 { assert("delete last word"@.subrange(i, i + 7)[0] == "delete last word"@[9]); assert("delete last word"@[9] != "forward"@[0]); }
    }
    assert forall|i: int| 0 <= i && i + 4 <= "delete last word"@.len() implies #[trigger] "delete last word"@.subrange(i, i + 4) != "next"@ by {
        if i == 0 { assert("delete last word"@.subrange(i, i + 4)[0] == "delete last word"@[0]); assert("delete last word"@[0] != "next"@[0]); }
        if i == 1 { assert("delete last word"@.subrange(i, i + 4)[0] == "delete last word"@[1]); assert("delete last word"@[1] != "next"@[0]); }
        if i == 2 { assert("delete last word"@.subrange(i, i + 4)[0] == "delete last word"@[2]); assert("delete last word"@[2] != "next"@[0]); }
        if i == 3 { assert("delete last word"@.subrange(i, i + 4)[0] == "delete last word"@[3]); assert("delete last word"@[3] != "next"@[0]); }
        if i == 4 { assert("delete last word"@.subrange(i, i + 4)[0] == "delete last word"@[4]); assert("delete last word"@[4] != "next"@[0]); }
        if i == 5 { assert("delete last word"@.subrange(i, i + 4)[0] == "delete last word"@[5]); assert("delete last word"@[5] != "next"@[0]); }
        if i == 6 { assert("delete last word"@.subrange(i, i + 4)[0] == "delete last word"@[6]); assert("delete last word"@[6] != "next"@[0]); }
        if i == 7 { assert("delete last word"@.subrange(i, i + 4)[0] == "delete last word"@[7]); assert("delete last word"@[7] != "next"@[0]); }
        if i == 8 { assert("delete last word"@.subrange(i, i + 4)[0] == "delete last word"@[8]); assert("delete last word"@[8] != "next"@[0]); }
        if i == 9 { assert("delete last word"@.subrange(i, i + 4)[0] == "delete last word"@[9]); assert("delete last word"@[9] != "next"@[0]); }
        if i == 10 { assert("delete last word"@.subrange(i, i + 4)[0] == "delete last word"@[10]); assert("delete last word"@[10] != "next"@[0]); }
        if i == 11 { assert("delete last word"@.subrange(i, i + 4)[0] == "delete last word"@[11]); assert("delete last word"@[11] != "next"@[0]); }
        if i == 12 { assert("delete last word"@.subrange(i, i + 4)[0] == "delete last word"@[12]); assert("delete last word"@[12] != "next"@[0]); }
    }
    assert forall|i: int| 0 <= i && i + 5 <= "delete last word"@.len() implies #[trigger] "delete last word"@.subrange(i, i + 5) != "right"@ by {
        if i == 0 { assert("delete last word"@.subrange(i, i + 5)[0] == "delete last word"@[0]); assert("delete last word"@[0] != "right"@[0]); }
        if i == 1 { assert("delete last word"@.subrange(i, i + 5)[0] == "delete last word"@[1]); assert("delete last word"@[1] != "right"@[0]); }
        if i == 2 { assert("delete last word"@.subrange(i, i + 5)[0] == "delete last word"@[2]); assert("delete last word"@[2] != "right"@[0]); }
        if i == 3 { assert("delete last word"@.subrange(i, i + 5)[0] == "delete last word"@[3]); assert("delete last word"@[3] != "right"@[0]); }
        if i == 4 { assert("delete last word"@.subrange(i, i + 5)[0] == "delete last word"@[4]); assert("delete last word"@[4] != "right"@[0]); }
        if i == 5 { assert("delete last word"@.subrange(i, i + 5)[0] == "delete last word"@[5]); assert("delete last word"@[5] != "right"@[0]); }
        if i == 6 { assert("delete last word"@.subrange(i, i + 5)[0] == "delete last word"@[6]); assert("delete last word"@[6] != "right"@[0]); }
        if i == 7 { assert("delete last word"@.subrange(i, i + 5)[0] == "delete last word"@[7]); assert("delete last word"@[7] != "right"@[0]); }
        if i == 8 { assert("delete last word"@.subrange(i, i + 5)[0] == "delete last word"@[8]); assert("delete last word"@[8] != "right"@[0]); }
        if i == 9 { assert("delete last word"@.subrange(i, i + 5)[0] == "delete last word"@[9]); assert("delete last word"@[9] != "right"@[0]); }
        if i == 10 { assert("delete last word"@.subrange(i, i + 5)[0] == "delete last word"@[10]); assert("delete last word"@[10] != "right"@[0]); }
        if i == 11 { assert("delete last word"@.subrange(i, i + 5)[0] == "delete last word"@[11]); assert("delete last word"@[11] != "right"@[0]); }
    }
}

proof fn lemma_nm_delete_word_back()
    ensures
        !mentions("delete word back"@, "forward"@),
        !mentions("delete word back"@, "next"@),
        !mentions("delete word back"@, "right"@),
{
    reveal_strlit("delete word back");
    reveal_strlit("forward");
    reveal_strlit("next");
    reveal_strlit("right");
    assert forall|i: int| 0 <= i && i + 7 <= "delete word back"@.len() implies #[trigger] "delete word back"@.subrange(i, i + 7) != "forward"@ by {
        if i == 0 { assert("delete word back"@.subrange(i, i + 7)[0] == "delete word back"@[0]); assert("delete word back"@[0] != "forward"@[0]); }
        if i == 1 { assert("delete word back"@.subrange(i, i + 7)[0] == "delete word back"@[1]); assert("delete word back"@[1] != "forward"@[0]); }
        if i == 2 { assert("delete word back"@.subrange(i, i + 7)[0] == "delete word back"@[2]); assert("delete word back"@[2] != "forward"@[0]); }
        if i == 3 { assert("delete word back"@.subrange(i, i + 7)[0] == "delete word back"@[3]); assert("delete word back"@[3] != "forward"@[0]); }
        if i == 4 { assert("delete word back"@.subrange(i, i + 7)[0] == "delete word back"@[4]); assert("delete word back"@[4] != "forward"@[0]); }
        if i == 5 { assert("delete word back"@.subrange(i, i + 7)[0] == "delete word back"@[5]); assert("delete word back"@[5] != "forward"@[0]); }
        if i == 6 { assert("delete word back"@.subrange(i, i + 7)[0] == "delete word back"@[6]); assert("delete word back"@[6] != "forward"@[0]); }
        if i == 7 { assert("delete word back"@.subrange(i, i + 7)[0] == "delete word back"@[7]); assert("delete word back"@[7] != "forward"@[0]); }
        if i == 8 { assert("delete word back"@.subrange(i, i + 7)[0] == "delete word back"@[8]); assert("delete word back"@[8] != "forward"@[0]); }
        if i == 9 { assert("delete word back"@.subrange(i, i + 7)[0] == "delete word back"@[9]); assert("delete word back"@[9] != "forward"@[0]); }
    }
    assert forall|i: int| 0 <= i && i + 4 <= "delete word back"@.len() implies #[trigger] "delete word back"@.subrange(i, i + 4) != "next"@ by {
        if i == 0 { assert("delete word back"@.subrange(i, i + 4)[0] == "delete word back"@[0]); assert("delete word back"@[0] != "next"@[0]); }
        if i == 1 { assert("delete word back"@.subrange(i, i + 4)[0] == "delete word back"@[1]); assert("delete word back"@[1] != "next"@[0]); }
        if i == 2 { assert("delete word back"@.subrange(i, i + 4)[0] == "delete word back"@[2]); assert("delete word back"@[2] != "next"@[0]); }
        if i == 3 { assert("delete word back"@.subrange(i, i + 4)[0] == "delete word back"@[3]); assert("delete word back"@[3] != "next"@[0]); }
        if i == 4 { assert("delete word back"@.subrange(i, i + 4)[0] == "delete word back"@[4]); assert("delete word back"@[4] != "next"@[0]); }
        if i == 5 { assert("delete word back"@.subrange(i, i + 4)[0] == "delete word back"@[5]); assert("delete word back"@[5] != "next"@[0]); }
        if i == 6 { assert("delete word back"@.subrange(i, i + 4)[0] == "delete word back"@[6]); assert("delete word back"@[6] != "next"@[0]); }
        if i == 7 { assert("delete word back"@.subrange(i, i + 4)[0] == "delete word back"@[7]); assert("delete word back"@[7] != "next"@[0]); }
        if i == 8 { assert("delete word back"@.subrange(i, i + 4)[0] == "delete word back"@[8]); assert("delete word back"@[8] != "next"@[0]); }
        if i == 9 { assert("delete word back"@.subrange(i, i + 4)[0] == "delete word back"@[9]); assert("delete word back"@[9] != "next"@[0]); }
        if i == 10 { assert("delete word back"@.subrange(i, i + 4)[0] == "delete word back"@[10]); assert("delete word back"@[10] != "next"@[0]); }
        if i == 11 { assert("delete word back"@.subrange(i, i + 4)[0] == "delete word back"@[11]); assert("delete word back"@[11] != "next"@[0]); }
        if i == 12 { assert("delete word back"@.subrange(i, i + 4)[0] == "delete word back"@[12]); assert("delete word back"@[12] != "next"@[0]); }
    }
    assert forall|i: int| 0 <= i && i + 5 <= "delete word back"@.len() implies #[trigger] "delete word back"@.subrange(i, i + 5) != "right"@ by {
        if i == 0 { assert("delete word back"@.subrange(i, i + 5)[0] == "delete word back"@[0]); assert("delete word back"@[0] != "right"@[0]); }
        if i == 1 { assert("delete word back"@.subrange(i, i + 5)[0] == "delete word back"@[1]); assert("delete word back"@[1] != "right"@[0]); }
        if i == 2 { assert("delete word back"@.subrange(i, i + 5)[0] == "delete word back"@[2]); assert("delete word back"@[2] != "right"@[0]); }
        if i == 3 { assert("delete word back"@.subrange(i, i + 5)[0] == "delete word back"@[3]); assert("delete word back"@[3] != "right"@[0]); }
        if i == 4 { assert("delete word back"@.subrange(i, i + 5)[0] == "delete word back"@[4]); assert("delete word back"@[4] != "right"@[0]); }
        if i == 5 { assert("delete word back"@.subrange(i, i + 5)[0] == "delete word back"@[5]); assert("delete word back"@[5] != "right"@[0]); }
        if i == 6 { assert("delete word back"@.subrange(i, i + 5)[0] == "delete word back"@[6]); assert("delete word back"@[6] != "right"@[0]); }
        if i == 7 { assert("delete word back"@.subrange(i, i + 5)[0] == "delete word back"@[7]); assert("delete word back"@[7] != "right"@[0]); }
        if i == 8 { assert("delete word back"@.subrange(i, i + 5)[0] == "delete word back"@[8]); assert("delete word back"@[8] != "right"@[0]); }
        if i == 9 { assert("delete word back"@.subrange(i, i + 5)[1] == "delete word back"@[10]); assert("delete word back"@[10] != "right"@[1]); }
        if i == 10 { assert("delete word back"@.subrange(i, i + 5)[0] == "delete word back"@[10]); assert("delete word back"@[10] != "right"@[0]); }
        if i == 11 { assert("delete word back"@.subrange(i, i + 5)[0] == "delete word back"@[11]); assert("delete word back"@[11] != "right"@[0]); }
    }
}

proof fn lemma_nm_backspace_word()
    ensures
        !mentions("backspace word"@, "forward"@),
        !mentions("backspace word"@, "next"@),
        !mentions("backspace word"@, "right"@),
{
    reveal_strlit("backspace word");
    reveal_strlit("forward");
    reveal_strlit("next");
    reveal_strlit("right");
    assert forall|i: int| 0 <= i && i + 7 <= "backspace word"@.len() implies #[trigger] "backspace word"@.subrange(i, i + 7) != "forward"@ by {
        if i == 0 { assert("backspace word"@.subrange(i, i + 7)[0] == "backspace word"@[0]); assert("backspace word"@[0] != "forward"@[0]); }
        if i == 1 { assert("backspace word"@.subrange(i, i + 7)[0] == "backspace word"@[1]); assert("backspace word"@[1] != "forward"@[0]); }
        if i == 2 { assert("backspace word"@.subrange(i, i + 7)[0] == "backspace word"@[2]); assert("backspace word"@[2] != "forward"@[0]); }
        if i == 3 { assert("backspace word"@.subrange(i, i + 7)[0] == "backspace word"@[3]); assert("backspace word"@[3] != "forward"@[0]); }
        if i == 4 { assert("backspace word"@.subrange(i, i + 7)[0] == "backspace word"@[4]); assert("backspace word"@[4] != "forward"@[0]); }
        if i == 5 { assert("backspace word"@.subrange(i, i + 7)[0] == "backspace word"@[5]); assert("backspace word"@[5] != "forward"@[0]); }
        if i == 6 { assert("backspace word"@.subrange(i, i + 7)[0] == "backspace word"@[6]); assert("backspace word"@[6] != "forward"@[0]); }
        if i == 7 { assert("backspace word"@.subrange(i, i + 7)[0] == "backspace word"@[7]); assert("backspace word"@[7] != "forward"@[0]); }
    }
    assert forall|i: int| 0 <= i && i + 4 <= "backspace word"@.len() implies #[trigger] "backspace word"@.subrange(i, i + 4) != "next"@ by {
        if i == 0 { assert("backspace word"@.subrange(i, i + 4)[0] == "backspace word"@[0]); assert("backspace word"@[0] != "next"@[0]); }
        if i == 1 { assert("backspace word"@.subrange(i, i + 4)[0] == "backspace word"@[1]); assert("backspace word"@[1] != "next"@[0]); }
        if i == 2 { assert("backspace word"@.subrange(i, i + 4)[0] == "backspace word"@[2]); assert("backspace word"@[2] != "next"@[0]); }
        if i == 3 { assert("backspace word"@.subrange(i, i + 4)[0] == "backspace word"@[3]); assert("backspace word"@[3] != "next"@[0]); }
        if i == 4 { assert("backspace word"@.subrange(i, i + 4)[0] == "backspace word"@[4]); assert("backspace word"@[4] != "next"@[0]); }
        if i == 5 { assert("backspace word"@.subrange(i, i + 4)[0] == "backspace word"@[5]); assert("backspace word"@[5] != "next"@[0]); }
        if i == 6 { assert("backspace word"@.subrange(i, i + 4)[0] == "backspace word"@[6]); assert("backspace word"@[6] != "next"@[0]); }
        if i == 7 { assert("backspace word"@.subrange(i, i + 4)[0] == "backspace word"@[7]); assert("backspace word"@[7] != "next"@[0]); }
        if i == 8 { assert("backspace word"@.subrange(i, i + 4)[0] == "backspace word"@[8]); assert("backspace word"@[8] != "next"@[0]); }
        if i == 9 { assert("backspace word"@.subrange(i, i + 4)[0] == "backspace word"@[9]); assert("backspace word"@[9] != "next"@[0]); }
        if i == 10 { assert("backspace word"@.subrange(i, i + 4)[0] == "backspace word"@[10]); assert("backspace word"@[10] != "next"@[0]); }
    }
    assert forall|i: int| 0 <= i && i + 5 <= "backspace word"@.len() implies #[trigger] "backspace word"@.subrange(i, i + 5) != "right"@ by {
        if i == 0 { assert("backspace word"@.subrange(i, i + 5)[0] == "backspace word"@[0]); assert("backspace word"@[0] != "right"@[0]); }
        if i == 1 { assert("backspace word"@.subrange(i, i + 5)[0] == "backspace word"@[1]); assert("backspace word"@[1] != "right"@[0]); }
        if i == 2 { assert("backspace word"@.subrange(i, i + 5)[0] == "backspace word"@[2]); assert("backspace word"@[2] != "right"@[0]); }
        if i == 3 { assert("backspace word"@.subrange(i, i + 5)[0] == "backspace word"@[3]); assert("backspace word"@[3] != "right"@[0]); }
        if i == 4 { assert("backspace word"@.subrange(i, i + 5)[0] == "backspace word"@[4]); assert("backspace word"@[4] != "right"@[0]); }
        if i == 5 { assert("backspace word"@.subrange(i, i + 5)[0] == "backspace word"@[5]); assert("backspace word"@[5] != "right"@[0]); }
        if i == 6 { assert("backspace word"@.subrange(i, i + 5)[0] == "backspace word"@[6]); assert("backspace word"@[6] != "right"@[0]); }
        if i == 7 { assert("backspace word"@.subrange(i, i + 5)[0] == "backspace word"@[7]); assert("backspace word"@[7] != "right"@[0]); }
        if i == 8 { assert("backspace word"@.subrange(i, i + 5)[0] == "backspace word"@[8]); assert("backspace word"@[8] != "right"@[0]); }
        if i == 9 { assert("backspace word"@.subrange(i, i + 5)[0] == "backspace word"@[9]); assert("backspace word"@[9] != "right"@[0]); }
    }
}

proof fn lemma_nm_word_left()
    ensures
        !mentions("word left"@, "forward"@),
        !mentions("word left"@, "next"@),
        !mentions("word left"@, "right"@),
{
    reveal_strlit("word left");
    reveal_strlit("forward");
    reveal_strlit("next");
    reveal_strlit("right");
    assert forall|i: int| 0 <= i && i + 7 <= "word left"@.len() implies #[trigger] "word left"@.subrange(i, i + 7) != "forward"@ by {
        if i == 0 { assert("word left"@.subrange(i, i + 7)[0] == "word left"@[0]); assert("word left"@[0] != "forward"@[0]); }
        if i == 1 { assert("word left"@.subrange(i, i + 7)[0] == "word left"@[1]); assert("word left"@[1] != "forward"@[0]); }
        if i == 2 { assert("word left"@.subrange(i, i + 7)[0] == "word left"@[2]); assert("word left"@[2] != "forward"@[0]); }
    }
    assert forall|i: int| 0 <= i && i + 4 <= "word left"@.len() implies #[trigger] "word left"@.subrange(i, i + 4) != "next"@ by {
        if i == 0 { assert("word left"@.subrange(i, i + 4)[0] == "word left"@[0]); assert("word left"@[0] != "next"@[0]); }
        if i == 1 { assert("word left"@.subrange(i, i + 4)[0] == "word left"@[1]); assert("word left"@[1] != "next"@[0]); }
        if i == 2 { assert("word left"@.subrange(i, i + 4)[0] == "word left"@[2]); assert("word left"@[2] != "next"@[0]); }
        if i == 3 { assert("word left"@.subrange(i, i + 4)[0] == "word left"@[3]); assert("word left"@[3] != "next"@[0]); }
        if i == 4 { assert("word left"@.subrange(i, i + 4)[0] == "word left"@[4]); assert("word left"@[4] != "next"@[0]); }
        if i == 5 { assert("word left"@.subrange(i, i + 4)[0] == "word left"@[5]); assert("word left"@[5] != "next"@[0]); }
    }
    assert forall|i: int| 0 <= i && i + 5 <= "word left"@.len() implies #[trigger] "word left"@.subrange(i, i + 5) != "right"@ by {
        if i == 0 { assert("word left"@.subrange(i, i + 5)[0] == "word left"@[0]); assert("word left"@[0] != "right"@[0]); }
        if i == 1 { assert("word left"@.subrange(i, i + 5)[0] == "word left"@[1]); assert("word left"@[1] != "right"@[0]); }
        if i == 2 { assert("word left"@.subrange(i, i + 5)[1] == "word left"@[3]); assert("word left"@[3] != "right"@[1]); }
        if i == 3 { assert("word left"@.subrange(i, i + 5)[0] == "word left"@[3]); assert("word left"@[3] != "right"@[0]); }
        if i == 4 { assert("word left"@.subrange(i, i + 5)[0] == "word left"@[4]); assert("word left"@[4] != "right"@[0]); }
    }
}

proof fn lemma_nm_move_word_left()
    ensures
        !mentions("move word left"@, "forward"@),
        !mentions("move word left"@, "next"@),
        !mentions("move word left"@, "right"@),
{
    reveal_strlit("move word left");
    reveal_strlit("forward");
    reveal_strlit("next");
    reveal_strlit("right");
    assert forall|i: int| 0 <= i && i + 7 <= "move word left"@.len() implies #[trigger] "move word left"@.subrange(i, i + 7) != "forward"@ by {
        if i == 0 { assert("move word left"@.subrange(i, i + 7)[0] == "move word left"@[0]); assert("move word left"@[0] != "forward"@[0]); }
        if i == 1 { assert("move word left"@.subrange(i, i + 7)[0] == "move word left"@[1]); assert("move word left"@[1] != "forward"@[0]); }
        if i == 2 { assert("move word left"@.subrange(i, i + 7)[0] == "move word left"@[2]); assert("move word left"@[2] != "forward"@[0]); }
        if i == 3 { assert("move word left"@.subrange(i, i + 7)[0] == "move word left"@[3]); assert("move word left"@[3] != "forward"@[0]); }
        if i == 4 { assert("move word left"@.subrange(i, i + 7)[0] == "move word left"@[4]); assert("move word left"@[4] != "forward"@[0]); }
        if i == 5 { assert("move word left"@.subrange(i, i + 7)[0] == "move word left"@[5]); assert("move word left"@[5] != "forward"@[0]); }
        if i == 6 { assert("move word left"@.subrange(i, i + 7)[0] == "move word left"@[6]); assert("move word left"@[6] != "forward"@[0]); }
        if i == 7 { assert("move word left"@.subrange(i, i + 7)[0] == "move word left"@[7]); assert("move word left"@[7] != "forward"@[0]); }
    }
    assert forall|i: int| 0 <= i && i + 4 <= "move word left"@.len() implies #[trigger] "move word left"@.subrange(i, i + 4) != "next"@ by {
        if i == 0 { assert("move word left"@.subrange(i, i + 4)[0] == "move word left"@[0]); assert("move word left"@[0] != "next"@[0]); }
        if i == 1 { assert("move word left"@.subrange(i, i + 4)[0] == "move word left"@[1]); assert("move word left"@[1] != "next"@[0]); }
        if i == 2 { assert("move word left"@.subrange(i, i + 4)[0] == "move word left"@[2]); assert("move word left"@[2] != "next"@[0]); }
        if i == 3 { assert("move word left"@.subrange(i, i + 4)[0] == "move word left"@[3]); assert("move word left"@[3] != "next"@[0]); }
        if i == 4 { assert("move word left"@.subrange(i, i + 4)[0] == "move word left"@[4]); assert("move word left"@[4] != "next"@[0]); }
        if i == 5 { assert("move word left"@.subrange(i, i + 4)[0] == "move word left"@[5]); assert("move word left"@[5] != "next"@[0]); }
        if i == 6 { assert("move word left"@.subrange(i, i + 4)[0] == "move word left"@[6]); assert("move word left"@[6] != "next"@[0]); }
        if i == 7 { assert("move word left"@.subrange(i, i + 4)[0] == "move word left"@[7]); assert("move word left"@[7] != "next"@[0]); }
        if i == 8 { assert("move word left"@.subrange(i, i + 4)[0] == "move word left"@[8]); assert("move word left"@[8] != "next"@[0]); }
        if i == 9 { assert("move word left"@.subrange(i, i + 4)[0] == "move word left"@[9]); assert("move word left"@[9] != "next"@[0]); }
        if i == 10 { assert("move word left"@.subrange(i, i + 4)[0] == "move word left"@[10]); assert("move word left"@[10] != "next"@[0]); }
    }
    assert forall|i: int| 0 <= i && i + 5 <= "move word left"@.len() implies #[trigger] "move word left"@.subrange(i, i + 5) != "right"@ by {
        if i == 0 { assert("move word left"@.subrange(i, i + 5)[0] == "move word left"@[0]); assert("move word left"@[0] != "right"@[0]); }
        if i == 1 { assert("move word left"@.subrange(i, i + 5)[0] == "move word left"@[1]); assert("move word left"@[1] != "right"@[0]); }
        if i == 2 { assert("move word left"@.subrange(i, i + 5)[0] == "move word left"@[2]); assert("move word left"@[2] != "right"@[0]); }
        if i == 3 { assert("move word left"@.subrange(i, i + 5)[0] == "move word left"@[3]); assert("move word left"@[3] != "right"@[0]); }
        if i == 4 { assert("move word left"@.subrange(i, i + 5)[0] == "move word left"@[4]); assert("move word left"@[4] != "right"@[0]); }
        if i == 5 { assert("move word left"@.subrange(i, i + 5)[0] == "move word left"@[5]); assert("move word left"@[5] != "right"@[0]); }
        if i == 6 { assert("move word left"@.subrange(i, i + 5)[0] == "move word left"@[6]); assert("move word left"@[6] != "right"@[0]); }
        if i == 7 { assert("move word left"@.subrange(i, i + 5)[1] == "move word left"@[8]); assert("move word left"@[8] != "right"@[1]); }
        if i == 8 { assert("move word left"@.subrange(i, i + 5)[0] == "move word left"@[8]); assert("move word left"@[8] != "right"@[0]); }
        if i == 9 { assert("move word left"@.subrange(i, i + 5)[0] == "move word left"@[9]); assert("move word left"@[9] != "right"@[0]); }
    }
}

proof fn lemma_nm_select_word_left()
    ensures
        !mentions("select word left"@, "forward"@),
        !mentions("select word left"@, "next"@),
        !mentions("select word left"@, "right"@),
{
    reveal_strlit("select word left");
    reveal_strlit("forward");
    reveal_strlit("next");
    reveal_strlit("right");
    assert forall|i: int| 0 <= i && i + 7 <= "select word left"@.len() implies #[trigger] "select word left"@.subrange(i, i + 7) != "forward"@ by {
        if i == 0 { assert("select word left"@.subrange(i, i + 7)[0] == "select word left"@[0]); assert("select word left"@[0] != "forward"@[0]); }
        if i == 1 { assert("select word left"@.subrange(i, i + 7)[0] == "select word left"@[1]); assert("select word left"@[1] != "forward"@[0]); }
        if i == 2 { assert("select word left"@.subrange(i, i + 7)[0] == "select word left"@[2]); assert("select word left"@[2] != "forward"@[0]); }
        if i == 3 { assert("select word left"@.subrange(i, i + 7)[0] == "select word left"@[3]); assert("select word left"@[3] != "forward"@[0]); }
        if i == 4 { assert("select word left"@.subrange(i, i + 7)[0] == "select word left"@[4]); assert("select word left"@[4] != "forward"@[0]); }
        if i == 5 { assert("select word left"@.subrange(i, i + 7)[0] == "select word left"@[5]); assert("select word left"@[5] != "forward"@[0]); }
        if i == 6 { assert("select word left"@.subrange(i, i + 7)[0] == "select word left"@[6]); assert("select word left"@[6] != "forward"@[0]); }
        if i == 7 { assert("select word left"@.subrange(i, i + 7)[0] == "select word left"@[7]); assert("select word left"@[7] != "forward"@[0]); }
        if i == 8 { assert("select word left"@.subrange(i, i + 7)[0] == "select word left"@[8]); assert("select word left"@[8] != "forward"@[0]); }
        if i == 9 { assert("select word left"@.subrange(i, i + 7)[0] == "select word left"@[9]); assert("select word left"@[9] != "forward"@[0]); }
    }
    assert forall|i: int| 0 <= i && i + 4 <= "select word left"@.len() implies #[trigger] "select word left"@.subrange(i, i + 4) != "next"@ by {
        if i == 0 { assert("select word left"@.subrange(i, i + 4)[0] == "select word left"@[0]); assert("select word left"@[0] != "next"@[0]); }
        if i == 1 { assert("select word left"@.subrange(i, i + 4)[0] == "select word left"@[1]); assert("select word left"@[1] != "next"@[0]); }
        if i == 2 { assert("select word left"@.subrange(i, i + 4)[0] == "select word left"@[2]); assert("select word left"@[2] != "next"@[0]); }
        if i == 3 { assert("select word left"@.subrange(i, i + 4)[0] == "select word left"@[3]); assert("select word left"@[3] != "next"@[0]); }
        if i == 4 { assert("select word left"@.subrange(i, i + 4)[0] == "select word left"@[4]); assert("select word left"@[4] != "next"@[0]); }
        if i == 5 { assert("select word left"@.subrange(i, i + 4)[0] == "select word left"@[5]); assert("select word left"@[5] != "next"@[0]); }
        if i == 6 { assert("select word left"@.subrange(i, i + 4)[0] == "select word left"@[6]); assert("select word left"@[6] != "next"@[0]); }
        if i == 7 { assert("select word left"@.subrange(i, i + 4)[0] == "select word left"@[7]); assert("select word left"@[7] != "next"@[0]); }
        if i == 8 { assert("select word left"@.subrange(i, i + 4)[0] == "select word left"@[8]); assert("select word left"@[8] != "next"@[0]); }
        if i == 9 { assert("select word left"@.subrange(i, i + 4)[0] == "select word left"@[9]); assert("select word left"@[9] != "next"@[0]); }
        if i == 10 { assert("select word left"@.subrange(i, i + 4)[0] == "select word left"@[10]); assert("select word left"@[10] != "next"@[0]); }
        if i == 11 { assert("select word left"@.subrange(i, i + 4)[0] == "select word left"@[11]); assert("select word left"@[11] != "next"@[0]); }
        if i == 12 { assert("select word left"@.subrange(i, i + 4)[0] == "select word left"@[12]); assert("select word left"@[12] != "next"@[0]); }
    }
    assert forall|i: int| 0 <= i && i + 5 <= "select word left"@.len() implies #[trigger] "select word left"@.subrange(i, i + 5) != "right"@ by {
        if i == 0 { assert("select word left"@.subrange(i, i + 5)[0] == "select word left"@[0]); assert("select word left"@[0] != "right"@[0]); }
        if i == 1 { assert("select word left"@.subrange(i, i + 5)[0] == "select word left"@[1]); assert("select word left"@[1] != "right"@[0]); }
        if i == 2 { assert("select word left"@.subrange(i, i + 5)[0] == "select word left"@[2]); assert("select word left"@[2] != "right"@[0]); }
        if i == 3 { assert("select word left"@.subrange(i, i + 5)[0] == "select word left"@[3]); assert("select word left"@[3] != "right"@[0]); }
        if i == 4 { assert("select word left"@.subrange(i, i + 5)[0] == "select word left"@[4]); assert("select word left"@[4] != "right"@[0]); }
        if i == 5 { assert("select word left"@.subrange(i, i + 5)[0] == "select word left"@[5]); assert("select word left"@[5] != "right"@[0]); }
        if i == 6 { assert("select word left"@.subrange(i, i + 5)[0] == "select word left"@[6]); assert("select word left"@[6] != "right"@[0]); }
        if i == 7 { assert("select word left"@.subrange(i, i + 5)[0] == "select word left"@[7]); assert("select word left"@[7] != "right"@[0]); }
        if i == 8 { assert("select word left"@.subrange(i, i + 5)[0] == "select word left"@[8]); assert("select word left"@[8] != "right"@[0]); }
        if i == 9 { assert("select word left"@.subrange(i, i + 5)[1] == "select word left"@[10]); assert("select word left"@[10] != "right"@[1]); }
        if i == 10 { assert("select word left"@.subrange(i, i + 5)[0] == "select word left"@[10]); assert("select word left"@[10] != "right"@[0]); }
        if i == 11 { assert("select word left"@.subrange(i, i + 5)[0] == "select word left"@[11]); assert("select word left"@[11] != "right"@[0]); }
    }
}

proof fn lemma_nm_go_to_word_left()
    ensures
        !mentions("go to word left"@, "forward"@),
        !mentions("go to word left"@, "next"@),
        !mentions("go to word left"@, "right"@),
{
    reveal_strlit("go to word left");
    reveal_strlit("forward");
    reveal_strlit("next");
    reveal_strlit("right");
    assert forall|i: int| 0 <= i && i + 7 <= "go to word left"@.len() implies #[trigger] "go to word left"@.subrange(i, i + 7) != "forward"@ by {
        if i == 0 { assert("go to word left"@.subrange(i, i + 7)[0] == "go to word left"@[0]); assert("go to word left"@[0] != "forward"@[0]); }
        if i == 1 { assert("go to word left"@.subrange(i, i + 7)[0] == "go to word left"@[1]); assert("go to word left"@[1] != "forward"@[0]); }
        if i == 2 { assert("go to word left"@.subrange(i, i + 7)[0] == "go to word left"@[2]); assert("go to word left"@[2] != "forward"@[0]); }
        if i == 3 { assert("go to word left"@.subrange(i, i + 7)[0] == "go to word left"@[3]); assert("go to word left"@[3] != "forward"@[0]); }
        if i == 4 { assert("go to word left"@.subrange(i, i + 7)[0] == "go to word left"@[4]); assert("go to word left"@[4] != "forward"@[0]); }
        if i == 5 { assert("go to word left"@.subrange(i, i + 7)[0] == "go to word left"@[5]); assert("go to word left"@[5] != "forward"@[0]); }
        if i == 6 { assert("go to word left"@.subrange(i, i + 7)[0] == "go to word left"@[6]); assert("go to word left"@[6] != "forward"@[0]); }
        if i == 7 { assert("go to word left"@.subrange(i, i + 7)[0] == "go to word left"@[7]); assert("go to word left"@[7] != "forward"@[0]); }
        if i == 8 { assert("go to word left"@.subrange(i, i + 7)[0] == "go to word left"@[8]); assert("go to word left"@[8] != "forward"@[0]); }
    }
    assert forall|i: int| 0 <= i && i + 4 <= "go to word left"@.len() implies #[trigger] "go to word left"@.subrange(i, i + 4) != "next"@ by {
        if i == 0 { assert("go to word left"@.subrange(i, i + 4)[0] == "go to word left"@[0]); assert("go to word left"@[0] != "next"@[0]); }
        if i == 1 { assert("go to word left"@.subrange(i, i + 4)[0] == "go to word left"@[1]); assert("go to word left"@[1] != "next"@[0]); }
        if i == 2 { assert("go to word left"@.subrange(i, i + 4)[0] == "go to word left"@[2]); assert("go to word left"@[2] != "next"@[0]); }
        if i == 3 { assert("go to word left"@.subrange(i, i + 4)[0] == "go to word left"@[3]); assert("go to word left"@[3] != "next"@[0]); }
        if i == 4 { assert("go to word left"@.subrange(i, i + 4)[0] == "go to word left"@[4]); assert("go to word left"@[4] != "next"@[0]); }
        if i == 5 { assert("go to word left"@.subrange(i, i + 4)[0] == "go to word left"@[5]); assert("go to word left"@[5] != "next"@[0]); }
        if i == 6 { assert("go to word left"@.subrange(i, i + 4)[0] == "go to word left"@[6]); assert("go to word left"@[6] != "next"@[0]); }
        if i == 7 { assert("go to word left"@.subrange(i, i + 4)[0] == "go to word left"@[7]); assert("go to word left"@[7] != "next"@[0]); }
        if i == 8 { assert("go to word left"@.subrange(i, i + 4)[0] == "go to word left"@[8]); assert("go to word left"@[8] != "next"@[0]); }
        if i == 9 { assert("go to word left"@.subrange(i, i + 4)[0] == "go to word left"@[9]); assert("go to word left"@[9] != "next"@[0]); }
        if i == 10 { assert("go to word left"@.subrange(i, i + 4)[0] == "go to word left"@[10]); assert("go to word left"@[10] != "next"@[0]); }
        if i == 11 { assert("go to word left"@.subrange(i, i + 4)[0] == "go to word left"@[11]); assert("go to word left"@[11] != "next"@[0]); }
    }
    assert forall|i: int| 0 <= i && i + 5 <= "go to word left"@.len() implies #[trigger] "go to word left"@.subrange(i, i + 5) != "right"@ by {
        if i == 0 { assert("go to word left"@.subrange(i, i + 5)[0] == "go to word left"@[0]); assert("go to word left"@[0] != "right"@[0]); }
        if i == 1 { assert("go to word left"@.subrange(i, i + 5)[0] == "go to word left"@[1]); assert("go to word left"@[1] != "right"@[0]); }
        if i == 2 { assert("go to word left"@.subrange(i, i + 5)[0] == "go to word left"@[2]); assert("go to word left"@[2] != "right"@[0]); }
        if i == 3 { assert("go to word left"@.subrange(i, i + 5)[0] == "go to word left"@[3]); assert("go to word left"@[3] != "right"@[0]); }
        if i == 4 { assert("go to word left"@.subrange(i, i + 5)[0] == "go to word left"@[4]); assert("go to word left"@[4] != "right"@[0]); }
        if i == 5 { assert("go to word left"@.subrange(i, i + 5)[0] == "go to word left"@[5]); assert("go to word left"@[5] != "right"@[0]); }
        if i == 6 { assert("go to word left"@.subrange(i, i + 5)[0] == "go to word left"@[6]); assert("go to word left"@[6] != "right"@[0]); }
        if i == 7 { assert("go to word left"@.subrange(i, i + 5)[0] == "go to word left"@[7]); assert("go to word left"@[7] != "right"@[0]); }
        if i == 8 { assert("go to word left"@.subrange(i, i + 5)[1] == "go to word left"@[9]); assert("go to word left"@[9] != "right"@[1]); }
        if i == 9 { assert("go to word left"@.subrange(i, i + 5)[0] == "go to word left"@[9]); assert("go to word left"@[9] != "right"@[0]); }
        if i == 10 { assert("go to word left"@.subrange(i, i + 5)[0] == "go to word left"@[10]); assert("go to word left"@[10] != "right"@[0]); }
    }
}

proof fn lemma_nm_move_go_to_word_left()
    ensures
        !mentions("move go to word left"@, "forward"@),
        !mentions("move go to word left"@, "next"@),
        !mentions("move go to word left"@, "right"@),
{
    reveal_strlit("move go to word left");
    reveal_strlit("forward");
    reveal_strlit("next");
    reveal_strlit("right");
    assert forall|i: int| 0 <= i && i + 7 <= "move go to word left"@.len() implies #[trigger] "move go to word left"@.subrange(i, i + 7) != "forward"@ by {
        if i == 0 { assert("move go to word left"@.subrange(i, i + 7)[0] == "move go to word left"@[0]); assert("move go to word left"@[0] != "forward"@[0]); }
        if i == 1 { assert("move go to word left"@.subrange(i, i + 7)[0] == "move go to word left"@[1]); assert("move go to word left"@[1] != "forward"@[0]); }
        if i == 2 { assert("move go to word left"@.subrange(i, i + 7)[0] == "move go to word left"@[2]); assert("move go to word left"@[2] != "forward"@[0]); }
        if i == 3 { assert("move go to word left"@.subrange(i, i + 7)[0] == "move go to word left"@[3]); assert("move go to word left"@[3] != "forward"@[0]); }
        if i == 4 { assert("move go to word left"@.subrange(i, i + 7)[0] == "move go to word left"@[4]); assert("move go to word left"@[4] != "forward"@[0]); }
        if i == 5 { assert("move go to word left"@.subrange(i, i + 7)[0] == "move go to word left"@[5]); assert("move go to word left"@[5] != "forward"@[0]); }
        if i == 6 { assert("move go to word left"@.subrange(i, i + 7)[0] == "move go to word left"@[6]); assert("move go to word left"@[6] != "forward"@[0]); }
        if i == 7 { assert("move go to word left"@.subrange(i, i + 7)[0] == "move go to word left"@[7]); assert("move go to word left"@[7] != "forward"@[0]); }
        if i == 8 { assert("move go to word left"@.subrange(i, i + 7)[0] == "move go to word left"@[8]); assert("move go to word left"@[8] != "forward"@[0]); }
        if i == 9 { assert("move go to word left"@.subrange(i, i + 7)[0] == "move go to word left"@[9]); assert("move go to word left"@[9] != "forward"@[0]); }
        if i == 10 { assert("move go to word left"@.subrange(i, i + 7)[0] == "move go to word left"@[10]); assert("move go to word left"@[10] != "forward"@[0]); }
        if i == 11 { assert("move go to word left"@.subrange(i, i + 7)[0] == "move go to word left"@[11]); assert("move go to word left"@[11] != "forward"@[0]); }
        if i == 12 { assert("move go to word left"@.subrange(i, i + 7)[0] == "move go to word left"@[12]); assert("move go to word left"@[12] != "forward"@[0]); }
        if i == 13 { assert("move go to word left"@.subrange(i, i + 7)[0] == "move go to word left"@[13]); assert("move go to word left"@[13] != "forward"@[0]); }
    }
    assert forall|i: int| 0 <= i && i + 4 <= "move go to word left"@.len() implies #[trigger] "move go to word left"@.subrange(i, i + 4) != "next"@ by {
        if i == 0 { assert("move go to word left"@.subrange(i, i + 4)[0] == "move go to word left"@[0]); assert("move go to word left"@[0] != "next"@[0]); }
        if i == 1 { assert("move go to word left"@.subrange(i, i + 4)[0] == "move go to word left"@[1]); assert("move go to word left"@[1] != "next"@[0]); }
        if i == 2 { assert("move go to word left"@.subrange(i, i + 4)[0] == "move go to word left"@[2]); assert("move go to word left"@[2] != "next"@[0]); }
        if i == 3 { assert("move go to word left"@.subrange(i, i + 4)[0] == "move go to word left"@[3]); assert("move go to word left"@[3] != "next"@[0]); }
        if i == 4 { assert("move go to word left"@.subrange(i, i + 4)[0] == "move go to word left"@[4]); assert("move go to word left"@[4] != "next"@[0]); }
        if i == 5 { assert("move go to word left"@.subrange(i, i + 4)[0] == "move go to word left"@[5]); assert("move go to word left"@[5] != "next"@[0]); }
        if i == 6 { assert("move go to word left"@.subrange(i, i + 4)[0] == "move go to word left"@[6]); assert("move go to word left"@[6] != "next"@[0]); }
        if i == 7 { assert("move go to word left"@.subrange(i, i + 4)[0] == "move go to word left"@[7]); assert("move go to word left"@[7] != "next"@[0]); }
        if i == 8 { assert("move go to word left"@.subrange(i, i + 4)[0] == "move go to word left"@[8]); assert("move go to word left"@[8] != "next"@[0]); }
        if i == 9 { assert("move go to word left"@.subrange(i, i + 4)[0] == "move go to word left"@[9]); assert("move go to word left"@[9] != "next"@[0]); }
        if i == 10 { assert("move go to word left"@.subrange(i, i + 4)[0] == "move go to word left"@[10]); assert("move go to word left"@[10] != "next"@[0]); }
        if i == 11 { assert("move go to word left"@.subrange(i, i + 4)[0] == "move go to word left"@[11]); assert("move go to word left"@[11] != "next"@[0]); }
        if i == 12 { assert("move go to word left"@.subrange(i, i + 4)[0] == "move go to word left"@[12]); assert("move go to word left"@[12] != "next"@[0]); }
        if i == 13 { assert("move go to word left"@.subrange(i, i + 4)[0] == "move go to word left"@[13]); assert("move go to word left"@[13] != "next"@[0]); }
        if i == 14 { assert("move go to word left"@.subrange(i, i + 4)[0] == "move go to word left"@[14]); assert("move go to word left"@[14] != "next"@[0]); }
        if i == 15 { assert("move go to word left"@.subrange(i, i + 4)[0] == "move go to word left"@[15]); assert("move go to word left"@[15] != "next"@[0]); }
        if i == 16 { assert("move go to word left"@.subrange(i, i + 4)[0] == "move go to word left"@[16]); assert("move go to word left"@[16] != "next"@[0]); }
    }
    assert forall|i: int| 0 <= i && i + 5 <= "move go to word left"@.len() implies #[trigger] "move go to word left"@.subrange(i, i + 5) != "right"@ by {
        if i == 0 { assert("move go to word left"@.subrange(i, i + 5)[0] == "move go to word left"@[0]); assert("move go to word left"@[0] != "right"@[0]); }
        if i == 1 { assert("move go to word left"@.subrange(i, i + 5)[0] == "move go to word left"@[1]); assert("move go to word left"@[1] != "right"@[0]); }
        if i == 2 { assert("move go to word left"@.subrange(i, i + 5)[0] == "move go to word left"@[2]); assert("move go to word left"@[2] != "right"@[0]); }
        if i == 3 { assert("move go to word left"@.subrange(i, i + 5)[0] == "move go to word left"@[3]); assert("move go to word left"@[3] != "right"@[0]); }
        if i == 4 { assert("move go to word left"@.subrange(i, i + 5)[0] == "move go to word left"@[4]); assert("move go to word left"@[4] != "right"@[0]); }
        if i == 5 { assert("move go to word left"@.subrange(i, i + 5)[0] == "move go to word left"@[5]); assert("move go to word left"@[5] != "right"@[0]); }
        if i == 6 { assert("move go to word left"@.subrange(i, i + 5)[0] == "move go to word left"@[6]); assert("move go to word left"@[6] != "right"@[0]); }
        if i == 7 { assert("move go to word left"@.subrange(i, i + 5)[0] == "move go to word left"@[7]); assert("move go to word left"@[7] != "right"@[0]); }
        if i == 8 { assert("move go to word left"@.subrange(i, i + 5)[0] == "move go to word left"@[8]); assert("move go to word left"@[8] != "right"@[0]); }
        if i == 9 { assert("move go to word left"@.subrange(i, i + 5)[0] == "move go to word left"@[9]); assert("move go to word left"@[9] != "right"@[0]); }
        if i == 10 { assert("move go to word left"@.subrange(i, i + 5)[0] == "move go to word left"@[10]); assert("move go to word left"@[10] != "right"@[0]); }
        if i == 11 { assert("move go to word left"@.subrange(i, i + 5)[0] == "move go to word left"@[11]); assert("move go to word left"@[11] != "right"@[0]); }
        if i == 12 { assert("move go to word left"@.subrange(i, i + 5)[0] == "move go to word left"@[12]); assert("move go to word left"@[12] != "right"@[0]); }
        if i == 13 { assert("move go to word left"@.subrange(i, i + 5)[1] == "move go to word left"@[14]); assert("move go to word left"@[14] != "right"@[1]); }
        if i == 14 { assert("move go to word left"@.subrange(i, i + 5)[0] == "move go to word left"@[14]); assert("move go to word left"@[14] != "right"@[0]); }
        if i == 15 { assert("move go to word left"@.subrange(i, i + 5)[0] == "move go to word left"@[15]); assert("move go to word left"@[15] != "right"@[0]); }
    }
}

proof fn lemma_nm_select_go_to_word_left()
    ensures
        !mentions("select go to word left"@, "forward"@),
        !mentions("select go to word left"@, "next"@),
        !mentions("select go to word left"@, "right"@),
{
    reveal_strlit("select go to word left");
    reveal_strlit("forward");
    reveal_strlit("next");
    reveal_strlit("right");
    assert forall|i: int| 0 <= i && i + 7 <= "select go to word left"@.len() implies #[trigger] "select go to word left"@.subrange(i, i + 7) != "forward"@ by {
        if i == 0 { assert("select go to word left"@.subrange(i, i + 7)[0] == "select go to word left"@[0]); assert("select go to word left"@[0] != "forward"@[0]); }
        if i == 1 { assert("select go to word left"@.subrange(i, i + 7)[0] == "select go to word left"@[1]); assert("select go to word left"@[1] != "forward"@[0]); }
        if i == 2 { assert("select go to word left"@.subrange(i, i + 7)[0] == "select go to word left"@[2]); assert("select go to word left"@[2] != "forward"@[0]); }
        if i == 3 { assert("select go to word left"@.subrange(i, i + 7)[0] == "select go to word left"@[3]); assert("select go to word left"@[3] != "forward"@[0]); }
        if i == 4 { assert("select go to word left"@.subrange(i, i + 7)[0] == "select go to word left"@[4]); assert("select go to word left"@[4] != "forward"@[0]); }
        if i == 5 { assert("select go to word left"@.subrange(i, i + 7)[0] == "select go to word left"@[5]); assert("select go to word left"@[5] != "forward"@[0]); }
        if i == 6 { assert("select go to word left"@.subrange(i, i + 7)[0] == "select go to word left"@[6]); assert("select go to word left"@[6] != "forward"@[0]); }
        if i == 7 { assert("select go to word left"@.subrange(i, i + 7)[0] == "select go to word left"@[7]); assert("select go to word left"@[7] != "forward"@[0]); }
        if i == 8 { assert("select go to word left"@.subrange(i, i + 7)[0] == "select go to word left"@[8]); assert("select go to word left"@[8] != "forward"@[0]); }
        if i == 9 { assert("select go to word left"@.subrange(i, i + 7)[0] == "select go to word left"@[9]); assert("select go to word left"@[9] != "forward"@[0]); }
        if i == 10 { assert("select go to word left"@.subrange(i, i + 7)[0] == "select go to word left"@[10]); assert("select go to word left"@[10] != "forward"@[0]); }
        if i == 11 { assert("select go to word left"@.subrange(i, i + 7)[0] == "select go to word left"@[11]); assert("select go to word left"@[11] != "forward"@[0]); }
        if i == 12 { assert("select go to word left"@.subrange(i, i + 7)[0] == "select go to word left"@[12]); assert("select go to word left"@[12] != "forward"@[0]); }
        if i == 13 { assert("select go to word left"@.subrange(i, i + 7)[0] == "select go to word left"@[13]); assert("select go to word left"@[13] != "forward"@[0]); }
        if i == 14 { assert("select go to word left"@.subrange(i, i + 7)[0] == "select go to word left"@[14]); assert("select go to word left"@[14] != "forward"@[0]); }
        if i == 15 { assert("select go to word left"@.subrange(i, i + 7)[0] == "select go to word left"@[15]); assert("select go to word left"@[15] != "forward"@[0]); }
    }
    assert forall|i: int| 0 <= i && i + 4 <= "select go to word left"@.len() implies #[trigger] "select go to word left"@.subrange(i, i + 4) != "next"@ by {
        if i == 0 { assert("select go to word left"@.subrange(i, i + 4)[0] == "select go to word left"@[0]); assert("select go to word left"@[0] != "next"@[0]); }
        if i == 1 { assert("select go to word left"@.subrange(i, i + 4)[0] == "select go to word left"@[1]); assert("select go to word left"@[1] != "next"@[0]); }
        if i == 2 { assert("select go to word left"@.subrange(i, i + 4)[0] == "select go to word left"@[2]); assert("select go to word left"@[2] != "next"@[0]); }
        if i == 3 { assert("select go to word left"@.subrange(i, i + 4)[0] == "select go to word left"@[3]); assert("select go to word left"@[3] != "next"@[0]); }
        if i == 4 { assert("select go to word left"@.subrange(i, i + 4)[0] == "select go to word left"@[4]); assert("select go to word left"@[4] != "next"@[0]); }
        if i == 5 { assert("select go to word left"@.subrange(i, i + 4)[0] == "select go to word left"@[5]); assert("select go to word left"@[5] != "next"@[0]); }
        if i == 6 { assert("select go to word left"@.subrange(i, i + 4)[0] == "select go to word left"@[6]); assert("select go to word left"@[6] != "next"@[0]); }
        if i == 7 { assert("select go to word left"@.subrange(i, i + 4)[0] == "select go to word left"@[7]); assert("select go to word left"@[7] != "next"@[0]); }
        if i == 8 { assert("select go to word left"@.subrange(i, i + 4)[0] == "select go to word left"@[8]); assert("select go to word left"@[8] != "next"@[0]); }
        if i == 9 { assert("select go to word left"@.subrange(i, i + 4)[0] == "select go to word left"@[9]); assert("select go to word left"@[9] != "next"@[0]); }
        if i == 10 { assert("select go to word left"@.subrange(i, i + 4)[0] == "select go to word left"@[10]); assert("select go to word left"@[10] != "next"@[0]); }
        if i == 11 { assert("select go to word left"@.subrange(i, i + 4)[0] == "select go to word left"@[11]); assert("select go to word left"@[11] != "next"@[0]); }
        if i == 12 { assert("select go to word left"@.subrange(i, i + 4)[0] == "select go to word left"@[12]); assert("select go to word left"@[12] != "next"@[0]); }
        if i == 13 { assert("select go to word left"@.subrange(i, i + 4)[0] == "select go to word left"@[13]); assert("select go to word left"@[13] != "next"@[0]); }
        if i == 14 { assert("select go to word left"@.subrange(i, i + 4)[0] == "select go to word left"@[14]); assert("select go to word left"@[14] != "next"@[0]); }
        if i == 15 { assert("select go to word left"@.subrange(i, i + 4)[0] == "select go to word left"@[15]); assert("select go to word left"@[15] != "next"@[0]); }
        if i == 16 { assert("select go to word left"@.subrange(i, i + 4)[0] == "select go to word left"@[16]); assert("select go to word left"@[16] != "next"@[0]); }
        if i == 17 { assert("select go to word left"@.subrange(i, i + 4)[0] == "select go to word left"@[17]); assert("select go to word left"@[17] != "next"@[0]); }
        if i == 18 { assert("select go to word left"@.subrange(i, i + 4)[0] == "select go to word left"@[18]); assert("select go to word left"@[18] != "next"@[0]); }
    }
    assert forall|i: int| 0 <= i && i + 5 <= "select go to word left"@.len() implies #[trigger] "select go to word left"@.subrange(i, i + 5) != "right"@ by {
        if i == 0 { assert("select go to word left"@.subrange(i, i + 5)[0] == "select go to word left"@[0]); assert("select go to word left"@[0] != "right"@[0]); }
        if i == 1 { assert("select go to word left"@.subrange(i, i + 5)[0] == "select go to word left"@[1]); assert("select go to word left"@[1] != "right"@[0]); }
        if i == 2 { assert("select go to word left"@.subrange(i, i + 5)[0] == "select go to word left"@[2]); assert("select go to word left"@[2] != "right"@[0]); }
        if i == 3 { assert("select go to word left"@.subrange(i, i + 5)[0] == "select go to word left"@[3]); assert("select go to word left"@[3] != "right"@[0]); }
        if i == 4 { assert("select go to word left"@.subrange(i, i + 5)[0] == "select go to word left"@[4]); assert("select go to word left"@[4] != "right"@[0]); }
        if i == 5 { assert("select go to word left"@.subrange(i, i + 5)[0] == "select go to word left"@[5]); assert("select go to word left"@[5] != "right"@[0]); }
        if i == 6 { assert("select go to word left"@.subrange(i, i + 5)[0] == "select go to word left"@[6]); assert("select go to word left"@[6] != "right"@[0]); }
        if i == 7 { assert("select go to word left"@.subrange(i, i + 5)[0] == "select go to word left"@[7]); assert("select go to word left"@[7] != "right"@[0]); }
        if i == 8 { assert("select go to word left"@.subrange(i, i + 5)[0] == "select go to word left"@[8]); assert("select go to word left"@[8] != "right"@[0]); }
        if i == 9 { assert("select go to word left"@.subrange(i, i + 5)[0] == "select go to word left"@[9]); assert("select go to word left"@[9] != "right"@[0]); }
        if i == 10 { assert("select go to word left"@.subrange(i, i + 5)[0] == "select go to word left"@[10]); assert("select go to word left"@[10] != "right"@[0]); }
        if i == 11 { assert("select go to word left"@.subrange(i, i + 5)[0] == "select go to word left"@[11]); assert("select go to word left"@[11] != "right"@[0]); }
        if i == 12 { assert("select go to word left"@.subrange(i, i + 5)[0] == "select go to word left"@[12]); assert("select go to word left"@[12] != "right"@[0]); }
        if i == 13 { assert("select go to word left"@.subrange(i, i + 5)[0] == "select go to word left"@[13]); assert("select go to word left"@[13] != "right"@[0]); }
        if i == 14 { assert("select go to word left"@.subrange(i, i + 5)[0] == "select go to word left"@[14]); assert("select go to word left"@[14] != "right"@[0]); }
        if i == 15 { assert("select go to word left"@.subrange(i, i + 5)[1] == "select go to word left"@[16]); assert("select go to word left"@[16] != "right"@[1]); }
        if i == 16 { assert("select go to word left"@.subrange(i, i + 5)[0] == "select go to word left"@[16]); assert("select go to word left"@[16] != "right"@[0]); }
        if i == 17 { assert("select go to word left"@.subrange(i, i + 5)[0] == "select go to word left"@[17]); assert("select go to word left"@[17] != "right"@[0]); }
    }
}

proof fn lemma_nm_left_word()
    ensures
        !mentions("left word"@, "forward"@),
        !mentions("left word"@, "next"@),
        !mentions("left word"@, "right"@),
{
    reveal_strlit("left word");
    reveal_strlit("forward");
    reveal_strlit("next");
    reveal_strlit("right");
    assert forall|i: int| 0 <= i && i + 7 <= "left word"@.len() implies #[trigger] "left word"@.subrange(i, i + 7) != "forward"@ by {
        if i == 0 { assert("left word"@.subrange(i, i + 7)[0] == "left word"@[0]); assert("left word"@[0] != "forward"@[0]); }
        if i == 1 { assert("left word"@.subrange(i, i + 7)[0] == "left word"@[1]); assert("left word"@[1] != "forward"@[0]); }
        if i == 2 { assert("left word"@.subrange(i, i + 7)[1] == "left word"@[3]); assert("left word"@[3] != "forward"@[1]); }
    }
    assert forall|i: int| 0 <= i && i + 4 <= "left word"@.len() implies #[trigger] "left word"@.subrange(i, i + 4) != "next"@ by {
        if i == 0 { assert("left word"@.subrange(i, i + 4)[0] == "left word"@[0]); assert("left word"@[0] != "next"@[0]); }
        if i == 1 { assert("left word"@.subrange(i, i + 4)[0] == "left word"@[1]); assert("left word"@[1] != "next"@[0]); }
        if i == 2 { assert("left word"@.subrange(i, i + 4)[0] == "left word"@[2]); assert("left word"@[2] != "next"@[0]); }
        if i == 3 { assert("left word"@.subrange(i, i + 4)[0] == "left word"@[3]); assert("left word"@[3] != "next"@[0]); }
        if i == 4 { assert("left word"@.subrange(i, i + 4)[0] == "left word"@[4]); assert("left word"@[4] != "next"@[0]); }
        if i == 5 { assert("left word"@.subrange(i, i + 4)[0] == "left word"@[5]); assert("left word"@[5] != "next"@[0]); }
    }
    assert forall|i: int| 0 <= i && i + 5 <= "left word"@.len() implies #[trigger] "left word"@.subrange(i, i + 5) != "right"@ by {
        if i == 0 { assert("left word"@.subrange(i, i + 5)[0] == "left word"@[0]); assert("left word"@[0] != "right"@[0]); }
        if i == 1 { assert("left word"@.subrange(i, i + 5)[0] == "left word"@[1]); assert("left word"@[1] != "right"@[0]); }
        if i == 2 { assert("left word"@.subrange(i, i + 5)[0] == "left word"@[2]); assert("left word"@[2] != "right"@[0]); }
        if i == 3 { assert("left word"@.subrange(i, i + 5)[0] == "left word"@[3]); assert("left word"@[3] != "right"@[0]); }
        if i == 4 { assert("left word"@.subrange(i, i + 5)[0] == "left word"@[4]); assert("left word"@[4] != "right"@[0]); }
    }
}

proof fn lemma_nm_move_left_word()
    ensures
        !mentions("move left word"@, "forward"@),
        !mentions("move left word"@, "next"@),
        !mentions("move left word"@, "right"@),
{
    reveal_strlit("move left word");
    reveal_strlit("forward");
    reveal_strlit("next");
    reveal_strlit("right");
    assert forall|i: int| 0 <= i && i + 7 <= "move left word"@.len() implies #[trigger] "move left word"@.subrange(i, i + 7) != "forward"@ by {
        if i == 0 { assert("move left word"@.subrange(i, i + 7)[0] == "move left word"@[0]); assert("move left word"@[0] != "forward"@[0]); }
        if i == 1 { assert("move left word"@.subrange(i, i + 7)[0] == "move left word"@[1]); assert("move left word"@[1] != "forward"@[0]); }
        if i == 2 { assert("move left word"@.subrange(i, i + 7)[0] == "move left word"@[2]); assert("move left word"@[2] != "forward"@[0]); }
        if i == 3 { assert("move left word"@.subrange(i, i + 7)[0] == "move left word"@[3]); assert("move left word"@[3] != "forward"@[0]); }
        if i == 4 { assert("move left word"@.subrange(i, i + 7)[0] == "move left word"@[4]); assert("move left word"@[4] != "forward"@[0]); }
        if i == 5 { assert("move left word"@.subrange(i, i + 7)[0] == "move left word"@[5]); assert("move left word"@[5] != "forward"@[0]); }
        if i == 6 { assert("move left word"@.subrange(i, i + 7)[0] == "move left word"@[6]); assert("move left word"@[6] != "forward"@[0]); }
        if i == 7 { assert("move left word"@.subrange(i, i + 7)[1] == "move left word"@[8]); assert("move left word"@[8] != "forward"@[1]); }
    }
    assert forall|i: int| 0 <= i && i + 4 <= "move left word"@.len() implies #[trigger] "move left word"@.subrange(i, i + 4) != "next"@ by {
        if i == 0 { assert("move left word"@.subrange(i, i + 4)[0] == "move left word"@[0]); assert("move left word"@[0] != "next"@[0]); }
        if i == 1 { assert("move left word"@.subrange(i, i + 4)[0] == "move left word"@[1]); assert("move left word"@[1] != "next"@[0]); }
        if i == 2 { assert("move left word"@.subrange(i, i + 4)[0] == "move left word"@[2]); assert("move left word"@[2] != "next"@[0]); }
        if i == 3 { assert("move left word"@.subrange(i, i + 4)[0] == "move left word"@[3]); assert("move left word"@[3] != "next"@[0]); }
        if i == 4 { assert("move left word"@.subrange(i, i + 4)[0] == "move left word"@[4]); assert("move left word"@[4] != "next"@[0]); }
        if i == 5 { assert("move left word"@.subrange(i, i + 4)[0] == "move left word"@[5]); assert("move left word"@[5] != "next"@[0]); }
        if i == 6 { assert("move left word"@.subrange(i, i + 4)[0] == "move left word"@[6]); assert("move left word"@[6] != "next"@[0]); }
        if i == 7 { assert("move left word"@.subrange(i, i + 4)[0] == "move left word"@[7]); assert("move left word"@[7] != "next"@[0]); }
        if i == 8 { assert("move left word"@.subrange(i, i + 4)[0] == "move left word"@[8]); assert("move left word"@[8] != "next"@[0]); }
        if i == 9 { assert("move left word"@.subrange(i, i + 4)[0] == "move left word"@[9]); assert("move left word"@[9] != "next"@[0]); }
        if i == 10 { assert("move left word"@.subrange(i, i + 4)[0] == "move left word"@[10]); assert("move left word"@[10] != "next"@[0]); }
    }
    assert forall|i: int| 0 <= i && i + 5 <= "move left word"@.len() implies #[trigger] "move left word"@.subrange(i, i + 5) != "right"@ by {
        if i == 0 { assert("move left word"@.subrange(i, i + 5)[0] == "move left word"@[0]); assert("move left word"@[0] != "right"@[0]); }
        if i == 1 { assert("move left word"@.subrange(i, i + 5)[0] == "move left word"@[1]); assert("move left word"@[1] != "right"@[0]); }
        if i == 2 { assert("move left word"@.subrange(i, i + 5)[0] == "move left word"@[2]); assert("move left word"@[2] != "right"@[0]); }
        if i == 3 { assert("move left word"@.subrange(i, i + 5)[0] == "move left word"@[3]); assert("move left word"@[3] != "right"@[0]); }
        if i == 4 { assert("move left word"@.subrange(i, i + 5)[0] == "move left word"@[4]); assert("move left word"@[4] != "right"@[0]); }
        if i == 5 { assert("move left word"@.subrange(i, i + 5)[0] == "move left word"@[5]); assert("move left word"@[5] != "right"@[0]); }
        if i == 6 { assert("move left word"@.subrange(i, i + 5)[0] == "move left word"@[6]); assert("move left word"@[6] != "right"@[0]); }
        if i == 7 { assert("move left word"@.subrange(i, i + 5)[0] == "move left word"@[7]); assert("move left word"@[7] != "right"@[0]); }
        if i == 8 { assert("move left word"@.subrange(i, i + 5)[0] == "move left word"@[8]); assert("move left word"@[8] != "right"@[0]); }
        if i == 9 { assert("move left word"@.subrange(i, i + 5)[0] == "move left word"@[9]); assert("move left word"@[9] != "right"@[0]); }
    }
}

proof fn lemma_nm_select_left_word()
    ensures
        !mentions("select left word"@, "forward"@),
        !mentions("select left word"@, "next"@),
        !mentions("select left word"@, "right"@),
{
    reveal_strlit("select left word");
    reveal_strlit("forward");
    reveal_strlit("next");
    reveal_strlit("right");
    assert forall|i: int| 0 <= i && i + 7 <= "select left word"@.len() implies #[trigger] "select left word"@.subrange(i, i + 7) != "forward"@ by {
        if i == 0 { assert("select left word"@.subrange(i, i + 7)[0] == "select left word"@[0]); assert("select left word"@[0] != "forward"@[0]); }
        if i == 1 { assert("select left word"@.subrange(i, i + 7)[0] == "select left word"@[1]); assert("select left word"@[1] != "forward"@[0]); }
        if i == 2 { assert("select left word"@.subrange(i, i + 7)[0] == "select left word"@[2]); assert("select left word"@[2] != "forward"@[0]); }
        if i == 3 { assert("select left word"@.subrange(i, i + 7)[0] == "select left word"@[3]); assert("select left word"@[3] != "forward"@[0]); }
        if i == 4 { assert("select left word"@.subrange(i, i + 7)[0] == "select left word"@[4]); assert("select left word"@[4] != "forward"@[0]); }
        if i == 5 { assert("select left word"@.subrange(i, i + 7)[0] == "select left word"@[5]); assert("select left word"@[5] != "forward"@[0]); }
        if i == 6 { assert("select left word"@.subrange(i, i + 7)[0] == "select left word"@[6]); assert("select left word"@[6] != "forward"@[0]); }
        if i == 7 { assert("select left word"@.subrange(i, i + 7)[0] == "select left word"@[7]); assert("select left word"@[7] != "forward"@[0]); }
        if i == 8 { assert("select left word"@.subrange(i, i + 7)[0] == "select left word"@[8]); assert("select left word"@[8] != "forward"@[0]); }
        if i == 9 { assert("select left word"@.subrange(i, i + 7)[1] == "select left word"@[10]); assert("select left word"@[10] != "forward"@[1]); }
    }
    assert forall|i: int| 0 <= i && i + 4 <= "select left word"@.len() implies #[trigger] "select left word"@.subrange(i, i + 4) != "next"@ by {
        if i == 0 { assert("select left word"@.subrange(i, i + 4)[0] == "select left word"@[0]); assert("select left word"@[0] != "next"@[0]); }
        if i == 1 { assert("select left word"@.subrange(i, i + 4)[0] == "select left word"@[1]); assert("select left word"@[1] != "next"@[0]); }
        if i == 2 { assert("select left word"@.subrange(i, i + 4)[0] == "select left word"@[2]); assert("select left word"@[2] != "next"@[0]); }
        if i == 3 { assert("select left word"@.subrange(i, i + 4)[0] == "select left word"@[3]); assert("select left word"@[3] != "next"@[0]); }
        if i == 4 { assert("select left word"@.subrange(i, i + 4)[0] == "select left word"@[4]); assert("select left word"@[4] != "next"@[0]); }
        if i == 5 { assert("select left word"@.subrange(i, i + 4)[0] == "select left word"@[5]); assert("select left word"@[5] != "next"@[0]); }
        if i == 6 { assert("select left word"@.subrange(i, i + 4)[0] == "select left word"@[6]); assert("select left word"@[6] != "next"@[0]); }
        if i == 7 { assert("select left word"@.subrange(i, i + 4)[0] == "select left word"@[7]); assert("select left word"@[7] != "next"@[0]); }
        if i == 8 { assert("select left word"@.subrange(i, i + 4)[0] == "select left word"@[8]); assert("select left word"@[8] != "next"@[0]); }
        if i == 9 { assert("select left word"@.subrange(i, i + 4)[0] == "select left word"@[9]); assert("select left word"@[9] != "next"@[0]); }
        if i == 10 { assert("select left word"@.subrange(i, i + 4)[0] == "select left word"@[10]); assert("select left word"@[10] != "next"@[0]); }
        if i == 11 { assert("select left word"@.subrange(i, i + 4)[0] == "select left word"@[11]); assert("select left word"@[11] != "next"@[0]); }
        if i == 12 { assert("select left word"@.subrange(i, i + 4)[0] == "select left word"@[12]); assert("select left word"@[12] != "next"@[0]); }
    }
    assert forall|i: int| 0 <= i && i + 5 <= "select left word"@.len() implies #[trigger] "select left word"@.subrange(i, i + 5) != "right"@ by {
        if i == 0 { assert("select left word"@.subrange(i, i + 5)[0] == "select left word"@[0]); assert("select left word"@[0] != "right"@[0]); }
        if i == 1 { assert("select left word"@.subrange(i, i + 5)[0] == "select left word"@[1]); assert("select left word"@[1] != "right"@[0]); }
        if i == 2 { assert("select left word"@.subrange(i, i + 5)[0] == "select left word"@[2]); assert("select left word"@[2] != "right"@[0]); }
        if i == 3 { assert("select left word"@.subrange(i, i + 5)[0] == "select left word"@[3]); assert("select left word"@[3] != "right"@[0]); }
        if i == 4 { assert("select left word"@.subrange(i, i + 5)[0] == "select left word"@[4]); assert("select left word"@[4] != "right"@[0]); }
        if i == 5 { assert("select left word"@.subrange(i, i + 5)[0] == "select left word"@[5]); assert("select left word"@[5] != "right"@[0]); }
        if i == 6 { assert("select left word"@.subrange(i, i + 5)[0] == "select left word"@[6]); assert("select left word"@[6] != "right"@[0]); }
        if i == 7 { assert("select left word"@.subrange(i, i + 5)[0] == "select left word"@[7]); assert("select left word"@[7] != "right"@[0]); }
        if i == 8 { assert("select left word"@.subrange(i, i + 5)[0] == "select left word"@[8]); assert("select left word"@[8] != "right"@[0]); }
        if i == 9 { assert("select left word"@.subrange(i, i + 5)[0] == "select left word"@[9]); assert("select left word"@[9] != "right"@[0]); }
        if i == 10 { assert("select left word"@.subrange(i, i + 5)[0] == "select left word"@[10]); assert("select left word"@[10] != "right"@[0]); }
        if i == 11 { assert("select left word"@.subrange(i, i + 5)[0] == "select left word"@[11]); assert("select left word"@[11] != "right"@[0]); }
    }
}

proof fn lemma_nm_go_to_left_word()
    ensures
        !mentions("go to left word"@, "forward"@),
        !mentions("go to left word"@, "next"@),
        !mentions("go to left word"@, "right"@),
{
    reveal_strlit("go to left word");
    reveal_strlit("forward");
    reveal_strlit("next");
    reveal_strlit("right");
    assert forall|i: int| 0 <= i && i + 7 <= "go to left word"@.len() implies #[trigger] "go to left word"@.subrange(i, i + 7) != "forward"@ by {
        if i == 0 { assert("go to left word"@.subrange(i, i + 7)[0] == "go to left word"@[0]); assert("go to left word"@[0] != "forward"@[0]); }
        if i == 1 { assert("go to left word"@.subrange(i, i + 7)[0] == "go to left word"@[1]); assert("go to left word"@[1] != "forward"@[0]); }
        if i == 2 { assert("go to left word"@.subrange(i, i + 7)[0] == "go to left word"@[2]); assert("go to left word"@[2] != "forward"@[0]); }
        if i == 3 { assert("go to left word"@.subrange(i, i + 7)[0] == "go to left word"@[3]); assert("go to left word"@[3] != "forward"@[0]); }
        if i == 4 { assert("go to left word"@.subrange(i, i + 7)[0] == "go to left word"@[4]); assert("go to left word"@[4] != "forward"@[0]); }
        if i == 5 { assert("go to left word"@.subrange(i, i + 7)[0] == "go to left word"@[5]); assert("go to left word"@[5] != "forward"@[0]); }
        if i == 6 { assert("go to left word"@.subrange(i, i + 7)[0] == "go to left word"@[6]); assert("go to left word"@[6] != "forward"@[0]); }
        if i == 7 { assert("go to left word"@.subrange(i, i + 7)[0] == "go to left word"@[7]); assert("go to left word"@[7] != "forward"@[0]); }
        if i == 8 { assert("go to left word"@.subrange(i, i + 7)[1] == "go to left word"@[9]); assert("go to left word"@[9] != "forward"@[1]); }
    }
    assert forall|i: int| 0 <= i && i + 4 <= "go to left word"@.len() implies #[trigger] "go to left word"@.subrange(i, i + 4) != "next"@ by {
        if i == 0 { assert("go to left word"@.subrange(i, i + 4)[0] == "go to left word"@[0]); assert("go to left word"@[0] != "next"@[0]); }
        if i == 1 { assert("go to left word"@.subrange(i, i + 4)[0] == "go to left word"@[1]); assert("go to left word"@[1] != "next"@[0]); }
        if i == 2 { assert("go to left word"@.subrange(i, i + 4)[0] == "go to left word"@[2]); assert("go to left word"@[2] != "next"@[0]); }
        if i == 3 { assert("go to left word"@.subrange(i, i + 4)[0] == "go to left word"@[3]); assert("go to left word"@[3] != "next"@[0]); }
        if i == 4 { assert("go to left word"@.subrange(i, i + 4)[0] == "go to left word"@[4]); assert("go to left word"@[4] != "next"@[0]); }
        if i == 5 { assert("go to left word"@.subrange(i, i + 4)[0] == "go to left word"@[5]); assert("go to left word"@[5] != "next"@[0]); }
        if i == 6 { assert("go to left word"@.subrange(i, i + 4)[0] == "go to left word"@[6]); assert("go to left word"@[6] != "next"@[0]); }
        if i == 7 { assert("go to left word"@.subrange(i, i + 4)[0] == "go to left word"@[7]); assert("go to left word"@[7] != "next"@[0]); }
        if i == 8 { assert("go to left word"@.subrange(i, i + 4)[0] == "go to left word"@[8]); assert("go to left word"@[8] != "next"@[0]); }
        if i == 9 { assert("go to left word"@.subrange(i, i + 4)[0] == "go to left word"@[9]); assert("go to left word"@[9] != "next"@[0]); }
        if i == 10 { assert("go to left word"@.subrange(i, i + 4)[0] == "go to left word"@[10]); assert("go to left word"@[10] != "next"@[0]); }
        if i == 11 { assert("go to left word"@.subrange(i, i + 4)[0] == "go to left word"@[11]); assert("go to left word"@[11] != "next"@[0]); }
    }
    assert forall|i: int| 0 <= i && i + 5 <= "go to left word"@.len() implies #[trigger] "go to left word"@.subrange(i, i + 5) != "right"@ by {
        if i == 0 { assert("go to left word"@.subrange(i, i + 5)[0] == "go to left word"@[0]); assert("go to left word"@[0] != "right"@[0]); }
        if i == 1 { assert("go to left word"@.subrange(i, i + 5)[0] == "go to left word"@[1]); assert("go to left word"@[1] != "right"@[0]); }
        if i == 2 { assert("go to left word"@.subrange(i, i + 5)[0] == "go to left word"@[2]); assert("go to left word"@[2] != "right"@[0]); }
        if i == 3 { assert("go to left word"@.subrange(i, i + 5)[0] == "go to left word"@[3]); assert("go to left word"@[3] != "right"@[0]); }
        if i == 4 { assert("go to left word"@.subrange(i, i + 5)[0] == "go to left word"@[4]); assert("go to left word"@[4] != "right"@[0]); }
        if i == 5 { assert("go to left word"@.subrange(i, i + 5)[0] == "go to left word"@[5]); assert("go to left word"@[5] != "right"@[0]); }
        if i == 6 { assert("go to left word"@.subrange(i, i + 5)[0] == "go to left word"@[6]); assert("go to left word"@[6] != "right"@[0]); }
        if i == 7 { assert("go to left word"@.subrange(i, i + 5)[0] == "go to left word"@[7]); assert("go to left word"@[7] != "right"@[0]); }
        if i == 8 { assert("go to left word"@.subrange(i, i + 5)[0] == "go to left word"@[8]); assert("go to left word"@[8] != "right"@[0]); }
        if i == 9 { assert("go to left word"@.subrange(i, i + 5)[0] == "go to left word"@[9]); assert("go to left word"@[9] != "right"@[0]); }
        if i == 10 { assert("go to left word"@.subrange(i, i + 5)[0] == "go to left word"@[10]); assert("go to left word"@[10] != "right"@[0]); }
    }
}

proof fn lemma_nm_move_go_to_left_word()
    ensures
        !mentions("move go to left word"@, "forward"@),
        !mentions("move go to left word"@, "next"@),
        !mentions("move go to left word"@, "right"@),
{
    reveal_strlit("move go to left word");
    reveal_strlit("forward");
    reveal_strlit("next");
    reveal_strlit("right");
    assert forall|i: int| 0 <= i && i + 7 <= "move go to left word"@.len() implies #[trigger] "move go to left word"@.subrange(i, i + 7) != "forward"@ by {
        if i == 0 { assert("move go to left word"@.subrange(i, i + 7)[0] == "move go to left word"@[0]); assert("move go to left word"@[0] != "forward"@[0]); }
        if i == 1 { assert("move go to left word"@.subrange(i, i + 7)[0] == "move go to left word"@[1]); assert("move go to left word"@[1] != "forward"@[0]); }
        if i == 2 { assert("move go to left word"@.subrange(i, i + 7)[0] == "move go to left word"@[2]); assert("move go to left word"@[2] != "forward"@[0]); }
        if i == 3 { assert("move go to left word"@.subrange(i, i + 7)[0] == "move go to left word"@[3]); assert("move go to left word"@[3] != "forward"@[0]); }
        if i == 4 { assert("move go to left word"@.subrange(i, i + 7)[0] == "move go to left word"@[4]); assert("move go to left word"@[4] != "forward"@[0]); }
        if i == 5 { assert("move go to left word"@.subrange(i, i + 7)[0] == "move go to left word"@[5]); assert("move go to left word"@[5] != "forward"@[0]); }
        if i == 6 { assert("move go to left word"@.subrange(i, i + 7)[0] == "move go to left word"@[6]); assert("move go to left word"@[6] != "forward"@[0]); }
        if i == 7 { assert("move go to left word"@.subrange(i, i + 7)[0] == "move go to left word"@[7]); assert("move go to left word"@[7] != "forward"@[0]); }
        if i == 8 { assert("move go to left word"@.subrange(i, i + 7)[0] == "move go to left word"@[8]); assert("move go to left word"@[8] != "forward"@[0]); }
        if i == 9 { assert("move go to left word"@.subrange(i, i + 7)[0] == "move go to left word"@[9]); assert("move go to left word"@[9] != "forward"@[0]); }
        if i == 10 { assert("move go to left word"@.subrange(i, i + 7)[0] == "move go to left word"@[10]); assert("move go to left word"@[10] != "forward"@[0]); }
        if i == 11 { assert("move go to left word"@.subrange(i, i + 7)[0] == "move go to left word"@[11]); assert("move go to left word"@[11] != "forward"@[0]); }
        if i == 12 { assert("move go to left word"@.subrange(i, i + 7)[0] == "move go to left word"@[12]); assert("move go to left word"@[12] != "forward"@[0]); }
        if i == 13 { assert("move go to left word"@.subrange(i, i + 7)[1] == "move go to left word"@[14]); assert("move go to left word"@[14] != "forward"@[1]); }
    }
    assert forall|i: int| 0 <= i && i + 4 <= "move go to left word"@.len() implies #[trigger] "move go to left word"@.subrange(i, i + 4) != "next"@ by {
        if i == 0 { assert("move go to left word"@.subrange(i, i + 4)[0] == "move go to left word"@[0]); assert("move go to left word"@[0] != "next"@[0]); }
        if i == 1 { assert("move go to left word"@.subrange(i, i + 4)[0] == "move go to left word"@[1]); assert("move go to left word"@[1] != "next"@[0]); }
        if i == 2 { assert("move go to left word"@.subrange(i, i + 4)[0] == "move go to left word"@[2]); assert("move go to left word"@[2] != "next"@[0]); }
        if i == 3 { assert("move go to left word"@.subrange(i, i + 4)[0] == "move go to left word"@[3]); assert("move go to left word"@[3] != "next"@[0]); }
        if i == 4 { assert("move go to left word"@.subrange(i, i + 4)[0] == "move go to left word"@[4]); assert("move go to left word"@[4] != "next"@[0]); }
        if i == 5 { assert("move go to left word"@.subrange(i, i + 4)[0] == "move go to left word"@[5]); assert("move go to left word"@[5] != "next"@[0]); }
        if i == 6 { assert("move go to left word"@.subrange(i, i + 4)[0] == "move go to left word"@[6]); assert("move go to left word"@[6] != "next"@[0]); }
        if i == 7 { assert("move go to left word"@.subrange(i, i + 4)[0] == "move go to left word"@[7]); assert("move go to left word"@[7] != "next"@[0]); }
        if i == 8 { assert("move go to left word"@.subrange(i, i + 4)[0] == "move go to left word"@[8]); assert("move go to left word"@[8] != "next"@[0]); }
        if i == 9 { assert("move go to left word"@.subrange(i, i + 4)[0] == "move go to left word"@[9]); assert("move go to left word"@[9] != "next"@[0]); }
        if i == 10 { assert("move go to left word"@.subrange(i, i + 4)[0] == "move go to left word"@[10]); assert("move go to left word"@[10] != "next"@[0]); }
        if i == 11 { assert("move go to left word"@.subrange(i, i + 4)[0] == "move go to left word"@[11]); assert("move go to left word"@[11] != "next"@[0]); }
        if i == 12 { assert("move go to left word"@.subrange(i, i + 4)[0] == "move go to left word"@[12]); assert("move go to left word"@[12] != "next"@[0]); }
        if i == 13 { assert("move go to left word"@.subrange(i, i + 4)[0] == "move go to left word"@[13]); assert("move go to left word"@[13] != "next"@[0]); }
        if i == 14 { assert("move go to left word"@.subrange(i, i + 4)[0] == "move go to left word"@[14]); assert("move go to left word"@[14] != "next"@[0]); }
        if i == 15 { assert("move go to left word"@.subrange(i, i + 4)[0] == "move go to left word"@[15]); assert("move go to left word"@[15] != "next"@[0]); }
        if i == 16 { assert("move go to left word"@.subrange(i, i + 4)[0] == "move go to left word"@[16]); assert("move go to left word"@[16] != "next"@[0]); }
    }
    assert forall|i: int| 0 <= i && i + 5 <= "move go to left word"@.len() implies #[trigger] "move go to left word"@.subrange(i, i + 5) != "right"@ by {
        if i == 0 { assert("move go to left word"@.subrange(i, i + 5)[0] == "move go to left word"@[0]); assert("move go to left word"@[0] != "right"@[0]); }
        if i == 1 { assert("move go to left word"@.subrange(i, i + 5)[0] == "move go to left word"@[1]); assert("move go to left word"@[1] != "right"@[0]); }
        if i == 2 { assert("move go to left word"@.subrange(i, i + 5)[0] == "move go to left word"@[2]); assert("move go to left word"@[2] != "right"@[0]); }
        if i == 3 { assert("move go to left word"@.subrange(i, i + 5)[0] == "move go to left word"@[3]); assert("move go to left word"@[3] != "right"@[0]); }
        if i == 4 { assert("move go to left word"@.subrange(i, i + 5)[0] == "move go to left word"@[4]); assert("move go to left word"@[4] != "right"@[0]); }
        if i == 5 { assert("move go to left word"@.subrange(i, i + 5)[0] == "move go to left word"@[5]); assert("move go to left word"@[5] != "right"@[0]); }
        if i == 6 { assert("move go to left word"@.subrange(i, i + 5)[0] == "move go to left word"@[6]); assert("move go to left word"@[6] != "right"@[0]); }
        if i == 7 { assert("move go to left word"@.subrange(i, i + 5)[0] == "move go to left word"@[7]); assert("move go to left word"@[7] != "right"@[0]); }
        if i == 8 { assert("move go to left word"@.subrange(i, i + 5)[0] == "move go to left word"@[8]); assert("move go to left word"@[8] != "right"@[0]); }
        if i == 9 { assert("move go to left word"@.subrange(i, i + 5)[0] == "move go to left word"@[9]); assert("move go to left word"@[9] != "right"@[0]); }
        if i == 10 { assert("move go to left word"@.subrange(i, i + 5)[0] == "move go to left word"@[10]); assert("move go to left word"@[10] != "right"@[0]); }
        if i == 11 { assert("move go to left word"@.subrange(i, i + 5)[0] == "move go to left word"@[11]); assert("move go to left word"@[11] != "right"@[0]); }
        if i == 12 { assert("move go to left word"@.subrange(i, i + 5)[0] == "move go to left word"@[12]); assert("move go to left word"@[12] != "right"@[0]); }
        if i == 13 { assert("move go to left word"@.subrange(i, i + 5)[0] == "move go to left word"@[13]); assert("move go to left word"@[13] != "right"@[0]); }
        if i == 14 { assert("move go to left word"@.subrange(i, i + 5)[0] == "move go to left word"@[14]); assert("move go to left word"@[14] != "right"@[0]); }
        if i == 15 { assert("move go to left word"@.subrange(i, i + 5)[0] == "move go to left word"@[15]); assert("move go to left word"@[15] != "right"@[0]); }
    }
}

proof fn lemma_nm_select_go_to_left_word()
    ensures
        !mentions("select go to left word"@, "forward"@),
        !mentions("select go to left word"@, "next"@),
        !mentions("select go to left word"@, "right"@),
{
    reveal_strlit("select go to left word");
    reveal_strlit("forward");
    reveal_strlit("next");
    reveal_strlit("right");
    assert forall|i: int| 0 <= i && i + 7 <= "select go to left word"@.len() implies #[trigger] "select go to left word"@.subrange(i, i + 7) != "forward"@ by {
        if i == 0 { assert("select go to left word"@.subrange(i, i + 7)[0] == "select go to left word"@[0]); assert("select go to left word"@[0] != "forward"@[0]); }
        if i == 1 { assert("select go to left word"@.subrange(i, i + 7)[0] == "select go to left word"@[1]); assert("select go to left word"@[1] != "forward"@[0]); }
        if i == 2 { assert("select go to left word"@.subrange(i, i + 7)[0] == "select go to left word"@[2]); assert("select go to left word"@[2] != "forward"@[0]); }
        if i == 3 { assert("select go to left word"@.subrange(i, i + 7)[0] == "select go to left word"@[3]); assert("select go to left word"@[3] != "forward"@[0]); }
        if i == 4 { assert("select go to left word"@.subrange(i, i + 7)[0] == "select go to left word"@[4]); assert("select go to left word"@[4] != "forward"@[0]); }
        if i == 5 { assert("select go to left word"@.subrange(i, i + 7)[0] == "select go to left word"@[5]); assert("select go to left word"@[5] != "forward"@[0]); }
        if i == 6 { assert("select go to left word"@.subrange(i, i + 7)[0] == "select go to left word"@[6]); assert("select go to left word"@[6] != "forward"@[0]); }
        if i == 7 { assert("select go to left word"@.subrange(i, i + 7)[0] == "select go to left word"@[7]); assert("select go to left word"@[7] != "forward"@[0]); }
        if i == 8 { assert("select go to left word"@.subrange(i, i + 7)[0] == "select go to left word"@[8]); assert("select go to left word"@[8] != "forward"@[0]); }
        if i == 9 { assert("select go to left word"@.subrange(i, i + 7)[0] == "select go to left word"@[9]); assert("select go to left word"@[9] != "forward"@[0]); }
        if i == 10 { assert("select go to left word"@.subrange(i, i + 7)[0] == "select go to left word"@[10]); assert("select go to left word"@[10] != "forward"@[0]); }
        if i == 11 { assert("select go to left word"@.subrange(i, i + 7)[0] == "select go to left word"@[11]); assert("select go to left word"@[11] != "forward"@[0]); }
        if i == 12 { assert("select go to left word"@.subrange(i, i + 7)[0] == "select go to left word"@[12]); assert("select go to left word"@[12] != "forward"@[0]); }
        if i == 13 { assert("select go to left word"@.subrange(i, i + 7)[0] == "select go to left word"@[13]); assert("select go to left word"@[13] != "forward"@[0]); }
        if i == 14 { assert("select go to left word"@.subrange(i, i + 7)[0] == "select go to left word"@[14]); assert("select go to left word"@[14] != "forward"@[0]); }
        if i == 15 { assert("select go to left word"@.subrange(i, i + 7)[1] == "select go to left word"@[16]); assert("select go to left word"@[16] != "forward"@[1]); }
    }
    assert forall|i: int| 0 <= i && i + 4 <= "select go to left word"@.len() implies #[trigger] "select go to left word"@.subrange(i, i + 4) != "next"@ by {
        if i == 0 { assert("select go to left word"@.subrange(i, i + 4)[0] == "select go to left word"@[0]); assert("select go to left word"@[0] != "next"@[0]); }
        if i == 1 { assert("select go to left word"@.subrange(i, i + 4)[0] == "select go to left word"@[1]); assert("select go to left word"@[1] != "next"@[0]); }
        if i == 2 { assert("select go to left word"@.subrange(i, i + 4)[0] == "select go to left word"@[2]); assert("select go to left word"@[2] != "next"@[0]); }
        if i == 3 { assert("select go to left word"@.subrange(i, i + 4)[0] == "select go to left word"@[3]); assert("select go to left word"@[3] != "next"@[0]); }
        if i == 4 { assert("select go to left word"@.subrange(i, i + 4)[0] == "select go to left word"@[4]); assert("select go to left word"@[4] != "next"@[0]); }
        if i == 5 { assert("select go to left word"@.subrange(i, i + 4)[0] == "select go to left word"@[5]); assert("select go to left word"@[5] != "next"@[0]); }
        if i == 6 { assert("select go to left word"@.subrange(i, i + 4)[0] == "select go to left word"@[6]); assert("select go to left word"@[6] != "next"@[0]); }
        if i == 7 { assert("select go to left word"@.subrange(i, i + 4)[0] == "select go to left word"@[7]); assert("select go to left word"@[7] != "next"@[0]); }
        if i == 8 { assert("select go to left word"@.subrange(i, i + 4)[0] == "select go to left word"@[8]); assert("select go to left word"@[8] != "next"@[0]); }
        if i == 9 { assert("select go to left word"@.subrange(i, i + 4)[0] == "select go to left word"@[9]); assert("select go to left word"@[9] != "next"@[0]); }
        if i == 10 { assert("select go to left word"@.subrange(i, i + 4)[0] == "select go to left word"@[10]); assert("select go to left word"@[10] != "next"@[0]); }
        if i == 11 { assert("select go to left word"@.subrange(i, i + 4)[0] == "select go to left word"@[11]); assert("select go to left word"@[11] != "next"@[0]); }
        if i == 12 { assert("select go to left word"@.subrange(i, i + 4)[0] == "select go to left word"@[12]); assert("select go to left word"@[12] != "next"@[0]); }
        if i == 13 { assert("select go to left word"@.subrange(i, i + 4)[0] == "select go to left word"@[13]); assert("select go to left word"@[13] != "next"@[0]); }
        if i == 14 { assert("select go to left word"@.subrange(i, i + 4)[0] == "select go to left word"@[14]); assert("select go to left word"@[14] != "next"@[0]); }
        if i == 15 { assert("select go to left word"@.subrange(i, i + 4)[0] == "select go to left word"@[15]); assert("select go to left word"@[15] != "next"@[0]); }
        if i == 16 { assert("select go to left word"@.subrange(i, i + 4)[0] == "select go to left word"@[16]); assert("select go to left word"@[16] != "next"@[0]); }
        if i == 17 { assert("select go to left word"@.subrange(i, i + 4)[0] == "select go to left word"@[17]); assert("select go to left word"@[17] != "next"@[0]); }
        if i == 18 { assert("select go to left word"@.subrange(i, i + 4)[0] == "select go to left word"@[18]); assert("select go to left word"@[18] != "next"@[0]); }
    }
    assert forall|i: int| 0 <= i && i + 5 <= "select go to left word"@.len() implies #[trigger] "select go to left word"@.subrange(i, i + 5) != "right"@ by {
        if i == 0 { assert("select go to left word"@.subrange(i, i + 5)[0] == "select go to left word"@[0]); assert("select go to left word"@[0] != "right"@[0]); }
        if i == 1 { assert("select go to left word"@.subrange(i, i + 5)[0] == "select go to left word"@[1]); assert("select go to left word"@[1] != "right"@[0]); }
        if i == 2 { assert("select go to left word"@.subrange(i, i + 5)[0] == "select go to left word"@[2]); assert("select go to left word"@[2] != "right"@[0]); }
        if i == 3 { assert("select go to left word"@.subrange(i, i + 5)[0] == "select go to left word"@[3]); assert("select go to left word"@[3] != "right"@[0]); }
        if i == 4 { assert("select go to left word"@.subrange(i, i + 5)[0] == "select go to left word"@[4]); assert("select go to left word"@[4] != "right"@[0]); }
        if i == 5 { assert("select go to left word"@.subrange(i, i + 5)[0] == "select go to left word"@[5]); assert("select go to left word"@[5] != "right"@[0]); }
        if i == 6 { assert("select go to left word"@.subrange(i, i + 5)[0] == "select go to left word"@[6]); assert("select go to left word"@[6] != "right"@[0]); }
        if i == 7 { assert("select go to left word"@.subrange(i, i + 5)[0] == "select go to left word"@[7]); assert("select go to left word"@[7] != "right"@[0]); }
        if i == 8 { assert("select go to left word"@.subrange(i, i + 5)[0] == "select go to left word"@[8]); assert("select go to left word"@[8] != "right"@[0]); }
        if i == 9 { assert("select go to left word"@.subrange(i, i + 5)[0] == "select go to left word"@[9]); assert("select go to left word"@[9] != "right"@[0]); }
        if i == 10 { assert("select go to left word"@.subrange(i, i + 5)[0] == "select go to left word"@[10]); assert("select go to left word"@[10] != "right"@[0]); }
        if i == 11 { assert("select go to left word"@.subrange(i, i + 5)[0] == "select go to left word"@[11]); assert("select go to left word"@[11] != "right"@[0]); }
        if i == 12 { assert("select go to left word"@.subrange(i, i + 5)[0] == "select go to left word"@[12]); assert("select go to left word"@[12] != "right"@[0]); }
        if i == 13 { assert("select go to left word"@.subrange(i, i + 5)[0] == "select go to left word"@[13]); assert("select go to left word"@[13] != "right"@[0]); }
        if i == 14 { assert("select go to left word"@.subrange(i, i + 5)[0] == "select go to left word"@[14]); assert("select go to left word"@[14] != "right"@[0]); }
        if i == 15 { assert("select go to left word"@.subrange(i, i + 5)[0] == "select go to left word"@[15]); assert("select go to left word"@[15] != "right"@[0]); }
        if i == 16 { assert("select go to left word"@.subrange(i, i + 5)[0] == "select go to left word"@[16]); assert("select go to left word"@[16] != "right"@[0]); }
        if i == 17 { assert("select go to left word"@.subrange(i, i + 5)[0] == "select go to left word"@[17]); assert("select go to left word"@[17] != "right"@[0]); }
    }
}

proof fn lemma_nm_previous_word()
    ensures
        !mentions("previous word"@, "forward"@),
        !mentions("previous word"@, "next"@),
        !mentions("previous word"@, "right"@),
{
    reveal_strlit("previous word");
    reveal_strlit("forward");
    reveal_strlit("next");
    reveal_strlit("right");
    assert forall|i: int| 0 <= i && i + 7 <= "previous word"@.len() implies #[trigger] "previous word"@.subrange(i, i + 7) != "forward"@ by {
        if i == 0 { assert("previous word"@.subrange(i, i + 7)[0] == "previous word"@[0]); assert("previous word"@[0] != "forward"@[0]); }
        if i == 1 { assert("previous word"@.subrange(i, i + 7)[0] == "previous word"@[1]); assert("previous word"@[1] != "forward"@[0]); }
        if i == 2 { assert("previous word"@.subrange(i, i + 7)[0] == "previous word"@[2]); assert("previous word"@[2] != "forward"@[0]); }
        if i == 3 { assert("previous word"@.subrange(i, i + 7)[0] == "previous word"@[3]); assert("previous word"@[3] != "forward"@[0]); }
        if i == 4 { assert("previous word"@.subrange(i, i + 7)[0] == "previous word"@[4]); assert("previous word"@[4] != "forward"@[0]); }
        if i == 5 { assert("previous word"@.subrange(i, i + 7)[0] == "previous word"@[5]); assert("previous word"@[5] != "forward"@[0]); }
        if i == 6 { assert("previous word"@.subrange(i, i + 7)[0] == "previous word"@[6]); assert("previous word"@[6] != "forward"@[0]); }
    }
    assert forall|i: int| 0 <= i && i + 4 <= "previous word"@.len() implies #[trigger] "previous word"@.subrange(i, i + 4) != "next"@ by {
        if i == 0 { assert("previous word"@.subrange(i, i + 4)[0] == "previous word"@[0]); assert("previous word"@[0] != "next"@[0]); }
        if i == 1 { assert("previous word"@.subrange(i, i + 4)[0] == "previous word"@[1]); assert("previous word"@[1] != "next"@[0]); }
        if i == 2 { assert("previous word"@.subrange(i, i + 4)[0] == "previous word"@[2]); assert("previous word"@[2] != "next"@[0]); }
        if i == 3 { assert("previous word"@.subrange(i, i + 4)[0] == "previous word"@[3]); assert("previous word"@[3] != "next"@[0]); }
        if i == 4 { assert("previous word"@.subrange(i, i + 4)[0] == "previous word"@[4]); assert("previous word"@[4] != "next"@[0]); }
        if i == 5 { assert("previous word"@.subrange(i, i + 4)[0] == "previous word"@[5]); assert("previous word"@[5] != "next"@[0]); }
        if i == 6 { assert("previous word"@.subrange(i, i + 4)[0] == "previous word"@[6]); assert("previous word"@[6] != "next"@[0]); }
        if i == 7 { assert("previous word"@.subrange(i, i + 4)[0] == "previous word"@[7]); assert("previous word"@[7] != "next"@[0]); }
        if i == 8 { assert("previous word"@.subrange(i, i + 4)[0] == "previous word"@[8]); assert("previous word"@[8] != "next"@[0]); }
        if i == 9 { assert("previous word"@.subrange(i, i + 4)[0] == "previous word"@[9]); assert("previous word"@[9] != "next"@[0]); }
    }
    assert forall|i: int| 0 <= i && i + 5 <= "previous word"@.len() implies #[trigger] "previous word"@.subrange(i, i + 5) != "right"@ by {
        if i == 0 { assert("previous word"@.subrange(i, i + 5)[0] == "previous word"@[0]); assert("previous word"@[0] != "right"@[0]); }
        if i == 1 { assert("previous word"@.subrange(i, i + 5)[1] == "previous word"@[2]); assert("previous word"@[2] != "right"@[1]); }
        if i == 2 { assert("previous word"@.subrange(i, i + 5)[0] == "previous word"@[2]); assert("previous word"@[2] != "right"@[0]); }
        if i == 3 { assert("previous word"@.subrange(i, i + 5)[0] == "previous word"@[3]); assert("previous word"@[3] != "right"@[0]); }
        if i == 4 { assert("previous word"@.subrange(i, i + 5)[0] == "previous word"@[4]); assert("previous word"@[4] != "right"@[0]); }
        if i == 5 { assert("previous word"@.subrange(i, i + 5)[0] == "previous word"@[5]); assert("previous word"@[5] != "right"@[0]); }
        if i == 6 { assert("previous word"@.subrange(i, i + 5)[0] == "previous word"@[6]); assert("previous word"@[6] != "right"@[0]); }
        if i == 7 { assert("previous word"@.subrange(i, i + 5)[0] == "previous word"@[7]); assert("previous word"@[7] != "right"@[0]); }
        if i == 8 { assert("previous word"@.subrange(i, i + 5)[0] == "previous word"@[8]); assert("previous word"@[8] != "right"@[0]); }
    }
}

proof fn lemma_nm_move_previous_word()
    ensures
        !mentions("move previous word"@, "forward"@),
        !mentions("move previous word"@, "next"@),
        !mentions("move previous word"@, "right"@),
{
    reveal_strlit("move previous word");
    reveal_strlit("forward");
    reveal_strlit("next");
    reveal_strlit("right");
    assert forall|i: int| 0 <= i && i + 7 <= "move previous word"@.len() implies #[trigger] "move previous word"@.subrange(i, i + 7) != "forward"@ by {
        if i == 0 { assert("move previous word"@.subrange(i, i + 7)[0] == "move previous word"@[0]); assert("move previous word"@[0] != "forward"@[0]); }
        if i == 1 { assert("move previous word"@.subrange(i, i + 7)[0] == "move previous word"@[1]); assert("move previous word"@[1] != "forward"@[0]); }
        if i == 2 { assert("move previous word"@.subrange(i, i + 7)[0] == "move previous word"@[2]); assert("move previous word"@[2] != "forward"@[0]); }
        if i == 3 { assert("move previous word"@.subrange(i, i + 7)[0] == "move previous word"@[3]); assert("move previous word"@[3] != "forward"@[0]); }
        if i == 4 { assert("move previous word"@.subrange(i, i + 7)[0] == "move previous word"@[4]); assert("move previous word"@[4] != "forward"@[0]); }
        if i == 5 { assert("move previous word"@.subrange(i, i + 7)[0] == "move previous word"@[5]); assert("move previous word"@[5] != "forward"@[0]); }
        if i == 6 { assert("move previous word"@.subrange(i, i + 7)[0] == "move previous word"@[6]); assert("move previous word"@[6] != "forward"@[0]); }
        if i == 7 { assert("move previous word"@.subrange(i, i + 7)[0] == "move previous word"@[7]); assert("move previous word"@[7] != "forward"@[0]); }
        if i == 8 { assert("move previous word"@.subrange(i, i + 7)[0] == "move previous word"@[8]); assert("move previous word"@[8] != "forward"@[0]); }
        if i == 9 { assert("move previous word"@.subrange(i, i + 7)[0] == "move previous word"@[9]); assert("move previous word"@[9] != "forward"@[0]); }
        if i == 10 { assert("move previous word"@.subrange(i, i + 7)[0] == "move previous word"@[10]); assert("move previous word"@[10] != "forward"@[0]); }
        if i == 11 { assert("move previous word"@.subrange(i, i + 7)[0] == "move previous word"@[11]); assert("move previous word"@[11] != "forward"@[0]); }
    }
    assert forall|i: int| 0 <= i && i + 4 <= "move previous word"@.len() implies #[trigger] "move previous word"@.subrange(i, i + 4) != "next"@ by {
        if i == 0 { assert("move previous word"@.subrange(i, i + 4)[0] == "move previous word"@[0]); assert("move previous word"@[0] != "next"@[0]); }
        if i == 1 { assert("move previous word"@.subrange(i, i + 4)[0] == "move previous word"@[1]); assert("move previous word"@[1] != "next"@[0]); }
        if i == 2 { assert("move previous word"@.subrange(i, i + 4)[0] == "move previous word"@[2]); assert("move previous word"@[2] != "next"@[0]); }
        if i == 3 { assert("move previous word"@.subrange(i, i + 4)[0] == "move previous word"@[3]); assert("move previous word"@[3] != "next"@[0]); }
        if i == 4 { assert("move previous word"@.subrange(i, i + 4)[0] == "move previous word"@[4]); assert("move previous word"@[4] != "next"@[0]); }
        if i == 5 { assert("move previous word"@.subrange(i, i + 4)[0] == "move previous word"@[5]); assert("move previous word"@[5] != "next"@[0]); }
        if i == 6 { assert("move previous word"@.subrange(i, i + 4)[0] == "move previous word"@[6]); assert("move previous word"@[6] != "next"@[0]); }
        if i == 7 { assert("move previous word"@.subrange(i, i + 4)[0] == "move previous word"@[7]); assert("move previous word"@[7] != "next"@[0]); }
        if i == 8 { assert("move previous word"@.subrange(i, i + 4)[0] == "move previous word"@[8]); assert("move previous word"@[8] != "next"@[0]); }
        if i == 9 { assert("move previous word"@.subrange(i, i + 4)[0] == "move previous word"@[9]); assert("move previous word"@[9] != "next"@[0]); }
        if i == 10 { assert("move previous word"@.subrange(i, i + 4)[0] == "move previous word"@[10]); assert("move previous word"@[10] != "next"@[0]); }
        if i == 11 { assert("move previous word"@.subrange(i, i + 4)[0] == "move previous word"@[11]); assert("move previous word"@[11] != "next"@[0]); }
        if i == 12 { assert("move previous word"@.subrange(i, i + 4)[0] == "move previous word"@[12]); assert("move previous word"@[12] != "next"@[0]); }
        if i == 13 { assert("move previous word"@.subrange(i, i + 4)[0] == "move previous word"@[13]); assert("move previous word"@[13] != "next"@[0]); }
        if i == 14 { assert("move previous word"@.subrange(i, i + 4)[0] == "move previous word"@[14]); assert("move previous word"@[14] != "next"@[0]); }
    }
    assert forall|i: int| 0 <= i && i + 5 <= "move previous word"@.len() implies #[trigger] "move previous word"@.subrange(i, i + 5) != "right"@ by {
        if i == 0 { assert("move previous word"@.subrange(i, i + 5)[0] == "move previous word"@[0]); assert("move previous word"@[0] != "right"@[0]); }
        if i == 1 { assert("move previous word"@.subrange(i, i + 5)[0] == "move previous word"@[1]); assert("move previous word"@[1] != "right"@[0]); }
        if i == 2 { assert("move previous word"@.subrange(i, i + 5)[0] == "move previous word"@[2]); assert("move previous word"@[2] != "right"@[0]); }
        if i == 3 { assert("move previous word"@.subrange(i, i + 5)[0] == "move previous word"@[3]); assert("move previous word"@[3] != "right"@[0]); }
        if i == 4 { assert("move previous word"@.subrange(i, i + 5)[0] == "move previous word"@[4]); assert("move previous word"@[4] != "right"@[0]); }
        if i == 5 { assert("move previous word"@.subrange(i, i + 5)[0] == "move previous word"@[5]); assert("move previous word"@[5] != "right"@[0]); }
        if i == 6 { assert("move previous word"@.subrange(i, i + 5)[1] == "move previous word"@[7]); assert("move previous word"@[7] != "right"@[1]); }
        if i == 7 { assert("move previous word"@.subrange(i, i + 5)[0] == "move previous word"@[7]); assert("move previous word"@[7] != "right"@[0]); }
        if i == 8 { assert("move previous word"@.subrange(i, i + 5)[0] == "move previous word"@[8]); assert("move previous word"@[8] != "right"@[0]); }
        if i == 9 { assert("move previous word"@.subrange(i, i + 5)[0] == "move previous word"@[9]); assert("move previous word"@[9] != "right"@[0]); }
        if i == 10 { assert("move previous word"@.subrange(i, i + 5)[0] == "move previous word"@[10]); assert("move previous word"@[10] != "right"@[0]); }
        if i == 11 { assert("move previous word"@.subrange(i, i + 5)[0] == "move previous word"@[11]); assert("move previous word"@[11] != "right"@[0]); }
        if i == 12 { assert("move previous word"@.subrange(i, i + 5)[0] == "move previous word"@[12]); assert("move previous word"@[12] != "right"@[0]); }
        if i == 13 { assert("move previous word"@.subrange(i, i + 5)[0] == "move previous word"@[13]); assert("move previous word"@[13] != "right"@[0]); }
    }
}

proof fn lemma_nm_select_previous_word()
    ensures
        !mentions("select previous word"@, "forward"@),
        !mentions("select previous word"@, "next"@),
        !mentions("select previous word"@, "right"@),
{
    reveal_strlit("select previous word");
    reveal_strlit("forward");
    reveal_strlit("next");
    reveal_strlit("right");
    assert forall|i: int| 0 <= i && i + 7 <= "select previous word"@.len() implies #[trigger] "select previous word"@.subrange(i, i + 7) != "forward"@ by {
        if i == 0 { assert("select previous word"@.subrange(i, i + 7)[0] == "select previous word"@[0]); assert("select previous word"@[0] != "forward"@[0]); }
        if i == 1 { assert("select previous word"@.subrange(i, i + 7)[0] == "select previous word"@[1]); assert("select previous word"@[1] != "forward"@[0]); }
        if i == 2 { assert("select previous word"@.subrange(i, i + 7)[0] == "select previous word"@[2]); assert("select previous word"@[2] != "forward"@[0]); }
        if i == 3 { assert("select previous word"@.subrange(i, i + 7)[0] == "select previous word"@[3]); assert("select previous word"@[3] != "forward"@[0]); }
        if i == 4 { assert("select previous word"@.subrange(i, i + 7)[0] == "select previous word"@[4]); assert("select previous word"@[4] != "forward"@[0]); }
        if i == 5 { assert("select previous word"@.subrange(i, i + 7)[0] == "select previous word"@[5]); assert("select previous word"@[5] != "forward"@[0]); }
        if i == 6 { assert("select previous word"@.subrange(i, i + 7)[0] == "select previous word"@[6]); assert("select previous word"@[6] != "forward"@[0]); }
        if i == 7 { assert("select previous word"@.subrange(i, i + 7)[0] == "select previous word"@[7]); assert("select previous word"@[7] != "forward"@[0]); }
        if i == 8 { assert("select previous word"@.subrange(i, i + 7)[0] == "select previous word"@[8]); assert("select previous word"@[8] != "forward"@[0]); }
        if i == 9 { assert("select previous word"@.subrange(i, i + 7)[0] == "select previous word"@[9]); assert("select previous word"@[9] != "forward"@[0]); }
        if i == 10 { assert("select previous word"@.subrange(i, i + 7)[0] == "select previous word"@[10]); assert("select previous word"@[10] != "forward"@[0]); }
        if i == 11 { assert("select previous word"@.subrange(i, i + 7)[0] == "select previous word"@[11]); assert("select previous word"@[11] != "forward"@[0]); }
        if i == 12 { assert("select previous word"@.subrange(i, i + 7)[0] == "select previous word"@[12]); assert("select previous word"@[12] != "forward"@[0]); }
        if i == 13 { assert("select previous word"@.subrange(i, i + 7)[0] == "select previous word"@[13]); assert("select previous word"@[13] != "forward"@[0]); }
    }
    assert forall|i: int| 0 <= i && i + 4 <= "select previous word"@.len() implies #[trigger] "select previous word"@.subrange(i, i + 4) != "next"@ by {
        if i == 0 { assert("select previous word"@.subrange(i, i + 4)[0] == "select previous word"@[0]); assert("select previous word"@[0] != "next"@[0]); }
        if i == 1 { assert("select previous word"@.subrange(i, i + 4)[0] == "select previous word"@[1]); assert("select previous word"@[1] != "next"@[0]); }
        if i == 2 { assert("select previous word"@.subrange(i, i + 4)[0] == "select previous word"@[2]); assert("select previous word"@[2] != "next"@[0]); }
        if i == 3 { assert("select previous word"@.subrange(i, i + 4)[0] == "select previous word"@[3]); assert("select previous word"@[3] != "next"@[0]); }
        if i == 4 { assert("select previous word"@.subrange(i, i + 4)[0] == "select previous word"@[4]); assert("select previous word"@[4] != "next"@[0]); }
        if i == 5 { assert("select previous word"@.subrange(i, i + 4)[0] == "select previous word"@[5]); assert("select previous word"@[5] != "next"@[0]); }
        if i == 6 { assert("select previous word"@.subrange(i, i + 4)[0] == "select previous word"@[6]); assert("select previous word"@[6] != "next"@[0]); }
        if i == 7 { assert("select previous word"@.subrange(i, i + 4)[0] == "select previous word"@[7]); assert("select previous word"@[7] != "next"@[0]); }
        if i == 8 { assert("select previous word"@.subrange(i, i + 4)[0] == "select previous word"@[8]); assert("select previous word"@[8] != "next"@[0]); }
        if i == 9 { assert("select previous word"@.subrange(i, i + 4)[0] == "select previous word"@[9]); assert("select previous word"@[9] != "next"@[0]); }
        if i == 10 { assert("select previous word"@.subrange(i, i + 4)[0] == "select previous word"@[10]); assert("select previous word"@[10] != "next"@[0]); }
        if i == 11 { assert("select previous word"@.subrange(i, i + 4)[0] == "select previous word"@[11]); assert("select previous word"@[11] != "next"@[0]); }
        if i == 12 { assert("select previous word"@.subrange(i, i + 4)[0] == "select previous word"@[12]); assert("select previous word"@[12] != "next"@[0]); }
        if i == 13 { assert("select previous word"@.subrange(i, i + 4)[0] == "select previous word"@[13]); assert("select previous word"@[13] != "next"@[0]); }
        if i == 14 { assert("select previous word"@.subrange(i, i + 4)[0] == "select previous word"@[14]); assert("select previous word"@[14] != "next"@[0]); }
        if i == 15 { assert("select previous word"@.subrange(i, i + 4)[0] == "select previous word"@[15]); assert("select previous word"@[15] != "next"@[0]); }
        if i == 16 { assert("select previous word"@.subrange(i, i + 4)[0] == "select previous word"@[16]); assert("select previous word"@[16] != "next"@[0]); }
    }
    assert forall|i: int| 0 <= i && i + 5 <= "select previous word"@.len() implies #[trigger] "select previous word"@.subrange(i, i + 5) != "right"@ by {
        if i == 0 { assert("select previous word"@.subrange(i, i + 5)[0] == "select previous word"@[0]); assert("select previous word"@[0] != "right"@[0]); }
        if i == 1 { assert("select previous word"@.subrange(i, i + 5)[0] == "select previous word"@[1]); assert("select previous word"@[1] != "right"@[0]); }
        if i == 2 { assert("select previous word"@.subrange(i, i + 5)[0] == "select previous word"@[2]); assert("select previous word"@[2] != "right"@[0]); }
        if i == 3 { assert("select previous word"@.subrange(i, i + 5)[0] == "select previous word"@[3]); assert("select previous word"@[3] != "right"@[0]); }
        if i == 4 { assert("select previous word"@.subrange(i, i + 5)[0] == "select previous word"@[4]); assert("select previous word"@[4] != "right"@[0]); }
        if i == 5 { assert("select previous word"@.subrange(i, i + 5)[0] == "select previous word"@[5]); assert("select previous word"@[5] != "right"@[0]); }
        if i == 6 { assert("select previous word"@.subrange(i, i + 5)[0] == "select previous word"@[6]); assert("select previous word"@[6] != "right"@[0]); }
        if i == 7 { assert("select previous word"@.subrange(i, i + 5)[0] == "select previous word"@[7]); assert("select previous word"@[7] != "right"@[0]); }
        if i == 8 { assert("select previous word"@.subrange(i, i + 5)[1] == "select previous word"@[9]); assert("select previous word"@[9] != "right"@[1]); }
        if i == 9 { assert("select previous word"@.subrange(i, i + 5)[0] == "select previous word"@[9]); assert("select previous word"@[9] != "right"@[0]); }
        if i == 10 { assert("select previous word"@.subrange(i, i + 5)[0] == "select previous word"@[10]); assert("select previous word"@[10] != "right"@[0]); }
        if i == 11 { assert("select previous word"@.subrange(i, i + 5)[0] == "select previous word"@[11]); assert("select previous word"@[11] != "right"@[0]); }
        if i == 12 { assert("select previous word"@.subrange(i, i + 5)[0] == "select previous word"@[12]); assert("select previous word"@[12] != "right"@[0]); }
        if i == 13 { assert("select previous word"@.subrange(i, i + 5)[0] == "select previous word"@[13]); assert("select previous word"@[13] != "right"@[0]); }
        if i == 14 { assert("select previous word"@.subrange(i, i + 5)[0] == "select previous word"@[14]); assert("select previous word"@[14] != "right"@[0]); }
        if i == 15 { assert("select previous word"@.subrange(i, i + 5)[0] == "select previous word"@[15]); assert("select previous word"@[15] != "right"@[0]); }
    }
}

proof fn lemma_nm_go_to_previous_word()
    ensures
        !mentions("go to previous word"@, "forward"@),
        !mentions("go to previous word"@, "next"@),
        !mentions("go to previous word"@, "right"@),
{
    reveal_strlit("go to previous word");
    reveal_strlit("forward");
    reveal_strlit("next");
    reveal_strlit("right");
    assert forall|i: int| 0 <= i && i + 7 <= "go to previous word"@.len() implies #[trigger] "go to previous word"@.subrange(i, i + 7) != "forward"@ by {
        if i == 0 { assert("go to previous word"@.subrange(i, i + 7)[0] == "go to previous word"@[0]); assert("go to previous word"@[0] != "forward"@[0]); }
        if i == 1 { assert("go to previous word"@.subrange(i, i + 7)[0] == "go to previous word"@[1]); assert("go to previous word"@[1] != "forward"@[0]); }
        if i == 2 { assert("go to previous word"@.subrange(i, i + 7)[0] == "go to previous word"@[2]); assert("go to previous word"@[2] != "forward"@[0]); }
        if i == 3 { assert("go to previous word"@.subrange(i, i + 7)[0] == "go to previous word"@[3]); assert("go to previous word"@[3] != "forward"@[0]); }
        if i == 4 { assert("go to previous word"@.subrange(i, i + 7)[0] == "go to previous word"@[4]); assert("go to previous word"@[4] != "forward"@[0]); }
        if i == 5 { assert("go to previous word"@.subrange(i, i + 7)[0] == "go to previous word"@[5]); assert("go to previous word"@[5] != "forward"@[0]); }
        if i == 6 { assert("go to previous word"@.subrange(i, i + 7)[0] == "go to previous word"@[6]); assert("go to previous word"@[6] != "forward"@[0]); }
        if i == 7 { assert("go to previous word"@.subrange(i, i + 7)[0] == "go to previous word"@[7]); assert("go to previous word"@[7] != "forward"@[0]); }
        if i == 8 { assert("go to previous word"@.subrange(i, i + 7)[0] == "go to previous word"@[8]); assert("go to previous word"@[8] != "forward"@[0]); }
        if i == 9 { assert("go to previous word"@.subrange(i, i + 7)[0] == "go to previous word"@[9]); assert("go to previous word"@[9] != "forward"@[0]); }
        if i == 10 { assert("go to previous word"@.subrange(i, i + 7)[0] == "go to previous word"@[10]); assert("go to previous word"@[10] != "forward"@[0]); }
        if i == 11 { assert("go to previous word"@.subrange(i, i + 7)[0] == "go to previous word"@[11]); assert("go to previous word"@[11] != "forward"@[0]); }
        if i == 12 { assert("go to previous word"@.subrange(i, i + 7)[0] == "go to previous word"@[12]); assert("go to previous word"@[12] != "forward"@[0]); }
    }
    assert forall|i: int| 0 <= i && i + 4 <= "go to previous word"@.len() implies #[trigger] "go to previous word"@.subrange(i, i + 4) != "next"@ by {
        if i == 0 { assert("go to previous word"@.subrange(i, i + 4)[0] == "go to previous word"@[0]); assert("go to previous word"@[0] != "next"@[0]); }
        if i == 1 { assert("go to previous word"@.subrange(i, i + 4)[0] == "go to previous word"@[1]); assert("go to previous word"@[1] != "next"@[0]); }
        if i == 2 { assert("go to previous word"@.subrange(i, i + 4)[0] == "go to previous word"@[2]); assert("go to previous word"@[2] != "next"@[0]); }
        if i == 3 { assert("go to previous word"@.subrange(i, i + 4)[0] == "go to previous word"@[3]); assert("go to previous word"@[3] != "next"@[0]); }
        if i == 4 { assert("go to previous word"@.subrange(i, i + 4)[0] == "go to previous word"@[4]); assert("go to previous word"@[4] != "next"@[0]); }
        if i == 5 { assert("go to previous word"@.subrange(i, i + 4)[0] == "go to previous word"@[5]); assert("go to previous word"@[5] != "next"@[0]); }
        if i == 6 { assert("go to previous word"@.subrange(i, i + 4)[0] == "go to previous word"@[6]); assert("go to previous word"@[6] != "next"@[0]); }
        if i == 7 { assert("go to previous word"@.subrange(i, i + 4)[0] == "go to previous word"@[7]); assert("go to previous word"@[7] != "next"@[0]); }
        if i == 8 { assert("go to previous word"@.subrange(i, i + 4)[0] == "go to previous word"@[8]); assert("go to previous word"@[8] != "next"@[0]); }
        if i == 9 { assert("go to previous word"@.subrange(i, i + 4)[0] == "go to previous word"@[9]); assert("go to previous word"@[9] != "next"@[0]); }
        if i == 10 { assert("go to previous word"@.subrange(i, i + 4)[0] == "go to previous word"@[10]); assert("go to previous word"@[10] != "next"@[0]); }
        if i == 11 { assert("go to previous word"@.subrange(i, i + 4)[0] == "go to previous word"@[11]); assert("go to previous word"@[11] != "next"@[0]); }
        if i == 12 { assert("go to previous word"@.subrange(i, i + 4)[0] == "go to previous word"@[12]); assert("go to previous word"@[12] != "next"@[0]); }
        if i == 13 { assert("go to previous word"@.subrange(i, i + 4)[0] == "go to previous word"@[13]); assert("go to previous word"@[13] != "next"@[0]); }
        if i == 14 { assert("go to previous word"@.subrange(i, i + 4)[0] == "go to previous word"@[14]); assert("go to previous word"@[14] != "next"@[0]); }
        if i == 15 { assert("go to previous word"@.subrange(i, i + 4)[0] == "go to previous word"@[15]); assert("go to previous word"@[15] != "next"@[0]); }
    }
    assert forall|i: int| 0 <= i && i + 5 <= "go to previous word"@.len() implies #[trigger] "go to previous word"@.subrange(i, i + 5) != "right"@ by {
        if i == 0 { assert("go to previous word"@.subrange(i, i + 5)[0] == "go to previous word"@[0]); assert("go to previous word"@[0] != "right"@[0]); }
        if i == 1 { assert("go to previous word"@.subrange(i, i + 5)[0] == "go to previous word"@[1]); assert("go to previous word"@[1] != "right"@[0]); }
        if i == 2 { assert("go to previous word"@.subrange(i, i + 5)[0] == "go to previous word"@[2]); assert("go to previous word"@[2] != "right"@[0]); }
        if i == 3 { assert("go to previous word"@.subrange(i, i + 5)[0] == "go to previous word"@[3]); assert("go to previous word"@[3] != "right"@[0]); }
        if i == 4 { assert("go to previous word"@.subrange(i, i + 5)[0] == "go to previous word"@[4]); assert("go to previous word"@[4] != "right"@[0]); }
        if i == 5 { assert("go to previous word"@.subrange(i, i + 5)[0] == "go to previous word"@[5]); assert("go to previous word"@[5] != "right"@[0]); }
        if i == 6 { assert("go to previous word"@.subrange(i, i + 5)[0] == "go to previous word"@[6]); assert("go to previous word"@[6] != "right"@[0]); }
        if i == 7 { assert("go to previous word"@.subrange(i, i + 5)[1] == "go to previous word"@[8]); assert("go to previous word"@[8] != "right"@[1]); }
        if i == 8 { assert("go to previous word"@.subrange(i, i + 5)[0] == "go to previous word"@[8]); assert("go to previous word"@[8] != "right"@[0]); }
        if i == 9 { assert("go to previous word"@.subrange(i, i + 5)[0] == "go to previous word"@[9]); assert("go to previous word"@[9] != "right"@[0]); }
        if i == 10 { assert("go to previous word"@.subrange(i, i + 5)[0] == "go to previous word"@[10]); assert("go to previous word"@[10] != "right"@[0]); }
        if i == 11 { assert("go to previous word"@.subrange(i, i + 5)[0] == "go to previous word"@[11]); assert("go to previous word"@[11] != "right"@[0]); }
        if i == 12 { assert("go to previous word"@.subrange(i, i + 5)[0] == "go to previous word"@[12]); assert("go to previous word"@[12] != "right"@[0]); }
        if i == 13 { assert("go to previous word"@.subrange(i, i + 5)[0] == "go to previous word"@[13]); assert("go to previous word"@[13] != "right"@[0]); }
        if i == 14 { assert("go to previous word"@.subrange(i, i + 5)[0] == "go to previous word"@[14]); assert("go to previous word"@[14] != "right"@[0]); }
    }
}

proof fn lemma_nm_move_go_to_previous_word()
    ensures
        !mentions("move go to previous word"@, "forward"@),
        !mentions("move go to previous word"@, "next"@),
        !mentions("move go to previous word"@, "right"@),
{
    reveal_strlit("move go to previous word");
    reveal_strlit("forward");
    reveal_strlit("next");
    reveal_strlit("right");
    assert forall|i: int| 0 <= i && i + 7 <= "move go to previous word"@.len() implies #[trigger] "move go to previous word"@.subrange(i, i + 7) != "forward"@ by {
        if i == 0 { assert("move go to previous word"@.subrange(i, i + 7)[0] == "move go to previous word"@[0]); assert("move go to previous word"@[0] != "forward"@[0]); }
        if i == 1 { assert("move go to previous word"@.subrange(i, i + 7)[0] == "move go to previous word"@[1]); assert("move go to previous word"@[1] != "forward"@[0]); }
        if i == 2 { assert("move go to previous word"@.subrange(i, i + 7)[0] == "move go to previous word"@[2]); assert("move go to previous word"@[2] != "forward"@[0]); }
        if i == 3 { assert("move go to previous word"@.subrange(i, i + 7)[0] == "move go to previous word"@[3]); assert("move go to previous word"@[3] != "forward"@[0]); }
        if i == 4 { assert("move go to previous word"@.subrange(i, i + 7)[0] == "move go to previous word"@[4]); assert("move go to previous word"@[4] != "forward"@[0]); }
        if i == 5 { assert("move go to previous word"@.subrange(i, i + 7)[0] == "move go to previous word"@[5]); assert("move go to previous word"@[5] != "forward"@[0]); }
        if i == 6 { assert("move go to previous word"@.subrange(i, i + 7)[0] == "move go to previous word"@[6]); assert("move go to previous word"@[6] != "forward"@[0]); }
        if i == 7 { assert("move go to previous word"@.subrange(i, i + 7)[0] == "move go to previous word"@[7]); assert("move go to previous word"@[7] != "forward"@[0]); }
        if i == 8 { assert("move go to previous word"@.subrange(i, i + 7)[0] == "move go to previous word"@[8]); assert("move go to previous word"@[8] != "forward"@[0]); }
        if i == 9 { assert("move go to previous word"@.subrange(i, i + 7)[0] == "move go to previous word"@[9]); assert("move go to previous word"@[9] != "forward"@[0]); }
        if i == 10 { assert("move go to previous word"@.subrange(i, i + 7)[0] == "move go to previous word"@[10]); assert("move go to previous word"@[10] != "forward"@[0]); }
        if i == 11 { assert("move go to previous word"@.subrange(i, i + 7)[0] == "move go to previous word"@[11]); assert("move go to previous word"@[11] != "forward"@[0]); }
        if i == 12 { assert("move go to previous word"@.subrange(i, i + 7)[0] == "move go to previous word"@[12]); assert("move go to previous word"@[12] != "forward"@[0]); }
        if i == 13 { assert("move go to previous word"@.subrange(i, i + 7)[0] == "move go to previous word"@[13]); assert("move go to previous word"@[13] != "forward"@[0]); }
        if i == 14 { assert("move go to previous word"@.subrange(i, i + 7)[0] == "move go to previous word"@[14]); assert("move go to previous word"@[14] != "forward"@[0]); }
        if i == 15 { assert("move go to previous word"@.subrange(i, i + 7)[0] == "move go to previous word"@[15]); assert("move go to previous word"@[15] != "forward"@[0]); }
        if i == 16 { assert("move go to previous word"@.subrange(i, i + 7)[0] == "move go to previous word"@[16]); assert("move go to previous word"@[16] != "forward"@[0]); }
        if i == 17 { assert("move go to previous word"@.subrange(i, i + 7)[0] == "move go to previous word"@[17]); assert("move go to previous word"@[17] != "forward"@[0]); }
    }
    assert forall|i: int| 0 <= i && i + 4 <= "move go to previous word"@.len() implies #[trigger] "move go to previous word"@.subrange(i, i + 4) != "next"@ by {
        if i == 0 { assert("move go to previous word"@.subrange(i, i + 4)[0] == "move go to previous word"@[0]); assert("move go to previous word"@[0] != "next"@[0]); }
        if i == 1 { assert("move go to previous word"@.subrange(i, i + 4)[0] == "move go to previous word"@[1]); assert("move go to previous word"@[1] != "next"@[0]); }
        if i == 2 { assert("move go to previous word"@.subrange(i, i + 4)[0] == "move go to previous word"@[2]); assert("move go to previous word"@[2] != "next"@[0]); }
        if i == 3 { assert("move go to previous word"@.subrange(i, i + 4)[0] == "move go to previous word"@[3]); assert("move go to previous word"@[3] != "next"@[0]); }
        if i == 4 { assert("move go to previous word"@.subrange(i, i + 4)[0] == "move go to previous word"@[4]); assert("move go to previous word"@[4] != "next"@[0]); }
        if i == 5 { assert("move go to previous word"@.subrange(i, i + 4)[0] == "move go to previous word"@[5]); assert("move go to previous word"@[5] != "next"@[0]); }
        if i == 6 { assert("move go to previous word"@.subrange(i, i + 4)[0] == "move go to previous word"@[6]); assert("move go to previous word"@[6] != "next"@[0]); }
        if i == 7 { assert("move go to previous word"@.subrange(i, i + 4)[0] == "move go to previous word"@[7]); assert("move go to previous word"@[7] != "next"@[0]); }
        if i == 8 { assert("move go to previous word"@.subrange(i, i + 4)[0] == "move go to previous word"@[8]); assert("move go to previous word"@[8] != "next"@[0]); }
        if i == 9 { assert("move go to previous word"@.subrange(i, i + 4)[0] == "move go to previous word"@[9]); assert("move go to previous word"@[9] != "next"@[0]); }
        if i == 10 { assert("move go to previous word"@.subrange(i, i + 4)[0] == "move go to previous word"@[10]); assert("move go to previous word"@[10] != "next"@[0]); }
        if i == 11 { assert("move go to previous word"@.subrange(i, i + 4)[0] == "move go to previous word"@[11]); assert("move go to previous word"@[11] != "next"@[0]); }
        if i == 12 { assert("move go to previous word"@.subrange(i, i + 4)[0] == "move go to previous word"@[12]); assert("move go to previous word"@[12] != "next"@[0]); }
        if i == 13 { assert("move go to previous word"@.subrange(i, i + 4)[0] == "move go to previous word"@[13]); assert("move go to previous word"@[13] != "next"@[0]); }
        if i == 14 { assert("move go to previous word"@.subrange(i, i + 4)[0] == "move go to previous word"@[14]); assert("move go to previous word"@[14] != "next"@[0]); }
        if i == 15 { assert("move go to previous word"@.subrange(i, i + 4)[0] == "move go to previous word"@[15]); assert("move go to previous word"@[15] != "next"@[0]); }
        if i == 16 { assert("move go to previous word"@.subrange(i, i + 4)[0] == "move go to previous word"@[16]); assert("move go to previous word"@[16] != "next"@[0]); }
        if i == 17 { assert("move go to previous word"@.subrange(i, i + 4)[0] == "move go to previous word"@[17]); assert("move go to previous word"@[17] != "next"@[0]); }
        if i == 18 { assert("move go to previous word"@.subrange(i, i + 4)[0] == "move go to previous word"@[18]); assert("move go to previous word"@[18] != "next"@[0]); }
        if i == 19 { assert("move go to previous word"@.subrange(i, i + 4)[0] == "move go to previous word"@[19]); assert("move go to previous word"@[19] != "next"@[0]); }
        if i == 20 { assert("move go to previous word"@.subrange(i, i + 4)[0] == "move go to previous word"@[20]); assert("move go to previous word"@[20] != "next"@[0]); }
    }
    assert forall|i: int| 0 <= i && i + 5 <= "move go to previous word"@.len() implies #[trigger] "move go to previous word"@.subrange(i, i + 5) != "right"@ by {
        if i == 0 { assert("move go to previous word"@.subrange(i, i + 5)[0] == "move go to previous word"@[0]); assert("move go to previous word"@[0] != "right"@[0]); }
        if i == 1 { assert("move go to previous word"@.subrange(i, i + 5)[0] == "move go to previous word"@[1]); assert("move go to previous word"@[1] != "right"@[0]); }
        if i == 2 { assert("move go to previous word"@.subrange(i, i + 5)[0] == "move go to previous word"@[2]); assert("move go to previous word"@[2] != "right"@[0]); }
        if i == 3 { assert("move go to previous word"@.subrange(i, i + 5)[0] == "move go to previous word"@[3]); assert("move go to previous word"@[3] != "right"@[0]); }
        if i == 4 { assert("move go to previous word"@.subrange(i, i + 5)[0] == "move go to previous word"@[4]); assert("move go to previous word"@[4] != "right"@[0]); }
        if i == 5 { assert("move go to previous word"@.subrange(i, i + 5)[0] == "move go to previous word"@[5]); assert("move go to previous word"@[5] != "right"@[0]); }
        if i == 6 { assert("move go to previous word"@.subrange(i, i + 5)[0] == "move go to previous word"@[6]); assert("move go to previous word"@[6] != "right"@[0]); }
        if i == 7 { assert("move go to previous word"@.subrange(i, i + 5)[0] == "move go to previous word"@[7]); assert("move go to previous word"@[7] != "right"@[0]); }
        if i == 8 { assert("move go to previous word"@.subrange(i, i + 5)[0] == "move go to previous word"@[8]); assert("move go to previous word"@[8] != "right"@[0]); }
        if i == 9 { assert("move go to previous word"@.subrange(i, i + 5)[0] == "move go to previous word"@[9]); assert("move go to previous word"@[9] != "right"@[0]); }
        if i == 10 { assert("move go to previous word"@.subrange(i, i + 5)[0] == "move go to previous word"@[10]); assert("move go to previous word"@[10] != "right"@[0]); }
        if i == 11 { assert("move go to previous word"@.subrange(i, i + 5)[0] == "move go to previous word"@[11]); assert("move go to previous word"@[11] != "right"@[0]); }
        if i == 12 { assert("move go to previous word"@.subrange(i, i + 5)[1] == "move go to previous word"@[13]); assert("move go to previous word"@[13] != "right"@[1]); }
        if i == 13 { assert("move go to previous word"@.subrange(i, i + 5)[0] == "move go to previous word"@[13]); assert("move go to previous word"@[13] != "right"@[0]); }
        if i == 14 { assert("move go to previous word"@.subrange(i, i + 5)[0] == "move go to previous word"@[14]); assert("move go to previous word"@[14] != "right"@[0]); }
        if i == 15 { assert("move go to previous word"@.subrange(i, i + 5)[0] == "move go to previous word"@[15]); assert("move go to previous word"@[15] != "right"@[0]); }
        if i == 16 { assert("move go to previous word"@.subrange(i, i + 5)[0] == "move go to previous word"@[16]); assert("move go to previous word"@[16] != "right"@[0]); }
        if i == 17 { assert("move go to previous word"@.subrange(i, i + 5)[0] == "move go to previous word"@[17]); assert("move go to previous word"@[17] != "right"@[0]); }
        if i == 18 { assert("move go to previous word"@.subrange(i, i + 5)[0] == "move go to previous word"@[18]); assert("move go to previous word"@[18] != "right"@[0]); }
        if i == 19 { assert("move go to previous word"@.subrange(i, i + 5)[0] == "move go to previous word"@[19]); assert("move go to previous word"@[19] != "right"@[0]); }
    }
}

proof fn lemma_nm_select_go_to_previous_word()
    ensures
        !mentions("select go to previous word"@, "forward"@),
        !mentions("select go to previous word"@, "next"@),
        !mentions("select go to previous word"@, "right"@),
{
    reveal_strlit("select go to previous word");
    reveal_strlit("forward");
    reveal_strlit("next");
    reveal_strlit("right");
    assert forall|i: int| 0 <= i && i + 7 <= "select go to previous word"@.len() implies #[trigger] "select go to previous word"@.subrange(i, i + 7) != "forward"@ by {
        if i == 0 { assert("select go to previous word"@.subrange(i, i + 7)[0] == "select go to previous word"@[0]); assert("select go to previous word"@[0] != "forward"@[0]); }
        if i == 1 { assert("select go to previous word"@.subrange(i, i + 7)[0] == "select go to previous word"@[1]); assert("select go to previous word"@[1] != "forward"@[0]); }
        if i == 2 { assert("select go to previous word"@.subrange(i, i + 7)[0] == "select go to previous word"@[2]); assert("select go to previous word"@[2] != "forward"@[0]); }
        if i == 3 { assert("select go to previous word"@.subrange(i, i + 7)[0] == "select go to previous word"@[3]); assert("select go to previous word"@[3] != "forward"@[0]); }
        if i == 4 { assert("select go to previous word"@.subrange(i, i + 7)[0] == "select go to previous word"@[4]); assert("select go to previous word"@[4] != "forward"@[0]); }
        if i == 5 { assert("select go to previous word"@.subrange(i, i + 7)[0] == "select go to previous word"@[5]); assert("select go to previous word"@[5] != "forward"@[0]); }
        if i == 6 { assert("select go to previous word"@.subrange(i, i + 7)[0] == "select go to previous word"@[6]); assert("select go to previous word"@[6] != "forward"@[0]); }
        if i == 7 { assert("select go to previous word"@.subrange(i, i + 7)[0] == "select go to previous word"@[7]); assert("select go to previous word"@[7] != "forward"@[0]); }
        if i == 8 { assert("select go to previous word"@.subrange(i, i + 7)[0] == "select go to previous word"@[8]); assert("select go to previous word"@[8] != "forward"@[0]); }
        if i == 9 { assert("select go to previous word"@.subrange(i, i + 7)[0] == "select go to previous word"@[9]); assert("select go to previous word"@[9] != "forward"@[0]); }
        if i == 10 { assert("select go to previous word"@.subrange(i, i + 7)[0] == "select go to previous word"@[10]); assert("select go to previous word"@[10] != "forward"@[0]); }
        if i == 11 { assert("select go to previous word"@.subrange(i, i + 7)[0] == "select go to previous word"@[11]); assert("select go to previous word"@[11] != "forward"@[0]); }
        if i == 12 { assert("select go to previous word"@.subrange(i, i + 7)[0] == "select go to previous word"@[12]); assert("select go to previous word"@[12] != "forward"@[0]); }
        if i == 13 { assert("select go to previous word"@.subrange(i, i + 7)[0] == "select go to previous word"@[13]); assert("select go to previous word"@[13] != "forward"@[0]); }
        if i == 14 { assert("select go to previous word"@.subrange(i, i + 7)[0] == "select go to previous word"@[14]); assert("select go to previous word"@[14] != "forward"@[0]); }
        if i == 15 { assert("select go to previous word"@.subrange(i, i + 7)[0] == "select go to previous word"@[15]); assert("select go to previous word"@[15] != "forward"@[0]); }
        if i == 16 { assert("select go to previous word"@.subrange(i, i + 7)[0] == "select go to previous word"@[16]); assert("select go to previous word"@[16] != "forward"@[0]); }
        if i == 17 { assert("select go to previous word"@.subrange(i, i + 7)[0] == "select go to previous word"@[17]); assert("select go to previous word"@[17] != "forward"@[0]); }
        if i == 18 { assert("select go to previous word"@.subrange(i, i + 7)[0] == "select go to previous word"@[18]); assert("select go to previous word"@[18] != "forward"@[0]); }
        if i == 19 { assert("select go to previous word"@.subrange(i, i + 7)[0] == "select go to previous word"@[19]); assert("select go to previous word"@[19] != "forward"@[0]); }
    }
    assert forall|i: int| 0 <= i && i + 4 <= "select go to previous word"@.len() implies #[trigger] "select go to previous word"@.subrange(i, i + 4) != "next"@ by {
        if i == 0 { assert("select go to previous word"@.subrange(i, i + 4)[0] == "select go to previous word"@[0]); assert("select go to previous word"@[0] != "next"@[0]); }
        if i == 1 { assert("select go to previous word"@.subrange(i, i + 4)[0] == "select go to previous word"@[1]); assert("select go to previous word"@[1] != "next"@[0]); }
        if i == 2 { assert("select go to previous word"@.subrange(i, i + 4)[0] == "select go to previous word"@[2]); assert("select go to previous word"@[2] != "next"@[0]); }
        if i == 3 { assert("select go to previous word"@.subrange(i, i + 4)[0] == "select go to previous word"@[3]); assert("select go to previous word"@[3] != "next"@[0]); }
        if i == 4 { assert("select go to previous word"@.subrange(i, i + 4)[0] == "select go to previous word"@[4]); assert("select go to previous word"@[4] != "next"@[0]); }
        if i == 5 { assert("select go to previous word"@.subrange(i, i + 4)[0] == "select go to previous word"@[5]); assert("select go to previous word"@[5] != "next"@[0]); }
        if i == 6 { assert("select go to previous word"@.subrange(i, i + 4)[0] == "select go to previous word"@[6]); assert("select go to previous word"@[6] != "next"@[0]); }
        if i == 7 { assert("select go to previous word"@.subrange(i, i + 4)[0] == "select go to previous word"@[7]); assert("select go to previous word"@[7] != "next"@[0]); }
        if i == 8 { assert("select go to previous word"@.subrange(i, i + 4)[0] == "select go to previous word"@[8]); assert("select go to previous word"@[8] != "next"@[0]); }
        if i == 9 { assert("select go to previous word"@.subrange(i, i + 4)[0] == "select go to previous word"@[9]); assert("select go to previous word"@[9] != "next"@[0]); }
        if i == 10 { assert("select go to previous word"@.subrange(i, i + 4)[0] == "select go to previous word"@[10]); assert("select go to previous word"@[10] != "next"@[0]); }
        if i == 11 { assert("select go to previous word"@.subrange(i, i + 4)[0] == "select go to previous word"@[11]); assert("select go to previous word"@[11] != "next"@[0]); }
        if i == 12 { assert("select go to previous word"@.subrange(i, i + 4)[0] == "select go to previous word"@[12]); assert("select go to previous word"@[12] != "next"@[0]); }
        if i == 13 { assert("select go to previous word"@.subrange(i, i + 4)[0] == "select go to previous word"@[13]); assert("select go to previous word"@[13] != "next"@[0]); }
        if i == 14 { assert("select go to previous word"@.subrange(i, i + 4)[0] == "select go to previous word"@[14]); assert("select go to previous word"@[14] != "next"@[0]); }
        if i == 15 { assert("select go to previous word"@.subrange(i, i + 4)[0] == "select go to previous word"@[15]); assert("select go to previous word"@[15] != "next"@[0]); }
        if i == 16 { assert("select go to previous word"@.subrange(i, i + 4)[0] == "select go to previous word"@[16]); assert("select go to previous word"@[16] != "next"@[0]); }
        if i == 17 { assert("select go to previous word"@.subrange(i, i + 4)[0] == "select go to previous word"@[17]); assert("select go to previous word"@[17] != "next"@[0]); }
        if i == 18 { assert("select go to previous word"@.subrange(i, i + 4)[0] == "select go to previous word"@[18]); assert("select go to previous word"@[18] != "next"@[0]); }
        if i == 19 { assert("select go to previous word"@.subrange(i, i + 4)[0] == "select go to previous word"@[19]); assert("select go to previous word"@[19] != "next"@[0]); }
        if i == 20 { assert("select go to previous word"@.subrange(i, i + 4)[0] == "select go to previous word"@[20]); assert("select go to previous word"@[20] != "next"@[0]); }
        if i == 21 { assert("select go to previous word"@.subrange(i, i + 4)[0] == "select go to previous word"@[21]); assert("select go to previous word"@[21] != "next"@[0]); }
        if i == 22 { assert("select go to previous word"@.subrange(i, i + 4)[0] == "select go to previous word"@[22]); assert("select go to previous word"@[22] != "next"@[0]); }
    }
    assert forall|i: int| 0 <= i && i + 5 <= "select go to previous word"@.len() implies #[trigger] "select go to previous word"@.subrange(i, i + 5) != "right"@ by {
        if i == 0 { assert("select go to previous word"@.subrange(i, i + 5)[0] == "select go to previous word"@[0]); assert("select go to previous word"@[0] != "right"@[0]); }
        if i == 1 { assert("select go to previous word"@.subrange(i, i + 5)[0] == "select go to previous word"@[1]); assert("select go to previous word"@[1] != "right"@[0]); }
        if i == 2 { assert("select go to previous word"@.subrange(i, i + 5)[0] == "select go to previous word"@[2]); assert("select go to previous word"@[2] != "right"@[0]); }
        if i == 3 { assert("select go to previous word"@.subrange(i, i + 5)[0] == "select go to previous word"@[3]); assert("select go to previous word"@[3] != "right"@[0]); }
        if i == 4 { assert("select go to previous word"@.subrange(i, i + 5)[0] == "select go to previous word"@[4]); assert("select go to previous word"@[4] != "right"@[0]); }
        if i == 5 { assert("select go to previous word"@.subrange(i, i + 5)[0] == "select go to previous word"@[5]); assert("select go to previous word"@[5] != "right"@[0]); }
        if i == 6 { assert("select go to previous word"@.subrange(i, i + 5)[0] == "select go to previous word"@[6]); assert("select go to previous word"@[6] != "right"@[0]); }
        if i == 7 { assert("select go to previous word"@.subrange(i, i + 5)[0] == "select go to previous word"@[7]); assert("select go to previous word"@[7] != "right"@[0]); }
        if i == 8 { assert("select go to previous word"@.subrange(i, i + 5)[0] == "select go to previous word"@[8]); assert("select go to previous word"@[8] != "right"@[0]); }
        if i == 9 { assert("select go to previous word"@.subrange(i, i + 5)[0] == "select go to previous word"@[9]); assert("select go to previous word"@[9] != "right"@[0]); }
        if i == 10 { assert("select go to previous word"@.subrange(i, i + 5)[0] == "select go to previous word"@[10]); assert("select go to previous word"@[10] != "right"@[0]); }
        if i == 11 { assert("select go to previous word"@.subrange(i, i + 5)[0] == "select go to previous word"@[11]); assert("select go to previous word"@[11] != "right"@[0]); }
        if i == 12 { assert("select go to previous word"@.subrange(i, i + 5)[0] == "select go to previous word"@[12]); assert("select go to previous word"@[12] != "right"@[0]); }
        if i == 13 { assert("select go to previous word"@.subrange(i, i + 5)[0] == "select go to previous word"@[13]); assert("select go to previous word"@[13] != "right"@[0]); }
        if i == 14 { assert("select go to previous word"@.subrange(i, i + 5)[1] == "select go to previous word"@[15]); assert("select go to previous word"@[15] != "right"@[1]); }
        if i == 15 { assert("select go to previous word"@.subrange(i, i + 5)[0] == "select go to previous word"@[15]); assert("select go to previous word"@[15] != "right"@[0]); }
        if i == 16 { assert("select go to previous word"@.subrange(i, i + 5)[0] == "select go to previous word"@[16]); assert("select go to previous word"@[16] != "right"@[0]); }
        if i == 17 { assert("select go to previous word"@.subrange(i, i + 5)[0] == "select go to previous word"@[17]); assert("select go to previous word"@[17] != "right"@[0]); }
        if i == 18 { assert("select go to previous word"@.subrange(i, i + 5)[0] == "select go to previous word"@[18]); assert("select go to previous word"@[18] != "right"@[0]); }
        if i == 19 { assert("select go to previous word"@.subrange(i, i + 5)[0] == "select go to previous word"@[19]); assert("select go to previous word"@[19] != "right"@[0]); }
        if i == 20 { assert("select go to previous word"@.subrange(i, i + 5)[0] == "select go to previous word"@[20]); assert("select go to previous word"@[20] != "right"@[0]); }
        if i == 21 { assert("select go to previous word"@.subrange(i, i + 5)[0] == "select go to previous word"@[21]); assert("select go to previous word"@[21] != "right"@[0]); }
    }
}

proof fn lemma_nm_back_word()
    ensures
        !mentions("back word"@, "forward"@),
        !mentions("back word"@, "next"@),
        !mentions("back word"@, "right"@),
{
    reveal_strlit("back word");
    reveal_strlit("forward");
    reveal_strlit("next");
    reveal_strlit("right");
    assert forall|i: int| 0 <= i && i + 7 <= "back word"@.len() implies #[trigger] "back word"@.subrange(i, i + 7) != "forward"@ by {
        if i == 0 { assert("back word"@.subrange(i, i + 7)[0] == "back word"@[0]); assert("back word"@[0] != "forward"@[0]); }
        if i == 1 { assert("back word"@.subrange(i, i + 7)[0] == "back word"@[1]); assert("back word"@[1] != "forward"@[0]); }
        if i == 2 { assert("back word"@.subrange(i, i + 7)[0] == "back word"@[2]); assert("back word"@[2] != "forward"@[0]); }
    }
    assert forall|i: int| 0 <= i && i + 4 <= "back word"@.len() implies #[trigger] "back word"@.subrange(i, i + 4) != "next"@ by {
        if i == 0 { assert("back word"@.subrange(i, i + 4)[0] == "back word"@[0]); assert("back word"@[0] != "next"@[0]); }
        if i == 1 { assert("back word"@.subrange(i, i + 4)[0] == "back word"@[1]); assert("back word"@[1] != "next"@[0]); }
        if i == 2 { assert("back word"@.subrange(i, i + 4)[0] == "back word"@[2]); assert("back word"@[2] != "next"@[0]); }
        if i == 3 { assert("back word"@.subrange(i, i + 4)[0] == "back word"@[3]); assert("back word"@[3] != "next"@[0]); }
        if i == 4 { assert("back word"@.subrange(i, i + 4)[0] == "back word"@[4]); assert("back word"@[4] != "next"@[0]); }
        if i == 5 { assert("back word"@.subrange(i, i + 4)[0] == "back word"@[5]); assert("back word"@[5] != "next"@[0]); }
    }
    assert forall|i: int| 0 <= i && i + 5 <= "back word"@.len() implies #[trigger] "back word"@.subrange(i, i + 5) != "right"@ by {
        if i == 0 { assert("back word"@.subrange(i, i + 5)[0] == "back word"@[0]); assert("back word"@[0] != "right"@[0]); }
        if i == 1 { assert("back word"@.subrange(i, i + 5)[0] == "back word"@[1]); assert("back word"@[1] != "right"@[0]); }
        if i == 2 { assert("back word"@.subrange(i, i + 5)[0] == "back word"@[2]); assert("back word"@[2] != "right"@[0]); }
        if i == 3 { assert("back word"@.subrange(i, i + 5)[0] == "back word"@[3]); assert("back word"@[3] != "right"@[0]); }
        if i == 4 { assert("back word"@.subrange(i, i + 5)[0] == "back word"@[4]); assert("back word"@[4] != "right"@[0]); }
    }
}

proof fn lemma_nm_move_back_word()
    ensures
        !mentions("move back word"@, "forward"@),
        !mentions("move back word"@, "next"@),
        !mentions("move back word"@, "right"@),
{
    reveal_strlit("move back word");
    reveal_strlit("forward");
    reveal_strlit("next");
    reveal_strlit("right");
    assert forall|i: int| 0 <= i && i + 7 <= "move back word"@.len() implies #[trigger] "move back word"@.subrange(i, i + 7) != "forward"@ by {
        if i == 0 { assert("move back word"@.subrange(i, i + 7)[0] == "move back word"@[0]); assert("move back word"@[0] != "forward"@[0]); }
        if i == 1 { assert("move back word"@.subrange(i, i + 7)[0] == "move back word"@[1]); assert("move back word"@[1] != "forward"@[0]); }
        if i == 2 { assert("move back word"@.subrange(i, i + 7)[0] == "move back word"@[2]); assert("move back word"@[2] != "forward"@[0]); }
        if i == 3 { assert("move back word"@.subrange(i, i + 7)[0] == "move back word"@[3]); assert("move back word"@[3] != "forward"@[0]); }
        if i == 4 { assert("move back word"@.subrange(i, i + 7)[0] == "move back word"@[4]); assert("move back word"@[4] != "forward"@[0]); }
        if i == 5 { assert("move back word"@.subrange(i, i + 7)[0] == "move back word"@[5]); assert("move back word"@[5] != "forward"@[0]); }
        if i == 6 { assert("move back word"@.subrange(i, i + 7)[0] == "move back word"@[6]); assert("move back word"@[6] != "forward"@[0]); }
        if i == 7 { assert("move back word"@.subrange(i, i + 7)[0] == "move back word"@[7]); assert("move back word"@[7] != "forward"@[0]); }
    }
    assert forall|i: int| 0 <= i && i + 4 <= "move back word"@.len() implies #[trigger] "move back word"@.subrange(i, i + 4) != "next"@ by {
        if i == 0 { assert("move back word"@.subrange(i, i + 4)[0] == "move back word"@[0]); assert("move back word"@[0] != "next"@[0]); }
        if i == 1 { assert("move back word"@.subrange(i, i + 4)[0] == "move back word"@[1]); assert("move back word"@[1] != "next"@[0]); }
        if i == 2 { assert("move back word"@.subrange(i, i + 4)[0] == "move back word"@[2]); assert("move back word"@[2] != "next"@[0]); }
        if i == 3 { assert("move back word"@.subrange(i, i + 4)[0] == "move back word"@[3]); assert("move back word"@[3] != "next"@[0]); }
        if i == 4 { assert("move back word"@.subrange(i, i + 4)[0] == "move back word"@[4]); assert("move back word"@[4] != "next"@[0]); }
        if i == 5 { assert("move back word"@.subrange(i, i + 4)[0] == "move back word"@[5]); assert("move back word"@[5] != "next"@[0]); }
        if i == 6 { assert("move back word"@.subrange(i, i + 4)[0] == "move back word"@[6]); assert("move back word"@[6] != "next"@[0]); }
        if i == 7 { assert("move back word"@.subrange(i, i + 4)[0] == "move back word"@[7]); assert("move back word"@[7] != "next"@[0]); }
        if i == 8 { assert("move back word"@.subrange(i, i + 4)[0] == "move back word"@[8]); assert("move back word"@[8] != "next"@[0]); }
        if i == 9 { assert("move back word"@.subrange(i, i + 4)[0] == "move back word"@[9]); assert("move back word"@[9] != "next"@[0]); }
        if i == 10 { assert("move back word"@.subrange(i, i + 4)[0] == "move back word"@[10]); assert("move back word"@[10] != "next"@[0]); }
    }
    assert forall|i: int| 0 <= i && i + 5 <= "move back word"@.len() implies #[trigger] "move back word"@.subrange(i, i + 5) != "right"@ by {
        if i == 0 { assert("move back word"@.subrange(i, i + 5)[0] == "move back word"@[0]); assert("move back word"@[0] != "right"@[0]); }
        if i == 1 { assert("move back word"@.subrange(i, i + 5)[0] == "move back word"@[1]); assert("move back word"@[1] != "right"@[0]); }
        if i == 2 { assert("move back word"@.subrange(i, i + 5)[0] == "move back word"@[2]); assert("move back word"@[2] != "right"@[0]); }
        if i == 3 { assert("move back word"@.subrange(i, i + 5)[0] == "move back word"@[3]); assert("move back word"@[3] != "right"@[0]); }
        if i == 4 { assert("move back word"@.subrange(i, i + 5)[0] == "move back word"@[4]); assert("move back word"@[4] != "right"@[0]); }
        if i == 5 { assert("move back word"@.subrange(i, i + 5)[0] == "move back word"@[5]); assert("move back word"@[5] != "right"@[0]); }
        if i == 6 { assert("move back word"@.subrange(i, i + 5)[0] == "move back word"@[6]); assert("move back word"@[6] != "right"@[0]); }
        if i == 7 { assert("move back word"@.subrange(i, i + 5)[0] == "move back word"@[7]); assert("move back word"@[7] != "right"@[0]); }
        if i == 8 { assert("move back word"@.subrange(i, i + 5)[0] == "move back word"@[8]); assert("move back word"@[8] != "right"@[0]); }
        if i == 9 { assert("move back word"@.subrange(i, i + 5)[0] == "move back word"@[9]); assert("move back word"@[9] != "right"@[0]); }
    }
}

proof fn lemma_nm_select_back_word()
    ensures
        !mentions("select back word"@, "forward"@),
        !mentions("select back word"@, "next"@),
        !mentions("select back word"@, "right"@),
{
    reveal_strlit("select back word");
    reveal_strlit("forward");
    reveal_strlit("next");
    reveal_strlit("right");
    assert forall|i: int| 0 <= i && i + 7 <= "select back word"@.len() implies #[trigger] "select back word"@.subrange(i, i + 7) != "forward"@ by {
        if i == 0 { assert("select back word"@.subrange(i, i + 7)[0] == "select back word"@[0]); assert("select back word"@[0] != "forward"@[0]); }
        if i == 1 { assert("select back word"@.subrange(i, i + 7)[0] == "select back word"@[1]); assert("select back word"@[1] != "forward"@[0]); }
        if i == 2 { assert("select back word"@.subrange(i, i + 7)[0] == "select back word"@[2]); assert("select back word"@[2] != "forward"@[0]); }
        if i == 3 { assert("select back word"@.subrange(i, i + 7)[0] == "select back word"@[3]); assert("select back word"@[3] != "forward"@[0]); }
        if i == 4 { assert("select back word"@.subrange(i, i + 7)[0] == "select back word"@[4]); assert("select back word"@[4] != "forward"@[0]); }
        if i == 5 { assert("select back word"@.subrange(i, i + 7)[0] == "select back word"@[5]); assert("select back word"@[5] != "forward"@[0]); }
        if i == 6 { assert("select back word"@.subrange(i, i + 7)[0] == "select back word"@[6]); assert("select back word"@[6] != "forward"@[0]); }
        if i == 7 { assert("select back word"@.subrange(i, i + 7)[0] == "select back word"@[7]); assert("select back word"@[7] != "forward"@[0]); }
        if i == 8 { assert("select back word"@.subrange(i, i + 7)[0] == "select back word"@[8]); assert("select back word"@[8] != "forward"@[0]); }
        if i == 9 { assert("select back word"@.subrange(i, i + 7)[0] == "select back word"@[9]); assert("select back word"@[9] != "forward"@[0]); }
    }
    assert forall|i: int| 0 <= i && i + 4 <= "select back word"@.len() implies #[trigger] "select back word"@.subrange(i, i + 4) != "next"@ by {
        if i == 0 { assert("select back word"@.subrange(i, i + 4)[0] == "select back word"@[0]); assert("select back word"@[0] != "next"@[0]); }
        if i == 1 { assert("select back word"@.subrange(i, i + 4)[0] == "select back word"@[1]); assert("select back word"@[1] != "next"@[0]); }
        if i == 2 { assert("select back word"@.subrange(i, i + 4)[0] == "select back word"@[2]); assert("select back word"@[2] != "next"@[0]); }
        if i == 3 { assert("select back word"@.subrange(i, i + 4)[0] == "select back word"@[3]); assert("select back word"@[3] != "next"@[0]); }
        if i == 4 { assert("select back word"@.subrange(i, i + 4)[0] == "select back word"@[4]); assert("select back word"@[4] != "next"@[0]); }
        if i == 5 { assert("select back word"@.subrange(i, i + 4)[0] == "select back word"@[5]); assert("select back word"@[5] != "next"@[0]); }
        if i == 6 { assert("select back word"@.subrange(i, i + 4)[0] == "select back word"@[6]); assert("select back word"@[6] != "next"@[0]); }
        if i == 7 { assert("select back word"@.subrange(i, i + 4)[0] == "select back word"@[7]); assert("select back word"@[7] != "next"@[0]); }
        if i == 8 { assert("select back word"@.subrange(i, i + 4)[0] == "select back word"@[8]); assert("select back word"@[8] != "next"@[0]); }
        if i == 9 { assert("select back word"@.subrange(i, i + 4)[0] == "select back word"@[9]); assert("select back word"@[9] != "next"@[0]); }
        if i == 10 { assert("select back word"@.subrange(i, i + 4)[0] == "select back word"@[10]); assert("select back word"@[10] != "next"@[0]); }
        if i == 11 { assert("select back word"@.subrange(i, i + 4)[0] == "select back word"@[11]); assert("select back word"@[11] != "next"@[0]); }
        if i == 12 { assert("select back word"@.subrange(i, i + 4)[0] == "select back word"@[12]); assert("select back word"@[12] != "next"@[0]); }
    }
    assert forall|i: int| 0 <= i && i + 5 <= "select back word"@.len() implies #[trigger] "select back word"@.subrange(i, i + 5) != "right"@ by {
        if i == 0 { assert("select back word"@.subrange(i, i + 5)[0] == "select back word"@[0]); assert("select back word"@[0] != "right"@[0]); }
        if i == 1 { assert("select back word"@.subrange(i, i + 5)[0] == "select back word"@[1]); assert("select back word"@[1] != "right"@[0]); }
        if i == 2 { assert("select back word"@.subrange(i, i + 5)[0] == "select back word"@[2]); assert("select back word"@[2] != "right"@[0]); }
        if i == 3 { assert("select back word"@.subrange(i, i + 5)[0] == "select back word"@[3]); assert("select back word"@[3] != "right"@[0]); }
        if i == 4 { assert("select back word"@.subrange(i, i + 5)[0] == "select back word"@[4]); assert("select back word"@[4] != "right"@[0]); }
        if i == 5 { assert("select back word"@.subrange(i, i + 5)[0] == "select back word"@[5]); assert("select back word"@[5] != "right"@[0]); }
        if i == 6 { assert("select back word"@.subrange(i, i + 5)[0] == "select back word"@[6]); assert("select back word"@[6] != "right"@[0]); }
        if i == 7 { assert("select back word"@.subrange(i, i + 5)[0] == "select back word"@[7]); assert("select back word"@[7] != "right"@[0]); }
        if i == 8 { assert("select back word"@.subrange(i, i + 5)[0] == "select back word"@[8]); assert("select back word"@[8] != "right"@[0]); }
        if i == 9 { assert("select back word"@.subrange(i, i + 5)[0] == "select back word"@[9]); assert("select back word"@[9] != "right"@[0]); }
        if i == 10 { assert("select back word"@.subrange(i, i + 5)[0] == "select back word"@[10]); assert("select back word"@[10] != "right"@[0]); }
        if i == 11 { assert("select back word"@.subrange(i, i + 5)[0] == "select back word"@[11]); assert("select back word"@[11] != "right"@[0]); }
    }
}

proof fn lemma_nm_go_to_back_word()
    ensures
        !mentions("go to back word"@, "forward"@),
        !mentions("go to back word"@, "next"@),
        !mentions("go to back word"@, "right"@),
{
    reveal_strlit("go to back word");
    reveal_strlit("forward");
    reveal_strlit("next");
    reveal_strlit("right");
    assert forall|i: int| 0 <= i && i + 7 <= "go to back word"@.len() implies #[trigger] "go to back word"@.subrange(i, i + 7) != "forward"@ by {
        if i == 0 { assert("go to back word"@.subrange(i, i + 7)[0] == "go to back word"@[0]); assert("go to back word"@[0] != "forward"@[0]); }
        if i == 1 { assert("go to back word"@.subrange(i, i + 7)[0] == "go to back word"@[1]); assert("go to back word"@[1] != "forward"@[0]); }
        if i == 2 { assert("go to back word"@.subrange(i, i + 7)[0] == "go to back word"@[2]); assert("go to back word"@[2] != "forward"@[0]); }
        if i == 3 { assert("go to back word"@.subrange(i, i + 7)[0] == "go to back word"@[3]); assert("go to back word"@[3] != "forward"@[0]); }
        if i == 4 { assert("go to back word"@.subrange(i, i + 7)[0] == "go to back word"@[4]); assert("go to back word"@[4] != "forward"@[0]); }
        if i == 5 { assert("go to back word"@.subrange(i, i + 7)[0] == "go to back word"@[5]); assert("go to back word"@[5] != "forward"@[0]); }
        if i == 6 { assert("go to back word"@.subrange(i, i + 7)[0] == "go to back word"@[6]); assert("go to back word"@[6] != "forward"@[0]); }
        if i == 7 { assert("go to back word"@.subrange(i, i + 7)[0] == "go to back word"@[7]); assert("go to back word"@[7] != "forward"@[0]); }
        if i == 8 { assert("go to back word"@.subrange(i, i + 7)[0] == "go to back word"@[8]); assert("go to back word"@[8] != "forward"@[0]); }
    }
    assert forall|i: int| 0 <= i && i + 4 <= "go to back word"@.len() implies #[trigger] "go to back word"@.subrange(i, i + 4) != "next"@ by {
        if i == 0 { assert("go to back word"@.subrange(i, i + 4)[0] == "go to back word"@[0]); assert("go to back word"@[0] != "next"@[0]); }
        if i == 1 { assert("go to back word"@.subrange(i, i + 4)[0] == "go to back word"@[1]); assert("go to back word"@[1] != "next"@[0]); }
        if i == 2 { assert("go to back word"@.subrange(i, i + 4)[0] == "go to back word"@[2]); assert("go to back word"@[2] != "next"@[0]); }
        if i == 3 { assert("go to back word"@.subrange(i, i + 4)[0] == "go to back word"@[3]); assert("go to back word"@[3] != "next"@[0]); }
        if i == 4 { assert("go to back word"@.subrange(i, i + 4)[0] == "go to back word"@[4]); assert("go to back word"@[4] != "next"@[0]); }
        if i == 5 { assert("go to back word"@.subrange(i, i + 4)[0] == "go to back word"@[5]); assert("go to back word"@[5] != "next"@[0]); }
        if i == 6 { assert("go to back word"@.subrange(i, i + 4)[0] == "go to back word"@[6]); assert("go to back word"@[6] != "next"@[0]); }
        if i == 7 { assert("go to back word"@.subrange(i, i + 4)[0] == "go to back word"@[7]); assert("go to back word"@[7] != "next"@[0]); }
        if i == 8 { assert("go to back word"@.subrange(i, i + 4)[0] == "go to back word"@[8]); assert("go to back word"@[8] != "next"@[0]); }
        if i == 9 { assert("go to back word"@.subrange(i, i + 4)[0] == "go to back word"@[9]); assert("go to back word"@[9] != "next"@[0]); }
        if i == 10 { assert("go to back word"@.subrange(i, i + 4)[0] == "go to back word"@[10]); assert("go to back word"@[10] != "next"@[0]); }
        if i == 11 { assert("go to back word"@.subrange(i, i + 4)[0] == "go to back word"@[11]); assert("go to back word"@[11] != "next"@[0]); }
    }
    assert forall|i: int| 0 <= i && i + 5 <= "go to back word"@.len() implies #[trigger] "go to back word"@.subrange(i, i + 5) != "right"@ by {
        if i == 0 { assert("go to back word"@.subrange(i, i + 5)[0] == "go to back word"@[0]); assert("go to back word"@[0] != "right"@[0]); }
        if i == 1 { assert("go to back word"@.subrange(i, i + 5)[0] == "go to back word"@[1]); assert("go to back word"@[1] != "right"@[0]); }
        if i == 2 { assert("go to back word"@.subrange(i, i + 5)[0] == "go to back word"@[2]); assert("go to back word"@[2] != "right"@[0]); }
        if i == 3 { assert("go to back word"@.subrange(i, i + 5)[0] == "go to back word"@[3]); assert("go to back word"@[3] != "right"@[0]); }
        if i == 4 { assert("go to back word"@.subrange(i, i + 5)[0] == "go to back word"@[4]); assert("go to back word"@[4] != "right"@[0]); }
        if i == 5 { assert("go to back word"@.subrange(i, i + 5)[0] == "go to back word"@[5]); assert("go to back word"@[5] != "right"@[0]); }
        if i == 6 { assert("go to back word"@.subrange(i, i + 5)[0] == "go to back word"@[6]); assert("go to back word"@[6] != "right"@[0]); }
        if i == 7 { assert("go to back word"@.subrange(i, i + 5)[0] == "go to back word"@[7]); assert("go to back word"@[7] != "right"@[0]); }
        if i == 8 { assert("go to back word"@.subrange(i, i + 5)[0] == "go to back word"@[8]); assert("go to back word"@[8] != "right"@[0]); }
        if i == 9 { assert("go to back word"@.subrange(i, i + 5)[0] == "go to back word"@[9]); assert("go to back word"@[9] != "right"@[0]); }
        if i == 10 { assert("go to back word"@.subrange(i, i + 5)[0] == "go to back word"@[10]); assert("go to back word"@[10] != "right"@[0]); }
    }
}

proof fn lemma_nm_move_go_to_back_word()
    ensures
        !mentions("move go to back word"@, "forward"@),
        !mentions("move go to back word"@, "next"@),
        !mentions("move go to back word"@, "right"@),
{
    reveal_strlit("move go to back word");
    reveal_strlit("forward");
    reveal_strlit("next");
    reveal_strlit("right");
    assert forall|i: int| 0 <= i && i + 7 <= "move go to back word"@.len() implies #[trigger] "move go to back word"@.subrange(i, i + 7) != "forward"@ by {
        if i == 0 { assert("move go to back word"@.subrange(i, i + 7)[0] == "move go to back word"@[0]); assert("move go to back word"@[0] != "forward"@[0]); }
        if i == 1 { assert("move go to back word"@.subrange(i, i + 7)[0] == "move go to back word"@[1]); assert("move go to back word"@[1] != "forward"@[0]); }
        if i == 2 { assert("move go to back word"@.subrange(i, i + 7)[0] == "move go to back word"@[2]); assert("move go to back word"@[2] != "forward"@[0]); }
        if i == 3 { assert("move go to back word"@.subrange(i, i + 7)[0] == "move go to back word"@[3]); assert("move go to back word"@[3] != "forward"@[0]); }
        if i == 4 { assert("move go to back word"@.subrange(i, i + 7)[0] == "move go to back word"@[4]); assert("move go to back word"@[4] != "forward"@[0]); }
        if i == 5 { assert("move go to back word"@.subrange(i, i + 7)[0] == "move go to back word"@[5]); assert("move go to back word"@[5] != "forward"@[0]); }
        if i == 6 { assert("move go to back word"@.subrange(i, i + 7)[0] == "move go to back word"@[6]); assert("move go to back word"@[6] != "forward"@[0]); }
        if i == 7 { assert("move go to back word"@.subrange(i, i + 7)[0] == "move go to back word"@[7]); assert("move go to back word"@[7] != "forward"@[0]); }
        if i == 8 { assert("move go to back word"@.subrange(i, i + 7)[0] == "move go to back word"@[8]); assert("move go to back word"@[8] != "forward"@[0]); }
        if i == 9 { assert("move go to back word"@.subrange(i, i + 7)[0] == "move go to back word"@[9]); assert("move go to back word"@[9] != "forward"@[0]); }
        if i == 10 { assert("move go to back word"@.subrange(i, i + 7)[0] == "move go to back word"@[10]); assert("move go to back word"@[10] != "forward"@[0]); }
        if i == 11 { assert("move go to back word"@.subrange(i, i + 7)[0] == "move go to back word"@[11]); assert("move go to back word"@[11] != "forward"@[0]); }
        if i == 12 { assert("move go to back word"@.subrange(i, i + 7)[0] == "move go to back word"@[12]); assert("move go to back word"@[12] != "forward"@[0]); }
        if i == 13 { assert("move go to back word"@.subrange(i, i + 7)[0] == "move go to back word"@[13]); assert("move go to back word"@[13] != "forward"@[0]); }
    }
    assert forall|i: int| 0 <= i && i + 4 <= "move go to back word"@.len() implies #[trigger] "move go to back word"@.subrange(i, i + 4) != "next"@ by {
        if i == 0 { assert("move go to back word"@.subrange(i, i + 4)[0] == "move go to back word"@[0]); assert("move go to back word"@[0] != "next"@[0]); }
        if i == 1 { assert("move go to back word"@.subrange(i, i + 4)[0] == "move go to back word"@[1]); assert("move go to back word"@[1] != "next"@[0]); }
        if i == 2 { assert("move go to back word"@.subrange(i, i + 4)[0] == "move go to back word"@[2]); assert("move go to back word"@[2] != "next"@[0]); }
        if i == 3 { assert("move go to back word"@.subrange(i, i + 4)[0] == "move go to back word"@[3]); assert("move go to back word"@[3] != "next"@[0]); }
        if i == 4 { assert("move go to back word"@.subrange(i, i + 4)[0] == "move go to back word"@[4]); assert("move go to back word"@[4] != "next"@[0]); }
        if i == 5 { assert("move go to back word"@.subrange(i, i + 4)[0] == "move go to back word"@[5]); assert("move go to back word"@[5] != "next"@[0]); }
        if i == 6 { assert("move go to back word"@.subrange(i, i + 4)[0] == "move go to back word"@[6]); assert("move go to back word"@[6] != "next"@[0]); }
        if i == 7 { assert("move go to back word"@.subrange(i, i + 4)[0] == "move go to back word"@[7]); assert("move go to back word"@[7] != "next"@[0]); }
        if i == 8 { assert("move go to back word"@.subrange(i, i + 4)[0] == "move go to back word"@[8]); assert("move go to back word"@[8] != "next"@[0]); }
        if i == 9 { assert("move go to back word"@.subrange(i, i + 4)[0] == "move go to back word"@[9]); assert("move go to back word"@[9] != "next"@[0]); }
        if i == 10 { assert("move go to back word"@.subrange(i, i + 4)[0] == "move go to back word"@[10]); assert("move go to back word"@[10] != "next"@[0]); }
        if i == 11 { assert("move go to back word"@.subrange(i, i + 4)[0] == "move go to back word"@[11]); assert("move go to back word"@[11] != "next"@[0]); }
        if i == 12 { assert("move go to back word"@.subrange(i, i + 4)[0] == "move go to back word"@[12]); assert("move go to back word"@[12] != "next"@[0]); }
        if i == 13 { assert("move go to back word"@.subrange(i, i + 4)[0] == "move go to back word"@[13]); assert("move go to back word"@[13] != "next"@[0]); }
        if i == 14 { assert("move go to back word"@.subrange(i, i + 4)[0] == "move go to back word"@[14]); assert("move go to back word"@[14] != "next"@[0]); }
        if i == 15 { assert("move go to back word"@.subrange(i, i + 4)[0] == "move go to back word"@[15]); assert("move go to back word"@[15] != "next"@[0]); }
        if i == 16 { assert("move go to back word"@.subrange(i, i + 4)[0] == "move go to back word"@[16]); assert("move go to back word"@[16] != "next"@[0]); }
    }
    assert forall|i: int| 0 <= i && i + 5 <= "move go to back word"@.len() implies #[trigger] "move go to back word"@.subrange(i, i + 5) != "right"@ by {
        if i == 0 { assert("move go to back word"@.subrange(i, i + 5)[0] == "move go to back word"@[0]); assert("move go to back word"@[0] != "right"@[0]); }
        if i == 1 { assert("move go to back word"@.subrange(i, i + 5)[0] == "move go to back word"@[1]); assert("move go to back word"@[1] != "right"@[0]); }
        if i == 2 { assert("move go to back word"@.subrange(i, i + 5)[0] == "move go to back word"@[2]); assert("move go to back word"@[2] != "right"@[0]); }
        if i == 3 { assert("move go to back word"@.subrange(i, i + 5)[0] == "move go to back word"@[3]); assert("move go to back word"@[3] != "right"@[0]); }
        if i == 4 { assert("move go to back word"@.subrange(i, i + 5)[0] == "move go to back word"@[4]); assert("move go to back word"@[4] != "right"@[0]); }
        if i == 5 { assert("move go to back word"@.subrange(i, i + 5)[0] == "move go to back word"@[5]); assert("move go to back word"@[5] != "right"@[0]); }
        if i == 6 { assert("move go to back word"@.subrange(i, i + 5)[0] == "move go to back word"@[6]); assert("move go to back word"@[6] != "right"@[0]); }
        if i == 7 { assert("move go to back word"@.subrange(i, i + 5)[0] == "move go to back word"@[7]); assert("move go to back word"@[7] != "right"@[0]); }
        if i == 8 { assert("move go to back word"@.subrange(i, i + 5)[0] == "move go to back word"@[8]); assert("move go to back word"@[8] != "right"@[0]); }
        if i == 9 { assert("move go to back word"@.subrange(i, i + 5)[0] == "move go to back word"@[9]); assert("move go to back word"@[9] != "right"@[0]); }
        if i == 10 { assert("move go to back word"@.subrange(i, i + 5)[0] == "move go to back word"@[10]); assert("move go to back word"@[10] != "right"@[0]); }
        if i == 11 { assert("move go to back word"@.subrange(i, i + 5)[0] == "move go to back word"@[11]); assert("move go to back word"@[11] != "right"@[0]); }
        if i == 12 { assert("move go to back word"@.subrange(i, i + 5)[0] == "move go to back word"@[12]); assert("move go to back word"@[12] != "right"@[0]); }
        if i == 13 { assert("move go to back word"@.subrange(i, i + 5)[0] == "move go to back word"@[13]); assert("move go to back word"@[13] != "right"@[0]); }
        if i == 14 { assert("move go to back word"@.subrange(i, i + 5)[0] == "move go to back word"@[14]); assert("move go to back word"@[14] != "right"@[0]); }
        if i == 15 { assert("move go to back word"@.subrange(i, i + 5)[0] == "move go to back word"@[15]); assert("move go to back word"@[15] != "right"@[0]); }
    }
}

proof fn lemma_nm_select_go_to_back_word()
    ensures
        !mentions("select go to back word"@, "forward"@),
        !mentions("select go to back word"@, "next"@),
        !mentions("select go to back word"@, "right"@),
{
    reveal_strlit("select go to back word");
    reveal_strlit("forward");
    reveal_strlit("next");
    reveal_strlit("right");
    assert forall|i: int| 0 <= i && i + 7 <= "select go to back word"@.len() implies #[trigger] "select go to back word"@.subrange(i, i + 7) != "forward"@ by {
        if i == 0 { assert("select go to back word"@.subrange(i, i + 7)[0] == "select go to back word"@[0]); assert("select go to back word"@[0] != "forward"@[0]); }
        if i == 1 { assert("select go to back word"@.subrange(i, i + 7)[0] == "select go to back word"@[1]); assert("select go to back word"@[1] != "forward"@[0]); }
        if i == 2 { assert("select go to back word"@.subrange(i, i + 7)[0] == "select go to back word"@[2]); assert("select go to back word"@[2] != "forward"@[0]); }
        if i == 3 { assert("select go to back word"@.subrange(i, i + 7)[0] == "select go to back word"@[3]); assert("select go to back word"@[3] != "forward"@[0]); }
        if i == 4 { assert("select go to back word"@.subrange(i, i + 7)[0] == "select go to back word"@[4]); assert("select go to back word"@[4] != "forward"@[0]); }
        if i == 5 { assert("select go to back word"@.subrange(i, i + 7)[0] == "select go to back word"@[5]); assert("select go to back word"@[5] != "forward"@[0]); }
        if i == 6 { assert("select go to back word"@.subrange(i, i + 7)[0] == "select go to back word"@[6]); assert("select go to back word"@[6] != "forward"@[0]); }
        if i == 7 { assert("select go to back word"@.subrange(i, i + 7)[0] == "select go to back word"@[7]); assert("select go to back word"@[7] != "forward"@[0]); }
        if i == 8 { assert("select go to back word"@.subrange(i, i + 7)[0] == "select go to back word"@[8]); assert("select go to back word"@[8] != "forward"@[0]); }
        if i == 9 { assert("select go to back word"@.subrange(i, i + 7)[0] == "select go to back word"@[9]); assert("select go to back word"@[9] != "forward"@[0]); }
        if i == 10 { assert("select go to back word"@.subrange(i, i + 7)[0] == "select go to back word"@[10]); assert("select go to back word"@[10] != "forward"@[0]); }
        if i == 11 { assert("select go to back word"@.subrange(i, i + 7)[0] == "select go to back word"@[11]); assert("select go to back word"@[11] != "forward"@[0]); }
        if i == 12 { assert("select go to back word"@.subrange(i, i + 7)[0] == "select go to back word"@[12]); assert("select go to back word"@[12] != "forward"@[0]); }
        if i == 13 { assert("select go to back word"@.subrange(i, i + 7)[0] == "select go to back word"@[13]); assert("select go to back word"@[13] != "forward"@[0]); }
        if i == 14 { assert("select go to back word"@.subrange(i, i + 7)[0] == "select go to back word"@[14]); assert("select go to back word"@[14] != "forward"@[0]); }
        if i == 15 { assert("select go to back word"@.subrange(i, i + 7)[0] == "select go to back word"@[15]); assert("select go to back word"@[15] != "forward"@[0]); }
    }
    assert forall|i: int| 0 <= i && i + 4 <= "select go to back word"@.len() implies #[trigger] "select go to back word"@.subrange(i, i + 4) != "next"@ by {
        if i == 0 { assert("select go to back word"@.subrange(i, i + 4)[0] == "select go to back word"@[0]); assert("select go to back word"@[0] != "next"@[0]); }
        if i == 1 { assert("select go to back word"@.subrange(i, i + 4)[0] == "select go to back word"@[1]); assert("select go to back word"@[1] != "next"@[0]); }
        if i == 2 { assert("select go to back word"@.subrange(i, i + 4)[0] == "select go to back word"@[2]); assert("select go to back word"@[2] != "next"@[0]); }
        if i == 3 { assert("select go to back word"@.subrange(i, i + 4)[0] == "select go to back word"@[3]); assert("select go to back word"@[3] != "next"@[0]); }
        if i == 4 { assert("select go to back word"@.subrange(i, i + 4)[0] == "select go to back word"@[4]); assert("select go to back word"@[4] != "next"@[0]); }
        if i == 5 { assert("select go to back word"@.subrange(i, i + 4)[0] == "select go to back word"@[5]); assert("select go to back word"@[5] != "next"@[0]); }
        if i == 6 { assert("select go to back word"@.subrange(i, i + 4)[0] == "select go to back word"@[6]); assert("select go to back word"@[6] != "next"@[0]); }
        if i == 7 { assert("select go to back word"@.subrange(i, i + 4)[0] == "select go to back word"@[7]); assert("select go to back word"@[7] != "next"@[0]); }
        if i == 8 { assert("select go to back word"@.subrange(i, i + 4)[0] == "select go to back word"@[8]); assert("select go to back word"@[8] != "next"@[0]); }
        if i == 9 { assert("select go to back word"@.subrange(i, i + 4)[0] == "select go to back word"@[9]); assert("select go to back word"@[9] != "next"@[0]); }
        if i == 10 { assert("select go to back word"@.subrange(i, i + 4)[0] == "select go to back word"@[10]); assert("select go to back word"@[10] != "next"@[0]); }
        if i == 11 { assert("select go to back word"@.subrange(i, i + 4)[0] == "select go to back word"@[11]); assert("select go to back word"@[11] != "next"@[0]); }
        if i == 12 { assert("select go to back word"@.subrange(i, i + 4)[0] == "select go to back word"@[12]); assert("select go to back word"@[12] != "next"@[0]); }
        if i == 13 { assert("select go to back word"@.subrange(i, i + 4)[0] == "select go to back word"@[13]); assert("select go to back word"@[13] != "next"@[0]); }
        if i == 14 { assert("select go to back word"@.subrange(i, i + 4)[0] == "select go to back word"@[14]); assert("select go to back word"@[14] != "next"@[0]); }
        if i == 15 { assert("select go to back word"@.subrange(i, i + 4)[0] == "select go to back word"@[15]); assert("select go to back word"@[15] != "next"@[0]); }
        if i == 16 { assert("select go to back word"@.subrange(i, i + 4)[0] == "select go to back word"@[16]); assert("select go to back word"@[16] != "next"@[0]); }
        if i == 17 { assert("select go to back word"@.subrange(i, i + 4)[0] == "select go to back word"@[17]); assert("select go to back word"@[17] != "next"@[0]); }
        if i == 18 { assert("select go to back word"@.subrange(i, i + 4)[0] == "select go to back word"@[18]); assert("select go to back word"@[18] != "next"@[0]); }
    }
    assert forall|i: int| 0 <= i && i + 5 <= "select go to back word"@.len() implies #[trigger] "select go to back word"@.subrange(i, i + 5) != "right"@ by {
        if i == 0 { assert("select go to back word"@.subrange(i, i + 5)[0] == "select go to back word"@[0]); assert("select go to back word"@[0] != "right"@[0]); }
        if i == 1 { assert("select go to back word"@.subrange(i, i + 5)[0] == "select go to back word"@[1]); assert("select go to back word"@[1] != "right"@[0]); }
        if i == 2 { assert("select go to back word"@.subrange(i, i + 5)[0] == "select go to back word"@[2]); assert("select go to back word"@[2] != "right"@[0]); }
        if i == 3 { assert("select go to back word"@.subrange(i, i + 5)[0] == "select go to back word"@[3]); assert("select go to back word"@[3] != "right"@[0]); }
        if i == 4 { assert("select go to back word"@.subrange(i, i + 5)[0] == "select go to back word"@[4]); assert("select go to back word"@[4] != "right"@[0]); }
        if i == 5 { assert("select go to back word"@.subrange(i, i + 5)[0] == "select go to back word"@[5]); assert("select go to back word"@[5] != "right"@[0]); }
        if i == 6 { assert("select go to back word"@.subrange(i, i + 5)[0] == "select go to back word"@[6]); assert("select go to back word"@[6] != "right"@[0]); }
        if i == 7 { assert("select go to back word"@.subrange(i, i + 5)[0] == "select go to back word"@[7]); assert("select go to back word"@[7] != "right"@[0]); }
        if i == 8 { assert("select go to back word"@.subrange(i, i + 5)[0] == "select go to back word"@[8]); assert("select go to back word"@[8] != "right"@[0]); }
        if i == 9 { assert("select go to back word"@.subrange(i, i + 5)[0] == "select go to back word"@[9]); assert("select go to back word"@[9] != "right"@[0]); }
        if i == 10 { assert("select go to back word"@.subrange(i, i + 5)[0] == "select go to back word"@[10]); assert("select go to back word"@[10] != "right"@[0]); }
        if i == 11 { assert("select go to back word"@.subrange(i, i + 5)[0] == "select go to back word"@[11]); assert("select go to back word"@[11] != "right"@[0]); }
        if i == 12 { assert("select go to back word"@.subrange(i, i + 5)[0] == "select go to back word"@[12]); assert("select go to back word"@[12] != "right"@[0]); }
        if i == 13 { assert("select go to back word"@.subrange(i, i + 5)[0] == "select go to back word"@[13]); assert("select go to back word"@[13] != "right"@[0]); }
        if i == 14 { assert("select go to back word"@.subrange(i, i + 5)[0] == "select go to back word"@[14]); assert("select go to back word"@[14] != "right"@[0]); }
        if i == 15 { assert("select go to back word"@.subrange(i, i + 5)[0] == "select go to back word"@[15]); assert("select go to back word"@[15] != "right"@[0]); }
        if i == 16 { assert("select go to back word"@.subrange(i, i + 5)[0] == "select go to back word"@[16]); assert("select go to back word"@[16] != "right"@[0]); }
        if i == 17 { assert("select go to back word"@.subrange(i, i + 5)[0] == "select go to back word"@[17]); assert("select go to back word"@[17] != "right"@[0]); }
    }
}

proof fn lemma_nm_delete_next_word()
    ensures
        !mentions("delete next word"@, "back"@),
        !mentions("delete next word"@, "previous"@),
        !mentions("delete next word"@, "left"@),
        !mentions("delete next word"@, "last"@),
{
    reveal_strlit("delete next word");
    reveal_strlit("back");
    reveal_strlit("previous");
    reveal_strlit("left");
    reveal_strlit("last");
    assert forall|i: int| 0 <= i && i + 4 <= "delete next word"@.len() implies #[trigger] "delete next word"@.subrange(i, i + 4) != "back"@ by {
        if i == 0 { assert("delete next word"@.subrange(i, i + 4)[0] == "delete next word"@[0]); assert("delete next word"@[0] != "back"@[0]); }
        if i == 1 { assert("delete next word"@.subrange(i, i + 4)[0] == "delete next word"@[1]); assert("delete next word"@[1] != "back"@[0]); }
        if i == 2 { assert("delete next word"@.subrange(i, i + 4)[0] == "delete next word"@[2]); assert("delete next word"@[2] != "back"@[0]); }
        if i == 3 { assert("delete next word"@.subrange(i, i + 4)[0] == "delete next word"@[3]); assert("delete next word"@[3] != "back"@[0]); }
        if i == 4 { assert("delete next word"@.subrange(i, i + 4)[0] == "delete next word"@[4]); assert("delete next word"@[4] != "back"@[0]); }
        if i == 5 { assert("delete next word"@.subrange(i, i + 4)[0] == "delete next word"@[5]); assert("delete next word"@[5] != "back"@[0]); }
        if i == 6 { assert("delete next word"@.subrange(i, i + 4)[0] == "delete next word"@[6]); assert("delete next word"@[6] != "back"@[0]); }
        if i == 7 { assert("delete next word"@.subrange(i, i + 4)[0] == "delete next word"@[7]); assert("delete next word"@[7] != "back"@[0]); }
        if i == 8 { assert("delete next word"@.subrange(i, i + 4)[0] == "delete next word"@[8]); assert("delete next word"@[8] != "back"@[0]); }
        if i == 9 { assert("delete next word"@.subrange(i, i + 4)[0] == "delete next word"@[9]); assert("delete next word"@[9] != "back"@[0]); }
        if i == 10 { assert("delete next word"@.subrange(i, i + 4)[0] == "delete next word"@[10]); assert("delete next word"@[10] != "back"@[0]); }
        if i == 11 { assert("delete next word"@.subrange(i, i + 4)[0] == "delete next word"@[11]); assert("delete next word"@[11] != "back"@[0]); }
        if i == 12 { assert("delete next word"@.subrange(i, i + 4)[0] == "delete next word"@[12]); assert("delete next word"@[12] != "back"@[0]); }
    }
    assert forall|i: int| 0 <= i && i + 8 <= "delete next word"@.len() implies #[trigger] "delete next word"@.subrange(i, i + 8) != "previous"@ by {
        if i == 0 { assert("delete next word"@.subrange(i, i + 8)[0] == "delete next word"@[0]); assert("delete next word"@[0] != "previous"@[0]); }
        if i == 1 { assert("delete next word"@.subrange(i, i + 8)[0] == "delete next word"@[1]); assert("delete next word"@[1] != "previous"@[0]); }
        if i == 2 { assert("delete next word"@.subrange(i, i + 8)[0] == "delete next word"@[2]); assert("delete next word"@[2] != "previous"@[0]); }
        if i == 3 { assert("delete next word"@.subrange(i, i + 8)[0] == "delete next word"@[3]); assert("delete next word"@[3] != "previous"@[0]); }
        if i == 4 { assert("delete next word"@.subrange(i, i + 8)[0] == "delete next word"@[4]); assert("delete next word"@[4] != "previous"@[0]); }
        if i == 5 { assert("delete next word"@.subrange(i, i + 8)[0] == "delete next word"@[5]); assert("delete next word"@[5] != "previous"@[0]); }
        if i == 6 { assert("delete next word"@.subrange(i, i + 8)[0] == "delete next word"@[6]); assert("delete next word"@[6] != "previous"@[0]); }
        if i == 7 { assert("delete next word"@.subrange(i, i + 8)[0] == "delete next word"@[7]); assert("delete next word"@[7] != "previous"@[0]); }
        if i == 8 { assert("delete next word"@.subrange(i, i + 8)[0] == "delete next word"@[8]); assert("delete next word"@[8] != "previous"@[0]); }
    }
    assert forall|i: int| 0 <= i && i + 4 <= "delete next word"@.len() implies #[trigger] "delete next word"@.subrange(i, i + 4) != "left"@ by {
        if i == 0 { assert("delete next word"@.subrange(i, i + 4)[0] == "delete next word"@[0]); assert("delete next word"@[0] != "left"@[0]); }
        if i == 1 { assert("delete next word"@.subrange(i, i + 4)[0] == "delete next word"@[1]); assert("delete next word"@[1] != "left"@[0]); }
        if i == 2 { assert("delete next word"@.subrange(i, i + 4)[2] == "delete next word"@[4]); assert("delete next word"@[4] != "left"@[2]); }
        if i == 3 { assert("delete next word"@.subrange(i, i + 4)[0] == "delete next word"@[3]); assert("delete next word"@[3] != "left"@[0]); }
        if i == 4 { assert("delete next word"@.subrange(i, i + 4)[0] == "delete next word"@[4]); assert("delete next word"@[4] != "left"@[0]); }
        if i == 5 { assert("delete next word"@.subrange(i, i + 4)[0] == "delete next word"@[5]); assert("delete next word"@[5] != "left"@[0]); }
        if i == 6 { assert("delete next word"@.subrange(i, i + 4)[0] == "delete next word"@[6]); assert("delete next word"@[6] != "left"@[0]); }
        if i == 7 { assert("delete next word"@.subrange(i, i + 4)[0] == "delete next word"@[7]); assert("delete next word"@[7] != "left"@[0]); }
        if i == 8 { assert("delete next word"@.subrange(i, i + 4)[0] == "delete next word"@[8]); assert("delete next word"@[8] != "left"@[0]); }
        if i == 9 { assert("delete next word"@.subrange(i, i + 4)[0] == "delete next word"@[9]); assert("delete next word"@[9] != "left"@[0]); }
        if i == 10 { assert("delete next word"@.subrange(i, i + 4)[0] == "delete next word"@[10]); assert("delete next word"@[10] != "left"@[0]); }
        if i == 11 { assert("delete next word"@.subrange(i, i + 4)[0] == "delete next word"@[11]); assert("delete next word"@[11] != "left"@[0]); }
        if i == 12 { assert("delete next word"@.subrange(i, i + 4)[0] == "delete next word"@[12]); assert("delete next word"@[12] != "left"@[0]); }
    }
    assert forall|i: int| 0 <= i && i + 4 <= "delete next word"@.len() implies #[trigger] "delete next word"@.subrange(i, i + 4) != "last"@ by {
        if i == 0 { assert("delete next word"@.subrange(i, i + 4)[0] == "delete next word"@[0]); assert("delete next word"@[0] != "last"@[0]); }
        if i == 1 { assert("delete next word"@.subrange(i, i + 4)[0] == "delete next word"@[1]); assert("delete next word"@[1] != "last"@[0]); }
        if i == 2 { assert("delete next word"@.subrange(i, i + 4)[1] == "delete next word"@[3]); assert("delete next word"@[3] != "last"@[1]); }
        if i == 3 { assert("delete next word"@.subrange(i, i + 4)[0] == "delete next word"@[3]); assert("delete next word"@[3] != "last"@[0]); }
        if i == 4 { assert("delete next word"@.subrange(i, i + 4)[0] == "delete next word"@[4]); assert("delete next word"@[4] != "last"@[0]); }
        if i == 5 { assert("delete next word"@.subrange(i, i + 4)[0] == "delete next word"@[5]); assert("delete next word"@[5] != "last"@[0]); }
        if i == 6 { assert("delete next word"@.subrange(i, i + 4)[0] == "delete next word"@[6]); assert("delete next word"@[6] != "last"@[0]); }
        if i == 7 { assert("delete next word"@.subrange(i, i + 4)[0] == "delete next word"@[7]); assert("delete next word"@[7] != "last"@[0]); }
        if i == 8 { assert("delete next word"@.subrange(i, i + 4)[0] == "delete next word"@[8]); assert("delete next word"@[8] != "last"@[0]); }
        if i == 9 { assert("delete next word"@.subrange(i, i + 4)[0] == "delete next word"@[9]); assert("delete next word"@[9] != "last"@[0]); }
        if i == 10 { assert("delete next word"@.subrange(i, i + 4)[0] == "delete next word"@[10]); assert("delete next word"@[10] != "last"@[0]); }
        if i == 11 { assert("delete next word"@.subrange(i, i + 4)[0] == "delete next word"@[11]); assert("delete next word"@[11] != "last"@[0]); }
        if i == 12 { assert("delete next word"@.subrange(i, i + 4)[0] == "delete next word"@[12]); assert("delete next word"@[12] != "last"@[0]); }
    }
}

proof fn lemma_nm_delete_word_forward()
    ensures
        !mentions("delete word forward"@, "back"@),
        !mentions("delete word forward"@, "previous"@),
        !mentions("delete word forward"@, "left"@),
        !mentions("delete word forward"@, "last"@),
{
    reveal_strlit("delete word forward");
    reveal_strlit("back");
    reveal_strlit("previous");
    reveal_strlit("left");
    reveal_strlit("last");
    assert forall|i: int| 0 <= i && i + 4 <= "delete word forward"@.len() implies #[trigger] "delete word forward"@.subrange(i, i + 4) != "back"@ by {
        if i == 0 { assert("delete word forward"@.subrange(i, i + 4)[0] == "delete word forward"@[0]); assert("delete word forward"@[0] != "back"@[0]); }
        if i == 1 { assert("delete word forward"@.subrange(i, i + 4)[0] == "delete word forward"@[1]); assert("delete word forward"@[1] != "back"@[0]); }
        if i == 2 { assert("delete word forward"@.subrange(i, i + 4)[0] == "delete word forward"@[2]); assert("delete word forward"@[2] != "back"@[0]); }
        if i == 3 { assert("delete word forward"@.subrange(i, i + 4)[0] == "delete word forward"@[3]); assert("delete word forward"@[3] != "back"@[0]); }
        if i == 4 { assert("delete word forward"@.subrange(i, i + 4)[0] == "delete word forward"@[4]); assert("delete word forward"@[4] != "back"@[0]); }
        if i == 5 { assert("delete word forward"@.subrange(i, i + 4)[0] == "delete word forward"@[5]); assert("delete word forward"@[5] != "back"@[0]); }
        if i == 6 { assert("delete word forward"@.subrange(i, i + 4)[0] == "delete word forward"@[6]); assert("delete word forward"@[6] != "back"@[0]); }
        if i == 7 { assert("delete word forward"@.subrange(i, i + 4)[0] == "delete word forward"@[7]); assert("delete word forward"@[7] != "back"@[0]); }
        if i == 8 { assert("delete word forward"@.subrange(i, i + 4)[0] == "delete word forward"@[8]); assert("delete word forward"@[8] != "back"@[0]); }
        if i == 9 { assert("delete word forward"@.subrange(i, i + 4)[0] == "delete word forward"@[9]); assert("delete word forward"@[9] != "back"@[0]); }
        if i == 10 { assert("delete word forward"@.subrange(i, i + 4)[0] == "delete word forward"@[10]); assert("delete word forward"@[10] != "back"@[0]); }
        if i == 11 { assert("delete word forward"@.subrange(i, i + 4)[0] == "delete word forward"@[11]); assert("delete word forward"@[11] != "back"@[0]); }
        if i == 12 { assert("delete word forward"@.subrange(i, i + 4)[0] == "delete word forward"@[12]); assert("delete word forward"@[12] != "back"@[0]); }
        if i == 13 { assert("delete word forward"@.subrange(i, i + 4)[0] == "delete word forward"@[13]); assert("delete word forward"@[13] != "back"@[0]); }
        if i == 14 { assert("delete word forward"@.subrange(i, i + 4)[0] == "delete word forward"@[14]); assert("delete word forward"@[14] != "back"@[0]); }
        if i == 15 { assert("delete word forward"@.subrange(i, i + 4)[0] == "delete word forward"@[15]); assert("delete word forward"@[15] != "back"@[0]); }
    }
    assert forall|i: int| 0 <= i && i + 8 <= "delete word forward"@.len() implies #[trigger] "delete word forward"@.subrange(i, i + 8) != "previous"@ by {
        if i == 0 { assert("delete word forward"@.subrange(i, i + 8)[0] == "delete word forward"@[0]); assert("delete word forward"@[0] != "previous"@[0]); }
        if i == 1 { assert("delete word forward"@.subrange(i, i + 8)[0] == "delete word forward"@[1]); assert("delete word forward"@[1] != "previous"@[0]); }
        if i == 2 { assert("delete word forward"@.subrange(i, i + 8)[0] == "delete word forward"@[2]); assert("delete word forward"@[2] != "previous"@[0]); }
        if i == 3 { assert("delete word forward"@.subrange(i, i + 8)[0] == "delete word forward"@[3]); assert("delete word forward"@[3] != "previous"@[0]); }
        if i == 4 { assert("delete word forward"@.subrange(i, i + 8)[0] == "delete word forward"@[4]); assert("delete word forward"@[4] != "previous"@[0]); }
        if i == 5 { assert("delete word forward"@.subrange(i, i + 8)[0] == "delete word forward"@[5]); assert("delete word forward"@[5] != "previous"@[0]); }
        if i == 6 { assert("delete word forward"@.subrange(i, i + 8)[0] == "delete word forward"@[6]); assert("delete word forward"@[6] != "previous"@[0]); }
        if i == 7 { assert("delete word forward"@.subrange(i, i + 8)[0] == "delete word forward"@[7]); assert("delete word forward"@[7] != "previous"@[0]); }
        if i == 8 { assert("delete word forward"@.subrange(i, i + 8)[0] == "delete word forward"@[8]); assert("delete word forward"@[8] != "previous"@[0]); }
        if i == 9 { assert("delete word forward"@.subrange(i, i + 8)[0] == "delete word forward"@[9]); assert("delete word forward"@[9] != "previous"@[0]); }
        if i == 10 { assert("delete word forward"@.subrange(i, i + 8)[0] == "delete word forward"@[10]); assert("delete word forward"@[10] != "previous"@[0]); }
        if i == 11 { assert("delete word forward"@.subrange(i, i + 8)[0] == "delete word forward"@[11]); assert("delete word forward"@[11] != "previous"@[0]); }
    }
    assert forall|i: int| 0 <= i && i + 4 <= "delete word forward"@.len() implies #[trigger] "delete word forward"@.subrange(i, i + 4) != "left"@ by {
        if i == 0 { assert("delete word forward"@.subrange(i, i + 4)[0] == "delete word forward"@[0]); assert("delete word forward"@[0] != "left"@[0]); }
        if i == 1 { assert("delete word forward"@.subrange(i, i + 4)[0] == "delete word forward"@[1]); assert("delete word forward"@[1] != "left"@[0]); }
        if i == 2 { assert("delete word forward"@.subrange(i, i + 4)[2] == "delete word forward"@[4]); assert("delete word forward"@[4] != "left"@[2]); }
        if i == 3 { assert("delete word forward"@.subrange(i, i + 4)[0] == "delete word forward"@[3]); assert("delete word forward"@[3] != "left"@[0]); }
        if i == 4 { assert("delete word forward"@.subrange(i, i + 4)[0] == "delete word forward"@[4]); assert("delete word forward"@[4] != "left"@[0]); }
        if i == 5 { assert("delete word forward"@.subrange(i, i + 4)[0] == "delete word forward"@[5]); assert("delete word forward"@[5] != "left"@[0]); }
        if i == 6 { assert("delete word forward"@.subrange(i, i + 4)[0] == "delete word forward"@[6]); assert("delete word forward"@[6] != "left"@[0]); }
        if i == 7 { assert("delete word forward"@.subrange(i, i + 4)[0] == "delete word forward"@[7]); assert("delete word forward"@[7] != "left"@[0]); }
        if i == 8 { assert("delete word forward"@.subrange(i, i + 4)[0] == "delete word forward"@[8]); assert("delete word forward"@[8] != "left"@[0]); }
        if i == 9 { assert("delete word forward"@.subrange(i, i + 4)[0] == "delete word forward"@[9]); assert("delete word forward"@[9] != "left"@[0]); }
        if i == 10 { assert("delete word forward"@.subrange(i, i + 4)[0] == "delete word forward"@[10]); assert("delete word forward"@[10] != "left"@[0]); }
        if i == 11 { assert("delete word forward"@.subrange(i, i + 4)[0] == "delete word forward"@[11]); assert("delete word forward"@[11] != "left"@[0]); }
        if i == 12 { assert("delete word forward"@.subrange(i, i + 4)[0] == "delete word forward"@[12]); assert("delete word forward"@[12] != "left"@[0]); }
        if i == 13 { assert("delete word forward"@.subrange(i, i + 4)[0] == "delete word forward"@[13]); assert("delete word forward"@[13] != "left"@[0]); }
        if i == 14 { assert("delete word forward"@.subrange(i, i + 4)[0] == "delete word forward"@[14]); assert("delete word forward"@[14] != "left"@[0]); }
        if i == 15 { assert("delete word forward"@.subrange(i, i + 4)[0] == "delete word forward"@[15]); assert("delete word forward"@[15] != "left"@[0]); }
    }
    assert forall|i: int| 0 <= i && i + 4 <= "delete word forward"@.len() implies #[trigger] "delete word forward"@.subrange(i, i + 4) != "last"@ by {
        if i == 0 { assert("delete word forward"@.subrange(i, i + 4)[0] == "delete word forward"@[0]); assert("delete word forward"@[0] != "last"@[0]); }
        if i == 1 { assert("delete word forward"@.subrange(i, i + 4)[0] == "delete word forward"@[1]); assert("delete word forward"@[1] != "last"@[0]); }
        if i == 2 { assert("delete word forward"@.subrange(i, i + 4)[1] == "delete word forward"@[3]); assert("delete word forward"@[3] != "last"@[1]); }
        if i == 3 { assert("delete word forward"@.subrange(i, i + 4)[0] == "delete word forward"@[3]); assert("delete word forward"@[3] != "last"@[0]); }
        if i == 4 { assert("delete word forward"@.subrange(i, i + 4)[0] == "delete word forward"@[4]); assert("delete word forward"@[4] != "last"@[0]); }
        if i == 5 { assert("delete word forward"@.subrange(i, i + 4)[0] == "delete word forward"@[5]); assert("delete word forward"@[5] != "last"@[0]); }
        if i == 6 { assert("delete word forward"@.subrange(i, i + 4)[0] == "delete word forward"@[6]); assert("delete word forward"@[6] != "last"@[0]); }
        if i == 7 { assert("delete word forward"@.subrange(i, i + 4)[0] == "delete word forward"@[7]); assert("delete word forward"@[7] != "last"@[0]); }
        if i == 8 { assert("delete word forward"@.subrange(i, i + 4)[0] == "delete word forward"@[8]); assert("delete word forward"@[8] != "last"@[0]); }
        if i == 9 { assert("delete word forward"@.subrange(i, i + 4)[0] == "delete word forward"@[9]); assert("delete word forward"@[9] != "last"@[0]); }
        if i == 10 { assert("delete word forward"@.subrange(i, i + 4)[0] == "delete word forward"@[10]); assert("delete word forward"@[10] != "last"@[0]); }
        if i == 11 { assert("delete word forward"@.subrange(i, i + 4)[0] == "delete word forward"@[11]); assert("delete word forward"@[11] != "last"@[0]); }
        if i == 12 { assert("delete word forward"@.subrange(i, i + 4)[0] == "delete word forward"@[12]); assert("delete word forward"@[12] != "last"@[0]); }
        if i == 13 { assert("delete word forward"@.subrange(i, i + 4)[0] == "delete word forward"@[13]); assert("delete word forward"@[13] != "last"@[0]); }
        if i == 14 { assert("delete word forward"@.subrange(i, i + 4)[0] == "delete word forward"@[14]); assert("delete word forward"@[14] != "last"@[0]); }
        if i == 15 { assert("delete word forward"@.subrange(i, i + 4)[0] == "delete word forward"@[15]); assert("delete word forward"@[15] != "last"@[0]); }
    }
}

proof fn lemma_nm_delete_forward_word()
    ensures
        !mentions("delete forward word"@, "back"@),
        !mentions("delete forward word"@, "previous"@),
        !mentions("delete forward word"@, "left"@),
        !mentions("delete forward word"@, "last"@),
{
    reveal_strlit("delete forward word");
    reveal_strlit("back");
    reveal_strlit("previous");
    reveal_strlit("left");
    reveal_strlit("last");
    assert forall|i: int| 0 <= i && i + 4 <= "delete forward word"@.len() implies #[trigger] "delete forward word"@.subrange(i, i + 4) != "back"@ by {
        if i == 0 { assert("delete forward word"@.subrange(i, i + 4)[0] == "delete forward word"@[0]); assert("delete forward word"@[0] != "back"@[0]); }
        if i == 1 { assert("delete forward word"@.subrange(i, i + 4)[0] == "delete forward word"@[1]); assert("delete forward word"@[1] != "back"@[0]); }
        if i == 2 { assert("delete forward word"@.subrange(i, i + 4)[0] == "delete forward word"@[2]); assert("delete forward word"@[2] != "back"@[0]); }
        if i == 3 { assert("delete forward word"@.subrange(i, i + 4)[0] == "delete forward word"@[3]); assert("delete forward word"@[3] != "back"@[0]); }
        if i == 4 { assert("delete forward word"@.subrange(i, i + 4)[0] == "delete forward word"@[4]); assert("delete forward word"@[4] != "back"@[0]); }
        if i == 5 { assert("delete forward word"@.subrange(i, i + 4)[0] == "delete forward word"@[5]); assert("delete forward word"@[5] != "back"@[0]); }
        if i == 6 { assert("delete forward word"@.subrange(i, i + 4)[0] == "delete forward word"@[6]); assert("delete forward word"@[6] != "back"@[0]); }
        if i == 7 { assert("delete forward word"@.subrange(i, i + 4)[0] == "delete forward word"@[7]); assert("delete forward word"@[7] != "back"@[0]); }
        if i == 8 { assert("delete forward word"@.subrange(i, i + 4)[0] == "delete forward word"@[8]); assert("delete forward word"@[8] != "back"@[0]); }
        if i == 9 { assert("delete forward word"@.subrange(i, i + 4)[0] == "delete forward word"@[9]); assert("delete forward word"@[9] != "back"@[0]); }
        if i == 10 { assert("delete forward word"@.subrange(i, i + 4)[0] == "delete forward word"@[10]); assert("delete forward word"@[10] != "back"@[0]); }
        if i == 11 { assert("delete forward word"@.subrange(i, i + 4)[0] == "delete forward word"@[11]); assert("delete forward word"@[11] != "back"@[0]); }
        if i == 12 { assert("delete forward word"@.subrange(i, i + 4)[0] == "delete forward word"@[12]); assert("delete forward word"@[12] != "back"@[0]); }
        if i == 13 { assert("delete forward word"@.subrange(i, i + 4)[0] == "delete forward word"@[13]); assert("delete forward word"@[13] != "back"@[0]); }
        if i == 14 { assert("delete forward word"@.subrange(i, i + 4)[0] == "delete forward word"@[14]); assert("delete forward word"@[14] != "back"@[0]); }
        if i == 15 { assert("delete forward word"@.subrange(i, i + 4)[0] == "delete forward word"@[15]); assert("delete forward word"@[15] != "back"@[0]); }
    }
    assert forall|i: int| 0 <= i && i + 8 <= "delete forward word"@.len() implies #[trigger] "delete forward word"@.subrange(i, i + 8) != "previous"@ by {
        if i == 0 { assert("delete forward word"@.subrange(i, i + 8)[0] == "delete forward word"@[0]); assert("delete forward word"@[0] != "previous"@[0]); }
        if i == 1 { assert("delete forward word"@.subrange(i, i + 8)[0] == "delete forward word"@[1]); assert("delete forward word"@[1] != "previous"@[0]); }
        if i == 2 { assert("delete forward word"@.subrange(i, i + 8)[0] == "delete forward word"@[2]); assert("delete forward word"@[2] != "previous"@[0]); }
        if i == 3 { assert("delete forward word"@.subrange(i, i + 8)[0] == "delete forward word"@[3]); assert("delete forward word"@[3] != "previous"@[0]); }
        if i == 4 { assert("delete forward word"@.subrange(i, i + 8)[0] == "delete forward word"@[4]); assert("delete forward word"@[4] != "previous"@[0]); }
        if i == 5 { assert("delete forward word"@.subrange(i, i + 8)[0] == "delete forward word"@[5]); assert("delete forward word"@[5] != "previous"@[0]); }
        if i == 6 { assert("delete forward word"@.subrange(i, i + 8)[0] == "delete forward word"@[6]); assert("delete forward word"@[6] != "previous"@[0]); }
        if i == 7 { assert("delete forward word"@.subrange(i, i + 8)[0] == "delete forward word"@[7]); assert("delete forward word"@[7] != "previous"@[0]); }
        if i == 8 { assert("delete forward word"@.subrange(i, i + 8)[0] == "delete forward word"@[8]); assert("delete forward word"@[8] != "previous"@[0]); }
        if i == 9 { assert("delete forward word"@.subrange(i, i + 8)[0] == "delete forward word"@[9]); assert("delete forward word"@[9] != "previous"@[0]); }
        if i == 10 { assert("delete forward word"@.subrange(i, i + 8)[0] == "delete forward word"@[10]); assert("delete forward word"@[10] != "previous"@[0]); }
        if i == 11 { assert("delete forward word"@.subrange(i, i + 8)[0] == "delete forward word"@[11]); assert("delete forward word"@[11] != "previous"@[0]); }
    }
    assert forall|i: int| 0 <= i && i + 4 <= "delete forward word"@.len() implies #[trigger] "delete forward word"@.subrange(i, i + 4) != "left"@ by {
        if i == 0 { assert("delete forward word"@.subrange(i, i + 4)[0] == "delete forward word"@[0]); assert("delete forward word"@[0] != "left"@[0]); }
        if i == 1 { assert("delete forward word"@.subrange(i, i + 4)[0] == "delete forward word"@[1]); assert("delete forward word"@[1] != "left"@[0]); }
        if i == 2 { assert("delete forward word"@.subrange(i, i + 4)[2] == "delete forward word"@[4]); assert("delete forward word"@[4] != "left"@[2]); }
        if i == 3 { assert("delete forward word"@.subrange(i, i + 4)[0] == "delete forward word"@[3]); assert("delete forward word"@[3] != "left"@[0]); }
        if i == 4 { assert("delete forward word"@.subrange(i, i + 4)[0] == "delete forward word"@[4]); assert("delete forward word"@[4] != "left"@[0]); }
        if i == 5 { assert("delete forward word"@.subrange(i, i + 4)[0] == "delete forward word"@[5]); assert("delete forward word"@[5] != "left"@[0]); }
        if i == 6 { assert("delete forward word"@.subrange(i, i + 4)[0] == "delete forward word"@[6]); assert("delete forward word"@[6] != "left"@[0]); }
        if i == 7 { assert("delete forward word"@.subrange(i, i + 4)[0] == "delete forward word"@[7]); assert("delete forward word"@[7] != "left"@[0]); }
        if i == 8 { assert("delete forward word"@.subrange(i, i + 4)[0] == "delete forward word"@[8]); assert("delete forward word"@[8] != "left"@[0]); }
        if i == 9 { assert("delete forward word"@.subrange(i, i + 4)[0] == "delete forward word"@[9]); assert("delete forward word"@[9] != "left"@[0]); }
        if i == 10 { assert("delete forward word"@.subrange(i, i + 4)[0] == "delete forward word"@[10]); assert("delete forward word"@[10] != "left"@[0]); }
        if i == 11 { assert("delete forward word"@.subrange(i, i + 4)[0] == "delete forward word"@[11]); assert("delete forward word"@[11] != "left"@[0]); }
        if i == 12 { assert("delete forward word"@.subrange(i, i + 4)[0] == "delete forward word"@[12]); assert("delete forward word"@[12] != "left"@[0]); }
        if i == 13 { assert("delete forward word"@.subrange(i, i + 4)[0] == "delete forward word"@[13]); assert("delete forward word"@[13] != "left"@[0]); }
        if i == 14 { assert("delete forward word"@.subrange(i, i + 4)[0] == "delete forward word"@[14]); assert("delete forward word"@[14] != "left"@[0]); }
        if i == 15 { assert("delete forward word"@.subrange(i, i + 4)[0] == "delete forward word"@[15]); assert("delete forward word"@[15] != "left"@[0]); }
    }
    assert forall|i: int| 0 <= i && i + 4 <= "delete forward word"@.len() implies #[trigger] "delete forward word"@.subrange(i, i + 4) != "last"@ by {
        if i == 0 { assert("delete forward word"@.subrange(i, i + 4)[0] == "delete forward word"@[0]); assert("delete forward word"@[0] != "last"@[0]); }
        if i == 1 { assert("delete forward word"@.subrange(i, i + 4)[0] == "delete forward word"@[1]); assert("delete forward word"@[1] != "last"@[0]); }
        if i == 2 { assert("delete forward word"@.subrange(i, i + 4)[1] == "delete forward word"@[3]); assert("delete forward word"@[3] != "last"@[1]); }
        if i == 3 { assert("delete forward word"@.subrange(i, i + 4)[0] == "delete forward word"@[3]); assert("delete forward word"@[3] != "last"@[0]); }
        if i == 4 { assert("delete forward word"@.subrange(i, i + 4)[0] == "delete forward word"@[4]); assert("delete forward word"@[4] != "last"@[0]); }
        if i == 5 { assert("delete forward word"@.subrange(i, i + 4)[0] == "delete forward word"@[5]); assert("delete forward word"@[5] != "last"@[0]); }
        if i == 6 { assert("delete forward word"@.subrange(i, i + 4)[0] == "delete forward word"@[6]); assert("delete forward word"@[6] != "last"@[0]); }
        if i == 7 { assert("delete forward word"@.subrange(i, i + 4)[0] == "delete forward word"@[7]); assert("delete forward word"@[7] != "last"@[0]); }
        if i == 8 { assert("delete forward word"@.subrange(i, i + 4)[0] == "delete forward word"@[8]); assert("delete forward word"@[8] != "last"@[0]); }
        if i == 9 { assert("delete forward word"@.subrange(i, i + 4)[0] == "delete forward word"@[9]); assert("delete forward word"@[9] != "last"@[0]); }
        if i == 10 { assert("delete forward word"@.subrange(i, i + 4)[0] == "delete forward word"@[10]); assert("delete forward word"@[10] != "last"@[0]); }
        if i == 11 { assert("delete forward word"@.subrange(i, i + 4)[0] == "delete forward word"@[11]); assert("delete forward word"@[11] != "last"@[0]); }
        if i == 12 { assert("delete forward word"@.subrange(i, i + 4)[0] == "delete forward word"@[12]); assert("delete forward word"@[12] != "last"@[0]); }
        if i == 13 { assert("delete forward word"@.subrange(i, i + 4)[0] == "delete forward word"@[13]); assert("delete forward word"@[13] != "last"@[0]); }
        if i == 14 { assert("delete forward word"@.subrange(i, i + 4)[0] == "delete forward word"@[14]); assert("delete forward word"@[14] != "last"@[0]); }
        if i == 15 { assert("delete forward word"@.subrange(i, i + 4)[0] == "delete forward word"@[15]); assert("delete forward word"@[15] != "last"@[0]); }
    }
}

proof fn lemma_nm_word_right()
    ensures
        !mentions("word right"@, "back"@),
        !mentions("word right"@, "previous"@),
        !mentions("word right"@, "left"@),
        !mentions("word right"@, "last"@),
{
    reveal_strlit("word right");
    reveal_strlit("back");
    reveal_strlit("previous");
    reveal_strlit("left");
    reveal_strlit("last");
    assert forall|i: int| 0 <= i && i + 4 <= "word right"@.len() implies #[trigger] "word right"@.subrange(i, i + 4) != "back"@ by {
        if i == 0 { assert("word right"@.subrange(i, i + 4)[0] == "word right"@[0]); assert("word right"@[0] != "back"@[0]); }
        if i == 1 { assert("word right"@.subrange(i, i + 4)[0] == "word right"@[1]); assert("word right"@[1] != "back"@[0]); }
        if i == 2 { assert("word right"@.subrange(i, i + 4)[0] == "word right"@[2]); assert("word right"@[2] != "back"@[0]); }
        if i == 3 { assert("word right"@.subrange(i, i + 4)[0] == "word right"@[3]); assert("word right"@[3] != "back"@[0]); }
        if i == 4 { assert("word right"@.subrange(i, i + 4)[0] == "word right"@[4]); assert("word right"@[4] != "back"@[0]); }
        if i == 5 { assert("word right"@.subrange(i, i + 4)[0] == "word right"@[5]); assert("word right"@[5] != "back"@[0]); }
        if i == 6 { assert("word right"@.subrange(i, i + 4)[0] == "word right"@[6]); assert("word right"@[6] != "back"@[0]); }
    }
    assert forall|i: int| 0 <= i && i + 8 <= "word right"@.len() implies #[trigger] "word right"@.subrange(i, i + 8) != "previous"@ by {
        if i == 0 { assert("word right"@.subrange(i, i + 8)[0] == "word right"@[0]); assert("word right"@[0] != "previous"@[0]); }
        if i == 1 { assert("word right"@.subrange(i, i + 8)[0] == "word right"@[1]); assert("word right"@[1] != "previous"@[0]); }
        if i == 2 { assert("word right"@.subrange(i, i + 8)[0] == "word right"@[2]); assert("word right"@[2] != "previous"@[0]); }
    }
    assert forall|i: int| 0 <= i && i + 4 <= "word right"@.len() implies #[trigger] "word right"@.subrange(i, i + 4) != "left"@ by {
        if i == 0 { assert("word right"@.subrange(i, i + 4)[0] == "word right"@[0]); assert("word right"@[0] != "left"@[0]); }
        if i == 1 { assert("word right"@.subrange(i, i + 4)[0] == "word right"@[1]); assert("word right"@[1] != "left"@[0]); }
        if i == 2 { assert("word right"@.subrange(i, i + 4)[0] == "word right"@[2]); assert("word right"@[2] != "left"@[0]); }
        if i == 3 { assert("word right"@.subrange(i, i + 4)[0] == "word right"@[3]); assert("word right"@[3] != "left"@[0]); }
        if i == 4 { assert("word right"@.subrange(i, i + 4)[0] == "word right"@[4]); assert("word right"@[4] != "left"@[0]); }
        if i == 5 { assert("word right"@.subrange(i, i + 4)[0] == "word right"@[5]); assert("word right"@[5] != "left"@[0]); }
        if i == 6 { assert("word right"@.subrange(i, i + 4)[0] == "word right"@[6]); assert("word right"@[6] != "left"@[0]); }
    }
    assert forall|i: int| 0 <= i && i + 4 <= "word right"@.len() implies #[trigger] "word right"@.subrange(i, i + 4) != "last"@ by {
        if i == 0 { assert("word right"@.subrange(i, i + 4)[0] == "word right"@[0]); assert("word right"@[0] != "last"@[0]); }
        if i == 1 { assert("word right"@.subrange(i, i + 4)[0] == "word right"@[1]); assert("word right"@[1] != "last"@[0]); }
        if i == 2 { assert("word right"@.subrange(i, i + 4)[0] == "word right"@[2]); assert("word right"@[2] != "last"@[0]); }
        if i == 3 { assert("word right"@.subrange(i, i + 4)[0] == "word right"@[3]); assert("word right"@[3] != "last"@[0]); }
        if i == 4 { assert("word right"@.subrange(i, i + 4)[0] == "word right"@[4]); assert("word right"@[4] != "last"@[0]); }
        if i == 5 { assert("word right"@.subrange(i, i + 4)[0] == "word right"@[5]); assert("word right"@[5] != "last"@[0]); }
        if i == 6 { assert("word right"@.subrange(i, i + 4)[0] == "word right"@[6]); assert("word right"@[6] != "last"@[0]); }
    }
}

proof fn lemma_nm_move_word_right()
    ensures
        !mentions("move word right"@, "back"@),
        !mentions("move word right"@, "previous"@),
        !mentions("move word right"@, "left"@),
        !mentions("move word right"@, "last"@),
{
    reveal_strlit("move word right");
    reveal_strlit("back");
    reveal_strlit("previous");
    reveal_strlit("left");
    reveal_strlit("last");
    assert forall|i: int| 0 <= i && i + 4 <= "move word right"@.len() implies #[trigger] "move word right"@.subrange(i, i + 4) != "back"@ by {
        if i == 0 { assert("move word right"@.subrange(i, i + 4)[0] == "move word right"@[0]); assert("move word right"@[0] != "back"@[0]); }
        if i == 1 { assert("move word right"@.subrange(i, i + 4)[0] == "move word right"@[1]); assert("move word right"@[1] != "back"@[0]); }
        if i == 2 { assert("move word right"@.subrange(i, i + 4)[0] == "move word right"@[2]); assert("move word right"@[2] != "back"@[0]); }
        if i == 3 { assert("move word right"@.subrange(i, i + 4)[0] == "move word right"@[3]); assert("move word right"@[3] != "back"@[0]); }
        if i == 4 { assert("move word right"@.subrange(i, i + 4)[0] == "move word right"@[4]); assert("move word right"@[4] != "back"@[0]); }
        if i == 5 { assert("move word right"@.subrange(i, i + 4)[0] == "move word right"@[5]); assert("move word right"@[5] != "back"@[0]); }
        if i == 6 { assert("move word right"@.subrange(i, i + 4)[0] == "move word right"@[6]); assert("move word right"@[6] != "back"@[0]); }
        if i == 7 { assert("move word right"@.subrange(i, i + 4)[0] == "move word right"@[7]); assert("move word right"@[7] != "back"@[0]); }
        if i == 8 { assert("move word right"@.subrange(i, i + 4)[0] == "move word right"@[8]); assert("move word right"@[8] != "back"@[0]); }
        if i == 9 { assert("move word right"@.subrange(i, i + 4)[0] == "move word right"@[9]); assert("move word right"@[9] != "back"@[0]); }
        if i == 10 { assert("move word right"@.subrange(i, i + 4)[0] == "move word right"@[10]); assert("move word right"@[10] != "back"@[0]); }
        if i == 11 { assert("move word right"@.subrange(i, i + 4)[0] == "move word right"@[11]); assert("move word right"@[11] != "back"@[0]); }
    }
    assert forall|i: int| 0 <= i && i + 8 <= "move word right"@.len() implies #[trigger] "move word right"@.subrange(i, i + 8) != "previous"@ by {
        if i == 0 { assert("move word right"@.subrange(i, i + 8)[0] == "move word right"@[0]); assert("move word right"@[0] != "previous"@[0]); }
        if i == 1 { assert("move word right"@.subrange(i, i + 8)[0] == "move word right"@[1]); assert("move word right"@[1] != "previous"@[0]); }
        if i == 2 { assert("move word right"@.subrange(i, i + 8)[0] == "move word right"@[2]); assert("move word right"@[2] != "previous"@[0]); }
        if i == 3 { assert("move word right"@.subrange(i, i + 8)[0] == "move word right"@[3]); assert("move word right"@[3] != "previous"@[0]); }
        if i == 4 { assert("move word right"@.subrange(i, i + 8)[0] == "move word right"@[4]); assert("move word right"@[4] != "previous"@[0]); }
        if i == 5 { assert("move word right"@.subrange(i, i + 8)[0] == "move word right"@[5]); assert("move word right"@[5] != "previous"@[0]); }
        if i == 6 { assert("move word right"@.subrange(i, i + 8)[0] == "move word right"@[6]); assert("move word right"@[6] != "previous"@[0]); }
        if i == 7 { assert("move word right"@.subrange(i, i + 8)[0] == "move word right"@[7]); assert("move word right"@[7] != "previous"@[0]); }
    }
    assert forall|i: int| 0 <= i && i + 4 <= "move word right"@.len() implies #[trigger] "move word right"@.subrange(i, i + 4) != "left"@ by {
        if i == 0 { assert("move word right"@.subrange(i, i + 4)[0] == "move word right"@[0]); assert("move word right"@[0] != "left"@[0]); }
        if i == 1 { assert("move word right"@.subrange(i, i + 4)[0] == "move word right"@[1]); assert("move word right"@[1] != "left"@[0]); }
        if i == 2 { assert("move word right"@.subrange(i, i + 4)[0] == "move word right"@[2]); assert("move word right"@[2] != "left"@[0]); }
        if i == 3 { assert("move word right"@.subrange(i, i + 4)[0] == "move word right"@[3]); assert("move word right"@[3] != "left"@[0]); }
        if i == 4 { assert("move word right"@.subrange(i, i + 4)[0] == "move word right"@[4]); assert("move word right"@[4] != "left"@[0]); }
        if i == 5 { assert("move word right"@.subrange(i, i + 4)[0] == "move word right"@[5]); assert("move word right"@[5] != "left"@[0]); }
        if i == 6 { assert("move word right"@.subrange(i, i + 4)[0] == "move word right"@[6]); assert("move word right"@[6] != "left"@[0]); }
        if i == 7 { assert("move word right"@.subrange(i, i + 4)[0] == "move word right"@[7]); assert("move word right"@[7] != "left"@[0]); }
        if i == 8 { assert("move word right"@.subrange(i, i + 4)[0] == "move word right"@[8]); assert("move word right"@[8] != "left"@[0]); }
        if i == 9 { assert("move word right"@.subrange(i, i + 4)[0] == "move word right"@[9]); assert("move word right"@[9] != "left"@[0]); }
        if i == 10 { assert("move word right"@.subrange(i, i + 4)[0] == "move word right"@[10]); assert("move word right"@[10] != "left"@[0]); }
        if i == 11 { assert("move word right"@.subrange(i, i + 4)[0] == "move word right"@[11]); assert("move word right"@[11] != "left"@[0]); }
    }
    assert forall|i: int| 0 <= i && i + 4 <= "move word right"@.len() implies #[trigger] "move word right"@.subrange(i, i + 4) != "last"@ by {
        if i == 0 { assert("move word right"@.subrange(i, i + 4)[0] == "move word right"@[0]); assert("move word right"@[0] != "last"@[0]); }
        if i == 1 { assert("move word right"@.subrange(i, i + 4)[0] == "move word right"@[1]); assert("move word right"@[1] != "last"@[0]); }
        if i == 2 { assert("move word right"@.subrange(i, i + 4)[0] == "move word right"@[2]); assert("move word right"@[2] != "last"@[0]); }
        if i == 3 { assert("move word right"@.subrange(i, i + 4)[0] == "move word right"@[3]); assert("move word right"@[3] != "last"@[0]); }
        if i == 4 { assert("move word right"@.subrange(i, i + 4)[0] == "move word right"@[4]); assert("move word right"@[4] != "last"@[0]); }
        if i == 5 { assert("move word right"@.subrange(i, i + 4)[0] == "move word right"@[5]); assert("move word right"@[5] != "last"@[0]); }
        if i == 6 { assert("move word right"@.subrange(i, i + 4)[0] == "move word right"@[6]); assert("move word right"@[6] != "last"@[0]); }
        if i == 7 { assert("move word right"@.subrange(i, i + 4)[0] == "move word right"@[7]); assert("move word right"@[7] != "last"@[0]); }
        if i == 8 { assert("move word right"@.subrange(i, i + 4)[0] == "move word right"@[8]); assert("move word right"@[8] != "last"@[0]); }
        if i == 9 { assert("move word right"@.subrange(i, i + 4)[0] == "move word right"@[9]); assert("move word right"@[9] != "last"@[0]); }
        if i == 10 { assert("move word right"@.subrange(i, i + 4)[0] == "move word right"@[10]); assert("move word right"@[10] != "last"@[0]); }
        if i == 11 { assert("move word right"@.subrange(i, i + 4)[0] == "move word right"@[11]); assert("move word right"@[11] != "last"@[0]); }
    }
}

proof fn lemma_nm_select_word_right()
    ensures
        !mentions("select word right"@, "back"@),
        !mentions("select word right"@, "previous"@),
        !mentions("select word right"@, "left"@),
        !mentions("select word right"@, "last"@),
{
    reveal_strlit("select word right");
    reveal_strlit("back");
    reveal_strlit("previous");
    reveal_strlit("left");
    reveal_strlit("last");
    assert forall|i: int| 0 <= i && i + 4 <= "select word right"@.len() implies #[trigger] "select word right"@.subrange(i, i + 4) != "back"@ by {
        if i == 0 { assert("select word right"@.subrange(i, i + 4)[0] == "select word right"@[0]); assert("select word right"@[0] != "back"@[0]); }
        if i == 1 { assert("select word right"@.subrange(i, i + 4)[0] == "select word right"@[1]); assert("select word right"@[1] != "back"@[0]); }
        if i == 2 { assert("select word right"@.subrange(i, i + 4)[0] == "select word right"@[2]); assert("select word right"@[2] != "back"@[0]); }
        if i == 3 { assert("select word right"@.subrange(i, i + 4)[0] == "select word right"@[3]); assert("select word right"@[3] != "back"@[0]); }
        if i == 4 { assert("select word right"@.subrange(i, i + 4)[0] == "select word right"@[4]); assert("select word right"@[4] != "back"@[0]); }
        if i == 5 { assert("select word right"@.subrange(i, i + 4)[0] == "select word right"@[5]); assert("select word right"@[5] != "back"@[0]); }
        if i == 6 { assert("select word right"@.subrange(i, i + 4)[0] == "select word right"@[6]); assert("select word right"@[6] != "back"@[0]); }
        if i == 7 { assert("select word right"@.subrange(i, i + 4)[0] == "select word right"@[7]); assert("select word right"@[7] != "back"@[0]); }
        if i == 8 { assert("select word right"@.subrange(i, i + 4)[0] == "select word right"@[8]); assert("select word right"@[8] != "back"@[0]); }
        if i == 9 { assert("select word right"@.subrange(i, i + 4)[0] == "select word right"@[9]); assert("select word right"@[9] != "back"@[0]); }
        if i == 10 { assert("select word right"@.subrange(i, i + 4)[0] == "select word right"@[10]); assert("select word right"@[10] != "back"@[0]); }
        if i == 11 { assert("select word right"@.subrange(i, i + 4)[0] == "select word right"@[11]); assert("select word right"@[11] != "back"@[0]); }
        if i == 12 { assert("select word right"@.subrange(i, i + 4)[0] == "select word right"@[12]); assert("select word right"@[12] != "back"@[0]); }
        if i == 13 { assert("select word right"@.subrange(i, i + 4)[0] == "select word right"@[13]); assert("select word right"@[13] != "back"@[0]); }
    }
    assert forall|i: int| 0 <= i && i + 8 <= "select word right"@.len() implies #[trigger] "select word right"@.subrange(i, i + 8) != "previous"@ by {
        if i == 0 { assert("select word right"@.subrange(i, i + 8)[0] == "select word right"@[0]); assert("select word right"@[0] != "previous"@[0]); }
        if i == 1 { assert("select word right"@.subrange(i, i + 8)[0] == "select word right"@[1]); assert("select word right"@[1] != "previous"@[0]); }
        if i == 2 { assert("select word right"@.subrange(i, i + 8)[0] == "select word right"@[2]); assert("select word right"@[2] != "previous"@[0]); }
        if i == 3 { assert("select word right"@.subrange(i, i + 8)[0] == "select word right"@[3]); assert("select word right"@[3] != "previous"@[0]); }
        if i == 4 { assert("select word right"@.subrange(i, i + 8)[0] == "select word right"@[4]); assert("select word right"@[4] != "previous"@[0]); }
        if i == 5 { assert("select word right"@.subrange(i, i + 8)[0] == "select word right"@[5]); assert("select word right"@[5] != "previous"@[0]); }
        if i == 6 { assert("select word right"@.subrange(i, i + 8)[0] == "select word right"@[6]); assert("select word right"@[6] != "previous"@[0]); }
        if i == 7 { assert("select word right"@.subrange(i, i + 8)[0] == "select word right"@[7]); assert("select word right"@[7] != "previous"@[0]); }
        if i == 8 { assert("select word right"@.subrange(i, i + 8)[0] == "select word right"@[8]); assert("select word right"@[8] != "previous"@[0]); }
        if i == 9 { assert("select word right"@.subrange(i, i + 8)[0] == "select word right"@[9]); assert("select word right"@[9] != "previous"@[0]); }
    }
    assert forall|i: int| 0 <= i && i + 4 <= "select word right"@.len() implies #[trigger] "select word right"@.subrange(i, i + 4) != "left"@ by {
        if i == 0 { assert("select word right"@.subrange(i, i + 4)[0] == "select word right"@[0]); assert("select word right"@[0] != "left"@[0]); }
        if i == 1 { assert("select word right"@.subrange(i, i + 4)[0] == "select word right"@[1]); assert("select word right"@[1] != "left"@[0]); }
        if i == 2 { assert("select word right"@.subrange(i, i + 4)[2] == "select word right"@[4]); assert("select word right"@[4] != "left"@[2]); }
        if i == 3 { assert("select word right"@.subrange(i, i + 4)[0] == "select word right"@[3]); assert("select word right"@[3] != "left"@[0]); }
        if i == 4 { assert("select word right"@.subrange(i, i + 4)[0] == "select word right"@[4]); assert("select word right"@[4] != "left"@[0]); }
        if i == 5 { assert("select word right"@.subrange(i, i + 4)[0] == "select word right"@[5]); assert("select word right"@[5] != "left"@[0]); }
        if i == 6 { assert("select word right"@.subrange(i, i + 4)[0] == "select word right"@[6]); assert("select word right"@[6] != "left"@[0]); }
        if i == 7 { assert("select word right"@.subrange(i, i + 4)[0] == "select word right"@[7]); assert("select word right"@[7] != "left"@[0]); }
        if i == 8 { assert("select word right"@.subrange(i, i + 4)[0] == "select word right"@[8]); assert("select word right"@[8] != "left"@[0]); }
        if i == 9 { assert("select word right"@.subrange(i, i + 4)[0] == "select word right"@[9]); assert("select word right"@[9] != "left"@[0]); }
        if i == 10 { assert("select word right"@.subrange(i, i + 4)[0] == "select word right"@[10]); assert("select word right"@[10] != "left"@[0]); }
        if i == 11 { assert("select word right"@.subrange(i, i + 4)[0] == "select word right"@[11]); assert("select word right"@[11] != "left"@[0]); }
        if i == 12 { assert("select word right"@.subrange(i, i + 4)[0] == "select word right"@[12]); assert("select word right"@[12] != "left"@[0]); }
        if i == 13 { assert("select word right"@.subrange(i, i + 4)[0] == "select word right"@[13]); assert("select word right"@[13] != "left"@[0]); }
    }
    assert forall|i: int| 0 <= i && i + 4 <= "select word right"@.len() implies #[trigger] "select word right"@.subrange(i, i + 4) != "last"@ by {
        if i == 0 { assert("select word right"@.subrange(i, i + 4)[0] == "select word right"@[0]); assert("select word right"@[0] != "last"@[0]); }
        if i == 1 { assert("select word right"@.subrange(i, i + 4)[0] == "select word right"@[1]); assert("select word right"@[1] != "last"@[0]); }
        if i == 2 { assert("select word right"@.subrange(i, i + 4)[1] == "select word right"@[3]); assert("select word right"@[3] != "last"@[1]); }
        if i == 3 { assert("select word right"@.subrange(i, i + 4)[0] == "select word right"@[3]); assert("select word right"@[3] != "last"@[0]); }
        if i == 4 { assert("select word right"@.subrange(i, i + 4)[0] == "select word right"@[4]); assert("select word right"@[4] != "last"@[0]); }
        if i == 5 { assert("select word right"@.subrange(i, i + 4)[0] == "select word right"@[5]); assert("select word right"@[5] != "last"@[0]); }
        if i == 6 { assert("select word right"@.subrange(i, i + 4)[0] == "select word right"@[6]); assert("select word right"@[6] != "last"@[0]); }
        if i == 7 { assert("select word right"@.subrange(i, i + 4)[0] == "select word right"@[7]); assert("select word right"@[7] != "last"@[0]); }
        if i == 8 { assert("select word right"@.subrange(i, i + 4)[0] == "select word right"@[8]); assert("select word right"@[8] != "last"@[0]); }
        if i == 9 { assert("select word right"@.subrange(i, i + 4)[0] == "select word right"@[9]); assert("select word right"@[9] != "last"@[0]); }
        if i == 10 { assert("select word right"@.subrange(i, i + 4)[0] == "select word right"@[10]); assert("select word right"@[10] != "last"@[0]); }
        if i == 11 { assert("select word right"@.subrange(i, i + 4)[0] == "select word right"@[11]); assert("select word right"@[11] != "last"@[0]); }
        if i == 12 { assert("select word right"@.subrange(i, i + 4)[0] == "select word right"@[12]); assert("select word right"@[12] != "last"@[0]); }
        if i == 13 { assert("select word right"@.subrange(i, i + 4)[0] == "select word right"@[13]); assert("select word right"@[13] != "last"@[0]); }
    }
}

proof fn lemma_nm_go_to_word_right()
    ensures
        !mentions("go to word right"@, "back"@),
        !mentions("go to word right"@, "previous"@),
        !mentions("go to word right"@, "left"@),
        !mentions("go to word right"@, "last"@),
{
    reveal_strlit("go to word right");
    reveal_strlit("back");
    reveal_strlit("previous");
    reveal_strlit("left");
    reveal_strlit("last");
    assert forall|i: int| 0 <= i && i + 4 <= "go to word right"@.len() implies #[trigger] "go to word right"@.subrange(i, i + 4) != "back"@ by {
        if i == 0 { assert("go to word right"@.subrange(i, i + 4)[0] == "go to word right"@[0]); assert("go to word right"@[0] != "back"@[0]); }
        if i == 1 { assert("go to word right"@.subrange(i, i + 4)[0] == "go to word right"@[1]); assert("go to word right"@[1] != "back"@[0]); }
        if i == 2 { assert("go to word right"@.subrange(i, i + 4)[0] == "go to word right"@[2]); assert("go to word right"@[2] != "back"@[0]); }
        if i == 3 { assert("go to word right"@.subrange(i, i + 4)[0] == "go to word right"@[3]); assert("go to word right"@[3] != "back"@[0]); }
        if i == 4 { assert("go to word right"@.subrange(i, i + 4)[0] == "go to word right"@[4]); assert("go to word right"@[4] != "back"@[0]); }
        if i == 5 { assert("go to word right"@.subrange(i, i + 4)[0] == "go to word right"@[5]); assert("go to word right"@[5] != "back"@[0]); }
        if i == 6 { assert("go to word right"@.subrange(i, i + 4)[0] == "go to word right"@[6]); assert("go to word right"@[6] != "back"@[0]); }
        if i == 7 { assert("go to word right"@.subrange(i, i + 4)[0] == "go to word right"@[7]); assert("go to word right"@[7] != "back"@[0]); }
        if i == 8 { assert("go to word right"@.subrange(i, i + 4)[0] == "go to word right"@[8]); assert("go to word right"@[8] != "back"@[0]); }
        if i == 9 { assert("go to word right"@.subrange(i, i + 4)[0] == "go to word right"@[9]); assert("go to word right"@[9] != "back"@[0]); }
        if i == 10 { assert("go to word right"@.subrange(i, i + 4)[0] == "go to word right"@[10]); assert("go to word right"@[10] != "back"@[0]); }
        if i == 11 { assert("go to word right"@.subrange(i, i + 4)[0] == "go to word right"@[11]); assert("go to word right"@[11] != "back"@[0]); }
        if i == 12 { assert("go to word right"@.subrange(i, i + 4)[0] == "go to word right"@[12]); assert("go to word right"@[12] != "back"@[0]); }
    }
    assert forall|i: int| 0 <= i && i + 8 <= "go to word right"@.len() implies #[trigger] "go to word right"@.subrange(i, i + 8) != "previous"@ by {
        if i == 0 { assert("go to word right"@.subrange(i, i + 8)[0] == "go to word right"@[0]); assert("go to word right"@[0] != "previous"@[0]); }
        if i == 1 { assert("go to word right"@.subrange(i, i + 8)[0] == "go to word right"@[1]); assert("go to word right"@[1] != "previous"@[0]); }
        if i == 2 { assert("go to word right"@.subrange(i, i + 8)[0] == "go to word right"@[2]); assert("go to word right"@[2] != "previous"@[0]); }
        if i == 3 { assert("go to word right"@.subrange(i, i + 8)[0] == "go to word right"@[3]); assert("go to word right"@[3] != "previous"@[0]); }
        if i == 4 { assert("go to word right"@.subrange(i, i + 8)[0] == "go to word right"@[4]); assert("go to word right"@[4] != "previous"@[0]); }
        if i == 5 { assert("go to word right"@.subrange(i, i + 8)[0] == "go to word right"@[5]); assert("go to word right"@[5] != "previous"@[0]); }
        if i == 6 { assert("go to word right"@.subrange(i, i + 8)[0] == "go to word right"@[6]); assert("go to word right"@[6] != "previous"@[0]); }
        if i == 7 { assert("go to word right"@.subrange(i, i + 8)[0] == "go to word right"@[7]); assert("go to word right"@[7] != "previous"@[0]); }
        if i == 8 { assert("go to word right"@.subrange(i, i + 8)[0] == "go to word right"@[8]); assert("go to word right"@[8] != "previous"@[0]); }
    }
    assert forall|i: int| 0 <= i && i + 4 <= "go to word right"@.len() implies #[trigger] "go to word right"@.subrange(i, i + 4) != "left"@ by {
        if i == 0 { assert("go to word right"@.subrange(i, i + 4)[0] == "go to word right"@[0]); assert("go to word right"@[0] != "left"@[0]); }
        if i == 1 { assert("go to word right"@.subrange(i, i + 4)[0] == "go to word right"@[1]); assert("go to word right"@[1] != "left"@[0]); }
        if i == 2 { assert("go to word right"@.subrange(i, i + 4)[0] == "go to word right"@[2]); assert("go to word right"@[2] != "left"@[0]); }
        if i == 3 { assert("go to word right"@.subrange(i, i + 4)[0] == "go to word right"@[3]); assert("go to word right"@[3] != "left"@[0]); }
        if i == 4 { assert("go to word right"@.subrange(i, i + 4)[0] == "go to word right"@[4]); assert("go to word right"@[4] != "left"@[0]); }
        if i == 5 { assert("go to word right"@.subrange(i, i + 4)[0] == "go to word right"@[5]); assert("go to word right"@[5] != "left"@[0]); }
        if i == 6 { assert("go to word right"@.subrange(i, i + 4)[0] == "go to word right"@[6]); assert("go to word right"@[6] != "left"@[0]); }
        if i == 7 { assert("go to word right"@.subrange(i, i + 4)[0] == "go to word right"@[7]); assert("go to word right"@[7] != "left"@[0]); }
        if i == 8 { assert("go to word right"@.subrange(i, i + 4)[0] == "go to word right"@[8]); assert("go to word right"@[8] != "left"@[0]); }
        if i == 9 { assert("go to word right"@.subrange(i, i + 4)[0] == "go to word right"@[9]); assert("go to word right"@[9] != "left"@[0]); }
        if i == 10 { assert("go to word right"@.subrange(i, i + 4)[0] == "go to word right"@[10]); assert("go to word right"@[10] != "left"@[0]); }
        if i == 11 { assert("go to word right"@.subrange(i, i + 4)[0] == "go to word right"@[11]); assert("go to word right"@[11] != "left"@[0]); }
        if i == 12 { assert("go to word right"@.subrange(i, i + 4)[0] == "go to word right"@[12]); assert("go to word right"@[12] != "left"@[0]); }
    }
    assert forall|i: int| 0 <= i && i + 4 <= "go to word right"@.len() implies #[trigger] "go to word right"@.subrange(i, i + 4) != "last"@ by {
        if i == 0 { assert("go to word right"@.subrange(i, i + 4)[0] == "go to word right"@[0]); assert("go to word right"@[0] != "last"@[0]); }
        if i == 1 { assert("go to word right"@.subrange(i, i + 4)[0] == "go to word right"@[1]); assert("go to word right"@[1] != "last"@[0]); }
        if i == 2 { assert("go to word right"@.subrange(i, i + 4)[0] == "go to word right"@[2]); assert("go to word right"@[2] != "last"@[0]); }
        if i == 3 { assert("go to word right"@.subrange(i, i + 4)[0] == "go to word right"@[3]); assert("go to word right"@[3] != "last"@[0]); }
        if i == 4 { assert("go to word right"@.subrange(i, i + 4)[0] == "go to word right"@[4]); assert("go to word right"@[4] != "last"@[0]); }
        if i == 5 { assert("go to word right"@.subrange(i, i + 4)[0] == "go to word right"@[5]); assert("go to word right"@[5] != "last"@[0]); }
        if i == 6 { assert("go to word right"@.subrange(i, i + 4)[0] == "go to word right"@[6]); assert("go to word right"@[6] != "last"@[0]); }
        if i == 7 { assert("go to word right"@.subrange(i, i + 4)[0] == "go to word right"@[7]); assert("go to word right"@[7] != "last"@[0]); }
        if i == 8 { assert("go to word right"@.subrange(i, i + 4)[0] == "go to word right"@[8]); assert("go to word right"@[8] != "last"@[0]); }
        if i == 9 { assert("go to word right"@.subrange(i, i + 4)[0] == "go to word right"@[9]); assert("go to word right"@[9] != "last"@[0]); }
        if i == 10 { assert("go to word right"@.subrange(i, i + 4)[0] == "go to word right"@[10]); assert("go to word right"@[10] != "last"@[0]); }
        if i == 11 { assert("go to word right"@.subrange(i, i + 4)[0] == "go to word right"@[11]); assert("go to word right"@[11] != "last"@[0]); }
        if i == 12 { assert("go to word right"@.subrange(i, i + 4)[0] == "go to word right"@[12]); assert("go to word right"@[12] != "last"@[0]); }
    }
}

proof fn lemma_nm_move_go_to_word_right()
    ensures
        !mentions("move go to word right"@, "back"@),
        !mentions("move go to word right"@, "previous"@),
        !mentions("move go to word right"@, "left"@),
        !mentions("move go to word right"@, "last"@),
{
    reveal_strlit("move go to word right");
    reveal_strlit("back");
    reveal_strlit("previous");
    reveal_strlit("left");
    reveal_strlit("last");
    assert forall|i: int| 0 <= i && i + 4 <= "move go to word right"@.len() implies #[trigger] "move go to word right"@.subrange(i, i + 4) != "back"@ by {
        if i == 0 { assert("move go to word right"@.subrange(i, i + 4)[0] == "move go to word right"@[0]); assert("move go to word right"@[0] != "back"@[0]); }
        if i == 1 { assert("move go to word right"@.subrange(i, i + 4)[0] == "move go to word right"@[1]); assert("move go to word right"@[1] != "back"@[0]); }
        if i == 2 { assert("move go to word right"@.subrange(i, i + 4)[0] == "move go to word right"@[2]); assert("move go to word right"@[2] != "back"@[0]); }
        if i == 3 { assert("move go to word right"@.subrange(i, i + 4)[0] == "move go to word right"@[3]); assert("move go to word right"@[3] != "back"@[0]); }
        if i == 4 { assert("move go to word right"@.subrange(i, i + 4)[0] == "move go to word right"@[4]); assert("move go to word right"@[4] != "back"@[0]); }
        if i == 5 { assert("move go to word right"@.subrange(i, i + 4)[0] == "move go to word right"@[5]); assert("move go to word right"@[5] != "back"@[0]); }
        if i == 6 { assert("move go to word right"@.subrange(i, i + 4)[0] == "move go to word right"@[6]); assert("move go to word right"@[6] != "back"@[0]); }
        if i == 7 { assert("move go to word right"@.subrange(i, i + 4)[0] == "move go to word right"@[7]); assert("move go to word right"@[7] != "back"@[0]); }
        if i == 8 { assert("move go to word right"@.subrange(i, i + 4)[0] == "move go to word right"@[8]); assert("move go to word right"@[8] != "back"@[0]); }
        if i == 9 { assert("move go to word right"@.subrange(i, i + 4)[0] == "move go to word right"@[9]); assert("move go to word right"@[9] != "back"@[0]); }
        if i == 10 { assert("move go to word right"@.subrange(i, i + 4)[0] == "move go to word right"@[10]); assert("move go to word right"@[10] != "back"@[0]); }
        if i == 11 { assert("move go to word right"@.subrange(i, i + 4)[0] == "move go to word right"@[11]); assert("move go to word right"@[11] != "back"@[0]); }
        if i == 12 { assert("move go to word right"@.subrange(i, i + 4)[0] == "move go to word right"@[12]); assert("move go to word right"@[12] != "back"@[0]); }
        if i == 13 { assert("move go to word right"@.subrange(i, i + 4)[0] == "move go to word right"@[13]); assert("move go to word right"@[13] != "back"@[0]); }
        if i == 14 { assert("move go to word right"@.subrange(i, i + 4)[0] == "move go to word right"@[14]); assert("move go to word right"@[14] != "back"@[0]); }
        if i == 15 { assert("move go to word right"@.subrange(i, i + 4)[0] == "move go to word right"@[15]); assert("move go to word right"@[15] != "back"@[0]); }
        if i == 16 { assert("move go to word right"@.subrange(i, i + 4)[0] == "move go to word right"@[16]); assert("move go to word right"@[16] != "back"@[0]); }
        if i == 17 { assert("move go to word right"@.subrange(i, i + 4)[0] == "move go to word right"@[17]); assert("move go to word right"@[17] != "back"@[0]); }
    }
    assert forall|i: int| 0 <= i && i + 8 <= "move go to word right"@.len() implies #[trigger] "move go to word right"@.subrange(i, i + 8) != "previous"@ by {
        if i == 0 { assert("move go to word right"@.subrange(i, i + 8)[0] == "move go to word right"@[0]); assert("move go to word right"@[0] != "previous"@[0]); }
        if i == 1 { assert("move go to word right"@.subrange(i, i + 8)[0] == "move go to word right"@[1]); assert("move go to word right"@[1] != "previous"@[0]); }
        if i == 2 { assert("move go to word right"@.subrange(i, i + 8)[0] == "move go to word right"@[2]); assert("move go to word right"@[2] != "previous"@[0]); }
        if i == 3 { assert("move go to word right"@.subrange(i, i + 8)[0] == "move go to word right"@[3]); assert("move go to word right"@[3] != "previous"@[0]); }
        if i == 4 { assert("move go to word right"@.subrange(i, i + 8)[0] == "move go to word right"@[4]); assert("move go to word right"@[4] != "previous"@[0]); }
        if i == 5 { assert("move go to word right"@.subrange(i, i + 8)[0] == "move go to word right"@[5]); assert("move go to word right"@[5] != "previous"@[0]); }
        if i == 6 { assert("move go to word right"@.subrange(i, i + 8)[0] == "move go to word right"@[6]); assert("move go to word right"@[6] != "previous"@[0]); }
        if i == 7 { assert("move go to word right"@.subrange(i, i + 8)[0] == "move go to word right"@[7]); assert("move go to word right"@[7] != "previous"@[0]); }
        if i == 8 { assert("move go to word right"@.subrange(i, i + 8)[0] == "move go to word right"@[8]); assert("move go to word right"@[8] != "previous"@[0]); }
        if i == 9 { assert("move go to word right"@.subrange(i, i + 8)[0] == "move go to word right"@[9]); assert("move go to word right"@[9] != "previous"@[0]); }
        if i == 10 { assert("move go to word right"@.subrange(i, i + 8)[0] == "move go to word right"@[10]); assert("move go to word right"@[10] != "previous"@[0]); }
        if i == 11 { assert("move go to word right"@.subrange(i, i + 8)[0] == "move go to word right"@[11]); assert("move go to word right"@[11] != "previous"@[0]); }
        if i == 12 { assert("move go to word right"@.subrange(i, i + 8)[0] == "move go to word right"@[12]); assert("move go to word right"@[12] != "previous"@[0]); }
        if i == 13 { assert("move go to word right"@.subrange(i, i + 8)[0] == "move go to word right"@[13]); assert("move go to word right"@[13] != "previous"@[0]); }
    }
    assert forall|i: int| 0 <= i && i + 4 <= "move go to word right"@.len() implies #[trigger] "move go to word right"@.subrange(i, i + 4) != "left"@ by {
        if i == 0 { assert("move go to word right"@.subrange(i, i + 4)[0] == "move go to word right"@[0]); assert("move go to word right"@[0] != "left"@[0]); }
        if i == 1 { assert("move go to word right"@.subrange(i, i + 4)[0] == "move go to word right"@[1]); assert("move go to word right"@[1] != "left"@[0]); }
        if i == 2 { assert("move go to word right"@.subrange(i, i + 4)[0] == "move go to word right"@[2]); assert("move go to word right"@[2] != "left"@[0]); }
        if i == 3 { assert("move go to word right"@.subrange(i, i + 4)[0] == "move go to word right"@[3]); assert("move go to word right"@[3] != "left"@[0]); }
        if i == 4 { assert("move go to word right"@.subrange(i, i + 4)[0] == "move go to word right"@[4]); assert("move go to word right"@[4] != "left"@[0]); }
        if i == 5 { assert("move go to word right"@.subrange(i, i + 4)[0] == "move go to word right"@[5]); assert("move go to word right"@[5] != "left"@[0]); }
        if i == 6 { assert("move go to word right"@.subrange(i, i + 4)[0] == "move go to word right"@[6]); assert("move go to word right"@[6] != "left"@[0]); }
        if i == 7 { assert("move go to word right"@.subrange(i, i + 4)[0] == "move go to word right"@[7]); assert("move go to word right"@[7] != "left"@[0]); }
        if i == 8 { assert("move go to word right"@.subrange(i, i + 4)[0] == "move go to word right"@[8]); assert("move go to word right"@[8] != "left"@[0]); }
        if i == 9 { assert("move go to word right"@.subrange(i, i + 4)[0] == "move go to word right"@[9]); assert("move go to word right"@[9] != "left"@[0]); }
        if i == 10 { assert("move go to word right"@.subrange(i, i + 4)[0] == "move go to word right"@[10]); assert("move go to word right"@[10] != "left"@[0]); }
        if i == 11 { assert("move go to word right"@.subrange(i, i + 4)[0] == "move go to word right"@[11]); assert("move go to word right"@[11] != "left"@[0]); }
        if i == 12 { assert("move go to word right"@.subrange(i, i + 4)[0] == "move go to word right"@[12]); assert("move go to word right"@[12] != "left"@[0]); }
        if i == 13 { assert("move go to word right"@.subrange(i, i + 4)[0] == "move go to word right"@[13]); assert("move go to word right"@[13] != "left"@[0]); }
        if i == 14 { assert("move go to word right"@.subrange(i, i + 4)[0] == "move go to word right"@[14]); assert("move go to word right"@[14] != "left"@[0]); }
        if i == 15 { assert("move go to word right"@.subrange(i, i + 4)[0] == "move go to word right"@[15]); assert("move go to word right"@[15] != "left"@[0]); }
        if i == 16 { assert("move go to word right"@.subrange(i, i + 4)[0] == "move go to word right"@[16]); assert("move go to word right"@[16] != "left"@[0]); }
        if i == 17 { assert("move go to word right"@.subrange(i, i + 4)[0] == "move go to word right"@[17]); assert("move go to word right"@[17] != "left"@[0]); }
    }
    assert forall|i: int| 0 <= i && i + 4 <= "move go to word right"@.len() implies #[trigger] "move go to word right"@.subrange(i, i + 4) != "last"@ by {
        if i == 0 { assert("move go to word right"@.subrange(i, i + 4)[0] == "move go to word right"@[0]); assert("move go to word right"@[0] != "last"@[0]); }
        if i == 1 { assert("move go to word right"@.subrange(i, i + 4)[0] == "move go to word right"@[1]); assert("move go to word right"@[1] != "last"@[0]); }
        if i == 2 { assert("move go to word right"@.subrange(i, i + 4)[0] == "move go to word right"@[2]); assert("move go to word right"@[2] != "last"@[0]); }
        if i == 3 { assert("move go to word right"@.subrange(i, i + 4)[0] == "move go to word right"@[3]); assert("move go to word right"@[3] != "last"@[0]); }
        if i == 4 { assert("move go to word right"@.subrange(i, i + 4)[0] == "move go to word right"@[4]); assert("move go to word right"@[4] != "last"@[0]); }
        if i == 5 { assert("move go to word right"@.subrange(i, i + 4)[0] == "move go to word right"@[5]); assert("move go to word right"@[5] != "last"@[0]); }
        if i == 6 { assert("move go to word right"@.subrange(i, i + 4)[0] == "move go to word right"@[6]); assert("move go to word right"@[6] != "last"@[0]); }
        if i == 7 { assert("move go to word right"@.subrange(i, i + 4)[0] == "move go to word right"@[7]); assert("move go to word right"@[7] != "last"@[0]); }
        if i == 8 { assert("move go to word right"@.subrange(i, i + 4)[0] == "move go to word right"@[8]); assert("move go to word right"@[8] != "last"@[0]); }
        if i == 9 { assert("move go to word right"@.subrange(i, i + 4)[0] == "move go to word right"@[9]); assert("move go to word right"@[9] != "last"@[0]); }
        if i == 10 { assert("move go to word right"@.subrange(i, i + 4)[0] == "move go to word right"@[10]); assert("move go to word right"@[10] != "last"@[0]); }
        if i == 11 { assert("move go to word right"@.subrange(i, i + 4)[0] == "move go to word right"@[11]); assert("move go to word right"@[11] != "last"@[0]); }
        if i == 12 { assert("move go to word right"@.subrange(i, i + 4)[0] == "move go to word right"@[12]); assert("move go to word right"@[12] != "last"@[0]); }
        if i == 13 { assert("move go to word right"@.subrange(i, i + 4)[0] == "move go to word right"@[13]); assert("move go to word right"@[13] != "last"@[0]); }
        if i == 14 { assert("move go to word right"@.subrange(i, i + 4)[0] == "move go to word right"@[14]); assert("move go to word right"@[14] != "last"@[0]); }
        if i == 15 { assert("move go to word right"@.subrange(i, i + 4)[0] == "move go to word right"@[15]); assert("move go to word right"@[15] != "last"@[0]); }
        if i == 16 { assert("move go to word right"@.subrange(i, i + 4)[0] == "move go to word right"@[16]); assert("move go to word right"@[16] != "last"@[0]); }
        if i == 17 { assert("move go to word right"@.subrange(i, i + 4)[0] == "move go to word right"@[17]); assert("move go to word right"@[17] != "last"@[0]); }
    }
}

proof fn lemma_nm_select_go_to_word_right()
    ensures
        !mentions("select go to word right"@, "back"@),
        !mentions("select go to word right"@, "previous"@),
        !mentions("select go to word right"@, "left"@),
        !mentions("select go to word right"@, "last"@),
{
    reveal_strlit("select go to word right");
    reveal_strlit("back");
    reveal_strlit("previous");
    reveal_strlit("left");
    reveal_strlit("last");
    assert forall|i: int| 0 <= i && i + 4 <= "select go to word right"@.len() implies #[trigger] "select go to word right"@.subrange(i, i + 4) != "back"@ by {
        if i == 0 { assert("select go to word right"@.subrange(i, i + 4)[0] == "select go to word right"@[0]); assert("select go to word right"@[0] != "back"@[0]); }
        if i == 1 { assert("select go to word right"@.subrange(i, i + 4)[0] == "select go to word right"@[1]); assert("select go to word right"@[1] != "back"@[0]); }
        if i == 2 { assert("select go to word right"@.subrange(i, i + 4)[0] == "select go to word right"@[2]); assert("select go to word right"@[2] != "back"@[0]); }
        if i == 3 { assert("select go to word right"@.subrange(i, i + 4)[0] == "select go to word right"@[3]); assert("select go to word right"@[3] != "back"@[0]); }
        if i == 4 { assert("select go to word right"@.subrange(i, i + 4)[0] == "select go to word right"@[4]); assert("select go to word right"@[4] != "back"@[0]); }
        if i == 5 { assert("select go to word right"@.subrange(i, i + 4)[0] == "select go to word right"@[5]); assert("select go to word right"@[5] != "back"@[0]); }
        if i == 6 { assert("select go to word right"@.subrange(i, i + 4)[0] == "select go to word right"@[6]); assert("select go to word right"@[6] != "back"@[0]); }
        if i == 7 { assert("select go to word right"@.subrange(i, i + 4)[0] == "select go to word right"@[7]); assert("select go to word right"@[7] != "back"@[0]); }
        if i == 8 { assert("select go to word right"@.subrange(i, i + 4)[0] == "select go to word right"@[8]); assert("select go to word right"@[8] != "back"@[0]); }
        if i == 9 { assert("select go to word right"@.subrange(i, i + 4)[0] == "select go to word right"@[9]); assert("select go to word right"@[9] != "back"@[0]); }
        if i == 10 { assert("select go to word right"@.subrange(i, i + 4)[0] == "select go to word right"@[10]); assert("select go to word right"@[10] != "back"@[0]); }
        if i == 11 { assert("select go to word right"@.subrange(i, i + 4)[0] == "select go to word right"@[11]); assert("select go to word right"@[11] != "back"@[0]); }
        if i == 12 { assert("select go to word right"@.subrange(i, i + 4)[0] == "select go to word right"@[12]); assert("select go to word right"@[12] != "back"@[0]); }
        if i == 13 { assert("select go to word right"@.subrange(i, i + 4)[0] == "select go to word right"@[13]); assert("select go to word right"@[13] != "back"@[0]); }
        if i == 14 { assert("select go to word right"@.subrange(i, i + 4)[0] == "select go to word right"@[14]); assert("select go to word right"@[14] != "back"@[0]); }
        if i == 15 { assert("select go to word right"@.subrange(i, i + 4)[0] == "select go to word right"@[15]); assert("select go to word right"@[15] != "back"@[0]); }
        if i == 16 { assert("select go to word right"@.subrange(i, i + 4)[0] == "select go to word right"@[16]); assert("select go to word right"@[16] != "back"@[0]); }
        if i == 17 { assert("select go to word right"@.subrange(i, i + 4)[0] == "select go to word right"@[17]); assert("select go to word right"@[17] != "back"@[0]); }
        if i == 18 { assert("select go to word right"@.subrange(i, i + 4)[0] == "select go to word right"@[18]); assert("select go to word right"@[18] != "back"@[0]); }
        if i == 19 { assert("select go to word right"@.subrange(i, i + 4)[0] == "select go to word right"@[19]); assert("select go to word right"@[19] != "back"@[0]); }
    }
    assert forall|i: int| 0 <= i && i + 8 <= "select go to word right"@.len() implies #[trigger] "select go to word right"@.subrange(i, i + 8) != "previous"@ by {
        if i == 0 { assert("select go to word right"@.subrange(i, i + 8)[0] == "select go to word right"@[0]); assert("select go to word right"@[0] != "previous"@[0]); }
        if i == 1 { assert("select go to word right"@.subrange(i, i + 8)[0] == "select go to word right"@[1]); assert("select go to word right"@[1] != "previous"@[0]); }
        if i == 2 { assert("select go to word right"@.subrange(i, i + 8)[0] == "select go to word right"@[2]); assert("select go to word right"@[2] != "previous"@[0]); }
        if i == 3 { assert("select go to word right"@.subrange(i, i + 8)[0] == "select go to word right"@[3]); assert("select go to word right"@[3] != "previous"@[0]); }
        if i == 4 { assert("select go to word right"@.subrange(i, i + 8)[0] == "select go to word right"@[4]); assert("select go to word right"@[4] != "previous"@[0]); }
        if i == 5 { assert("select go to word right"@.subrange(i, i + 8)[0] == "select go to word right"@[5]); assert("select go to word right"@[5] != "previous"@[0]); }
        if i == 6 { assert("select go to word right"@.subrange(i, i + 8)[0] == "select go to word right"@[6]); assert("select go to word right"@[6] != "previous"@[0]); }
        if i == 7 { assert("select go to word right"@.subrange(i, i + 8)[0] == "select go to word right"@[7]); assert("select go to word right"@[7] != "previous"@[0]); }
        if i == 8 { assert("select go to word right"@.subrange(i, i + 8)[0] == "select go to word right"@[8]); assert("select go to word right"@[8] != "previous"@[0]); }
        if i == 9 { assert("select go to word right"@.subrange(i, i + 8)[0] == "select go to word right"@[9]); assert("select go to word right"@[9] != "previous"@[0]); }
        if i == 10 { assert("select go to word right"@.subrange(i, i + 8)[0] == "select go to word right"@[10]); assert("select go to word right"@[10] != "previous"@[0]); }
        if i == 11 { assert("select go to word right"@.subrange(i, i + 8)[0] == "select go to word right"@[11]); assert("select go to word right"@[11] != "previous"@[0]); }
        if i == 12 { assert("select go to word right"@.subrange(i, i + 8)[0] == "select go to word right"@[12]); assert("select go to word right"@[12] != "previous"@[0]); }
        if i == 13 { assert("select go to word right"@.subrange(i, i + 8)[0] == "select go to word right"@[13]); assert("select go to word right"@[13] != "previous"@[0]); }
        if i == 14 { assert("select go to word right"@.subrange(i, i + 8)[0] == "select go to word right"@[14]); assert("select go to word right"@[14] != "previous"@[0]); }
        if i == 15 { assert("select go to word right"@.subrange(i, i + 8)[0] == "select go to word right"@[15]); assert("select go to word right"@[15] != "previous"@[0]); }
    }
    assert forall|i: int| 0 <= i && i + 4 <= "select go to word right"@.len() implies #[trigger] "select go to word right"@.subrange(i, i + 4) != "left"@ by {
        if i == 0 { assert("select go to word right"@.subrange(i, i + 4)[0] == "select go to word right"@[0]); assert("select go to word right"@[0] != "left"@[0]); }
        if i == 1 { assert("select go to word right"@.subrange(i, i + 4)[0] == "select go to word right"@[1]); assert("select go to word right"@[1] != "left"@[0]); }
        if i == 2 { assert("select go to word right"@.subrange(i, i + 4)[2] == "select go to word right"@[4]); assert("select go to word right"@[4] != "left"@[2]); }
        if i == 3 { assert("select go to word right"@.subrange(i, i + 4)[0] == "select go to word right"@[3]); assert("select go to word right"@[3] != "left"@[0]); }
        if i == 4 { assert("select go to word right"@.subrange(i, i + 4)[0] == "select go to word right"@[4]); assert("select go to word right"@[4] != "left"@[0]); }
        if i == 5 { assert("select go to word right"@.subrange(i, i + 4)[0] == "select go to word right"@[5]); assert("select go to word right"@[5] != "left"@[0]); }
        if i == 6 { assert("select go to word right"@.subrange(i, i + 4)[0] == "select go to word right"@[6]); assert("select go to word right"@[6] != "left"@[0]); }
        if i == 7 { assert("select go to word right"@.subrange(i, i + 4)[0] == "select go to word right"@[7]); assert("select go to word right"@[7] != "left"@[0]); }
        if i == 8 { assert("select go to word right"@.subrange(i, i + 4)[0] == "select go to word right"@[8]); assert("select go to word right"@[8] != "left"@[0]); }
        if i == 9 { assert("select go to word right"@.subrange(i, i + 4)[0] == "select go to word right"@[9]); assert("select go to word right"@[9] != "left"@[0]); }
        if i == 10 { assert("select go to word right"@.subrange(i, i + 4)[0] == "select go to word right"@[10]); assert("select go to word right"@[10] != "left"@[0]); }
        if i == 11 { assert("select go to word right"@.subrange(i, i + 4)[0] == "select go to word right"@[11]); assert("select go to word right"@[11] != "left"@[0]); }
        if i == 12 { assert("select go to word right"@.subrange(i, i + 4)[0] == "select go to word right"@[12]); assert("select go to word right"@[12] != "left"@[0]); }
        if i == 13 { assert("select go to word right"@.subrange(i, i + 4)[0] == "select go to word right"@[13]); assert("select go to word right"@[13] != "left"@[0]); }
        if i == 14 { assert("select go to word right"@.subrange(i, i + 4)[0] == "select go to word right"@[14]); assert("select go to word right"@[14] != "left"@[0]); }
        if i == 15 { assert("select go to word right"@.subrange(i, i + 4)[0] == "select go to word right"@[15]); assert("select go to word right"@[15] != "left"@[0]); }
        if i == 16 { assert("select go to word right"@.subrange(i, i + 4)[0] == "select go to word right"@[16]); assert("select go to word right"@[16] != "left"@[0]); }
        if i == 17 { assert("select go to word right"@.subrange(i, i + 4)[0] == "select go to word right"@[17]); assert("select go to word right"@[17] != "left"@[0]); }
        if i == 18 { assert("select go to word right"@.subrange(i, i + 4)[0] == "select go to word right"@[18]); assert("select go to word right"@[18] != "left"@[0]); }
        if i == 19 { assert("select go to word right"@.subrange(i, i + 4)[0] == "select go to word right"@[19]); assert("select go to word right"@[19] != "left"@[0]); }
    }
    assert forall|i: int| 0 <= i && i + 4 <= "select go to word right"@.len() implies #[trigger] "select go to word right"@.subrange(i, i + 4) != "last"@ by {
        if i == 0 { assert("select go to word right"@.subrange(i, i + 4)[0] == "select go to word right"@[0]); assert("select go to word right"@[0] != "last"@[0]); }
        if i == 1 { assert("select go to word right"@.subrange(i, i + 4)[0] == "select go to word right"@[1]); assert("select go to word right"@[1] != "last"@[0]); }
        if i == 2 { assert("select go to word right"@.subrange(i, i + 4)[1] == "select go to word right"@[3]); assert("select go to word right"@[3] != "last"@[1]); }
        if i == 3 { assert("select go to word right"@.subrange(i, i + 4)[0] == "select go to word right"@[3]); assert("select go to word right"@[3] != "last"@[0]); }
        if i == 4 { assert("select go to word right"@.subrange(i, i + 4)[0] == "select go to word right"@[4]); assert("select go to word right"@[4] != "last"@[0]); }
        if i == 5 { assert("select go to word right"@.subrange(i, i + 4)[0] == "select go to word right"@[5]); assert("select go to word right"@[5] != "last"@[0]); }
        if i == 6 { assert("select go to word right"@.subrange(i, i + 4)[0] == "select go to word right"@[6]); assert("select go to word right"@[6] != "last"@[0]); }
        if i == 7 { assert("select go to word right"@.subrange(i, i + 4)[0] == "select go to word right"@[7]); assert("select go to word right"@[7] != "last"@[0]); }
        if i == 8 { assert("select go to word right"@.subrange(i, i + 4)[0] == "select go to word right"@[8]); assert("select go to word right"@[8] != "last"@[0]); }
        if i == 9 { assert("select go to word right"@.subrange(i, i + 4)[0] == "select go to word right"@[9]); assert("select go to word right"@[9] != "last"@[0]); }
        if i == 10 { assert("select go to word right"@.subrange(i, i + 4)[0] == "select go to word right"@[10]); assert("select go to word right"@[10] != "last"@[0]); }
        if i == 11 { assert("select go to word right"@.subrange(i, i + 4)[0] == "select go to word right"@[11]); assert("select go to word right"@[11] != "last"@[0]); }
        if i == 12 { assert("select go to word right"@.subrange(i, i + 4)[0] == "select go to word right"@[12]); assert("select go to word right"@[12] != "last"@[0]); }
        if i == 13 { assert("select go to word right"@.subrange(i, i + 4)[0] == "select go to word right"@[13]); assert("select go to word right"@[13] != "last"@[0]); }
        if i == 14 { assert("select go to word right"@.subrange(i, i + 4)[0] == "select go to word right"@[14]); assert("select go to word right"@[14] != "last"@[0]); }
        if i == 15 { assert("select go to word right"@.subrange(i, i + 4)[0] == "select go to word right"@[15]); assert("select go to word right"@[15] != "last"@[0]); }
        if i == 16 { assert("select go to word right"@.subrange(i, i + 4)[0] == "select go to word right"@[16]); assert("select go to word right"@[16] != "last"@[0]); }
        if i == 17 { assert("select go to word right"@.subrange(i, i + 4)[0] == "select go to word right"@[17]); assert("select go to word right"@[17] != "last"@[0]); }
        if i == 18 { assert("select go to word right"@.subrange(i, i + 4)[0] == "select go to word right"@[18]); assert("select go to word right"@[18] != "last"@[0]); }
        if i == 19 { assert("select go to word right"@.subrange(i, i + 4)[0] == "select go to word right"@[19]); assert("select go to word right"@[19] != "last"@[0]); }
    }
}

proof fn lemma_nm_right_word()
    ensures
        !mentions("right word"@, "back"@),
        !mentions("right word"@, "previous"@),
        !mentions("right word"@, "left"@),
        !mentions("right word"@, "last"@),
{
    reveal_strlit("right word");
    reveal_strlit("back");
    reveal_strlit("previous");
    reveal_strlit("left");
    reveal_strlit("last");
    assert forall|i: int| 0 <= i && i + 4 <= "right word"@.len() implies #[trigger] "right word"@.subrange(i, i + 4) != "back"@ by {
        if i == 0 { assert("right word"@.subrange(i, i + 4)[0] == "right word"@[0]); assert("right word"@[0] != "back"@[0]); }
        if i == 1 { assert("right word"@.subrange(i, i + 4)[0] == "right word"@[1]); assert("right word"@[1] != "back"@[0]); }
        if i == 2 { assert("right word"@.subrange(i, i + 4)[0] == "right word"@[2]); assert("right word"@[2] != "back"@[0]); }
        if i == 3 { assert("right word"@.subrange(i, i + 4)[0] == "right word"@[3]); assert("right word"@[3] != "back"@[0]); }
        if i == 4 { assert("right word"@.subrange(i, i + 4)[0] == "right word"@[4]); assert("right word"@[4] != "back"@[0]); }
        if i == 5 { assert("right word"@.subrange(i, i + 4)[0] == "right word"@[5]); assert("right word"@[5] != "back"@[0]); }
        if i == 6 { assert("right word"@.subrange(i, i + 4)[0] == "right word"@[6]); assert("right word"@[6] != "back"@[0]); }
    }
    assert forall|i: int| 0 <= i && i + 8 <= "right word"@.len() implies #[trigger] "right word"@.subrange(i, i + 8) != "previous"@ by {
        if i == 0 { assert("right word"@.subrange(i, i + 8)[0] == "right word"@[0]); assert("right word"@[0] != "previous"@[0]); }
        if i == 1 { assert("right word"@.subrange(i, i + 8)[0] == "right word"@[1]); assert("right word"@[1] != "previous"@[0]); }
        if i == 2 { assert("right word"@.subrange(i, i + 8)[0] == "right word"@[2]); assert("right word"@[2] != "previous"@[0]); }
    }
    assert forall|i: int| 0 <= i && i + 4 <= "right word"@.len() implies #[trigger] "right word"@.subrange(i, i + 4) != "left"@ by {
        if i == 0 { assert("right word"@.subrange(i, i + 4)[0] == "right word"@[0]); assert("right word"@[0] != "left"@[0]); }
        if i == 1 { assert("right word"@.subrange(i, i + 4)[0] == "right word"@[1]); assert("right word"@[1] != "left"@[0]); }
        if i == 2 { assert("right word"@.subrange(i, i + 4)[0] == "right word"@[2]); assert("right word"@[2] != "left"@[0]); }
        if i == 3 { assert("right word"@.subrange(i, i + 4)[0] == "right word"@[3]); assert("right word"@[3] != "left"@[0]); }
        if i == 4 { assert("right word"@.subrange(i, i + 4)[0] == "right word"@[4]); assert("right word"@[4] != "left"@[0]); }
        if i == 5 { assert("right word"@.subrange(i, i + 4)[0] == "right word"@[5]); assert("right word"@[5] != "left"@[0]); }
        if i == 6 { assert("right word"@.subrange(i, i + 4)[0] == "right word"@[6]); assert("right word"@[6] != "left"@[0]); }
    }
    assert forall|i: int| 0 <= i && i + 4 <= "right word"@.len() implies #[trigger] "right word"@.subrange(i, i + 4) != "last"@ by {
        if i == 0 { assert("right word"@.subrange(i, i + 4)[0] == "right word"@[0]); assert("right word"@[0] != "last"@[0]); }
        if i == 1 { assert("right word"@.subrange(i, i + 4)[0] == "right word"@[1]); assert("right word"@[1] != "last"@[0]); }
        if i == 2 { assert("right word"@.subrange(i, i + 4)[0] == "right word"@[2]); assert("right word"@[2] != "last"@[0]); }
        if i == 3 { assert("right word"@.subrange(i, i + 4)[0] == "right word"@[3]); assert("right word"@[3] != "last"@[0]); }
        if i == 4 { assert("right word"@.subrange(i, i + 4)[0] == "right word"@[4]); assert("right word"@[4] != "last"@[0]); }
        if i == 5 { assert("right word"@.subrange(i, i + 4)[0] == "right word"@[5]); assert("right word"@[5] != "last"@[0]); }
        if i == 6 { assert("right word"@.subrange(i, i + 4)[0] == "right word"@[6]); assert("right word"@[6] != "last"@[0]); }
    }
}

proof fn lemma_nm_move_right_word()
    ensures
        !mentions("move right word"@, "back"@),
        !mentions("move right word"@, "previous"@),
        !mentions("move right word"@, "left"@),
        !mentions("move right word"@, "last"@),
{
    reveal_strlit("move right word");
    reveal_strlit("back");
    reveal_strlit("previous");
    reveal_strlit("left");
    reveal_strlit("last");
    assert forall|i: int| 0 <= i && i + 4 <= "move right word"@.len() implies #[trigger] "move right word"@.subrange(i, i + 4) != "back"@ by {
        if i == 0 { assert("move right word"@.subrange(i, i + 4)[0] == "move right word"@[0]); assert("move right word"@[0] != "back"@[0]); }
        if i == 1 { assert("move right word"@.subrange(i, i + 4)[0] == "move right word"@[1]); assert("move right word"@[1] != "back"@[0]); }
        if i == 2 { assert("move right word"@.subrange(i, i + 4)[0] == "move right word"@[2]); assert("move right word"@[2] != "back"@[0]); }
        if i == 3 { assert("move right word"@.subrange(i, i + 4)[0] == "move right word"@[3]); assert("move right word"@[3] != "back"@[0]); }
        if i == 4 { assert("move right word"@.subrange(i, i + 4)[0] == "move right word"@[4]); assert("move right word"@[4] != "back"@[0]); }
        if i == 5 { assert("move right word"@.subrange(i, i + 4)[0] == "move right word"@[5]); assert("move right word"@[5] != "back"@[0]); }
        if i == 6 { assert("move right word"@.subrange(i, i + 4)[0] == "move right word"@[6]); assert("move right word"@[6] != "back"@[0]); }
        if i == 7 { assert("move right word"@.subrange(i, i + 4)[0] == "move right word"@[7]); assert("move right word"@[7] != "back"@[0]); }
        if i == 8 { assert("move right word"@.subrange(i, i + 4)[0] == "move right word"@[8]); assert("move right word"@[8] != "back"@[0]); }
        if i == 9 { assert("move right word"@.subrange(i, i + 4)[0] == "move right word"@[9]); assert("move right word"@[9] != "back"@[0]); }
        if i == 10 { assert("move right word"@.subrange(i, i + 4)[0] == "move right word"@[10]); assert("move right word"@[10] != "back"@[0]); }
        if i == 11 { assert("move right word"@.subrange(i, i + 4)[0] == "move right word"@[11]); assert("move right word"@[11] != "back"@[0]); }
    }
    assert forall|i: int| 0 <= i && i + 8 <= "move right word"@.len() implies #[trigger] "move right word"@.subrange(i, i + 8) != "previous"@ by {
        if i == 0 { assert("move right word"@.subrange(i, i + 8)[0] == "move right word"@[0]); assert("move right word"@[0] != "previous"@[0]); }
        if i == 1 { assert("move right word"@.subrange(i, i + 8)[0] == "move right word"@[1]); assert("move right word"@[1] != "previous"@[0]); }
        if i == 2 { assert("move right word"@.subrange(i, i + 8)[0] == "move right word"@[2]); assert("move right word"@[2] != "previous"@[0]); }
        if i == 3 { assert("move right word"@.subrange(i, i + 8)[0] == "move right word"@[3]); assert("move right word"@[3] != "previous"@[0]); }
        if i == 4 { assert("move right word"@.subrange(i, i + 8)[0] == "move right word"@[4]); assert("move right word"@[4] != "previous"@[0]); }
        if i == 5 { assert("move right word"@.subrange(i, i + 8)[0] == "move right word"@[5]); assert("move right word"@[5] != "previous"@[0]); }
        if i == 6 { assert("move right word"@.subrange(i, i + 8)[0] == "move right word"@[6]); assert("move right word"@[6] != "previous"@[0]); }
        if i == 7 { assert("move right word"@.subrange(i, i + 8)[0] == "move right word"@[7]); assert("move right word"@[7] != "previous"@[0]); }
    }
    assert forall|i: int| 0 <= i && i + 4 <= "move right word"@.len() implies #[trigger] "move right word"@.subrange(i, i + 4) != "left"@ by {
        if i == 0 { assert("move right word"@.subrange(i, i + 4)[0] == "move right word"@[0]); assert("move right word"@[0] != "left"@[0]); }
        if i == 1 { assert("move right word"@.subrange(i, i + 4)[0] == "move right word"@[1]); assert("move right word"@[1] != "left"@[0]); }
        if i == 2 { assert("move right word"@.subrange(i, i + 4)[0] == "move right word"@[2]); assert("move right word"@[2] != "left"@[0]); }
        if i == 3 { assert("move right word"@.subrange(i, i + 4)[0] == "move right word"@[3]); assert("move right word"@[3] != "left"@[0]); }
        if i == 4 { assert("move right word"@.subrange(i, i + 4)[0] == "move right word"@[4]); assert("move right word"@[4] != "left"@[0]); }
        if i == 5 { assert("move right word"@.subrange(i, i + 4)[0] == "move right word"@[5]); assert("move right word"@[5] != "left"@[0]); }
        if i == 6 { assert("move right word"@.subrange(i, i + 4)[0] == "move right word"@[6]); assert("move right word"@[6] != "left"@[0]); }
        if i == 7 { assert("move right word"@.subrange(i, i + 4)[0] == "move right word"@[7]); assert("move right word"@[7] != "left"@[0]); }
        if i == 8 { assert("move right word"@.subrange(i, i + 4)[0] == "move right word"@[8]); assert("move right word"@[8] != "left"@[0]); }
        if i == 9 { assert("move right word"@.subrange(i, i + 4)[0] == "move right word"@[9]); assert("move right word"@[9] != "left"@[0]); }
        if i == 10 { assert("move right word"@.subrange(i, i + 4)[0] == "move right word"@[10]); assert("move right word"@[10] != "left"@[0]); }
        if i == 11 { assert("move right word"@.subrange(i, i + 4)[0] == "move right word"@[11]); assert("move right word"@[11] != "left"@[0]); }
    }
    assert forall|i: int| 0 <= i && i + 4 <= "move right word"@.len() implies #[trigger] "move right word"@.subrange(i, i + 4) != "last"@ by {
        if i == 0 { assert("move right word"@.subrange(i, i + 4)[0] == "move right word"@[0]); assert("move right word"@[0] != "last"@[0]); }
        if i == 1 { assert("move right word"@.subrange(i, i + 4)[0] == "move right word"@[1]); assert("move right word"@[1] != "last"@[0]); }
        if i == 2 { assert("move right word"@.subrange(i, i + 4)[0] == "move right word"@[2]); assert("move right word"@[2] != "last"@[0]); }
        if i == 3 { assert("move right word"@.subrange(i, i + 4)[0] == "move right word"@[3]); assert("move right word"@[3] != "last"@[0]); }
        if i == 4 { assert("move right word"@.subrange(i, i + 4)[0] == "move right word"@[4]); assert("move right word"@[4] != "last"@[0]); }
        if i == 5 { assert("move right word"@.subrange(i, i + 4)[0] == "move right word"@[5]); assert("move right word"@[5] != "last"@[0]); }
        if i == 6 { assert("move right word"@.subrange(i, i + 4)[0] == "move right word"@[6]); assert("move right word"@[6] != "last"@[0]); }
        if i == 7 { assert("move right word"@.subrange(i, i + 4)[0] == "move right word"@[7]); assert("move right word"@[7] != "last"@[0]); }
        if i == 8 { assert("move right word"@.subrange(i, i + 4)[0] == "move right word"@[8]); assert("move right word"@[8] != "last"@[0]); }
        if i == 9 { assert("move right word"@.subrange(i, i + 4)[0] == "move right word"@[9]); assert("move right word"@[9] != "last"@[0]); }
        if i == 10 { assert("move right word"@.subrange(i, i + 4)[0] == "move right word"@[10]); assert("move right word"@[10] != "last"@[0]); }
        if i == 11 { assert("move right word"@.subrange(i, i + 4)[0] == "move right word"@[11]); assert("move right word"@[11] != "last"@[0]); }
    }
}

proof fn lemma_nm_select_right_word()
    ensures
        !mentions("select right word"@, "back"@),
        !mentions("select right word"@, "previous"@),
        !mentions("select right word"@, "left"@),
        !mentions("select right word"@, "last"@),
{
    reveal_strlit("select right word");
    reveal_strlit("back");
    reveal_strlit("previous");
    reveal_strlit("left");
    reveal_strlit("last");
    assert forall|i: int| 0 <= i && i + 4 <= "select right word"@.len() implies #[trigger] "select right word"@.subrange(i, i + 4) != "back"@ by {
        if i == 0 { assert("select right word"@.subrange(i, i + 4)[0] == "select right word"@[0]); assert("select right word"@[0] != "back"@[0]); }
        if i == 1 { assert("select right word"@.subrange(i, i + 4)[0] == "select right word"@[1]); assert("select right word"@[1] != "back"@[0]); }
        if i == 2 { assert("select right word"@.subrange(i, i + 4)[0] == "select right word"@[2]); assert("select right word"@[2] != "back"@[0]); }
        if i == 3 { assert("select right word"@.subrange(i, i + 4)[0] == "select right word"@[3]); assert("select right word"@[3] != "back"@[0]); }
        if i == 4 { assert("select right word"@.subrange(i, i + 4)[0] == "select right word"@[4]); assert("select right word"@[4] != "back"@[0]); }
        if i == 5 { assert("select right word"@.subrange(i, i + 4)[0] == "select right word"@[5]); assert("select right word"@[5] != "back"@[0]); }
        if i == 6 { assert("select right word"@.subrange(i, i + 4)[0] == "select right word"@[6]); assert("select right word"@[6] != "back"@[0]); }
        if i == 7 { assert("select right word"@.subrange(i, i + 4)[0] == "select right word"@[7]); assert("select right word"@[7] != "back"@[0]); }
        if i == 8 { assert("select right word"@.subrange(i, i + 4)[0] == "select right word"@[8]); assert("select right word"@[8] != "back"@[0]); }
        if i == 9 { assert("select right word"@.subrange(i, i + 4)[0] == "select right word"@[9]); assert("select right word"@[9] != "back"@[0]); }
        if i == 10 { assert("select right word"@.subrange(i, i + 4)[0] == "select right word"@[10]); assert("select right word"@[10] != "back"@[0]); }
        if i == 11 { assert("select right word"@.subrange(i, i + 4)[0] == "select right word"@[11]); assert("select right word"@[11] != "back"@[0]); }
        if i == 12 { assert("select right word"@.subrange(i, i + 4)[0] == "select right word"@[12]); assert("select right word"@[12] != "back"@[0]); }
        if i == 13 { assert("select right word"@.subrange(i, i + 4)[0] == "select right word"@[13]); assert("select right word"@[13] != "back"@[0]); }
    }
    assert forall|i: int| 0 <= i && i + 8 <= "select right word"@.len() implies #[trigger] "select right word"@.subrange(i, i + 8) != "previous"@ by {
        if i == 0 { assert("select right word"@.subrange(i, i + 8)[0] == "select right word"@[0]); assert("select right word"@[0] != "previous"@[0]); }
        if i == 1 { assert("select right word"@.subrange(i, i + 8)[0] == "select right word"@[1]); assert("select right word"@[1] != "previous"@[0]); }
        if i == 2 { assert("select right word"@.subrange(i, i + 8)[0] == "select right word"@[2]); assert("select right word"@[2] != "previous"@[0]); }
        if i == 3 { assert("select right word"@.subrange(i, i + 8)[0] == "select right word"@[3]); assert("select right word"@[3] != "previous"@[0]); }
        if i == 4 { assert("select right word"@.subrange(i, i + 8)[0] == "select right word"@[4]); assert("select right word"@[4] != "previous"@[0]); }
        if i == 5 { assert("select right word"@.subrange(i, i + 8)[0] == "select right word"@[5]); assert("select right word"@[5] != "previous"@[0]); }
        if i == 6 { assert("select right word"@.subrange(i, i + 8)[0] == "select right word"@[6]); assert("select right word"@[6] != "previous"@[0]); }
        if i == 7 { assert("select right word"@.subrange(i, i + 8)[0] == "select right word"@[7]); assert("select right word"@[7] != "previous"@[0]); }
        if i == 8 { assert("select right word"@.subrange(i, i + 8)[0] == "select right word"@[8]); assert("select right word"@[8] != "previous"@[0]); }
        if i == 9 { assert("select right word"@.subrange(i, i + 8)[0] == "select right word"@[9]); assert("select right word"@[9] != "previous"@[0]); }
    }
    assert forall|i: int| 0 <= i && i + 4 <= "select right word"@.len() implies #[trigger] "select right word"@.subrange(i, i + 4) != "left"@ by {
        if i == 0 { assert("select right word"@.subrange(i, i + 4)[0] == "select right word"@[0]); assert("select right word"@[0] != "left"@[0]); }
        if i == 1 { assert("select right word"@.subrange(i, i + 4)[0] == "select right word"@[1]); assert("select right word"@[1] != "left"@[0]); }
        if i == 2 { assert("select right word"@.subrange(i, i + 4)[2] == "select right word"@[4]); assert("select right word"@[4] != "left"@[2]); }
        if i == 3 { assert("select right word"@.subrange(i, i + 4)[0] == "select right word"@[3]); assert("select right word"@[3] != "left"@[0]); }
        if i == 4 { assert("select right word"@.subrange(i, i + 4)[0] == "select right word"@[4]); assert("select right word"@[4] != "left"@[0]); }
        if i == 5 { assert("select right word"@.subrange(i, i + 4)[0] == "select right word"@[5]); assert("select right word"@[5] != "left"@[0]); }
        if i == 6 { assert("select right word"@.subrange(i, i + 4)[0] == "select right word"@[6]); assert("select right word"@[6] != "left"@[0]); }
        if i == 7 { assert("select right word"@.subrange(i, i + 4)[0] == "select right word"@[7]); assert("select right word"@[7] != "left"@[0]); }
        if i == 8 { assert("select right word"@.subrange(i, i + 4)[0] == "select right word"@[8]); assert("select right word"@[8] != "left"@[0]); }
        if i == 9 { assert("select right word"@.subrange(i, i + 4)[0] == "select right word"@[9]); assert("select right word"@[9] != "left"@[0]); }
        if i == 10 { assert("select right word"@.subrange(i, i + 4)[0] == "select right word"@[10]); assert("select right word"@[10] != "left"@[0]); }
        if i == 11 { assert("select right word"@.subrange(i, i + 4)[0] == "select right word"@[11]); assert("select right word"@[11] != "left"@[0]); }
        if i == 12 { assert("select right word"@.subrange(i, i + 4)[0] == "select right word"@[12]); assert("select right word"@[12] != "left"@[0]); }
        if i == 13 { assert("select right word"@.subrange(i, i + 4)[0] == "select right word"@[13]); assert("select right word"@[13] != "left"@[0]); }
    }
    assert forall|i: int| 0 <= i && i + 4 <= "select right word"@.len() implies #[trigger] "select right word"@.subrange(i, i + 4) != "last"@ by {
        if i == 0 { assert("select right word"@.subrange(i, i + 4)[0] == "select right word"@[0]); assert("select right word"@[0] != "last"@[0]); }
        if i == 1 { assert("select right word"@.subrange(i, i + 4)[0] == "select right word"@[1]); assert("select right word"@[1] != "last"@[0]); }
        if i == 2 { assert("select right word"@.subrange(i, i + 4)[1] == "select right word"@[3]); assert("select right word"@[3] != "last"@[1]); }
        if i == 3 { assert("select right word"@.subrange(i, i + 4)[0] == "select right word"@[3]); assert("select right word"@[3] != "last"@[0]); }
        if i == 4 { assert("select right word"@.subrange(i, i + 4)[0] == "select right word"@[4]); assert("select right word"@[4] != "last"@[0]); }
        if i == 5 { assert("select right word"@.subrange(i, i + 4)[0] == "select right word"@[5]); assert("select right word"@[5] != "last"@[0]); }
        if i == 6 { assert("select right word"@.subrange(i, i + 4)[0] == "select right word"@[6]); assert("select right word"@[6] != "last"@[0]); }
        if i == 7 { assert("select right word"@.subrange(i, i + 4)[0] == "select right word"@[7]); assert("select right word"@[7] != "last"@[0]); }
        if i == 8 { assert("select right word"@.subrange(i, i + 4)[0] == "select right word"@[8]); assert("select right word"@[8] != "last"@[0]); }
        if i == 9 { assert("select right word"@.subrange(i, i + 4)[0] == "select right word"@[9]); assert("select right word"@[9] != "last"@[0]); }
        if i == 10 { assert("select right word"@.subrange(i, i + 4)[0] == "select right word"@[10]); assert("select right word"@[10] != "last"@[0]); }
        if i == 11 { assert("select right word"@.subrange(i, i + 4)[0] == "select right word"@[11]); assert("select right word"@[11] != "last"@[0]); }
        if i == 12 { assert("select right word"@.subrange(i, i + 4)[0] == "select right word"@[12]); assert("select right word"@[12] != "last"@[0]); }
        if i == 13 { assert("select right word"@.subrange(i, i + 4)[0] == "select right word"@[13]); assert("select right word"@[13] != "last"@[0]); }
    }
}

proof fn lemma_nm_go_to_right_word()
    ensures
        !mentions("go to right word"@, "back"@),
        !mentions("go to right word"@, "previous"@),
        !mentions("go to right word"@, "left"@),
        !mentions("go to right word"@, "last"@),
{
    reveal_strlit("go to right word");
    reveal_strlit("back");
    reveal_strlit("previous");
    reveal_strlit("left");
    reveal_strlit("last");
    assert forall|i: int| 0 <= i && i + 4 <= "go to right word"@.len() implies #[trigger] "go to right word"@.subrange(i, i + 4) != "back"@ by {
        if i == 0 { assert("go to right word"@.subrange(i, i + 4)[0] == "go to right word"@[0]); assert("go to right word"@[0] != "back"@[0]); }
        if i == 1 { assert("go to right word"@.subrange(i, i + 4)[0] == "go to right word"@[1]); assert("go to right word"@[1] != "back"@[0]); }
        if i == 2 { assert("go to right word"@.subrange(i, i + 4)[0] == "go to right word"@[2]); assert("go to right word"@[2] != "back"@[0]); }
        if i == 3 { assert("go to right word"@.subrange(i, i + 4)[0] == "go to right word"@[3]); assert("go to right word"@[3] != "back"@[0]); }
        if i == 4 { assert("go to right word"@.subrange(i, i + 4)[0] == "go to right word"@[4]); assert("go to right word"@[4] != "back"@[0]); }
        if i == 5 { assert("go to right word"@.subrange(i, i + 4)[0] == "go to right word"@[5]); assert("go to right word"@[5] != "back"@[0]); }
        if i == 6 { assert("go to right word"@.subrange(i, i + 4)[0] == "go to right word"@[6]); assert("go to right word"@[6] != "back"@[0]); }
        if i == 7 { assert("go to right word"@.subrange(i, i + 4)[0] == "go to right word"@[7]); assert("go to right word"@[7] != "back"@[0]); }
        if i == 8 { assert("go to right word"@.subrange(i, i + 4)[0] == "go to right word"@[8]); assert("go to right word"@[8] != "back"@[0]); }
        if i == 9 { assert("go to right word"@.subrange(i, i + 4)[0] == "go to right word"@[9]); assert("go to right word"@[9] != "back"@[0]); }
        if i == 10 { assert("go to right word"@.subrange(i, i + 4)[0] == "go to right word"@[10]); assert("go to right word"@[10] != "back"@[0]); }
        if i == 11 { assert("go to right word"@.subrange(i, i + 4)[0] == "go to right word"@[11]); assert("go to right word"@[11] != "back"@[0]); }
        if i == 12 { assert("go to right word"@.subrange(i, i + 4)[0] == "go to right word"@[12]); assert("go to right word"@[12] != "back"@[0]); }
    }
    assert forall|i: int| 0 <= i && i + 8 <= "go to right word"@.len() implies #[trigger] "go to right word"@.subrange(i, i + 8) != "previous"@ by {
        if i == 0 { assert("go to right word"@.subrange(i, i + 8)[0] == "go to right word"@[0]); assert("go to right word"@[0] != "previous"@[0]); }
        if i == 1 { assert("go to right word"@.subrange(i, i + 8)[0] == "go to right word"@[1]); assert("go to right word"@[1] != "previous"@[0]); }
        if i == 2 { assert("go to right word"@.subrange(i, i + 8)[0] == "go to right word"@[2]); assert("go to right word"@[2] != "previous"@[0]); }
        if i == 3 { assert("go to right word"@.subrange(i, i + 8)[0] == "go to right word"@[3]); assert("go to right word"@[3] != "previous"@[0]); }
        if i == 4 { assert("go to right word"@.subrange(i, i + 8)[0] == "go to right word"@[4]); assert("go to right word"@[4] != "previous"@[0]); }
        if i == 5 { assert("go to right word"@.subrange(i, i + 8)[0] == "go to right word"@[5]); assert("go to right word"@[5] != "previous"@[0]); }
        if i == 6 { assert("go to right word"@.subrange(i, i + 8)[0] == "go to right word"@[6]); assert("go to right word"@[6] != "previous"@[0]); }
        if i == 7 { assert("go to right word"@.subrange(i, i + 8)[0] == "go to right word"@[7]); assert("go to right word"@[7] != "previous"@[0]); }
        if i == 8 { assert("go to right word"@.subrange(i, i + 8)[0] == "go to right word"@[8]); assert("go to right word"@[8] != "previous"@[0]); }
    }
    assert forall|i: int| 0 <= i && i + 4 <= "go to right word"@.len() implies #[trigger] "go to right word"@.subrange(i, i + 4) != "left"@ by {
        if i == 0 { assert("go to right word"@.subrange(i, i + 4)[0] == "go to right word"@[0]); assert("go to right word"@[0] != "left"@[0]); }
        if i == 1 { assert("go to right word"@.subrange(i, i + 4)[0] == "go to right word"@[1]); assert("go to right word"@[1] != "left"@[0]); }
        if i == 2 { assert("go to right word"@.subrange(i, i + 4)[0] == "go to right word"@[2]); assert("go to right word"@[2] != "left"@[0]); }
        if i == 3 { assert("go to right word"@.subrange(i, i + 4)[0] == "go to right word"@[3]); assert("go to right word"@[3] != "left"@[0]); }
        if i == 4 { assert("go to right word"@.subrange(i, i + 4)[0] == "go to right word"@[4]); assert("go to right word"@[4] != "left"@[0]); }
        if i == 5 { assert("go to right word"@.subrange(i, i + 4)[0] == "go to right word"@[5]); assert("go to right word"@[5] != "left"@[0]); }
        if i == 6 { assert("go to right word"@.subrange(i, i + 4)[0] == "go to right word"@[6]); assert("go to right word"@[6] != "left"@[0]); }
        if i == 7 { assert("go to right word"@.subrange(i, i + 4)[0] == "go to right word"@[7]); assert("go to right word"@[7] != "left"@[0]); }
        if i == 8 { assert("go to right word"@.subrange(i, i + 4)[0] == "go to right word"@[8]); assert("go to right word"@[8] != "left"@[0]); }
        if i == 9 { assert("go to right word"@.subrange(i, i + 4)[0] == "go to right word"@[9]); assert("go to right word"@[9] != "left"@[0]); }
        if i == 10 { assert("go to right word"@.subrange(i, i + 4)[0] == "go to right word"@[10]); assert("go to right word"@[10] != "left"@[0]); }
        if i == 11 { assert("go to right word"@.subrange(i, i + 4)[0] == "go to right word"@[11]); assert("go to right word"@[11] != "left"@[0]); }
        if i == 12 { assert("go to right word"@.subrange(i, i + 4)[0] == "go to right word"@[12]); assert("go to right word"@[12] != "left"@[0]); }
    }
    assert forall|i: int| 0 <= i && i + 4 <= "go to right word"@.len() implies #[trigger] "go to right word"@.subrange(i, i + 4) != "last"@ by {
        if i == 0 { assert("go to right word"@.subrange(i, i + 4)[0] == "go to right word"@[0]); assert("go to right word"@[0] != "last"@[0]); }
        if i == 1 { assert("go to right word"@.subrange(i, i + 4)[0] == "go to right word"@[1]); assert("go to right word"@[1] != "last"@[0]); }
        if i == 2 { assert("go to right word"@.subrange(i, i + 4)[0] == "go to right word"@[2]); assert("go to right word"@[2] != "last"@[0]); }
        if i == 3 { assert("go to right word"@.subrange(i, i + 4)[0] == "go to right word"@[3]); assert("go to right word"@[3] != "last"@[0]); }
        if i == 4 { assert("go to right word"@.subrange(i, i + 4)[0] == "go to right word"@[4]); assert("go to right word"@[4] != "last"@[0]); }
        if i == 5 { assert("go to right word"@.subrange(i, i + 4)[0] == "go to right word"@[5]); assert("go to right word"@[5] != "last"@[0]); }
        if i == 6 { assert("go to right word"@.subrange(i, i + 4)[0] == "go to right word"@[6]); assert("go to right word"@[6] != "last"@[0]); }
        if i == 7 { assert("go to right word"@.subrange(i, i + 4)[0] == "go to right word"@[7]); assert("go to right word"@[7] != "last"@[0]); }
        if i == 8 { assert("go to right word"@.subrange(i, i + 4)[0] == "go to right word"@[8]); assert("go to right word"@[8] != "last"@[0]); }
        if i == 9 { assert("go to right word"@.subrange(i, i + 4)[0] == "go to right word"@[9]); assert("go to right word"@[9] != "last"@[0]); }
        if i == 10 { assert("go to right word"@.subrange(i, i + 4)[0] == "go to right word"@[10]); assert("go to right word"@[10] != "last"@[0]); }
        if i == 11 { assert("go to right word"@.subrange(i, i + 4)[0] == "go to right word"@[11]); assert("go to right word"@[11] != "last"@[0]); }
        if i == 12 { assert("go to right word"@.subrange(i, i + 4)[0] == "go to right word"@[12]); assert("go to right word"@[12] != "last"@[0]); }
    }
}

proof fn lemma_nm_move_go_to_right_word()
    ensures
        !mentions("move go to right word"@, "back"@),
        !mentions("move go to right word"@, "previous"@),
        !mentions("move go to right word"@, "left"@),
        !mentions("move go to right word"@, "last"@),
{
    reveal_strlit("move go to right word");
    reveal_strlit("back");
    reveal_strlit("previous");
    reveal_strlit("left");
    reveal_strlit("last");
    assert forall|i: int| 0 <= i && i + 4 <= "move go to right word"@.len() implies #[trigger] "move go to right word"@.subrange(i, i + 4) != "back"@ by {
        if i == 0 { assert("move go to right word"@.subrange(i, i + 4)[0] == "move go to right word"@[0]); assert("move go to right word"@[0] != "back"@[0]); }
        if i == 1 { assert("move go to right word"@.subrange(i, i + 4)[0] == "move go to right word"@[1]); assert("move go to right word"@[1] != "back"@[0]); }
        if i == 2 { assert("move go to right word"@.subrange(i, i + 4)[0] == "move go to right word"@[2]); assert("move go to right word"@[2] != "back"@[0]); }
        if i == 3 { assert("move go to right word"@.subrange(i, i + 4)[0] == "move go to right word"@[3]); assert("move go to right word"@[3] != "back"@[0]); }
        if i == 4 { assert("move go to right word"@.subrange(i, i + 4)[0] == "move go to right word"@[4]); assert("move go to right word"@[4] != "back"@[0]); }
        if i == 5 { assert("move go to right word"@.subrange(i, i + 4)[0] == "move go to right word"@[5]); assert("move go to right word"@[5] != "back"@[0]); }
        if i == 6 { assert("move go to right word"@.subrange(i, i + 4)[0] == "move go to right word"@[6]); assert("move go to right word"@[6] != "back"@[0]); }
        if i == 7 { assert("move go to right word"@.subrange(i, i + 4)[0] == "move go to right word"@[7]); assert("move go to right word"@[7] != "back"@[0]); }
        if i == 8 { assert("move go to right word"@.subrange(i, i + 4)[0] == "move go to right word"@[8]); assert("move go to right word"@[8] != "back"@[0]); }
        if i == 9 { assert("move go to right word"@.subrange(i, i + 4)[0] == "move go to right word"@[9]); assert("move go to right word"@[9] != "back"@[0]); }
        if i == 10 { assert("move go to right word"@.subrange(i, i + 4)[0] == "move go to right word"@[10]); assert("move go to right word"@[10] != "back"@[0]); }
        if i == 11 { assert("move go to right word"@.subrange(i, i + 4)[0] == "move go to right word"@[11]); assert("move go to right word"@[11] != "back"@[0]); }
        if i == 12 { assert("move go to right word"@.subrange(i, i + 4)[0] == "move go to right word"@[12]); assert("move go to right word"@[12] != "back"@[0]); }
        if i == 13 { assert("move go to right word"@.subrange(i, i + 4)[0] == "move go to right word"@[13]); assert("move go to right word"@[13] != "back"@[0]); }
        if i == 14 { assert("move go to right word"@.subrange(i, i + 4)[0] == "move go to right word"@[14]); assert("move go to right word"@[14] != "back"@[0]); }
        if i == 15 { assert("move go to right word"@.subrange(i, i + 4)[0] == "move go to right word"@[15]); assert("move go to right word"@[15] != "back"@[0]); }
        if i == 16 { assert("move go to right word"@.subrange(i, i + 4)[0] == "move go to right word"@[16]); assert("move go to right word"@[16] != "back"@[0]); }
        if i == 17 { assert("move go to right word"@.subrange(i, i + 4)[0] == "move go to right word"@[17]); assert("move go to right word"@[17] != "back"@[0]); }
    }
    assert forall|i: int| 0 <= i && i + 8 <= "move go to right word"@.len() implies #[trigger] "move go to right word"@.subrange(i, i + 8) != "previous"@ by {
        if i == 0 { assert("move go to right word"@.subrange(i, i + 8)[0] == "move go to right word"@[0]); assert("move go to right word"@[0] != "previous"@[0]); }
        if i == 1 { assert("move go to right word"@.subrange(i, i + 8)[0] == "move go to right word"@[1]); assert("move go to right word"@[1] != "previous"@[0]); }
        if i == 2 { assert("move go to right word"@.subrange(i, i + 8)[0] == "move go to right word"@[2]); assert("move go to right word"@[2] != "previous"@[0]); }
        if i == 3 { assert("move go to right word"@.subrange(i, i + 8)[0] == "move go to right word"@[3]); assert("move go to right word"@[3] != "previous"@[0]); }
        if i == 4 { assert("move go to right word"@.subrange(i, i + 8)[0] == "move go to right word"@[4]); assert("move go to right word"@[4] != "previous"@[0]); }
        if i == 5 { assert("move go to right word"@.subrange(i, i + 8)[0] == "move go to right word"@[5]); assert("move go to right word"@[5] != "previous"@[0]); }
        if i == 6 { assert("move go to right word"@.subrange(i, i + 8)[0] == "move go to right word"@[6]); assert("move go to right word"@[6] != "previous"@[0]); }
        if i == 7 { assert("move go to right word"@.subrange(i, i + 8)[0] == "move go to right word"@[7]); assert("move go to right word"@[7] != "previous"@[0]); }
        if i == 8 { assert("move go to right word"@.subrange(i, i + 8)[0] == "move go to right word"@[8]); assert("move go to right word"@[8] != "previous"@[0]); }
        if i == 9 { assert("move go to right word"@.subrange(i, i + 8)[0] == "move go to right word"@[9]); assert("move go to right word"@[9] != "previous"@[0]); }
        if i == 10 { assert("move go to right word"@.subrange(i, i + 8)[0] == "move go to right word"@[10]); assert("move go to right word"@[10] != "previous"@[0]); }
        if i == 11 { assert("move go to right word"@.subrange(i, i + 8)[0] == "move go to right word"@[11]); assert("move go to right word"@[11] != "previous"@[0]); }
        if i == 12 { assert("move go to right word"@.subrange(i, i + 8)[0] == "move go to right word"@[12]); assert("move go to right word"@[12] != "previous"@[0]); }
        if i == 13 { assert("move go to right word"@.subrange(i, i + 8)[0] == "move go to right word"@[13]); assert("move go to right word"@[13] != "previous"@[0]); }
    }
    assert forall|i: int| 0 <= i && i + 4 <= "move go to right word"@.len() implies #[trigger] "move go to right word"@.subrange(i, i + 4) != "left"@ by {
        if i == 0 { assert("move go to right word"@.subrange(i, i + 4)[0] == "move go to right word"@[0]); assert("move go to right word"@[0] != "left"@[0]); }
        if i == 1 { assert("move go to right word"@.subrange(i, i + 4)[0] == "move go to right word"@[1]); assert("move go to right word"@[1] != "left"@[0]); }
        if i == 2 { assert("move go to right word"@.subrange(i, i + 4)[0] == "move go to right word"@[2]); assert("move go to right word"@[2] != "left"@[0]); }
        if i == 3 { assert("move go to right word"@.subrange(i, i + 4)[0] == "move go to right word"@[3]); assert("move go to right word"@[3] != "left"@[0]); }
        if i == 4 { assert("move go to right word"@.subrange(i, i + 4)[0] == "move go to right word"@[4]); assert("move go to right word"@[4] != "left"@[0]); }
        if i == 5 { assert("move go to right word"@.subrange(i, i + 4)[0] == "move go to right word"@[5]); assert("move go to right word"@[5] != "left"@[0]); }
        if i == 6 { assert("move go to right word"@.subrange(i, i + 4)[0] == "move go to right word"@[6]); assert("move go to right word"@[6] != "left"@[0]); }
        if i == 7 { assert("move go to right word"@.subrange(i, i + 4)[0] == "move go to right word"@[7]); assert("move go to right word"@[7] != "left"@[0]); }
        if i == 8 { assert("move go to right word"@.subrange(i, i + 4)[0] == "move go to right word"@[8]); assert("move go to right word"@[8] != "left"@[0]); }
        if i == 9 { assert("move go to right word"@.subrange(i, i + 4)[0] == "move go to right word"@[9]); assert("move go to right word"@[9] != "left"@[0]); }
        if i == 10 { assert("move go to right word"@.subrange(i, i + 4)[0] == "move go to right word"@[10]); assert("move go to right word"@[10] != "left"@[0]); }
        if i == 11 { assert("move go to right word"@.subrange(i, i + 4)[0] == "move go to right word"@[11]); assert("move go to right word"@[11] != "left"@[0]); }
        if i == 12 { assert("move go to right word"@.subrange(i, i + 4)[0] == "move go to right word"@[12]); assert("move go to right word"@[12] != "left"@[0]); }
        if i == 13 { assert("move go to right word"@.subrange(i, i + 4)[0] == "move go to right word"@[13]); assert("move go to right word"@[13] != "left"@[0]); }
        if i == 14 { assert("move go to right word"@.subrange(i, i + 4)[0] == "move go to right word"@[14]); assert("move go to right word"@[14] != "left"@[0]); }
        if i == 15 { assert("move go to right word"@.subrange(i, i + 4)[0] == "move go to right word"@[15]); assert("move go to right word"@[15] != "left"@[0]); }
        if i == 16 { assert("move go to right word"@.subrange(i, i + 4)[0] == "move go to right word"@[16]); assert("move go to right word"@[16] != "left"@[0]); }
        if i == 17 { assert("move go to right word"@.subrange(i, i + 4)[0] == "move go to right word"@[17]); assert("move go to right word"@[17] != "left"@[0]); }
    }
    assert forall|i: int| 0 <= i && i + 4 <= "move go to right word"@.len() implies #[trigger] "move go to right word"@.subrange(i, i + 4) != "last"@ by {
        if i == 0 { assert("move go to right word"@.subrange(i, i + 4)[0] == "move go to right word"@[0]); assert("move go to right word"@[0] != "last"@[0]); }
        if i == 1 { assert("move go to right word"@.subrange(i, i + 4)[0] == "move go to right word"@[1]); assert("move go to right word"@[1] != "last"@[0]); }
        if i == 2 { assert("move go to right word"@.subrange(i, i + 4)[0] == "move go to right word"@[2]); assert("move go to right word"@[2] != "last"@[0]); }
        if i == 3 { assert("move go to right word"@.subrange(i, i + 4)[0] == "move go to right word"@[3]); assert("move go to right word"@[3] != "last"@[0]); }
        if i == 4 { assert("move go to right word"@.subrange(i, i + 4)[0] == "move go to right word"@[4]); assert("move go to right word"@[4] != "last"@[0]); }
        if i == 5 { assert("move go to right word"@.subrange(i, i + 4)[0] == "move go to right word"@[5]); assert("move go to right word"@[5] != "last"@[0]); }
        if i == 6 { assert("move go to right word"@.subrange(i, i + 4)[0] == "move go to right word"@[6]); assert("move go to right word"@[6] != "last"@[0]); }
        if i == 7 { assert("move go to right word"@.subrange(i, i + 4)[0] == "move go to right word"@[7]); assert("move go to right word"@[7] != "last"@[0]); }
        if i == 8 { assert("move go to right word"@.subrange(i, i + 4)[0] == "move go to right word"@[8]); assert("move go to right word"@[8] != "last"@[0]); }
        if i == 9 { assert("move go to right word"@.subrange(i, i + 4)[0] == "move go to right word"@[9]); assert("move go to right word"@[9] != "last"@[0]); }
        if i == 10 { assert("move go to right word"@.subrange(i, i + 4)[0] == "move go to right word"@[10]); assert("move go to right word"@[10] != "last"@[0]); }
        if i == 11 { assert("move go to right word"@.subrange(i, i + 4)[0] == "move go to right word"@[11]); assert("move go to right word"@[11] != "last"@[0]); }
        if i == 12 { assert("move go to right word"@.subrange(i, i + 4)[0] == "move go to right word"@[12]); assert("move go to right word"@[12] != "last"@[0]); }
        if i == 13 { assert("move go to right word"@.subrange(i, i + 4)[0] == "move go to right word"@[13]); assert("move go to right word"@[13] != "last"@[0]); }
        if i == 14 { assert("move go to right word"@.subrange(i, i + 4)[0] == "move go to right word"@[14]); assert("move go to right word"@[14] != "last"@[0]); }
        if i == 15 { assert("move go to right word"@.subrange(i, i + 4)[0] == "move go to right word"@[15]); assert("move go to right word"@[15] != "last"@[0]); }
        if i == 16 { assert("move go to right word"@.subrange(i, i + 4)[0] == "move go to right word"@[16]); assert("move go to right word"@[16] != "last"@[0]); }
        if i == 17 { assert("move go to right word"@.subrange(i, i + 4)[0] == "move go to right word"@[17]); assert("move go to right word"@[17] != "last"@[0]); }
    }
}

proof fn lemma_nm_select_go_to_right_word()
    ensures
        !mentions("select go to right word"@, "back"@),
        !mentions("select go to right word"@, "previous"@),
        !mentions("select go to right word"@, "left"@),
        !mentions("select go to right word"@, "last"@),
{
    reveal_strlit("select go to right word");
    reveal_strlit("back");
    reveal_strlit("previous");
    reveal_strlit("left");
    reveal_strlit("last");
    assert forall|i: int| 0 <= i && i + 4 <= "select go to right word"@.len() implies #[trigger] "select go to right word"@.subrange(i, i + 4) != "back"@ by {
        if i == 0 { assert("select go to right word"@.subrange(i, i + 4)[0] == "select go to right word"@[0]); assert("select go to right word"@[0] != "back"@[0]); }
        if i == 1 { assert("select go to right word"@.subrange(i, i + 4)[0] == "select go to right word"@[1]); assert("select go to right word"@[1] != "back"@[0]); }
        if i == 2 { assert("select go to right word"@.subrange(i, i + 4)[0] == "select go to right word"@[2]); assert("select go to right word"@[2] != "back"@[0]); }
        if i == 3 { assert("select go to right word"@.subrange(i, i + 4)[0] == "select go to right word"@[3]); assert("select go to right word"@[3] != "back"@[0]); }
        if i == 4 { assert("select go to right word"@.subrange(i, i + 4)[0] == "select go to right word"@[4]); assert("select go to right word"@[4] != "back"@[0]); }
        if i == 5 { assert("select go to right word"@.subrange(i, i + 4)[0] == "select go to right word"@[5]); assert("select go to right word"@[5] != "back"@[0]); }
        if i == 6 { assert("select go to right word"@.subrange(i, i + 4)[0] == "select go to right word"@[6]); assert("select go to right word"@[6] != "back"@[0]); }
        if i == 7 { assert("select go to right word"@.subrange(i, i + 4)[0] == "select go to right word"@[7]); assert("select go to right word"@[7] != "back"@[0]); }
        if i == 8 { assert("select go to right word"@.subrange(i, i + 4)[0] == "select go to right word"@[8]); assert("select go to right word"@[8] != "back"@[0]); }
        if i == 9 { assert("select go to right word"@.subrange(i, i + 4)[0] == "select go to right word"@[9]); assert("select go to right word"@[9] != "back"@[0]); }
        if i == 10 { assert("select go to right word"@.subrange(i, i + 4)[0] == "select go to right word"@[10]); assert("select go to right word"@[10] != "back"@[0]); }
        if i == 11 { assert("select go to right word"@.subrange(i, i + 4)[0] == "select go to right word"@[11]); assert("select go to right word"@[11] != "back"@[0]); }
        if i == 12 { assert("select go to right word"@.subrange(i, i + 4)[0] == "select go to right word"@[12]); assert("select go to right word"@[12] != "back"@[0]); }
        if i == 13 { assert("select go to right word"@.subrange(i, i + 4)[0] == "select go to right word"@[13]); assert("select go to right word"@[13] != "back"@[0]); }
        if i == 14 { assert("select go to right word"@.subrange(i, i + 4)[0] == "select go to right word"@[14]); assert("select go to right word"@[14] != "back"@[0]); }
        if i == 15 { assert("select go to right word"@.subrange(i, i + 4)[0] == "select go to right word"@[15]); assert("select go to right word"@[15] != "back"@[0]); }
        if i == 16 { assert("select go to right word"@.subrange(i, i + 4)[0] == "select go to right word"@[16]); assert("select go to right word"@[16] != "back"@[0]); }
        if i == 17 { assert("select go to right word"@.subrange(i, i + 4)[0] == "select go to right word"@[17]); assert("select go to right word"@[17] != "back"@[0]); }
        if i == 18 { assert("select go to right word"@.subrange(i, i + 4)[0] == "select go to right word"@[18]); assert("select go to right word"@[18] != "back"@[0]); }
        if i == 19 { assert("select go to right word"@.subrange(i, i + 4)[0] == "select go to right word"@[19]); assert("select go to right word"@[19] != "back"@[0]); }
    }
    assert forall|i: int| 0 <= i && i + 8 <= "select go to right word"@.len() implies #[trigger] "select go to right word"@.subrange(i, i + 8) != "previous"@ by {
        if i == 0 { assert("select go to right word"@.subrange(i, i + 8)[0] == "select go to right word"@[0]); assert("select go to right word"@[0] != "previous"@[0]); }
        if i == 1 { assert("select go to right word"@.subrange(i, i + 8)[0] == "select go to right word"@[1]); assert("select go to right word"@[1] != "previous"@[0]); }
        if i == 2 { assert("select go to right word"@.subrange(i, i + 8)[0] == "select go to right word"@[2]); assert("select go to right word"@[2] != "previous"@[0]); }
        if i == 3 { assert("select go to right word"@.subrange(i, i + 8)[0] == "select go to right word"@[3]); assert("select go to right word"@[3] != "previous"@[0]); }
        if i == 4 { assert("select go to right word"@.subrange(i, i + 8)[0] == "select go to right word"@[4]); assert("select go to right word"@[4] != "previous"@[0]); }
        if i == 5 { assert("select go to right word"@.subrange(i, i + 8)[0] == "select go to right word"@[5]); assert("select go to right word"@[5] != "previous"@[0]); }
        if i == 6 { assert("select go to right word"@.subrange(i, i + 8)[0] == "select go to right word"@[6]); assert("select go to right word"@[6] != "previous"@[0]); }
        if i == 7 { assert("select go to right word"@.subrange(i, i + 8)[0] == "select go to right word"@[7]); assert("select go to right word"@[7] != "previous"@[0]); }
        if i == 8 { assert("select go to right word"@.subrange(i, i + 8)[0] == "select go to right word"@[8]); assert("select go to right word"@[8] != "previous"@[0]); }
        if i == 9 { assert("select go to right word"@.subrange(i, i + 8)[0] == "select go to right word"@[9]); assert("select go to right word"@[9] != "previous"@[0]); }
        if i == 10 { assert("select go to right word"@.subrange(i, i + 8)[0] == "select go to right word"@[10]); assert("select go to right word"@[10] != "previous"@[0]); }
        if i == 11 { assert("select go to right word"@.subrange(i, i + 8)[0] == "select go to right word"@[11]); assert("select go to right word"@[11] != "previous"@[0]); }
        if i == 12 { assert("select go to right word"@.subrange(i, i + 8)[0] == "select go to right word"@[12]); assert("select go to right word"@[12] != "previous"@[0]); }
        if i == 13 { assert("select go to right word"@.subrange(i, i + 8)[0] == "select go to right word"@[13]); assert("select go to right word"@[13] != "previous"@[0]); }
        if i == 14 { assert("select go to right word"@.subrange(i, i + 8)[0] == "select go to right word"@[14]); assert("select go to right word"@[14] != "previous"@[0]); }
        if i == 15 { assert("select go to right word"@.subrange(i, i + 8)[0] == "select go to right word"@[15]); assert("select go to right word"@[15] != "previous"@[0]); }
    }
    assert forall|i: int| 0 <= i && i + 4 <= "select go to right word"@.len() implies #[trigger] "select go to right word"@.subrange(i, i + 4) != "left"@ by {
        if i == 0 { assert("select go to right word"@.subrange(i, i + 4)[0] == "select go to right word"@[0]); assert("select go to right word"@[0] != "left"@[0]); }
        if i == 1 { assert("select go to right word"@.subrange(i, i + 4)[0] == "select go to right word"@[1]); assert("select go to right word"@[1] != "left"@[0]); }
        if i == 2 { assert("select go to right word"@.subrange(i, i + 4)[2] == "select go to right word"@[4]); assert("select go to right word"@[4] != "left"@[2]); }
        if i == 3 { assert("select go to right word"@.subrange(i, i + 4)[0] == "select go to right word"@[3]); assert("select go to right word"@[3] != "left"@[0]); }
        if i == 4 { assert("select go to right word"@.subrange(i, i + 4)[0] == "select go to right word"@[4]); assert("select go to right word"@[4] != "left"@[0]); }
        if i == 5 { assert("select go to right word"@.subrange(i, i + 4)[0] == "select go to right word"@[5]); assert("select go to right word"@[5] != "left"@[0]); }
        if i == 6 { assert("select go to right word"@.subrange(i, i + 4)[0] == "select go to right word"@[6]); assert("select go to right word"@[6] != "left"@[0]); }
        if i == 7 { assert("select go to right word"@.subrange(i, i + 4)[0] == "select go to right word"@[7]); assert("select go to right word"@[7] != "left"@[0]); }
        if i == 8 { assert("select go to right word"@.subrange(i, i + 4)[0] == "select go to right word"@[8]); assert("select go to right word"@[8] != "left"@[0]); }
        if i == 9 { assert("select go to right word"@.subrange(i, i + 4)[0] == "select go to right word"@[9]); assert("select go to right word"@[9] != "left"@[0]); }
        if i == 10 { assert("select go to right word"@.subrange(i, i + 4)[0] == "select go to right word"@[10]); assert("select go to right word"@[10] != "left"@[0]); }
        if i == 11 { assert("select go to right word"@.subrange(i, i + 4)[0] == "select go to right word"@[11]); assert("select go to right word"@[11] != "left"@[0]); }
        if i == 12 { assert("select go to right word"@.subrange(i, i + 4)[0] == "select go to right word"@[12]); assert("select go to right word"@[12] != "left"@[0]); }
        if i == 13 { assert("select go to right word"@.subrange(i, i + 4)[0] == "select go to right word"@[13]); assert("select go to right word"@[13] != "left"@[0]); }
        if i == 14 { assert("select go to right word"@.subrange(i, i + 4)[0] == "select go to right word"@[14]); assert("select go to right word"@[14] != "left"@[0]); }
        if i == 15 { assert("select go to right word"@.subrange(i, i + 4)[0] == "select go to right word"@[15]); assert("select go to right word"@[15] != "left"@[0]); }
        if i == 16 { assert("select go to right word"@.subrange(i, i + 4)[0] == "select go to right word"@[16]); assert("select go to right word"@[16] != "left"@[0]); }
        if i == 17 { assert("select go to right word"@.subrange(i, i + 4)[0] == "select go to right word"@[17]); assert("select go to right word"@[17] != "left"@[0]); }
        if i == 18 { assert("select go to right word"@.subrange(i, i + 4)[0] == "select go to right word"@[18]); assert("select go to right word"@[18] != "left"@[0]); }
        if i == 19 { assert("select go to right word"@.subrange(i, i + 4)[0] == "select go to right word"@[19]); assert("select go to right word"@[19] != "left"@[0]); }
    }
    assert forall|i: int| 0 <= i && i + 4 <= "select go to right word"@.len() implies #[trigger] "select go to right word"@.subrange(i, i + 4) != "last"@ by {
        if i == 0 { assert("select go to right word"@.subrange(i, i + 4)[0] == "select go to right word"@[0]); assert("select go to right word"@[0] != "last"@[0]); }
        if i == 1 { assert("select go to right word"@.subrange(i, i + 4)[0] == "select go to right word"@[1]); assert("select go to right word"@[1] != "last"@[0]); }
        if i == 2 { assert("select go to right word"@.subrange(i, i + 4)[1] == "select go to right word"@[3]); assert("select go to right word"@[3] != "last"@[1]); }
        if i == 3 { assert("select go to right word"@.subrange(i, i + 4)[0] == "select go to right word"@[3]); assert("select go to right word"@[3] != "last"@[0]); }
        if i == 4 { assert("select go to right word"@.subrange(i, i + 4)[0] == "select go to right word"@[4]); assert("select go to right word"@[4] != "last"@[0]); }
        if i == 5 { assert("select go to right word"@.subrange(i, i + 4)[0] == "select go to right word"@[5]); assert("select go to right word"@[5] != "last"@[0]); }
        if i == 6 { assert("select go to right word"@.subrange(i, i + 4)[0] == "select go to right word"@[6]); assert("select go to right word"@[6] != "last"@[0]); }
        if i == 7 { assert("select go to right word"@.subrange(i, i + 4)[0] == "select go to right word"@[7]); assert("select go to right word"@[7] != "last"@[0]); }
        if i == 8 { assert("select go to right word"@.subrange(i, i + 4)[0] == "select go to right word"@[8]); assert("select go to right word"@[8] != "last"@[0]); }
        if i == 9 { assert("select go to right word"@.subrange(i, i + 4)[0] == "select go to right word"@[9]); assert("select go to right word"@[9] != "last"@[0]); }
        if i == 10 { assert("select go to right word"@.subrange(i, i + 4)[0] == "select go to right word"@[10]); assert("select go to right word"@[10] != "last"@[0]); }
        if i == 11 { assert("select go to right word"@.subrange(i, i + 4)[0] == "select go to right word"@[11]); assert("select go to right word"@[11] != "last"@[0]); }
        if i == 12 { assert("select go to right word"@.subrange(i, i + 4)[0] == "select go to right word"@[12]); assert("select go to right word"@[12] != "last"@[0]); }
        if i == 13 { assert("select go to right word"@.subrange(i, i + 4)[0] == "select go to right word"@[13]); assert("select go to right word"@[13] != "last"@[0]); }
        if i == 14 { assert("select go to right word"@.subrange(i, i + 4)[0] == "select go to right word"@[14]); assert("select go to right word"@[14] != "last"@[0]); }
        if i == 15 { assert("select go to right word"@.subrange(i, i + 4)[0] == "select go to right word"@[15]); assert("select go to right word"@[15] != "last"@[0]); }
        if i == 16 { assert("select go to right word"@.subrange(i, i + 4)[0] == "select go to right word"@[16]); assert("select go to right word"@[16] != "last"@[0]); }
        if i == 17 { assert("select go to right word"@.subrange(i, i + 4)[0] == "select go to right word"@[17]); assert("select go to right word"@[17] != "last"@[0]); }
        if i == 18 { assert("select go to right word"@.subrange(i, i + 4)[0] == "select go to right word"@[18]); assert("select go to right word"@[18] != "last"@[0]); }
        if i == 19 { assert("select go to right word"@.subrange(i, i + 4)[0] == "select go to right word"@[19]); assert("select go to right word"@[19] != "last"@[0]); }
    }
}

proof fn lemma_nm_next_word()
    ensures
        !mentions("next word"@, "back"@),
        !mentions("next word"@, "previous"@),
        !mentions("next word"@, "left"@),
        !mentions("next word"@, "last"@),
{
    reveal_strlit("next word");
    reveal_strlit("back");
    reveal_strlit("previous");
    reveal_strlit("left");
    reveal_strlit("last");
    assert forall|i: int| 0 <= i && i + 4 <= "next word"@.len() implies #[trigger] "next word"@.subrange(i, i + 4) != "back"@ by {
        if i == 0 { assert("next word"@.subrange(i, i + 4)[0] == "next word"@[0]); assert("next word"@[0] != "back"@[0]); }
        if i == 1 { assert("next word"@.subrange(i, i + 4)[0] == "next word"@[1]); assert("next word"@[1] != "back"@[0]); }
        if i == 2 { assert("next word"@.subrange(i, i + 4)[0] == "next word"@[2]); assert("next word"@[2] != "back"@[0]); }
        if i == 3 { assert("next word"@.subrange(i, i + 4)[0] == "next word"@[3]); assert("next word"@[3] != "back"@[0]); }
        if i == 4 { assert("next word"@.subrange(i, i + 4)[0] == "next word"@[4]); assert("next word"@[4] != "back"@[0]); }
        if i == 5 { assert("next word"@.subrange(i, i + 4)[0] == "next word"@[5]); assert("next word"@[5] != "back"@[0]); }
    }
    assert forall|i: int| 0 <= i && i + 8 <= "next word"@.len() implies #[trigger] "next word"@.subrange(i, i + 8) != "previous"@ by {
        if i == 0 { assert("next word"@.subrange(i, i + 8)[0] == "next word"@[0]); assert("next word"@[0] != "previous"@[0]); }
        if i == 1 { assert("next word"@.subrange(i, i + 8)[0] == "next word"@[1]); assert("next word"@[1] != "previous"@[0]); }
    }
    assert forall|i: int| 0 <= i && i + 4 <= "next word"@.len() implies #[trigger] "next word"@.subrange(i, i + 4) != "left"@ by {
        if i == 0 { assert("next word"@.subrange(i, i + 4)[0] == "next word"@[0]); assert("next word"@[0] != "left"@[0]); }
        if i == 1 { assert("next word"@.subrange(i, i + 4)[0] == "next word"@[1]); assert("next word"@[1] != "left"@[0]); }
        if i == 2 { assert("next word"@.subrange(i, i + 4)[0] == "next word"@[2]); assert("next word"@[2] != "left"@[0]); }
        if i == 3 { assert("next word"@.subrange(i, i + 4)[0] == "next word"@[3]); assert("next word"@[3] != "left"@[0]); }
        if i == 4 { assert("next word"@.subrange(i, i + 4)[0] == "next word"@[4]); assert("next word"@[4] != "left"@[0]); }
        if i == 5 { assert("next word"@.subrange(i, i + 4)[0] == "next word"@[5]); assert("next word"@[5] != "left"@[0]); }
    }
    assert forall|i: int| 0 <= i && i + 4 <= "next word"@.len() implies #[trigger] "next word"@.subrange(i, i + 4) != "last"@ by {
        if i == 0 { assert("next word"@.subrange(i, i + 4)[0] == "next word"@[0]); assert("next word"@[0] != "last"@[0]); }
        if i == 1 { assert("next word"@.subrange(i, i + 4)[0] == "next word"@[1]); assert("next word"@[1] != "last"@[0]); }
        if i == 2 { assert("next word"@.subrange(i, i + 4)[0] == "next word"@[2]); assert("next word"@[2] != "last"@[0]); }
        if i == 3 { assert("next word"@.subrange(i, i + 4)[0] == "next word"@[3]); assert("next word"@[3] != "last"@[0]); }
        if i == 4 { assert("next word"@.subrange(i, i + 4)[0] == "next word"@[4]); assert("next word"@[4] != "last"@[0]); }
        if i == 5 { assert("next word"@.subrange(i, i + 4)[0] == "next word"@[5]); assert("next word"@[5] != "last"@[0]); }
    }
}

proof fn lemma_nm_move_next_word()
    ensures
        !mentions("move next word"@, "back"@),
        !mentions("move next word"@, "previous"@),
        !mentions("move next word"@, "left"@),
        !mentions("move next word"@, "last"@),
{
    reveal_strlit("move next word");
    reveal_strlit("back");
    reveal_strlit("previous");
    reveal_strlit("left");
    reveal_strlit("last");
    assert forall|i: int| 0 <= i && i + 4 <= "move next word"@.len() implies #[trigger] "move next word"@.subrange(i, i + 4) != "back"@ by {
        if i == 0 { assert("move next word"@.subrange(i, i + 4)[0] == "move next word"@[0]); assert("move next word"@[0] != "back"@[0]); }
        if i == 1 { assert("move next word"@.subrange(i, i + 4)[0] == "move next word"@[1]); assert("move next word"@[1] != "back"@[0]); }
        if i == 2 { assert("move next word"@.subrange(i, i + 4)[0] == "move next word"@[2]); assert("move next word"@[2] != "back"@[0]); }
        if i == 3 { assert("move next word"@.subrange(i, i + 4)[0] == "move next word"@[3]); assert("move next word"@[3] != "back"@[0]); }
        if i == 4 { assert("move next word"@.subrange(i, i + 4)[0] == "move next word"@[4]); assert("move next word"@[4] != "back"@[0]); }
        if i == 5 { assert("move next word"@.subrange(i, i + 4)[0] == "move next word"@[5]); assert("move next word"@[5] != "back"@[0]); }
        if i == 6 { assert("move next word"@.subrange(i, i + 4)[0] == "move next word"@[6]); assert("move next word"@[6] != "back"@[0]); }
        if i == 7 { assert("move next word"@.subrange(i, i + 4)[0] == "move next word"@[7]); assert("move next word"@[7] != "back"@[0]); }
        if i == 8 { assert("move next word"@.subrange(i, i + 4)[0] == "move next word"@[8]); assert("move next word"@[8] != "back"@[0]); }
        if i == 9 { assert("move next word"@.subrange(i, i + 4)[0] == "move next word"@[9]); assert("move next word"@[9] != "back"@[0]); }
        if i == 10 { assert("move next word"@.subrange(i, i + 4)[0] == "move next word"@[10]); assert("move next word"@[10] != "back"@[0]); }
    }
    assert forall|i: int| 0 <= i && i + 8 <= "move next word"@.len() implies #[trigger] "move next word"@.subrange(i, i + 8) != "previous"@ by {
        if i == 0 { assert("move next word"@.subrange(i, i + 8)[0] == "move next word"@[0]); assert("move next word"@[0] != "previous"@[0]); }
        if i == 1 { assert("move next word"@.subrange(i, i + 8)[0] == "move next word"@[1]); assert("move next word"@[1] != "previous"@[0]); }
        if i == 2 { assert("move next word"@.subrange(i, i + 8)[0] == "move next word"@[2]); assert("move next word"@[2] != "previous"@[0]); }
        if i == 3 { assert("move next word"@.subrange(i, i + 8)[0] == "move next word"@[3]); assert("move next word"@[3] != "previous"@[0]); }
        if i == 4 { assert("move next word"@.subrange(i, i + 8)[0] == "move next word"@[4]); assert("move next word"@[4] != "previous"@[0]); }
        if i == 5 { assert("move next word"@.subrange(i, i + 8)[0] == "move next word"@[5]); assert("move next word"@[5] != "previous"@[0]); }
        if i == 6 { assert("move next word"@.subrange(i, i + 8)[0] == "move next word"@[6]); assert("move next word"@[6] != "previous"@[0]); }
    }
    assert forall|i: int| 0 <= i && i + 4 <= "move next word"@.len() implies #[trigger] "move next word"@.subrange(i, i + 4) != "left"@ by {
        if i == 0 { assert("move next word"@.subrange(i, i + 4)[0] == "move next word"@[0]); assert("move next word"@[0] != "left"@[0]); }
        if i == 1 { assert("move next word"@.subrange(i, i + 4)[0] == "move next word"@[1]); assert("move next word"@[1] != "left"@[0]); }
        if i == 2 { assert("move next word"@.subrange(i, i + 4)[0] == "move next word"@[2]); assert("move next word"@[2] != "left"@[0]); }
        if i == 3 { assert("move next word"@.subrange(i, i + 4)[0] == "move next word"@[3]); assert("move next word"@[3] != "left"@[0]); }
        if i == 4 { assert("move next word"@.subrange(i, i + 4)[0] == "move next word"@[4]); assert("move next word"@[4] != "left"@[0]); }
        if i == 5 { assert("move next word"@.subrange(i, i + 4)[0] == "move next word"@[5]); assert("move next word"@[5] != "left"@[0]); }
        if i == 6 { assert("move next word"@.subrange(i, i + 4)[0] == "move next word"@[6]); assert("move next word"@[6] != "left"@[0]); }
        if i == 7 { assert("move next word"@.subrange(i, i + 4)[0] == "move next word"@[7]); assert("move next word"@[7] != "left"@[0]); }
        if i == 8 { assert("move next word"@.subrange(i, i + 4)[0] == "move next word"@[8]); assert("move next word"@[8] != "left"@[0]); }
        if i == 9 { assert("move next word"@.subrange(i, i + 4)[0] == "move next word"@[9]); assert("move next word"@[9] != "left"@[0]); }
        if i == 10 { assert("move next word"@.subrange(i, i + 4)[0] == "move next word"@[10]); assert("move next word"@[10] != "left"@[0]); }
    }
    assert forall|i: int| 0 <= i && i + 4 <= "move next word"@.len() implies #[trigger] "move next word"@.subrange(i, i + 4) != "last"@ by {
        if i == 0 { assert("move next word"@.subrange(i, i + 4)[0] == "move next word"@[0]); assert("move next word"@[0] != "last"@[0]); }
        if i == 1 { assert("move next word"@.subrange(i, i + 4)[0] == "move next word"@[1]); assert("move next word"@[1] != "last"@[0]); }
        if i == 2 { assert("move next word"@.subrange(i, i + 4)[0] == "move next word"@[2]); assert("move next word"@[2] != "last"@[0]); }
        if i == 3 { assert("move next word"@.subrange(i, i + 4)[0] == "move next word"@[3]); assert("move next word"@[3] != "last"@[0]); }
        if i == 4 { assert("move next word"@.subrange(i, i + 4)[0] == "move next word"@[4]); assert("move next word"@[4] != "last"@[0]); }
        if i == 5 { assert("move next word"@.subrange(i, i + 4)[0] == "move next word"@[5]); assert("move next word"@[5] != "last"@[0]); }
        if i == 6 { assert("move next word"@.subrange(i, i + 4)[0] == "move next word"@[6]); assert("move next word"@[6] != "last"@[0]); }
        if i == 7 { assert("move next word"@.subrange(i, i + 4)[0] == "move next word"@[7]); assert("move next word"@[7] != "last"@[0]); }
        if i == 8 { assert("move next word"@.subrange(i, i + 4)[0] == "move next word"@[8]); assert("move next word"@[8] != "last"@[0]); }
        if i == 9 { assert("move next word"@.subrange(i, i + 4)[0] == "move next word"@[9]); assert("move next word"@[9] != "last"@[0]); }
        if i == 10 { assert("move next word"@.subrange(i, i + 4)[0] == "move next word"@[10]); assert("move next word"@[10] != "last"@[0]); }
    }
}

proof fn lemma_nm_select_next_word()
    ensures
        !mentions("select next word"@, "back"@),
        !mentions("select next word"@, "previous"@),
        !mentions("select next word"@, "left"@),
        !mentions("select next word"@, "last"@),
{
    reveal_strlit("select next word");
    reveal_strlit("back");
    reveal_strlit("previous");
    reveal_strlit("left");
    reveal_strlit("last");
    assert forall|i: int| 0 <= i && i + 4 <= "select next word"@.len() implies #[trigger] "select next word"@.subrange(i, i + 4) != "back"@ by {
        if i == 0 { assert("select next word"@.subrange(i, i + 4)[0] == "select next word"@[0]); assert("select next word"@[0] != "back"@[0]); }
        if i == 1 { assert("select next word"@.subrange(i, i + 4)[0] == "select next word"@[1]); assert("select next word"@[1] != "back"@[0]); }
        if i == 2 { assert("select next word"@.subrange(i, i + 4)[0] == "select next word"@[2]); assert("select next word"@[2] != "back"@[0]); }
        if i == 3 { assert("select next word"@.subrange(i, i + 4)[0] == "select next word"@[3]); assert("select next word"@[3] != "back"@[0]); }
        if i == 4 { assert("select next word"@.subrange(i, i + 4)[0] == "select next word"@[4]); assert("select next word"@[4] != "back"@[0]); }
        if i == 5 { assert("select next word"@.subrange(i, i + 4)[0] == "select next word"@[5]); assert("select next word"@[5] != "back"@[0]); }
        if i == 6 { assert("select next word"@.subrange(i, i + 4)[0] == "select next word"@[6]); assert("select next word"@[6] != "back"@[0]); }
        if i == 7 { assert("select next word"@.subrange(i, i + 4)[0] == "select next word"@[7]); assert("select next word"@[7] != "back"@[0]); }
        if i == 8 { assert("select next word"@.subrange(i, i + 4)[0] == "select next word"@[8]); assert("select next word"@[8] != "back"@[0]); }
        if i == 9 { assert("select next word"@.subrange(i, i + 4)[0] == "select next word"@[9]); assert("select next word"@[9] != "back"@[0]); }
        if i == 10 { assert("select next word"@.subrange(i, i + 4)[0] == "select next word"@[10]); assert("select next word"@[10] != "back"@[0]); }
        if i == 11 { assert("select next word"@.subrange(i, i + 4)[0] == "select next word"@[11]); assert("select next word"@[11] != "back"@[0]); }
        if i == 12 { assert("select next word"@.subrange(i, i + 4)[0] == "select next word"@[12]); assert("select next word"@[12] != "back"@[0]); }
    }
    assert forall|i: int| 0 <= i && i + 8 <= "select next word"@.len() implies #[trigger] "select next word"@.subrange(i, i + 8) != "previous"@ by {
        if i == 0 { assert("select next word"@.subrange(i, i + 8)[0] == "select next word"@[0]); assert("select next word"@[0] != "previous"@[0]); }
        if i == 1 { assert("select next word"@.subrange(i, i + 8)[0] == "select next word"@[1]); assert("select next word"@[1] != "previous"@[0]); }
        if i == 2 { assert("select next word"@.subrange(i, i + 8)[0] == "select next word"@[2]); assert("select next word"@[2] != "previous"@[0]); }
        if i == 3 { assert("select next word"@.subrange(i, i + 8)[0] == "select next word"@[3]); assert("select next word"@[3] != "previous"@[0]); }
        if i == 4 { assert("select next word"@.subrange(i, i + 8)[0] == "select next word"@[4]); assert("select next word"@[4] != "previous"@[0]); }
        if i == 5 { assert("select next word"@.subrange(i, i + 8)[0] == "select next word"@[5]); assert("select next word"@[5] != "previous"@[0]); }
        if i == 6 { assert("select next word"@.subrange(i, i + 8)[0] == "select next word"@[6]); assert("select next word"@[6] != "previous"@[0]); }
        if i == 7 { assert("select next word"@.subrange(i, i + 8)[0] == "select next word"@[7]); assert("select next word"@[7] != "previous"@[0]); }
        if i == 8 { assert("select next word"@.subrange(i, i + 8)[0] == "select next word"@[8]); assert("select next word"@[8] != "previous"@[0]); }
    }
    assert forall|i: int| 0 <= i && i + 4 <= "select next word"@.len() implies #[trigger] "select next word"@.subrange(i, i + 4) != "left"@ by {
        if i == 0 { assert("select next word"@.subrange(i, i + 4)[0] == "select next word"@[0]); assert("select next word"@[0] != "left"@[0]); }
        if i == 1 { assert("select next word"@.subrange(i, i + 4)[0] == "select next word"@[1]); assert("select next word"@[1] != "left"@[0]); }
        if i == 2 { assert("select next word"@.subrange(i, i + 4)[2] == "select next word"@[4]); assert("select next word"@[4] != "left"@[2]); }
        if i == 3 { assert("select next word"@.subrange(i, i + 4)[0] == "select next word"@[3]); assert("select next word"@[3] != "left"@[0]); }
        if i == 4 { assert("select next word"@.subrange(i, i + 4)[0] == "select next word"@[4]); assert("select next word"@[4] != "left"@[0]); }
        if i == 5 { assert("select next word"@.subrange(i, i + 4)[0] == "select next word"@[5]); assert("select next word"@[5] != "left"@[0]); }
        if i == 6 { assert("select next word"@.subrange(i, i + 4)[0] == "select next word"@[6]); assert("select next word"@[6] != "left"@[0]); }
        if i == 7 { assert("select next word"@.subrange(i, i + 4)[0] == "select next word"@[7]); assert("select next word"@[7] != "left"@[0]); }
        if i == 8 { assert("select next word"@.subrange(i, i + 4)[0] == "select next word"@[8]); assert("select next word"@[8] != "left"@[0]); }
        if i == 9 { assert("select next word"@.subrange(i, i + 4)[0] == "select next word"@[9]); assert("select next word"@[9] != "left"@[0]); }
        if i == 10 { assert("select next word"@.subrange(i, i + 4)[0] == "select next word"@[10]); assert("select next word"@[10] != "left"@[0]); }
        if i == 11 { assert("select next word"@.subrange(i, i + 4)[0] == "select next word"@[11]); assert("select next word"@[11] != "left"@[0]); }
        if i == 12 { assert("select next word"@.subrange(i, i + 4)[0] == "select next word"@[12]); assert("select next word"@[12] != "left"@[0]); }
    }
    assert forall|i: int| 0 <= i && i + 4 <= "select next word"@.len() implies #[trigger] "select next word"@.subrange(i, i + 4) != "last"@ by {
        if i == 0 { assert("select next word"@.subrange(i, i + 4)[0] == "select next word"@[0]); assert("select next word"@[0] != "last"@[0]); }
        if i == 1 { assert("select next word"@.subrange(i, i + 4)[0] == "select next word"@[1]); assert("select next word"@[1] != "last"@[0]); }
        if i == 2 { assert("select next word"@.subrange(i, i + 4)[1] == "select next word"@[3]); assert("select next word"@[3] != "last"@[1]); }
        if i == 3 { assert("select next word"@.subrange(i, i + 4)[0] == "select next word"@[3]); assert("select next word"@[3] != "last"@[0]); }
        if i == 4 { assert("select next word"@.subrange(i, i + 4)[0] == "select next word"@[4]); assert("select next word"@[4] != "last"@[0]); }
        if i == 5 { assert("select next word"@.subrange(i, i + 4)[0] == "select next word"@[5]); assert("select next word"@[5] != "last"@[0]); }
        if i == 6 { assert("select next word"@.subrange(i, i + 4)[0] == "select next word"@[6]); assert("select next word"@[6] != "last"@[0]); }
        if i == 7 { assert("select next word"@.subrange(i, i + 4)[0] == "select next word"@[7]); assert("select next word"@[7] != "last"@[0]); }
        if i == 8 { assert("select next word"@.subrange(i, i + 4)[0] == "select next word"@[8]); assert("select next word"@[8] != "last"@[0]); }
        if i == 9 { assert("select next word"@.subrange(i, i + 4)[0] == "select next word"@[9]); assert("select next word"@[9] != "last"@[0]); }
        if i == 10 { assert("select next word"@.subrange(i, i + 4)[0] == "select next word"@[10]); assert("select next word"@[10] != "last"@[0]); }
        if i == 11 { assert("select next word"@.subrange(i, i + 4)[0] == "select next word"@[11]); assert("select next word"@[11] != "last"@[0]); }
        if i == 12 { assert("select next word"@.subrange(i, i + 4)[0] == "select next word"@[12]); assert("select next word"@[12] != "last"@[0]); }
    }
}

proof fn lemma_nm_go_to_next_word()
    ensures
        !mentions("go to next word"@, "back"@),
        !mentions("go to next word"@, "previous"@),
        !mentions("go to next word"@, "left"@),
        !mentions("go to next word"@, "last"@),
{
    reveal_strlit("go to next word");
    reveal_strlit("back");
    reveal_strlit("previous");
    reveal_strlit("left");
    reveal_strlit("last");
    assert forall|i: int| 0 <= i && i + 4 <= "go to next word"@.len() implies #[trigger] "go to next word"@.subrange(i, i + 4) != "back"@ by {
        if i == 0 { assert("go to next word"@.subrange(i, i + 4)[0] == "go to next word"@[0]); assert("go to next word"@[0] != "back"@[0]); }
        if i == 1 { assert("go to next word"@.subrange(i, i + 4)[0] == "go to next word"@[1]); assert("go to next word"@[1] != "back"@[0]); }
        if i == 2 { assert("go to next word"@.subrange(i, i + 4)[0] == "go to next word"@[2]); assert("go to next word"@[2] != "back"@[0]); }
        if i == 3 { assert("go to next word"@.subrange(i, i + 4)[0] == "go to next word"@[3]); assert("go to next word"@[3] != "back"@[0]); }
        if i == 4 { assert("go to next word"@.subrange(i, i + 4)[0] == "go to next word"@[4]); assert("go to next word"@[4] != "back"@[0]); }
        if i == 5 { assert("go to next word"@.subrange(i, i + 4)[0] == "go to next word"@[5]); assert("go to next word"@[5] != "back"@[0]); }
        if i == 6 { assert("go to next word"@.subrange(i, i + 4)[0] == "go to next word"@[6]); assert("go to next word"@[6] != "back"@[0]); }
        if i == 7 { assert("go to next word"@.subrange(i, i + 4)[0] == "go to next word"@[7]); assert("go to next word"@[7] != "back"@[0]); }
        if i == 8 { assert("go to next word"@.subrange(i, i + 4)[0] == "go to next word"@[8]); assert("go to next word"@[8] != "back"@[0]); }
        if i == 9 { assert("go to next word"@.subrange(i, i + 4)[0] == "go to next word"@[9]); assert("go to next word"@[9] != "back"@[0]); }
        if i == 10 { assert("go to next word"@.subrange(i, i + 4)[0] == "go to next word"@[10]); assert("go to next word"@[10] != "back"@[0]); }
        if i == 11 { assert("go to next word"@.subrange(i, i + 4)[0] == "go to next word"@[11]); assert("go to next word"@[11] != "back"@[0]); }
    }
    assert forall|i: int| 0 <= i && i + 8 <= "go to next word"@.len() implies #[trigger] "go to next word"@.subrange(i, i + 8) != "previous"@ by {
        if i == 0 { assert("go to next word"@.subrange(i, i + 8)[0] == "go to next word"@[0]); assert("go to next word"@[0] != "previous"@[0]); }
        if i == 1 { assert("go to next word"@.subrange(i, i + 8)[0] == "go to next word"@[1]); assert("go to next word"@[1] != "previous"@[0]); }
        if i == 2 { assert("go to next word"@.subrange(i, i + 8)[0] == "go to next word"@[2]); assert("go to next word"@[2] != "previous"@[0]); }
        if i == 3 { assert("go to next word"@.subrange(i, i + 8)[0] == "go to next word"@[3]); assert("go to next word"@[3] != "previous"@[0]); }
        if i == 4 { assert("go to next word"@.subrange(i, i + 8)[0] == "go to next word"@[4]); assert("go to next word"@[4] != "previous"@[0]); }
        if i == 5 { assert("go to next word"@.subrange(i, i + 8)[0] == "go to next word"@[5]); assert("go to next word"@[5] != "previous"@[0]); }
        if i == 6 { assert("go to next word"@.subrange(i, i + 8)[0] == "go to next word"@[6]); assert("go to next word"@[6] != "previous"@[0]); }
        if i == 7 { assert("go to next word"@.subrange(i, i + 8)[0] == "go to next word"@[7]); assert("go to next word"@[7] != "previous"@[0]); }
    }
    assert forall|i: int| 0 <= i && i + 4 <= "go to next word"@.len() implies #[trigger] "go to next word"@.subrange(i, i + 4) != "left"@ by {
        if i == 0 { assert("go to next word"@.subrange(i, i + 4)[0] == "go to next word"@[0]); assert("go to next word"@[0] != "left"@[0]); }
        if i == 1 { assert("go to next word"@.subrange(i, i + 4)[0] == "go to next word"@[1]); assert("go to next word"@[1] != "left"@[0]); }
        if i == 2 { assert("go to next word"@.subrange(i, i + 4)[0] == "go to next word"@[2]); assert("go to next word"@[2] != "left"@[0]); }
        if i == 3 { assert("go to next word"@.subrange(i, i + 4)[0] == "go to next word"@[3]); assert("go to next word"@[3] != "left"@[0]); }
        if i == 4 { assert("go to next word"@.subrange(i, i + 4)[0] == "go to next word"@[4]); assert("go to next word"@[4] != "left"@[0]); }
        if i == 5 { assert("go to next word"@.subrange(i, i + 4)[0] == "go to next word"@[5]); assert("go to next word"@[5] != "left"@[0]); }
        if i == 6 { assert("go to next word"@.subrange(i, i + 4)[0] == "go to next word"@[6]); assert("go to next word"@[6] != "left"@[0]); }
        if i == 7 { assert("go to next word"@.subrange(i, i + 4)[0] == "go to next word"@[7]); assert("go to next word"@[7] != "left"@[0]); }
        if i == 8 { assert("go to next word"@.subrange(i, i + 4)[0] == "go to next word"@[8]); assert("go to next word"@[8] != "left"@[0]); }
        if i == 9 { assert("go to next word"@.subrange(i, i + 4)[0] == "go to next word"@[9]); assert("go to next word"@[9] != "left"@[0]); }
        if i == 10 { assert("go to next word"@.subrange(i, i + 4)[0] == "go to next word"@[10]); assert("go to next word"@[10] != "left"@[0]); }
        if i == 11 { assert("go to next word"@.subrange(i, i + 4)[0] == "go to next word"@[11]); assert("go to next word"@[11] != "left"@[0]); }
    }
    assert forall|i: int| 0 <= i && i + 4 <= "go to next word"@.len() implies #[trigger] "go to next word"@.subrange(i, i + 4) != "last"@ by {
        if i == 0 { assert("go to next word"@.subrange(i, i + 4)[0] == "go to next word"@[0]); assert("go to next word"@[0] != "last"@[0]); }
        if i == 1 { assert("go to next word"@.subrange(i, i + 4)[0] == "go to next word"@[1]); assert("go to next word"@[1] != "last"@[0]); }
        if i == 2 { assert("go to next word"@.subrange(i, i + 4)[0] == "go to next word"@[2]); assert("go to next word"@[2] != "last"@[0]); }
        if i == 3 { assert("go to next word"@.subrange(i, i + 4)[0] == "go to next word"@[3]); assert("go to next word"@[3] != "last"@[0]); }
        if i == 4 { assert("go to next word"@.subrange(i, i + 4)[0] == "go to next word"@[4]); assert("go to next word"@[4] != "last"@[0]); }
        if i == 5 { assert("go to next word"@.subrange(i, i + 4)[0] == "go to next word"@[5]); assert("go to next word"@[5] != "last"@[0]); }
        if i == 6 { assert("go to next word"@.subrange(i, i + 4)[0] == "go to next word"@[6]); assert("go to next word"@[6] != "last"@[0]); }
        if i == 7 { assert("go to next word"@.subrange(i, i + 4)[0] == "go to next word"@[7]); assert("go to next word"@[7] != "last"@[0]); }
        if i == 8 { assert("go to next word"@.subrange(i, i + 4)[0] == "go to next word"@[8]); assert("go to next word"@[8] != "last"@[0]); }
        if i == 9 { assert("go to next word"@.subrange(i, i + 4)[0] == "go to next word"@[9]); assert("go to next word"@[9] != "last"@[0]); }
        if i == 10 { assert("go to next word"@.subrange(i, i + 4)[0] == "go to next word"@[10]); assert("go to next word"@[10] != "last"@[0]); }
        if i == 11 { assert("go to next word"@.subrange(i, i + 4)[0] == "go to next word"@[11]); assert("go to next word"@[11] != "last"@[0]); }
    }
}

proof fn lemma_nm_move_go_to_next_word()
    ensures
        !mentions("move go to next word"@, "back"@),
        !mentions("move go to next word"@, "previous"@),
        !mentions("move go to next word"@, "left"@),
        !mentions("move go to next word"@, "last"@),
{
    reveal_strlit("move go to next word");
    reveal_strlit("back");
    reveal_strlit("previous");
    reveal_strlit("left");
    reveal_strlit("last");
    assert forall|i: int| 0 <= i && i + 4 <= "move go to next word"@.len() implies #[trigger] "move go to next word"@.subrange(i, i + 4) != "back"@ by {
        if i == 0 { assert("move go to next word"@.subrange(i, i + 4)[0] == "move go to next word"@[0]); assert("move go to next word"@[0] != "back"@[0]); }
        if i == 1 { assert("move go to next word"@.subrange(i, i + 4)[0] == "move go to next word"@[1]); assert("move go to next word"@[1] != "back"@[0]); }
        if i == 2 { assert("move go to next word"@.subrange(i, i + 4)[0] == "move go to next word"@[2]); assert("move go to next word"@[2] != "back"@[0]); }
        if i == 3 { assert("move go to next word"@.subrange(i, i + 4)[0] == "move go to next word"@[3]); assert("move go to next word"@[3] != "back"@[0]); }
        if i == 4 { assert("move go to next word"@.subrange(i, i + 4)[0] == "move go to next word"@[4]); assert("move go to next word"@[4] != "back"@[0]); }
        if i == 5 { assert("move go to next word"@.subrange(i, i + 4)[0] == "move go to next word"@[5]); assert("move go to next word"@[5] != "back"@[0]); }
        if i == 6 { assert("move go to next word"@.subrange(i, i + 4)[0] == "move go to next word"@[6]); assert("move go to next word"@[6] != "back"@[0]); }
        if i == 7 { assert("move go to next word"@.subrange(i, i + 4)[0] == "move go to next word"@[7]); assert("move go to next word"@[7] != "back"@[0]); }
        if i == 8 { assert("move go to next word"@.subrange(i, i + 4)[0] == "move go to next word"@[8]); assert("move go to next word"@[8] != "back"@[0]); }
        if i == 9 { assert("move go to next word"@.subrange(i, i + 4)[0] == "move go to next word"@[9]); assert("move go to next word"@[9] != "back"@[0]); }
        if i == 10 { assert("move go to next word"@.subrange(i, i + 4)[0] == "move go to next word"@[10]); assert("move go to next word"@[10] != "back"@[0]); }
        if i == 11 { assert("move go to next word"@.subrange(i, i + 4)[0] == "move go to next word"@[11]); assert("move go to next word"@[11] != "back"@[0]); }
        if i == 12 { assert("move go to next word"@.subrange(i, i + 4)[0] == "move go to next word"@[12]); assert("move go to next word"@[12] != "back"@[0]); }
        if i == 13 { assert("move go to next word"@.subrange(i, i + 4)[0] == "move go to next word"@[13]); assert("move go to next word"@[13] != "back"@[0]); }
        if i == 14 { assert("move go to next word"@.subrange(i, i + 4)[0] == "move go to next word"@[14]); assert("move go to next word"@[14] != "back"@[0]); }
        if i == 15 { assert("move go to next word"@.subrange(i, i + 4)[0] == "move go to next word"@[15]); assert("move go to next word"@[15] != "back"@[0]); }
        if i == 16 { assert("move go to next word"@.subrange(i, i + 4)[0] == "move go to next word"@[16]); assert("move go to next word"@[16] != "back"@[0]); }
    }
    assert forall|i: int| 0 <= i && i + 8 <= "move go to next word"@.len() implies #[trigger] "move go to next word"@.subrange(i, i + 8) != "previous"@ by {
        if i == 0 { assert("move go to next word"@.subrange(i, i + 8)[0] == "move go to next word"@[0]); assert("move go to next word"@[0] != "previous"@[0]); }
        if i == 1 { assert("move go to next word"@.subrange(i, i + 8)[0] == "move go to next word"@[1]); assert("move go to next word"@[1] != "previous"@[0]); }
        if i == 2 { assert("move go to next word"@.subrange(i, i + 8)[0] == "move go to next word"@[2]); assert("move go to next word"@[2] != "previous"@[0]); }
        if i == 3 { assert("move go to next word"@.subrange(i, i + 8)[0] == "move go to next word"@[3]); assert("move go to next word"@[3] != "previous"@[0]); }
        if i == 4 { assert("move go to next word"@.subrange(i, i + 8)[0] == "move go to next word"@[4]); assert("move go to next word"@[4] != "previous"@[0]); }
        if i == 5 { assert("move go to next word"@.subrange(i, i + 8)[0] == "move go to next word"@[5]); assert("move go to next word"@[5] != "previous"@[0]); }
        if i == 6 { assert("move go to next word"@.subrange(i, i + 8)[0] == "move go to next word"@[6]); assert("move go to next word"@[6] != "previous"@[0]); }
        if i == 7 { assert("move go to next word"@.subrange(i, i + 8)[0] == "move go to next word"@[7]); assert("move go to next word"@[7] != "previous"@[0]); }
        if i == 8 { assert("move go to next word"@.subrange(i, i + 8)[0] == "move go to next word"@[8]); assert("move go to next word"@[8] != "previous"@[0]); }
        if i == 9 { assert("move go to next word"@.subrange(i, i + 8)[0] == "move go to next word"@[9]); assert("move go to next word"@[9] != "previous"@[0]); }
        if i == 10 { assert("move go to next word"@.subrange(i, i + 8)[0] == "move go to next word"@[10]); assert("move go to next word"@[10] != "previous"@[0]); }
        if i == 11 { assert("move go to next word"@.subrange(i, i + 8)[0] == "move go to next word"@[11]); assert("move go to next word"@[11] != "previous"@[0]); }
        if i == 12 { assert("move go to next word"@.subrange(i, i + 8)[0] == "move go to next word"@[12]); assert("move go to next word"@[12] != "previous"@[0]); }
    }
    assert forall|i: int| 0 <= i && i + 4 <= "move go to next word"@.len() implies #[trigger] "move go to next word"@.subrange(i, i + 4) != "left"@ by {
        if i == 0 { assert("move go to next word"@.subrange(i, i + 4)[0] == "move go to next word"@[0]); assert("move go to next word"@[0] != "left"@[0]); }
        if i == 1 { assert("move go to next word"@.subrange(i, i + 4)[0] == "move go to next word"@[1]); assert("move go to next word"@[1] != "left"@[0]); }
        if i == 2 { assert("move go to next word"@.subrange(i, i + 4)[0] == "move go to next word"@[2]); assert("move go to next word"@[2] != "left"@[0]); }
        if i == 3 { assert("move go to next word"@.subrange(i, i + 4)[0] == "move go to next word"@[3]); assert("move go to next word"@[3] != "left"@[0]); }
        if i == 4 { assert("move go to next word"@.subrange(i, i + 4)[0] == "move go to next word"@[4]); assert("move go to next word"@[4] != "left"@[0]); }
        if i == 5 { assert("move go to next word"@.subrange(i, i + 4)[0] == "move go to next word"@[5]); assert("move go to next word"@[5] != "left"@[0]); }
        if i == 6 { assert("move go to next word"@.subrange(i, i + 4)[0] == "move go to next word"@[6]); assert("move go to next word"@[6] != "left"@[0]); }
        if i == 7 { assert("move go to next word"@.subrange(i, i + 4)[0] == "move go to next word"@[7]); assert("move go to next word"@[7] != "left"@[0]); }
        if i == 8 { assert("move go to next word"@.subrange(i, i + 4)[0] == "move go to next word"@[8]); assert("move go to next word"@[8] != "left"@[0]); }
        if i == 9 { assert("move go to next word"@.subrange(i, i + 4)[0] == "move go to next word"@[9]); assert("move go to next word"@[9] != "left"@[0]); }
        if i == 10 { assert("move go to next word"@.subrange(i, i + 4)[0] == "move go to next word"@[10]); assert("move go to next word"@[10] != "left"@[0]); }
        if i == 11 { assert("move go to next word"@.subrange(i, i + 4)[0] == "move go to next word"@[11]); assert("move go to next word"@[11] != "left"@[0]); }
        if i == 12 { assert("move go to next word"@.subrange(i, i + 4)[0] == "move go to next word"@[12]); assert("move go to next word"@[12] != "left"@[0]); }
        if i == 13 { assert("move go to next word"@.subrange(i, i + 4)[0] == "move go to next word"@[13]); assert("move go to next word"@[13] != "left"@[0]); }
        if i == 14 { assert("move go to next word"@.subrange(i, i + 4)[0] == "move go to next word"@[14]); assert("move go to next word"@[14] != "left"@[0]); }
        if i == 15 { assert("move go to next word"@.subrange(i, i + 4)[0] == "move go to next word"@[15]); assert("move go to next word"@[15] != "left"@[0]); }
        if i == 16 { assert("move go to next word"@.subrange(i, i + 4)[0] == "move go to next word"@[16]); assert("move go to next word"@[16] != "left"@[0]); }
    }
    assert forall|i: int| 0 <= i && i + 4 <= "move go to next word"@.len() implies #[trigger] "move go to next word"@.subrange(i, i + 4) != "last"@ by {
        if i == 0 { assert("move go to next word"@.subrange(i, i + 4)[0] == "move go to next word"@[0]); assert("move go to next word"@[0] != "last"@[0]); }
        if i == 1 { assert("move go to next word"@.subrange(i, i + 4)[0] == "move go to next word"@[1]); assert("move go to next word"@[1] != "last"@[0]); }
        if i == 2 { assert("move go to next word"@.subrange(i, i + 4)[0] == "move go to next word"@[2]); assert("move go to next word"@[2] != "last"@[0]); }
        if i == 3 { assert("move go to next word"@.subrange(i, i + 4)[0] == "move go to next word"@[3]); assert("move go to next word"@[3] != "last"@[0]); }
        if i == 4 { assert("move go to next word"@.subrange(i, i + 4)[0] == "move go to next word"@[4]); assert("move go to next word"@[4] != "last"@[0]); }
        if i == 5 { assert("move go to next word"@.subrange(i, i + 4)[0] == "move go to next word"@[5]); assert("move go to next word"@[5] != "last"@[0]); }
        if i == 6 { assert("move go to next word"@.subrange(i, i + 4)[0] == "move go to next word"@[6]); assert("move go to next word"@[6] != "last"@[0]); }
        if i == 7 { assert("move go to next word"@.subrange(i, i + 4)[0] == "move go to next word"@[7]); assert("move go to next word"@[7] != "last"@[0]); }
        if i == 8 { assert("move go to next word"@.subrange(i, i + 4)[0] == "move go to next word"@[8]); assert("move go to next word"@[8] != "last"@[0]); }
        if i == 9 { assert("move go to next word"@.subrange(i, i + 4)[0] == "move go to next word"@[9]); assert("move go to next word"@[9] != "last"@[0]); }
        if i == 10 { assert("move go to next word"@.subrange(i, i + 4)[0] == "move go to next word"@[10]); assert("move go to next word"@[10] != "last"@[0]); }
        if i == 11 { assert("move go to next word"@.subrange(i, i + 4)[0] == "move go to next word"@[11]); assert("move go to next word"@[11] != "last"@[0]); }
        if i == 12 { assert("move go to next word"@.subrange(i, i + 4)[0] == "move go to next word"@[12]); assert("move go to next word"@[12] != "last"@[0]); }
        if i == 13 { assert("move go to next word"@.subrange(i, i + 4)[0] == "move go to next word"@[13]); assert("move go to next word"@[13] != "last"@[0]); }
        if i == 14 { assert("move go to next word"@.subrange(i, i + 4)[0] == "move go to next word"@[14]); assert("move go to next word"@[14] != "last"@[0]); }
        if i == 15 { assert("move go to next word"@.subrange(i, i + 4)[0] == "move go to next word"@[15]); assert("move go to next word"@[15] != "last"@[0]); }
        if i == 16 { assert("move go to next word"@.subrange(i, i + 4)[0] == "move go to next word"@[16]); assert("move go to next word"@[16] != "last"@[0]); }
    }
}

proof fn lemma_nm_select_go_to_next_word()
    ensures
        !mentions("select go to next word"@, "back"@),
        !mentions("select go to next word"@, "previous"@),
        !mentions("select go to next word"@, "left"@),
        !mentions("select go to next word"@, "last"@),
{
    reveal_strlit("select go to next word");
    reveal_strlit("back");
    reveal_strlit("previous");
    reveal_strlit("left");
    reveal_strlit("last");
    assert forall|i: int| 0 <= i && i + 4 <= "select go to next word"@.len() implies #[trigger] "select go to next word"@.subrange(i, i + 4) != "back"@ by {
        if i == 0 { assert("select go to next word"@.subrange(i, i + 4)[0] == "select go to next word"@[0]); assert("select go to next word"@[0] != "back"@[0]); }
        if i == 1 { assert("select go to next word"@.subrange(i, i + 4)[0] == "select go to next word"@[1]); assert("select go to next word"@[1] != "back"@[0]); }
        if i == 2 { assert("select go to next word"@.subrange(i, i + 4)[0] == "select go to next word"@[2]); assert("select go to next word"@[2] != "back"@[0]); }
        if i == 3 { assert("select go to next word"@.subrange(i, i + 4)[0] == "select go to next word"@[3]); assert("select go to next word"@[3] != "back"@[0]); }
        if i == 4 { assert("select go to next word"@.subrange(i, i + 4)[0] == "select go to next word"@[4]); assert("select go to next word"@[4] != "back"@[0]); }
        if i == 5 { assert("select go to next word"@.subrange(i, i + 4)[0] == "select go to next word"@[5]); assert("select go to next word"@[5] != "back"@[0]); }
        if i == 6 { assert("select go to next word"@.subrange(i, i + 4)[0] == "select go to next word"@[6]); assert("select go to next word"@[6] != "back"@[0]); }
        if i == 7 { assert("select go to next word"@.subrange(i, i + 4)[0] == "select go to next word"@[7]); assert("select go to next word"@[7] != "back"@[0]); }
        if i == 8 { assert("select go to next word"@.subrange(i, i + 4)[0] == "select go to next word"@[8]); assert("select go to next word"@[8] != "back"@[0]); }
        if i == 9 { assert("select go to next word"@.subrange(i, i + 4)[0] == "select go to next word"@[9]); assert("select go to next word"@[9] != "back"@[0]); }
        if i == 10 { assert("select go to next word"@.subrange(i, i + 4)[0] == "select go to next word"@[10]); assert("select go to next word"@[10] != "back"@[0]); }
        if i == 11 { assert("select go to next word"@.subrange(i, i + 4)[0] == "select go to next word"@[11]); assert("select go to next word"@[11] != "back"@[0]); }
        if i == 12 { assert("select go to next word"@.subrange(i, i + 4)[0] == "select go to next word"@[12]); assert("select go to next word"@[12] != "back"@[0]); }
        if i == 13 { assert("select go to next word"@.subrange(i, i + 4)[0] == "select go to next word"@[13]); assert("select go to next word"@[13] != "back"@[0]); }
        if i == 14 { assert("select go to next word"@.subrange(i, i + 4)[0] == "select go to next word"@[14]); assert("select go to next word"@[14] != "back"@[0]); }
        if i == 15 { assert("select go to next word"@.subrange(i, i + 4)[0] == "select go to next word"@[15]); assert("select go to next word"@[15] != "back"@[0]); }
        if i == 16 { assert("select go to next word"@.subrange(i, i + 4)[0] == "select go to next word"@[16]); assert("select go to next word"@[16] != "back"@[0]); }
        if i == 17 { assert("select go to next word"@.subrange(i, i + 4)[0] == "select go to next word"@[17]); assert("select go to next word"@[17] != "back"@[0]); }
        if i == 18 { assert("select go to next word"@.subrange(i, i + 4)[0] == "select go to next word"@[18]); assert("select go to next word"@[18] != "back"@[0]); }
    }
    assert forall|i: int| 0 <= i && i + 8 <= "select go to next word"@.len() implies #[trigger] "select go to next word"@.subrange(i, i + 8) != "previous"@ by {
        if i == 0 { assert("select go to next word"@.subrange(i, i + 8)[0] == "select go to next word"@[0]); assert("select go to next word"@[0] != "previous"@[0]); }
        if i == 1 { assert("select go to next word"@.subrange(i, i + 8)[0] == "select go to next word"@[1]); assert("select go to next word"@[1] != "previous"@[0]); }
        if i == 2 { assert("select go to next word"@.subrange(i, i + 8)[0] == "select go to next word"@[2]); assert("select go to next word"@[2] != "previous"@[0]); }
        if i == 3 { assert("select go to next word"@.subrange(i, i + 8)[0] == "select go to next word"@[3]); assert("select go to next word"@[3] != "previous"@[0]); }
        if i == 4 { assert("select go to next word"@.subrange(i, i + 8)[0] == "select go to next word"@[4]); assert("select go to next word"@[4] != "previous"@[0]); }
        if i == 5 { assert("select go to next word"@.subrange(i, i + 8)[0] == "select go to next word"@[5]); assert("select go to next word"@[5] != "previous"@[0]); }
        if i == 6 { assert("select go to next word"@.subrange(i, i + 8)[0] == "select go to next word"@[6]); assert("select go to next word"@[6] != "previous"@[0]); }
        if i == 7 { assert("select go to next word"@.subrange(i, i + 8)[0] == "select go to next word"@[7]); assert("select go to next word"@[7] != "previous"@[0]); }
        if i == 8 { assert("select go to next word"@.subrange(i, i + 8)[0] == "select go to next word"@[8]); assert("select go to next word"@[8] != "previous"@[0]); }
        if i == 9 { assert("select go to next word"@.subrange(i, i + 8)[0] == "select go to next word"@[9]); assert("select go to next word"@[9] != "previous"@[0]); }
        if i == 10 { assert("select go to next word"@.subrange(i, i + 8)[0] == "select go to next word"@[10]); assert("select go to next word"@[10] != "previous"@[0]); }
        if i == 11 { assert("select go to next word"@.subrange(i, i + 8)[0] == "select go to next word"@[11]); assert("select go to next word"@[11] != "previous"@[0]); }
        if i == 12 { assert("select go to next word"@.subrange(i, i + 8)[0] == "select go to next word"@[12]); assert("select go to next word"@[12] != "previous"@[0]); }
        if i == 13 { assert("select go to next word"@.subrange(i, i + 8)[0] == "select go to next word"@[13]); assert("select go to next word"@[13] != "previous"@[0]); }
        if i == 14 { assert("select go to next word"@.subrange(i, i + 8)[0] == "select go to next word"@[14]); assert("select go to next word"@[14] != "previous"@[0]); }
    }
    assert forall|i: int| 0 <= i && i + 4 <= "select go to next word"@.len() implies #[trigger] "select go to next word"@.subrange(i, i + 4) != "left"@ by {
        if i == 0 { assert("select go to next word"@.subrange(i, i + 4)[0] == "select go to next word"@[0]); assert("select go to next word"@[0] != "left"@[0]); }
        if i == 1 { assert("select go to next word"@.subrange(i, i + 4)[0] == "select go to next word"@[1]); assert("select go to next word"@[1] != "left"@[0]); }
        if i == 2 { assert("select go to next word"@.subrange(i, i + 4)[2] == "select go to next word"@[4]); assert("select go to next word"@[4] != "left"@[2]); }
        if i == 3 { assert("select go to next word"@.subrange(i, i + 4)[0] == "select go to next word"@[3]); assert("select go to next word"@[3] != "left"@[0]); }
        if i == 4 { assert("select go to next word"@.subrange(i, i + 4)[0] == "select go to next word"@[4]); assert("select go to next word"@[4] != "left"@[0]); }
        if i == 5 { assert("select go to next word"@.subrange(i, i + 4)[0] == "select go to next word"@[5]); assert("select go to next word"@[5] != "left"@[0]); }
        if i == 6 { assert("select go to next word"@.subrange(i, i + 4)[0] == "select go to next word"@[6]); assert("select go to next word"@[6] != "left"@[0]); }
        if i == 7 { assert("select go to next word"@.subrange(i, i + 4)[0] == "select go to next word"@[7]); assert("select go to next word"@[7] != "left"@[0]); }
        if i == 8 { assert("select go to next word"@.subrange(i, i + 4)[0] == "select go to next word"@[8]); assert("select go to next word"@[8] != "left"@[0]); }
        if i == 9 { assert("select go to next word"@.subrange(i, i + 4)[0] == "select go to next word"@[9]); assert("select go to next word"@[9] != "left"@[0]); }
        if i == 10 { assert("select go to next word"@.subrange(i, i + 4)[0] == "select go to next word"@[10]); assert("select go to next word"@[10] != "left"@[0]); }
        if i == 11 { assert("select go to next word"@.subrange(i, i + 4)[0] == "select go to next word"@[11]); assert("select go to next word"@[11] != "left"@[0]); }
        if i == 12 { assert("select go to next word"@.subrange(i, i + 4)[0] == "select go to next word"@[12]); assert("select go to next word"@[12] != "left"@[0]); }
        if i == 13 { assert("select go to next word"@.subrange(i, i + 4)[0] == "select go to next word"@[13]); assert("select go to next word"@[13] != "left"@[0]); }
        if i == 14 { assert("select go to next word"@.subrange(i, i + 4)[0] == "select go to next word"@[14]); assert("select go to next word"@[14] != "left"@[0]); }
        if i == 15 { assert("select go to next word"@.subrange(i, i + 4)[0] == "select go to next word"@[15]); assert("select go to next word"@[15] != "left"@[0]); }
        if i == 16 { assert("select go to next word"@.subrange(i, i + 4)[0] == "select go to next word"@[16]); assert("select go to next word"@[16] != "left"@[0]); }
        if i == 17 { assert("select go to next word"@.subrange(i, i + 4)[0] == "select go to next word"@[17]); assert("select go to next word"@[17] != "left"@[0]); }
        if i == 18 { assert("select go to next word"@.subrange(i, i + 4)[0] == "select go to next word"@[18]); assert("select go to next word"@[18] != "left"@[0]); }
    }
    assert forall|i: int| 0 <= i && i + 4 <= "select go to next word"@.len() implies #[trigger] "select go to next word"@.subrange(i, i + 4) != "last"@ by {
        if i == 0 { assert("select go to next word"@.subrange(i, i + 4)[0] == "select go to next word"@[0]); assert("select go to next word"@[0] != "last"@[0]); }
        if i == 1 { assert("select go to next word"@.subrange(i, i + 4)[0] == "select go to next word"@[1]); assert("select go to next word"@[1] != "last"@[0]); }
        if i == 2 { assert("select go to next word"@.subrange(i, i + 4)[1] == "select go to next word"@[3]); assert("select go to next word"@[3] != "last"@[1]); }
        if i == 3 { assert("select go to next word"@.subrange(i, i + 4)[0] == "select go to next word"@[3]); assert("select go to next word"@[3] != "last"@[0]); }
        if i == 4 { assert("select go to next word"@.subrange(i, i + 4)[0] == "select go to next word"@[4]); assert("select go to next word"@[4] != "last"@[0]); }
        if i == 5 { assert("select go to next word"@.subrange(i, i + 4)[0] == "select go to next word"@[5]); assert("select go to next word"@[5] != "last"@[0]); }
        if i == 6 { assert("select go to next word"@.subrange(i, i + 4)[0] == "select go to next word"@[6]); assert("select go to next word"@[6] != "last"@[0]); }
        if i == 7 { assert("select go to next word"@.subrange(i, i + 4)[0] == "select go to next word"@[7]); assert("select go to next word"@[7] != "last"@[0]); }
        if i == 8 { assert("select go to next word"@.subrange(i, i + 4)[0] == "select go to next word"@[8]); assert("select go to next word"@[8] != "last"@[0]); }
        if i == 9 { assert("select go to next word"@.subrange(i, i + 4)[0] == "select go to next word"@[9]); assert("select go to next word"@[9] != "last"@[0]); }
        if i == 10 { assert("select go to next word"@.subrange(i, i + 4)[0] == "select go to next word"@[10]); assert("select go to next word"@[10] != "last"@[0]); }
        if i == 11 { assert("select go to next word"@.subrange(i, i + 4)[0] == "select go to next word"@[11]); assert("select go to next word"@[11] != "last"@[0]); }
        if i == 12 { assert("select go to next word"@.subrange(i, i + 4)[0] == "select go to next word"@[12]); assert("select go to next word"@[12] != "last"@[0]); }
        if i == 13 { assert("select go to next word"@.subrange(i, i + 4)[0] == "select go to next word"@[13]); assert("select go to next word"@[13] != "last"@[0]); }
        if i == 14 { assert("select go to next word"@.subrange(i, i + 4)[0] == "select go to next word"@[14]); assert("select go to next word"@[14] != "last"@[0]); }
        if i == 15 { assert("select go to next word"@.subrange(i, i + 4)[0] == "select go to next word"@[15]); assert("select go to next word"@[15] != "last"@[0]); }
        if i == 16 { assert("select go to next word"@.subrange(i, i + 4)[0] == "select go to next word"@[16]); assert("select go to next word"@[16] != "last"@[0]); }
        if i == 17 { assert("select go to next word"@.subrange(i, i + 4)[0] == "select go to next word"@[17]); assert("select go to next word"@[17] != "last"@[0]); }
        if i == 18 { assert("select go to next word"@.subrange(i, i + 4)[0] == "select go to next word"@[18]); assert("select go to next word"@[18] != "last"@[0]); }
    }
}

proof fn lemma_nm_forward_word()
    ensures
        !mentions("forward word"@, "back"@),
        !mentions("forward word"@, "previous"@),
        !mentions("forward word"@, "left"@),
        !mentions("forward word"@, "last"@),
{
    reveal_strlit("forward word");
    reveal_strlit("back");
    reveal_strlit("previous");
    reveal_strlit("left");
    reveal_strlit("last");
    assert forall|i: int| 0 <= i && i + 4 <= "forward word"@.len() implies #[trigger] "forward word"@.subrange(i, i + 4) != "back"@ by {
        if i == 0 { assert("forward word"@.subrange(i, i + 4)[0] == "forward word"@[0]); assert("forward word"@[0] != "back"@[0]); }
        if i == 1 { assert("forward word"@.subrange(i, i + 4)[0] == "forward word"@[1]); assert("forward word"@[1] != "back"@[0]); }
        if i == 2 { assert("forward word"@.subrange(i, i + 4)[0] == "forward word"@[2]); assert("forward word"@[2] != "back"@[0]); }
        if i == 3 { assert("forward word"@.subrange(i, i + 4)[0] == "forward word"@[3]); assert("forward word"@[3] != "back"@[0]); }
        if i == 4 { assert("forward word"@.subrange(i, i + 4)[0] == "forward word"@[4]); assert("forward word"@[4] != "back"@[0]); }
        if i == 5 { assert("forward word"@.subrange(i, i + 4)[0] == "forward word"@[5]); assert("forward word"@[5] != "back"@[0]); }
        if i == 6 { assert("forward word"@.subrange(i, i + 4)[0] == "forward word"@[6]); assert("forward word"@[6] != "back"@[0]); }
        if i == 7 { assert("forward word"@.subrange(i, i + 4)[0] == "forward word"@[7]); assert("forward word"@[7] != "back"@[0]); }
        if i == 8 { assert("forward word"@.subrange(i, i + 4)[0] == "forward word"@[8]); assert("forward word"@[8] != "back"@[0]); }
    }
    assert forall|i: int| 0 <= i && i + 8 <= "forward word"@.len() implies #[trigger] "forward word"@.subrange(i, i + 8) != "previous"@ by {
        if i == 0 { assert("forward word"@.subrange(i, i + 8)[0] == "forward word"@[0]); assert("forward word"@[0] != "previous"@[0]); }
        if i == 1 { assert("forward word"@.subrange(i, i + 8)[0] == "forward word"@[1]); assert("forward word"@[1] != "previous"@[0]); }
        if i == 2 { assert("forward word"@.subrange(i, i + 8)[0] == "forward word"@[2]); assert("forward word"@[2] != "previous"@[0]); }
        if i == 3 { assert("forward word"@.subrange(i, i + 8)[0] == "forward word"@[3]); assert("forward word"@[3] != "previous"@[0]); }
        if i == 4 { assert("forward word"@.subrange(i, i + 8)[0] == "forward word"@[4]); assert("forward word"@[4] != "previous"@[0]); }
    }
    assert forall|i: int| 0 <= i && i + 4 <= "forward word"@.len() implies #[trigger] "forward word"@.subrange(i, i + 4) != "left"@ by {
        if i == 0 { assert("forward word"@.subrange(i, i + 4)[0] == "forward word"@[0]); assert("forward word"@[0] != "left"@[0]); }
        if i == 1 { assert("forward word"@.subrange(i, i + 4)[0] == "forward word"@[1]); assert("forward word"@[1] != "left"@[0]); }
        if i == 2 { assert("forward word"@.subrange(i, i + 4)[0] == "forward word"@[2]); assert("forward word"@[2] != "left"@[0]); }
        if i == 3 { assert("forward word"@.subrange(i, i + 4)[0] == "forward word"@[3]); assert("forward word"@[3] != "left"@[0]); }
        if i == 4 { assert("forward word"@.subrange(i, i + 4)[0] == "forward word"@[4]); assert("forward word"@[4] != "left"@[0]); }
        if i == 5 { assert("forward word"@.subrange(i, i + 4)[0] == "forward word"@[5]); assert("forward word"@[5] != "left"@[0]); }
        if i == 6 { assert("forward word"@.subrange(i, i + 4)[0] == "forward word"@[6]); assert("forward word"@[6] != "left"@[0]); }
        if i == 7 { assert("forward word"@.subrange(i, i + 4)[0] == "forward word"@[7]); assert("forward word"@[7] != "left"@[0]); }
        if i == 8 { assert("forward word"@.subrange(i, i + 4)[0] == "forward word"@[8]); assert("forward word"@[8] != "left"@[0]); }
    }
    assert forall|i: int| 0 <= i && i + 4 <= "forward word"@.len() implies #[trigger] "forward word"@.subrange(i, i + 4) != "last"@ by {
        if i == 0 { assert("forward word"@.subrange(i, i + 4)[0] == "forward word"@[0]); assert("forward word"@[0] != "last"@[0]); }
        if i == 1 { assert("forward word"@.subrange(i, i + 4)[0] == "forward word"@[1]); assert("forward word"@[1] != "last"@[0]); }
        if i == 2 { assert("forward word"@.subrange(i, i + 4)[0] == "forward word"@[2]); assert("forward word"@[2] != "last"@[0]); }
        if i == 3 { assert("forward word"@.subrange(i, i + 4)[0] == "forward word"@[3]); assert("forward word"@[3] != "last"@[0]); }
        if i == 4 { assert("forward word"@.subrange(i, i + 4)[0] == "forward word"@[4]); assert("forward word"@[4] != "last"@[0]); }
        if i == 5 { assert("forward word"@.subrange(i, i + 4)[0] == "forward word"@[5]); assert("forward word"@[5] != "last"@[0]); }
        if i == 6 { assert("forward word"@.subrange(i, i + 4)[0] == "forward word"@[6]); assert("forward word"@[6] != "last"@[0]); }
        if i == 7 { assert("forward word"@.subrange(i, i + 4)[0] == "forward word"@[7]); assert("forward word"@[7] != "last"@[0]); }
        if i == 8 { assert("forward word"@.subrange(i, i + 4)[0] == "forward word"@[8]); assert("forward word"@[8] != "last"@[0]); }
    }
}

proof fn lemma_nm_move_forward_word()
    ensures
        !mentions("move forward word"@, "back"@),
        !mentions("move forward word"@, "previous"@),
        !mentions("move forward word"@, "left"@),
        !mentions("move forward word"@, "last"@),
{
    reveal_strlit("move forward word");
    reveal_strlit("back");
    reveal_strlit("previous");
    reveal_strlit("left");
    reveal_strlit("last");
    assert forall|i: int| 0 <= i && i + 4 <= "move forward word"@.len() implies #[trigger] "move forward word"@.subrange(i, i + 4) != "back"@ by {
        if i == 0 { assert("move forward word"@.subrange(i, i + 4)[0] == "move forward word"@[0]); assert("move forward word"@[0] != "back"@[0]); }
        if i == 1 { assert("move forward word"@.subrange(i, i + 4)[0] == "move forward word"@[1]); assert("move forward word"@[1] != "back"@[0]); }
        if i == 2 { assert("move forward word"@.subrange(i, i + 4)[0] == "move forward word"@[2]); assert("move forward word"@[2] != "back"@[0]); }
        if i == 3 { assert("move forward word"@.subrange(i, i + 4)[0] == "move forward word"@[3]); assert("move forward word"@[3] != "back"@[0]); }
        if i == 4 { assert("move forward word"@.subrange(i, i + 4)[0] == "move forward word"@[4]); assert("move forward word"@[4] != "back"@[0]); }
        if i == 5 { assert("move forward word"@.subrange(i, i + 4)[0] == "move forward word"@[5]); assert("move forward word"@[5] != "back"@[0]); }
        if i == 6 { assert("move forward word"@.subrange(i, i + 4)[0] == "move forward word"@[6]); assert("move forward word"@[6] != "back"@[0]); }
        if i == 7 { assert("move forward word"@.subrange(i, i + 4)[0] == "move forward word"@[7]); assert("move forward word"@[7] != "back"@[0]); }
        if i == 8 { assert("move forward word"@.subrange(i, i + 4)[0] == "move forward word"@[8]); assert("move forward word"@[8] != "back"@[0]); }
        if i == 9 { assert("move forward word"@.subrange(i, i + 4)[0] == "move forward word"@[9]); assert("move forward word"@[9] != "back"@[0]); }
        if i == 10 { assert("move forward word"@.subrange(i, i + 4)[0] == "move forward word"@[10]); assert("move forward word"@[10] != "back"@[0]); }
        if i == 11 { assert("move forward word"@.subrange(i, i + 4)[0] == "move forward word"@[11]); assert("move forward word"@[11] != "back"@[0]); }
        if i == 12 { assert("move forward word"@.subrange(i, i + 4)[0] == "move forward word"@[12]); assert("move forward word"@[12] != "back"@[0]); }
        if i == 13 { assert("move forward word"@.subrange(i, i + 4)[0] == "move forward word"@[13]); assert("move forward word"@[13] != "back"@[0]); }
    }
    assert forall|i: int| 0 <= i && i + 8 <= "move forward word"@.len() implies #[trigger] "move forward word"@.subrange(i, i + 8) != "previous"@ by {
        if i == 0 { assert("move forward word"@.subrange(i, i + 8)[0] == "move forward word"@[0]); assert("move forward word"@[0] != "previous"@[0]); }
        if i == 1 { assert("move forward word"@.subrange(i, i + 8)[0] == "move forward word"@[1]); assert("move forward word"@[1] != "previous"@[0]); }
        if i == 2 { assert("move forward word"@.subrange(i, i + 8)[0] == "move forward word"@[2]); assert("move forward word"@[2] != "previous"@[0]); }
        if i == 3 { assert("move forward word"@.subrange(i, i + 8)[0] == "move forward word"@[3]); assert("move forward word"@[3] != "previous"@[0]); }
        if i == 4 { assert("move forward word"@.subrange(i, i + 8)[0] == "move forward word"@[4]); assert("move forward word"@[4] != "previous"@[0]); }
        if i == 5 { assert("move forward word"@.subrange(i, i + 8)[0] == "move forward word"@[5]); assert("move forward word"@[5] != "previous"@[0]); }
        if i == 6 { assert("move forward word"@.subrange(i, i + 8)[0] == "move forward word"@[6]); assert("move forward word"@[6] != "previous"@[0]); }
        if i == 7 { assert("move forward word"@.subrange(i, i + 8)[0] == "move forward word"@[7]); assert("move forward word"@[7] != "previous"@[0]); }
        if i == 8 { assert("move forward word"@.subrange(i, i + 8)[0] == "move forward word"@[8]); assert("move forward word"@[8] != "previous"@[0]); }
        if i == 9 { assert("move forward word"@.subrange(i, i + 8)[0] == "move forward word"@[9]); assert("move forward word"@[9] != "previous"@[0]); }
    }
    assert forall|i: int| 0 <= i && i + 4 <= "move forward word"@.len() implies #[trigger] "move forward word"@.subrange(i, i + 4) != "left"@ by {
        if i == 0 { assert("move forward word"@.subrange(i, i + 4)[0] == "move forward word"@[0]); assert("move forward word"@[0] != "left"@[0]); }
        if i == 1 { assert("move forward word"@.subrange(i, i + 4)[0] == "move forward word"@[1]); assert("move forward word"@[1] != "left"@[0]); }
        if i == 2 { assert("move forward word"@.subrange(i, i + 4)[0] == "move forward word"@[2]); assert("move forward word"@[2] != "left"@[0]); }
        if i == 3 { assert("move forward word"@.subrange(i, i + 4)[0] == "move forward word"@[3]); assert("move forward word"@[3] != "left"@[0]); }
        if i == 4 { assert("move forward word"@.subrange(i, i + 4)[0] == "move forward word"@[4]); assert("move forward word"@[4] != "left"@[0]); }
        if i == 5 { assert("move forward word"@.subrange(i, i + 4)[0] == "move forward word"@[5]); assert("move forward word"@[5] != "left"@[0]); }
        if i == 6 { assert("move forward word"@.subrange(i, i + 4)[0] == "move forward word"@[6]); assert("move forward word"@[6] != "left"@[0]); }
        if i == 7 { assert("move forward word"@.subrange(i, i + 4)[0] == "move forward word"@[7]); assert("move forward word"@[7] != "left"@[0]); }
        if i == 8 { assert("move forward word"@.subrange(i, i + 4)[0] == "move forward word"@[8]); assert("move forward word"@[8] != "left"@[0]); }
        if i == 9 { assert("move forward word"@.subrange(i, i + 4)[0] == "move forward word"@[9]); assert("move forward word"@[9] != "left"@[0]); }
        if i == 10 { assert("move forward word"@.subrange(i, i + 4)[0] == "move forward word"@[10]); assert("move forward word"@[10] != "left"@[0]); }
        if i == 11 { assert("move forward word"@.subrange(i, i + 4)[0] == "move forward word"@[11]); assert("move forward word"@[11] != "left"@[0]); }
        if i == 12 { assert("move forward word"@.subrange(i, i + 4)[0] == "move forward word"@[12]); assert("move forward word"@[12] != "left"@[0]); }
        if i == 13 { assert("move forward word"@.subrange(i, i + 4)[0] == "move forward word"@[13]); assert("move forward word"@[13] != "left"@[0]); }
    }
    assert forall|i: int| 0 <= i && i + 4 <= "move forward word"@.len() implies #[trigger] "move forward word"@.subrange(i, i + 4) != "last"@ by {
        if i == 0 { assert("move forward word"@.subrange(i, i + 4)[0] == "move forward word"@[0]); assert("move forward word"@[0] != "last"@[0]); }
        if i == 1 { assert("move forward word"@.subrange(i, i + 4)[0] == "move forward word"@[1]); assert("move forward word"@[1] != "last"@[0]); }
        if i == 2 { assert("move forward word"@.subrange(i, i + 4)[0] == "move forward word"@[2]); assert("move forward word"@[2] != "last"@[0]); }
        if i == 3 { assert("move forward word"@.subrange(i, i + 4)[0] == "move forward word"@[3]); assert("move forward word"@[3] != "last"@[0]); }
        if i == 4 { assert("move forward word"@.subrange(i, i + 4)[0] == "move forward word"@[4]); assert("move forward word"@[4] != "last"@[0]); }
        if i == 5 { assert("move forward word"@.subrange(i, i + 4)[0] == "move forward word"@[5]); assert("move forward word"@[5] != "last"@[0]); }
        if i == 6 { assert("move forward word"@.subrange(i, i + 4)[0] == "move forward word"@[6]); assert("move forward word"@[6] != "last"@[0]); }
        if i == 7 { assert("move forward word"@.subrange(i, i + 4)[0] == "move forward word"@[7]); assert("move forward word"@[7] != "last"@[0]); }
        if i == 8 { assert("move forward word"@.subrange(i, i + 4)[0] == "move forward word"@[8]); assert("move forward word"@[8] != "last"@[0]); }
        if i == 9 { assert("move forward word"@.subrange(i, i + 4)[0] == "move forward word"@[9]); assert("move forward word"@[9] != "last"@[0]); }
        if i == 10 { assert("move forward word"@.subrange(i, i + 4)[0] == "move forward word"@[10]); assert("move forward word"@[10] != "last"@[0]); }
        if i == 11 { assert("move forward word"@.subrange(i, i + 4)[0] == "move forward word"@[11]); assert("move forward word"@[11] != "last"@[0]); }
        if i == 12 { assert("move forward word"@.subrange(i, i + 4)[0] == "move forward word"@[12]); assert("move forward word"@[12] != "last"@[0]); }
        if i == 13 { assert("move forward word"@.subrange(i, i + 4)[0] == "move forward word"@[13]); assert("move forward word"@[13] != "last"@[0]); }
    }
}

proof fn lemma_nm_select_forward_word()
    ensures
        !mentions("select forward word"@, "back"@),
        !mentions("select forward word"@, "previous"@),
        !mentions("select forward word"@, "left"@),
        !mentions("select forward word"@, "last"@),
{
    reveal_strlit("select forward word");
    reveal_strlit("back");
    reveal_strlit("previous");
    reveal_strlit("left");
    reveal_strlit("last");
    assert forall|i: int| 0 <= i && i + 4 <= "select forward word"@.len() implies #[trigger] "select forward word"@.subrange(i, i + 4) != "back"@ by {
        if i == 0 { assert("select forward word"@.subrange(i, i + 4)[0] == "select forward word"@[0]); assert("select forward word"@[0] != "back"@[0]); }
        if i == 1 { assert("select forward word"@.subrange(i, i + 4)[0] == "select forward word"@[1]); assert("select forward word"@[1] != "back"@[0]); }
        if i == 2 { assert("select forward word"@.subrange(i, i + 4)[0] == "select forward word"@[2]); assert("select forward word"@[2] != "back"@[0]); }
        if i == 3 { assert("select forward word"@.subrange(i, i + 4)[0] == "select forward word"@[3]); assert("select forward word"@[3] != "back"@[0]); }
        if i == 4 { assert("select forward word"@.subrange(i, i + 4)[0] == "select forward word"@[4]); assert("select forward word"@[4] != "back"@[0]); }
        if i == 5 { assert("select forward word"@.subrange(i, i + 4)[0] == "select forward word"@[5]); assert("select forward word"@[5] != "back"@[0]); }
        if i == 6 { assert("select forward word"@.subrange(i, i + 4)[0] == "select forward word"@[6]); assert("select forward word"@[6] != "back"@[0]); }
        if i == 7 { assert("select forward word"@.subrange(i, i + 4)[0] == "select forward word"@[7]); assert("select forward word"@[7] != "back"@[0]); }
        if i == 8 { assert("select forward word"@.subrange(i, i + 4)[0] == "select forward word"@[8]); assert("select forward word"@[8] != "back"@[0]); }
        if i == 9 { assert("select forward word"@.subrange(i, i + 4)[0] == "select forward word"@[9]); assert("select forward word"@[9] != "back"@[0]); }
        if i == 10 { assert("select forward word"@.subrange(i, i + 4)[0] == "select forward word"@[10]); assert("select forward word"@[10] != "back"@[0]); }
        if i == 11 { assert("select forward word"@.subrange(i, i + 4)[0] == "select forward word"@[11]); assert("select forward word"@[11] != "back"@[0]); }
        if i == 12 { assert("select forward word"@.subrange(i, i + 4)[0] == "select forward word"@[12]); assert("select forward word"@[12] != "back"@[0]); }
        if i == 13 { assert("select forward word"@.subrange(i, i + 4)[0] == "select forward word"@[13]); assert("select forward word"@[13] != "back"@[0]); }
        if i == 14 { assert("select forward word"@.subrange(i, i + 4)[0] == "select forward word"@[14]); assert("select forward word"@[14] != "back"@[0]); }
        if i == 15 { assert("select forward word"@.subrange(i, i + 4)[0] == "select forward word"@[15]); assert("select forward word"@[15] != "back"@[0]); }
    }
    assert forall|i: int| 0 <= i && i + 8 <= "select forward word"@.len() implies #[trigger] "select forward word"@.subrange(i, i + 8) != "previous"@ by {
        if i == 0 { assert("select forward word"@.subrange(i, i + 8)[0] == "select forward word"@[0]); assert("select forward word"@[0] != "previous"@[0]); }
        if i == 1 { assert("select forward word"@.subrange(i, i + 8)[0] == "select forward word"@[1]); assert("select forward word"@[1] != "previous"@[0]); }
        if i == 2 { assert("select forward word"@.subrange(i, i + 8)[0] == "select forward word"@[2]); assert("select forward word"@[2] != "previous"@[0]); }
        if i == 3 { assert("select forward word"@.subrange(i, i + 8)[0] == "select forward word"@[3]); assert("select forward word"@[3] != "previous"@[0]); }
        if i == 4 { assert("select forward word"@.subrange(i, i + 8)[0] == "select forward word"@[4]); assert("select forward word"@[4] != "previous"@[0]); }
        if i == 5 { assert("select forward word"@.subrange(i, i + 8)[0] == "select forward word"@[5]); assert("select forward word"@[5] != "previous"@[0]); }
        if i == 6 { assert("select forward word"@.subrange(i, i + 8)[0] == "select forward word"@[6]); assert("select forward word"@[6] != "previous"@[0]); }
        if i == 7 { assert("select forward word"@.subrange(i, i + 8)[0] == "select forward word"@[7]); assert("select forward word"@[7] != "previous"@[0]); }
        if i == 8 { assert("select forward word"@.subrange(i, i + 8)[0] == "select forward word"@[8]); assert("select forward word"@[8] != "previous"@[0]); }
        if i == 9 { assert("select forward word"@.subrange(i, i + 8)[0] == "select forward word"@[9]); assert("select forward word"@[9] != "previous"@[0]); }
        if i == 10 { assert("select forward word"@.subrange(i, i + 8)[0] == "select forward word"@[10]); assert("select forward word"@[10] != "previous"@[0]); }
        if i == 11 { assert("select forward word"@.subrange(i, i + 8)[0] == "select forward word"@[11]); assert("select forward word"@[11] != "previous"@[0]); }
    }
    assert forall|i: int| 0 <= i && i + 4 <= "select forward word"@.len() implies #[trigger] "select forward word"@.subrange(i, i + 4) != "left"@ by {
        if i == 0 { assert("select forward word"@.subrange(i, i + 4)[0] == "select forward word"@[0]); assert("select forward word"@[0] != "left"@[0]); }
        if i == 1 { assert("select forward word"@.subrange(i, i + 4)[0] == "select forward word"@[1]); assert("select forward word"@[1] != "left"@[0]); }
        if i == 2 { assert("select forward word"@.subrange(i, i + 4)[2] == "select forward word"@[4]); assert("select forward word"@[4] != "left"@[2]); }
        if i == 3 { assert("select forward word"@.subrange(i, i + 4)[0] == "select forward word"@[3]); assert("select forward word"@[3] != "left"@[0]); }
        if i == 4 { assert("select forward word"@.subrange(i, i + 4)[0] == "select forward word"@[4]); assert("select forward word"@[4] != "left"@[0]); }
        if i == 5 { assert("select forward word"@.subrange(i, i + 4)[0] == "select forward word"@[5]); assert("select forward word"@[5] != "left"@[0]); }
        if i == 6 { assert("select forward word"@.subrange(i, i + 4)[0] == "select forward word"@[6]); assert("select forward word"@[6] != "left"@[0]); }
        if i == 7 { assert("select forward word"@.subrange(i, i + 4)[0] == "select forward word"@[7]); assert("select forward word"@[7] != "left"@[0]); }
        if i == 8 { assert("select forward word"@.subrange(i, i + 4)[0] == "select forward word"@[8]); assert("select forward word"@[8] != "left"@[0]); }
        if i == 9 { assert("select forward word"@.subrange(i, i + 4)[0] == "select forward word"@[9]); assert("select forward word"@[9] != "left"@[0]); }
        if i == 10 { assert("select forward word"@.subrange(i, i + 4)[0] == "select forward word"@[10]); assert("select forward word"@[10] != "left"@[0]); }
        if i == 11 { assert("select forward word"@.subrange(i, i + 4)[0] == "select forward word"@[11]); assert("select forward word"@[11] != "left"@[0]); }
        if i == 12 { assert("select forward word"@.subrange(i, i + 4)[0] == "select forward word"@[12]); assert("select forward word"@[12] != "left"@[0]); }
        if i == 13 { assert("select forward word"@.subrange(i, i + 4)[0] == "select forward word"@[13]); assert("select forward word"@[13] != "left"@[0]); }
        if i == 14 { assert("select forward word"@.subrange(i, i + 4)[0] == "select forward word"@[14]); assert("select forward word"@[14] != "left"@[0]); }
        if i == 15 { assert("select forward word"@.subrange(i, i + 4)[0] == "select forward word"@[15]); assert("select forward word"@[15] != "left"@[0]); }
    }
    assert forall|i: int| 0 <= i && i + 4 <= "select forward word"@.len() implies #[trigger] "select forward word"@.subrange(i, i + 4) != "last"@ by {
        if i == 0 { assert("select forward word"@.subrange(i, i + 4)[0] == "select forward word"@[0]); assert("select forward word"@[0] != "last"@[0]); }
        if i == 1 { assert("select forward word"@.subrange(i, i + 4)[0] == "select forward word"@[1]); assert("select forward word"@[1] != "last"@[0]); }
        if i == 2 { assert("select forward word"@.subrange(i, i + 4)[1] == "select forward word"@[3]); assert("select forward word"@[3] != "last"@[1]); }
        if i == 3 { assert("select forward word"@.subrange(i, i + 4)[0] == "select forward word"@[3]); assert("select forward word"@[3] != "last"@[0]); }
        if i == 4 { assert("select forward word"@.subrange(i, i + 4)[0] == "select forward word"@[4]); assert("select forward word"@[4] != "last"@[0]); }
        if i == 5 { assert("select forward word"@.subrange(i, i + 4)[0] == "select forward word"@[5]); assert("select forward word"@[5] != "last"@[0]); }
        if i == 6 { assert("select forward word"@.subrange(i, i + 4)[0] == "select forward word"@[6]); assert("select forward word"@[6] != "last"@[0]); }
        if i == 7 { assert("select forward word"@.subrange(i, i + 4)[0] == "select forward word"@[7]); assert("select forward word"@[7] != "last"@[0]); }
        if i == 8 { assert("select forward word"@.subrange(i, i + 4)[0] == "select forward word"@[8]); assert("select forward word"@[8] != "last"@[0]); }
        if i == 9 { assert("select forward word"@.subrange(i, i + 4)[0] == "select forward word"@[9]); assert("select forward word"@[9] != "last"@[0]); }
        if i == 10 { assert("select forward word"@.subrange(i, i + 4)[0] == "select forward word"@[10]); assert("select forward word"@[10] != "last"@[0]); }
        if i == 11 { assert("select forward word"@.subrange(i, i + 4)[0] == "select forward word"@[11]); assert("select forward word"@[11] != "last"@[0]); }
        if i == 12 { assert("select forward word"@.subrange(i, i + 4)[0] == "select forward word"@[12]); assert("select forward word"@[12] != "last"@[0]); }
        if i == 13 { assert("select forward word"@.subrange(i, i + 4)[0] == "select forward word"@[13]); assert("select forward word"@[13] != "last"@[0]); }
        if i == 14 { assert("select forward word"@.subrange(i, i + 4)[0] == "select forward word"@[14]); assert("select forward word"@[14] != "last"@[0]); }
        if i == 15 { assert("select forward word"@.subrange(i, i + 4)[0] == "select forward word"@[15]); assert("select forward word"@[15] != "last"@[0]); }
    }
}

proof fn lemma_nm_go_to_forward_word()
    ensures
        !mentions("go to forward word"@, "back"@),
        !mentions("go to forward word"@, "previous"@),
        !mentions("go to forward word"@, "left"@),
        !mentions("go to forward word"@, "last"@),
{
    reveal_strlit("go to forward word");
    reveal_strlit("back");
    reveal_strlit("previous");
    reveal_strlit("left");
    reveal_strlit("last");
    assert forall|i: int| 0 <= i && i + 4 <= "go to forward word"@.len() implies #[trigger] "go to forward word"@.subrange(i, i + 4) != "back"@ by {
        if i == 0 { assert("go to forward word"@.subrange(i, i + 4)[0] == "go to forward word"@[0]); assert("go to forward word"@[0] != "back"@[0]); }
        if i == 1 { assert("go to forward word"@.subrange(i, i + 4)[0] == "go to forward word"@[1]); assert("go to forward word"@[1] != "back"@[0]); }
        if i == 2 { assert("go to forward word"@.subrange(i, i + 4)[0] == "go to forward word"@[2]); assert("go to forward word"@[2] != "back"@[0]); }
        if i == 3 { assert("go to forward word"@.subrange(i, i + 4)[0] == "go to forward word"@[3]); assert("go to forward word"@[3] != "back"@[0]); }
        if i == 4 { assert("go to forward word"@.subrange(i, i + 4)[0] == "go to forward word"@[4]); assert("go to forward word"@[4] != "back"@[0]); }
        if i == 5 { assert("go to forward word"@.subrange(i, i + 4)[0] == "go to forward word"@[5]); assert("go to forward word"@[5] != "back"@[0]); }
        if i == 6 { assert("go to forward word"@.subrange(i, i + 4)[0] == "go to forward word"@[6]); assert("go to forward word"@[6] != "back"@[0]); }
        if i == 7 { assert("go to forward word"@.subrange(i, i + 4)[0] == "go to forward word"@[7]); assert("go to forward word"@[7] != "back"@[0]); }
        if i == 8 { assert("go to forward word"@.subrange(i, i + 4)[0] == "go to forward word"@[8]); assert("go to forward word"@[8] != "back"@[0]); }
        if i == 9 { assert("go to forward word"@.subrange(i, i + 4)[0] == "go to forward word"@[9]); assert("go to forward word"@[9] != "back"@[0]); }
        if i == 10 { assert("go to forward word"@.subrange(i, i + 4)[0] == "go to forward word"@[10]); assert("go to forward word"@[10] != "back"@[0]); }
        if i == 11 { assert("go to forward word"@.subrange(i, i + 4)[0] == "go to forward word"@[11]); assert("go to forward word"@[11] != "back"@[0]); }
        if i == 12 { assert("go to forward word"@.subrange(i, i + 4)[0] == "go to forward word"@[12]); assert("go to forward word"@[12] != "back"@[0]); }
        if i == 13 { assert("go to forward word"@.subrange(i, i + 4)[0] == "go to forward word"@[13]); assert("go to forward word"@[13] != "back"@[0]); }
        if i == 14 { assert("go to forward word"@.subrange(i, i + 4)[0] == "go to forward word"@[14]); assert("go to forward word"@[14] != "back"@[0]); }
    }
    assert forall|i: int| 0 <= i && i + 8 <= "go to forward word"@.len() implies #[trigger] "go to forward word"@.subrange(i, i + 8) != "previous"@ by {
        if i == 0 { assert("go to forward word"@.subrange(i, i + 8)[0] == "go to forward word"@[0]); assert("go to forward word"@[0] != "previous"@[0]); }
        if i == 1 { assert("go to forward word"@.subrange(i, i + 8)[0] == "go to forward word"@[1]); assert("go to forward word"@[1] != "previous"@[0]); }
        if i == 2 { assert("go to forward word"@.subrange(i, i + 8)[0] == "go to forward word"@[2]); assert("go to forward word"@[2] != "previous"@[0]); }
        if i == 3 { assert("go to forward word"@.subrange(i, i + 8)[0] == "go to forward word"@[3]); assert("go to forward word"@[3] != "previous"@[0]); }
        if i == 4 { assert("go to forward word"@.subrange(i, i + 8)[0] == "go to forward word"@[4]); assert("go to forward word"@[4] != "previous"@[0]); }
        if i == 5 { assert("go to forward word"@.subrange(i, i + 8)[0] == "go to forward word"@[5]); assert("go to forward word"@[5] != "previous"@[0]); }
        if i == 6 { assert("go to forward word"@.subrange(i, i + 8)[0] == "go to forward word"@[6]); assert("go to forward word"@[6] != "previous"@[0]); }
        if i == 7 { assert("go to forward word"@.subrange(i, i + 8)[0] == "go to forward word"@[7]); assert("go to forward word"@[7] != "previous"@[0]); }
        if i == 8 { assert("go to forward word"@.subrange(i, i + 8)[0] == "go to forward word"@[8]); assert("go to forward word"@[8] != "previous"@[0]); }
        if i == 9 { assert("go to forward word"@.subrange(i, i + 8)[0] == "go to forward word"@[9]); assert("go to forward word"@[9] != "previous"@[0]); }
        if i == 10 { assert("go to forward word"@.subrange(i, i + 8)[0] == "go to forward word"@[10]); assert("go to forward word"@[10] != "previous"@[0]); }
    }
    assert forall|i: int| 0 <= i && i + 4 <= "go to forward word"@.len() implies #[trigger] "go to forward word"@.subrange(i, i + 4) != "left"@ by {
        if i == 0 { assert("go to forward word"@.subrange(i, i + 4)[0] == "go to forward word"@[0]); assert("go to forward word"@[0] != "left"@[0]); }
        if i == 1 { assert("go to forward word"@.subrange(i, i + 4)[0] == "go to forward word"@[1]); assert("go to forward word"@[1] != "left"@[0]); }
        if i == 2 { assert("go to forward word"@.subrange(i, i + 4)[0] == "go to forward word"@[2]); assert("go to forward word"@[2] != "left"@[0]); }
        if i == 3 { assert("go to forward word"@.subrange(i, i + 4)[0] == "go to forward word"@[3]); assert("go to forward word"@[3] != "left"@[0]); }
        if i == 4 { assert("go to forward word"@.subrange(i, i + 4)[0] == "go to forward word"@[4]); assert("go to forward word"@[4] != "left"@[0]); }
        if i == 5 { assert("go to forward word"@.subrange(i, i + 4)[0] == "go to forward word"@[5]); assert("go to forward word"@[5] != "left"@[0]); }
        if i == 6 { assert("go to forward word"@.subrange(i, i + 4)[0] == "go to forward word"@[6]); assert("go to forward word"@[6] != "left"@[0]); }
        if i == 7 { assert("go to forward word"@.subrange(i, i + 4)[0] == "go to forward word"@[7]); assert("go to forward word"@[7] != "left"@[0]); }
        if i == 8 { assert("go to forward word"@.subrange(i, i + 4)[0] == "go to forward word"@[8]); assert("go to forward word"@[8] != "left"@[0]); }
        if i == 9 { assert("go to forward word"@.subrange(i, i + 4)[0] == "go to forward word"@[9]); assert("go to forward word"@[9] != "left"@[0]); }
        if i == 10 { assert("go to forward word"@.subrange(i, i + 4)[0] == "go to forward word"@[10]); assert("go to forward word"@[10] != "left"@[0]); }
        if i == 11 { assert("go to forward word"@.subrange(i, i + 4)[0] == "go to forward word"@[11]); assert("go to forward word"@[11] != "left"@[0]); }
        if i == 12 { assert("go to forward word"@.subrange(i, i + 4)[0] == "go to forward word"@[12]); assert("go to forward word"@[12] != "left"@[0]); }
        if i == 13 { assert("go to forward word"@.subrange(i, i + 4)[0] == "go to forward word"@[13]); assert("go to forward word"@[13] != "left"@[0]); }
        if i == 14 { assert("go to forward word"@.subrange(i, i + 4)[0] == "go to forward word"@[14]); assert("go to forward word"@[14] != "left"@[0]); }
    }
    assert forall|i: int| 0 <= i && i + 4 <= "go to forward word"@.len() implies #[trigger] "go to forward word"@.subrange(i, i + 4) != "last"@ by {
        if i == 0 { assert("go to forward word"@.subrange(i, i + 4)[0] == "go to forward word"@[0]); assert("go to forward word"@[0] != "last"@[0]); }
        if i == 1 { assert("go to forward word"@.subrange(i, i + 4)[0] == "go to forward word"@[1]); assert("go to forward word"@[1] != "last"@[0]); }
        if i == 2 { assert("go to forward word"@.subrange(i, i + 4)[0] == "go to forward word"@[2]); assert("go to forward word"@[2] != "last"@[0]); }
        if i == 3 { assert("go to forward word"@.subrange(i, i + 4)[0] == "go to forward word"@[3]); assert("go to forward word"@[3] != "last"@[0]); }
        if i == 4 { assert("go to forward word"@.subrange(i, i + 4)[0] == "go to forward word"@[4]); assert("go to forward word"@[4] != "last"@[0]); }
        if i == 5 { assert("go to forward word"@.subrange(i, i + 4)[0] == "go to forward word"@[5]); assert("go to forward word"@[5] != "last"@[0]); }
        if i == 6 { assert("go to forward word"@.subrange(i, i + 4)[0] == "go to forward word"@[6]); assert("go to forward word"@[6] != "last"@[0]); }
        if i == 7 { assert("go to forward word"@.subrange(i, i + 4)[0] == "go to forward word"@[7]); assert("go to forward word"@[7] != "last"@[0]); }
        if i == 8 { assert("go to forward word"@.subrange(i, i + 4)[0] == "go to forward word"@[8]); assert("go to forward word"@[8] != "last"@[0]); }
        if i == 9 { assert("go to forward word"@.subrange(i, i + 4)[0] == "go to forward word"@[9]); assert("go to forward word"@[9] != "last"@[0]); }
        if i == 10 { assert("go to forward word"@.subrange(i, i + 4)[0] == "go to forward word"@[10]); assert("go to forward word"@[10] != "last"@[0]); }
        if i == 11 { assert("go to forward word"@.subrange(i, i + 4)[0] == "go to forward word"@[11]); assert("go to forward word"@[11] != "last"@[0]); }
        if i == 12 { assert("go to forward word"@.subrange(i, i + 4)[0] == "go to forward word"@[12]); assert("go to forward word"@[12] != "last"@[0]); }
        if i == 13 { assert("go to forward word"@.subrange(i, i + 4)[0] == "go to forward word"@[13]); assert("go to forward word"@[13] != "last"@[0]); }
        if i == 14 { assert("go to forward word"@.subrange(i, i + 4)[0] == "go to forward word"@[14]); assert("go to forward word"@[14] != "last"@[0]); }
    }
}

proof fn lemma_nm_move_go_to_forward_word()
    ensures
        !mentions("move go to forward word"@, "back"@),
        !mentions("move go to forward word"@, "previous"@),
        !mentions("move go to forward word"@, "left"@),
        !mentions("move go to forward word"@, "last"@),
{
    reveal_strlit("move go to forward word");
    reveal_strlit("back");
    reveal_strlit("previous");
    reveal_strlit("left");
    reveal_strlit("last");
    assert forall|i: int| 0 <= i && i + 4 <= "move go to forward word"@.len() implies #[trigger] "move go to forward word"@.subrange(i, i + 4) != "back"@ by {
        if i == 0 { assert("move go to forward word"@.subrange(i, i + 4)[0] == "move go to forward word"@[0]); assert("move go to forward word"@[0] != "back"@[0]); }
        if i == 1 { assert("move go to forward word"@.subrange(i, i + 4)[0] == "move go to forward word"@[1]); assert("move go to forward word"@[1] != "back"@[0]); }
        if i == 2 { assert("move go to forward word"@.subrange(i, i + 4)[0] == "move go to forward word"@[2]); assert("move go to forward word"@[2] != "back"@[0]); }
        if i == 3 { assert("move go to forward word"@.subrange(i, i + 4)[0] == "move go to forward word"@[3]); assert("move go to forward word"@[3] != "back"@[0]); }
        if i == 4 { assert("move go to forward word"@.subrange(i, i + 4)[0] == "move go to forward word"@[4]); assert("move go to forward word"@[4] != "back"@[0]); }
        if i == 5 { assert("move go to forward word"@.subrange(i, i + 4)[0] == "move go to forward word"@[5]); assert("move go to forward word"@[5] != "back"@[0]); }
        if i == 6 { assert("move go to forward word"@.subrange(i, i + 4)[0] == "move go to forward word"@[6]); assert("move go to forward word"@[6] != "back"@[0]); }
        if i == 7 { assert("move go to forward word"@.subrange(i, i + 4)[0] == "move go to forward word"@[7]); assert("move go to forward word"@[7] != "back"@[0]); }
        if i == 8 { assert("move go to forward word"@.subrange(i, i + 4)[0] == "move go to forward word"@[8]); assert("move go to forward word"@[8] != "back"@[0]); }
        if i == 9 { assert("move go to forward word"@.subrange(i, i + 4)[0] == "move go to forward word"@[9]); assert("move go to forward word"@[9] != "back"@[0]); }
        if i == 10 { assert("move go to forward word"@.subrange(i, i + 4)[0] == "move go to forward word"@[10]); assert("move go to forward word"@[10] != "back"@[0]); }
        if i == 11 { assert("move go to forward word"@.subrange(i, i + 4)[0] == "move go to forward word"@[11]); assert("move go to forward word"@[11] != "back"@[0]); }
        if i == 12 { assert("move go to forward word"@.subrange(i, i + 4)[0] == "move go to forward word"@[12]); assert("move go to forward word"@[12] != "back"@[0]); }
        if i == 13 { assert("move go to forward word"@.subrange(i, i + 4)[0] == "move go to forward word"@[13]); assert("move go to forward word"@[13] != "back"@[0]); }
        if i == 14 { assert("move go to forward word"@.subrange(i, i + 4)[0] == "move go to forward word"@[14]); assert("move go to forward word"@[14] != "back"@[0]); }
        if i == 15 { assert("move go to forward word"@.subrange(i, i + 4)[0] == "move go to forward word"@[15]); assert("move go to forward word"@[15] != "back"@[0]); }
        if i == 16 { assert("move go to forward word"@.subrange(i, i + 4)[0] == "move go to forward word"@[16]); assert("move go to forward word"@[16] != "back"@[0]); }
        if i == 17 { assert("move go to forward word"@.subrange(i, i + 4)[0] == "move go to forward word"@[17]); assert("move go to forward word"@[17] != "back"@[0]); }
        if i == 18 { assert("move go to forward word"@.subrange(i, i + 4)[0] == "move go to forward word"@[18]); assert("move go to forward word"@[18] != "back"@[0]); }
        if i == 19 { assert("move go to forward word"@.subrange(i, i + 4)[0] == "move go to forward word"@[19]); assert("move go to forward word"@[19] != "back"@[0]); }
    }
    assert forall|i: int| 0 <= i && i + 8 <= "move go to forward word"@.len() implies #[trigger] "move go to forward word"@.subrange(i, i + 8) != "previous"@ by {
        if i == 0 { assert("move go to forward word"@.subrange(i, i + 8)[0] == "move go to forward word"@[0]); assert("move go to forward word"@[0] != "previous"@[0]); }
        if i == 1 { assert("move go to forward word"@.subrange(i, i + 8)[0] == "move go to forward word"@[1]); assert("move go to forward word"@[1] != "previous"@[0]); }
        if i == 2 { assert("move go to forward word"@.subrange(i, i + 8)[0] == "move go to forward word"@[2]); assert("move go to forward word"@[2] != "previous"@[0]); }
        if i == 3 { assert("move go to forward word"@.subrange(i, i + 8)[0] == "move go to forward word"@[3]); assert("move go to forward word"@[3] != "previous"@[0]); }
        if i == 4 { assert("move go to forward word"@.subrange(i, i + 8)[0] == "move go to forward word"@[4]); assert("move go to forward word"@[4] != "previous"@[0]); }
        if i == 5 { assert("move go to forward word"@.subrange(i, i + 8)[0] == "move go to forward word"@[5]); assert("move go to forward word"@[5] != "previous"@[0]); }
        if i == 6 { assert("move go to forward word"@.subrange(i, i + 8)[0] == "move go to forward word"@[6]); assert("move go to forward word"@[6] != "previous"@[0]); }
        if i == 7 { assert("move go to forward word"@.subrange(i, i + 8)[0] == "move go to forward word"@[7]); assert("move go to forward word"@[7] != "previous"@[0]); }
        if i == 8 { assert("move go to forward word"@.subrange(i, i + 8)[0] == "move go to forward word"@[8]); assert("move go to forward word"@[8] != "previous"@[0]); }
        if i == 9 { assert("move go to forward word"@.subrange(i, i + 8)[0] == "move go to forward word"@[9]); assert("move go to forward word"@[9] != "previous"@[0]); }
        if i == 10 { assert("move go to forward word"@.subrange(i, i + 8)[0] == "move go to forward word"@[10]); assert("move go to forward word"@[10] != "previous"@[0]); }
        if i == 11 { assert("move go to forward word"@.subrange(i, i + 8)[0] == "move go to forward word"@[11]); assert("move go to forward word"@[11] != "previous"@[0]); }
        if i == 12 { assert("move go to forward word"@.subrange(i, i + 8)[0] == "move go to forward word"@[12]); assert("move go to forward word"@[12] != "previous"@[0]); }
        if i == 13 { assert("move go to forward word"@.subrange(i, i + 8)[0] == "move go to forward word"@[13]); assert("move go to forward word"@[13] != "previous"@[0]); }
        if i == 14 { assert("move go to forward word"@.subrange(i, i + 8)[0] == "move go to forward word"@[14]); assert("move go to forward word"@[14] != "previous"@[0]); }
        if i == 15 { assert("move go to forward word"@.subrange(i, i + 8)[0] == "move go to forward word"@[15]); assert("move go to forward word"@[15] != "previous"@[0]); }
    }
    assert forall|i: int| 0 <= i && i + 4 <= "move go to forward word"@.len() implies #[trigger] "move go to forward word"@.subrange(i, i + 4) != "left"@ by {
        if i == 0 { assert("move go to forward word"@.subrange(i, i + 4)[0] == "move go to forward word"@[0]); assert("move go to forward word"@[0] != "left"@[0]); }
        if i == 1 { assert("move go to forward word"@.subrange(i, i + 4)[0] == "move go to forward word"@[1]); assert("move go to forward word"@[1] != "left"@[0]); }
        if i == 2 { assert("move go to forward word"@.subrange(i, i + 4)[0] == "move go to forward word"@[2]); assert("move go to forward word"@[2] != "left"@[0]); }
        if i == 3 { assert("move go to forward word"@.subrange(i, i + 4)[0] == "move go to forward word"@[3]); assert("move go to forward word"@[3] != "left"@[0]); }
        if i == 4 { assert("move go to forward word"@.subrange(i, i + 4)[0] == "move go to forward word"@[4]); assert("move go to forward word"@[4] != "left"@[0]); }
        if i == 5 { assert("move go to forward word"@.subrange(i, i + 4)[0] == "move go to forward word"@[5]); assert("move go to forward word"@[5] != "left"@[0]); }
        if i == 6 { assert("move go to forward word"@.subrange(i, i + 4)[0] == "move go to forward word"@[6]); assert("move go to forward word"@[6] != "left"@[0]); }
        if i == 7 { assert("move go to forward word"@.subrange(i, i + 4)[0] == "move go to forward word"@[7]); assert("move go to forward word"@[7] != "left"@[0]); }
        if i == 8 { assert("move go to forward word"@.subrange(i, i + 4)[0] == "move go to forward word"@[8]); assert("move go to forward word"@[8] != "left"@[0]); }
        if i == 9 { assert("move go to forward word"@.subrange(i, i + 4)[0] == "move go to forward word"@[9]); assert("move go to forward word"@[9] != "left"@[0]); }
        if i == 10 { assert("move go to forward word"@.subrange(i, i + 4)[0] == "move go to forward word"@[10]); assert("move go to forward word"@[10] != "left"@[0]); }
        if i == 11 { assert("move go to forward word"@.subrange(i, i + 4)[0] == "move go to forward word"@[11]); assert("move go to forward word"@[11] != "left"@[0]); }
        if i == 12 { assert("move go to forward word"@.subrange(i, i + 4)[0] == "move go to forward word"@[12]); assert("move go to forward word"@[12] != "left"@[0]); }
        if i == 13 { assert("move go to forward word"@.subrange(i, i + 4)[0] == "move go to forward word"@[13]); assert("move go to forward word"@[13] != "left"@[0]); }
        if i == 14 { assert("move go to forward word"@.subrange(i, i + 4)[0] == "move go to forward word"@[14]); assert("move go to forward word"@[14] != "left"@[0]); }
        if i == 15 { assert("move go to forward word"@.subrange(i, i + 4)[0] == "move go to forward word"@[15]); assert("move go to forward word"@[15] != "left"@[0]); }
        if i == 16 { assert("move go to forward word"@.subrange(i, i + 4)[0] == "move go to forward word"@[16]); assert("move go to forward word"@[16] != "left"@[0]); }
        if i == 17 { assert("move go to forward word"@.subrange(i, i + 4)[0] == "move go to forward word"@[17]); assert("move go to forward word"@[17] != "left"@[0]); }
        if i == 18 { assert("move go to forward word"@.subrange(i, i + 4)[0] == "move go to forward word"@[18]); assert("move go to forward word"@[18] != "left"@[0]); }
        if i == 19 { assert("move go to forward word"@.subrange(i, i + 4)[0] == "move go to forward word"@[19]); assert("move go to forward word"@[19] != "left"@[0]); }
    }
    assert forall|i: int| 0 <= i && i + 4 <= "move go to forward word"@.len() implies #[trigger] "move go to forward word"@.subrange(i, i + 4) != "last"@ by {
        if i == 0 { assert("move go to forward word"@.subrange(i, i + 4)[0] == "move go to forward word"@[0]); assert("move go to forward word"@[0] != "last"@[0]); }
        if i == 1 { assert("move go to forward word"@.subrange(i, i + 4)[0] == "move go to forward word"@[1]); assert("move go to forward word"@[1] != "last"@[0]); }
        if i == 2 { assert("move go to forward word"@.subrange(i, i + 4)[0] == "move go to forward word"@[2]); assert("move go to forward word"@[2] != "last"@[0]); }
        if i == 3 { assert("move go to forward word"@.subrange(i, i + 4)[0] == "move go to forward word"@[3]); assert("move go to forward word"@[3] != "last"@[0]); }
        if i == 4 { assert("move go to forward word"@.subrange(i, i + 4)[0] == "move go to forward word"@[4]); assert("move go to forward word"@[4] != "last"@[0]); }
        if i == 5 { assert("move go to forward word"@.subrange(i, i + 4)[0] == "move go to forward word"@[5]); assert("move go to forward word"@[5] != "last"@[0]); }
        if i == 6 { assert("move go to forward word"@.subrange(i, i + 4)[0] == "move go to forward word"@[6]); assert("move go to forward word"@[6] != "last"@[0]); }
        if i == 7 { assert("move go to forward word"@.subrange(i, i + 4)[0] == "move go to forward word"@[7]); assert("move go to forward word"@[7] != "last"@[0]); }
        if i == 8 { assert("move go to forward word"@.subrange(i, i + 4)[0] == "move go to forward word"@[8]); assert("move go to forward word"@[8] != "last"@[0]); }
        if i == 9 { assert("move go to forward word"@.subrange(i, i + 4)[0] == "move go to forward word"@[9]); assert("move go to forward word"@[9] != "last"@[0]); }
        if i == 10 { assert("move go to forward word"@.subrange(i, i + 4)[0] == "move go to forward word"@[10]); assert("move go to forward word"@[10] != "last"@[0]); }
        if i == 11 { assert("move go to forward word"@.subrange(i, i + 4)[0] == "move go to forward word"@[11]); assert("move go to forward word"@[11] != "last"@[0]); }
        if i == 12 { assert("move go to forward word"@.subrange(i, i + 4)[0] == "move go to forward word"@[12]); assert("move go to forward word"@[12] != "last"@[0]); }
        if i == 13 { assert("move go to forward word"@.subrange(i, i + 4)[0] == "move go to forward word"@[13]); assert("move go to forward word"@[13] != "last"@[0]); }
        if i == 14 { assert("move go to forward word"@.subrange(i, i + 4)[0] == "move go to forward word"@[14]); assert("move go to forward word"@[14] != "last"@[0]); }
        if i == 15 { assert("move go to forward word"@.subrange(i, i + 4)[0] == "move go to forward word"@[15]); assert("move go to forward word"@[15] != "last"@[0]); }
        if i == 16 { assert("move go to forward word"@.subrange(i, i + 4)[0] == "move go to forward word"@[16]); assert("move go to forward word"@[16] != "last"@[0]); }
        if i == 17 { assert("move go to forward word"@.subrange(i, i + 4)[0] == "move go to forward word"@[17]); assert("move go to forward word"@[17] != "last"@[0]); }
        if i == 18 { assert("move go to forward word"@.subrange(i, i + 4)[0] == "move go to forward word"@[18]); assert("move go to forward word"@[18] != "last"@[0]); }
        if i == 19 { assert("move go to forward word"@.subrange(i, i + 4)[0] == "move go to forward word"@[19]); assert("move go to forward word"@[19] != "last"@[0]); }
    }
}

proof fn lemma_nm_select_go_to_forward_word()
    ensures
        !mentions("select go to forward word"@, "back"@),
        !mentions("select go to forward word"@, "previous"@),
        !mentions("select go to forward word"@, "left"@),
        !mentions("select go to forward word"@, "last"@),
{
    reveal_strlit("select go to forward word");
    reveal_strlit("back");
    reveal_strlit("previous");
    reveal_strlit("left");
    reveal_strlit("last");
    assert forall|i: int| 0 <= i && i + 4 <= "select go to forward word"@.len() implies #[trigger] "select go to forward word"@.subrange(i, i + 4) != "back"@ by {
        if i == 0 { assert("select go to forward word"@.subrange(i, i + 4)[0] == "select go to forward word"@[0]); assert("select go to forward word"@[0] != "back"@[0]); }
        if i == 1 { assert("select go to forward word"@.subrange(i, i + 4)[0] == "select go to forward word"@[1]); assert("select go to forward word"@[1] != "back"@[0]); }
        if i == 2 { assert("select go to forward word"@.subrange(i, i + 4)[0] == "select go to forward word"@[2]); assert("select go to forward word"@[2] != "back"@[0]); }
        if i == 3 { assert("select go to forward word"@.subrange(i, i + 4)[0] == "select go to forward word"@[3]); assert("select go to forward word"@[3] != "back"@[0]); }
        if i == 4 { assert("select go to forward word"@.subrange(i, i + 4)[0] == "select go to forward word"@[4]); assert("select go to forward word"@[4] != "back"@[0]); }
        if i == 5 { assert("select go to forward word"@.subrange(i, i + 4)[0] == "select go to forward word"@[5]); assert("select go to forward word"@[5] != "back"@[0]); }
        if i == 6 { assert("select go to forward word"@.subrange(i, i + 4)[0] == "select go to forward word"@[6]); assert("select go to forward word"@[6] != "back"@[0]); }
        if i == 7 { assert("select go to forward word"@.subrange(i, i + 4)[0] == "select go to forward word"@[7]); assert("select go to forward word"@[7] != "back"@[0]); }
        if i == 8 { assert("select go to forward word"@.subrange(i, i + 4)[0] == "select go to forward word"@[8]); assert("select go to forward word"@[8] != "back"@[0]); }
        if i == 9 { assert("select go to forward word"@.subrange(i, i + 4)[0] == "select go to forward word"@[9]); assert("select go to forward word"@[9] != "back"@[0]); }
        if i == 10 { assert("select go to forward word"@.subrange(i, i + 4)[0] == "select go to forward word"@[10]); assert("select go to forward word"@[10] != "back"@[0]); }
        if i == 11 { assert("select go to forward word"@.subrange(i, i + 4)[0] == "select go to forward word"@[11]); assert("select go to forward word"@[11] != "back"@[0]); }
        if i == 12 { assert("select go to forward word"@.subrange(i, i + 4)[0] == "select go to forward word"@[12]); assert("select go to forward word"@[12] != "back"@[0]); }
        if i == 13 { assert("select go to forward word"@.subrange(i, i + 4)[0] == "select go to forward word"@[13]); assert("select go to forward word"@[13] != "back"@[0]); }
        if i == 14 { assert("select go to forward word"@.subrange(i, i + 4)[0] == "select go to forward word"@[14]); assert("select go to forward word"@[14] != "back"@[0]); }
        if i == 15 { assert("select go to forward word"@.subrange(i, i + 4)[0] == "select go to forward word"@[15]); assert("select go to forward word"@[15] != "back"@[0]); }
        if i == 16 { assert("select go to forward word"@.subrange(i, i + 4)[0] == "select go to forward word"@[16]); assert("select go to forward word"@[16] != "back"@[0]); }
        if i == 17 { assert("select go to forward word"@.subrange(i, i + 4)[0] == "select go to forward word"@[17]); assert("select go to forward word"@[17] != "back"@[0]); }
        if i == 18 { assert("select go to forward word"@.subrange(i, i + 4)[0] == "select go to forward word"@[18]); assert("select go to forward word"@[18] != "back"@[0]); }
        if i == 19 { assert("select go to forward word"@.subrange(i, i + 4)[0] == "select go to forward word"@[19]); assert("select go to forward word"@[19] != "back"@[0]); }
        if i == 20 { assert("select go to forward word"@.subrange(i, i + 4)[0] == "select go to forward word"@[20]); assert("select go to forward word"@[20] != "back"@[0]); }
        if i == 21 { assert("select go to forward word"@.subrange(i, i + 4)[0] == "select go to forward word"@[21]); assert("select go to forward word"@[21] != "back"@[0]); }
    }
    assert forall|i: int| 0 <= i && i + 8 <= "select go to forward word"@.len() implies #[trigger] "select go to forward word"@.subrange(i, i + 8) != "previous"@ by {
        if i == 0 { assert("select go to forward word"@.subrange(i, i + 8)[0] == "select go to forward word"@[0]); assert("select go to forward word"@[0] != "previous"@[0]); }
        if i == 1 { assert("select go to forward word"@.subrange(i, i + 8)[0] == "select go to forward word"@[1]); assert("select go to forward word"@[1] != "previous"@[0]); }
        if i == 2 { assert("select go to forward word"@.subrange(i, i + 8)[0] == "select go to forward word"@[2]); assert("select go to forward word"@[2] != "previous"@[0]); }
        if i == 3 { assert("select go to forward word"@.subrange(i, i + 8)[0] == "select go to forward word"@[3]); assert("select go to forward word"@[3] != "previous"@[0]); }
        if i == 4 { assert("select go to forward word"@.subrange(i, i + 8)[0] == "select go to forward word"@[4]); assert("select go to forward word"@[4] != "previous"@[0]); }
        if i == 5 { assert("select go to forward word"@.subrange(i, i + 8)[0] == "select go to forward word"@[5]); assert("select go to forward word"@[5] != "previous"@[0]); }
        if i == 6 { assert("select go to forward word"@.subrange(i, i + 8)[0] == "select go to forward word"@[6]); assert("select go to forward word"@[6] != "previous"@[0]); }
        if i == 7 { assert("select go to forward word"@.subrange(i, i + 8)[0] == "select go to forward word"@[7]); assert("select go to forward word"@[7] != "previous"@[0]); }
        if i == 8 { assert("select go to forward word"@.subrange(i, i + 8)[0] == "select go to forward word"@[8]); assert("select go to forward word"@[8] != "previous"@[0]); }
        if i == 9 { assert("select go to forward word"@.subrange(i, i + 8)[0] == "select go to forward word"@[9]); assert("select go to forward word"@[9] != "previous"@[0]); }
        if i == 10 { assert("select go to forward word"@.subrange(i, i + 8)[0] == "select go to forward word"@[10]); assert("select go to forward word"@[10] != "previous"@[0]); }
        if i == 11 { assert("select go to forward word"@.subrange(i, i + 8)[0] == "select go to forward word"@[11]); assert("select go to forward word"@[11] != "previous"@[0]); }
        if i == 12 { assert("select go to forward word"@.subrange(i, i + 8)[0] == "select go to forward word"@[12]); assert("select go to forward word"@[12] != "previous"@[0]); }
        if i == 13 { assert("select go to forward word"@.subrange(i, i + 8)[0] == "select go to forward word"@[13]); assert("select go to forward word"@[13] != "previous"@[0]); }
        if i == 14 { assert("select go to forward word"@.subrange(i, i + 8)[0] == "select go to forward word"@[14]); assert("select go to forward word"@[14] != "previous"@[0]); }
        if i == 15 { assert("select go to forward word"@.subrange(i, i + 8)[0] == "select go to forward word"@[15]); assert("select go to forward word"@[15] != "previous"@[0]); }
        if i == 16 { assert("select go to forward word"@.subrange(i, i + 8)[0] == "select go to forward word"@[16]); assert("select go to forward word"@[16] != "previous"@[0]); }
        if i == 17 { assert("select go to forward word"@.subrange(i, i + 8)[0] == "select go to forward word"@[17]); assert("select go to forward word"@[17] != "previous"@[0]); }
    }
    assert forall|i: int| 0 <= i && i + 4 <= "select go to forward word"@.len() implies #[trigger] "select go to forward word"@.subrange(i, i + 4) != "left"@ by {
        if i == 0 { assert("select go to forward word"@.subrange(i, i + 4)[0] == "select go to forward word"@[0]); assert("select go to forward word"@[0] != "left"@[0]); }
        if i == 1 { assert("select go to forward word"@.subrange(i, i + 4)[0] == "select go to forward word"@[1]); assert("select go to forward word"@[1] != "left"@[0]); }
        if i == 2 { assert("select go to forward word"@.subrange(i, i + 4)[2] == "select go to forward word"@[4]); assert("select go to forward word"@[4] != "left"@[2]); }
        if i == 3 { assert("select go to forward word"@.subrange(i, i + 4)[0] == "select go to forward word"@[3]); assert("select go to forward word"@[3] != "left"@[0]); }
        if i == 4 { assert("select go to forward word"@.subrange(i, i + 4)[0] == "select go to forward word"@[4]); assert("select go to forward word"@[4] != "left"@[0]); }
        if i == 5 { assert("select go to forward word"@.subrange(i, i + 4)[0] == "select go to forward word"@[5]); assert("select go to forward word"@[5] != "left"@[0]); }
        if i == 6 { assert("select go to forward word"@.subrange(i, i + 4)[0] == "select go to forward word"@[6]); assert("select go to forward word"@[6] != "left"@[0]); }
        if i == 7 { assert("select go to forward word"@.subrange(i, i + 4)[0] == "select go to forward word"@[7]); assert("select go to forward word"@[7] != "left"@[0]); }
        if i == 8 { assert("select go to forward word"@.subrange(i, i + 4)[0] == "select go to forward word"@[8]); assert("select go to forward word"@[8] != "left"@[0]); }
        if i == 9 { assert("select go to forward word"@.subrange(i, i + 4)[0] == "select go to forward word"@[9]); assert("select go to forward word"@[9] != "left"@[0]); }
        if i == 10 { assert("select go to forward word"@.subrange(i, i + 4)[0] == "select go to forward word"@[10]); assert("select go to forward word"@[10] != "left"@[0]); }
        if i == 11 { assert("select go to forward word"@.subrange(i, i + 4)[0] == "select go to forward word"@[11]); assert("select go to forward word"@[11] != "left"@[0]); }
        if i == 12 { assert("select go to forward word"@.subrange(i, i + 4)[0] == "select go to forward word"@[12]); assert("select go to forward word"@[12] != "left"@[0]); }
        if i == 13 { assert("select go to forward word"@.subrange(i, i + 4)[0] == "select go to forward word"@[13]); assert("select go to forward word"@[13] != "left"@[0]); }
        if i == 14 { assert("select go to forward word"@.subrange(i, i + 4)[0] == "select go to forward word"@[14]); assert("select go to forward word"@[14] != "left"@[0]); }
        if i == 15 { assert("select go to forward word"@.subrange(i, i + 4)[0] == "select go to forward word"@[15]); assert("select go to forward word"@[15] != "left"@[0]); }
        if i == 16 { assert("select go to forward word"@.subrange(i, i + 4)[0] == "select go to forward word"@[16]); assert("select go to forward word"@[16] != "left"@[0]); }
        if i == 17 { assert("select go to forward word"@.subrange(i, i + 4)[0] == "select go to forward word"@[17]); assert("select go to forward word"@[17] != "left"@[0]); }
        if i == 18 { assert("select go to forward word"@.subrange(i, i + 4)[0] == "select go to forward word"@[18]); assert("select go to forward word"@[18] != "left"@[0]); }
        if i == 19 { assert("select go to forward word"@.subrange(i, i + 4)[0] == "select go to forward word"@[19]); assert("select go to forward word"@[19] != "left"@[0]); }
        if i == 20 { assert("select go to forward word"@.subrange(i, i + 4)[0] == "select go to forward word"@[20]); assert("select go to forward word"@[20] != "left"@[0]); }
        if i == 21 { assert("select go to forward word"@.subrange(i, i + 4)[0] == "select go to forward word"@[21]); assert("select go to forward word"@[21] != "left"@[0]); }
    }
    assert forall|i: int| 0 <= i && i + 4 <= "select go to forward word"@.len() implies #[trigger] "select go to forward word"@.subrange(i, i + 4) != "last"@ by {
        if i == 0 { assert("select go to forward word"@.subrange(i, i + 4)[0] == "select go to forward word"@[0]); assert("select go to forward word"@[0] != "last"@[0]); }
        if i == 1 { assert("select go to forward word"@.subrange(i, i + 4)[0] == "select go to forward word"@[1]); assert("select go to forward word"@[1] != "last"@[0]); }
        if i == 2 { assert("select go to forward word"@.subrange(i, i + 4)[1] == "select go to forward word"@[3]); assert("select go to forward word"@[3] != "last"@[1]); }
        if i == 3 { assert("select go to forward word"@.subrange(i, i + 4)[0] == "select go to forward word"@[3]); assert("select go to forward word"@[3] != "last"@[0]); }
        if i == 4 { assert("select go to forward word"@.subrange(i, i + 4)[0] == "select go to forward word"@[4]); assert("select go to forward word"@[4] != "last"@[0]); }
        if i == 5 { assert("select go to forward word"@.subrange(i, i + 4)[0] == "select go to forward word"@[5]); assert("select go to forward word"@[5] != "last"@[0]); }
        if i == 6 { assert("select go to forward word"@.subrange(i, i + 4)[0] == "select go to forward word"@[6]); assert("select go to forward word"@[6] != "last"@[0]); }
        if i == 7 { assert("select go to forward word"@.subrange(i, i + 4)[0] == "select go to forward word"@[7]); assert("select go to forward word"@[7] != "last"@[0]); }
        if i == 8 { assert("select go to forward word"@.subrange(i, i + 4)[0] == "select go to forward word"@[8]); assert("select go to forward word"@[8] != "last"@[0]); }
        if i == 9 { assert("select go to forward word"@.subrange(i, i + 4)[0] == "select go to forward word"@[9]); assert("select go to forward word"@[9] != "last"@[0]); }
        if i == 10 { assert("select go to forward word"@.subrange(i, i + 4)[0] == "select go to forward word"@[10]); assert("select go to forward word"@[10] != "last"@[0]); }
        if i == 11 { assert("select go to forward word"@.subrange(i, i + 4)[0] == "select go to forward word"@[11]); assert("select go to forward word"@[11] != "last"@[0]); }
        if i == 12 { assert("select go to forward word"@.subrange(i, i + 4)[0] == "select go to forward word"@[12]); assert("select go to forward word"@[12] != "last"@[0]); }
        if i == 13 { assert("select go to forward word"@.subrange(i, i + 4)[0] == "select go to forward word"@[13]); assert("select go to forward word"@[13] != "last"@[0]); }
        if i == 14 { assert("select go to forward word"@.subrange(i, i + 4)[0] == "select go to forward word"@[14]); assert("select go to forward word"@[14] != "last"@[0]); }
        if i == 15 { assert("select go to forward word"@.subrange(i, i + 4)[0] == "select go to forward word"@[15]); assert("select go to forward word"@[15] != "last"@[0]); }
        if i == 16 { assert("select go to forward word"@.subrange(i, i + 4)[0] == "select go to forward word"@[16]); assert("select go to forward word"@[16] != "last"@[0]); }
        if i == 17 { assert("select go to forward word"@.subrange(i, i + 4)[0] == "select go to forward word"@[17]); assert("select go to forward word"@[17] != "last"@[0]); }
        if i == 18 { assert("select go to forward word"@.subrange(i, i + 4)[0] == "select go to forward word"@[18]); assert("select go to forward word"@[18] != "last"@[0]); }
        if i == 19 { assert("select go to forward word"@.subrange(i, i + 4)[0] == "select go to forward word"@[19]); assert("select go to forward word"@[19] != "last"@[0]); }
        if i == 20 { assert("select go to forward word"@.subrange(i, i + 4)[0] == "select go to forward word"@[20]); assert("select go to forward word"@[20] != "last"@[0]); }
        if i == 21 { assert("select go to forward word"@.subrange(i, i + 4)[0] == "select go to forward word"@[21]); assert("select go to forward word"@[21] != "last"@[0]); }
    }
}

proof fn lemma_back_forms(n: Seq<char>)
    requires
        goes_back_a_word(command_of_normalized(n)),
    ensures
        n == "delete word"@ || n == "delete previous word"@ || n == "delete last word"@ || n == "delete word back"@ || n == "backspace word"@ || n == "word left"@ || n == "move "@ + ("word left"@) || n == "select "@ + ("word left"@) || n == ("go to "@ + "word left"@) || n == "move "@ + ("go to "@ + "word left"@) || n == "select "@ + ("go to "@ + "word left"@) || n == "left word"@ || n == "move "@ + ("left word"@) || n == "select "@ + ("left word"@) || n == ("go to "@ + "left word"@) || n == "move "@ + ("go to "@ + "left word"@) || n == "select "@ + ("go to "@ + "left word"@) || n == "previous word"@ || n == "move "@ + ("previous word"@) || n == "select "@ + ("previous word"@) || n == ("go to "@ + "previous word"@) || n == "move "@ + ("go to "@ + "previous word"@) || n == "select "@ + ("go to "@ + "previous word"@) || n == "back word"@ || n == "move "@ + ("back word"@) || n == "select "@ + ("back word"@) || n == ("go to "@ + "back word"@) || n == "move "@ + ("go to "@ + "back word"@) || n == "select "@ + ("go to "@ + "back word"@),
{
    reveal_strlit("select ");
    reveal_strlit("move ");
    reveal_strlit("go to ");
    if starts_with(n, "select "@) {
        assert(n =~= "select "@ + n.skip(7));
        if let Some(EditCommand::Select(mo)) = command_of_normalized(n) {
            lemma_word_motion_phrases(n.skip(7), mo);
        }
    } else if delete_of(n) is Some {
    } else if n == "new line"@ || n == "newline"@ || n == "insert line"@ || n == "line break"@ {
    } else if n == "tab"@ || n == "insert tab"@ || n == "indent"@ {
    } else if n == "undo"@ || n == "undo that"@ {
    } else if n == "redo"@ || n == "redo that"@ {
    } else {
        let m = if starts_with(n, "move "@) { n.skip(5) } else { n };
        if starts_with(n, "move "@) {
            assert(n =~= "move "@ + m);
        }
        if let Some(EditCommand::Move(mo)) = command_of_normalized(n) {
            lemma_word_motion_phrases(m, mo);
        }
    }
}

proof fn lemma_back_form_0(n: Seq<char>)
    requires
        n == "delete word"@,
    ensures
        !mentions(n, "forward"@),
        !mentions(n, "next"@),
        !mentions(n, "right"@),
{
        reveal_strlit("delete word");
        reveal_strlit("delete word");
        assert(n =~= "delete word"@);
        lemma_nm_delete_word();
}

proof fn lemma_back_form_1(n: Seq<char>)
    requires
        n == "delete previous word"@,
    ensures
        !mentions(n, "forward"@),
        !mentions(n, "next"@),
        !mentions(n, "right"@),
{
        reveal_strlit("delete previous word");
        reveal_strlit("delete previous word");
        assert(n =~= "delete previous word"@);
        lemma_nm_delete_previous_word();
}

proof fn lemma_back_form_2(n: Seq<char>)
    requires
        n == "delete last word"@,
    ensures
        !mentions(n, "forward"@),
        !mentions(n, "next"@),
        !mentions(n, "right"@),
{
        reveal_strlit("delete last word");
        reveal_strlit("delete last word");
        assert(n =~= "delete last word"@);
        lemma_nm_delete_last_word();
}

proof fn lemma_back_form_3(n: Seq<char>)
    requires
        n == "delete word back"@,
    ensures
        !mentions(n, "forward"@),
        !mentions(n, "next"@),
        !mentions(n, "right"@),
{
        reveal_strlit("delete word back");
        reveal_strlit("delete word back");
        assert(n =~= "delete word back"@);
        lemma_nm_delete_word_back();
}

proof fn lemma_back_form_4(n: Seq<char>)
    requires
        n == "backspace word"@,
    ensures
        !mentions(n, "forward"@),
        !mentions(n, "next"@),
        !mentions(n, "right"@),
{
        reveal_strlit("backspace word");
        reveal_strlit("backspace word");
        assert(n =~= "backspace word"@);
        lemma_nm_backspace_word();
}

proof fn lemma_back_form_5(n: Seq<char>)
    requires
        n == "word left"@,
    ensures
        !mentions(n, "forward"@),
        !mentions(n, "next"@),
        !mentions(n, "right"@),
{
        reveal_strlit("word left");
        reveal_strlit("word left");
        assert(n =~= "word left"@);
        lemma_nm_word_left();
}

proof fn lemma_back_form_6(n: Seq<char>)
    requires
        n == "move "@ + ("word left"@),
    ensures
        !mentions(n, "forward"@),
        !mentions(n, "next"@),
        !mentions(n, "right"@),
{
        reveal_strlit("word left");
        reveal_strlit("move ");
        reveal_strlit("move word left");
        assert(n =~= "move word left"@);
        lemma_nm_move_word_left();
}

proof fn lemma_back_form_7(n: Seq<char>)
    requires
        n == "select "@ + ("word left"@),
    ensures
        !mentions(n, "forward"@),
        !mentions(n, "next"@),
        !mentions(n, "right"@),
{
        reveal_strlit("word left");
        reveal_strlit("select ");
        reveal_strlit("select word left");
        assert(n =~= "select word left"@);
        lemma_nm_select_word_left();
}

proof fn lemma_back_form_8(n: Seq<char>)
    requires
        n == ("go to "@ + "word left"@),
    ensures
        !mentions(n, "forward"@),
        !mentions(n, "next"@),
        !mentions(n, "right"@),
{
        reveal_strlit("go to ");
        reveal_strlit("word left");
        reveal_strlit("go to word left");
        assert(n =~= "go to word left"@);
        lemma_nm_go_to_word_left();
}

proof fn lemma_back_form_9(n: Seq<char>)
    requires
        n == "move "@ + ("go to "@ + "word left"@),
    ensures
        !mentions(n, "forward"@),
        !mentions(n, "next"@),
        !mentions(n, "right"@),
{
        reveal_strlit("go to ");
        reveal_strlit("word left");
        reveal_strlit("move ");
        reveal_strlit("move go to word left");
        assert(n =~= "move go to word left"@);
        lemma_nm_move_go_to_word_left();
}

proof fn lemma_back_form_10(n: Seq<char>)
    requires
        n == "select "@ + ("go to "@ + "word left"@),
    ensures
        !mentions(n, "forward"@),
        !mentions(n, "next"@),
        !mentions(n, "right"@),
{
        reveal_strlit("go to ");
        reveal_strlit("word left");
        reveal_strlit("select ");
        reveal_strlit("select go to word left");
        assert(n =~= "select go to word left"@);
        lemma_nm_select_go_to_word_left();
}

proof fn lemma_back_form_11(n: Seq<char>)
    requires
        n == "left word"@,
    ensures
        !mentions(n, "forward"@),
        !mentions(n, "next"@),
        !mentions(n, "right"@),
{
        reveal_strlit("left word");
        reveal_strlit("left word");
        assert(n =~= "left word"@);
        lemma_nm_left_word();
}

proof fn lemma_back_form_12(n: Seq<char>)
    requires
        n == "move "@ + ("left word"@),
    ensures
        !mentions(n, "forward"@),
        !mentions(n, "next"@),
        !mentions(n, "right"@),
{
        reveal_strlit("left word");
        reveal_strlit("move ");
        reveal_strlit("move left word");
        assert(n =~= "move left word"@);
        lemma_nm_move_left_word();
}

proof fn lemma_back_form_13(n: Seq<char>)
    requires
        n == "select "@ + ("left word"@),
    ensures
        !mentions(n, "forward"@),
        !mentions(n, "next"@),
        !mentions(n, "right"@),
{
        reveal_strlit("left word");
        reveal_strlit("select ");
        reveal_strlit("select left word");
        assert(n =~= "select left word"@);
        lemma_nm_select_left_word();
}

proof fn lemma_back_form_14(n: Seq<char>)
    requires
        n == ("go to "@ + "left word"@),
    ensures
        !mentions(n, "forward"@),
        !mentions(n, "next"@),
        !mentions(n, "right"@),
{
        reveal_strlit("go to ");
        reveal_strlit("left word");
        reveal_strlit("go to left word");
        assert(n =~= "go to left word"@);
        lemma_nm_go_to_left_word();
}

proof fn lemma_back_form_15(n: Seq<char>)
    requires
        n == "move "@ + ("go to "@ + "left word"@),
    ensures
        !mentions(n, "forward"@),
        !mentions(n, "next"@),
        !mentions(n, "right"@),
{
        reveal_strlit("go to ");
        reveal_strlit("left word");
        reveal_strlit("move ");
        reveal_strlit("move go to left word");
        assert(n =~= "move go to left word"@);
        lemma_nm_move_go_to_left_word();
}

proof fn lemma_back_form_16(n: Seq<char>)
    requires
        n == "select "@ + ("go to "@ + "left word"@),
    ensures
        !mentions(n, "forward"@),
        !mentions(n, "next"@),
        !mentions(n, "right"@),
{
        reveal_strlit("go to ");
        reveal_strlit("left word");
        reveal_strlit("select ");
        reveal_strlit("select go to left word");
        assert(n =~= "select go to left word"@);
        lemma_nm_select_go_to_left_word();
}

proof fn lemma_back_form_17(n: Seq<char>)
    requires
        n == "previous word"@,
    ensures
        !mentions(n, "forward"@),
        !mentions(n, "next"@),
        !mentions(n, "right"@),
{
        reveal_strlit("previous word");
        reveal_strlit("previous word");
        assert(n =~= "previous word"@);
        lemma_nm_previous_word();
}

proof fn lemma_back_form_18(n: Seq<char>)
    requires
        n == "move "@ + ("previous word"@),
    ensures
        !mentions(n, "forward"@),
        !mentions(n, "next"@),
        !mentions(n, "right"@),
{
        reveal_strlit("previous word");
        reveal_strlit("move ");
        reveal_strlit("move previous word");
        assert(n =~= "move previous word"@);
        lemma_nm_move_previous_word();
}

proof fn lemma_back_form_19(n: Seq<char>)
    requires
        n == "select "@ + ("previous word"@),
    ensures
        !mentions(n, "forward"@),
        !mentions(n, "next"@),
        !mentions(n, "right"@),
{
        reveal_strlit("previous word");
        reveal_strlit("select ");
        reveal_strlit("select previous word");
        assert(n =~= "select previous word"@);
        lemma_nm_select_previous_word();
}

proof fn lemma_back_form_20(n: Seq<char>)
    requires
        n == ("go to "@ + "previous word"@),
    ensures
        !mentions(n, "forward"@),
        !mentions(n, "next"@),
        !mentions(n, "right"@),
{
        reveal_strlit("go to ");
        reveal_strlit("previous word");
        reveal_strlit("go to previous word");
        assert(n =~= "go to previous word"@);
        lemma_nm_go_to_previous_word();
}

proof fn lemma_back_form_21(n: Seq<char>)
    requires
        n == "move "@ + ("go to "@ + "previous word"@),
    ensures
        !mentions(n, "forward"@),
        !mentions(n, "next"@),
        !mentions(n, "right"@),
{
        reveal_strlit("go to ");
        reveal_strlit("previous word");
        reveal_strlit("move ");
        reveal_strlit("move go to previous word");
        assert(n =~= "move go to previous word"@);
        lemma_nm_move_go_to_previous_word();
}

proof fn lemma_back_form_22(n: Seq<char>)
    requires
        n == "select "@ + ("go to "@ + "previous word"@),
    ensures
        !mentions(n, "forward"@),
        !mentions(n, "next"@),
        !mentions(n, "right"@),
{
        reveal_strlit("go to ");
        reveal_strlit("previous word");
        reveal_strlit("select ");
        reveal_strlit("select go to previous word");
        assert(n =~= "select go to previous word"@);
        lemma_nm_select_go_to_previous_word();
}

proof fn lemma_back_form_23(n: Seq<char>)
    requires
        n == "back word"@,
    ensures
        !mentions(n, "forward"@),
        !mentions(n, "next"@),
        !mentions(n, "right"@),
{
        reveal_strlit("back word");
        reveal_strlit("back word");
        assert(n =~= "back word"@);
        lemma_nm_back_word();
}

proof fn lemma_back_form_24(n: Seq<char>)
    requires
        n == "move "@ + ("back word"@),
    ensures
        !mentions(n, "forward"@),
        !mentions(n, "next"@),
        !mentions(n, "right"@),
{
        reveal_strlit("move ");
        reveal_strlit("back word");
        reveal_strlit("move back word");
        assert(n =~= "move back word"@);
        lemma_nm_move_back_word();
}

proof fn lemma_back_form_25(n: Seq<char>)
    requires
        n == "select "@ + ("back word"@),
    ensures
        !mentions(n, "forward"@),
        !mentions(n, "next"@),
        !mentions(n, "right"@),
{
        reveal_strlit("back word");
        reveal_strlit("select ");
        reveal_strlit("select back word");
        assert(n =~= "select back word"@);
        lemma_nm_select_back_word();
}

proof fn lemma_back_form_26(n: Seq<char>)
    requires
        n == ("go to "@ + "back word"@),
    ensures
        !mentions(n, "forward"@),
        !mentions(n, "next"@),
        !mentions(n, "right"@),
{
        reveal_strlit("go to ");
        reveal_strlit("back word");
        reveal_strlit("go to back word");
        assert(n =~= "go to back word"@);
        lemma_nm_go_to_back_word();
}

proof fn lemma_back_form_27(n: Seq<char>)
    requires
        n == "move "@ + ("go to "@ + "back word"@),
    ensures
        !mentions(n, "forward"@),
        !mentions(n, "next"@),
        !mentions(n, "right"@),
{
        reveal_strlit("go to ");
        reveal_strlit("move ");
        reveal_strlit("back word");
        reveal_strlit("move go to back word");
        assert(n =~= "move go to back word"@);
        lemma_nm_move_go_to_back_word();
}

proof fn lemma_back_form_28(n: Seq<char>)
    requires
        n == "select "@ + ("go to "@ + "back word"@),
    ensures
        !mentions(n, "forward"@),
        !mentions(n, "next"@),
        !mentions(n, "right"@),
{
        reveal_strlit("go to ");
        reveal_strlit("back word");
        reveal_strlit("select ");
        reveal_strlit("select go to back word");
        assert(n =~= "select go to back word"@);
        lemma_nm_select_go_to_back_word();
}

proof fn lemma_back_phrases(n: Seq<char>)
    requires
        goes_back_a_word(command_of_normalized(n)),
    ensures
        !mentions(n, "forward"@),
        !mentions(n, "next"@),
        !mentions(n, "right"@),
{
    lemma_back_forms(n);
    if n == "delete word"@ {
        lemma_back_form_0(n);
    }
    if n == "delete previous word"@ {
        lemma_back_form_1(n);
    }
    if n == "delete last word"@ {
        lemma_back_form_2(n);
    }
    if n == "delete word back"@ {
        lemma_back_form_3(n);
    }
    if n == "backspace word"@ {
        lemma_back_form_4(n);
    }
    if n == "word left"@ {
        lemma_back_form_5(n);
    }
    if n == "move "@ + ("word left"@) {
        lemma_back_form_6(n);
    }
    if n == "select "@ + ("word left"@) {
        lemma_back_form_7(n);
    }
    if n == ("go to "@ + "word left"@) {
        lemma_back_form_8(n);
    }
    if n == "move "@ + ("go to "@ + "word left"@) {
        lemma_back_form_9(n);
    }
    if n == "select "@ + ("go to "@ + "word left"@) {
        lemma_back_form_10(n);
    }
    if n == "left word"@ {
        lemma_back_form_11(n);
    }
    if n == "move "@ + ("left word"@) {
        lemma_back_form_12(n);
    }
    if n == "select "@ + ("left word"@) {
        lemma_back_form_13(n);
    }
    if n == ("go to "@ + "left word"@) {
        lemma_back_form_14(n);
    }
    if n == "move "@ + ("go to "@ + "left word"@) {
        lemma_back_form_15(n);
    }
    if n == "select "@ + ("go to "@ + "left word"@) {
        lemma_back_form_16(n);
    }
    if n == "previous word"@ {
        lemma_back_form_17(n);
    }
    if n == "move "@ + ("previous word"@) {
        lemma_back_form_18(n);
    }
    if n == "select "@ + ("previous word"@) {
        lemma_back_form_19(n);
    }
    if n == ("go to "@ + "previous word"@) {
        lemma_back_form_20(n);
    }
    if n == "move "@ + ("go to "@ + "previous word"@) {
        lemma_back_form_21(n);
    }
    if n == "select "@ + ("go to "@ + "previous word"@) {
        lemma_back_form_22(n);
    }
    if n == "back word"@ {
        lemma_back_form_23(n);
    }
    if n == "move "@ + ("back word"@) {
        lemma_back_form_24(n);
    }
    if n == "select "@ + ("back word"@) {
        lemma_back_form_25(n);
    }
    if n == ("go to "@ + "back word"@) {
        lemma_back_form_26(n);
    }
    if n == "move "@ + ("go to "@ + "back word"@) {
        lemma_back_form_27(n);
    }
    if n == "select "@ + ("go to "@ + "back word"@) {
        lemma_back_form_28(n);
    }
}

proof fn lemma_forward_forms(n: Seq<char>)
    requires
        goes_forward_a_word(command_of_normalized(n)),
    ensures
        n == "delete next word"@ || n == "delete word forward"@ || n == "delete forward word"@ || n == "word right"@ || n == "move "@ + ("word right"@) || n == "select "@ + ("word right"@) || n == ("go to "@ + "word right"@) || n == "move "@ + ("go to "@ + "word right"@) || n == "select "@ + ("go to "@ + "word right"@) || n == "right word"@ || n == "move "@ + ("right word"@) || n == "select "@ + ("right word"@) || n == ("go to "@ + "right word"@) || n == "move "@ + ("go to "@ + "right word"@) || n == "select "@ + ("go to "@ + "right word"@) || n == "next word"@ || n == "move "@ + ("next word"@) || n == "select "@ + ("next word"@) || n == ("go to "@ + "next word"@) || n == "move "@ + ("go to "@ + "next word"@) || n == "select "@ + ("go to "@ + "next word"@) || n == "forward word"@ || n == "move "@ + ("forward word"@) || n == "select "@ + ("forward word"@) || n == ("go to "@ + "forward word"@) || n == "move "@ + ("go to "@ + "forward word"@) || n == "select "@ + ("go to "@ + "forward word"@),
{
    reveal_strlit("select ");
    reveal_strlit("move ");
    reveal_strlit("go to ");
    if starts_with(n, "select "@) {
        assert(n =~= "select "@ + n.skip(7));
        if let Some(EditCommand::Select(mo)) = command_of_normalized(n) {
            lemma_word_motion_phrases(n.skip(7), mo);
        }
    } else if delete_of(n) is Some {
    } else if n == "new line"@ || n == "newline"@ || n == "insert line"@ || n == "line break"@ {
    } else if n == "tab"@ || n == "insert tab"@ || n == "indent"@ {
    } else if n == "undo"@ || n == "undo that"@ {
    } else if n == "redo"@ || n == "redo that"@ {
    } else {
        let m = if starts_with(n, "move "@) { n.skip(5) } else { n };
        if starts_with(n, "move "@) {
            assert(n =~= "move "@ + m);
        }
        if let Some(EditCommand::Move(mo)) = command_of_normalized(n) {
            lemma_word_motion_phrases(m, mo);
        }
    }
}

proof fn lemma_forward_form_0(n: Seq<char>)
    requires
        n == "delete next word"@,
    ensures
        !mentions(n, "back"@),
        !mentions(n, "previous"@),
        !mentions(n, "left"@),
        !mentions(n, "last"@),
{
        reveal_strlit("delete next word");
        reveal_strlit("delete next word");
        assert(n =~= "delete next word"@);
        lemma_nm_delete_next_word();
}

proof fn lemma_forward_form_1(n: Seq<char>)
    requires
        n == "delete word forward"@,
    ensures
        !mentions(n, "back"@),
        !mentions(n, "previous"@),
        !mentions(n, "left"@),
        !mentions(n, "last"@),
{
        reveal_strlit("delete word forward");
        reveal_strlit("delete word forward");
        assert(n =~= "delete word forward"@);
        lemma_nm_delete_word_forward();
}

proof fn lemma_forward_form_2(n: Seq<char>)
    requires
        n == "delete forward word"@,
    ensures
        !mentions(n, "back"@),
        !mentions(n, "previous"@),
        !mentions(n, "left"@),
        !mentions(n, "last"@),
{
        reveal_strlit("delete forward word");
        reveal_strlit("delete forward word");
        assert(n =~= "delete forward word"@);
        lemma_nm_delete_forward_word();
}

proof fn lemma_forward_form_3(n: Seq<char>)
    requires
        n == "word right"@,
    ensures
        !mentions(n, "back"@),
        !mentions(n, "previous"@),
        !mentions(n, "left"@),
        !mentions(n, "last"@),
{
        reveal_strlit("word right");
        reveal_strlit("word right");
        assert(n =~= "word right"@);
        lemma_nm_word_right();
}

proof fn lemma_forward_form_4(n: Seq<char>)
    requires
        n == "move "@ + ("word right"@),
    ensures
        !mentions(n, "back"@),
        !mentions(n, "previous"@),
        !mentions(n, "left"@),
        !mentions(n, "last"@),
{
        reveal_strlit("word right");
        reveal_strlit("move ");
        reveal_strlit("move word right");
        assert(n =~= "move word right"@);
        lemma_nm_move_word_right();
}

proof fn lemma_forward_form_5(n: Seq<char>)
    requires
        n == "select "@ + ("word right"@),
    ensures
        !mentions(n, "back"@),
        !mentions(n, "previous"@),
        !mentions(n, "left"@),
        !mentions(n, "last"@),
{
        reveal_strlit("word right");
        reveal_strlit("select ");
        reveal_strlit("select word right");
        assert(n =~= "select word right"@);
        lemma_nm_select_word_right();
}

proof fn lemma_forward_form_6(n: Seq<char>)
    requires
        n == ("go to "@ + "word right"@),
    ensures
        !mentions(n, "back"@),
        !mentions(n, "previous"@),
        !mentions(n, "left"@),
        !mentions(n, "last"@),
{
        reveal_strlit("go to ");
        reveal_strlit("word right");
        reveal_strlit("go to word right");
        assert(n =~= "go to word right"@);
        lemma_nm_go_to_word_right();
}

proof fn lemma_forward_form_7(n: Seq<char>)
    requires
        n == "move "@ + ("go to "@ + "word right"@),
    ensures
        !mentions(n, "back"@),
        !mentions(n, "previous"@),
        !mentions(n, "left"@),
        !mentions(n, "last"@),
{
        reveal_strlit("go to ");
        reveal_strlit("word right");
        reveal_strlit("move ");
        reveal_strlit("move go to word right");
        assert(n =~= "move go to word right"@);
        lemma_nm_move_go_to_word_right();
}

proof fn lemma_forward_form_8(n: Seq<char>)
    requires
        n == "select "@ + ("go to "@ + "word right"@),
    ensures
        !mentions(n, "back"@),
        !mentions(n, "previous"@),
        !mentions(n, "left"@),
        !mentions(n, "last"@),
{
        reveal_strlit("go to ");
        reveal_strlit("word right");
        reveal_strlit("select ");
        reveal_strlit("select go to word right");
        assert(n =~= "select go to word right"@);
        lemma_nm_select_go_to_word_right();
}

proof fn lemma_forward_form_9(n: Seq<char>)
    requires
        n == "right word"@,
    ensures
        !mentions(n, "back"@),
        !mentions(n, "previous"@),
        !mentions(n, "left"@),
        !mentions(n, "last"@),
{
        reveal_strlit("right word");
        reveal_strlit("right word");
        assert(n =~= "right word"@);
        lemma_nm_right_word();
}

proof fn lemma_forward_form_10(n: Seq<char>)
    requires
        n == "move "@ + ("right word"@),
    ensures
        !mentions(n, "back"@),
        !mentions(n, "previous"@),
        !mentions(n, "left"@),
        !mentions(n, "last"@),
{
        reveal_strlit("move ");
        reveal_strlit("right word");
        reveal_strlit("move right word");
        assert(n =~= "move right word"@);
        lemma_nm_move_right_word();
}

proof fn lemma_forward_form_11(n: Seq<char>)
    requires
        n == "select "@ + ("right word"@),
    ensures
        !mentions(n, "back"@),
        !mentions(n, "previous"@),
        !mentions(n, "left"@),
        !mentions(n, "last"@),
{
        reveal_strlit("right word");
        reveal_strlit("select ");
        reveal_strlit("select right word");
        assert(n =~= "select right word"@);
        lemma_nm_select_right_word();
}

proof fn lemma_forward_form_12(n: Seq<char>)
    requires
        n == ("go to "@ + "right word"@),
    ensures
        !mentions(n, "back"@),
        !mentions(n, "previous"@),
        !mentions(n, "left"@),
        !mentions(n, "last"@),
{
        reveal_strlit("go to ");
        reveal_strlit("right word");
        reveal_strlit("go to right word");
        assert(n =~= "go to right word"@);
        lemma_nm_go_to_right_word();
}

proof fn lemma_forward_form_13(n: Seq<char>)
    requires
        n == "move "@ + ("go to "@ + "right word"@),
    ensures
        !mentions(n, "back"@),
        !mentions(n, "previous"@),
        !mentions(n, "left"@),
        !mentions(n, "last"@),
{
        reveal_strlit("go to ");
        reveal_strlit("move ");
        reveal_strlit("right word");
        reveal_strlit("move go to right word");
        assert(n =~= "move go to right word"@);
        lemma_nm_move_go_to_right_word();
}

proof fn lemma_forward_form_14(n: Seq<char>)
    requires
        n == "select "@ + ("go to "@ + "right word"@),
    ensures
        !mentions(n, "back"@),
        !mentions(n, "previous"@),
        !mentions(n, "left"@),
        !mentions(n, "last"@),
{
        reveal_strlit("go to ");
        reveal_strlit("right word");
        reveal_strlit("select ");
        reveal_strlit("select go to right word");
        assert(n =~= "select go to right word"@);
        lemma_nm_select_go_to_right_word();
}

proof fn lemma_forward_form_15(n: Seq<char>)
    requires
        n == "next word"@,
    ensures
        !mentions(n, "back"@),
        !mentions(n, "previous"@),
        !mentions(n, "left"@),
        !mentions(n, "last"@),
{
        reveal_strlit("next word");
        reveal_strlit("next word");
        assert(n =~= "next word"@);
        lemma_nm_next_word();
}

proof fn lemma_forward_form_16(n: Seq<char>)
    requires
        n == "move "@ + ("next word"@),
    ensures
        !mentions(n, "back"@),
        !mentions(n, "previous"@),
        !mentions(n, "left"@),
        !mentions(n, "last"@),
{
        reveal_strlit("move ");
        reveal_strlit("next word");
        reveal_strlit("move next word");
        assert(n =~= "move next word"@);
        lemma_nm_move_next_word();
}

proof fn lemma_forward_form_17(n: Seq<char>)
    requires
        n == "select "@ + ("next word"@),
    ensures
        !mentions(n, "back"@),
        !mentions(n, "previous"@),
        !mentions(n, "left"@),
        !mentions(n, "last"@),
{
        reveal_strlit("select ");
        reveal_strlit("next word");
        reveal_strlit("select next word");
        assert(n =~= "select next word"@);
        lemma_nm_select_next_word();
}

proof fn lemma_forward_form_18(n: Seq<char>)
    requires
        n == ("go to "@ + "next word"@),
    ensures
        !mentions(n, "back"@),
        !mentions(n, "previous"@),
        !mentions(n, "left"@),
        !mentions(n, "last"@),
{
        reveal_strlit("go to ");
        reveal_strlit("next word");
        reveal_strlit("go to next word");
        assert(n =~= "go to next word"@);
        lemma_nm_go_to_next_word();
}

proof fn lemma_forward_form_19(n: Seq<char>)
    requires
        n == "move "@ + ("go to "@ + "next word"@),
    ensures
        !mentions(n, "back"@),
        !mentions(n, "previous"@),
        !mentions(n, "left"@),
        !mentions(n, "last"@),
{
        reveal_strlit("go to ");
        reveal_strlit("move ");
        reveal_strlit("next word");
        reveal_strlit("move go to next word");
        assert(n =~= "move go to next word"@);
        lemma_nm_move_go_to_next_word();
}

proof fn lemma_forward_form_20(n: Seq<char>)
    requires
        n == "select "@ + ("go to "@ + "next word"@),
    ensures
        !mentions(n, "back"@),
        !mentions(n, "previous"@),
        !mentions(n, "left"@),
        !mentions(n, "last"@),
{
        reveal_strlit("go to ");
        reveal_strlit("select ");
        reveal_strlit("next word");
        reveal_strlit("select go to next word");
        assert(n =~= "select go to next word"@);
        lemma_nm_select_go_to_next_word();
}

proof fn lemma_forward_form_21(n: Seq<char>)
    requires
        n == "forward word"@,
    ensures
        !mentions(n, "back"@),
        !mentions(n, "previous"@),
        !mentions(n, "left"@),
        !mentions(n, "last"@),
{
        reveal_strlit("forward word");
        reveal_strlit("forward word");
        assert(n =~= "forward word"@);
        lemma_nm_forward_word();
}

proof fn lemma_forward_form_22(n: Seq<char>)
    requires
        n == "move "@ + ("forward word"@),
    ensures
        !mentions(n, "back"@),
        !mentions(n, "previous"@),
        !mentions(n, "left"@),
        !mentions(n, "last"@),
{
        reveal_strlit("forward word");
        reveal_strlit("move ");
        reveal_strlit("move forward word");
        assert(n =~= "move forward word"@);
        lemma_nm_move_forward_word();
}

proof fn lemma_forward_form_23(n: Seq<char>)
    requires
        n == "select "@ + ("forward word"@),
    ensures
        !mentions(n, "back"@),
        !mentions(n, "previous"@),
        !mentions(n, "left"@),
        !mentions(n, "last"@),
{
        reveal_strlit("forward word");
        reveal_strlit("select ");
        reveal_strlit("select forward word");
        assert(n =~= "select forward word"@);
        lemma_nm_select_forward_word();
}

proof fn lemma_forward_form_24(n: Seq<char>)
    requires
        n == ("go to "@ + "forward word"@),
    ensures
        !mentions(n, "back"@),
        !mentions(n, "previous"@),
        !mentions(n, "left"@),
        !mentions(n, "last"@),
{
        reveal_strlit("go to ");
        reveal_strlit("forward word");
        reveal_strlit("go to forward word");
        assert(n =~= "go to forward word"@);
        lemma_nm_go_to_forward_word();
}

proof fn lemma_forward_form_25(n: Seq<char>)
    requires
        n == "move "@ + ("go to "@ + "forward word"@),
    ensures
        !mentions(n, "back"@),
        !mentions(n, "previous"@),
        !mentions(n, "left"@),
        !mentions(n, "last"@),
{
        reveal_strlit("go to ");
        reveal_strlit("forward word");
        reveal_strlit("move ");
        reveal_strlit("move go to forward word");
        assert(n =~= "move go to forward word"@);
        lemma_nm_move_go_to_forward_word();
}

proof fn lemma_forward_form_26(n: Seq<char>)
    requires
        n == "select "@ + ("go to "@ + "forward word"@),
    ensures
        !mentions(n, "back"@),
        !mentions(n, "previous"@),
        !mentions(n, "left"@),
        !mentions(n, "last"@),
{
        reveal_strlit("go to ");
        reveal_strlit("forward word");
        reveal_strlit("select ");
        reveal_strlit("select go to forward word");
        assert(n =~= "select go to forward word"@);
        lemma_nm_select_go_to_forward_word();
}

proof fn lemma_forward_phrases(n: Seq<char>)
    requires
        goes_forward_a_word(command_of_normalized(n)),
    ensures
        !mentions(n, "back"@),
        !mentions(n, "previous"@),
        !mentions(n, "left"@),
        !mentions(n, "last"@),
{
    lemma_forward_forms(n);
    if n == "delete next word"@ {
        lemma_forward_form_0(n);
    }
    if n == "delete word forward"@ {
        lemma_forward_form_1(n);
    }
    if n == "delete forward word"@ {
        lemma_forward_form_2(n);
    }
    if n == "word right"@ {
        lemma_forward_form_3(n);
    }
    if n == "move "@ + ("word right"@) {
        lemma_forward_form_4(n);
    }
    if n == "select "@ + ("word right"@) {
        lemma_forward_form_5(n);
    }
    if n == ("go to "@ + "word right"@) {
        lemma_forward_form_6(n);
    }
    if n == "move "@ + ("go to "@ + "word right"@) {
        lemma_forward_form_7(n);
    }
    if n == "select "@ + ("go to "@ + "word right"@) {
        lemma_forward_form_8(n);
    }
    if n == "right word"@ {
        lemma_forward_form_9(n);
    }
    if n == "move "@ + ("right word"@) {
        lemma_forward_form_10(n);
    }
    if n == "select "@ + ("right word"@) {
        lemma_forward_form_11(n);
    }
    if n == ("go to "@ + "right word"@) {
        lemma_forward_form_12(n);
    }
    if n == "move "@ + ("go to "@ + "right word"@) {
        lemma_forward_form_13(n);
    }
    if n == "select "@ + ("go to "@ + "right word"@) {
        lemma_forward_form_14(n);
    }
    if n == "next word"@ {
        lemma_forward_form_15(n);
    }
    if n == "move "@ + ("next word"@) {
        lemma_forward_form_16(n);
    }
    if n == "select "@ + ("next word"@) {
        lemma_forward_form_17(n);
    }
    if n == ("go to "@ + "next word"@) {
        lemma_forward_form_18(n);
    }
    if n == "move "@ + ("go to "@ + "next word"@) {
        lemma_forward_form_19(n);
    }
    if n == "select "@ + ("go to "@ + "next word"@) {
        lemma_forward_form_20(n);
    }
    if n == "forward word"@ {
        lemma_forward_form_21(n);
    }
    if n == "move "@ + ("forward word"@) {
        lemma_forward_form_22(n);
    }
    if n == "select "@ + ("forward word"@) {
        lemma_forward_form_23(n);
    }
    if n == ("go to "@ + "forward word"@) {
        lemma_forward_form_24(n);
    }
    if n == "move "@ + ("go to "@ + "forward word"@) {
        lemma_forward_form_25(n);
    }
    if n == "select "@ + ("go to "@ + "forward word"@) {
        lemma_forward_form_26(n);
    }
}

/// The phrases that name the next word delete forward.
proof fn lemma_word_forward_deletions(n: Seq<char>)
    requires
        n == "delete next word"@ || n == "delete word forward"@ || n == "delete forward word"@,
    ensures
        command_of_normalized(n) == Some(EditCommand::Delete(DeleteTarget::WordForward)),
{
    reveal_strlit("delete");
    reveal_strlit("delete that");
    reveal_strlit("delete this");
    reveal_strlit("delete selection");
    reveal_strlit("delete word");
    reveal_strlit("delete previous word");
    reveal_strlit("delete last word");
    reveal_strlit("delete word back");
    reveal_strlit("backspace word");
    reveal_strlit("delete next word");
    reveal_strlit("delete word forward");
    reveal_strlit("delete forward word");
    reveal_strlit("select ");
    if n == "delete next word"@ {
        assert(n.take(7)[0] == n[0]);
        assert(n[0] != "select "@[0]);
        assert("delete next word"@.len() != "delete"@.len());
        assert("delete next word"@.len() != "delete that"@.len());
        assert("delete next word"@.len() != "delete this"@.len());
        assert("delete next word"@[7] != "delete selection"@[7]);
        assert("delete next word"@.len() != "delete word"@.len());
        assert("delete next word"@.len() != "delete previous word"@.len());
        assert("delete next word"@[7] != "delete last word"@[7]);
        assert("delete next word"@[7] != "delete word back"@[7]);
        assert("delete next word"@.len() != "backspace word"@.len());
    }
    if n == "delete word forward"@ {
        assert(n.take(7)[0] == n[0]);
        assert(n[0] != "select "@[0]);
        assert("delete word forward"@.len() != "delete"@.len());
        assert("delete word forward"@.len() != "delete that"@.len());
        assert("delete word forward"@.len() != "delete this"@.len());
        assert("delete word forward"@.len() != "delete selection"@.len());
        assert("delete word forward"@.len() != "delete word"@.len());
        assert("delete word forward"@.len() != "delete previous word"@.len());
        assert("delete word forward"@.len() != "delete last word"@.len());
        assert("delete word forward"@.len() != "delete word back"@.len());
        assert("delete word forward"@.len() != "backspace word"@.len());
    }
    if n == "delete forward word"@ {
        assert(n.take(7)[0] == n[0]);
        assert(n[0] != "select "@[0]);
        assert("delete forward word"@.len() != "delete"@.len());
        assert("delete forward word"@.len() != "delete that"@.len());
        assert("delete forward word"@.len() != "delete this"@.len());
        assert("delete forward word"@.len() != "delete selection"@.len());
        assert("delete forward word"@.len() != "delete word"@.len());
        assert("delete forward word"@.len() != "delete previous word"@.len());
        assert("delete forward word"@.len() != "delete last word"@.len());
        assert("delete forward word"@.len() != "delete word back"@.len());
        assert("delete forward word"@.len() != "backspace word"@.len());
    }
}

/// A word command goes the way it names: a phrase that names the next or forward word
/// ("delete next word", "delete word forward", "delete forward word") deletes forward; no
/// phrase that mentions "forward", "next" or "right" deletes, moves or selects toward the
/// word before the cursor; and no phrase that mentions "back", "previous", "left" or "last"
/// does so toward the word after it.
pub proof fn law_word_command_direction(phrase: Seq<char>)
    ensures
        ({
            let n = normalized(phrase);
            let c = command_of_normalized(n);
            &&& (n == "delete next word"@ || n == "delete word forward"@ || n == "delete forward word"@)
                ==> c == Some(EditCommand::Delete(DeleteTarget::WordForward))
            &&& goes_back_a_word(c) ==> !mentions(n, "forward"@) && !mentions(n, "next"@) && !mentions(n, "right"@)
            &&& goes_forward_a_word(c) ==> !mentions(n, "back"@) && !mentions(n, "previous"@) && !mentions(
                n,
                "left"@,
            ) && !mentions(n, "last"@)
        }),
{
    let n = normalized(phrase);
    if n == "delete next word"@ || n == "delete word forward"@ || n == "delete forward word"@ {
        lemma_word_forward_deletions(n);
    }
    if goes_back_a_word(command_of_normalized(n)) {
        lemma_back_phrases(n);
    }
    if goes_forward_a_word(command_of_normalized(n)) {
        lemma_forward_phrases(n);
    }
}

} // verus!
