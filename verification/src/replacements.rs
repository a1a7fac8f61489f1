//! Deterministic literal replacements, applied in order to every transcript. A rule maps an
//! exact phrase to an exact output: on word boundaries only when it is a whole-word rule, and
//! ignoring case unless it is case-sensitive, in which case its output mirrors the casing of
//! what it matched unless the rule keeps its own. Spaces left behind by a deletion are tidied.
use vstd::prelude::*;
use crate::settings::WordReplacement;
use crate::text::{
    case_adapted, preserve_case_pattern, regex_escape, regex_escaped, regex_replace_all,
    regex_replaced, spaces_collapsed,
};
use crate::unicode::{alnum_char, chars_of, extend_chars, is_alphanumeric, string_from, trim_whitespace, trim_ws};

verus! {

/// The pieces of `text` between the matches of `pattern` (`Regex::split`), or `None` when the
/// pattern does not compile.
pub uninterp spec fn regex_split_pieces(pattern: Seq<char>, text: Seq<char>) -> Option<Seq<Seq<char>>>;

/// The texts of the successive non-overlapping matches of `pattern` in `text`
/// (`Regex::find_iter`), or `None` when the pattern does not compile.
pub uninterp spec fn regex_match_texts(pattern: Seq<char>, text: Seq<char>) -> Option<Seq<Seq<char>>>;

/// The characters of each string.
pub open spec fn texts(v: Seq<String>) -> Seq<Seq<char>> {
    Seq::new(v.len(), |i: int| v[i]@)
}

/// Compiles `pattern` with `regex::Regex::new` and splits `text` at its matches with
/// `Regex::split`. The contract only names the result; `None` when the pattern does not
/// compile.
#[verifier::external_body]
pub(crate) fn regex_split(pattern: &str, text: &str) -> (r: Option<Vec<String>>)
    ensures
        match r {
            Some(v) => regex_split_pieces(pattern@, text@) == Some(texts(v@)),
            None => regex_split_pieces(pattern@, text@) is None,
        },
{
    let re = regex::Regex::new(pattern).ok()?;
    Some(re.split(text).map(|piece| piece.to_string()).collect())
}

/// Compiles `pattern` with `regex::Regex::new` and returns the text of each match that
/// `Regex::find_iter` yields. The contract only names the result; `None` when the pattern
/// does not compile.
#[verifier::external_body]
pub(crate) fn regex_find_texts(pattern: &str, text: &str) -> (r: Option<Vec<String>>)
    ensures
        match r {
            Some(v) => regex_match_texts(pattern@, text@) == Some(texts(v@)),
            None => regex_match_texts(pattern@, text@) is None,
        },
{
    let re = regex::Regex::new(pattern).ok()?;
    Some(re.find_iter(text).map(|found| found.as_str().to_string()).collect())
}

/// The pattern of a rule's phrase: the escaped literal, ignoring case unless case-sensitive.
pub open spec fn rule_pattern(from: Seq<char>, case_sensitive: bool) -> Seq<char> {
    if case_sensitive {
        regex_escaped(from)
    } else {
        "(?i)"@ + regex_escaped(from)
    }
}

/// A letter, digit or underscore.
pub open spec fn word_char(c: char) -> bool {
    alnum_char(c) || c == '_'
}

/// A whole-word match needs a non-word character, or the text's edge, on this side.
pub open spec fn boundary_ok(c: Option<char>) -> bool {
    match c {
        Some(c) => !word_char(c),
        None => true,
    }
}

/// The last character seen after `s`, given the one seen before it.
pub open spec fn last_after(last: Option<char>, s: Seq<char>) -> Option<char> {
    if s.len() > 0 {
        Some(s.last())
    } else {
        last
    }
}

/// The first character of the text made of `pieces` with `matches` between them.
pub open spec fn first_char(pieces: Seq<Seq<char>>, matches: Seq<Seq<char>>) -> Option<char>
    decreases pieces.len(),
{
    if pieces.len() == 0 {
        None
    } else if pieces[0].len() > 0 {
        Some(pieces[0][0])
    } else if matches.len() == 0 {
        None
    } else if matches[0].len() > 0 {
        Some(matches[0][0])
    } else {
        first_char(pieces.drop_first(), matches.drop_first())
    }
}

/// What a match becomes: itself when a whole-word rule finds a word character beside it;
/// otherwise the rule's output, as written when the rule is case-sensitive or keeps its own
/// casing, else adapted to the casing of the match.
pub open spec fn replaced_match(
    m: Seq<char>,
    rule: WordReplacement,
    before: Option<char>,
    after: Option<char>,
) -> Seq<char> {
    if rule.whole_word && !(boundary_ok(before) && boundary_ok(after)) {
        m
    } else if rule.case_sensitive || rule.preserve_replacement_case {
        rule.to@
    } else {
        case_adapted(m, rule.to@)
    }
}

/// The text rebuilt from `pieces` with each of `matches` replaced, `last` being the source
/// character just before the first piece.
pub open spec fn stitched(
    pieces: Seq<Seq<char>>,
    matches: Seq<Seq<char>>,
    rule: WordReplacement,
    last: Option<char>,
) -> Seq<char>
    decreases matches.len(),
{
    if pieces.len() == 0 {
        seq![]
    } else if matches.len() == 0 {
        pieces[0]
    } else {
        let before = last_after(last, pieces[0]);
        let after = first_char(pieces.drop_first(), matches.drop_first());
        pieces[0] + replaced_match(matches[0], rule, before, after) + stitched(
            pieces.drop_first(),
            matches.drop_first(),
            rule,
            last_after(before, matches[0]),
        )
    }
}

/// One rule applied to `text`, and whether it deleted: a rule with an empty phrase, or whose
/// pattern does not compile, leaves the text as it is.
pub open spec fn rule_applied(text: Seq<char>, rule: WordReplacement) -> (Seq<char>, bool) {
    let pattern = rule_pattern(rule.from@, rule.case_sensitive);
    if rule.from@.len() == 0 {
        (text, false)
    } else {
        match (regex_split_pieces(pattern, text), regex_match_texts(pattern, text)) {
            (Some(ps), Some(ms)) => if ps.len() == ms.len() + 1 {
                (stitched(ps, ms, rule, None), rule.to@.len() == 0)
            } else {
                (text, rule.to@.len() == 0)
            },
            _ => (text, false),
        }
    }
}

/// The rules applied in order, and whether any of them deleted.
pub open spec fn rules_applied(text: Seq<char>, rules: Seq<WordReplacement>) -> (Seq<char>, bool)
    decreases rules.len(),
{
    if rules.len() == 0 {
        (text, false)
    } else {
        let (t, deleted) = rules_applied(text, rules.drop_last());
        let (u, d) = rule_applied(t, rules.last());
        (u, deleted || d)
    }
}

/// The regular expression for blanks stranded before closing punctuation.
pub open spec fn space_before_punct_pattern() -> Seq<char> {
    "[ \\t]+([,.;:!?)\\]}])"@
}

/// `text` with blanks before closing punctuation removed, as the regular expression
/// replacement does it; unchanged should the pattern not compile.
pub open spec fn punct_tightened(text: Seq<char>) -> Seq<char> {
    match regex_replaced(space_before_punct_pattern(), text, "$1"@) {
        Some(s) => s,
        None => text,
    }
}

/// The replacements applied to `text`: the rules in order, then, when one of them deleted,
/// blanks before punctuation removed, runs of whitespace reduced to one space, and the
/// result trimmed.
pub open spec fn replacements_applied(text: Seq<char>, rules: Seq<WordReplacement>) -> Seq<char> {
    let (t, deleted) = rules_applied(text, rules);
    if deleted {
        trim_ws(spaces_collapsed(punct_tightened(t)))
    } else {
        t
    }
}

pub(crate) fn is_word_char(c: char) -> (r: bool)
    ensures
        r == word_char(c),
{
    is_alphanumeric(c) || c == '_'
}

/// The first character of the text made of `pieces[from..]` with `matches[from..]` between.
pub(crate) fn first_char_from(pieces: &Vec<Vec<char>>, matches: &Vec<Vec<char>>, from: usize) -> (r: Option<char>)
    requires
        from <= pieces@.len(),
        pieces@.len() == matches@.len() + 1,
    ensures
        r == first_char(
            Seq::new(pieces@.len(), |i: int| pieces@[i]@).skip(from as int),
            Seq::new(matches@.len(), |i: int| matches@[i]@).skip(from as int),
        ),
{
    let ghost ps = Seq::new(pieces@.len(), |i: int| pieces@[i]@);
    let ghost ms = Seq::new(matches@.len(), |i: int| matches@[i]@);
    let mut j = from;
    while j < pieces.len()
        invariant
            from <= j <= pieces@.len(),
            pieces@.len() == matches@.len() + 1,
            ps == Seq::new(pieces@.len(), |i: int| pieces@[i]@),
            ms == Seq::new(matches@.len(), |i: int| matches@[i]@),
            first_char(ps.skip(j as int), ms.skip(j as int)) == first_char(
                ps.skip(from as int),
                ms.skip(from as int),
            ),
        decreases pieces@.len() - j,
    {
        assert(ps.skip(j as int)[0] == ps[j as int]);
        if pieces[j].len() > 0 {
            return Some(pieces[j][0]);
        }
        if j >= matches.len() {
            return None;
        }
        assert(ms.skip(j as int)[0] == ms[j as int]);
        if matches[j].len() > 0 {
            return Some(matches[j][0]);
        }
        assert(ps.skip(j as int).drop_first() =~= ps.skip(j + 1));
        assert(ms.skip(j as int).drop_first() =~= ms.skip(j + 1));
        j += 1;
    }
    assert(ps.skip(j as int).len() == 0);
    None
}

pub(crate) fn char_vecs(v: &Vec<String>) -> (r: Vec<Vec<char>>)
    ensures
        Seq::new(r@.len(), |i: int| r@[i]@) == texts(v@),
{
    let mut r: Vec<Vec<char>> = Vec::new();
    let mut i: usize = 0;
    while i < v.len()
        invariant
            i <= v@.len(),
            r@.len() == i,
            forall|k: int| 0 <= k < i ==> (#[trigger] r@[k])@ == v@[k]@,
        decreases v@.len() - i,
    {
        r.push(chars_of(v[i].as_str()));
        i += 1;
    }
    assert(Seq::new(r@.len(), |k: int| r@[k]@) =~= texts(v@));
    r
}

/// Rebuilds a text from its pieces with each match replaced by the rule.
pub fn stitch(pieces: &Vec<Vec<char>>, matches: &Vec<Vec<char>>, rule: &WordReplacement) -> (r: Vec<char>)
    requires
        pieces@.len() == matches@.len() + 1,
    ensures
        r@ == stitched(
            Seq::new(pieces@.len(), |i: int| pieces@[i]@),
            Seq::new(matches@.len(), |i: int| matches@[i]@),
            *rule,
            None,
        ),
{
    let ghost ps = Seq::new(pieces@.len(), |i: int| pieces@[i]@);
    let ghost ms = Seq::new(matches@.len(), |i: int| matches@[i]@);
    let to = chars_of(rule.to.as_str());
    let mut out: Vec<char> = Vec::new();
    let mut last: Option<char> = None;
    let mut k: usize = 0;
    assert(ps.skip(0) =~= ps);
    assert(ms.skip(0) =~= ms);
    while k < matches.len()
        invariant
            k <= matches@.len(),
            pieces@.len() == matches@.len() + 1,
            ps == Seq::new(pieces@.len(), |i: int| pieces@[i]@),
            ms == Seq::new(matches@.len(), |i: int| matches@[i]@),
            to@ == rule.to@,
            out@ + stitched(ps.skip(k as int), ms.skip(k as int), *rule, last) == stitched(
                ps,
                ms,
                *rule,
                None,
            ),
        decreases matches@.len() - k,
    {
        let ghost rest = stitched(ps.skip(k as int), ms.skip(k as int), *rule, last);
        let ghost last0 = last;
        let ghost out0 = out@;
        assert(ps.skip(k as int)[0] == ps[k as int]);
        assert(ms.skip(k as int)[0] == ms[k as int]);
        assert(ps.skip(k as int).drop_first() =~= ps.skip(k + 1));
        assert(ms.skip(k as int).drop_first() =~= ms.skip(k + 1));
        let piece = &pieces[k];
        let m = &matches[k];
        extend_chars(&mut out, piece.as_slice());
        let before = if piece.len() > 0 {
            Some(piece[piece.len() - 1])
        } else {
            last
        };
        let after = first_char_from(pieces, matches, k + 1);
        let keep = rule.whole_word && !((match before {
            Some(c) => !is_word_char(c),
            None => true,
        }) && (match after {
            Some(c) => !is_word_char(c),
            None => true,
        }));
        if keep {
            extend_chars(&mut out, m.as_slice());
        } else if rule.case_sensitive || rule.preserve_replacement_case {
            extend_chars(&mut out, to.as_slice());
        } else {
            let ms_text = string_from(m.as_slice());
            let adapted = preserve_case_pattern(ms_text.as_str(), rule.to.as_str());
            let ad = chars_of(adapted.as_str());
            extend_chars(&mut out, ad.as_slice());
        }
        last = if m.len() > 0 {
            Some(m[m.len() - 1])
        } else {
            before
        };
        proof {
            let rm = replaced_match(ms[k as int], *rule, before, after);
            assert(out@ =~= out0 + ps[k as int] + rm);
            assert(rest == ps[k as int] + rm + stitched(ps.skip(k + 1), ms.skip(k + 1), *rule, last));
            assert(out@ + stitched(ps.skip(k + 1), ms.skip(k + 1), *rule, last) =~= out0 + rest);
        }
        k += 1;
    }
    proof {
        assert(ps.skip(k as int).len() == 1);
        assert(ms.skip(k as int).len() == 0);
        assert(ps.skip(k as int)[0] == ps[k as int]);
    }
    let ghost out0 = out@;
    extend_chars(&mut out, pieces[k].as_slice());
    assert(out@ =~= out0 + ps[k as int]);
    out
}

/// The pattern of a rule's phrase, as [`rule_pattern`] defines it.
pub(crate) fn replacement_pattern(from: &str, case_sensitive: bool) -> (r: String)
    ensures
        r@ == rule_pattern(from@, case_sensitive),
{
    let escaped = regex_escape(chars_of(from).as_slice());
    if case_sensitive {
        string_from(escaped.as_slice())
    } else {
        let mut pattern = chars_of("(?i)");
        extend_chars(&mut pattern, escaped.as_slice());
        string_from(pattern.as_slice())
    }
}

/// Applies one rule, and says whether it deleted.
fn apply_rule(text: String, rule: &WordReplacement) -> (r: (String, bool))
    ensures
        (r.0@, r.1) == rule_applied(text@, *rule),
{
    let from = chars_of(rule.from.as_str());
    if from.len() == 0 {
        return (text, false);
    }
    let deletes = chars_of(rule.to.as_str()).len() == 0;
    let pattern = replacement_pattern(rule.from.as_str(), rule.case_sensitive);
    let pieces = regex_split(pattern.as_str(), text.as_str());
    let found = regex_find_texts(pattern.as_str(), text.as_str());
    match (pieces, found) {
        (Some(pieces), Some(found)) => {
            let pv = char_vecs(&pieces);
            let mv = char_vecs(&found);
            if mv.len() < pv.len() && pv.len() - mv.len() == 1 {
                let out = stitch(&pv, &mv, rule);
                (string_from(out.as_slice()), deletes)
            } else {
                (text, deletes)
            }
        },
        (pieces, found) => {
            proof {
                assert(regex_split_pieces(rule_pattern(rule.from@, rule.case_sensitive), text@) is None
                    || regex_match_texts(rule_pattern(rule.from@, rule.case_sensitive), text@) is None);
            }
            (text, false)
        },
    }
}

/// Applies the replacements in order (see [`replacements_applied`]): each rule's phrase is
/// found as an escaped literal, ignoring case unless the rule is case-sensitive; a match
/// beside a word character is kept for a whole-word rule; the output mirrors an all-caps or
/// capitalized match unless the rule is case-sensitive or keeps its own casing; and when a
/// rule deletes, the spacing it leaves behind is tidied.
pub fn apply_replacements(text: &str, replacements: &[WordReplacement]) -> (r: String)
    ensures
        r@ == replacements_applied(text@, replacements@),
{
    let mut result = string_from(chars_of(text).as_slice());
    let mut deleted_any = false;
    let mut i: usize = 0;
    assert(replacements@.take(0) =~= Seq::<WordReplacement>::empty());
    while i < replacements.len()
        invariant
            i <= replacements@.len(),
            (result@, deleted_any) == rules_applied(text@, replacements@.take(i as int)),
        decreases replacements@.len() - i,
    {
        assert(replacements@.take(i + 1).drop_last() =~= replacements@.take(i as int));
        assert(replacements@.take(i + 1).last() == replacements@[i as int]);
        let (next, deleted) = apply_rule(result, &replacements[i]);
        result = next;
        deleted_any = deleted_any || deleted;
        i += 1;
    }
    assert(replacements@.take(replacements@.len() as int) =~= replacements@);
    if deleted_any {
        let tightened = match regex_replace_all("[ \\t]+([,.;:!?)\\]}])", result.as_str(), "$1") {
            Some(t) => t,
            None => result,
        };
        let spaced = crate::text::collapse_spaces(tightened.as_str());
        let trimmed = trim_whitespace(chars_of(spaced.as_str()).as_slice());
        string_from(trimmed.as_slice())
    } else {
        result
    }
}

} // verus!
