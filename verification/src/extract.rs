//! The last stage of correction capture: turning the learnable substitutions of one
//! correction into rules. A source corrected two different ways teaches nothing; a token that
//! moved during the edit, or a source that survives anywhere in the correction, voids the
//! whole edit; equivalent rules collapse into one; and a rule that could cascade with an
//! earlier one in production order is refused with everything learned beside it.
use vstd::prelude::*;
use crate::learnable::{
    Lexicon, spelling_key, spelling_key_of, any_digit, has_digit, is_learnable_substitution, known_word, learnable, matches_entire,
    regex_matches_entire,
};
use crate::replacements::{
    apply_replacements, boundary_ok, char_vecs, first_char, first_char_from, is_word_char,
    last_after, regex_find_texts, regex_match_texts, regex_split, regex_split_pieces,
    replacements_applied, replacement_pattern, rule_applied, rule_pattern, rules_applied,
    stitched, texts,
};
use crate::learned::{candidates, has_moved_token, learned_replacement_candidates, token_moved};
use crate::settings::WordReplacement;
use crate::text::{
    alphanumeric_components, components,
    all_caps, capitalized, case_adapted, has_intentional_mixed_case, intentional_mixed_case,
    is_all_caps, is_capitalized, letters, letters_of, preserve_case_pattern,
};
use crate::unicode::{chars_eq, chars_of, string_from};

verus! {

/// A candidate rule before grouping: its source, its target, and whether the target keeps
/// its own casing.
pub open spec fn cand_views(v: Seq<(String, String, bool)>) -> Seq<(Seq<char>, Seq<char>, bool)> {
    Seq::new(v.len(), |i: int| (v[i].0@, v[i].1@, v[i].2))
}

/// A rule as plain values: source, target, whole word, case-sensitive, keeps its casing.
pub open spec fn rule_view(r: WordReplacement) -> (Seq<char>, Seq<char>, bool, bool, bool) {
    (r.from@, r.to@, r.whole_word, r.case_sensitive, r.preserve_replacement_case)
}

/// Whether a learned target keeps its own casing: it is intentionally mixed-case, adapting
/// it to the source's letters would change it, or it is a dictionary word written
/// Capitalized or in capitals.
pub open spec fn keeps_target_case(lex: Lexicon, from: Seq<char>, to: Seq<char>) -> bool {
    ||| intentional_mixed_case(to)
    ||| case_adapted(letters_of(from), letters_of(to)) != letters_of(to)
    ||| known_word(lex, to) && (capitalized(to) || all_caps(to))
}

/// Whether the learned rule for `from` -> `to` keeps the target's casing.
pub fn learned_target_presentation(lex: &Lexicon, from: &str, to: &str) -> (r: bool)
    ensures
        r == keeps_target_case(*lex, from@, to@),
{
    let f = chars_of(from);
    let t = chars_of(to);
    if has_intentional_mixed_case(t.as_slice()) {
        return true;
    }
    let fl = string_from(letters(f.as_slice()).as_slice());
    let tl = letters(t.as_slice());
    let adapted = chars_of(preserve_case_pattern(fl.as_str(), string_from(tl.as_slice()).as_str()).as_str());
    if !chars_eq(adapted.as_slice(), tl.as_slice()) {
        return true;
    }
    lex.is_known_word(t.as_slice()) && (is_capitalized(t.as_slice()) || is_all_caps(t.as_slice()))
}

/// The pattern a candidate's source is matched with: case-sensitive exactly when its target
/// holds a digit.
pub open spec fn source_pattern(c: Seq<(Seq<char>, Seq<char>, bool)>, i: int) -> Seq<char> {
    rule_pattern(c[i].0, has_digit(c[i].1))
}

/// Whether two candidates' sources match each other in production.
pub open spec fn equivalent_sources(c: Seq<(Seq<char>, Seq<char>, bool)>, i: int, j: int) -> bool {
    matches_entire(source_pattern(c, i), c[j].0) && matches_entire(source_pattern(c, j), c[i].0)
}

/// Whether a candidate's source is corrected to another target elsewhere in the edit.
pub open spec fn conflicting(c: Seq<(Seq<char>, Seq<char>, bool)>, i: int) -> bool {
    exists|j: int| 0 <= j < c.len() && j != i && #[trigger] equivalent_sources(c, i, j) && c[i].1 != c[j].1
}

/// The casing flags after visiting the pair `(l, r)`: two candidates with equivalent sources
/// and the same target both keep the target's casing when either does.
pub open spec fn flags_after_pair(c: Seq<(Seq<char>, Seq<char>, bool)>, flags: Seq<bool>, l: int, r: int) -> Seq<bool> {
    if equivalent_sources(c, l, r) && c[l].1 == c[r].1 {
        let b = flags[l] || flags[r];
        flags.update(l, b).update(r, b)
    } else {
        flags
    }
}

/// The casing flags after visiting, in order, every pair from `(l, r)` on.
pub open spec fn merged_flags(c: Seq<(Seq<char>, Seq<char>, bool)>, flags: Seq<bool>, l: int, r: int) -> Seq<bool>
    decreases c.len() - l, c.len() - r,
{
    if l < 0 || l >= c.len() {
        flags
    } else if r >= c.len() || r <= l {
        merged_flags(c, flags, l + 1, l + 2)
    } else {
        merged_flags(c, flags_after_pair(c, flags, l, r), l, r + 1)
    }
}

/// The candidates' own casing flags.
pub open spec fn own_flags(c: Seq<(Seq<char>, Seq<char>, bool)>) -> Seq<bool> {
    Seq::new(c.len(), |i: int| c[i].2)
}

/// Whether a whole-word rule leaves `text` unchanged when applied alone.
pub open spec fn survives(text: Seq<char>, from: Seq<char>, to: Seq<char>, case_sensitive: bool, keep_case: bool) -> bool {
    forall|r: WordReplacement|
        r.from@ == from && r.to@ == to && r.whole_word && r.case_sensitive == case_sensitive
            && r.preserve_replacement_case == keep_case ==> #[trigger] replacements_applied(text, seq![r]) == text
}

proof fn lemma_stitched_same(ps: Seq<Seq<char>>, ms: Seq<Seq<char>>, a: WordReplacement, b: WordReplacement, last: Option<char>)
    requires
        rule_view(a) == rule_view(b),
    ensures
        stitched(ps, ms, a, last) == stitched(ps, ms, b, last),
    decreases ms.len(),
{
    if ps.len() > 0 && ms.len() > 0 {
        let before = last_after(last, ps[0]);
        lemma_stitched_same(ps.drop_first(), ms.drop_first(), a, b, last_after(before, ms[0]));
    }
}

proof fn lemma_applied_same(text: Seq<char>, a: WordReplacement, b: WordReplacement)
    requires
        rule_view(a) == rule_view(b),
    ensures
        replacements_applied(text, seq![a]) == replacements_applied(text, seq![b]),
{
    assert(seq![a].drop_last() =~= Seq::<WordReplacement>::empty());
    assert(seq![b].drop_last() =~= Seq::<WordReplacement>::empty());
    let pattern = rule_pattern(a.from@, a.case_sensitive);
    match (regex_split_pieces(pattern, text), regex_match_texts(pattern, text)) {
        (Some(ps), Some(ms)) => {
            lemma_stitched_same(ps, ms, a, b, None);
        },
        _ => {},
    }
    assert(rule_applied(text, a) == rule_applied(text, b));
    assert(rules_applied(text, Seq::<WordReplacement>::empty()) == (text, false));
    assert(seq![a].last() == a);
    assert(seq![b].last() == b);
    assert(rules_applied(text, seq![a]) == rules_applied(text, seq![b]));
}

/// Whether a whole-word rule leaves `text` unchanged when applied alone.
fn survives_alone(text: &str, from: &str, to: &str, case_sensitive: bool, keep_case: bool) -> (r: bool)
    ensures
        r == survives(text@, from@, to@, case_sensitive, keep_case),
{
    let rule = WordReplacement {
        from: string_from(chars_of(from).as_slice()),
        to: string_from(chars_of(to).as_slice()),
        whole_word: true,
        case_sensitive,
        preserve_replacement_case: keep_case,
    };
    let ghost r0 = rule;
    let rules = vec![rule];
    assert(rules@ =~= seq![r0]);
    let out = apply_replacements(text, rules.as_slice());
    let same = chars_eq(chars_of(out.as_str()).as_slice(), chars_of(text).as_slice());
    proof {
        assert forall|r: WordReplacement|
            r.from@ == from@ && r.to@ == to@ && r.whole_word && r.case_sensitive == case_sensitive
                && r.preserve_replacement_case == keep_case implies #[trigger] replacements_applied(text@, seq![r])
            == replacements_applied(text@, seq![r0]) by {
            lemma_applied_same(text@, r, r0);
        }
    }
    same
}

/// The learned candidates of an edit's substitutions: each pair with whether its target
/// keeps its own casing.
pub open spec fn presented(lex: Lexicon, ps: Seq<(Seq<char>, Seq<char>)>) -> Seq<(Seq<char>, Seq<char>, bool)> {
    Seq::new(ps.len(), |i: int| (ps[i].0, ps[i].1, keeps_target_case(lex, ps[i].0, ps[i].1)))
}

/// Whether every substitution of an edit is learnable.
pub open spec fn all_learnable(lex: Lexicon, close: Seq<(String, String)>, ps: Seq<(Seq<char>, Seq<char>)>) -> bool {
    forall|i: int| 0 <= i < ps.len() ==> learnable(lex, close, (#[trigger] ps[i]).0, ps[i].1)
}

/// Whether no candidate's source survives in the corrected text.
pub open spec fn all_survive(c: Seq<(Seq<char>, Seq<char>, bool)>, text: Seq<char>) -> bool {
    forall|i: int| 0 <= i < c.len() ==> survives(text, (#[trigger] c[i]).0, c[i].1, has_digit(c[i].1), c[i].2)
}

/// The rule a candidate becomes with the casing flag `keep`.
pub open spec fn rule_of(c: Seq<(Seq<char>, Seq<char>, bool)>, i: int, keep: bool) -> (Seq<char>, Seq<char>, bool, bool, bool) {
    (c[i].0, c[i].1, true, has_digit(c[i].1), keep)
}

/// Whether an earlier kept candidate already gives the rule of candidate `i`.
pub open spec fn already_kept(c: Seq<(Seq<char>, Seq<char>, bool)>, m: Seq<bool>, prev: Seq<int>, i: int) -> bool {
    exists|t: int|
        0 <= t < prev.len() && #[trigger] equivalent_sources(c, i, prev[t]) && c[prev[t]].1 == c[i].1 && m[prev[t]]
            == m[i]
}

/// The candidates among the first `k` that become rules: not conflicting, not surviving in
/// the text with their merged casing flag, and not already given by an earlier one.
pub open spec fn kept(c: Seq<(Seq<char>, Seq<char>, bool)>, m: Seq<bool>, text: Seq<char>, k: int) -> Seq<int>
    decreases k,
{
    if k <= 0 {
        seq![]
    } else {
        let prev = kept(c, m, text, k - 1);
        let i = k - 1;
        if conflicting(c, i) || !survives(text, c[i].0, c[i].1, has_digit(c[i].1), m[i]) || already_kept(
            c,
            m,
            prev,
            i,
        ) {
            prev
        } else {
            prev.push(i)
        }
    }
}

/// The rules an edit's candidates give, before the cascade check.
pub open spec fn grouped_rules(c: Seq<(Seq<char>, Seq<char>, bool)>, text: Seq<char>) -> Seq<(Seq<char>, Seq<char>, bool, bool, bool)> {
    let m = merged_flags(c, own_flags(c), 0, 1);
    let ks = kept(c, m, text, c.len() as int);
    Seq::new(ks.len(), |t: int| rule_of(c, ks[t], m[ks[t]]))
}

/// The production patterns of the candidates' sources.
fn source_patterns(c: &Vec<(String, String, bool)>) -> (r: Vec<String>)
    ensures
        r@.len() == c@.len(),
        forall|i: int| 0 <= i < c@.len() ==> (#[trigger] r@[i])@ == source_pattern(cand_views(c@), i),
{
    let mut out: Vec<String> = Vec::new();
    let mut i: usize = 0;
    while i < c.len()
        invariant
            i <= c@.len(),
            out@.len() == i,
            forall|j: int| 0 <= j < i ==> (#[trigger] out@[j])@ == source_pattern(cand_views(c@), j),
        decreases c@.len() - i,
    {
        let digit = any_digit(chars_of(c[i].1.as_str()).as_slice());
        out.push(replacement_pattern(c[i].0.as_str(), digit));
        i += 1;
    }
    out
}

/// Which pairs of candidates have equivalent sources.
fn equivalence_matrix(c: &Vec<(String, String, bool)>) -> (r: Vec<Vec<bool>>)
    ensures
        r@.len() == c@.len(),
        forall|i: int| 0 <= i < c@.len() ==> (#[trigger] r@[i])@.len() == c@.len(),
        forall|i: int, j: int|
            0 <= i < c@.len() && 0 <= j < c@.len() ==> r@[i]@[j] == equivalent_sources(cand_views(c@), i, j),
{
    let pats = source_patterns(c);
    let n = c.len();
    let mut out: Vec<Vec<bool>> = Vec::new();
    let mut i: usize = 0;
    while i < n
        invariant
            n == c@.len() == pats@.len(),
            forall|k: int| 0 <= k < n ==> (#[trigger] pats@[k])@ == source_pattern(cand_views(c@), k),
            i <= n,
            out@.len() == i,
            forall|a: int| 0 <= a < i ==> (#[trigger] out@[a])@.len() == n,
            forall|a: int, b: int|
                0 <= a < i && 0 <= b < n ==> out@[a]@[b] == equivalent_sources(cand_views(c@), a, b),
        decreases n - i,
    {
        let mut row: Vec<bool> = Vec::new();
        let mut j: usize = 0;
        while j < n
            invariant
                n == c@.len() == pats@.len(),
                forall|k: int| 0 <= k < n ==> (#[trigger] pats@[k])@ == source_pattern(cand_views(c@), k),
                i < n,
                j <= n,
                row@.len() == j,
                forall|b: int| 0 <= b < j ==> row@[b] == equivalent_sources(cand_views(c@), i as int, b),
            decreases n - j,
        {
            let e = regex_matches_entire(pats[i].as_str(), c[j].0.as_str()) && regex_matches_entire(
                pats[j].as_str(),
                c[i].0.as_str(),
            );
            row.push(e);
            j += 1;
        }
        out.push(row);
        i += 1;
    }
    out
}

/// Which candidates have a source corrected to another target elsewhere.
fn conflicts(c: &Vec<(String, String, bool)>, eq: &Vec<Vec<bool>>) -> (r: Vec<bool>)
    requires
        eq@.len() == c@.len(),
        forall|i: int| 0 <= i < c@.len() ==> (#[trigger] eq@[i])@.len() == c@.len(),
        forall|i: int, j: int|
            0 <= i < c@.len() && 0 <= j < c@.len() ==> eq@[i]@[j] == equivalent_sources(cand_views(c@), i, j),
    ensures
        r@.len() == c@.len(),
        forall|i: int| 0 <= i < c@.len() ==> r@[i] == conflicting(cand_views(c@), i),
{
    let ghost cv = cand_views(c@);
    let n = c.len();
    let mut out: Vec<bool> = Vec::new();
    let mut i: usize = 0;
    while i < n
        invariant
            n == c@.len() == eq@.len(),
            cv == cand_views(c@),
            forall|a: int| 0 <= a < n ==> (#[trigger] eq@[a])@.len() == n,
            forall|a: int, b: int| 0 <= a < n && 0 <= b < n ==> eq@[a]@[b] == equivalent_sources(cv, a, b),
            i <= n,
            out@.len() == i,
            forall|a: int| 0 <= a < i ==> out@[a] == conflicting(cv, a),
        decreases n - i,
    {
        let mut found = false;
        let mut j: usize = 0;
        while j < n
            invariant
                n == c@.len() == eq@.len(),
                cv == cand_views(c@),
                forall|a: int| 0 <= a < n ==> (#[trigger] eq@[a])@.len() == n,
                forall|a: int, b: int| 0 <= a < n && 0 <= b < n ==> eq@[a]@[b] == equivalent_sources(cv, a, b),
                i < n,
                j <= n,
                found == exists|b: int| 0 <= b < j && b != i && #[trigger] equivalent_sources(cv, i as int, b)
                    && cv[i as int].1 != cv[b].1,
            decreases n - j,
        {
            if j != i && eq[i][j] && !chars_eq(chars_of(c[i].1.as_str()).as_slice(), chars_of(c[j].1.as_str()).as_slice()) {
                assert(equivalent_sources(cv, i as int, j as int) && cv[i as int].1 != cv[j as int].1);
                found = true;
            }
            j += 1;
        }
        out.push(found);
        i += 1;
    }
    out
}

/// The candidates' casing flags after merging those of equivalent sources with one target.
fn merge_flags(c: &Vec<(String, String, bool)>, eq: &Vec<Vec<bool>>) -> (r: Vec<bool>)
    requires
        eq@.len() == c@.len(),
        forall|i: int| 0 <= i < c@.len() ==> (#[trigger] eq@[i])@.len() == c@.len(),
        forall|i: int, j: int|
            0 <= i < c@.len() && 0 <= j < c@.len() ==> eq@[i]@[j] == equivalent_sources(cand_views(c@), i, j),
    ensures
        r@ == merged_flags(cand_views(c@), own_flags(cand_views(c@)), 0, 1),
        r@.len() == c@.len(),
{
    let ghost cv = cand_views(c@);
    let ghost goal = merged_flags(cv, own_flags(cv), 0, 1);
    let n = c.len();
    let mut flags: Vec<bool> = Vec::new();
    let mut k: usize = 0;
    while k < n
        invariant
            n == c@.len(),
            cv == cand_views(c@),
            k <= n,
            flags@ == own_flags(cv).take(k as int),
        decreases n - k,
    {
        flags.push(c[k].2);
        k += 1;
        assert(flags@ =~= own_flags(cv).take(k as int));
    }
    assert(flags@ =~= own_flags(cv));
    if n == 0 {
        return flags;
    }
    let mut l: usize = 0;
    while l < n
        invariant
            n == c@.len() == eq@.len(),
            cv == cand_views(c@),
            forall|a: int| 0 <= a < n ==> (#[trigger] eq@[a])@.len() == n,
            forall|a: int, b: int| 0 <= a < n && 0 <= b < n ==> eq@[a]@[b] == equivalent_sources(cv, a, b),
            l <= n,
            flags@.len() == n,
            goal == merged_flags(cv, own_flags(cv), 0, 1),
            l < n ==> merged_flags(cv, flags@, l as int, l + 1) == goal,
            l == n ==> flags@ == goal,
        decreases n - l,
    {
        let mut r: usize = l + 1;
        while r < n
            invariant
                n == c@.len() == eq@.len(),
                cv == cand_views(c@),
                forall|a: int| 0 <= a < n ==> (#[trigger] eq@[a])@.len() == n,
                forall|a: int, b: int| 0 <= a < n && 0 <= b < n ==> eq@[a]@[b] == equivalent_sources(cv, a, b),
                l < n,
                l + 1 <= r <= n,
                flags@.len() == n,
                merged_flags(cv, flags@, l as int, r as int) == goal,
            decreases n - r,
        {
            let ghost before = flags@;
            if eq[l][r] && chars_eq(chars_of(c[l].1.as_str()).as_slice(), chars_of(c[r].1.as_str()).as_slice()) {
                let b = flags[l] || flags[r];
                flags.set(l, b);
                flags.set(r, b);
            }
            assert(flags@ =~= flags_after_pair(cv, before, l as int, r as int));
            r += 1;
        }
        assert(merged_flags(cv, flags@, l as int, r as int) == merged_flags(cv, flags@, l + 1, l + 2));
        if l + 1 == n {
            assert(merged_flags(cv, flags@, l + 1, l + 2) == flags@);
        }
        l += 1;
    }
    flags
}

// ---------------------------------------------------------------------------
// Matching as production does it.
// ---------------------------------------------------------------------------

/// Whether one of the matches, the text being `ps` with `ms` between, has a non-word
/// character or an edge of the text on both sides; `last` is the character before `ps[0]`.
pub open spec fn bounded_match(ps: Seq<Seq<char>>, ms: Seq<Seq<char>>, last: Option<char>) -> bool
    decreases ms.len(),
{
    if ps.len() == 0 || ms.len() == 0 {
        false
    } else {
        let before = last_after(last, ps[0]);
        let after = first_char(ps.drop_first(), ms.drop_first());
        (boundary_ok(before) && boundary_ok(after)) || bounded_match(
            ps.drop_first(),
            ms.drop_first(),
            last_after(before, ms[0]),
        )
    }
}

/// Whether `pattern` has a match in `text` that a rule would act on: any match, or for a
/// whole-word rule one standing on word boundaries. A pattern that does not compile has none.
pub open spec fn has_replacement_match(pattern: Seq<char>, text: Seq<char>, whole_word: bool) -> bool {
    if !whole_word {
        match regex_match_texts(pattern, text) {
            Some(ms) => ms.len() > 0,
            None => false,
        }
    } else {
        match (regex_split_pieces(pattern, text), regex_match_texts(pattern, text)) {
            (Some(ps), Some(ms)) => ps.len() == ms.len() + 1 && bounded_match(ps, ms, None),
            _ => false,
        }
    }
}

fn any_bounded(pieces: &Vec<Vec<char>>, matches: &Vec<Vec<char>>) -> (r: bool)
    requires
        pieces@.len() == matches@.len() + 1,
    ensures
        r == bounded_match(
            Seq::new(pieces@.len(), |i: int| pieces@[i]@),
            Seq::new(matches@.len(), |i: int| matches@[i]@),
            None,
        ),
{
    let ghost ps = Seq::new(pieces@.len(), |i: int| pieces@[i]@);
    let ghost ms = Seq::new(matches@.len(), |i: int| matches@[i]@);
    let mut last: Option<char> = None;
    let mut k: usize = 0;
    assert(ps.skip(0) =~= ps);
    assert(ms.skip(0) =~= ms);
    while k < matches.len()
        invariant
            k <= matches@.len(),
            pieces@.len() == matches@.len() + 1,
            ps == Seq::new(pieces@.len(), |i: int| pieces@[i]@),
            ms == Seq::new(matches@.len(), |i: int| matches@[i]@),
            bounded_match(ps.skip(k as int), ms.skip(k as int), last) == bounded_match(ps, ms, None),
        decreases matches@.len() - k,
    {
        assert(ps.skip(k as int)[0] == ps[k as int]);
        assert(ms.skip(k as int)[0] == ms[k as int]);
        assert(ps.skip(k as int).drop_first() =~= ps.skip(k + 1));
        assert(ms.skip(k as int).drop_first() =~= ms.skip(k + 1));
        let piece = &pieces[k];
        let m = &matches[k];
        let before = if piece.len() > 0 {
            Some(piece[piece.len() - 1])
        } else {
            last
        };
        let after = first_char_from(pieces, matches, k + 1);
        let before_ok = match before {
            Some(c) => !is_word_char(c),
            None => true,
        };
        let after_ok = match after {
            Some(c) => !is_word_char(c),
            None => true,
        };
        if before_ok && after_ok {
            return true;
        }
        last = if m.len() > 0 {
            Some(m[m.len() - 1])
        } else {
            before
        };
        k += 1;
    }
    assert(ms.skip(k as int).len() == 0);
    false
}

/// Whether `pattern` has a match in `text` that a rule with `whole_word` would act on.
fn replacement_match(pattern: &str, text: &str, whole_word: bool) -> (r: bool)
    ensures
        r == has_replacement_match(pattern@, text@, whole_word),
{
    if !whole_word {
        return match regex_find_texts(pattern, text) {
            Some(found) => found.len() > 0,
            None => false,
        };
    }
    let pieces = match regex_split(pattern, text) {
        Some(v) => v,
        None => return false,
    };
    let found = match regex_find_texts(pattern, text) {
        Some(v) => v,
        None => return false,
    };
    if pieces.len() == 0 || pieces.len() - 1 != found.len() {
        return false;
    }
    let pv = char_vecs(&pieces);
    let mv = char_vecs(&found);
    assert(Seq::new(pv@.len(), |i: int| pv@[i]@).len() == texts(pieces@).len());
    assert(Seq::new(mv@.len(), |i: int| mv@[i]@).len() == texts(found@).len());
    any_bounded(&pv, &mv)
}

/// Whether the later source, split at character `p`, is completed by the earlier target's
/// context: its tail before the source's second part, or the source's first part before the
/// target's head. Each side of the target keeps one character more than the source has.
pub open spec fn split_completes(target: Seq<char>, source: Seq<char>, pattern: Seq<char>, whole_word: bool, p: int) -> bool {
    let context: int = source.len() as int + 1;
    let tail = if target.len() > context { target.skip(target.len() - context) } else { target };
    let head = if target.len() > context { target.take(context) } else { target };
    has_replacement_match(pattern, tail + source.skip(p), whole_word) || has_replacement_match(
        pattern,
        source.take(p) + head,
        whole_word,
    )
}

/// Whether context on either side of `target` can complete `source` across their join.
pub open spec fn partial_overlap(target: Seq<char>, source: Seq<char>, pattern: Seq<char>, whole_word: bool) -> bool {
    exists|p: int| 1 <= p < source.len() && #[trigger] split_completes(target, source, pattern, whole_word, p)
}

fn can_complete(target: &[char], source: &[char], pattern: &str, whole_word: bool) -> (r: bool)
    ensures
        r == partial_overlap(target@, source@, pattern@, whole_word),
{
    let n = source.len();
    let t = target.len();
    let context: usize = if n < usize::MAX { n + 1 } else { n };
    let tail = if t > context { crate::unicode::subrange_chars(target, t - context, t) } else { crate::unicode::copy_chars(target) };
    let head = if t > context { crate::unicode::subrange_chars(target, 0, context) } else { crate::unicode::copy_chars(target) };
    let mut p: usize = 1;
    while p < n
        invariant
            n == source@.len(),
            t == target@.len(),
            n < usize::MAX ==> context == n + 1,
            tail@ == (if t > n + 1 { target@.skip(t - (n + 1)) } else { target@ }),
            head@ == (if t > n + 1 { target@.take(n + 1) } else { target@ }),
            1 <= p,
            forall|q: int| 1 <= q < p ==> !#[trigger] split_completes(target@, source@, pattern@, whole_word, q),
        decreases n - p,
    {
        let mut first = copy_of(tail.as_slice());
        crate::unicode::extend_chars(&mut first, crate::unicode::subrange_chars(source, p, n).as_slice());
        let mut second = crate::unicode::subrange_chars(source, 0, p);
        crate::unicode::extend_chars(&mut second, head.as_slice());
        assert(first@ =~= tail@ + source@.skip(p as int));
        assert(second@ =~= source@.take(p as int) + head@);
        if replacement_match(pattern, string_from(first.as_slice()).as_str(), whole_word) || replacement_match(
            pattern,
            string_from(second.as_slice()).as_str(),
            whole_word,
        ) {
            assert(split_completes(target@, source@, pattern@, whole_word, p as int));
            return true;
        }
        p += 1;
    }
    false
}

fn copy_of(s: &[char]) -> (r: Vec<char>)
    ensures
        r@ == s@,
{
    crate::unicode::copy_chars(s)
}

// ---------------------------------------------------------------------------
// Cascades between rules in production order.
// ---------------------------------------------------------------------------

/// Every target a rule can emit: its own target, and for a case-insensitive rule that does
/// not keep its casing also the target adapted to a Capitalized and to an ALL-CAPS match.
pub open spec fn target_variants(r: (Seq<char>, Seq<char>, bool, bool, bool)) -> Seq<Seq<char>> {
    let base = seq![r.1];
    if !r.3 && !r.4 {
        let v1 = case_adapted("Xx"@, r.1);
        let s1 = if base.contains(v1) { base } else { base.push(v1) };
        let v2 = case_adapted("XX"@, r.1);
        if s1.contains(v2) { s1 } else { s1.push(v2) }
    } else {
        base
    }
}

fn contains_chars(v: &Vec<Vec<char>>, x: &[char]) -> (r: bool)
    ensures
        r == crate::unicode::views(v@).contains(x@),
{
    let ghost vv = crate::unicode::views(v@);
    let mut i: usize = 0;
    while i < v.len()
        invariant
            vv == crate::unicode::views(v@),
            i <= v@.len(),
            forall|j: int| 0 <= j < i ==> vv[j] != x@,
        decreases v@.len() - i,
    {
        if chars_eq(v[i].as_slice(), x) {
            assert(vv[i as int] == x@);
            return true;
        }
        i += 1;
    }
    false
}

fn variants_of(r: &WordReplacement) -> (v: Vec<Vec<char>>)
    ensures
        crate::unicode::views(v@) == target_variants(rule_view(*r)),
        v@.len() <= 3,
{
    let mut out: Vec<Vec<char>> = Vec::new();
    out.push(chars_of(r.to.as_str()));
    let ghost base = seq![r.to@];
    assert(crate::unicode::views(out@) =~= base);
    if !r.case_sensitive && !r.preserve_replacement_case {
        let v1 = chars_of(preserve_case_pattern("Xx", r.to.as_str()).as_str());
        assert(v1@ == case_adapted("Xx"@, r.to@));
        let ghost s1 = if base.contains(v1@) { base } else { base.push(v1@) };
        if !contains_chars(&out, v1.as_slice()) {
            out.push(v1);
            assert(crate::unicode::views(out@) =~= base.push(v1@));
        }
        assert(crate::unicode::views(out@) == s1);
        let v2 = chars_of(preserve_case_pattern("XX", r.to.as_str()).as_str());
        assert(v2@ == case_adapted("XX"@, r.to@));
        if !contains_chars(&out, v2.as_slice()) {
            out.push(v2);
            assert(crate::unicode::views(out@) =~= s1.push(v2@));
        }
    }
    out
}

/// Whether a target of the earlier rule lets the later rule cascade: the later source
/// matches inside it, it matches inside the later source (with the later rule's case
/// behavior), or context around it can complete the later source.
pub open spec fn target_cascades(
    target: Seq<char>,
    e: (Seq<char>, Seq<char>, bool, bool, bool),
    l: (Seq<char>, Seq<char>, bool, bool, bool),
) -> bool {
    let lp = rule_pattern(l.0, l.3);
    ||| has_replacement_match(lp, target, l.2)
    ||| has_replacement_match(rule_pattern(target, l.3), l.0, e.2)
    ||| partial_overlap(target, l.0, lp, l.2)
}

/// Whether the later rule `l` can interact with the earlier rule `e`: either source matches
/// inside the other, context can complete either source around the other, or a target of
/// the earlier rule cascades into the later one.
pub open spec fn pair_cascades(e: (Seq<char>, Seq<char>, bool, bool, bool), l: (Seq<char>, Seq<char>, bool, bool, bool)) -> bool {
    let lp = rule_pattern(l.0, l.3);
    let ep = rule_pattern(e.0, e.3);
    let vs = target_variants(e);
    ||| has_replacement_match(ep, l.0, e.2)
    ||| has_replacement_match(lp, e.0, l.2)
    ||| partial_overlap(e.0, l.0, lp, l.2)
    ||| partial_overlap(l.0, e.0, ep, e.2)
    ||| exists|t: int| 0 <= t < vs.len() && #[trigger] target_cascades(vs[t], e, l)
}

fn cascades(e: &WordReplacement, l: &WordReplacement) -> (r: bool)
    ensures
        r == pair_cascades(rule_view(*e), rule_view(*l)),
{
    let ghost ev = rule_view(*e);
    let ghost lv = rule_view(*l);
    let lp = replacement_pattern(l.from.as_str(), l.case_sensitive);
    let ep = replacement_pattern(e.from.as_str(), e.case_sensitive);
    let lf = chars_of(l.from.as_str());
    let ef = chars_of(e.from.as_str());
    if replacement_match(ep.as_str(), l.from.as_str(), e.whole_word) || replacement_match(
        lp.as_str(),
        e.from.as_str(),
        l.whole_word,
    ) || can_complete(ef.as_slice(), lf.as_slice(), lp.as_str(), l.whole_word) || can_complete(
        lf.as_slice(),
        ef.as_slice(),
        ep.as_str(),
        e.whole_word,
    ) {
        return true;
    }
    let vs = variants_of(e);
    let ghost vv = crate::unicode::views(vs@);
    let mut t: usize = 0;
    while t < vs.len()
        invariant
            vv == crate::unicode::views(vs@),
            vv == target_variants(ev),
            ev == rule_view(*e),
            lv == rule_view(*l),
            lp@ == rule_pattern(lv.0, lv.3),
            lf@ == lv.0,
            t <= vs@.len(),
            forall|k: int| 0 <= k < t ==> !#[trigger] target_cascades(vv[k], ev, lv),
        decreases vs@.len() - t,
    {
        assert(vv[t as int] == vs@[t as int]@);
        let target = string_from(vs[t].as_slice());
        let tp = replacement_pattern(target.as_str(), l.case_sensitive);
        if replacement_match(lp.as_str(), target.as_str(), l.whole_word) || replacement_match(
            tp.as_str(),
            l.from.as_str(),
            e.whole_word,
        ) || can_complete(vs[t].as_slice(), lf.as_slice(), lp.as_str(), l.whole_word) {
            assert(target_cascades(vv[t as int], ev, lv));
            return true;
        }
        t += 1;
    }
    false
}

/// The splits of a rule's source that partial-overlap checks try.
pub open spec fn splits(r: (Seq<char>, Seq<char>, bool, bool, bool)) -> nat {
    if r.0.len() > 0 { (r.0.len() - 1) as nat } else { 0 }
}

/// The matching work of checking the later rule `l` against the earlier rule `e`: two
/// containment searches and two searches per split in both source directions, and for each
/// target of `e` one search and two per split of the later source.
pub open spec fn pair_steps(e: (Seq<char>, Seq<char>, bool, bool, bool), l: (Seq<char>, Seq<char>, bool, bool, bool)) -> nat {
    (splits(l) + splits(e)) * 2 + 2 + target_variants(e).len() * (splits(l) * 2 + 2)
}

/// The work of checking rule `l` against the earlier rules from `e` on.
pub open spec fn row_steps(comb: Seq<(Seq<char>, Seq<char>, bool, bool, bool)>, l: int, e: int) -> nat
    decreases l - e,
{
    if e < 0 || e >= l || l >= comb.len() {
        0
    } else {
        pair_steps(comb[e], comb[l]) + row_steps(comb, l, e + 1)
    }
}

/// The work of checking every rule from `l` on against the rules before it.
pub open spec fn steps_from(comb: Seq<(Seq<char>, Seq<char>, bool, bool, bool)>, l: int) -> nat
    decreases comb.len() - l,
{
    if l < 0 || l >= comb.len() {
        0
    } else {
        row_steps(comb, l, 0) + steps_from(comb, l + 1)
    }
}

/// Most matching work the cascade check may take.
pub const MAX_CASCADE_MATCH_STEPS: u64 = 100000;

/// Most rule pairs the cascade check may compare.
pub const MAX_CASCADE_INTERACTIONS: usize = 4096;

/// The rules as plain values.
pub open spec fn rule_views(v: Seq<WordReplacement>) -> Seq<(Seq<char>, Seq<char>, bool, bool, bool)> {
    Seq::new(v.len(), |i: int| rule_view(v[i]))
}

fn splits_of(r: &WordReplacement) -> (n: u64)
    ensures
        n == splits(rule_view(*r)),
{
    let k = chars_of(r.from.as_str()).len();
    if k > 0 { (k - 1) as u64 } else { 0 }
}

/// Whether checking every rule from `p0` on against the rules before it stays within the
/// matching budget.
fn steps_within(comb: &Vec<WordReplacement>, p0: usize) -> (r: bool)
    ensures
        r == (steps_from(rule_views(comb@), p0 as int) <= MAX_CASCADE_MATCH_STEPS),
{
    let ghost cv = rule_views(comb@);
    let ghost total = steps_from(cv, p0 as int);
    let n = comb.len();
    let mut acc: u64 = 0;
    let mut l: usize = p0;
    while l < n
        invariant
            n == comb@.len() == cv.len(),
            cv == rule_views(comb@),
            total == steps_from(cv, p0 as int),
            p0 <= l,
            acc <= MAX_CASCADE_MATCH_STEPS,
            acc + steps_from(cv, l as int) == total,
        decreases n - l,
    {
        let ls = splits_of(&comb[l]);
        let mut e: usize = 0;
        while e < l
            invariant
                n == comb@.len() == cv.len(),
                cv == rule_views(comb@),
                total == steps_from(cv, p0 as int),
                l < n,
                e <= l,
                ls == splits(cv[l as int]),
                acc <= MAX_CASCADE_MATCH_STEPS,
                acc + row_steps(cv, l as int, e as int) + steps_from(cv, l + 1) == total,
            decreases l - e,
        {
            let es = splits_of(&comb[e]);
            let vn = variants_of(&comb[e]).len() as u64;
            assert(cv[e as int] == rule_view(comb@[e as int]));
            assert(vn == target_variants(cv[e as int]).len());
            let ghost y: int = ls * 2 + 2;
            assert(vn * y <= 3 * y) by (nonlinear_arith)
                requires
                    vn <= 3,
                    y >= 0,
            ;
            let step = (ls as u128 + es as u128) * 2 + 2 + vn as u128 * (ls as u128 * 2 + 2);
            assert(step == pair_steps(cv[e as int], cv[l as int]));
            if acc as u128 + step > MAX_CASCADE_MATCH_STEPS as u128 {
                return false;
            }
            acc = acc + step as u64;
            e += 1;
        }
        l += 1;
    }
    true
}

/// Whether no rule from `p0` on can cascade with a rule before it.
pub open spec fn cascade_free(comb: Seq<(Seq<char>, Seq<char>, bool, bool, bool)>, p0: int) -> bool {
    forall|l: int, e: int| p0 <= l < comb.len() && 0 <= e < l ==> !#[trigger] pair_cascades(comb[e], comb[l])
}

fn no_cascades(comb: &Vec<WordReplacement>, p0: usize) -> (r: bool)
    ensures
        r == cascade_free(rule_views(comb@), p0 as int),
{
    let ghost cv = rule_views(comb@);
    let n = comb.len();
    let mut l: usize = p0;
    while l < n
        invariant
            n == comb@.len() == cv.len(),
            cv == rule_views(comb@),
            p0 <= l,
            forall|a: int, b: int| p0 <= a < l && 0 <= b < a ==> !#[trigger] pair_cascades(cv[b], cv[a]),
        decreases n - l,
    {
        let mut e: usize = 0;
        while e < l
            invariant
                n == comb@.len() == cv.len(),
                cv == rule_views(comb@),
                p0 <= l < n,
                e <= l,
                forall|a: int, b: int| p0 <= a < l && 0 <= b < a ==> !#[trigger] pair_cascades(cv[b], cv[a]),
                forall|b: int| 0 <= b < e ==> !#[trigger] pair_cascades(cv[b], cv[l as int]),
            decreases l - e,
        {
            if cascades(&comb[e], &comb[l]) {
                assert(pair_cascades(cv[e as int], cv[l as int]));
                return false;
            }
            e += 1;
        }
        l += 1;
    }
    true
}

// ---------------------------------------------------------------------------
// From substitutions to rules.
// ---------------------------------------------------------------------------

/// Positions as integers.
pub open spec fn positions(v: Seq<usize>) -> Seq<int> {
    Seq::new(v.len(), |t: int| v[t] as int)
}

proof fn lemma_kept_bound(c: Seq<(Seq<char>, Seq<char>, bool)>, m: Seq<bool>, text: Seq<char>, k: int)
    ensures
        kept(c, m, text, k).len() <= if k > 0 { k } else { 0 },
    decreases k,
{
    if k > 0 {
        lemma_kept_bound(c, m, text, k - 1);
    }
}

fn copy_string(s: &String) -> (r: String)
    ensures
        r@ == s@,
{
    string_from(chars_of(s.as_str()).as_slice())
}

fn copy_rule(r: &WordReplacement) -> (c: WordReplacement)
    ensures
        rule_view(c) == rule_view(*r),
{
    WordReplacement {
        from: copy_string(&r.from),
        to: copy_string(&r.to),
        whole_word: r.whole_word,
        case_sensitive: r.case_sensitive,
        preserve_replacement_case: r.preserve_replacement_case,
    }
}

/// The rules the candidates give: those not conflicting, not surviving in `text` with their
/// merged flag, and not given already, in order.
fn keep_rules(
    text: &str,
    c: &Vec<(String, String, bool)>,
    eq: &Vec<Vec<bool>>,
    conf: &Vec<bool>,
    m: &Vec<bool>,
) -> (r: Vec<WordReplacement>)
    requires
        eq@.len() == c@.len(),
        forall|i: int| 0 <= i < c@.len() ==> (#[trigger] eq@[i])@.len() == c@.len(),
        forall|i: int, j: int|
            0 <= i < c@.len() && 0 <= j < c@.len() ==> eq@[i]@[j] == equivalent_sources(cand_views(c@), i, j),
        conf@.len() == c@.len(),
        forall|i: int| 0 <= i < c@.len() ==> conf@[i] == conflicting(cand_views(c@), i),
        m@.len() == c@.len(),
    ensures
        r@.len() == kept(cand_views(c@), m@, text@, c@.len() as int).len(),
        forall|t: int|
            0 <= t < r@.len() ==> rule_view(#[trigger] r@[t]) == rule_of(
                cand_views(c@),
                kept(cand_views(c@), m@, text@, c@.len() as int)[t],
                m@[kept(cand_views(c@), m@, text@, c@.len() as int)[t]],
            ),
{
    let ghost cv = cand_views(c@);
    let n = c.len();
    let mut seen: Vec<usize> = Vec::new();
    let mut out: Vec<WordReplacement> = Vec::new();
    let mut i: usize = 0;
    while i < n
        invariant
            n == c@.len() == eq@.len() == conf@.len() == m@.len(),
            cv == cand_views(c@),
            forall|a: int| 0 <= a < n ==> (#[trigger] eq@[a])@.len() == n,
            forall|a: int, b: int| 0 <= a < n && 0 <= b < n ==> eq@[a]@[b] == equivalent_sources(cv, a, b),
            forall|a: int| 0 <= a < n ==> conf@[a] == conflicting(cv, a),
            i <= n,
            positions(seen@) == kept(cv, m@, text@, i as int),
            forall|t: int| 0 <= t < seen@.len() ==> #[trigger] seen@[t] < i,
            out@.len() == seen@.len(),
            forall|t: int|
                0 <= t < out@.len() ==> rule_view(#[trigger] out@[t]) == rule_of(cv, seen@[t] as int, m@[seen@[t] as int]),
        decreases n - i,
    {
        let ghost prev = positions(seen@);
        let digit = any_digit(chars_of(c[i].1.as_str()).as_slice());
        let mut skip = conf[i];
        if !skip && !survives_alone(text, c[i].0.as_str(), c[i].1.as_str(), digit, m[i]) {
            skip = true;
        }
        if !skip {
            let mut found = false;
            let mut t: usize = 0;
            while t < seen.len()
                invariant
                    n == c@.len() == eq@.len() == m@.len(),
                    cv == cand_views(c@),
                    forall|a: int| 0 <= a < n ==> (#[trigger] eq@[a])@.len() == n,
                    forall|a: int, b: int| 0 <= a < n && 0 <= b < n ==> eq@[a]@[b] == equivalent_sources(cv, a, b),
                    i < n,
                    prev == positions(seen@),
                    forall|u: int| 0 <= u < seen@.len() ==> #[trigger] seen@[u] < i,
                    t <= seen@.len(),
                    found == exists|u: int|
                        0 <= u < t && #[trigger] equivalent_sources(cv, i as int, prev[u]) && cv[prev[u]].1
                            == cv[i as int].1 && m@[prev[u]] == m@[i as int],
                decreases seen@.len() - t,
            {
                let s = seen[t];
                assert(prev[t as int] == s as int);
                assert(cv[s as int].1 == c@[s as int].1@);
                assert(cv[i as int].1 == c@[i as int].1@);
                let same = eq[i][s] && chars_eq(chars_of(c[s].1.as_str()).as_slice(), chars_of(c[i].1.as_str()).as_slice())
                    && m[s] == m[i];
                assert(same == (equivalent_sources(cv, i as int, prev[t as int]) && cv[prev[t as int]].1
                    == cv[i as int].1 && m@[prev[t as int]] == m@[i as int]));
                if same {
                    found = true;
                }
                t += 1;
            }
            skip = found;
        }
        proof {
            assert(kept(cv, m@, text@, i + 1) == if skip { prev } else { prev.push(i as int) });
        }
        if !skip {
            out.push(WordReplacement {
                from: copy_string(&c[i].0),
                to: copy_string(&c[i].1),
                whole_word: true,
                case_sensitive: digit,
                preserve_replacement_case: m[i],
            });
            seen.push(i);
            assert(positions(seen@) =~= prev.push(i as int));
        }
        i += 1;
    }
    out
}

/// The characters of each pair.
pub open spec fn pair_texts(ps: Seq<(String, String)>) -> Seq<(Seq<char>, Seq<char>)> {
    Seq::new(ps.len(), |i: int| (ps[i].0@, ps[i].1@))
}

/// The candidates of learnable pairs, each with whether its target keeps its casing; `None`
/// when a pair is not learnable.
fn learnable_candidates(lex: &Lexicon, close: &[(String, String)], ps: &Vec<(String, String)>) -> (r: Option<Vec<(String, String, bool)>>)
    ensures
        match r {
            None => !all_learnable(*lex, close@, pair_texts(ps@)),
            Some(v) => all_learnable(*lex, close@, pair_texts(ps@)) && cand_views(v@) == presented(*lex, pair_texts(ps@)),
        },
{
    let ghost pv = pair_texts(ps@);
    let mut out: Vec<(String, String, bool)> = Vec::new();
    let mut i: usize = 0;
    while i < ps.len()
        invariant
            pv == pair_texts(ps@),
            i <= ps@.len(),
            forall|k: int| 0 <= k < i ==> learnable(*lex, close@, (#[trigger] pv[k]).0, pv[k].1),
            cand_views(out@) == presented(*lex, pv).take(i as int),
        decreases ps@.len() - i,
    {
        if !is_learnable_substitution(ps[i].0.as_str(), ps[i].1.as_str(), lex, close) {
            assert(!learnable(*lex, close@, pv[i as int].0, pv[i as int].1));
            return None;
        }
        let keep = learned_target_presentation(lex, ps[i].0.as_str(), ps[i].1.as_str());
        let ghost before = cand_views(out@);
        assert(pv[i as int] == (ps@[i as int].0@, ps@[i as int].1@));
        out.push((copy_string(&ps[i].0), copy_string(&ps[i].1), keep));
        assert(cand_views(out@) =~= before.push((pv[i as int].0, pv[i as int].1, keep)));
        i += 1;
        assert(cand_views(out@) =~= presented(*lex, pv).take(i as int));
    }
    assert(presented(*lex, pv).take(ps@.len() as int) =~= presented(*lex, pv));
    Some(out)
}

/// Whether no candidate's source survives in `text`.
fn none_survive(text: &str, c: &Vec<(String, String, bool)>) -> (r: bool)
    ensures
        r == all_survive(cand_views(c@), text@),
{
    let ghost cv = cand_views(c@);
    let mut i: usize = 0;
    while i < c.len()
        invariant
            cv == cand_views(c@),
            i <= c@.len(),
            forall|k: int| 0 <= k < i ==> survives(text@, (#[trigger] cv[k]).0, cv[k].1, has_digit(cv[k].1), cv[k].2),
        decreases c@.len() - i,
    {
        let digit = any_digit(chars_of(c[i].1.as_str()).as_slice());
        if !survives_alone(text, c[i].0.as_str(), c[i].1.as_str(), digit, c[i].2) {
            assert(!survives(text@, cv[i as int].0, cv[i as int].1, has_digit(cv[i as int].1), cv[i as int].2));
            return false;
        }
        i += 1;
    }
    true
}

/// The preceding rules followed by the new ones, as plain values.
pub open spec fn combined(pre: Seq<WordReplacement>, out: Seq<(Seq<char>, Seq<char>, bool, bool, bool)>) -> Seq<(Seq<char>, Seq<char>, bool, bool, bool)> {
    rule_views(pre) + out
}

/// The rule pairs the cascade check compares: each new rule against every preceding one,
/// and the new rules against each other.
pub open spec fn interactions(n_out: int, n_pre: int) -> int {
    n_out * n_pre + n_out * (n_out - 1) / 2
}

/// The rules learned from the edit of `original` into `corrected`, to be appended after
/// `preceding`: nothing when the edit is not made of one-for-one substitutions within the
/// bounds, when one substitution is not learnable, when a token moved, or when a source
/// survives in the correction; otherwise the grouped rules, unless checking them for
/// cascades would take too much work or one of them can cascade with an earlier rule.
pub open spec fn extracted(
    original: Seq<char>,
    corrected: Seq<char>,
    preceding: Seq<WordReplacement>,
    lex: Lexicon,
    close: Seq<(String, String)>,
) -> Seq<(Seq<char>, Seq<char>, bool, bool, bool)> {
    match candidates(original, corrected, preceding) {
        None => seq![],
        Some(ps) => {
            let c = presented(lex, ps);
            if !all_learnable(lex, close, ps) || token_moved(original, corrected) || !all_survive(c, corrected) {
                seq![]
            } else {
                let out = grouped_rules(c, corrected);
                let comb = combined(preceding, out);
                let p0 = preceding.len() as int;
                if out.len() == 0 {
                    out
                } else if interactions(out.len() as int, p0) > MAX_CASCADE_INTERACTIONS || steps_from(comb, p0)
                    > MAX_CASCADE_MATCH_STEPS || !cascade_free(comb, p0) {
                    seq![]
                } else {
                    out
                }
            }
        },
    }
}

/// Extracts the heard-to-meant rules worth learning from a transcript the user corrected in
/// place. Only clean one-for-one token substitutions count, each must be learnable (see
/// [`is_learnable_substitution`]), a source corrected two different ways teaches nothing,
/// duplicates collapse, and any doubt about the edit as a whole (a moved token, a source
/// still present in the correction, a possible cascade with `preceding_replacements` in
/// production order) yields nothing at all. `close` lists the pairs of spelling keys judged
/// close in spelling.
pub fn extract_learned_replacements(
    original: &str,
    corrected: &str,
    preceding_replacements: &[WordReplacement],
    lexicon: &Lexicon,
    close: &[(String, String)],
) -> (r: Vec<WordReplacement>)
    ensures
        r@.len() == extracted(original@, corrected@, preceding_replacements@, *lexicon, close@).len(),
        forall|t: int|
            0 <= t < r@.len() ==> rule_view(#[trigger] r@[t]) == extracted(
                original@,
                corrected@,
                preceding_replacements@,
                *lexicon,
                close@,
            )[t],
{
    let ps = match learned_replacement_candidates(original, corrected, preceding_replacements) {
        Some(v) => v,
        None => return Vec::new(),
    };
    let ghost pv = match candidates(original@, corrected@, preceding_replacements@) {
        Some(x) => x,
        None => seq![],
    };
    assert(pair_texts(ps@) =~= pv);
    let c = match learnable_candidates(lexicon, close, &ps) {
        Some(v) => v,
        None => return Vec::new(),
    };
    if has_moved_token(original, corrected) {
        return Vec::new();
    }
    if !none_survive(corrected, &c) {
        return Vec::new();
    }
    let ghost cv = cand_views(c@);
    let eq = equivalence_matrix(&c);
    let conf = conflicts(&c, &eq);
    let m = merge_flags(&c, &eq);
    let out = keep_rules(corrected, &c, &eq, &conf, &m);
    let ghost ks = kept(cv, m@, corrected@, c@.len() as int);
    let ghost grouped = grouped_rules(cv, corrected@);
    assert(rule_views(out@) =~= grouped);
    if out.len() == 0 {
        return out;
    }
    proof {
        lemma_kept_bound(cv, m@, corrected@, c@.len() as int);
    }
    let k = out.len();
    let p = preceding_replacements.len();
    assert(k * p <= 64 * 512) by (nonlinear_arith)
        requires
            k <= 64,
            p <= 512,
    ;
    assert(k * (k - 1) <= 64 * 64) by (nonlinear_arith)
        requires
            1 <= k <= 64,
    ;
    if k * p + k * (k - 1) / 2 > MAX_CASCADE_INTERACTIONS {
        return Vec::new();
    }
    let mut comb: Vec<WordReplacement> = Vec::new();
    let mut i: usize = 0;
    while i < p
        invariant
            p == preceding_replacements@.len(),
            i <= p,
            rule_views(comb@) == rule_views(preceding_replacements@).take(i as int),
        decreases p - i,
    {
        let ghost before = rule_views(comb@);
        let rc = copy_rule(&preceding_replacements[i]);
        comb.push(rc);
        assert(rule_views(comb@) =~= before.push(rule_view(preceding_replacements@[i as int])));
        assert(rule_views(preceding_replacements@).take(i + 1) =~= rule_views(preceding_replacements@).take(
            i as int,
        ).push(rule_view(preceding_replacements@[i as int])));
        i += 1;
    }
    let mut j: usize = 0;
    while j < k
        invariant
            k == out@.len(),
            j <= k,
            rule_views(comb@) == rule_views(preceding_replacements@) + rule_views(out@).take(j as int),
        decreases k - j,
    {
        let ghost before = rule_views(comb@);
        let rc = copy_rule(&out[j]);
        comb.push(rc);
        assert(rule_views(comb@) =~= before.push(rule_view(out@[j as int])));
        assert(rule_views(out@).take(j + 1) =~= rule_views(out@).take(j as int).push(rule_view(out@[j as int])));
        assert(rule_views(preceding_replacements@) + rule_views(out@).take(j + 1) =~= (rule_views(
            preceding_replacements@,
        ) + rule_views(out@).take(j as int)).push(rule_view(out@[j as int])));
        j += 1;
    }
    assert(rule_views(comb@) =~= combined(preceding_replacements@, grouped));
    if !steps_within(&comb, p) {
        return Vec::new();
    }
    if !no_cascades(&comb, p) {
        return Vec::new();
    }
    out
}

/// The pairs of spelling keys whose closeness the learnability of `from` -> `to` can ask
/// about: the whole pair's, and each aligned component pair's when both sides have as many
/// components.
pub open spec fn pair_keys(from: Seq<char>, to: Seq<char>) -> Seq<(Seq<char>, Seq<char>)> {
    let fc = components(from);
    let tc = components(to);
    seq![(spelling_key(from), spelling_key(to))] + if fc.len() == tc.len() {
        Seq::new(fc.len(), |k: int| (spelling_key(fc[k]), spelling_key(tc[k])))
    } else {
        seq![]
    }
}

/// The spelling-key pairs of every substitution, in order.
pub open spec fn key_pairs(ps: Seq<(Seq<char>, Seq<char>)>) -> Seq<(Seq<char>, Seq<char>)>
    decreases ps.len(),
{
    if ps.len() == 0 {
        seq![]
    } else {
        key_pairs(ps.drop_last()) + pair_keys(ps.last().0, ps.last().1)
    }
}

/// The characters of each pair of strings.
pub open spec fn string_pairs(v: Seq<(String, String)>) -> Seq<(Seq<char>, Seq<char>)> {
    Seq::new(v.len(), |i: int| (v[i].0@, v[i].1@))
}

fn push_pair(out: &mut Vec<(String, String)>, a: &[char], b: &[char])
    ensures
        string_pairs(final(out)@) == string_pairs(old(out)@).push((spelling_key(a@), spelling_key(b@))),
{
    let ghost before = string_pairs(out@);
    let ka = string_from(spelling_key_of(a).as_slice());
    let kb = string_from(spelling_key_of(b).as_slice());
    out.push((ka, kb));
    assert(string_pairs(out@) =~= before.push((spelling_key(a@), spelling_key(b@))));
}

/// The pairs of spelling keys whose closeness in spelling the extraction of rules from the
/// edit of `original` into `corrected` can ask about (see [`pair_keys`]); empty when the edit
/// holds no clean substitutions. A caller judges each pair and hands the close ones to
/// [`extract_learned_replacements`].
pub fn spelling_pairs(original: &str, corrected: &str, preceding_replacements: &[WordReplacement]) -> (r: Vec<(String, String)>)
    ensures
        string_pairs(r@) == match candidates(original@, corrected@, preceding_replacements@) {
            Some(ps) => key_pairs(ps),
            None => seq![],
        },
{
    let ps = match learned_replacement_candidates(original, corrected, preceding_replacements) {
        Some(v) => v,
        None => return Vec::new(),
    };
    let ghost pv = match candidates(original@, corrected@, preceding_replacements@) {
        Some(x) => x,
        None => seq![],
    };
    assert(pair_texts(ps@) =~= pv);
    let mut out: Vec<(String, String)> = Vec::new();
    let mut i: usize = 0;
    while i < ps.len()
        invariant
            pv == pair_texts(ps@),
            i <= ps@.len(),
            string_pairs(out@) == key_pairs(pv.take(i as int)),
        decreases ps@.len() - i,
    {
        let f = chars_of(ps[i].0.as_str());
        let t = chars_of(ps[i].1.as_str());
        assert(pv[i as int] == (f@, t@));
        let ghost before = string_pairs(out@);
        push_pair(&mut out, f.as_slice(), t.as_slice());
        let fc = alphanumeric_components(f.as_slice());
        let tc = alphanumeric_components(t.as_slice());
        let ghost fv = components(f@);
        let ghost tv = components(t@);
        if fc.len() == tc.len() {
            let mut k: usize = 0;
            while k < fc.len()
                invariant
                    k <= fc@.len() == tc@.len(),
                    crate::unicode::views(fc@) == fv,
                    crate::unicode::views(tc@) == tv,
                    string_pairs(out@) == before.push((spelling_key(f@), spelling_key(t@))) + Seq::new(
                        k as nat,
                        |j: int| (spelling_key(fv[j]), spelling_key(tv[j])),
                    ),
                decreases fc@.len() - k,
            {
                assert(fv[k as int] == fc@[k as int]@);
                assert(tv[k as int] == tc@[k as int]@);
                push_pair(&mut out, fc[k].as_slice(), tc[k].as_slice());
                k += 1;
                assert(string_pairs(out@) =~= before.push((spelling_key(f@), spelling_key(t@))) + Seq::new(
                    k as nat,
                    |j: int| (spelling_key(fv[j]), spelling_key(tv[j])),
                ));
            }
        }
        proof {
            assert(pv.take(i + 1).drop_last() =~= pv.take(i as int));
            assert(string_pairs(out@) =~= before + pair_keys(f@, t@));
        }
        i += 1;
    }
    assert(pv.take(ps@.len() as int) =~= pv);
    out
}

// ---------------------------------------------------------------------------
// What every learned rule satisfies.
// ---------------------------------------------------------------------------

proof fn lemma_kept_props(c: Seq<(Seq<char>, Seq<char>, bool)>, m: Seq<bool>, text: Seq<char>, k: int)
    requires
        0 <= k <= c.len(),
        m.len() == c.len(),
    ensures
        forall|t: int|
            0 <= t < kept(c, m, text, k).len() ==> {
                let i = #[trigger] kept(c, m, text, k)[t];
                &&& 0 <= i < k
                &&& !conflicting(c, i)
                &&& survives(text, c[i].0, c[i].1, has_digit(c[i].1), m[i])
            },
        forall|t1: int, t2: int|
            0 <= t1 < t2 < kept(c, m, text, k).len() ==> {
                let i1 = #[trigger] kept(c, m, text, k)[t1];
                let i2 = #[trigger] kept(c, m, text, k)[t2];
                &&& i1 < i2
                &&& !(equivalent_sources(c, i2, i1) && c[i1].1 == c[i2].1 && m[i1] == m[i2])
            },
    decreases k,
{
    if k > 0 {
        lemma_kept_props(c, m, text, k - 1);
        let prev = kept(c, m, text, k - 1);
        let i = k - 1;
        if !(conflicting(c, i) || !survives(text, c[i].0, c[i].1, has_digit(c[i].1), m[i]) || already_kept(c, m, prev, i)) {
            let now = prev.push(i);
            assert(kept(c, m, text, k) == now);
            assert forall|t1: int, t2: int| 0 <= t1 < t2 < now.len() implies {
                let i1 = #[trigger] now[t1];
                let i2 = #[trigger] now[t2];
                &&& i1 < i2
                &&& !(equivalent_sources(c, i2, i1) && c[i1].1 == c[i2].1 && m[i1] == m[i2])
            } by {
                if t2 == prev.len() {
                    assert(now[t1] == prev[t1]);
                    assert(!(equivalent_sources(c, i, prev[t1]) && c[prev[t1]].1 == c[i].1 && m[prev[t1]] == m[i]));
                } else {
                    assert(now[t1] == prev[t1]);
                    assert(now[t2] == prev[t2]);
                }
            }
        }
    }
}

/// What every rule learned from an edit satisfies: it is whole-word and case-sensitive
/// exactly when its target holds a digit; it is one of the edit's substitutions, that
/// substitution is learnable, and no equivalent source in the edit was corrected to another
/// target; applied alone it leaves the correction unchanged; no two learned rules share an
/// equivalent source, a target and a casing flag; and appended after `preceding`, none of them
/// can cascade with an earlier rule.
pub proof fn law_learned_rules_are_safe(
    original: Seq<char>,
    corrected: Seq<char>,
    preceding: Seq<WordReplacement>,
    lex: Lexicon,
    close: Seq<(String, String)>,
)
    ensures
        ({
            let out = extracted(original, corrected, preceding, lex, close);
            &&& forall|t: int|
                0 <= t < out.len() ==> {
                    let r = #[trigger] out[t];
                    &&& r.2
                    &&& r.3 == has_digit(r.1)
                    &&& learnable(lex, close, r.0, r.1)
                    &&& survives(corrected, r.0, r.1, r.3, r.4)
                    &&& candidates(original, corrected, preceding) matches Some(ps) && exists|i: int|
                        0 <= i < ps.len() && ps[i] == (r.0, r.1) && !#[trigger] conflicting(presented(lex, ps), i)
                }
            &&& forall|t1: int, t2: int|
                0 <= t1 < t2 < out.len() ==> !(matches_entire(rule_pattern((#[trigger] out[t2]).0, out[t2].3), out[t1].0)
                    && matches_entire(rule_pattern((#[trigger] out[t1]).0, out[t1].3), out[t2].0) && out[t1].1 == out[t2].1
                    && out[t1].4 == out[t2].4)
            &&& out.len() > 0 ==> cascade_free(combined(preceding, out), preceding.len() as int)
        }),
{
    let out = extracted(original, corrected, preceding, lex, close);
    match candidates(original, corrected, preceding) {
        None => {},
        Some(ps) => {
            let c = presented(lex, ps);
            if !(!all_learnable(lex, close, ps) || token_moved(original, corrected) || !all_survive(c, corrected)) {
                let m = merged_flags(c, own_flags(c), 0, 1);
                lemma_merged_len(c, own_flags(c), 0, 1);
                lemma_kept_props(c, m, corrected, c.len() as int);
                let ks = kept(c, m, corrected, c.len() as int);
                let g = grouped_rules(c, corrected);
                assert forall|t: int| 0 <= t < g.len() implies {
                    let r = #[trigger] g[t];
                    &&& r.2
                    &&& r.3 == has_digit(r.1)
                    &&& learnable(lex, close, r.0, r.1)
                    &&& survives(corrected, r.0, r.1, r.3, r.4)
                    &&& exists|i: int| 0 <= i < ps.len() && ps[i] == (r.0, r.1) && !#[trigger] conflicting(c, i)
                } by {
                    let i = ks[t];
                    assert(g[t] == rule_of(c, i, m[i]));
                    assert(learnable(lex, close, ps[i].0, ps[i].1));
                    assert(ps[i] == (g[t].0, g[t].1));
                }
                assert forall|t1: int, t2: int| 0 <= t1 < t2 < g.len() implies !(matches_entire(
                    rule_pattern((#[trigger] g[t2]).0, g[t2].3),
                    g[t1].0,
                ) && matches_entire(rule_pattern((#[trigger] g[t1]).0, g[t1].3), g[t2].0) && g[t1].1 == g[t2].1
                    && g[t1].4 == g[t2].4) by {
                    let i1 = ks[t1];
                    let i2 = ks[t2];
                    assert(g[t1] == rule_of(c, i1, m[i1]));
                    assert(g[t2] == rule_of(c, i2, m[i2]));
                }
            }
        },
    }
}

proof fn lemma_merged_len(c: Seq<(Seq<char>, Seq<char>, bool)>, flags: Seq<bool>, l: int, r: int)
    requires
        flags.len() == c.len(),
    ensures
        merged_flags(c, flags, l, r).len() == c.len(),
    decreases c.len() - l, c.len() - r,
{
    if l < 0 || l >= c.len() {
    } else if r >= c.len() || r <= l {
        lemma_merged_len(c, flags, l + 1, l + 2);
    } else {
        lemma_merged_len(c, flags_after_pair(c, flags, l, r), l, r + 1);
    }
}

} // verus!
