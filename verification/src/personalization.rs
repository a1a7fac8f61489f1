//! On-device personalization mining: likely custom-vocabulary words extracted from the
//! user's own transcript history. Precision first: a candidate must be a recurring
//! proper-noun-like token (seen capitalized where no sentence starts), not an everyday word,
//! and frequent enough to matter. Pure string analysis.
use vstd::prelude::*;
use crate::settings::PersonalizationData;
use crate::text::{common_word, is_common_word, trim_class, trim_class_chars, CharClass};
use crate::unicode::{
    alnum_char, chars_eq, chars_of, copy_chars, is_alphanumeric, is_numeric, is_uppercase, lower_chars,
    numeric_char, str_lower, string_from, uppercase_char, views, trim_whitespace, trim_ws,
};

verus! {

/// Minimum number of occurrences across history before a word is suggested.
pub const MIN_FREQUENCY: u32 = 3;

/// Minimum length, in characters, of a candidate word.
pub const MIN_WORD_LEN: usize = 3;

/// Maximum length, in characters, of a candidate word (the cap on hand-added words).
pub const MAX_WORD_LEN: usize = 50;

/// A mined vocabulary suggestion: a word the user often dictates, with how often.
#[derive(Debug, Clone, PartialEq, Eq)]
pub struct WordSuggestion {
    /// The suggested surface form.
    pub word: String,
    /// How many times the word appears across the mined transcripts, ignoring case.
    pub count: u32,
}

// ---------------------------------------------------------------------------
// Tokenizing.
// ---------------------------------------------------------------------------

/// Whether `c` continues a word whose characters so far are `cur`: letters and digits
/// always, an apostrophe or hyphen only inside a word.
pub open spec fn continues_word(c: char, cur: Seq<char>) -> bool {
    alnum_char(c) || ((c == '\'' || c == '-') && cur.len() > 0)
}

/// Whether `c` ends a sentence.
pub open spec fn terminator(c: char) -> bool {
    c == '.' || c == '?' || c == '!'
}

/// The finished word `cur`, without its trailing apostrophes and hyphens, tagged with
/// whether it starts a sentence; nothing when no character is left.
pub open spec fn flush_word(cur: Seq<char>, start: bool) -> Seq<(Seq<char>, bool)> {
    let t = trim_class(cur, CharClass::ApostropheOrHyphen);
    if cur.len() == 0 || t.len() == 0 { seq![] } else { seq![(t, start)] }
}

/// The words of `s` from position `i`, with the partial word `cur` and the sentence-start
/// flag `start`. Only a finished word clears the flag, so the separators between a
/// terminator and the next word do not.
pub open spec fn words_from(s: Seq<char>, i: int, cur: Seq<char>, start: bool) -> Seq<(Seq<char>, bool)>
    decreases s.len() - i,
{
    if i >= s.len() {
        flush_word(cur, start)
    } else if continues_word(s[i], cur) {
        words_from(s, i + 1, cur.push(s[i]), start)
    } else {
        let st = if terminator(s[i]) { true } else if cur.len() > 0 { false } else { start };
        flush_word(cur, start) + words_from(s, i + 1, seq![], st)
    }
}

/// The words of a text, each tagged with whether it begins a sentence (the first word, and
/// the first word after `.`, `?` or `!`).
pub open spec fn sentence_words(s: Seq<char>) -> Seq<(Seq<char>, bool)> {
    words_from(s, 0, seq![], true)
}

/// The views of tagged words.
pub open spec fn tagged_views(v: Seq<(Vec<char>, bool)>) -> Seq<(Seq<char>, bool)> {
    Seq::new(v.len(), |i: int| (v[i].0@, v[i].1))
}

fn flush_into(cur: &Vec<char>, start: bool, out: &mut Vec<(Vec<char>, bool)>)
    ensures
        tagged_views(final(out)@) == tagged_views(old(out)@) + flush_word(cur@, start),
{
    if cur.len() == 0 {
        assert(tagged_views(final(out)@) =~= tagged_views(old(out)@) + flush_word(cur@, start));
        return;
    }
    let t = trim_class_chars(cur.as_slice(), CharClass::ApostropheOrHyphen);
    if t.len() > 0 {
        out.push((t, start));
    }
    assert(tagged_views(final(out)@) =~= tagged_views(old(out)@) + flush_word(cur@, start));
}

/// Splits `text` into words tagged with whether each begins a sentence. Words are maximal
/// runs of letters and digits with inner apostrophes and hyphens ("don't", "well-known").
pub fn tokenize_with_sentence_flags(text: &[char]) -> (r: Vec<(Vec<char>, bool)>)
    ensures
        tagged_views(r@) == sentence_words(text@),
{
    let n = text.len();
    let mut out: Vec<(Vec<char>, bool)> = Vec::new();
    let mut cur: Vec<char> = Vec::new();
    let mut at_start = true;
    let mut i: usize = 0;
    while i < n
        invariant
            i <= n == text@.len(),
            tagged_views(out@) + words_from(text@, i as int, cur@, at_start) == sentence_words(text@),
        decreases n - i,
    {
        let c = text[i];
        if is_alphanumeric(c) || ((c == '\'' || c == '-') && cur.len() > 0) {
            cur.push(c);
        } else {
            let ghost before = tagged_views(out@);
            let ghost oc = cur@;
            let ghost os = at_start;
            flush_into(&cur, at_start, &mut out);
            if cur.len() > 0 {
                at_start = false;
            }
            if c == '.' || c == '?' || c == '!' {
                at_start = true;
            }
            cur = Vec::new();
            assert(cur@ =~= seq![]);
            assert(before + (flush_word(oc, os) + words_from(text@, i + 1, seq![], at_start))
                =~= tagged_views(out@) + words_from(text@, i + 1, cur@, at_start));
        }
        i += 1;
    }
    let ghost before = tagged_views(out@);
    flush_into(&cur, at_start, &mut out);
    assert(tagged_views(out@) =~= before + words_from(text@, n as int, cur@, at_start));
    out
}

// ---------------------------------------------------------------------------
// Which words count.
// ---------------------------------------------------------------------------

/// A word made only of digits with optional inner hyphens or apostrophes, such as "2024".
pub open spec fn numeric_token(w: Seq<char>) -> bool {
    &&& forall|i: int| 0 <= i < w.len() ==> numeric_char(#[trigger] w[i]) || w[i] == '-' || w[i] == '\''
    &&& exists|i: int| 0 <= i < w.len() && numeric_char(#[trigger] w[i])
}

/// The views of a slice of strings.
pub open spec fn string_views(v: Seq<String>) -> Seq<Seq<char>> {
    Seq::new(v.len(), |i: int| v[i]@)
}

/// Whether a word is a candidate: between the minimum and maximum length once lowercased,
/// not a number, not an everyday word, and not excluded.
pub open spec fn qualifies(w: Seq<char>, exclude: Seq<Seq<char>>) -> bool {
    let lower = str_lower(w);
    &&& MIN_WORD_LEN <= lower.len() <= MAX_WORD_LEN
    &&& !numeric_token(w)
    &&& !common_word(str_lower(lower))
    &&& !exclude.contains(lower)
}

/// The candidate words among tagged words, in order.
pub open spec fn kept(ws: Seq<(Seq<char>, bool)>, exclude: Seq<Seq<char>>) -> Seq<(Seq<char>, bool)>
    decreases ws.len(),
{
    if ws.len() == 0 {
        seq![]
    } else {
        kept(ws.drop_last(), exclude) + if qualifies(ws.last().0, exclude) {
            seq![ws.last()]
        } else {
            seq![]
        }
    }
}

/// The candidate words of all texts, in order.
pub open spec fn candidate_words(texts: Seq<Seq<char>>, exclude: Seq<Seq<char>>) -> Seq<(Seq<char>, bool)>
    decreases texts.len(),
{
    if texts.len() == 0 {
        seq![]
    } else {
        candidate_words(texts.drop_last(), exclude) + kept(sentence_words(texts.last()), exclude)
    }
}

/// Whether every word's count fits the `u32` a suggestion reports it in.
pub open spec fn counts_fit(q: Seq<(Seq<char>, bool)>) -> bool {
    forall|k: Seq<char>| #[trigger] key_count(q, k) <= u32::MAX
}

/// The total number of characters of the texts.
pub open spec fn total_chars(texts: Seq<Seq<char>>) -> nat
    decreases texts.len(),
{
    if texts.len() == 0 { 0 } else { total_chars(texts.drop_last()) + texts.last().len() }
}

// ---------------------------------------------------------------------------
// Counting and ranking.
// ---------------------------------------------------------------------------

/// How many candidates have the lowercase form `k`.
pub open spec fn key_count(q: Seq<(Seq<char>, bool)>, k: Seq<char>) -> nat
    decreases q.len(),
{
    if q.len() == 0 {
        0
    } else {
        key_count(q.drop_last(), k) + if str_lower(q.last().0) == k { 1nat } else { 0nat }
    }
}

/// How many candidates are spelled exactly `f`.
pub open spec fn form_count(q: Seq<(Seq<char>, bool)>, f: Seq<char>) -> nat
    decreases q.len(),
{
    if q.len() == 0 {
        0
    } else {
        form_count(q.drop_last(), f) + if q.last().0 == f { 1nat } else { 0nat }
    }
}

/// Whether a word starts with an uppercase character.
pub open spec fn first_upper(w: Seq<char>) -> bool {
    w.len() > 0 && uppercase_char(w[0])
}

/// The proper-noun signal: the word was seen capitalized where no sentence starts.
pub open spec fn key_proper(q: Seq<(Seq<char>, bool)>, k: Seq<char>) -> bool {
    exists|i: int| 0 <= i < q.len() && str_lower(#[trigger] q[i].0) == k && first_upper(q[i].0) && !q[i].1
}

/// A word worth suggesting: frequent enough, and seen as a proper noun.
pub open spec fn eligible(q: Seq<(Seq<char>, bool)>, k: Seq<char>) -> bool {
    key_count(q, k) >= MIN_FREQUENCY && key_proper(q, k)
}

/// Lexicographic order of character sequences by code point (the order of `String`).
pub open spec fn lex_lt(a: Seq<char>, b: Seq<char>) -> bool
    decreases a.len(),
{
    if a.len() == 0 {
        b.len() > 0
    } else if b.len() == 0 {
        false
    } else if a[0] != b[0] {
        a[0] < b[0]
    } else {
        lex_lt(a.drop_first(), b.drop_first())
    }
}

/// The spelling to suggest ranks first: a capitalized spelling, then the more frequent one,
/// then the lexicographically smaller one.
pub open spec fn form_beats(q: Seq<(Seq<char>, bool)>, f: Seq<char>, g: Seq<char>) -> bool {
    ||| first_upper(f) && !first_upper(g)
    ||| first_upper(f) == first_upper(g) && form_count(q, f) > form_count(q, g)
    ||| first_upper(f) == first_upper(g) && form_count(q, f) == form_count(q, g) && lex_lt(f, g)
}

/// `f` is the spelling suggested for the lowercase form `k`: one of its spellings, ranked
/// above every other.
pub open spec fn best_form(q: Seq<(Seq<char>, bool)>, k: Seq<char>, f: Seq<char>) -> bool {
    &&& form_count(q, f) > 0
    &&& str_lower(f) == k
    &&& forall|i: int| 0 <= i < q.len() && str_lower(#[trigger] q[i].0) == k && q[i].0 != f ==> form_beats(q, f, q[i].0)
}

/// Suggestions are ranked by count, highest first, then alphabetically by lowercase form.
pub open spec fn ranks_before(c1: int, k1: Seq<char>, c2: int, k2: Seq<char>) -> bool {
    c1 > c2 || (c1 == c2 && lex_lt(k1, k2))
}

/// A suggestion describes an eligible word with its count and its suggested spelling.
pub open spec fn describes(q: Seq<(Seq<char>, bool)>, s: WordSuggestion) -> bool {
    let k = str_lower(s.word@);
    &&& eligible(q, k)
    &&& s.count == key_count(q, k)
    &&& best_form(q, k, s.word@)
}

/// `r` lists the eligible words of `q` in rank order, cut off after `limit`.
pub open spec fn mined(q: Seq<(Seq<char>, bool)>, limit: nat, r: Seq<WordSuggestion>) -> bool {
    &&& r.len() <= limit
    &&& forall|i: int| 0 <= i < r.len() ==> describes(q, #[trigger] r[i])
    &&& forall|i: int, j: int| 0 <= i < j < r.len() ==> ranks_before(
        r[i].count as int,
        str_lower(#[trigger] r[i].word@),
        r[j].count as int,
        str_lower(#[trigger] r[j].word@),
    )
    &&& forall|k: Seq<char>| eligible(q, k) && !(exists|i: int| 0 <= i < r.len() && str_lower(#[trigger] r[i].word@) == k)
        ==> r.len() == limit && (r.len() > 0 ==> ranks_before(
            r.last().count as int,
            str_lower(r.last().word@),
            key_count(q, k) as int,
            k,
        ))
}

// ---------------------------------------------------------------------------
// Lemmas.
// ---------------------------------------------------------------------------

pub proof fn lemma_lex_irreflexive(a: Seq<char>)
    ensures
        !lex_lt(a, a),
    decreases a.len(),
{
    if a.len() > 0 {
        lemma_lex_irreflexive(a.drop_first());
    }
}

pub proof fn lemma_lex_total(a: Seq<char>, b: Seq<char>)
    ensures
        a != b ==> lex_lt(a, b) || lex_lt(b, a),
        !(lex_lt(a, b) && lex_lt(b, a)),
    decreases a.len(),
{
    if a.len() > 0 && b.len() > 0 && a[0] == b[0] {
        lemma_lex_total(a.drop_first(), b.drop_first());
        if a.drop_first() == b.drop_first() {
            assert(a =~= seq![a[0]] + a.drop_first());
            assert(b =~= seq![b[0]] + b.drop_first());
        }
    }
    if a.len() == 0 && b.len() == 0 {
        assert(a =~= b);
    }
}

pub proof fn lemma_lex_trans(a: Seq<char>, b: Seq<char>, c: Seq<char>)
    requires
        lex_lt(a, b),
        lex_lt(b, c),
    ensures
        lex_lt(a, c),
    decreases a.len(),
{
    if a.len() > 0 && b.len() > 0 && c.len() > 0 && a[0] == b[0] && b[0] == c[0] {
        lemma_lex_trans(a.drop_first(), b.drop_first(), c.drop_first());
    }
}

/// A text of `n` characters has at most `n` words.
pub proof fn lemma_words_bound(s: Seq<char>, i: int, cur: Seq<char>, start: bool)
    requires
        0 <= i <= s.len(),
    ensures
        words_from(s, i, cur, start).len() <= (s.len() - i) + if cur.len() > 0 { 1int } else { 0int },
    decreases s.len() - i,
{
    if i < s.len() {
        if continues_word(s[i], cur) {
            lemma_words_bound(s, i + 1, cur.push(s[i]), start);
        } else {
            let st = if terminator(s[i]) { true } else if cur.len() > 0 { false } else { start };
            lemma_words_bound(s, i + 1, seq![], st);
        }
    }
}

pub proof fn lemma_kept_bound(ws: Seq<(Seq<char>, bool)>, exclude: Seq<Seq<char>>)
    ensures
        kept(ws, exclude).len() <= ws.len(),
    decreases ws.len(),
{
    if ws.len() > 0 {
        lemma_kept_bound(ws.drop_last(), exclude);
    }
}

/// There are no more candidates than characters.
pub proof fn lemma_candidates_bound(texts: Seq<Seq<char>>, exclude: Seq<Seq<char>>)
    ensures
        candidate_words(texts, exclude).len() <= total_chars(texts),
    decreases texts.len(),
{
    if texts.len() > 0 {
        lemma_candidates_bound(texts.drop_last(), exclude);
        lemma_words_bound(texts.last(), 0, seq![], true);
        lemma_kept_bound(sentence_words(texts.last()), exclude);
    }
}

pub proof fn lemma_key_count_bound(q: Seq<(Seq<char>, bool)>, k: Seq<char>)
    ensures
        key_count(q, k) <= q.len(),
    decreases q.len(),
{
    if q.len() > 0 {
        lemma_key_count_bound(q.drop_last(), k);
    }
}

/// A history of at most `u32::MAX` characters never holds a word more often than a
/// suggestion's count can say.
pub proof fn lemma_short_history_fits(texts: Seq<Seq<char>>, exclude: Seq<Seq<char>>)
    requires
        total_chars(texts) <= u32::MAX,
    ensures
        counts_fit(candidate_words(texts, exclude)),
{
    lemma_candidates_bound(texts, exclude);
    assert forall|k: Seq<char>| #[trigger] key_count(candidate_words(texts, exclude), k) <= u32::MAX by {
        lemma_key_count_bound(candidate_words(texts, exclude), k);
    }
}

/// A spelling that occurs has its lowercase form among the candidates.
pub proof fn lemma_form_count_positive(q: Seq<(Seq<char>, bool)>, f: Seq<char>)
    ensures
        form_count(q, f) > 0 <==> exists|i: int| 0 <= i < q.len() && #[trigger] q[i].0 == f,
    decreases q.len(),
{
    if q.len() > 0 {
        lemma_form_count_positive(q.drop_last(), f);
        if exists|i: int| 0 <= i < q.len() && #[trigger] q[i].0 == f {
            let i = choose|i: int| 0 <= i < q.len() && #[trigger] q[i].0 == f;
            if i < q.len() - 1 {
                assert(q.drop_last()[i].0 == f);
            }
        }
        if exists|i: int| 0 <= i < q.drop_last().len() && #[trigger] q.drop_last()[i].0 == f {
            let i = choose|i: int| 0 <= i < q.drop_last().len() && #[trigger] q.drop_last()[i].0 == f;
            assert(q[i].0 == f);
        }
    }
}

/// Two different spellings are ordered one way or the other, never both.
pub proof fn lemma_form_beats_total(q: Seq<(Seq<char>, bool)>, f: Seq<char>, g: Seq<char>)
    ensures
        f != g ==> form_beats(q, f, g) || form_beats(q, g, f),
        !(form_beats(q, f, g) && form_beats(q, g, f)),
        !form_beats(q, f, f),
{
    lemma_lex_total(f, g);
    lemma_lex_irreflexive(f);
}

pub proof fn lemma_form_beats_trans(q: Seq<(Seq<char>, bool)>, f: Seq<char>, g: Seq<char>, h: Seq<char>)
    requires
        form_beats(q, f, g),
        form_beats(q, g, h),
    ensures
        form_beats(q, f, h),
{
    if first_upper(f) == first_upper(g) && first_upper(g) == first_upper(h) && form_count(q, f) == form_count(q, g)
        && form_count(q, g) == form_count(q, h) {
        lemma_lex_trans(f, g, h);
    }
}

/// Ranking is a strict total order on suggestions with different lowercase forms.
pub proof fn lemma_ranks_total(c1: int, k1: Seq<char>, c2: int, k2: Seq<char>)
    ensures
        k1 != k2 ==> ranks_before(c1, k1, c2, k2) || ranks_before(c2, k2, c1, k1),
        !(ranks_before(c1, k1, c2, k2) && ranks_before(c2, k2, c1, k1)),
        !ranks_before(c1, k1, c1, k1),
{
    lemma_lex_total(k1, k2);
    lemma_lex_irreflexive(k1);
}

pub proof fn lemma_ranks_trans(c1: int, k1: Seq<char>, c2: int, k2: Seq<char>, c3: int, k3: Seq<char>)
    requires
        ranks_before(c1, k1, c2, k2),
        ranks_before(c2, k2, c3, k3),
    ensures
        ranks_before(c1, k1, c3, k3),
{
    if c1 == c2 && c2 == c3 {
        lemma_lex_trans(k1, k2, k3);
    }
}

/// A lowercase form that is counted occurs among the candidates.
pub proof fn lemma_key_count_positive(q: Seq<(Seq<char>, bool)>, k: Seq<char>)
    requires
        key_count(q, k) > 0,
    ensures
        exists|i: int| 0 <= i < q.len() && str_lower(#[trigger] q[i].0) == k,
    decreases q.len(),
{
    if str_lower(q.last().0) != k {
        lemma_key_count_positive(q.drop_last(), k);
        let i = choose|i: int| 0 <= i < q.drop_last().len() && str_lower(#[trigger] q.drop_last()[i].0) == k;
        assert(q[i] == q.drop_last()[i]);
    } else {
        assert(str_lower(q[q.len() - 1].0) == k);
    }
}

// ---------------------------------------------------------------------------
// Executable steps.
// ---------------------------------------------------------------------------

/// Whether a word is a number such as "2024".
fn is_numeric_token(w: &[char]) -> (r: bool)
    ensures
        r == numeric_token(w@),
{
    let n = w.len();
    let mut any = false;
    let mut i: usize = 0;
    while i < n
        invariant
            i <= n == w@.len(),
            forall|j: int| 0 <= j < i ==> numeric_char(#[trigger] w@[j]) || w@[j] == '-' || w@[j] == '\'',
            any == exists|j: int| 0 <= j < i && numeric_char(#[trigger] w@[j]),
        decreases n - i,
    {
        let c = w[i];
        let num = is_numeric(c);
        if !(num || c == '-' || c == '\'') {
            return false;
        }
        if num {
            any = true;
        }
        i += 1;
    }
    any
}

/// Whether a word is a candidate.
fn qualifies_word(w: &[char], exclude: &[String]) -> (r: bool)
    ensures
        r == qualifies(w@, string_views(exclude@)),
{
    let lower = lower_chars(w);
    let n = lower.len();
    if n < MIN_WORD_LEN || n > MAX_WORD_LEN {
        return false;
    }
    if is_numeric_token(w) {
        return false;
    }
    let ls = string_from(lower.as_slice());
    if is_common_word(ls.as_str()) {
        return false;
    }
    let m = exclude.len();
    let mut i: usize = 0;
    while i < m
        invariant
            i <= m == exclude@.len(),
            lower@ == str_lower(w@),
            forall|j: int| 0 <= j < i ==> string_views(exclude@)[j] != lower@,
        decreases m - i,
    {
        let e = chars_of(exclude[i].as_str());
        if chars_eq(e.as_slice(), lower.as_slice()) {
            assert(string_views(exclude@)[i as int] == lower@);
            return false;
        }
        i += 1;
    }
    true
}

/// The candidate words of all texts.
fn collect_candidates(texts: &[String], exclude: &[String]) -> (q: Vec<(Vec<char>, bool)>)
    ensures
        tagged_views(q@) == candidate_words(string_views(texts@), string_views(exclude@)),
{
    let ghost tv = string_views(texts@);
    let ghost ev = string_views(exclude@);
    let mut q: Vec<(Vec<char>, bool)> = Vec::new();
    let nt = texts.len();
    let mut t: usize = 0;
    while t < nt
        invariant
            t <= nt == texts@.len(),
            tv == string_views(texts@),
            ev == string_views(exclude@),
            tagged_views(q@) == candidate_words(tv.take(t as int), ev),
        decreases nt - t,
    {
        let cs = chars_of(texts[t].as_str());
        let words = tokenize_with_sentence_flags(cs.as_slice());
        let ghost base = tagged_views(q@);
        let nw = words.len();
        let mut j: usize = 0;
        while j < nw
            invariant
                j <= nw == words@.len(),
                tagged_views(words@) == sentence_words(tv[t as int]),
                tagged_views(q@) == base + kept(tagged_views(words@).take(j as int), ev),
                ev == string_views(exclude@),
            decreases nw - j,
        {
            let ghost ws = tagged_views(words@).take(j + 1);
            assert(ws.drop_last() =~= tagged_views(words@).take(j as int));
            assert(ws.last() == (words@[j as int].0@, words@[j as int].1));
            let ghost before = tagged_views(q@);
            if qualifies_word(words[j].0.as_slice(), exclude) {
                let w = copy_chars(words[j].0.as_slice());
                q.push((w, words[j].1));
                assert(tagged_views(q@) =~= before + seq![ws.last()]);
            } else {
                assert(tagged_views(q@) =~= before);
            }
            assert(tagged_views(q@) =~= base + kept(ws, ev));
            j += 1;
        }
        assert(tagged_views(words@).take(nw as int) =~= tagged_views(words@));
        assert(tv.take(t + 1).drop_last() =~= tv.take(t as int));
        t += 1;
    }
    assert(tv.take(nt as int) =~= tv);
    q
}

/// How many candidates have the lowercase form `key`.
fn count_key(q: &Vec<(Vec<char>, bool)>, key: &[char]) -> (r: usize)
    ensures
        r == key_count(tagged_views(q@), key@),
{
    let n = q.len();
    let mut c: usize = 0;
    let mut i: usize = 0;
    while i < n
        invariant
            i <= n == q@.len(),
            c == key_count(tagged_views(q@).take(i as int), key@),
            c <= i,
        decreases n - i,
    {
        assert(tagged_views(q@).take(i + 1).drop_last() =~= tagged_views(q@).take(i as int));
        let l = lower_chars(q[i].0.as_slice());
        if chars_eq(l.as_slice(), key) {
            c += 1;
        }
        i += 1;
    }
    assert(tagged_views(q@).take(n as int) =~= tagged_views(q@));
    c
}

/// How many candidates are spelled exactly `f`.
fn count_form(q: &Vec<(Vec<char>, bool)>, f: &[char]) -> (r: usize)
    ensures
        r == form_count(tagged_views(q@), f@),
{
    let n = q.len();
    let mut c: usize = 0;
    let mut i: usize = 0;
    while i < n
        invariant
            i <= n == q@.len(),
            c == form_count(tagged_views(q@).take(i as int), f@),
            c <= i,
        decreases n - i,
    {
        assert(tagged_views(q@).take(i + 1).drop_last() =~= tagged_views(q@).take(i as int));
        if chars_eq(q[i].0.as_slice(), f) {
            c += 1;
        }
        i += 1;
    }
    assert(tagged_views(q@).take(n as int) =~= tagged_views(q@));
    c
}

/// Whether the lowercase form `key` was seen capitalized where no sentence starts.
fn has_proper(q: &Vec<(Vec<char>, bool)>, key: &[char]) -> (r: bool)
    ensures
        r == key_proper(tagged_views(q@), key@),
{
    let ghost tq = tagged_views(q@);
    let n = q.len();
    let mut i: usize = 0;
    while i < n
        invariant
            i <= n == q@.len(),
            tq == tagged_views(q@),
            forall|j: int| 0 <= j < i ==> !(str_lower(#[trigger] tq[j].0) == key@ && first_upper(tq[j].0) && !tq[j].1),
        decreases n - i,
    {
        let w = q[i].0.as_slice();
        let l = lower_chars(w);
        if chars_eq(l.as_slice(), key) && w.len() > 0 && is_uppercase(w[0]) && !q[i].1 {
            assert(str_lower(tq[i as int].0) == key@ && first_upper(tq[i as int].0) && !tq[i as int].1);
            return true;
        }
        i += 1;
    }
    false
}

/// Whether `a` comes before `b` in code-point order.
fn chars_lt(a: &[char], b: &[char]) -> (r: bool)
    ensures
        r == lex_lt(a@, b@),
{
    let mut i: usize = 0;
    assert(a@.skip(0) =~= a@);
    assert(b@.skip(0) =~= b@);
    while i < a.len() && i < b.len() && a[i] == b[i]
        invariant
            i <= a@.len(),
            i <= b@.len(),
            lex_lt(a@.skip(i as int), b@.skip(i as int)) == lex_lt(a@, b@),
        decreases a@.len() - i,
    {
        assert(a@.skip(i as int).drop_first() =~= a@.skip(i + 1));
        assert(b@.skip(i as int).drop_first() =~= b@.skip(i + 1));
        i += 1;
    }
    if i == a.len() {
        i < b.len()
    } else if i == b.len() {
        false
    } else {
        a[i] < b[i]
    }
}

/// Whether spelling `f` ranks above spelling `g`.
fn beats(q: &Vec<(Vec<char>, bool)>, f: &[char], g: &[char]) -> (r: bool)
    ensures
        r == form_beats(tagged_views(q@), f@, g@),
{
    let fu = f.len() > 0 && is_uppercase(f[0]);
    let gu = g.len() > 0 && is_uppercase(g[0]);
    if fu != gu {
        return fu;
    }
    let cf = count_form(q, f);
    let cg = count_form(q, g);
    if cf != cg {
        return cf > cg;
    }
    chars_lt(f, g)
}

/// The spelling to suggest for the lowercase form `key`.
fn pick_surface_form(q: &Vec<(Vec<char>, bool)>, key: &[char]) -> (r: Vec<char>)
    requires
        key_count(tagged_views(q@), key@) > 0,
    ensures
        best_form(tagged_views(q@), key@, r@),
{
    let ghost tq = tagged_views(q@);
    proof {
        lemma_key_count_positive(tq, key@);
    }
    let n = q.len();
    let mut best: Vec<char> = Vec::new();
    let mut found = false;
    let mut i: usize = 0;
    while i < n
        invariant
            i <= n == q@.len(),
            tq == tagged_views(q@),
            found ==> form_count(tq, best@) > 0 && str_lower(best@) == key@,
            found ==> forall|j: int| 0 <= j < i && str_lower(#[trigger] tq[j].0) == key@ && tq[j].0 != best@
                ==> form_beats(tq, best@, tq[j].0),
            !found ==> forall|j: int| 0 <= j < i ==> str_lower(#[trigger] tq[j].0) != key@,
        decreases n - i,
    {
        let w = q[i].0.as_slice();
        let l = lower_chars(w);
        if chars_eq(l.as_slice(), key) {
            proof {
                lemma_form_count_positive(tq, tq[i as int].0);
            }
            if !found {
                best = copy_chars(w);
                found = true;
            } else if !chars_eq(w, best.as_slice()) && beats(q, w, best.as_slice()) {
                let ghost old_best = best@;
                best = copy_chars(w);
                proof {
                    assert forall|j: int| 0 <= j < i + 1 && str_lower(#[trigger] tq[j].0) == key@ && tq[j].0 != best@
                        implies form_beats(tq, best@, tq[j].0) by {
                        if j < i && tq[j].0 != old_best {
                            lemma_form_beats_trans(tq, best@, old_best, tq[j].0);
                        }
                    }
                }
            } else {
                proof {
                    lemma_form_beats_total(tq, w@, best@);
                }
            }
        }
        i += 1;
    }
    best
}

/// Whether counts `cs` with lowercase forms `ks` are in strict rank order.
pub open spec fn ranked(cs: Seq<int>, ks: Seq<Seq<char>>) -> bool {
    forall|i: int, j: int| 0 <= i < j < cs.len() ==> ranks_before(#[trigger] cs[i], ks[i], #[trigger] cs[j], ks[j])
}

/// The counts of suggestions.
pub open spec fn counts(s: Seq<WordSuggestion>) -> Seq<int> {
    Seq::new(s.len(), |i: int| s[i].count as int)
}

/// Inserting an entry where everything before it ranks above it and the entry after it
/// does not keeps a ranked list ranked, provided its lowercase form is new.
pub proof fn lemma_insert_ranked(cs: Seq<int>, ks: Seq<Seq<char>>, p: int, c: int, k: Seq<char>)
    requires
        cs.len() == ks.len(),
        0 <= p <= cs.len(),
        ranked(cs, ks),
        forall|i: int| 0 <= i < p ==> ranks_before(#[trigger] cs[i], ks[i], c, k),
        p < cs.len() ==> !ranks_before(cs[p], ks[p], c, k),
        forall|i: int| 0 <= i < ks.len() ==> #[trigger] ks[i] != k,
    ensures
        ranked(cs.insert(p, c), ks.insert(p, k)),
{
    let cs2 = cs.insert(p, c);
    let ks2 = ks.insert(p, k);
    if p < cs.len() {
        lemma_ranks_total(cs[p], ks[p], c, k);
    }
    assert forall|i: int, j: int| 0 <= i < j < cs2.len() implies ranks_before(
        #[trigger] cs2[i],
        ks2[i],
        #[trigger] cs2[j],
        ks2[j],
    ) by {
        if i < p && j < p {
            assert(ranks_before(cs[i], ks[i], cs[j], ks[j]));
        } else if i < p && j == p {
            assert(ranks_before(cs[i], ks[i], c, k));
        } else if i < p {
            assert(ranks_before(cs[i], ks[i], cs[j - 1], ks[j - 1]));
        } else if i == p {
            if j - 1 > p {
                assert(ranks_before(cs[p], ks[p], cs[j - 1], ks[j - 1]));
                lemma_ranks_trans(c, k, cs[p], ks[p], cs[j - 1], ks[j - 1]);
            }
        } else {
            assert(ranks_before(cs[i - 1], ks[i - 1], cs[j - 1], ks[j - 1]));
        }
    }
}

/// Where a suggestion with `count` and lowercase form `key` belongs in a ranked list.
fn insert_position(sugs: &Vec<WordSuggestion>, keys: &Vec<Vec<char>>, count: u32, key: &[char]) -> (p: usize)
    requires
        sugs@.len() == keys@.len(),
    ensures
        p <= sugs@.len(),
        forall|i: int| 0 <= i < p ==> ranks_before(
            #[trigger] counts(sugs@)[i],
            views(keys@)[i],
            count as int,
            key@,
        ),
        p < sugs@.len() ==> !ranks_before(counts(sugs@)[p as int], views(keys@)[p as int], count as int, key@),
{
    let n = sugs.len();
    let mut p: usize = 0;
    while p < n && (sugs[p].count > count || (sugs[p].count == count && chars_lt(keys[p].as_slice(), key)))
        invariant
            p <= n == sugs@.len() == keys@.len(),
            forall|i: int| 0 <= i < p ==> ranks_before(
                #[trigger] counts(sugs@)[i],
                views(keys@)[i],
                count as int,
                key@,
            ),
        decreases n - p,
    {
        p += 1;
    }
    p
}


/// Each suggestion describes an eligible word, and `ks` holds their lowercase forms.
pub open spec fn suggestions_ok(q: Seq<(Seq<char>, bool)>, s: Seq<WordSuggestion>, ks: Seq<Seq<char>>) -> bool {
    &&& s.len() == ks.len()
    &&& forall|i: int| 0 <= i < s.len() ==> ks[i] == str_lower(s[i].word@) && describes(q, #[trigger] s[i])
}

pub proof fn lemma_contains_push(s: Seq<Seq<char>>, a: Seq<char>)
    ensures
        forall|x: Seq<char>| #[trigger] s.push(a).contains(x) <==> s.contains(x) || x == a,
{
    assert forall|x: Seq<char>| #[trigger] s.push(a).contains(x) <==> s.contains(x) || x == a by {
        if s.contains(x) {
            let i = choose|i: int| 0 <= i < s.len() && s[i] == x;
            assert(s.push(a)[i] == x);
        }
        if x == a {
            assert(s.push(a)[s.len() as int] == x);
        }
        if s.push(a).contains(x) && x != a {
            let i = choose|i: int| 0 <= i < s.len() + 1 && s.push(a)[i] == x;
            assert(s[i] == x);
        }
    }
}

pub proof fn lemma_contains_insert(s: Seq<Seq<char>>, p: int, a: Seq<char>)
    requires
        0 <= p <= s.len(),
    ensures
        forall|x: Seq<char>| #[trigger] s.insert(p, a).contains(x) <==> s.contains(x) || x == a,
{
    assert forall|x: Seq<char>| #[trigger] s.insert(p, a).contains(x) <==> s.contains(x) || x == a by {
        if s.contains(x) {
            let i = choose|i: int| 0 <= i < s.len() && s[i] == x;
            if i < p {
                assert(s.insert(p, a)[i] == x);
            } else {
                assert(s.insert(p, a)[i + 1] == x);
            }
        }
        if x == a {
            assert(s.insert(p, a)[p] == x);
        }
        if s.insert(p, a).contains(x) && x != a {
            let i = choose|i: int| 0 <= i < s.len() + 1 && s.insert(p, a)[i] == x;
            if i < p {
                assert(s[i] == x);
            } else {
                assert(s[i - 1] == x);
            }
        }
    }
}

/// Inserts a suggestion for a new lowercase form at its rank.
fn insert_ranked(
    sugs: &mut Vec<WordSuggestion>,
    keys: &mut Vec<Vec<char>>,
    sug: WordSuggestion,
    key: Vec<char>,
    Ghost(q): Ghost<Seq<(Seq<char>, bool)>>,
)
    requires
        suggestions_ok(q, old(sugs)@, views(old(keys)@)),
        ranked(counts(old(sugs)@), views(old(keys)@)),
        key@ == str_lower(sug.word@),
        describes(q, sug),
        !views(old(keys)@).contains(key@),
    ensures
        suggestions_ok(q, final(sugs)@, views(final(keys)@)),
        ranked(counts(final(sugs)@), views(final(keys)@)),
        forall|x: Seq<char>| #[trigger] views(final(keys)@).contains(x) <==> views(old(keys)@).contains(x) || x == key@,
{
    let count = sug.count;
    let p = insert_position(sugs, keys, count, key.as_slice());
    let ghost old_sugs = sugs@;
    let ghost old_keys = views(keys@);
    proof {
        assert forall|i: int| 0 <= i < old_keys.len() implies #[trigger] old_keys[i] != key@ by {
            if old_keys[i] == key@ {
                assert(old_keys.contains(key@));
            }
        }
        lemma_insert_ranked(counts(old_sugs), old_keys, p as int, count as int, key@);
        lemma_contains_insert(old_keys, p as int, key@);
    }
    let ghost kv = key@;
    sugs.insert(p, sug);
    keys.insert(p, key);
    assert(counts(sugs@) =~= counts(old_sugs).insert(p as int, count as int));
    assert(views(keys@) =~= old_keys.insert(p as int, kv));
    assert forall|i: int| 0 <= i < sugs@.len() implies views(keys@)[i] == str_lower(sugs@[i].word@)
        && describes(q, #[trigger] sugs@[i]) by {
        if i < p {
            assert(sugs@[i] == old_sugs[i]);
        } else if i > p {
            assert(sugs@[i] == old_sugs[i - 1]);
        }
    }
}

/// A ranked list that holds every eligible word, cut off after `limit`, is the mining result.
pub proof fn lemma_mined(
    q: Seq<(Seq<char>, bool)>,
    full: Seq<WordSuggestion>,
    ks: Seq<Seq<char>>,
    limit: nat,
    r: Seq<WordSuggestion>,
)
    requires
        suggestions_ok(q, full, ks),
        ranked(counts(full), ks),
        forall|x: Seq<char>| eligible(q, x) ==> #[trigger] ks.contains(x),
        limit > 0,
        r == if limit <= full.len() { full.subrange(0, limit as int) } else { full },
    ensures
        mined(q, limit, r),
{
    assert forall|i: int| 0 <= i < r.len() implies describes(q, #[trigger] r[i]) by {
        assert(r[i] == full[i]);
    }
    assert forall|i: int, j: int| 0 <= i < j < r.len() implies ranks_before(
        r[i].count as int,
        str_lower(#[trigger] r[i].word@),
        r[j].count as int,
        str_lower(#[trigger] r[j].word@),
    ) by {
        assert(r[i] == full[i] && r[j] == full[j]);
        assert(ranks_before(counts(full)[i], ks[i], counts(full)[j], ks[j]));
    }
    assert forall|k: Seq<char>| eligible(q, k) && !(exists|i: int| 0 <= i < r.len() && str_lower(#[trigger] r[i].word@) == k)
        implies r.len() == limit && (r.len() > 0 ==> ranks_before(
            r.last().count as int,
            str_lower(r.last().word@),
            key_count(q, k) as int,
            k,
        )) by {
        assert(ks.contains(k));
        let i = choose|i: int| 0 <= i < ks.len() && ks[i] == k;
        if i < r.len() {
            assert(r[i] == full[i]);
            assert(str_lower(r[i].word@) == k);
        }
        assert(r.len() == limit);
        assert(r.last() == full[limit - 1]);
        if i != limit - 1 {
            assert(ranks_before(counts(full)[limit - 1], ks[limit - 1], counts(full)[i], ks[i]));
        }
    }
}

/// Mines likely custom-vocabulary suggestions from `texts`: the words seen capitalized where
/// no sentence starts, at least [`MIN_FREQUENCY`] times, between [`MIN_WORD_LEN`] and
/// [`MAX_WORD_LEN`] characters, that are neither numbers, everyday words, nor in
/// `exclude_lower` (lowercase words already known, learned, or dismissed). Each comes with
/// its count, ignoring case, and its preferred spelling; they are ranked by count, then
/// alphabetically, and at most `limit` are returned.
pub fn mine_word_suggestions(texts: &[String], exclude_lower: &[String], limit: usize) -> (r: Vec<WordSuggestion>)
    requires
        counts_fit(candidate_words(string_views(texts@), string_views(exclude_lower@))),
    ensures
        mined(candidate_words(string_views(texts@), string_views(exclude_lower@)), limit as nat, r@),
{
    if limit == 0 {
        return Vec::new();
    }
    let q = collect_candidates(texts, exclude_lower);
    let ghost tq = tagged_views(q@);
    let n = q.len();
    let mut sugs: Vec<WordSuggestion> = Vec::new();
    let mut keys: Vec<Vec<char>> = Vec::new();
    let mut seen: Vec<Vec<char>> = Vec::new();
    let mut t: usize = 0;
    assert(views(keys@) =~= seq![]);
    assert(views(seen@) =~= seq![]);
    while t < n
        invariant
            t <= n == q@.len(),
            tq == tagged_views(q@),
            counts_fit(tq),
            suggestions_ok(tq, sugs@, views(keys@)),
            ranked(counts(sugs@), views(keys@)),
            forall|x: Seq<char>| #[trigger] views(keys@).contains(x) ==> views(seen@).contains(x),
            forall|j: int| 0 <= j < t ==> views(seen@).contains(str_lower(#[trigger] tq[j].0)),
            forall|x: Seq<char>| #[trigger] views(seen@).contains(x) && eligible(tq, x) ==> views(keys@).contains(x),
        decreases n - t,
    {
        let key = lower_chars(q[t].0.as_slice());
        assert(key@ == str_lower(tq[t as int].0));
        let ns = seen.len();
        let mut s: usize = 0;
        let mut present = false;
        while s < ns && !present
            invariant
                s <= ns == seen@.len(),
                present ==> s < ns && views(seen@)[s as int] == key@,
                !present ==> forall|m: int| 0 <= m < s ==> #[trigger] views(seen@)[m] != key@,
            decreases ns - s + if present { 0int } else { 1int },
        {
            if chars_eq(seen[s].as_slice(), key.as_slice()) {
                present = true;
            } else {
                s += 1;
            }
        }
        if present {
            assert(views(seen@).contains(key@));
        } else {
            assert(!views(seen@).contains(key@));
            let total = count_key(&q, key.as_slice());
            assert(total <= u32::MAX);
            let ghost old_keys = views(keys@);
            if total >= MIN_FREQUENCY as usize && has_proper(&q, key.as_slice()) {
                let word = pick_surface_form(&q, key.as_slice());
                let sug = WordSuggestion { word: string_from(word.as_slice()), count: total as u32 };
                insert_ranked(&mut sugs, &mut keys, sug, copy_chars(key.as_slice()), Ghost(tq));
            }
            let ghost old_seen = views(seen@);
            seen.push(key);
            assert(views(seen@) =~= old_seen.push(str_lower(tq[t as int].0)));
            proof {
                lemma_contains_push(old_seen, str_lower(tq[t as int].0));
            }
        }
        t += 1;
    }
    proof {
        assert forall|x: Seq<char>| eligible(tq, x) implies #[trigger] views(keys@).contains(x) by {
            let j = choose|j: int| 0 <= j < tq.len() && str_lower(#[trigger] tq[j].0) == x && first_upper(tq[j].0) && !tq[j].1;
            assert(views(seen@).contains(str_lower(tq[j].0)));
        }
    }
    let ghost full = sugs@;
    sugs.truncate(limit);
    proof {
        lemma_mined(tq, full, views(keys@), limit as nat, sugs@);
    }
    sugs
}

// ---------------------------------------------------------------------------
// The learned and dismissed word lists.
// ---------------------------------------------------------------------------

/// Maximum number of accepted learned words (the cap on custom words).
pub const LEARNED_WORDS_CAP: usize = 500;

/// The words of `ws` whose lowercase form is not `lower`, in order.
pub open spec fn without_word(ws: Seq<Seq<char>>, lower: Seq<char>) -> Seq<Seq<char>>
    decreases ws.len(),
{
    if ws.len() == 0 {
        seq![]
    } else {
        without_word(ws.drop_last(), lower) + if str_lower(ws.last()) == lower { seq![] } else { seq![ws.last()] }
    }
}

/// Whether a word of `ws` has the lowercase form `lower`.
pub open spec fn has_word(ws: Seq<Seq<char>>, lower: Seq<char>) -> bool {
    exists|i: int| 0 <= i < ws.len() && str_lower(#[trigger] ws[i]) == lower
}

/// Whether some word of `ws` has the lowercase form `lower`.
fn contains_word(ws: &Vec<String>, lower: &[char]) -> (r: bool)
    ensures
        r == has_word(string_views(ws@), lower@),
{
    let n = ws.len();
    let mut i: usize = 0;
    while i < n
        invariant
            i <= n == ws@.len(),
            forall|j: int| 0 <= j < i ==> str_lower(#[trigger] string_views(ws@)[j]) != lower@,
        decreases n - i,
    {
        let l = lower_chars(chars_of(ws[i].as_str()).as_slice());
        if chars_eq(l.as_slice(), lower) {
            assert(str_lower(string_views(ws@)[i as int]) == lower@);
            return true;
        }
        i += 1;
    }
    false
}

/// Removes every word whose lowercase form is `lower`.
fn remove_word(ws: &mut Vec<String>, lower: &[char])
    ensures
        string_views(final(ws)@) == without_word(string_views(old(ws)@), lower@),
{
    let ghost original = string_views(ws@);
    let mut kept: Vec<String> = Vec::new();
    let n = ws.len();
    let mut i: usize = 0;
    while i < n
        invariant
            i <= n == ws@.len(),
            original == string_views(ws@),
            string_views(kept@) == without_word(original.take(i as int), lower@),
        decreases n - i,
    {
        assert(original.take(i + 1).drop_last() =~= original.take(i as int));
        let l = lower_chars(chars_of(ws[i].as_str()).as_slice());
        if !chars_eq(l.as_slice(), lower) {
            let ghost before = string_views(kept@);
            let w = string_from(chars_of(ws[i].as_str()).as_slice());
            kept.push(w);
            assert(string_views(kept@) =~= before.push(original[i as int]));
        }
        i += 1;
    }
    assert(original.take(n as int) =~= original);
    *ws = kept;
}

/// The result of accepting `word` into the learned words: an empty word and a full list
/// are refused and change nothing; otherwise the word leaves the dismissed list and, unless
/// a case-insensitive equal is already learned, joins the learned list as trimmed.
pub open spec fn accept_outcome(learned: Seq<Seq<char>>, dismissed: Seq<Seq<char>>, word: Seq<char>) -> Result<
    (Seq<Seq<char>>, Seq<Seq<char>>),
    Seq<char>,
> {
    let t = trim_ws(word);
    let lower = str_lower(t);
    if t.len() == 0 {
        Err("Word is empty"@)
    } else if !has_word(learned, lower) && learned.len() >= LEARNED_WORDS_CAP {
        Err("Learned words list is full (500 max)"@)
    } else {
        Ok((if has_word(learned, lower) { learned } else { learned.push(t) }, without_word(dismissed, lower)))
    }
}

/// Accepts a mined suggestion into the learned words (deduplicated ignoring case) and
/// takes it off the dismissed list.
pub fn accept_word_suggestion(learned: &mut Vec<String>, dismissed: &mut Vec<String>, word: &str) -> (r: Result<(), String>)
    ensures
        match accept_outcome(string_views(old(learned)@), string_views(old(dismissed)@), word@) {
            Ok((l, d)) => r is Ok && string_views(final(learned)@) == l && string_views(final(dismissed)@) == d,
            Err(m) => (r matches Err(e) && e@ == m) && final(learned)@ == old(learned)@ && final(dismissed)@ == old(
                dismissed,
            )@,
        },
{
    let trimmed = trim_whitespace(chars_of(word).as_slice());
    if trimmed.len() == 0 {
        return Err(string_from(chars_of("Word is empty").as_slice()));
    }
    let lower = lower_chars(trimmed.as_slice());
    let already = contains_word(learned, lower.as_slice());
    if !already && learned.len() >= LEARNED_WORDS_CAP {
        return Err(string_from(chars_of("Learned words list is full (500 max)").as_slice()));
    }
    remove_word(dismissed, lower.as_slice());
    if !already {
        let ghost before = string_views(learned@);
        learned.push(string_from(trimmed.as_slice()));
        assert(string_views(learned@) =~= before.push(trimmed@));
    }
    Ok(())
}

/// The dismissed list after dismissing `word`: an empty word is refused; a word already
/// dismissed, ignoring case, is not added twice.
pub open spec fn dismiss_outcome(dismissed: Seq<Seq<char>>, word: Seq<char>) -> Result<Seq<Seq<char>>, Seq<char>> {
    let t = trim_ws(word);
    if t.len() == 0 {
        Err("Word is empty"@)
    } else if has_word(dismissed, str_lower(t)) {
        Ok(dismissed)
    } else {
        Ok(dismissed.push(t))
    }
}

/// Dismisses a mined suggestion so it is not surfaced again.
pub fn dismiss_word_suggestion(dismissed: &mut Vec<String>, word: &str) -> (r: Result<(), String>)
    ensures
        match dismiss_outcome(string_views(old(dismissed)@), word@) {
            Ok(d) => r is Ok && string_views(final(dismissed)@) == d,
            Err(m) => (r matches Err(e) && e@ == m) && final(dismissed)@ == old(dismissed)@,
        },
{
    let trimmed = trim_whitespace(chars_of(word).as_slice());
    if trimmed.len() == 0 {
        return Err(string_from(chars_of("Word is empty").as_slice()));
    }
    let lower = lower_chars(trimmed.as_slice());
    if !contains_word(dismissed, lower.as_slice()) {
        let ghost before = string_views(dismissed@);
        dismissed.push(string_from(trimmed.as_slice()));
        assert(string_views(dismissed@) =~= before.push(trimmed@));
    }
    Ok(())
}

/// The lowercase forms of `ws`.
pub open spec fn lowered(ws: Seq<Seq<char>>) -> Seq<Seq<char>> {
    ws.map_values(|w: Seq<char>| str_lower(w))
}

/// Appends the lowercase form of each word of `ws`.
fn append_lowered(out: &mut Vec<String>, ws: &Vec<String>)
    ensures
        string_views(final(out)@) == string_views(old(out)@) + lowered(string_views(ws@)),
{
    let ghost start = string_views(out@);
    let n = ws.len();
    let mut k: usize = 0;
    while k < n
        invariant
            k <= n == ws@.len(),
            string_views(out@) == start + lowered(string_views(ws@).take(k as int)),
        decreases n - k,
    {
        let l = lower_chars(chars_of(ws[k].as_str()).as_slice());
        let ghost before = string_views(out@);
        out.push(string_from(l.as_slice()));
        assert(string_views(out@) =~= before.push(str_lower(ws@[k as int]@)));
        assert(lowered(string_views(ws@).take(k + 1)) =~= lowered(string_views(ws@).take(k as int)).push(
            str_lower(ws@[k as int]@),
        ));
        k += 1;
    }
    assert(string_views(ws@).take(n as int) =~= string_views(ws@));
}

/// The lowercase forms of the words mining must skip: the user's custom words, the learned
/// words, and the dismissed suggestions.
pub fn excluded_words(custom_words: &Vec<String>, learned: &Vec<String>, dismissed: &Vec<String>) -> (r: Vec<String>)
    ensures
        string_views(r@) == lowered(string_views(custom_words@)) + lowered(string_views(learned@)) + lowered(
            string_views(dismissed@),
        ),
{
    let mut out: Vec<String> = Vec::new();
    assert(string_views(out@) =~= seq![]);
    append_lowered(&mut out, custom_words);
    append_lowered(&mut out, learned);
    append_lowered(&mut out, dismissed);
    assert(string_views(out@) =~= lowered(string_views(custom_words@)) + lowered(string_views(learned@))
        + lowered(string_views(dismissed@)));
    out
}

/// Vocabulary suggestions mined from the transcript history `texts`: none while
/// personalization is off; otherwise at most `limit` words, skipping the custom words and the
/// learned and dismissed ones, ignoring case.
pub fn get_word_suggestions(
    data: &PersonalizationData,
    custom_words: &Vec<String>,
    texts: &[String],
    limit: u32,
) -> (r: Vec<WordSuggestion>)
    requires
        counts_fit(
            candidate_words(
                string_views(texts@),
                lowered(string_views(custom_words@)) + lowered(string_views(data.learned_words@))
                    + lowered(string_views(data.dismissed_suggestions@)),
            ),
        ),
    ensures
        !data.enabled ==> r@.len() == 0,
        data.enabled ==> mined(
            candidate_words(
                string_views(texts@),
                lowered(string_views(custom_words@)) + lowered(string_views(data.learned_words@))
                    + lowered(string_views(data.dismissed_suggestions@)),
            ),
            limit as nat,
            r@,
        ),
{
    if !data.enabled {
        return Vec::new();
    }
    let exclude = excluded_words(custom_words, &data.learned_words, &data.dismissed_suggestions);
    mine_word_suggestions(texts, exclude.as_slice(), limit as usize)
}

/// Clears the learned data (words, replacements, dismissed suggestions) and keeps the
/// opt-in switch as it was.
pub fn reset_personalization(data: &mut PersonalizationData)
    ensures
        final(data).enabled == old(data).enabled,
        final(data).learned_words@.len() == 0,
        final(data).learned_replacements@.len() == 0,
        final(data).dismissed_suggestions@.len() == 0,
{
    data.learned_words = Vec::new();
    data.learned_replacements = Vec::new();
    data.dismissed_suggestions = Vec::new();
}

} // verus!

verus! {

// ---------------------------------------------------------------------------
// A sentence terminator starts a new sentence.
// ---------------------------------------------------------------------------

/// The words of a text from position `|p| + j` on do not depend on the text before it.
proof fn lemma_words_shift(p: Seq<char>, b: Seq<char>, j: int, cur: Seq<char>, start: bool)
    requires
        0 <= j <= b.len(),
    ensures
        words_from(p + b, p.len() + j, cur, start) == words_from(b, j, cur, start),
    decreases b.len() - j,
{
    let s = p + b;
    if j < b.len() {
        assert(s[p.len() + j] == b[j]);
        if continues_word(b[j], cur) {
            lemma_words_shift(p, b, j + 1, cur.push(b[j]), start);
        } else {
            let st = if terminator(b[j]) { true } else if cur.len() > 0 { false } else { start };
            lemma_words_shift(p, b, j + 1, seq![], st);
        }
    }
}

proof fn lemma_words_split(a: Seq<char>, t: char, b: Seq<char>, i: int, cur: Seq<char>, start: bool)
    requires
        terminator(t),
        !alnum_char(t),
        0 <= i <= a.len(),
    ensures
        words_from(a + seq![t] + b, i, cur, start) == words_from(a + seq![t], i, cur, start) + sentence_words(b),
    decreases a.len() - i,
{
    let s = a + seq![t] + b;
    let s1 = a + seq![t];
    if i < a.len() {
        assert(s[i] == a[i] && s1[i] == a[i]);
        if continues_word(a[i], cur) {
            lemma_words_split(a, t, b, i + 1, cur.push(a[i]), start);
        } else {
            let st = if terminator(a[i]) { true } else if cur.len() > 0 { false } else { start };
            lemma_words_split(a, t, b, i + 1, seq![], st);
            assert(flush_word(cur, start) + (words_from(s1, i + 1, seq![], st) + sentence_words(b)) =~= (
            flush_word(cur, start) + words_from(s1, i + 1, seq![], st)) + sentence_words(b));
        }
    } else {
        assert(s[i] == t && s1[i] == t);
        assert(!continues_word(t, cur));
        assert(words_from(s1, i + 1, seq![], true) == flush_word(seq![], true));
        assert(flush_word(seq![], true) =~= Seq::<(Seq<char>, bool)>::empty());
        assert(s =~= s1 + b);
        lemma_words_shift(s1, b, 0, seq![], true);
        assert(flush_word(cur, start) + Seq::<(Seq<char>, bool)>::empty() =~= flush_word(cur, start));
    }
}

/// A sentence terminator (".", "?" or "!") starts a new sentence: the words of a text split
/// right after a terminator are the words before it followed by the words after it read as
/// a text of their own, which begin a sentence, so the first word after any terminator is
/// flagged as beginning a sentence. A word capitalized only there is therefore never evidence of a proper noun.
/// (`t` is punctuation; Unicode classes are known only through `char`'s methods, so that it
/// is not a letter or digit is stated.)
pub proof fn law_terminator_starts_a_sentence(a: Seq<char>, t: char, b: Seq<char>)
    requires
        t == '.' || t == '?' || t == '!',
        !alnum_char(t),
    ensures
        sentence_words(a + seq![t] + b) == sentence_words(a + seq![t]) + sentence_words(b),
{
    lemma_words_split(a, t, b, 0, seq![], true);
}

} // verus!
