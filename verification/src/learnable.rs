//! The second stage of correction capture: deciding whether a one-for-one substitution the
//! user made is a mishear worth learning as a global rule. Precision wins over recall: a
//! grammar edit, a typography or accent edit, a version change, a swap between two ordinary
//! words or two names, and an unclassified swap without spelling or phonetic evidence are all
//! refused, for the whole token and for each changed component of it.
use vstd::prelude::*;
use crate::replacements::{regex_find_texts, regex_match_texts, replacement_pattern, rule_pattern};
use crate::text::{
    all_caps, alpha_only, alphanumeric_components, apostrophe_normalized, ascii_letters_of,
    capitalized, components, contraction_edit, has_intentional_mixed_case, intentional_mixed_case,
    is_all_caps, is_capitalized, is_contraction_edit, is_regular_inflection_edit,
    normalize_apostrophes, regular_inflection_edit,
};
use crate::unicode::{
    alnum_char, alphabetic_char, ascii_ci_eq, char_lower, chars_eq, chars_of, eq_ignore_ascii_case,
    eq_lit, extend_chars, is_alphabetic, is_alphanumeric, is_numeric, lower_char, lower_chars,
    numeric_char, split_on, split_on_char, str_lower, string_from, trim_whitespace, trim_ws, views,
};

verus! {

// ---------------------------------------------------------------------------
// What the outside crates compute.
// ---------------------------------------------------------------------------

/// The canonical decomposition (NFD) of a text.
pub uninterp spec fn nfd_of(s: Seq<char>) -> Seq<char>;

/// Whether a character is a combining mark.
pub uninterp spec fn combining_mark(c: char) -> bool;

/// The Metaphone code of a text.
pub uninterp spec fn metaphone_code(s: Seq<char>) -> Seq<char>;

/// The primary and the alternate Double Metaphone codes of a text.
pub uninterp spec fn double_metaphone_codes(s: Seq<char>) -> (Seq<char>, Seq<char>);

/// The Damerau-Levenshtein distance between two texts.
pub uninterp spec fn damerau_levenshtein_distance(a: Seq<char>, b: Seq<char>) -> usize;

/// `unicode_normalization::UnicodeNormalization::nfd` on a string, collected. The contract
/// only names the result.
#[verifier::external_body]
fn nfd(s: &str) -> (r: String)
    ensures
        r@ == nfd_of(s@),
{
    unicode_normalization::UnicodeNormalization::nfd(s).collect()
}

/// `unicode_normalization::char::is_combining_mark`. The contract only names the result.
#[verifier::external_body]
fn is_combining_mark(c: char) -> (r: bool)
    ensures
        r == combining_mark(c),
{
    unicode_normalization::char::is_combining_mark(c)
}

/// An ASCII letter.
pub open spec fn ascii_letter(c: char) -> bool {
    ('a' <= c && c <= 'z') || ('A' <= c && c <= 'Z')
}

/// `rphonetic::Metaphone::default().encode` (through the `Encoder` trait). The contract
/// only names the result; it is called on ASCII letters only.
#[verifier::external_body]
fn metaphone(s: &str) -> (r: String)
    requires
        forall|i: int| 0 <= i < s@.len() ==> ascii_letter(#[trigger] s@[i]),
    ensures
        r@ == metaphone_code(s@),
{
    rphonetic::Encoder::encode(&rphonetic::Metaphone::default(), s)
}

/// `rphonetic::DoubleMetaphone::default().double_metaphone`, as its primary and alternate
/// codes. The contract only names the result; it is called on ASCII letters only.
#[verifier::external_body]
fn double_metaphone(s: &str) -> (r: (String, String))
    requires
        forall|i: int| 0 <= i < s@.len() ==> ascii_letter(#[trigger] s@[i]),
    ensures
        (r.0@, r.1@) == double_metaphone_codes(s@),
{
    let codes = rphonetic::DoubleMetaphone::default().double_metaphone(s);
    (codes.primary(), codes.alternate())
}

/// `strsim::damerau_levenshtein`. The contract only names the result.
#[verifier::external_body]
fn damerau_levenshtein(a: &str, b: &str) -> (r: usize)
    ensures
        r == damerau_levenshtein_distance(a@, b@),
{
    strsim::damerau_levenshtein(a, b)
}

// ---------------------------------------------------------------------------
// The word lists.
// ---------------------------------------------------------------------------

/// The English word lists correction capture consults: lowercase dictionary words and
/// contractions, and the lowercased names and calendar terms kept apart from them.
pub struct Lexicon {
    pub words: Vec<String>,
    pub named_entities: Vec<String>,
}

/// Whether a list holds a word, compared lowercased with curly apostrophes made straight.
pub open spec fn listed(list: Seq<String>, w: Seq<char>) -> bool {
    exists|i: int| 0 <= i < list.len() && (#[trigger] list[i])@ == apostrophe_normalized(w)
}

/// An ordinary English word.
pub open spec fn known_word(lex: Lexicon, w: Seq<char>) -> bool {
    listed(lex.words@, w)
}

/// A known English name or calendar term.
pub open spec fn named_entity(lex: Lexicon, w: Seq<char>) -> bool {
    listed(lex.named_entities@, w)
}

fn is_listed(list: &Vec<String>, w: &[char]) -> (r: bool)
    ensures
        r == listed(list@, w@),
{
    let key = normalize_apostrophes(w);
    let mut i: usize = 0;
    while i < list.len()
        invariant
            i <= list@.len(),
            key@ == apostrophe_normalized(w@),
            forall|j: int| 0 <= j < i ==> (#[trigger] list@[j])@ != key@,
        decreases list@.len() - i,
    {
        let entry = chars_of(list[i].as_str());
        if chars_eq(entry.as_slice(), key.as_slice()) {
            return true;
        }
        i += 1;
    }
    false
}

/// The entries of a word list: its lines trimmed, empty ones left out.
pub open spec fn list_entries(lines: Seq<Seq<char>>) -> Seq<Seq<char>>
    decreases lines.len(),
{
    if lines.len() == 0 {
        seq![]
    } else {
        list_entries(lines.drop_last()) + if trim_ws(lines.last()).len() > 0 {
            seq![trim_ws(lines.last())]
        } else {
            seq![]
        }
    }
}

/// The entries of a word list written one per line.
pub open spec fn word_list(text: Seq<char>) -> Seq<Seq<char>> {
    list_entries(split_on(text, '\n'))
}

fn entries_of(text: &str) -> (r: Vec<String>)
    ensures
        Seq::new(r@.len(), |i: int| r@[i]@) == word_list(text@),
{
    let lines = split_on_char(chars_of(text).as_slice(), '\n');
    let ghost lv = views(lines@);
    let mut out: Vec<String> = Vec::new();
    let mut i: usize = 0;
    while i < lines.len()
        invariant
            lv == views(lines@),
            lv == split_on(text@, '\n'),
            i <= lines@.len(),
            Seq::new(out@.len(), |k: int| out@[k]@) == list_entries(lv.take(i as int)),
        decreases lines@.len() - i,
    {
        assert(lv.take(i + 1).drop_last() =~= lv.take(i as int));
        assert(lv[i as int] == lines@[i as int]@);
        let ghost before = Seq::new(out@.len(), |k: int| out@[k]@);
        let t = trim_whitespace(lines[i].as_slice());
        if t.len() > 0 {
            out.push(string_from(t.as_slice()));
            assert(Seq::new(out@.len(), |k: int| out@[k]@) =~= before.push(t@));
        }
        assert(Seq::new(out@.len(), |k: int| out@[k]@) =~= list_entries(lv.take(i + 1)));
        i += 1;
    }
    assert(lv.take(lines@.len() as int) =~= lv);
    out
}

impl Lexicon {
    /// The lexicon of two word lists written one entry per line; surrounding whitespace is
    /// trimmed and blank lines are skipped.
    pub fn from_lists(words: &str, named_entities: &str) -> (r: Lexicon)
        ensures
            Seq::new(r.words@.len(), |i: int| r.words@[i]@) == word_list(words@),
            Seq::new(r.named_entities@.len(), |i: int| r.named_entities@[i]@) == word_list(named_entities@),
    {
        Lexicon { words: entries_of(words), named_entities: entries_of(named_entities) }
    }

    /// Whether `word` is an ordinary English word of the list.
    pub fn is_known_word(&self, word: &[char]) -> (r: bool)
        ensures
            r == known_word(*self, word@),
    {
        is_listed(&self.words, word)
    }

    /// Whether `word` is a known English name or calendar term.
    pub fn is_named_entity(&self, word: &[char]) -> (r: bool)
        ensures
            r == named_entity(*self, word@),
    {
        is_listed(&self.named_entities, word)
    }
}

// ---------------------------------------------------------------------------
// Mishear evidence.
// ---------------------------------------------------------------------------

/// Whether a text holds a letter outside ASCII.
pub open spec fn non_ascii_letter(s: Seq<char>) -> bool {
    exists|i: int| 0 <= i < s.len() && alphabetic_char(#[trigger] s[i]) && !ascii_letter(s[i])
}

fn has_non_ascii_letter(s: &[char]) -> (r: bool)
    ensures
        r == non_ascii_letter(s@),
{
    let mut i: usize = 0;
    while i < s.len()
        invariant
            i <= s@.len(),
            forall|j: int| 0 <= j < i ==> !(alphabetic_char(#[trigger] s@[j]) && !ascii_letter(s@[j])),
        decreases s@.len() - i,
    {
        let c = s[i];
        if is_alphabetic(c) && !(('a' <= c && c <= 'z') || ('A' <= c && c <= 'Z')) {
            return true;
        }
        i += 1;
    }
    false
}

/// The lowercase forms of the letters of a text, in order: the key two spellings are
/// compared by.
pub open spec fn spelling_key(s: Seq<char>) -> Seq<char>
    decreases s.len(),
{
    if s.len() == 0 {
        seq![]
    } else {
        spelling_key(s.drop_last()) + if alphabetic_char(s.last()) {
            char_lower(s.last())
        } else {
            seq![]
        }
    }
}

/// The spelling key of a text: its letters, lowercased.
pub fn spelling_key_of(s: &[char]) -> (r: Vec<char>)
    ensures
        r@ == spelling_key(s@),
{
    let mut out: Vec<char> = Vec::new();
    let mut i: usize = 0;
    while i < s.len()
        invariant
            i <= s@.len(),
            out@ == spelling_key(s@.take(i as int)),
        decreases s@.len() - i,
    {
        assert(s@.take(i + 1).drop_last() =~= s@.take(i as int));
        if is_alphabetic(s[i]) {
            let l = lower_char(s[i]);
            extend_chars(&mut out, l.as_slice());
        }
        assert(out@ =~= spelling_key(s@.take(i + 1)));
        i += 1;
    }
    assert(s@.take(s@.len() as int) =~= s@);
    out
}

/// Whether the pair of spelling keys `(a, b)` is among those judged close (a Jaro-Winkler
/// similarity of at least 0.90, which is computed outside the library).
pub open spec fn judged_close(close: Seq<(String, String)>, a: Seq<char>, b: Seq<char>) -> bool {
    exists|i: int| 0 <= i < close.len() && (#[trigger] close[i]).0@ == a && close[i].1@ == b
}

fn is_judged_close(close: &[(String, String)], a: &[char], b: &[char]) -> (r: bool)
    ensures
        r == judged_close(close@, a@, b@),
{
    let mut i: usize = 0;
    while i < close.len()
        invariant
            i <= close@.len(),
            forall|j: int| 0 <= j < i ==> !((#[trigger] close@[j]).0@ == a@ && close@[j].1@ == b@),
        decreases close@.len() - i,
    {
        let x = chars_of(close[i].0.as_str());
        let y = chars_of(close[i].1.as_str());
        if chars_eq(x.as_slice(), a) && chars_eq(y.as_slice(), b) {
            return true;
        }
        i += 1;
    }
    false
}

/// Close-spelling evidence: both sides ASCII-lettered, and their spelling keys non-empty,
/// one edit apart at most, and judged close.
pub open spec fn close_spelling(close: Seq<(String, String)>, from: Seq<char>, to: Seq<char>) -> bool {
    let a = spelling_key(from);
    let b = spelling_key(to);
    &&& !non_ascii_letter(from)
    &&& !non_ascii_letter(to)
    &&& a.len() > 0
    &&& b.len() > 0
    &&& damerau_levenshtein_distance(a, b) <= 1
    &&& judged_close(close, a, b)
}

fn has_close_spelling(close: &[(String, String)], from: &[char], to: &[char]) -> (r: bool)
    ensures
        r == close_spelling(close@, from@, to@),
{
    if has_non_ascii_letter(from) || has_non_ascii_letter(to) {
        return false;
    }
    let a = spelling_key_of(from);
    let b = spelling_key_of(to);
    if a.len() == 0 || b.len() == 0 {
        return false;
    }
    let sa = string_from(a.as_slice());
    let sb = string_from(b.as_slice());
    damerau_levenshtein(sa.as_str(), sb.as_str()) <= 1 && is_judged_close(close, a.as_slice(), b.as_slice())
}

/// Phonetic evidence: both sides ASCII-lettered, and their ASCII letters non-empty with the
/// same Metaphone code, the same primary Double Metaphone code, or the same alternate one.
pub open spec fn phonetic_match(from: Seq<char>, to: Seq<char>) -> bool {
    let a = ascii_letters_of(from);
    let b = ascii_letters_of(to);
    &&& !non_ascii_letter(from)
    &&& !non_ascii_letter(to)
    &&& a.len() > 0
    &&& b.len() > 0
    &&& {
        ||| metaphone_code(a) == metaphone_code(b)
        ||| double_metaphone_codes(a).0 == double_metaphone_codes(b).0
        ||| double_metaphone_codes(a).1 == double_metaphone_codes(b).1
    }
}

proof fn lemma_ascii_letters(s: Seq<char>)
    ensures
        forall|i: int| 0 <= i < ascii_letters_of(s).len() ==> ascii_letter(#[trigger] ascii_letters_of(s)[i]),
    decreases s.len(),
{
    if s.len() > 0 {
        lemma_ascii_letters(s.drop_last());
        let p = ascii_letters_of(s.drop_last());
        assert forall|i: int| 0 <= i < ascii_letters_of(s).len() implies ascii_letter(
            #[trigger] ascii_letters_of(s)[i],
        ) by {
            if i < p.len() {
                assert(ascii_letters_of(s)[i] == p[i]);
            }
        }
    }
}

fn has_phonetic_match(from: &[char], to: &[char]) -> (r: bool)
    ensures
        r == phonetic_match(from@, to@),
{
    if has_non_ascii_letter(from) || has_non_ascii_letter(to) {
        return false;
    }
    let a = alpha_only(from);
    let b = alpha_only(to);
    if a.len() == 0 || b.len() == 0 {
        return false;
    }
    proof {
        lemma_ascii_letters(from@);
        lemma_ascii_letters(to@);
    }
    let sa = string_from(a.as_slice());
    let sb = string_from(b.as_slice());
    let ma = chars_of(metaphone(sa.as_str()).as_str());
    let mb = chars_of(metaphone(sb.as_str()).as_str());
    if chars_eq(ma.as_slice(), mb.as_slice()) {
        return true;
    }
    let (pa, aa) = double_metaphone(sa.as_str());
    let (pb, ab) = double_metaphone(sb.as_str());
    chars_eq(chars_of(pa.as_str()).as_slice(), chars_of(pb.as_str()).as_slice())
        || chars_eq(chars_of(aa.as_str()).as_slice(), chars_of(ab.as_str()).as_slice())
}

/// Spelling or phonetic evidence of a dictation mishear.
pub open spec fn mishear(close: Seq<(String, String)>, from: Seq<char>, to: Seq<char>) -> bool {
    close_spelling(close, from, to) || phonetic_match(from, to)
}

/// Whether the word lists allow a pair: never from a word that is both ordinary and a name;
/// between two names only on close spelling and phonetic evidence together; a swap between
/// an ordinary word and a name, or between two intentionally mixed-case terms, only on
/// phonetic or mishear evidence; a pair outside a shared category only on mishear evidence;
/// and never between two ordinary words.
pub open spec fn safe_lexical(lex: Lexicon, close: Seq<(String, String)>, from: Seq<char>, to: Seq<char>) -> bool {
    let fw = known_word(lex, from);
    let tw = known_word(lex, to);
    let fe = named_entity(lex, from);
    let te = named_entity(lex, to);
    if fw && fe {
        false
    } else if fe && te && !(close_spelling(close, from, to) && phonetic_match(from, to)) {
        false
    } else if !(fe && te) && fw != tw && fe != te && !phonetic_match(from, to) {
        false
    } else if intentional_mixed_case(from) && intentional_mixed_case(to) && !mishear(close, from, to) {
        false
    } else if !((fw && tw) || (fe && te)) && !mishear(close, from, to) {
        false
    } else {
        !fw || !tw
    }
}

fn has_safe_lexical_evidence(lex: &Lexicon, close: &[(String, String)], from: &[char], to: &[char]) -> (r: bool)
    ensures
        r == safe_lexical(*lex, close@, from@, to@),
{
    let fw = lex.is_known_word(from);
    let tw = lex.is_known_word(to);
    let fe = lex.is_named_entity(from);
    let te = lex.is_named_entity(to);
    if fw && fe {
        return false;
    }
    if fe && te {
        if !has_close_spelling(close, from, to) || !has_phonetic_match(from, to) {
            return false;
        }
    } else if fw != tw && fe != te && !has_phonetic_match(from, to) {
        return false;
    }
    if has_intentional_mixed_case(from) && has_intentional_mixed_case(to) && !(has_close_spelling(
        close,
        from,
        to,
    ) || has_phonetic_match(from, to)) {
        return false;
    }
    let shares = (fw && tw) || (fe && te);
    if !shares && !(has_close_spelling(close, from, to) || has_phonetic_match(from, to)) {
        return false;
    }
    !fw || !tw
}

// ---------------------------------------------------------------------------
// Whether a substitution is learnable.
// ---------------------------------------------------------------------------

/// At least two characters, one of them a letter.
pub open spec fn word_shaped(w: Seq<char>) -> bool {
    w.len() >= 2 && exists|i: int| 0 <= i < w.len() && alphabetic_char(#[trigger] w[i])
}

fn is_word_shaped(w: &[char]) -> (r: bool)
    ensures
        r == word_shaped(w@),
{
    if w.len() < 2 {
        return false;
    }
    let mut i: usize = 0;
    while i < w.len()
        invariant
            2 <= w@.len(),
            i <= w@.len(),
            forall|j: int| 0 <= j < i ==> !alphabetic_char(#[trigger] w@[j]),
        decreases w@.len() - i,
    {
        if is_alphabetic(w[i]) {
            assert(alphabetic_char(w@[i as int]));
            return true;
        }
        i += 1;
    }
    false
}

/// Whether the first match of `pattern` in `text` is the whole of `text`.
pub open spec fn matches_entire(pattern: Seq<char>, text: Seq<char>) -> bool {
    match regex_match_texts(pattern, text) {
        Some(ms) => ms.len() > 0 && ms[0] == text,
        None => false,
    }
}

pub(crate) fn regex_matches_entire(pattern: &str, text: &str) -> (r: bool)
    ensures
        r == matches_entire(pattern@, text@),
{
    match regex_find_texts(pattern, text) {
        Some(found) => {
            if found.len() == 0 {
                false
            } else {
                let first = chars_of(found[0].as_str());
                let whole = chars_of(text);
                chars_eq(first.as_slice(), whole.as_slice())
            }
        },
        None => false,
    }
}

/// The characters of a text that are neither letters nor digits, in order.
pub open spec fn symbol_skeleton(s: Seq<char>) -> Seq<char>
    decreases s.len(),
{
    if s.len() == 0 {
        seq![]
    } else {
        symbol_skeleton(s.drop_last()) + if !alnum_char(s.last()) {
            seq![s.last()]
        } else {
            seq![]
        }
    }
}

fn symbols_of(s: &[char]) -> (r: Vec<char>)
    ensures
        r@ == symbol_skeleton(s@),
{
    let mut out: Vec<char> = Vec::new();
    let mut i: usize = 0;
    while i < s.len()
        invariant
            i <= s@.len(),
            out@ == symbol_skeleton(s@.take(i as int)),
        decreases s@.len() - i,
    {
        assert(s@.take(i + 1).drop_last() =~= s@.take(i as int));
        if !is_alphanumeric(s[i]) {
            out.push(s[i]);
        }
        assert(out@ =~= symbol_skeleton(s@.take(i + 1)));
        i += 1;
    }
    assert(s@.take(s@.len() as int) =~= s@);
    out
}

/// The letters and digits of a decomposed text that are not combining marks, lowercased.
pub open spec fn base_alnum_lowered(s: Seq<char>) -> Seq<char>
    decreases s.len(),
{
    if s.len() == 0 {
        seq![]
    } else {
        base_alnum_lowered(s.drop_last()) + if !combining_mark(s.last()) && alnum_char(s.last()) {
            char_lower(s.last())
        } else {
            seq![]
        }
    }
}

/// The orthographic key of a word: its canonical decomposition without combining marks,
/// letters and digits only, lowercased. Accent, typography and punctuation edits keep it.
pub open spec fn orthographic_key(w: Seq<char>) -> Seq<char> {
    base_alnum_lowered(nfd_of(w))
}

fn orthographic_key_of(w: &[char]) -> (r: Vec<char>)
    ensures
        r@ == orthographic_key(w@),
{
    let d = chars_of(nfd(string_from(w).as_str()).as_str());
    let mut out: Vec<char> = Vec::new();
    let mut i: usize = 0;
    while i < d.len()
        invariant
            i <= d@.len(),
            d@ == nfd_of(w@),
            out@ == base_alnum_lowered(d@.take(i as int)),
        decreases d@.len() - i,
    {
        assert(d@.take(i + 1).drop_last() =~= d@.take(i as int));
        let c = d[i];
        if !is_combining_mark(c) && is_alphanumeric(c) {
            let l = lower_char(c);
            extend_chars(&mut out, l.as_slice());
        }
        assert(out@ =~= base_alnum_lowered(d@.take(i + 1)));
        i += 1;
    }
    assert(d@.take(d@.len() as int) =~= d@);
    out
}

/// Whether a text holds a numeric character.
pub open spec fn has_digit(s: Seq<char>) -> bool {
    exists|i: int| 0 <= i < s.len() && numeric_char(#[trigger] s[i])
}

pub(crate) fn any_digit(s: &[char]) -> (r: bool)
    ensures
        r == has_digit(s@),
{
    let mut i: usize = 0;
    while i < s.len()
        invariant
            i <= s@.len(),
            forall|j: int| 0 <= j < i ==> !numeric_char(#[trigger] s@[j]),
        decreases s@.len() - i,
    {
        if is_numeric(s[i]) {
            return true;
        }
        i += 1;
    }
    false
}

/// The one digit addition that is a term rather than a version: an unknown two-letter
/// source spelling `MP3` or `B2B` without its digit.
pub open spec fn short_digit_acronym(lex: Lexicon, from: Seq<char>, to: Seq<char>) -> bool {
    &&& !known_word(lex, from)
    &&& (to == "MP3"@ && ascii_ci_eq(from, "MP"@) || to == "B2B"@ && ascii_ci_eq(from, "BB"@))
}

/// Whether the digits of a pair allow learning: neither side has one, or only the target
/// has one and the pair is a short digit acronym.
pub open spec fn digits_allow(lex: Lexicon, from: Seq<char>, to: Seq<char>) -> bool {
    let fd = has_digit(from);
    let td = has_digit(to);
    if fd != td {
        !fd && short_digit_acronym(lex, from, to)
    } else {
        !fd
    }
}

fn digits_allowed(lex: &Lexicon, from: &[char], to: &[char]) -> (r: bool)
    ensures
        r == digits_allow(*lex, from@, to@),
{
    let fd = any_digit(from);
    let td = any_digit(to);
    if fd != td {
        if fd {
            return false;
        }
        if lex.is_known_word(from) {
            return false;
        }
        (eq_lit(to, "MP3") && eq_ignore_ascii_case(from, chars_of("MP").as_slice())) || (eq_lit(to, "B2B")
            && eq_ignore_ascii_case(from, chars_of("BB").as_slice()))
    } else {
        !fd
    }
}

/// Whether each aligned component pair that differs beyond case is allowed by the word
/// lists; the two sides must have as many components.
pub open spec fn components_allow(lex: Lexicon, close: Seq<(String, String)>, from: Seq<char>, to: Seq<char>) -> bool {
    let fc = components(from);
    let tc = components(to);
    &&& fc.len() == tc.len()
    &&& forall|k: int|
        0 <= k < fc.len() && str_lower(#[trigger] fc[k]) != str_lower(tc[k]) ==> safe_lexical(
            lex,
            close,
            fc[k],
            tc[k],
        )
}

fn components_allowed(lex: &Lexicon, close: &[(String, String)], from: &[char], to: &[char]) -> (r: bool)
    ensures
        r == components_allow(*lex, close@, from@, to@),
{
    let fc = alphanumeric_components(from);
    let tc = alphanumeric_components(to);
    if fc.len() != tc.len() {
        return false;
    }
    let ghost fv = components(from@);
    let ghost tv = components(to@);
    let mut k: usize = 0;
    while k < fc.len()
        invariant
            k <= fc@.len() == tc@.len(),
            views(fc@) == fv,
            views(tc@) == tv,
            fv == components(from@),
            tv == components(to@),
            forall|j: int|
                0 <= j < k && str_lower(#[trigger] fv[j]) != str_lower(tv[j]) ==> safe_lexical(
                    *lex,
                    close@,
                    fv[j],
                    tv[j],
                ),
        decreases fc@.len() - k,
    {
        assert(fv[k as int] == fc@[k as int]@);
        assert(tv[k as int] == tc@[k as int]@);
        let fl = lower_chars(fc[k].as_slice());
        let tl = lower_chars(tc[k].as_slice());
        if !chars_eq(fl.as_slice(), tl.as_slice()) && !has_safe_lexical_evidence(
            lex,
            close,
            fc[k].as_slice(),
            tc[k].as_slice(),
        ) {
            return false;
        }
        k += 1;
    }
    true
}

/// Whether matching presentation makes a pair ambiguous: no symbols on either side, and
/// both Capitalized or both ALL-CAPS (sentence formatting, or a swap of two names).
pub open spec fn ambiguous_presentation(from: Seq<char>, to: Seq<char>) -> bool {
    &&& symbol_skeleton(from).len() == 0
    &&& symbol_skeleton(to).len() == 0
    &&& (capitalized(from) && capitalized(to)) || (all_caps(from) && all_caps(to))
}

/// Whether a one-for-one substitution of word cores is worth learning as a global rule.
pub open spec fn learnable(lex: Lexicon, close: Seq<(String, String)>, from: Seq<char>, to: Seq<char>) -> bool {
    let ok = orthographic_key(from);
    &&& word_shaped(from)
    &&& word_shaped(to)
    &&& str_lower(from) != str_lower(to)
    &&& !matches_entire(rule_pattern(from, false), to)
    &&& symbol_skeleton(from) == symbol_skeleton(to)
    &&& !(ok.len() > 0 && ok == orthographic_key(to))
    &&& !contraction_edit(from, to)
    &&& digits_allow(lex, from, to)
    &&& safe_lexical(lex, close, from, to)
    &&& components_allow(lex, close, from, to)
    &&& !ambiguous_presentation(from, to)
    &&& !regular_inflection_edit(from, to)
}

/// Whether the substitution of the word core `from` by `to` is worth learning as a global
/// rule. It is not when either side is shorter than two characters or has no letter; when
/// the two differ only in case, or the source's case-insensitive pattern already matches the
/// whole target; when their symbols differ; when only accents, typography or punctuation
/// changed; when one is a contraction of the other; when a digit is involved (but for the
/// short acronyms `MP3` and `B2B`); when the word lists or the mishear evidence refuse the
/// pair or one of its changed components; when both sides share title or all-caps
/// presentation without symbols; and when one is a regular inflection of the other.
/// `close` lists the pairs of spelling keys judged close in spelling.
pub fn is_learnable_substitution(from: &str, to: &str, lexicon: &Lexicon, close: &[(String, String)]) -> (r: bool)
    ensures
        r == learnable(*lexicon, close@, from@, to@),
{
    let f = chars_of(from);
    let t = chars_of(to);
    if !is_word_shaped(f.as_slice()) || !is_word_shaped(t.as_slice()) {
        return false;
    }
    if chars_eq(lower_chars(f.as_slice()).as_slice(), lower_chars(t.as_slice()).as_slice()) {
        return false;
    }
    let pattern = replacement_pattern(from, false);
    if regex_matches_entire(pattern.as_str(), to) {
        return false;
    }
    if !chars_eq(symbols_of(f.as_slice()).as_slice(), symbols_of(t.as_slice()).as_slice()) {
        return false;
    }
    let ok = orthographic_key_of(f.as_slice());
    if ok.len() > 0 && chars_eq(ok.as_slice(), orthographic_key_of(t.as_slice()).as_slice()) {
        return false;
    }
    if is_contraction_edit(f.as_slice(), t.as_slice()) {
        return false;
    }
    if !digits_allowed(lexicon, f.as_slice(), t.as_slice()) {
        return false;
    }
    if !has_safe_lexical_evidence(lexicon, close, f.as_slice(), t.as_slice()) {
        return false;
    }
    if !components_allowed(lexicon, close, f.as_slice(), t.as_slice()) {
        return false;
    }
    if symbols_of(f.as_slice()).len() == 0 && symbols_of(t.as_slice()).len() == 0 && ((is_capitalized(
        f.as_slice(),
    ) && is_capitalized(t.as_slice())) || (is_all_caps(f.as_slice()) && is_all_caps(t.as_slice()))) {
        return false;
    }
    !is_regular_inflection_edit(f.as_slice(), t.as_slice())
}

} // verus!
