//! Deterministic text transforms of the dictation pipeline: raw-mode stripping, adapting a
//! replacement to the case of what it replaces, and the token tests the other passes share.
use vstd::prelude::*;
use crate::language::{base_of, base_subtag};
use crate::unicode::{
    alnum_char, alphabetic_char, char_lower, char_upper, chars_eq, chars_of, copy_chars, eq_lit, extend_chars,
    is_alphabetic, is_alphanumeric, is_uppercase, join_space, join_words, lower_char, lower_chars,
    split_whitespace, split_ws, str_lower, str_upper, string_from, subrange_chars, upper_char,
    upper_chars, uppercase_char, views, is_whitespace, whitespace_char, ws_lead, lemma_ws_bounds,
    trim_whitespace, trim_ws, flush, is_lowercase, lowercase_char,
};

verus! {

// ---------------------------------------------------------------------------
// Character classes and trimming.
// ---------------------------------------------------------------------------

/// The character classes that token rules trim by.
#[derive(Clone, Copy, Debug, PartialEq, Eq, Structural)]
pub enum CharClass {
    /// Anything but a letter or digit.
    NotAlnum,
    /// Sentence and clause marks, quotes, brackets and dashes (see [`boundary_punct`]).
    Boundary,
    /// Anything but a letter, a digit, or an apostrophe (straight or curly).
    NotAlnumNorApostrophe,
    /// A straight apostrophe or a hyphen.
    ApostropheOrHyphen,
    /// A prose mark that opens: brackets, quotes, dashes.
    Opener,
    /// A prose mark that closes: sentence and clause marks, brackets, quotes, dashes.
    Closer,
}

/// Opening prose marks.
pub open spec fn opener_char(c: char) -> bool {
    c == '(' || c == '[' || c == '{' || c == '"' || c == '\'' || c == '\u{2018}' || c == '\u{201C}' || c == '\u{00AB}'
        || c == '\u{2013}' || c == '\u{2014}'
}

/// Closing prose marks.
pub open spec fn closer_char(c: char) -> bool {
    c == '.' || c == ',' || c == ';' || c == ':' || c == '!' || c == '?' || c == ')' || c == ']' || c == '}'
        || c == '"' || c == '\'' || c == '\u{2019}' || c == '\u{201D}' || c == '\u{00BB}' || c == '\u{2026}'
        || c == '\u{2013}' || c == '\u{2014}'
}

/// Punctuation a raw transcript drops at a token boundary. Technical symbols that belong to
/// a term (`#`, `+`, `*`, ...) are not in it, so `C#` and `C++` survive.
pub open spec fn boundary_punct(c: char) -> bool {
    ||| c == '.'
    ||| c == ','
    ||| c == ';'
    ||| c == ':'
    ||| c == '!'
    ||| c == '?'
    ||| c == '"'
    ||| c == '\''
    ||| c == '`'
    ||| c == '('
    ||| c == ')'
    ||| c == '['
    ||| c == ']'
    ||| c == '{'
    ||| c == '}'
    ||| c == '\u{2026}'
    ||| c == '\u{2018}'
    ||| c == '\u{2019}'
    ||| c == '\u{201C}'
    ||| c == '\u{201D}'
    ||| c == '\u{00AB}'
    ||| c == '\u{00BB}'
    ||| c == '\u{2014}'
    ||| c == '\u{2013}'
}

/// Membership of `c` in the class `k`.
pub open spec fn in_class(k: CharClass, c: char) -> bool {
    match k {
        CharClass::NotAlnum => !alnum_char(c),
        CharClass::Boundary => boundary_punct(c),
        CharClass::NotAlnumNorApostrophe => !alnum_char(c) && c != '\'' && c != '\u{2019}',
        CharClass::ApostropheOrHyphen => c == '\'' || c == '-',
        CharClass::Opener => opener_char(c),
        CharClass::Closer => closer_char(c),
    }
}

/// Whether `c` is boundary punctuation.
pub fn is_boundary_punctuation(c: char) -> (r: bool)
    ensures
        r == boundary_punct(c),
{
    c == '.' || c == ',' || c == ';' || c == ':' || c == '!' || c == '?' || c == '"' || c == '\''
        || c == '`' || c == '(' || c == ')' || c == '[' || c == ']' || c == '{' || c == '}'
        || c == '\u{2026}' || c == '\u{2018}' || c == '\u{2019}' || c == '\u{201C}'
        || c == '\u{201D}' || c == '\u{00AB}' || c == '\u{00BB}' || c == '\u{2014}'
        || c == '\u{2013}'
}

fn is_in_class(k: CharClass, c: char) -> (r: bool)
    ensures
        r == in_class(k, c),
{
    match k {
        CharClass::NotAlnum => !is_alphanumeric(c),
        CharClass::Boundary => is_boundary_punctuation(c),
        CharClass::NotAlnumNorApostrophe => !is_alphanumeric(c) && c != '\'' && c != '\u{2019}',
        CharClass::ApostropheOrHyphen => c == '\'' || c == '-',
        CharClass::Opener => c == '(' || c == '[' || c == '{' || c == '"' || c == '\'' || c == '\u{2018}'
            || c == '\u{201C}' || c == '\u{00AB}' || c == '\u{2013}' || c == '\u{2014}',
        CharClass::Closer => c == '.' || c == ',' || c == ';' || c == ':' || c == '!' || c == '?' || c == ')'
            || c == ']' || c == '}' || c == '"' || c == '\'' || c == '\u{2019}' || c == '\u{201D}'
            || c == '\u{00BB}' || c == '\u{2026}' || c == '\u{2013}' || c == '\u{2014}',
    }
}

/// End of the run of class-`k` characters starting at `i`.
pub open spec fn lead_in(t: Seq<char>, k: CharClass, i: int) -> int
    decreases t.len() - i,
{
    if 0 <= i < t.len() && in_class(k, t[i]) { lead_in(t, k, i + 1) } else { i }
}

/// Start of the run of class-`k` characters ending at `j`.
pub open spec fn trail_in(t: Seq<char>, k: CharClass, j: int) -> int
    decreases j,
{
    if 0 < j <= t.len() && in_class(k, t[j - 1]) { trail_in(t, k, j - 1) } else { j }
}

/// `t` without the class-`k` characters at either end; empty when all of it is in the class.
pub open spec fn trim_class(t: Seq<char>, k: CharClass) -> Seq<char> {
    let a = lead_in(t, k, 0);
    if a >= t.len() { seq![] } else { t.subrange(a, trail_in(t, k, t.len() as int)) }
}

pub proof fn lemma_lead_in(t: Seq<char>, k: CharClass, i: int)
    requires
        0 <= i <= t.len(),
    ensures
        i <= lead_in(t, k, i) <= t.len(),
        lead_in(t, k, i) < t.len() ==> !in_class(k, t[lead_in(t, k, i)]),
        forall|m: int| i <= m < lead_in(t, k, i) ==> in_class(k, #[trigger] t[m]),
    decreases t.len() - i,
{
    if i < t.len() && in_class(k, t[i]) {
        lemma_lead_in(t, k, i + 1);
    }
}

pub proof fn lemma_trail_in(t: Seq<char>, k: CharClass, j: int)
    requires
        0 <= j <= t.len(),
    ensures
        0 <= trail_in(t, k, j) <= j,
        trail_in(t, k, j) > 0 ==> !in_class(k, t[trail_in(t, k, j) - 1]),
        forall|m: int| trail_in(t, k, j) <= m < j ==> in_class(k, #[trigger] t[m]),
    decreases j,
{
    if j > 0 && in_class(k, t[j - 1]) {
        lemma_trail_in(t, k, j - 1);
    }
}

/// A run ending at `j` cannot reach back past a character outside the class.
pub proof fn lemma_trail_above(t: Seq<char>, k: CharClass, j: int, first: int)
    requires
        0 <= first < j <= t.len(),
        !in_class(k, t[first]),
    ensures
        first < trail_in(t, k, j),
    decreases j,
{
    if in_class(k, t[j - 1]) {
        lemma_trail_above(t, k, j - 1, first);
    }
}

/// Where the leading class-`k` run of `t` ends.
pub(crate) fn lead_index(t: &[char], k: CharClass) -> (r: usize)
    ensures
        r == lead_in(t@, k, 0),
        r <= t@.len(),
{
    let n = t.len();
    let mut a: usize = 0;
    while a < n && is_in_class(k, t[a])
        invariant
            a <= n == t@.len(),
            lead_in(t@, k, a as int) == lead_in(t@, k, 0),
        decreases n - a,
    {
        a += 1;
    }
    a
}

/// Where the trailing class-`k` run of `t` starts.
fn trail_index(t: &[char], k: CharClass) -> (r: usize)
    ensures
        r == trail_in(t@, k, t@.len() as int),
        r <= t@.len(),
{
    let n = t.len();
    let mut b: usize = n;
    while b > 0 && is_in_class(k, t[b - 1])
        invariant
            b <= n == t@.len(),
            trail_in(t@, k, b as int) == trail_in(t@, k, n as int),
        decreases b,
    {
        b -= 1;
    }
    b
}

/// `t` without the class-`k` characters at either end.
pub fn trim_class_chars(t: &[char], k: CharClass) -> (r: Vec<char>)
    ensures
        r@ == trim_class(t@, k),
{
    let a = lead_index(t, k);
    if a >= t.len() {
        return Vec::new();
    }
    let b = trail_index(t, k);
    proof {
        lemma_lead_in(t@, k, 0);
        lemma_trail_above(t@, k, t@.len() as int, a as int);
    }
    subrange_chars(t, a, b)
}

// ---------------------------------------------------------------------------
// Punctuation affixes and case adaptation.
// ---------------------------------------------------------------------------

/// The leading and the trailing run of non-alphanumeric characters of a word (for a word
/// with no letter or digit, both are the whole word).
pub open spec fn punctuation_affixes(t: Seq<char>) -> (Seq<char>, Seq<char>) {
    (
        t.take(lead_in(t, CharClass::NotAlnum, 0)),
        t.skip(trail_in(t, CharClass::NotAlnum, t.len() as int)),
    )
}

/// Extracts the punctuation prefix and suffix of a word: `"!hello?"` gives `("!", "?")`.
pub fn extract_punctuation(word: &str) -> (r: (String, String))
    ensures
        (r.0@, r.1@) == punctuation_affixes(word@),
{
    let t = chars_of(word);
    let a = lead_index(t.as_slice(), CharClass::NotAlnum);
    let b = trail_index(t.as_slice(), CharClass::NotAlnum);
    proof {
        lemma_lead_in(t@, CharClass::NotAlnum, 0);
        lemma_trail_in(t@, CharClass::NotAlnum, t@.len() as int);
    }
    let prefix = subrange_chars(t.as_slice(), 0, a);
    let suffix = subrange_chars(t.as_slice(), b, t.len());
    assert(prefix@ =~= t@.take(a as int));
    assert(suffix@ =~= t@.skip(b as int));
    (string_from(prefix.as_slice()), string_from(suffix.as_slice()))
}

/// Whether `s` has a letter and every letter in it is uppercase.
pub open spec fn all_caps(s: Seq<char>) -> bool {
    &&& exists|i: int| 0 <= i < s.len() && alphabetic_char(#[trigger] s[i])
    &&& forall|i: int| 0 <= i < s.len() && alphabetic_char(#[trigger] s[i]) ==> uppercase_char(s[i])
}

/// `r` with its first character uppercased (the first character `to_uppercase` yields).
pub open spec fn capitalize_first(r: Seq<char>) -> Seq<char> {
    if r.len() == 0 {
        r
    } else {
        let u = char_upper(r[0]);
        seq![if u.len() > 0 { u[0] } else { r[0] }] + r.drop_first()
    }
}

/// `replacement` adapted to the case of `original`: uppercased when the original's letters
/// are all capitals, capitalized when the original starts with a capital, else unchanged.
pub open spec fn case_adapted(original: Seq<char>, replacement: Seq<char>) -> Seq<char> {
    if all_caps(original) {
        str_upper(replacement)
    } else if original.len() > 0 && uppercase_char(original[0]) {
        capitalize_first(replacement)
    } else {
        replacement
    }
}

/// Whether a character sequence has a letter and all of its letters are uppercase.
fn is_all_caps_chars(s: &[char]) -> (r: bool)
    ensures
        r == all_caps(s@),
{
    let n = s.len();
    let mut seen = false;
    let mut i: usize = 0;
    while i < n
        invariant
            i <= n == s@.len(),
            seen == exists|j: int| 0 <= j < i && alphabetic_char(#[trigger] s@[j]),
            forall|j: int| 0 <= j < i && alphabetic_char(#[trigger] s@[j]) ==> uppercase_char(s@[j]),
        decreases n - i,
    {
        if is_alphabetic(s[i]) {
            if !is_uppercase(s[i]) {
                return false;
            }
            seen = true;
        }
        i += 1;
    }
    seen
}

/// Adapts `replacement` to the case pattern of `original`: `("HELLO", "world")` gives
/// "WORLD", `("Hello", "world")` gives "World", and a lowercase original keeps the
/// replacement as written. All-caps detection looks only at letters, so multi-word phrases
/// and digits are handled.
pub fn preserve_case_pattern(original: &str, replacement: &str) -> (r: String)
    ensures
        r@ == case_adapted(original@, replacement@),
{
    let o = chars_of(original);
    let rep = chars_of(replacement);
    if is_all_caps_chars(o.as_slice()) {
        let u = upper_chars(rep.as_slice());
        return string_from(u.as_slice());
    }
    if o.len() > 0 && is_uppercase(o[0]) {
        if rep.len() == 0 {
            return string_from(rep.as_slice());
        }
        let u = upper_char(rep[0]);
        let first = if u.len() > 0 { u[0] } else { rep[0] };
        let mut out: Vec<char> = Vec::new();
        out.push(first);
        let rest = subrange_chars(rep.as_slice(), 1, rep.len());
        extend_chars(&mut out, rest.as_slice());
        assert(out@ =~= capitalize_first(rep@));
        return string_from(out.as_slice());
    }
    string_from(rep.as_slice())
}

// ---------------------------------------------------------------------------
// Raw mode.
// ---------------------------------------------------------------------------

/// The number of letters in `s`.
pub open spec fn letter_count(s: Seq<char>) -> nat
    decreases s.len(),
{
    if s.len() == 0 {
        0
    } else {
        letter_count(s.drop_last()) + if alphabetic_char(s.last()) { 1nat } else { 0nat }
    }
}

/// An all-caps acronym worth keeping as written ("API", "GPU", "CJS2026"): at least two
/// letters, all of them uppercase; digits may sit alongside.
pub open spec fn acronym(t: Seq<char>) -> bool {
    &&& letter_count(t) >= 2
    &&& forall|i: int| 0 <= i < t.len() && alphabetic_char(#[trigger] t[i]) ==> uppercase_char(t[i])
}

/// Whether a token is an all-caps acronym.
pub fn is_acronym(token: &[char]) -> (r: bool)
    ensures
        r == acronym(token@),
{
    let n = token.len();
    let mut letters: usize = 0;
    let mut upper = true;
    let mut i: usize = 0;
    while i < n
        invariant
            i <= n == token@.len(),
            letters == letter_count(token@.take(i as int)),
            letters <= i,
            upper == forall|j: int| 0 <= j < i && alphabetic_char(#[trigger] token@[j]) ==> uppercase_char(token@[j]),
        decreases n - i,
    {
        assert(token@.take(i + 1).drop_last() =~= token@.take(i as int));
        if is_alphabetic(token[i]) {
            letters += 1;
            if !is_uppercase(token[i]) {
                upper = false;
            }
        }
        i += 1;
    }
    assert(token@.take(n as int) =~= token@);
    letters >= 2 && upper
}

/// `s` with each letter or digit replaced by its lowercase form when `lower` is set.
pub open spec fn lower_alnum(s: Seq<char>, lower: bool) -> Seq<char>
    decreases s.len(),
{
    if s.len() == 0 {
        s
    } else {
        lower_alnum(s.drop_last(), lower) + if lower && alnum_char(s.last()) {
            char_lower(s.last())
        } else {
            seq![s.last()]
        }
    }
}

/// A token with its leading and trailing boundary punctuation removed and, when `lower` is
/// set, its letters and digits lowercased. Everything between the first and the last
/// non-boundary character is kept: decimals, versions, e-mail addresses, paths.
pub open spec fn stripped_token(t: Seq<char>, lower: bool) -> Seq<char> {
    lower_alnum(trim_class(t, CharClass::Boundary), lower)
}

/// Strips a token's boundary punctuation, optionally lowercasing it.
pub fn strip_token_punctuation(token: &[char], lowercase: bool) -> (r: Vec<char>)
    ensures
        r@ == stripped_token(token@, lowercase),
{
    let core = trim_class_chars(token, CharClass::Boundary);
    let n = core.len();
    let mut out: Vec<char> = Vec::new();
    let mut i: usize = 0;
    while i < n
        invariant
            i <= n == core@.len(),
            out@ == lower_alnum(core@.take(i as int), lowercase),
        decreases n - i,
    {
        let c = core[i];
        assert(core@.take(i + 1).drop_last() =~= core@.take(i as int));
        if lowercase && is_alphanumeric(c) {
            let l = lower_char(c);
            extend_chars(&mut out, l.as_slice());
        } else {
            out.push(c);
        }
        i += 1;
    }
    assert(core@.take(n as int) =~= core@);
    out
}

/// `s` with every `a` replaced by `b`.
pub open spec fn replace_char(s: Seq<char>, a: char, b: char) -> Seq<char> {
    Seq::new(s.len(), |i: int| if s[i] == a { b } else { s[i] })
}

/// The canonical capitalized form of a lowercased English "I" or one of its contractions.
pub open spec fn i_form(n: Seq<char>) -> Option<Seq<char>> {
    if n == "i"@ {
        Some("I"@)
    } else if n == "i'm"@ {
        Some("I'm"@)
    } else if n == "i'll"@ {
        Some("I'll"@)
    } else if n == "i've"@ {
        Some("I've"@)
    } else if n == "i'd"@ {
        Some("I'd"@)
    } else {
        None
    }
}

/// For a token that is the English pronoun "I" or one of its contractions (ignoring the
/// punctuation around it), its canonical form and whether it was already capitalized.
pub open spec fn i_canonical(t: Seq<char>) -> Option<(Seq<char>, bool)> {
    let core = trim_class(t, CharClass::NotAlnumNorApostrophe);
    let was_upper = core.len() > 0 && uppercase_char(core[0]);
    match i_form(replace_char(str_lower(core), '\u{2019}', '\'')) {
        Some(c) => Some((c, was_upper)),
        None => None,
    }
}

/// The canonical "I" form of a token, with whether the engine wrote it capitalized.
pub fn english_i_canonical(token: &[char]) -> (r: Option<(String, bool)>)
    ensures
        match i_canonical(token@) {
            Some((c, up)) => r matches Some((s, u)) && s@ == c && u == up,
            None => r is None,
        },
{
    let core = trim_class_chars(token, CharClass::NotAlnumNorApostrophe);
    let was_upper = core.len() > 0 && is_uppercase(core[0]);
    let low = lower_chars(core.as_slice());
    let n = low.len();
    let mut norm: Vec<char> = Vec::new();
    let mut i: usize = 0;
    while i < n
        invariant
            i <= n == low@.len(),
            norm@ == replace_char(low@.take(i as int), '\u{2019}', '\''),
        decreases n - i,
    {
        norm.push(if low[i] == '\u{2019}' { '\'' } else { low[i] });
        i += 1;
        assert(norm@ =~= replace_char(low@.take(i as int), '\u{2019}', '\''));
    }
    assert(low@.take(n as int) =~= low@);
    let canonical = if eq_lit(norm.as_slice(), "i") {
        "I"
    } else if eq_lit(norm.as_slice(), "i'm") {
        "I'm"
    } else if eq_lit(norm.as_slice(), "i'll") {
        "I'll"
    } else if eq_lit(norm.as_slice(), "i've") {
        "I've"
    } else if eq_lit(norm.as_slice(), "i'd") {
        "I'd"
    } else {
        return None;
    };
    let cs = chars_of(canonical);
    Some((string_from(cs.as_slice()), was_upper))
}

/// What raw mode makes of one token: `None` when nothing of it is left.
pub open spec fn raw_token(t: Seq<char>, force_english_i: bool) -> Option<Seq<char>> {
    match i_canonical(t) {
        Some((c, up)) if force_english_i || up => Some(c),
        _ => {
            let s = stripped_token(t, !acronym(t));
            if s.len() == 0 { None } else { Some(s) }
        },
    }
}

/// The raw forms of the tokens that leave something behind, in order.
pub open spec fn raw_tokens(ts: Seq<Seq<char>>, force_english_i: bool) -> Seq<Seq<char>>
    decreases ts.len(),
{
    if ts.len() == 0 {
        seq![]
    } else {
        raw_tokens(ts.drop_last(), force_english_i) + match raw_token(ts.last(), force_english_i) {
            Some(s) => seq![s],
            None => seq![],
        }
    }
}

/// Converts text to a raw transcript: lowercased and stripped of boundary punctuation, except
/// that all-caps acronyms keep their case and the English "I" forms stay capitalized. With
/// `force_english_i` (output known to be English) a standalone "i" is always capitalized;
/// without it the token keeps the casing the engine produced.
pub fn strip_to_raw_text(text: &str, force_english_i: bool) -> (r: String)
    ensures
        r@ == join_space(raw_tokens(split_ws(text@), force_english_i)),
{
    let cs = chars_of(text);
    let words = split_whitespace(cs.as_slice());
    let n = words.len();
    let mut out: Vec<Vec<char>> = Vec::new();
    let mut k: usize = 0;
    while k < n
        invariant
            k <= n == words@.len(),
            views(words@) == split_ws(text@),
            views(out@) == raw_tokens(views(words@).take(k as int), force_english_i),
        decreases n - k,
    {
        let token = words[k].as_slice();
        let ghost ts = views(words@).take(k + 1);
        assert(ts.drop_last() =~= views(words@).take(k as int));
        assert(ts.last() == token@);
        let ghost before = views(out@);
        let mut pushed = false;
        match english_i_canonical(token) {
            Some((canonical, was_uppercase)) => {
                if force_english_i || was_uppercase {
                    out.push(chars_of(canonical.as_str()));
                    pushed = true;
                }
            },
            None => {},
        }
        if !pushed {
            let keep_case = is_acronym(token);
            let stripped = strip_token_punctuation(token, !keep_case);
            if stripped.len() > 0 {
                out.push(stripped);
            }
        }
        assert(views(out@) =~= raw_tokens(ts, force_english_i));
        k += 1;
    }
    assert(views(words@).take(n as int) =~= views(words@));
    let joined = join_words(&out);
    string_from(joined.as_slice())
}

// ---------------------------------------------------------------------------
// Everyday words.
// ---------------------------------------------------------------------------

/// Everyday English words: the veto that keeps history mining from suggesting ordinary words.
pub const COMMON_WORDS: [&'static str; 346] = [
    "the", "be", "to", "of", "and", "a", "in", "that", "have", "i", "it", "for", "not", "on",
    "with", "he", "as", "you", "do", "at", "this", "but", "his", "by", "from", "they", "we",
    "say", "her", "she", "or", "an", "will", "my", "one", "all", "would", "there", "their",
    "what", "so", "up", "out", "if", "about", "who", "get", "which", "go", "me", "when",
    "make", "can", "like", "time", "no", "just", "him", "know", "take", "people", "into",
    "year", "your", "good", "some", "could", "them", "see", "other", "than", "then", "now",
    "look", "only", "come", "its", "over", "think", "also", "back", "after", "use", "two",
    "how", "our", "work", "first", "well", "way", "even", "new", "want", "because", "any",
    "these", "give", "day", "most", "us", "is", "are", "was", "were", "been", "has", "had",
    "did", "does", "said", "made", "went", "got", "very", "here", "where", "why", "much",
    "many", "more", "such", "own", "same", "too", "should", "may", "might", "must", "shall",
    "being", "those", "each", "few", "both", "again", "once", "under", "while", "through",
    "during", "before", "above", "below", "between", "off", "down", "around", "always",
    "never", "often", "sometimes", "still", "yet", "already", "ever", "really", "right",
    "left", "long", "little", "big", "great", "small", "old", "high", "low", "last", "next",
    "early", "late", "every", "another", "something", "nothing", "anything", "everything",
    "someone", "anyone", "everyone", "thing", "things", "man", "woman", "child", "world",
    "life", "hand", "part", "place", "case", "week", "company", "system", "program",
    "question", "number", "night", "point", "home", "water", "room", "mother", "area", "money",
    "story", "fact", "month", "lot", "study", "book", "eye", "job", "word", "business",
    "issue", "side", "kind", "head", "house", "service", "friend", "father", "power", "hour",
    "game", "line", "end", "member", "law", "car", "city", "community", "name", "president",
    "team", "minute", "idea", "kid", "body", "information", "face", "others", "level",
    "office", "door", "health", "person", "art", "war", "history", "party", "result", "change",
    "morning", "reason", "research", "girl", "guy", "moment", "air", "teacher", "force",
    "education", "yes", "okay", "oh", "hello", "thanks", "thank", "please", "sorry", "today",
    "tonight", "yesterday", "tomorrow", "let", "put", "keep", "begin", "seem", "help", "talk",
    "turn", "start", "show", "hear", "play", "run", "move", "live", "believe", "hold", "bring",
    "happen", "write", "provide", "sit", "stand", "lose", "pay", "meet", "include", "continue",
    "set", "learn", "lead", "understand", "watch", "follow", "stop", "create", "speak", "read",
    "allow", "add", "spend", "grow", "open", "walk", "win", "offer", "remember", "love",
    "consider", "appear", "buy", "wait", "serve", "die", "send", "expect", "build", "stay",
    "fall", "cut", "reach", "kill", "remain", "suggest", "raise", "pass", "sell", "require",
    "report", "decide", "pull",
];

/// Whether `w` is one of the everyday words.
pub open spec fn common_word(w: Seq<char>) -> bool {
    exists|i: int| 0 <= i < COMMON_WORDS@.len() && (#[trigger] COMMON_WORDS@[i])@ == w
}

/// Whether `word` is an everyday English word; the comparison ignores case.
pub fn is_common_word(word: &str) -> (r: bool)
    ensures
        r == common_word(str_lower(word@)),
{
    let low = lower_chars(chars_of(word).as_slice());
    let list = COMMON_WORDS;
    let mut i: usize = 0;
    while i < list.len()
        invariant
            i <= list@.len(),
            list@ == COMMON_WORDS@,
            low@ == str_lower(word@),
            forall|j: int| 0 <= j < i ==> (#[trigger] list@[j])@ != low@,
        decreases list@.len() - i,
    {
        if eq_lit(low.as_slice(), list[i]) {
            return true;
        }
        i += 1;
    }
    false
}

// ---------------------------------------------------------------------------
// Stutters and fillers.
// ---------------------------------------------------------------------------

/// Whether every character of `s` is a letter.
pub open spec fn all_alphabetic(s: Seq<char>) -> bool {
    forall|i: int| 0 <= i < s.len() ==> alphabetic_char(#[trigger] s[i])
}

/// How many words from `j` on are, ignoring case, the word whose lowercase form is `wl`.
pub open spec fn repeat_run(ws: Seq<Seq<char>>, j: int, wl: Seq<char>) -> nat
    decreases ws.len() - j,
{
    if 0 <= j < ws.len() && str_lower(ws[j]) == wl { 1 + repeat_run(ws, j + 1, wl) } else { 0 }
}

/// The words from `i` on with each run of three or more repetitions of an alphabetic word
/// (ignoring case) reduced to its first word.
pub open spec fn collapsed_from(ws: Seq<Seq<char>>, i: int) -> Seq<Seq<char>>
    decreases ws.len() - i,
{
    if i < 0 || i >= ws.len() {
        seq![]
    } else {
        let wl = str_lower(ws[i]);
        let run = if all_alphabetic(wl) { repeat_run(ws, i, wl) } else { 1 };
        let step: int = if run >= 3 { run as int } else { 1 };
        proof {
            lemma_repeat_run_bound(ws, i, wl);
        }
        seq![ws[i]] + collapsed_from(ws, i + step)
    }
}

pub proof fn lemma_repeat_run_bound(ws: Seq<Seq<char>>, j: int, wl: Seq<char>)
    requires
        0 <= j,
    ensures
        j + repeat_run(ws, j, wl) <= if j <= ws.len() { ws.len() as int } else { j },
    decreases ws.len() - j,
{
    if 0 <= j < ws.len() && str_lower(ws[j]) == wl {
        lemma_repeat_run_bound(ws, j + 1, wl);
    }
}

/// Stutter collapsing of a text: text without words is returned as it is.
pub open spec fn stutters_collapsed(text: Seq<char>) -> Seq<char> {
    let ws = split_ws(text);
    if ws.len() == 0 { text } else { join_space(collapsed_from(ws, 0)) }
}

/// Whether every character is a letter.
fn is_all_alphabetic(s: &[char]) -> (r: bool)
    ensures
        r == all_alphabetic(s@),
{
    let n = s.len();
    let mut i: usize = 0;
    while i < n
        invariant
            i <= n == s@.len(),
            forall|j: int| 0 <= j < i ==> alphabetic_char(#[trigger] s@[j]),
        decreases n - i,
    {
        if !is_alphabetic(s[i]) {
            return false;
        }
        i += 1;
    }
    true
}

/// Collapses a word repeated three or more times in a row, ignoring case, to its first
/// occurrence ("wh wh wh wh" becomes "wh"); only alphabetic words count as stutters.
pub fn collapse_stutters(text: &str) -> (r: String)
    ensures
        r@ == stutters_collapsed(text@),
{
    let cs = chars_of(text);
    let words = split_whitespace(cs.as_slice());
    let n = words.len();
    if n == 0 {
        return string_from(cs.as_slice());
    }
    let ghost ws = views(words@);
    let mut out: Vec<Vec<char>> = Vec::new();
    let mut i: usize = 0;
    assert(views(out@) + collapsed_from(ws, 0) =~= collapsed_from(ws, 0));
    while i < n
        invariant
            i <= n == words@.len(),
            ws == views(words@),
            views(out@) + collapsed_from(ws, i as int) == collapsed_from(ws, 0),
        decreases n - i,
    {
        let wl = lower_chars(words[i].as_slice());
        let mut step: usize = 1;
        if is_all_alphabetic(wl.as_slice()) {
            let mut count: usize = 1;
            proof {
                lemma_repeat_run_bound(ws, i as int, wl@);
                assert(repeat_run(ws, i as int, wl@) == 1 + repeat_run(ws, i + 1, wl@));
            }
            while i + count < n && chars_eq(lower_chars(words[i + count].as_slice()).as_slice(), wl.as_slice())
                invariant
                    i < n == words@.len(),
                    ws == views(words@),
                    wl@ == str_lower(ws[i as int]),
                    1 <= count <= n - i,
                    repeat_run(ws, i as int, wl@) == count + repeat_run(ws, i + count, wl@),
                decreases n - i - count,
            {
                count += 1;
            }
            if count >= 3 {
                step = count;
            }
        }
        let ghost before = views(out@);
        out.push(copy_chars(words[i].as_slice()));
        assert(views(out@) =~= before + seq![ws[i as int]]);
        assert(collapsed_from(ws, i as int) == seq![ws[i as int]] + collapsed_from(ws, i + step));
        i = i + step;
    }
    let joined = join_words(&out);
    string_from(joined.as_slice())
}

/// The filler words removed for a language's base subtag. Some words are real words in
/// other languages (Portuguese "um", Spanish "ha"), so each language gets its own list and
/// unknown languages a conservative one.
pub open spec fn filler_words(base: Seq<char>) -> Seq<Seq<char>> {
    if base == "en"@ {
        seq!["uh"@, "um"@, "uhm"@, "umm"@, "uhh"@, "uhhh"@, "ah"@, "hmm"@, "hm"@, "mmm"@, "mm"@, "mh"@, "eh"@, "ehh"@, "ha"@]
    } else if base == "es"@ {
        seq!["ehm"@, "mmm"@, "hmm"@, "hm"@]
    } else if base == "pt"@ {
        seq!["ahm"@, "hmm"@, "mmm"@, "hm"@]
    } else if base == "fr"@ {
        seq!["euh"@, "hmm"@, "hm"@, "mmm"@]
    } else if base == "de"@ {
        seq!["\u{e4}h"@, "\u{e4}hm"@, "hmm"@, "hm"@, "mmm"@]
    } else if base == "it"@ || base == "cs"@ {
        seq!["ehm"@, "hmm"@, "mmm"@, "hm"@]
    } else if base == "pl"@ || base == "tr"@ || base == "vi"@ {
        seq!["hmm"@, "mmm"@, "hm"@]
    } else if base == "ru"@ || base == "uk"@ {
        seq!["\u{445}\u{43c}"@, "\u{43c}\u{43c}\u{43c}"@, "hmm"@, "mmm"@]
    } else if base == "ar"@ || base == "ja"@ || base == "ko"@ || base == "zh"@ {
        seq!["hmm"@, "mmm"@]
    } else {
        seq!["uh"@, "uhm"@, "umm"@, "uhh"@, "uhhh"@, "ah"@, "hmm"@, "hm"@, "mmm"@, "mm"@, "mh"@, "ehh"@]
    }
}

/// The views of a sequence of string slices.
pub open spec fn str_views(v: Seq<&str>) -> Seq<Seq<char>> {
    Seq::new(v.len(), |i: int| v[i]@)
}

/// The filler words for a language tag such as "en" or "pt-BR": the list of its base subtag.
pub fn get_filler_words_for_language(lang: &str) -> (r: Vec<&'static str>)
    ensures
        str_views(r@) == filler_words(base_of(lang@)),
{
    let base = base_subtag(chars_of(lang).as_slice());
    let b = base.as_slice();
    let r: Vec<&'static str> = if eq_lit(b, "en") {
        vec!["uh", "um", "uhm", "umm", "uhh", "uhhh", "ah", "hmm", "hm", "mmm", "mm", "mh", "eh", "ehh", "ha"]
    } else if eq_lit(b, "es") {
        vec!["ehm", "mmm", "hmm", "hm"]
    } else if eq_lit(b, "pt") {
        vec!["ahm", "hmm", "mmm", "hm"]
    } else if eq_lit(b, "fr") {
        vec!["euh", "hmm", "hm", "mmm"]
    } else if eq_lit(b, "de") {
        vec!["\u{e4}h", "\u{e4}hm", "hmm", "hm", "mmm"]
    } else if eq_lit(b, "it") || eq_lit(b, "cs") {
        vec!["ehm", "hmm", "mmm", "hm"]
    } else if eq_lit(b, "pl") || eq_lit(b, "tr") || eq_lit(b, "vi") {
        vec!["hmm", "mmm", "hm"]
    } else if eq_lit(b, "ru") || eq_lit(b, "uk") {
        vec!["\u{445}\u{43c}", "\u{43c}\u{43c}\u{43c}", "hmm", "mmm"]
    } else if eq_lit(b, "ar") || eq_lit(b, "ja") || eq_lit(b, "ko") || eq_lit(b, "zh") {
        vec!["hmm", "mmm"]
    } else {
        vec!["uh", "uhm", "umm", "uhh", "uhhh", "ah", "hmm", "hm", "mmm", "mm", "mh", "ehh"]
    };
    assert(str_views(r@) =~= filler_words(base@));
    r
}

// ---------------------------------------------------------------------------
// Filler removal.
// ---------------------------------------------------------------------------

/// The characters with a meaning in a regular expression.
pub open spec fn regex_meta(c: char) -> bool {
    ||| c == '\\'
    ||| c == '.'
    ||| c == '+'
    ||| c == '*'
    ||| c == '?'
    ||| c == '('
    ||| c == ')'
    ||| c == '|'
    ||| c == '['
    ||| c == ']'
    ||| c == '{'
    ||| c == '}'
    ||| c == '^'
    ||| c == '$'
    ||| c == '#'
    ||| c == '&'
    ||| c == '-'
    ||| c == '~'
}

/// `s` with a backslash before every meta character, so it matches itself literally.
pub open spec fn regex_escaped(s: Seq<char>) -> Seq<char>
    decreases s.len(),
{
    if s.len() == 0 {
        s
    } else {
        regex_escaped(s.drop_last()) + if regex_meta(s.last()) {
            seq!['\\', s.last()]
        } else {
            seq![s.last()]
        }
    }
}

/// `regex::escape`: the pattern that matches `text` literally.
pub fn regex_escape(text: &[char]) -> (r: Vec<char>)
    ensures
        r@ == regex_escaped(text@),
{
    let n = text.len();
    let mut out: Vec<char> = Vec::new();
    let mut i: usize = 0;
    while i < n
        invariant
            i <= n == text@.len(),
            out@ == regex_escaped(text@.take(i as int)),
        decreases n - i,
    {
        let c = text[i];
        assert(text@.take(i + 1).drop_last() =~= text@.take(i as int));
        if c == '\\' || c == '.' || c == '+' || c == '*' || c == '?' || c == '(' || c == ')' || c == '|'
            || c == '[' || c == ']' || c == '{' || c == '}' || c == '^' || c == '$' || c == '#' || c == '&'
            || c == '-' || c == '~' {
            out.push('\\');
        }
        out.push(c);
        assert(out@ =~= regex_escaped(text@.take(i + 1)));
        i += 1;
    }
    assert(text@.take(n as int) =~= text@);
    out
}

/// The result of `Regex::new(pattern)` followed by `replace_all(text, replacement)`, or
/// `None` when the pattern does not compile.
pub uninterp spec fn regex_replaced(pattern: Seq<char>, text: Seq<char>, replacement: Seq<char>) -> Option<Seq<char>>;

/// Compiles `pattern` with `regex::Regex::new` and replaces every match in `text` with
/// `replacement` (`Regex::replace_all`). The contract only names the result; `None` when the
/// pattern does not compile.
#[verifier::external_body]
pub(crate) fn regex_replace_all(pattern: &str, text: &str, replacement: &str) -> (r: Option<String>)
    ensures
        match r {
            Some(s) => regex_replaced(pattern@, text@, replacement@) == Some(s@),
            None => regex_replaced(pattern@, text@, replacement@) is None,
        },
{
    let re = regex::Regex::new(pattern).ok()?;
    Some(re.replace_all(text, replacement).into_owned())
}

/// The pattern that removes one filler word: the whole word, ignoring case, with one comma or
/// period right after it.
pub open spec fn filler_pattern(w: Seq<char>) -> Seq<char> {
    "(?i)\\b"@ + regex_escaped(w) + "\\b[,.]?"@
}

/// `text` after removing each filler word in turn; a word whose pattern does not compile is
/// skipped.
pub open spec fn without_fillers(text: Seq<char>, ws: Seq<Seq<char>>) -> Seq<char>
    decreases ws.len(),
{
    if ws.len() == 0 {
        text
    } else {
        let t = without_fillers(text, ws.drop_last());
        match regex_replaced(filler_pattern(ws.last()), t, seq![]) {
            Some(s) => s,
            None => t,
        }
    }
}

/// The regular expression for a run of two or more whitespace characters.
pub open spec fn multi_space_pattern() -> Seq<char> {
    "\\s{2,}"@
}

/// `text` with each run of two or more whitespace characters replaced by one space, as the
/// regular expression replacement does it; unchanged should the pattern not compile.
pub open spec fn spaces_collapsed(text: Seq<char>) -> Seq<char> {
    match regex_replaced(multi_space_pattern(), text, " "@) {
        Some(s) => s,
        None => text,
    }
}

/// Replaces every run of two or more whitespace characters with one space (`\s{2,}`
/// replaced by `" "`); a single whitespace character is kept as it is.
pub fn collapse_spaces(text: &str) -> (r: String)
    ensures
        r@ == spaces_collapsed(text@),
{
    match regex_replace_all("\\s{2,}", text, " ") {
        Some(s) => s,
        None => string_from(chars_of(text).as_slice()),
    }
}

/// The filler words in force: the user's own list when there is one (an empty list disables
/// removal), else the list for the language.
pub open spec fn filler_list(lang: Seq<char>, custom: Option<Seq<Seq<char>>>) -> Seq<Seq<char>> {
    match custom {
        Some(ws) => ws,
        None => filler_words(base_of(lang)),
    }
}

/// The views of an optional list of strings.
pub open spec fn custom_views(custom: Option<Vec<String>>) -> Option<Seq<Seq<char>>> {
    match custom {
        Some(v) => Some(Seq::new(v@.len(), |i: int| v@[i]@)),
        None => None,
    }
}

/// A transcript without filler words and stutters, with its spacing tidied.
pub open spec fn filtered_output(text: Seq<char>, lang: Seq<char>, custom: Option<Seq<Seq<char>>>) -> Seq<char> {
    trim_ws(spaces_collapsed(stutters_collapsed(without_fillers(text, filler_list(lang, custom)))))
}

/// Removes one filler word from `text`, unless its pattern does not compile.
fn remove_filler(text: String, word: &str) -> (r: String)
    ensures
        r@ == match regex_replaced(filler_pattern(word@), text@, seq![]) {
            Some(s) => s,
            None => text@,
        },
{
    let mut p = chars_of("(?i)\\b");
    let esc = regex_escape(chars_of(word).as_slice());
    extend_chars(&mut p, esc.as_slice());
    extend_chars(&mut p, chars_of("\\b[,.]?").as_slice());
    let pattern = string_from(p.as_slice());
    let empty = "";
    proof {
        reveal_strlit("");
    }
    assert(empty@ =~= seq![]);
    match regex_replace_all(pattern.as_str(), text.as_str(), empty) {
        Some(s) => s,
        None => text,
    }
}

/// Cleans a transcript: removes the filler words of the app language, or of the user's own
/// list when there is one (an empty list disables removal), each as a whole word ignoring
/// case together with a comma or period right after it; then collapses stutters, reduces
/// runs of whitespace to one space, and trims.
pub fn filter_transcription_output(text: &str, lang: &str, custom_filler_words: &Option<Vec<String>>) -> (r: String)
    ensures
        r@ == filtered_output(text@, lang@, custom_views(*custom_filler_words)),
{
    let ghost ws = filler_list(lang@, custom_views(*custom_filler_words));
    let mut filtered = string_from(chars_of(text).as_slice());
    match custom_filler_words {
        Some(words) => {
            let n = words.len();
            let mut i: usize = 0;
            while i < n
                invariant
                    i <= n == words@.len(),
                    ws == Seq::new(words@.len(), |k: int| words@[k]@),
                    filtered@ == without_fillers(text@, ws.take(i as int)),
                decreases n - i,
            {
                assert(ws.take(i + 1).drop_last() =~= ws.take(i as int));
                filtered = remove_filler(filtered, words[i].as_str());
                i += 1;
            }
            assert(ws.take(n as int) =~= ws);
        },
        None => {
            let words = get_filler_words_for_language(lang);
            let n = words.len();
            let mut i: usize = 0;
            while i < n
                invariant
                    i <= n == words@.len(),
                    ws == str_views(words@),
                    filtered@ == without_fillers(text@, ws.take(i as int)),
                decreases n - i,
            {
                assert(ws.take(i + 1).drop_last() =~= ws.take(i as int));
                filtered = remove_filler(filtered, words[i]);
                i += 1;
            }
            assert(ws.take(n as int) =~= ws);
        },
    }
    let collapsed = collapse_stutters(filtered.as_str());
    let spaced = collapse_spaces(collapsed.as_str());
    let trimmed = trim_whitespace(chars_of(spaced.as_str()).as_slice());
    string_from(trimmed.as_slice())
}

// ---------------------------------------------------------------------------
// Token shapes.
// ---------------------------------------------------------------------------

/// The word core of a token: opening prose marks trimmed off the left, closing ones off the
/// right. Symbols that belong to a term are kept: `"C#"` keeps its `#`, `".env"` its dot.
pub open spec fn word_core_of(t: Seq<char>) -> Seq<char> {
    let s = t.skip(lead_in(t, CharClass::Opener, 0));
    s.take(trail_in(s, CharClass::Closer, s.len() as int))
}

/// The word core of a token (`"clawed,"` gives "clawed", `"(Name)"` gives "Name").
pub fn word_core(token: &[char]) -> (r: Vec<char>)
    ensures
        r@ == word_core_of(token@),
{
    let a = lead_index(token, CharClass::Opener);
    let s = subrange_chars(token, a, token.len());
    assert(s@ =~= token@.skip(a as int));
    let b = trail_index(s.as_slice(), CharClass::Closer);
    proof {
        lemma_trail_in(s@, CharClass::Closer, s@.len() as int);
    }
    let r = subrange_chars(s.as_slice(), 0, b);
    assert(r@ =~= s@.take(b as int));
    r
}

/// The alphanumeric runs of `s` from `i` on, with the partial run `cur`.
pub open spec fn components_from(s: Seq<char>, i: int, cur: Seq<char>) -> Seq<Seq<char>>
    decreases s.len() - i,
{
    if i >= s.len() {
        flush(cur)
    } else if !alnum_char(s[i]) {
        flush(cur) + components_from(s, i + 1, seq![])
    } else {
        components_from(s, i + 1, cur.push(s[i]))
    }
}

/// The maximal runs of letters and digits of `s`, in order.
pub open spec fn components(s: Seq<char>) -> Seq<Seq<char>> {
    components_from(s, 0, seq![])
}

/// Splits a value into its runs of letters and digits (`"mother-in-law"` gives "mother",
/// "in", "law").
pub fn alphanumeric_components(value: &[char]) -> (r: Vec<Vec<char>>)
    ensures
        views(r@) == components(value@),
{
    let mut out: Vec<Vec<char>> = Vec::new();
    let mut cur: Vec<char> = Vec::new();
    let n = value.len();
    let mut i: usize = 0;
    while i < n
        invariant
            i <= n == value@.len(),
            views(out@) + components_from(value@, i as int, cur@) == components(value@),
        decreases n - i,
    {
        let c = value[i];
        if !is_alphanumeric(c) {
            let ghost before = views(out@);
            let ghost oc = cur@;
            if cur.len() > 0 {
                out.push(cur);
            }
            assert(views(out@) =~= before + flush(oc));
            cur = Vec::new();
            assert(cur@ =~= seq![]);
            assert(before + (flush(oc) + components_from(value@, i + 1, seq![])) =~= views(out@)
                + components_from(value@, i + 1, cur@));
        } else {
            cur.push(c);
        }
        i += 1;
    }
    let ghost before = views(out@);
    if cur.len() > 0 {
        out.push(cur);
        assert(views(out@) =~= before + flush(cur@));
    } else {
        assert(views(out@) + flush(cur@) =~= views(out@));
    }
    out
}

/// The letters of `s`, in order.
pub open spec fn letters_of(s: Seq<char>) -> Seq<char>
    decreases s.len(),
{
    if s.len() == 0 {
        s
    } else {
        letters_of(s.drop_last()) + if alphabetic_char(s.last()) { seq![s.last()] } else { seq![] }
    }
}

pub(crate) fn letters(s: &[char]) -> (r: Vec<char>)
    ensures
        r@ == letters_of(s@),
{
    let n = s.len();
    let mut out: Vec<char> = Vec::new();
    let mut i: usize = 0;
    while i < n
        invariant
            i <= n == s@.len(),
            out@ == letters_of(s@.take(i as int)),
        decreases n - i,
    {
        assert(s@.take(i + 1).drop_last() =~= s@.take(i as int));
        if is_alphabetic(s[i]) {
            out.push(s[i]);
        }
        assert(out@ =~= letters_of(s@.take(i + 1)));
        i += 1;
    }
    assert(s@.take(n as int) =~= s@);
    out
}

/// Casing inside a value that is neither lowercase, ALL-CAPS, nor Capitalized, such as
/// `iOS`, `eBay` or `OpenAI`: it carries meaning and must survive.
pub open spec fn intentional_mixed_case(s: Seq<char>) -> bool {
    let l = letters_of(s);
    &&& exists|i: int| 0 <= i < l.len() && uppercase_char(#[trigger] l[i])
    &&& exists|i: int| 0 <= i < l.len() && lowercase_char(#[trigger] l[i])
    &&& !uppercase_char(l[0]) || exists|i: int| 1 <= i < l.len() && !lowercase_char(#[trigger] l[i])
}

/// Whether a value's casing is intentionally mixed.
pub fn has_intentional_mixed_case(value: &[char]) -> (r: bool)
    ensures
        r == intentional_mixed_case(value@),
{
    let l = letters(value);
    let n = l.len();
    let mut up = false;
    let mut low = false;
    let mut rest_not_lower = false;
    let mut i: usize = 0;
    while i < n
        invariant
            i <= n == l@.len(),
            up == exists|j: int| 0 <= j < i && uppercase_char(#[trigger] l@[j]),
            low == exists|j: int| 0 <= j < i && lowercase_char(#[trigger] l@[j]),
            rest_not_lower == exists|j: int| 1 <= j < i && !lowercase_char(#[trigger] l@[j]),
        decreases n - i,
    {
        let u = is_uppercase(l[i]);
        let lo = is_lowercase(l[i]);
        if u {
            up = true;
        }
        if lo {
            low = true;
        }
        if i >= 1 && !lo {
            rest_not_lower = true;
        }
        i += 1;
    }
    if !up || !low {
        return false;
    }
    !is_uppercase(l[0]) || rest_not_lower
}

/// Whether a value has a letter and all its letters are uppercase.
pub fn is_all_caps(value: &[char]) -> (r: bool)
    ensures
        r == all_caps(value@),
{
    is_all_caps_chars(value)
}

/// A Capitalized value: its first letter uppercase and every other letter lowercase.
pub open spec fn capitalized(s: Seq<char>) -> bool {
    let l = letters_of(s);
    &&& l.len() > 0
    &&& uppercase_char(l[0])
    &&& forall|i: int| 1 <= i < l.len() ==> lowercase_char(#[trigger] l[i])
}

/// Whether a value is Capitalized.
pub fn is_capitalized(value: &[char]) -> (r: bool)
    ensures
        r == capitalized(value@),
{
    let l = letters(value);
    let n = l.len();
    if n == 0 || !is_uppercase(l[0]) {
        return false;
    }
    let mut i: usize = 1;
    while i < n
        invariant
            1 <= i <= n == l@.len(),
            l@ == letters_of(value@),
            forall|j: int| 1 <= j < i ==> lowercase_char(#[trigger] l@[j]),
        decreases n - i,
    {
        if !is_lowercase(l[i]) {
            assert(!lowercase_char(letters_of(value@)[i as int]));
            assert(!capitalized(value@));
            return false;
        }
        i += 1;
    }
    true
}

/// The first letter or digit of `s`, if any.
pub open spec fn first_alnum_of(s: Seq<char>) -> Option<char>
    decreases s.len(),
{
    if s.len() == 0 {
        None
    } else if alnum_char(s[0]) {
        Some(s[0])
    } else {
        first_alnum_of(s.drop_first())
    }
}

/// The first letter or digit of a string (a cheap match anchor).
pub fn first_alnum(s: &[char]) -> (r: Option<char>)
    ensures
        r == first_alnum_of(s@),
{
    let n = s.len();
    let mut i: usize = 0;
    assert(s@.skip(0) =~= s@);
    while i < n
        invariant
            i <= n == s@.len(),
            first_alnum_of(s@.skip(i as int)) == first_alnum_of(s@),
        decreases n - i,
    {
        if is_alphanumeric(s[i]) {
            return Some(s[i]);
        }
        assert(s@.skip(i as int).drop_first() =~= s@.skip(i + 1));
        i += 1;
    }
    None
}

/// The ASCII letters of `s`, in order (the input of the phonetic encoders).
pub open spec fn ascii_letters_of(s: Seq<char>) -> Seq<char>
    decreases s.len(),
{
    if s.len() == 0 {
        s
    } else {
        ascii_letters_of(s.drop_last()) + if ('a' <= s.last() && s.last() <= 'z') || ('A' <= s.last() && s.last() <= 'Z') {
            seq![s.last()]
        } else {
            seq![]
        }
    }
}

/// Keeps the ASCII letters only.
pub fn alpha_only(s: &[char]) -> (r: Vec<char>)
    ensures
        r@ == ascii_letters_of(s@),
{
    let n = s.len();
    let mut out: Vec<char> = Vec::new();
    let mut i: usize = 0;
    while i < n
        invariant
            i <= n == s@.len(),
            out@ == ascii_letters_of(s@.take(i as int)),
        decreases n - i,
    {
        assert(s@.take(i + 1).drop_last() =~= s@.take(i as int));
        let c = s[i];
        if ('a' <= c && c <= 'z') || ('A' <= c && c <= 'Z') {
            out.push(c);
        }
        assert(out@ =~= ascii_letters_of(s@.take(i + 1)));
        i += 1;
    }
    assert(s@.take(n as int) =~= s@);
    out
}

/// Whether `a` and `b` agree on their first `k` characters.
pub open spec fn agree_on(a: Seq<char>, b: Seq<char>, k: int) -> bool {
    k <= a.len() && k <= b.len() && forall|i: int| 0 <= i < k ==> a[i] == b[i]
}

/// The length of the common leading part of two strings, in characters.
pub fn common_prefix_len(a: &[char], b: &[char]) -> (r: usize)
    ensures
        agree_on(a@, b@, r as int),
        r == a@.len() || r == b@.len() || a@[r as int] != b@[r as int],
{
    let mut i: usize = 0;
    while i < a.len() && i < b.len() && a[i] == b[i]
        invariant
            agree_on(a@, b@, i as int),
        decreases a@.len() - i,
    {
        i += 1;
    }
    i
}

/// The n-gram key of some words: each trimmed of non-alphanumeric characters at both ends
/// and lowercased, then joined without spaces ("Charge B" matches "ChargeBee").
pub open spec fn ngram_of(ws: Seq<Seq<char>>) -> Seq<char>
    decreases ws.len(),
{
    if ws.len() == 0 {
        seq![]
    } else {
        ngram_of(ws.drop_last()) + str_lower(trim_class(ws.last(), CharClass::NotAlnum))
    }
}

/// Builds the n-gram key of some words.
pub fn build_ngram(words: &[&str]) -> (r: String)
    ensures
        r@ == ngram_of(str_views(words@)),
{
    let n = words.len();
    let mut out: Vec<char> = Vec::new();
    let mut i: usize = 0;
    while i < n
        invariant
            i <= n == words@.len(),
            out@ == ngram_of(str_views(words@).take(i as int)),
        decreases n - i,
    {
        assert(str_views(words@).take(i + 1).drop_last() =~= str_views(words@).take(i as int));
        let t = trim_class_chars(chars_of(words[i]).as_slice(), CharClass::NotAlnum);
        let l = lower_chars(t.as_slice());
        extend_chars(&mut out, l.as_slice());
        i += 1;
    }
    assert(str_views(words@).take(n as int) =~= str_views(words@));
    string_from(out.as_slice())
}

// ---------------------------------------------------------------------------
// Grammar-only edits.
// ---------------------------------------------------------------------------

/// Lowercased, with curly apostrophes made straight.
pub open spec fn apostrophe_normalized(s: Seq<char>) -> Seq<char> {
    replace_char(str_lower(s), '\u{2019}', '\'')
}

/// Whether `c` is `base` followed by a contraction suffix, or one of the irregular negative
/// contractions of `base`.
pub open spec fn contracted_form(base: Seq<char>, c: Seq<char>) -> bool {
    ||| c == base + "'s"@
    ||| c == base + "'ll"@
    ||| c == base + "'re"@
    ||| c == base + "'ve"@
    ||| c == base + "'d"@
    ||| c == base + "'m"@
    ||| c == base + "n't"@
    ||| base == "can"@ && c == "can't"@
    ||| base == "will"@ && c == "won't"@
    ||| base == "shall"@ && c == "shan't"@
}

/// Whether one token is a grammatical contraction of the other (`Name` and `Name'll`).
pub open spec fn contraction_edit(from: Seq<char>, to: Seq<char>) -> bool {
    let f = apostrophe_normalized(from);
    let t = apostrophe_normalized(to);
    contracted_form(f, t) || contracted_form(t, f)
}

/// Whether `c` is `a` followed by `b`.
fn is_concat(c: &[char], a: &[char], b: &[char]) -> (r: bool)
    ensures
        r == (c@ == a@ + b@),
{
    let n = a.len();
    let m = b.len();
    if c.len() < n || c.len() - n != m {
        assert(c@.len() != (a@ + b@).len());
        return false;
    }
    let mut i: usize = 0;
    while i < c.len()
        invariant
            i <= n + m == c@.len(),
            n == a@.len(),
            m == b@.len(),
            forall|j: int| 0 <= j < i ==> c@[j] == (a@ + b@)[j],
        decreases n + m - i,
    {
        let expected = if i < n { a[i] } else { b[i - n] };
        if c[i] != expected {
            assert(c@[i as int] != (a@ + b@)[i as int]);
            return false;
        }
        i += 1;
    }
    assert(c@ =~= a@ + b@);
    true
}

/// Lowercases and straightens curly apostrophes.
pub(crate) fn normalize_apostrophes(s: &[char]) -> (r: Vec<char>)
    ensures
        r@ == apostrophe_normalized(s@),
{
    let low = lower_chars(s);
    let n = low.len();
    let mut out: Vec<char> = Vec::new();
    let mut i: usize = 0;
    while i < n
        invariant
            i <= n == low@.len(),
            out@ == replace_char(low@.take(i as int), '\u{2019}', '\''),
        decreases n - i,
    {
        out.push(if low[i] == '\u{2019}' { '\'' } else { low[i] });
        i += 1;
        assert(out@ =~= replace_char(low@.take(i as int), '\u{2019}', '\''));
    }
    assert(low@.take(n as int) =~= low@);
    out
}

fn is_contracted_form(base: &[char], c: &[char]) -> (r: bool)
    ensures
        r == contracted_form(base@, c@),
{
    is_concat(c, base, chars_of("'s").as_slice()) || is_concat(c, base, chars_of("'ll").as_slice())
        || is_concat(c, base, chars_of("'re").as_slice()) || is_concat(c, base, chars_of("'ve").as_slice())
        || is_concat(c, base, chars_of("'d").as_slice()) || is_concat(c, base, chars_of("'m").as_slice())
        || is_concat(c, base, chars_of("n't").as_slice()) || (eq_lit(base, "can") && eq_lit(c, "can't")) || (
    eq_lit(base, "will") && eq_lit(c, "won't")) || (eq_lit(base, "shall") && eq_lit(c, "shan't"))
}

/// Whether one token is just a grammatical contraction of the other. Curly apostrophes
/// count as straight ones.
pub fn is_contraction_edit(from: &[char], to: &[char]) -> (r: bool)
    ensures
        r == contraction_edit(from@, to@),
{
    let f = normalize_apostrophes(from);
    let t = normalize_apostrophes(to);
    is_contracted_form(f.as_slice(), t.as_slice()) || is_contracted_form(t.as_slice(), f.as_slice())
}

/// The regular English inflection suffixes, in the order they are tried.
pub open spec fn inflection_suffix(k: int) -> Seq<char> {
    if k == 0 {
        "s"@
    } else if k == 1 {
        "es"@
    } else if k == 2 {
        "ed"@
    } else if k == 3 {
        "ing"@
    } else if k == 4 {
        "er"@
    } else {
        "est"@
    }
}

/// Whether `s` ends with `suf`.
pub open spec fn ends_with(s: Seq<char>, suf: Seq<char>) -> bool {
    s.len() >= suf.len() && s.skip(s.len() - suf.len()) == suf
}

/// Whether `infl` is a regular inflection of `base`, trying the suffixes from number `k` on
/// and, after all of them, the `y` to `ies`/`ied` change. A plain "s" added to a stylized
/// brand (`io` to `iOS`, where `surface` is the inflected token as written) is a recasing,
/// not a plural, when `allow_stylized_s` is set.
pub open spec fn inflected_from(base: Seq<char>, infl: Seq<char>, surface: Seq<char>, allow_stylized_s: bool, k: int) -> bool
    decreases 6 - k,
{
    if k >= 6 || k < 0 {
        base.len() >= 1 && base.last() == 'y' && (infl == base.drop_last() + "ies"@ || infl == base.drop_last()
            + "ied"@)
    } else {
        let suf = inflection_suffix(k);
        if !ends_with(infl, suf) {
            inflected_from(base, infl, surface, allow_stylized_s, k + 1)
        } else {
            let stem = infl.take(infl.len() - suf.len());
            if stem == base {
                !(k == 0 && allow_stylized_s && surface.len() > 0 && uppercase_char(surface.last())
                    && intentional_mixed_case(surface))
            } else if base.len() >= 1 && base.last() == 'e' && stem == base.drop_last() {
                true
            } else if stem.len() >= 2 && stem.drop_last().last() == stem.last() && stem.drop_last() == base {
                true
            } else {
                inflected_from(base, infl, surface, allow_stylized_s, k + 1)
            }
        }
    }
}

/// Whether two tokens differ by a regular inflection in either direction, ignoring case.
pub open spec fn inflection_pair(from: Seq<char>, to: Seq<char>) -> bool {
    inflected_from(str_lower(from), str_lower(to), to, true, 0) || inflected_from(str_lower(to), str_lower(from), from, false, 0)
}

/// Whether two tokens differ only by a regular English inflection, as whole tokens or in
/// one of their aligned components (`mother-in-law` and `mothers-in-law`).
pub open spec fn regular_inflection_edit(from: Seq<char>, to: Seq<char>) -> bool {
    let fc = components(from);
    let tc = components(to);
    ||| inflection_pair(from, to)
    ||| fc.len() == tc.len() && fc.len() > 1 && exists|i: int| 0 <= i < fc.len() && inflection_pair(#[trigger] fc[i], tc[i])
}

fn inflection_suffix_chars(k: usize) -> (r: Vec<char>)
    requires
        k < 6,
    ensures
        r@ == inflection_suffix(k as int),
{
    if k == 0 {
        chars_of("s")
    } else if k == 1 {
        chars_of("es")
    } else if k == 2 {
        chars_of("ed")
    } else if k == 3 {
        chars_of("ing")
    } else if k == 4 {
        chars_of("er")
    } else {
        chars_of("est")
    }
}

fn is_inflected_form(base: &[char], infl: &[char], surface: &[char], allow_stylized_s: bool) -> (r: bool)
    ensures
        r == inflected_from(base@, infl@, surface@, allow_stylized_s, 0),
{
    let mut k: usize = 0;
    while k < 6
        invariant
            k <= 6,
            inflected_from(base@, infl@, surface@, allow_stylized_s, k as int) == inflected_from(
                base@,
                infl@,
                surface@,
                allow_stylized_s,
                0,
            ),
        decreases 6 - k,
    {
        let suf = inflection_suffix_chars(k);
        let n = infl.len();
        let m = suf.len();
        if n >= m {
            let tail = subrange_chars(infl, n - m, n);
            assert(tail@ =~= infl@.skip(n - m));
            if chars_eq(tail.as_slice(), suf.as_slice()) {
                let stem = subrange_chars(infl, 0, n - m);
                assert(stem@ =~= infl@.take(n - m));
                if chars_eq(stem.as_slice(), base) {
                    let stylized = k == 0 && allow_stylized_s && surface.len() > 0 && is_uppercase(
                        surface[surface.len() - 1],
                    ) && has_intentional_mixed_case(surface);
                    return !stylized;
                }
                let b = base.len();
                if b >= 1 && base[b - 1] == 'e' {
                    let shortened = subrange_chars(base, 0, b - 1);
                    assert(shortened@ =~= base@.drop_last());
                    if chars_eq(stem.as_slice(), shortened.as_slice()) {
                        return true;
                    }
                }
                let sl = stem.len();
                if sl >= 2 && stem[sl - 2] == stem[sl - 1] {
                    let shortened = subrange_chars(stem.as_slice(), 0, sl - 1);
                    assert(shortened@ =~= stem@.drop_last());
                    if chars_eq(shortened.as_slice(), base) {
                        return true;
                    }
                }
            }
        }
        k += 1;
    }
    let b = base.len();
    if b >= 1 && base[b - 1] == 'y' {
        let mut ies = subrange_chars(base, 0, b - 1);
        let mut ied = copy_chars(ies.as_slice());
        assert(ies@ =~= base@.drop_last());
        extend_chars(&mut ies, chars_of("ies").as_slice());
        extend_chars(&mut ied, chars_of("ied").as_slice());
        return chars_eq(infl, ies.as_slice()) || chars_eq(infl, ied.as_slice());
    }
    false
}

fn is_inflection_pair(from: &[char], to: &[char]) -> (r: bool)
    ensures
        r == inflection_pair(from@, to@),
{
    let fl = lower_chars(from);
    let tl = lower_chars(to);
    is_inflected_form(fl.as_slice(), tl.as_slice(), to, true) || is_inflected_form(tl.as_slice(), fl.as_slice(), from, false)
}

/// Whether two token cores differ only by a regular English inflection (`API` and `APIs`,
/// `Zorp` and `Zorped`); such a grammar edit must never become a global replacement.
pub fn is_regular_inflection_edit(from: &[char], to: &[char]) -> (r: bool)
    ensures
        r == regular_inflection_edit(from@, to@),
{
    if is_inflection_pair(from, to) {
        return true;
    }
    let fc = alphanumeric_components(from);
    let tc = alphanumeric_components(to);
    let n = fc.len();
    if n != tc.len() || n <= 1 {
        return false;
    }
    let mut i: usize = 0;
    while i < n
        invariant
            i <= n == fc@.len() == tc@.len(),
            n > 1,
            views(fc@) == components(from@),
            views(tc@) == components(to@),
            forall|j: int| 0 <= j < i ==> !inflection_pair(#[trigger] views(fc@)[j], views(tc@)[j]),
        decreases n - i,
    {
        if is_inflection_pair(fc[i].as_slice(), tc[i].as_slice()) {
            assert(inflection_pair(components(from@)[i as int], components(to@)[i as int]));
            return true;
        }
        i += 1;
    }
    false
}

// ---------------------------------------------------------------------------
// Longest common subsequence of two token lists.
// ---------------------------------------------------------------------------

/// The length of a longest common subsequence of `a` from `i` on and `b` from `j` on.
pub open spec fn lcs_len(a: Seq<Seq<char>>, b: Seq<Seq<char>>, i: int, j: int) -> nat
    decreases a.len() - i + b.len() - j,
{
    if i < 0 || j < 0 || i >= a.len() || j >= b.len() {
        0
    } else if a[i] == b[j] {
        1 + lcs_len(a, b, i + 1, j + 1)
    } else {
        let down = lcs_len(a, b, i + 1, j);
        let right = lcs_len(a, b, i, j + 1);
        if down >= right { down } else { right }
    }
}

/// The anchor positions of a longest common subsequence, found by walking from `(i, j)`:
/// equal tokens are taken on the diagonal; otherwise the walk advances on `a` only when
/// that keeps a strictly longer subsequence, and on `b` on a tie.
pub open spec fn anchors_from(a: Seq<Seq<char>>, b: Seq<Seq<char>>, i: int, j: int) -> Seq<(int, int)>
    decreases a.len() - i + b.len() - j,
{
    if i < 0 || j < 0 || i >= a.len() || j >= b.len() {
        seq![]
    } else if a[i] == b[j] {
        seq![(i, j)] + anchors_from(a, b, i + 1, j + 1)
    } else if lcs_len(a, b, i + 1, j) > lcs_len(a, b, i, j + 1) {
        anchors_from(a, b, i + 1, j)
    } else {
        anchors_from(a, b, i, j + 1)
    }
}

pub proof fn lemma_lcs_bound(a: Seq<Seq<char>>, b: Seq<Seq<char>>, i: int, j: int)
    requires
        0 <= i <= a.len(),
        0 <= j <= b.len(),
    ensures
        lcs_len(a, b, i, j) <= a.len() - i,
    decreases a.len() - i + b.len() - j,
{
    if i < a.len() && j < b.len() {
        if a[i] == b[j] {
            lemma_lcs_bound(a, b, i + 1, j + 1);
        } else {
            lemma_lcs_bound(a, b, i + 1, j);
            lemma_lcs_bound(a, b, i, j + 1);
        }
    }
}

/// The table entry of row `i`, column `j`.
pub open spec fn cell(dp: Seq<u32>, stride: int, i: int, j: int) -> u32 {
    dp[i * stride + j]
}

pub proof fn lemma_cell_index(stride: int, n: int, i: int, j: int)
    by (nonlinear_arith)
    requires
        0 <= i <= n,
        0 <= j < stride,
    ensures
        0 <= i * stride + j < (n + 1) * stride,
{
}

pub proof fn lemma_cell_distinct(stride: int, i1: int, j1: int, i2: int, j2: int)
    by (nonlinear_arith)
    requires
        0 <= j1 < stride,
        0 <= j2 < stride,
        0 <= i1,
        0 <= i2,
        i1 != i2 || j1 != j2,
    ensures
        i1 * stride + j1 != i2 * stride + j2,
{
}

/// The views of index pairs.
pub open spec fn pair_views(v: Seq<(usize, usize)>) -> Seq<(int, int)> {
    Seq::new(v.len(), |k: int| (v[k].0 as int, v[k].1 as int))
}

/// The views of owned strings.
pub open spec fn owned_views(v: Seq<String>) -> Seq<Seq<char>> {
    Seq::new(v.len(), |k: int| v[k]@)
}

/// The characters of each string.
fn char_lists(v: &[String]) -> (r: Vec<Vec<char>>)
    ensures
        views(r@) == owned_views(v@),
{
    let mut out: Vec<Vec<char>> = Vec::new();
    let n = v.len();
    let mut i: usize = 0;
    while i < n
        invariant
            i <= n == v@.len(),
            views(out@) == owned_views(v@).take(i as int),
        decreases n - i,
    {
        let cs = chars_of(v[i].as_str());
        assert(cs@ == v@[i as int]@);
        let ghost before = views(out@);
        out.push(cs);
        assert(views(out@) =~= before.push(v@[i as int]@));
        assert(owned_views(v@).take(i + 1) =~= owned_views(v@).take(i as int).push(v@[i as int]@));
        i += 1;
    }
    assert(owned_views(v@).take(n as int) =~= owned_views(v@));
    out
}

/// The positions `(i, j)` of a longest common subsequence of two token lists, in order; on
/// a tie the walk prefers advancing on `b`, so the result is deterministic. The table has
/// `(a.len() + 1) * (b.len() + 1)` cells.
pub fn lcs_anchors(a: &[String], b: &[String]) -> (r: Vec<(usize, usize)>)
    requires
        (a@.len() + 1) * (b@.len() + 1) <= usize::MAX,
        a@.len() < u32::MAX,
    ensures
        pair_views(r@) == anchors_from(owned_views(a@), owned_views(b@), 0, 0),
{
    let ghost av = owned_views(a@);
    let ghost bv = owned_views(b@);
    let ak = char_lists(a);
    let bk = char_lists(b);
    let n = a.len();
    let m = b.len();
    assert(ak@.len() == views(ak@).len());
    assert(bk@.len() == views(bk@).len());
    assert(m + 1 <= (n + 1) * (m + 1)) by (nonlinear_arith)
        requires
            n >= 0,
            m >= 0,
    ;
    let stride = m + 1;
    let total = (n + 1) * stride;
    let mut dp: Vec<u32> = Vec::new();
    while dp.len() < total
        invariant
            dp@.len() <= total,
            forall|k: int| 0 <= k < dp@.len() ==> dp@[k] == 0,
        decreases total - dp@.len(),
    {
        dp.push(0);
    }
    proof {
        assert forall|i2: int, j2: int| 0 <= i2 <= n && 0 <= j2 <= m && (i2 >= n || j2 == m) implies #[trigger] cell(dp@, stride as int, i2, j2)
            == lcs_len(av, bv, i2, j2) by {
            lemma_cell_index(stride as int, n as int, i2, j2);
        }
    }
    let mut i = n;
    while i > 0
        invariant
            i <= n == ak@.len() == a@.len(),
            m == bk@.len() == b@.len(),
            stride == m + 1,
            total == (n + 1) * stride,
            n < u32::MAX,
            dp@.len() == total,
            views(ak@) == av,
            views(bk@) == bv,
            forall|i2: int, j2: int| 0 <= i2 <= n && 0 <= j2 <= m && (i2 >= i || j2 == m) ==> #[trigger] cell(
                dp@,
                stride as int,
                i2,
                j2,
            ) == lcs_len(av, bv, i2, j2),
        decreases i,
    {
        let r = i - 1;
        let mut j = m;
        while j > 0
            invariant
                r + 1 == i <= n == ak@.len(),
                m == bk@.len(),
                j <= m,
                stride == m + 1,
                total == (n + 1) * stride,
                n < u32::MAX,
                dp@.len() == total,
                views(ak@) == av,
                views(bk@) == bv,
                forall|i2: int, j2: int| 0 <= i2 <= n && 0 <= j2 <= m && (i2 >= i || j2 == m || (i2 == r && j2 >= j))
                    ==> #[trigger] cell(dp@, stride as int, i2, j2) == lcs_len(av, bv, i2, j2),
            decreases j,
        {
            let c = j - 1;
            proof {
                lemma_cell_index(stride as int, n as int, r as int, c as int);
                lemma_cell_index(stride as int, n as int, (r + 1) as int, c as int);
                lemma_cell_index(stride as int, n as int, (r + 1) as int, j as int);
                lemma_cell_index(stride as int, n as int, r as int, j as int);
                assert(cell(dp@, stride as int, (r + 1) as int, j as int) == lcs_len(av, bv, r + 1, j as int));
                assert(cell(dp@, stride as int, (r + 1) as int, c as int) == lcs_len(av, bv, r + 1, c as int));
                assert(cell(dp@, stride as int, r as int, j as int) == lcs_len(av, bv, r as int, j as int));
                lemma_lcs_bound(av, bv, r + 1, j as int);
                lemma_lcs_bound(av, bv, r as int, c as int);
            }
            let same = chars_eq(ak[r].as_slice(), bk[c].as_slice());
            let value = if same {
                dp[(r + 1) * stride + j] + 1
            } else {
                let down = dp[(r + 1) * stride + c];
                let right = dp[r * stride + j];
                if down >= right { down } else { right }
            };
            let k = r * stride + c;
            let ghost old_dp = dp@;
            dp.set(k, value);
            proof {
                assert forall|i2: int, j2: int| 0 <= i2 <= n && 0 <= j2 <= m && (i2 >= i || j2 == m || (i2 == r && j2
                    >= c)) implies #[trigger] cell(dp@, stride as int, i2, j2) == lcs_len(av, bv, i2, j2) by {
                    if i2 != r || j2 != c {
                        lemma_cell_distinct(stride as int, i2, j2, r as int, c as int);
                        lemma_cell_index(stride as int, n as int, i2, j2);
                        assert(cell(old_dp, stride as int, i2, j2) == lcs_len(av, bv, i2, j2));
                    }
                }
            }
            j = c;
        }
        i = r;
    }
    let mut out: Vec<(usize, usize)> = Vec::new();
    let mut x: usize = 0;
    let mut y: usize = 0;
    assert(pair_views(out@) + anchors_from(av, bv, 0, 0) =~= anchors_from(av, bv, 0, 0));
    while x < n && y < m
        invariant
            x <= n == ak@.len(),
            y <= m == bk@.len(),
            stride == m + 1,
            dp@.len() == total == (n + 1) * stride,
            views(ak@) == av,
            views(bk@) == bv,
            av.len() == n,
            bv.len() == m,
            forall|i2: int, j2: int| 0 <= i2 <= n && 0 <= j2 <= m ==> #[trigger] cell(dp@, stride as int, i2, j2)
                == lcs_len(av, bv, i2, j2),
            pair_views(out@) + anchors_from(av, bv, x as int, y as int) == anchors_from(av, bv, 0, 0),
        decreases n - x + m - y,
    {
        proof {
            lemma_cell_index(stride as int, n as int, (x + 1) as int, y as int);
            lemma_cell_index(stride as int, n as int, x as int, (y + 1) as int);
            assert(cell(dp@, stride as int, (x + 1) as int, y as int) == lcs_len(av, bv, x + 1, y as int));
            assert(cell(dp@, stride as int, x as int, (y + 1) as int) == lcs_len(av, bv, x as int, y + 1));
        }
        if chars_eq(ak[x].as_slice(), bk[y].as_slice()) {
            let ghost before = pair_views(out@);
            out.push((x, y));
            assert(pair_views(out@) =~= before + seq![(x as int, y as int)]);
            x += 1;
            y += 1;
        } else if dp[(x + 1) * stride + y] > dp[x * stride + y + 1] {
            x += 1;
        } else {
            y += 1;
        }
    }
    assert(anchors_from(av, bv, x as int, y as int) =~= seq![]);
    assert(pair_views(out@) =~= anchors_from(av, bv, 0, 0));
    out
}

} // verus!

verus! {

// ---------------------------------------------------------------------------
// Filler words are removed as whole words only.
// ---------------------------------------------------------------------------

/// The regular-expression flag that makes a match ignore case.
pub open spec fn ignore_case_flag() -> Seq<char> {
    "(?i)"@
}

/// The regular-expression assertion that holds only at a word boundary.
pub open spec fn word_boundary() -> Seq<char> {
    "\\b"@
}

/// An optional comma or period.
pub open spec fn optional_comma_or_period() -> Seq<char> {
    "[,.]?"@
}

/// Filler words are removed as whole words only: each filler word, in order, is replaced by
/// nothing wherever the case-insensitive pattern made of a word boundary, the word taken
/// literally, and another word boundary (then an optional comma or period) matches. Because
/// the word must stand between two word boundaries, a longer word that merely ends or starts
/// with a filler ("album", "forum") is not a match.
pub proof fn law_fillers_match_whole_words_only(text: Seq<char>, ws: Seq<Seq<char>>)
    ensures
        forall|w: Seq<char>|
            #[trigger] filler_pattern(w) == ignore_case_flag() + word_boundary() + regex_escaped(w) + word_boundary()
                + optional_comma_or_period(),
        ws.len() > 0 ==> without_fillers(text, ws) == match regex_replaced(
            ignore_case_flag() + word_boundary() + regex_escaped(ws.last()) + word_boundary()
                + optional_comma_or_period(),
            without_fillers(text, ws.drop_last()),
            seq![],
        ) {
            Some(s) => s,
            None => without_fillers(text, ws.drop_last()),
        },
{
    reveal_strlit("(?i)\\b");
    reveal_strlit("\\b[,.]?");
    reveal_strlit("(?i)");
    reveal_strlit("\\b");
    reveal_strlit("[,.]?");
    assert("(?i)\\b"@ =~= ignore_case_flag() + word_boundary());
    assert("\\b[,.]?"@ =~= word_boundary() + optional_comma_or_period());
    assert forall|w: Seq<char>|
        #[trigger] filler_pattern(w) == ignore_case_flag() + word_boundary() + regex_escaped(w) + word_boundary()
            + optional_comma_or_period() by {
        assert(filler_pattern(w) =~= ignore_case_flag() + word_boundary() + regex_escaped(w) + word_boundary()
            + optional_comma_or_period());
    }
    if ws.len() > 0 {
        assert(filler_pattern(ws.last()) == ignore_case_flag() + word_boundary() + regex_escaped(ws.last())
            + word_boundary() + optional_comma_or_period());
    }
}

} // verus!
