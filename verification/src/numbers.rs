//! Deterministic English number formatting (inverse text normalization): spoken numbers
//! such as "twenty five dollars", "ten percent" or "three point five" become "$25",
//! "10%" and "3.5". Precision first: a wrong rewrite is worse than a missed one.
use vstd::prelude::*;
use crate::language::{tag_is_english, TextPipelineLanguage};
use crate::unicode::{ascii_ci_eq, eq_ignore_ascii_case, copy_chars, subrange_chars, extend_chars, ascii_digit, ascii_lower, ascii_lower_char, decimal, digit_char, digit_value, eq_lit, join_space, two_digits, lower_chars, split_on, split_on_char, str_lower, views};

verus! {

/// A classified English number word.
#[derive(Clone, Copy, Debug, PartialEq, Eq, Structural)]
pub enum Cat {
    /// 0..=9
    Unit(u64),
    /// 10..=19
    Teen(u64),
    /// 20, 30, ... 90
    Ten(u64),
    /// "hundred"
    Hundred,
    /// "thousand", "million", ... (the multiplier)
    Scale(u64),
}

/// Punctuation stripped from the ends of a token before it is examined. Hyphen is excluded
/// so hyphenated compounds stay intact.
pub open spec fn boundary_char(c: char) -> bool {
    c == '.' || c == ',' || c == ';' || c == ':' || c == '!' || c == '?' || c == '"'
        || c == '\'' || c == '`' || c == '(' || c == ')' || c == '[' || c == ']' || c == '{'
        || c == '}' || c == '\u{2026}' || c == '\u{2018}' || c == '\u{2019}' || c == '\u{201C}'
        || c == '\u{201D}' || c == '\u{00AB}' || c == '\u{00BB}' || c == '\u{2014}'
        || c == '\u{2013}'
}

pub fn is_boundary(c: char) -> (b: bool)
    ensures
        b == boundary_char(c),
{
    c == '.' || c == ',' || c == ';' || c == ':' || c == '!' || c == '?' || c == '"'
        || c == '\'' || c == '`' || c == '(' || c == ')' || c == '[' || c == ']' || c == '{'
        || c == '}' || c == '\u{2026}' || c == '\u{2018}' || c == '\u{2019}' || c == '\u{201C}'
        || c == '\u{201D}' || c == '\u{00AB}' || c == '\u{00BB}' || c == '\u{2014}'
        || c == '\u{2013}'
}

/// The category of one lowercased word, if it is a number word.
pub open spec fn word_cat(w: Seq<char>) -> Option<Cat> {
    if w == "zero"@ { Some(Cat::Unit(0)) }
    else if w == "one"@ { Some(Cat::Unit(1)) }
    else if w == "two"@ { Some(Cat::Unit(2)) }
    else if w == "three"@ { Some(Cat::Unit(3)) }
    else if w == "four"@ { Some(Cat::Unit(4)) }
    else if w == "five"@ { Some(Cat::Unit(5)) }
    else if w == "six"@ { Some(Cat::Unit(6)) }
    else if w == "seven"@ { Some(Cat::Unit(7)) }
    else if w == "eight"@ { Some(Cat::Unit(8)) }
    else if w == "nine"@ { Some(Cat::Unit(9)) }
    else if w == "ten"@ { Some(Cat::Teen(10)) }
    else if w == "eleven"@ { Some(Cat::Teen(11)) }
    else if w == "twelve"@ { Some(Cat::Teen(12)) }
    else if w == "thirteen"@ { Some(Cat::Teen(13)) }
    else if w == "fourteen"@ { Some(Cat::Teen(14)) }
    else if w == "fifteen"@ { Some(Cat::Teen(15)) }
    else if w == "sixteen"@ { Some(Cat::Teen(16)) }
    else if w == "seventeen"@ { Some(Cat::Teen(17)) }
    else if w == "eighteen"@ { Some(Cat::Teen(18)) }
    else if w == "nineteen"@ { Some(Cat::Teen(19)) }
    else if w == "twenty"@ { Some(Cat::Ten(20)) }
    else if w == "thirty"@ { Some(Cat::Ten(30)) }
    else if w == "forty"@ { Some(Cat::Ten(40)) }
    else if w == "fifty"@ { Some(Cat::Ten(50)) }
    else if w == "sixty"@ { Some(Cat::Ten(60)) }
    else if w == "seventy"@ { Some(Cat::Ten(70)) }
    else if w == "eighty"@ { Some(Cat::Ten(80)) }
    else if w == "ninety"@ { Some(Cat::Ten(90)) }
    else if w == "hundred"@ { Some(Cat::Hundred) }
    else if w == "thousand"@ { Some(Cat::Scale(1_000)) }
    else if w == "million"@ { Some(Cat::Scale(1_000_000)) }
    else if w == "billion"@ { Some(Cat::Scale(1_000_000_000)) }
    else if w == "trillion"@ { Some(Cat::Scale(1_000_000_000_000)) }
    else { None }
}

fn word_to_cat(w: &[char]) -> (r: Option<Cat>)
    ensures
        r == word_cat(w@),
{
    if eq_lit(w, "zero") { Some(Cat::Unit(0)) }
    else if eq_lit(w, "one") { Some(Cat::Unit(1)) }
    else if eq_lit(w, "two") { Some(Cat::Unit(2)) }
    else if eq_lit(w, "three") { Some(Cat::Unit(3)) }
    else if eq_lit(w, "four") { Some(Cat::Unit(4)) }
    else if eq_lit(w, "five") { Some(Cat::Unit(5)) }
    else if eq_lit(w, "six") { Some(Cat::Unit(6)) }
    else if eq_lit(w, "seven") { Some(Cat::Unit(7)) }
    else if eq_lit(w, "eight") { Some(Cat::Unit(8)) }
    else if eq_lit(w, "nine") { Some(Cat::Unit(9)) }
    else if eq_lit(w, "ten") { Some(Cat::Teen(10)) }
    else if eq_lit(w, "eleven") { Some(Cat::Teen(11)) }
    else if eq_lit(w, "twelve") { Some(Cat::Teen(12)) }
    else if eq_lit(w, "thirteen") { Some(Cat::Teen(13)) }
    else if eq_lit(w, "fourteen") { Some(Cat::Teen(14)) }
    else if eq_lit(w, "fifteen") { Some(Cat::Teen(15)) }
    else if eq_lit(w, "sixteen") { Some(Cat::Teen(16)) }
    else if eq_lit(w, "seventeen") { Some(Cat::Teen(17)) }
    else if eq_lit(w, "eighteen") { Some(Cat::Teen(18)) }
    else if eq_lit(w, "nineteen") { Some(Cat::Teen(19)) }
    else if eq_lit(w, "twenty") { Some(Cat::Ten(20)) }
    else if eq_lit(w, "thirty") { Some(Cat::Ten(30)) }
    else if eq_lit(w, "forty") { Some(Cat::Ten(40)) }
    else if eq_lit(w, "fifty") { Some(Cat::Ten(50)) }
    else if eq_lit(w, "sixty") { Some(Cat::Ten(60)) }
    else if eq_lit(w, "seventy") { Some(Cat::Ten(70)) }
    else if eq_lit(w, "eighty") { Some(Cat::Ten(80)) }
    else if eq_lit(w, "ninety") { Some(Cat::Ten(90)) }
    else if eq_lit(w, "hundred") { Some(Cat::Hundred) }
    else if eq_lit(w, "thousand") { Some(Cat::Scale(1_000)) }
    else if eq_lit(w, "million") { Some(Cat::Scale(1_000_000)) }
    else if eq_lit(w, "billion") { Some(Cat::Scale(1_000_000_000)) }
    else if eq_lit(w, "trillion") { Some(Cat::Scale(1_000_000_000_000)) }
    else { None }
}

/// Whether `next` may continue a cardinal after `prev`: "twenty five" stays together while
/// "twenty twenty" and "five six" split.
pub open spec fn follows(prev: Cat, next: Cat) -> bool {
    match (prev, next) {
        (Cat::Unit(u), Cat::Hundred) => u >= 1,
        (Cat::Unit(u), Cat::Scale(_)) => u >= 1,
        (Cat::Teen(_), Cat::Hundred) => true,
        (Cat::Teen(_), Cat::Scale(_)) => true,
        (Cat::Ten(_), Cat::Unit(u)) => u >= 1,
        (Cat::Ten(_), Cat::Hundred) => true,
        (Cat::Ten(_), Cat::Scale(_)) => true,
        (Cat::Hundred, Cat::Scale(_)) => true,
        (Cat::Hundred, Cat::Unit(_)) => true,
        (Cat::Hundred, Cat::Teen(_)) => true,
        (Cat::Hundred, Cat::Ten(_)) => true,
        (Cat::Scale(s), Cat::Scale(s2)) => s2 < s,
        (Cat::Scale(_), Cat::Unit(_)) => true,
        (Cat::Scale(_), Cat::Teen(_)) => true,
        (Cat::Scale(_), Cat::Ten(_)) => true,
        (Cat::Scale(_), Cat::Hundred) => true,
        _ => false,
    }
}

fn can_follow(prev: Cat, next: Cat) -> (r: bool)
    ensures
        r == follows(prev, next),
{
    match (prev, next) {
        (Cat::Unit(u), Cat::Hundred) => u >= 1,
        (Cat::Unit(u), Cat::Scale(_)) => u >= 1,
        (Cat::Teen(_), Cat::Hundred) => true,
        (Cat::Teen(_), Cat::Scale(_)) => true,
        (Cat::Ten(_), Cat::Unit(u)) => u >= 1,
        (Cat::Ten(_), Cat::Hundred) => true,
        (Cat::Ten(_), Cat::Scale(_)) => true,
        (Cat::Hundred, Cat::Scale(_)) => true,
        (Cat::Hundred, Cat::Unit(_)) => true,
        (Cat::Hundred, Cat::Teen(_)) => true,
        (Cat::Hundred, Cat::Ten(_)) => true,
        (Cat::Scale(s), Cat::Scale(s2)) => s2 < s,
        (Cat::Scale(_), Cat::Unit(_)) => true,
        (Cat::Scale(_), Cat::Teen(_)) => true,
        (Cat::Scale(_), Cat::Ten(_)) => true,
        (Cat::Scale(_), Cat::Hundred) => true,
        _ => false,
    }
}

/// Every piece is a number word.
pub open spec fn all_number_words(parts: Seq<Seq<char>>) -> bool {
    forall|k: int| 0 <= k < parts.len() ==> (#[trigger] word_cat(parts[k])) is Some
}

/// The categories of the pieces, when every piece is a number word.
pub open spec fn part_cats(parts: Seq<Seq<char>>) -> Seq<Cat> {
    Seq::new(parts.len(), |k: int| word_cat(parts[k])->0)
}

/// Consecutive categories form a valid cardinal.
pub open spec fn well_formed(cats: Seq<Cat>) -> bool {
    forall|k: int| 0 <= k < cats.len() - 1 ==> #[trigger] follows(cats[k], cats[k + 1])
}

/// The categories of a token core: its lowercase form split on hyphens ("twenty-five" ->
/// [Ten(20), Unit(5)]), only when every piece is a number word and together they form a valid
/// cardinal.
pub open spec fn number_cats(core: Seq<char>) -> Option<Seq<Cat>> {
    if core.len() == 0 {
        None
    } else {
        let parts = split_on(str_lower(core), '-');
        if all_number_words(parts) && well_formed(part_cats(parts)) {
            Some(part_cats(parts))
        } else {
            None
        }
    }
}

fn token_number_cats(core: &[char]) -> (r: Option<Vec<Cat>>)
    ensures
        r is Some <==> number_cats(core@) is Some,
        r matches Some(v) ==> v@ == number_cats(core@)->0 && v@.len() >= 1,
{
    if core.len() == 0 {
        return None;
    }
    let lower = lower_chars(core);
    let parts = split_on_char(&lower, '-');
    let ghost ps = split_on(str_lower(core@), '-');
    let mut cats: Vec<Cat> = Vec::new();
    let mut k: usize = 0;
    while k < parts.len()
        invariant
            k <= parts@.len(),
            views(parts@) == ps,
            core@.len() > 0,
            ps == split_on(str_lower(core@), '-'),
            cats@.len() == k,
            forall|j: int| 0 <= j < k ==> word_cat(#[trigger] ps[j]) == Some(cats@[j]),
        decreases parts@.len() - k,
    {
        match word_to_cat(&parts[k]) {
            None => {
                assert(parts@[k as int]@ == ps[k as int]);
                assert(word_cat(ps[k as int]) is None);
                assert(!all_number_words(ps));
                return None;
            },
            Some(c) => {
                assert(parts@[k as int]@ == ps[k as int]);
                cats.push(c);
            },
        }
        k += 1;
    }
    assert(all_number_words(ps));
    assert(cats@ =~= part_cats(ps));
    proof { crate::unicode::lemma_split_on_from_nonempty(str_lower(core@), '-', 0, seq![]); }
    let mut j: usize = 1;
    while j < cats.len()
        invariant
            cats@ == part_cats(ps),
            all_number_words(ps),
            core@.len() > 0,
            ps == split_on(str_lower(core@), '-'),
            1 <= j <= cats@.len(),
            forall|m: int| 0 <= m < j - 1 ==> #[trigger] follows(cats@[m], cats@[m + 1]),
        decreases cats@.len() - j,
    {
        if !can_follow(cats[j - 1], cats[j]) {
            let ghost k: int = j - 1;
            assert(!follows(part_cats(ps)[k], part_cats(ps)[k + 1]));
            assert(!well_formed(part_cats(ps)));
            return None;
        }
        j += 1;
    }
    Some(cats)
}

/// `a + b`, capped at `u64::MAX`.
pub open spec fn sat_add(a: int, b: int) -> int {
    if a + b > u64::MAX { u64::MAX as int } else { a + b }
}

/// `a * b`, capped at `u64::MAX`.
pub open spec fn sat_mul(a: int, b: int) -> int {
    if a * b > u64::MAX { u64::MAX as int } else { a * b }
}

fn saturating_mul(a: u64, b: u64) -> (r: u64)
    ensures
        r == sat_mul(a as int, b as int),
{
    match a.checked_mul(b) {
        Some(p) => p,
        None => u64::MAX,
    }
}

/// Folds categories from position `i` with the running `(result, current)` pair.
pub open spec fn fold_value(cats: Seq<Cat>, i: int, result: int, current: int) -> int
    decreases cats.len() - i,
{
    if i < 0 || i >= cats.len() {
        sat_add(result, current)
    } else {
        match cats[i] {
            Cat::Unit(n) => fold_value(cats, i + 1, result, sat_add(current, n as int)),
            Cat::Teen(n) => fold_value(cats, i + 1, result, sat_add(current, n as int)),
            Cat::Ten(n) => fold_value(cats, i + 1, result, sat_add(current, n as int)),
            Cat::Hundred => fold_value(
                cats,
                i + 1,
                result,
                if current == 0 { 100 } else { sat_mul(current, 100) },
            ),
            Cat::Scale(s) => fold_value(
                cats,
                i + 1,
                sat_add(result, sat_mul(if current == 0 { 1 } else { current }, s as int)),
                0,
            ),
        }
    }
}

/// The integer value of a validated category sequence, with saturating arithmetic.
pub open spec fn cats_value(cats: Seq<Cat>) -> int {
    fold_value(cats, 0, 0, 0)
}

fn cats_to_value(cats: &[Cat]) -> (v: u64)
    ensures
        v == cats_value(cats@),
{
    let mut result: u64 = 0;
    let mut current: u64 = 0;
    let mut i: usize = 0;
    while i < cats.len()
        invariant
            i <= cats@.len(),
            fold_value(cats@, i as int, result as int, current as int) == cats_value(cats@),
        decreases cats@.len() - i,
    {
        match cats[i] {
            Cat::Unit(n) => current = current.saturating_add(n),
            Cat::Teen(n) => current = current.saturating_add(n),
            Cat::Ten(n) => current = current.saturating_add(n),
            Cat::Hundred => {
                current = if current == 0 { 100 } else { saturating_mul(current, 100) };
            },
            Cat::Scale(s) => {
                let group = if current == 0 { 1 } else { current };
                result = result.saturating_add(saturating_mul(group, s));
                current = 0;
            },
        }
        i += 1;
    }
    result.saturating_add(current)
}

} // verus!

verus! {

/// End of the leading run of boundary punctuation, scanning from `i`.
pub open spec fn lead_end(w: Seq<char>, i: int) -> int
    decreases w.len() - i,
{
    if 0 <= i < w.len() && boundary_char(w[i]) {
        lead_end(w, i + 1)
    } else {
        i
    }
}

/// Start of the trailing run of boundary punctuation, scanning back from `j`.
pub open spec fn trail_start(w: Seq<char>, j: int) -> int
    decreases j,
{
    if 0 < j <= w.len() && boundary_char(w[j - 1]) {
        trail_start(w, j - 1)
    } else {
        j
    }
}

/// Whether a word is boundary punctuation throughout (then its core is empty).
pub open spec fn all_boundary(w: Seq<char>) -> bool {
    lead_end(w, 0) >= w.len()
}

/// Leading punctuation of a token.
pub open spec fn w_lead(w: Seq<char>) -> Seq<char> {
    if all_boundary(w) { seq![] } else { w.take(lead_end(w, 0)) }
}

/// The token between its leading and trailing punctuation.
pub open spec fn w_core(w: Seq<char>) -> Seq<char> {
    if all_boundary(w) { seq![] } else { w.subrange(lead_end(w, 0), trail_start(w, w.len() as int)) }
}

/// Trailing punctuation of a token (the whole token when it is all punctuation).
pub open spec fn w_trail(w: Seq<char>) -> Seq<char> {
    if all_boundary(w) { w } else { w.skip(trail_start(w, w.len() as int)) }
}

pub proof fn lemma_lead_end(w: Seq<char>, i: int)
    requires
        0 <= i <= w.len(),
    ensures
        i <= lead_end(w, i) <= w.len(),
        lead_end(w, i) < w.len() ==> !boundary_char(w[lead_end(w, i)]),
        forall|k: int| i <= k < lead_end(w, i) ==> boundary_char(w[k]),
    decreases w.len() - i,
{
    if i < w.len() && boundary_char(w[i]) {
        lemma_lead_end(w, i + 1);
    }
}

pub proof fn lemma_trail_start(w: Seq<char>, j: int, first: int)
    requires
        0 <= first < j <= w.len(),
        !boundary_char(w[first]),
    ensures
        first < trail_start(w, j) <= j,
        trail_start(w, j) > 0 ==> (trail_start(w, j) == j || boundary_char(w[trail_start(w, j)])),
        forall|k: int| trail_start(w, j) <= k < j ==> boundary_char(w[k]),
        !boundary_char(w[trail_start(w, j) - 1]),
    decreases j,
{
    if boundary_char(w[j - 1]) {
        lemma_trail_start(w, j - 1, first);
    }
}

/// A whitespace-delimited token split into leading punctuation, core, and trailing
/// punctuation, with the original kept for verbatim re-emission.
pub struct Token {
    pub lead: Vec<char>,
    pub core: Vec<char>,
    pub trail: Vec<char>,
    pub original: Vec<char>,
}

/// The parts of a token agree with its original word.
pub open spec fn token_ok(t: Token) -> bool {
    &&& t.lead@ == w_lead(t.original@)
    &&& t.core@ == w_core(t.original@)
    &&& t.trail@ == w_trail(t.original@)
}

/// The original words of a token list.
pub open spec fn tok_words(toks: Seq<Token>) -> Seq<Seq<char>> {
    Seq::new(toks.len(), |k: int| toks[k].original@)
}

/// Every token of a list is well formed.
pub open spec fn tokens_ok(toks: Seq<Token>) -> bool {
    forall|k: int| 0 <= k < toks.len() ==> #[trigger] token_ok(toks[k])
}

/// Splits a word into (leading punctuation, core, trailing punctuation).
fn split_affixes(word: &[char]) -> (r: (Vec<char>, Vec<char>, Vec<char>))
    ensures
        r.0@ == w_lead(word@),
        r.1@ == w_core(word@),
        r.2@ == w_trail(word@),
{
    let n = word.len();
    let mut first: usize = 0;
    while first < n && is_boundary(word[first])
        invariant
            first <= n == word@.len(),
            lead_end(word@, first as int) == lead_end(word@, 0),
        decreases n - first,
    {
        first += 1;
    }
    proof { lemma_lead_end(word@, 0); }
    if first >= n {
        assert(word@.take(0) =~= seq![]);
        return (Vec::new(), Vec::new(), copy_chars(word));
    }
    let mut last: usize = n;
    while last > 0 && is_boundary(word[last - 1])
        invariant
            last <= n == word@.len(),
            trail_start(word@, last as int) == trail_start(word@, n as int),
        decreases last,
    {
        last -= 1;
    }
    proof { lemma_trail_start(word@, n as int, first as int); }
    (subrange_chars(word, 0, first), subrange_chars(word, first, last), subrange_chars(word, last, n))
}

/// Tokenizes text on whitespace.
fn tokenize(text: &[char]) -> (toks: Vec<Token>)
    ensures
        tok_words(toks@) == crate::unicode::split_ws(text@),
        tokens_ok(toks@),
{
    let words = crate::unicode::split_whitespace(text);
    let mut toks: Vec<Token> = Vec::new();
    let mut k: usize = 0;
    while k < words.len()
        invariant
            k <= words@.len(),
            views(words@) == crate::unicode::split_ws(text@),
            toks@.len() == k,
            forall|j: int| 0 <= j < k ==> (#[trigger] toks@[j]).original@ == words@[j]@,
            tokens_ok(toks@),
        decreases words@.len() - k,
    {
        let (lead, core, trail) = split_affixes(&words[k]);
        let t = Token { lead, core, trail, original: copy_chars(&words[k]) };
        toks.push(t);
        k += 1;
    }
    assert(tok_words(toks@) =~= views(words@));
    toks
}

} // verus!

verus! {

/// The lowercased core of a word.
pub open spec fn lower_core(w: Seq<char>) -> Seq<char> {
    str_lower(w_core(w))
}

/// The scanning state while one cardinal group is read.
pub struct GState {
    pub cats: Seq<Cat>,
    pub trail: Seq<char>,
    pub first_lower: Seq<char>,
    pub prev: Option<Cat>,
    pub i: int,
}

/// "and" joins the group only after a hundred/scale and before a further clean number token.
pub open spec fn and_continues(ws: Seq<Seq<char>>, st: GState) -> bool {
    &&& w_trail(ws[st.i]).len() == 0
    &&& (st.prev matches Some(Cat::Hundred) || st.prev matches Some(Cat::Scale(_)))
    &&& st.i + 1 < ws.len()
    &&& w_lead(ws[st.i + 1]).len() == 0
    &&& number_cats(w_core(ws[st.i + 1])) is Some
}

/// "a"/"an" counts as one only as a multiplier before "hundred"/"thousand"/...
pub open spec fn article_qualifies(ws: Seq<Seq<char>>, st: GState) -> bool {
    &&& (st.prev is None || st.prev matches Some(Cat::Scale(_)))
    &&& st.i + 1 < ws.len()
    &&& w_lead(ws[st.i + 1]).len() == 0
    &&& number_cats(w_core(ws[st.i + 1])) matches Some(c) && c.len() > 0 && (c[0] is Hundred
        || c[0] is Scale)
}

/// The state after the number token `ws[st.i]` (with categories `tc`) joins the group.
pub open spec fn absorb(ws: Seq<Seq<char>>, st: GState, tc: Seq<Cat>) -> GState {
    GState {
        cats: st.cats + tc,
        trail: if w_trail(ws[st.i]).len() > 0 { w_trail(ws[st.i]) } else { st.trail },
        first_lower: if st.cats.len() == 0 { lower_core(ws[st.i]) } else { st.first_lower },
        prev: Some(tc.last()),
        i: st.i + 1,
    }
}

/// Reads one cardinal group: consumes consecutive number tokens while they stay a valid
/// cardinal, stopping at an invalid transition, at a token carrying trailing punctuation
/// (which is kept), or at a later token opening with punctuation.
pub open spec fn group_loop(ws: Seq<Seq<char>>, start: int, st: GState) -> GState
    decreases ws.len() - st.i,
{
    if st.i < 0 || st.i >= ws.len() {
        st
    } else if st.i > start && w_lead(ws[st.i]).len() > 0 {
        st
    } else if lower_core(ws[st.i]) == "and"@ {
        if and_continues(ws, st) {
            group_loop(ws, start, GState { i: st.i + 1, ..st })
        } else {
            st
        }
    } else if (lower_core(ws[st.i]) == "a"@ || lower_core(ws[st.i]) == "an"@) && w_trail(
        ws[st.i],
    ).len() == 0 {
        if article_qualifies(ws, st) {
            group_loop(
                ws,
                start,
                GState {
                    cats: st.cats.push(Cat::Unit(1)),
                    first_lower: if st.cats.len() == 0 { lower_core(ws[st.i]) } else { st.first_lower },
                    prev: Some(Cat::Unit(1)),
                    i: st.i + 1,
                    ..st
                },
            )
        } else {
            st
        }
    } else {
        match number_cats(w_core(ws[st.i])) {
            None => st,
            Some(tc) => if st.prev is Some && !follows(st.prev->0, tc[0]) {
                st
            } else if w_trail(ws[st.i]).len() > 0 {
                absorb(ws, st, tc)
            } else {
                group_loop(ws, start, absorb(ws, st, tc))
            },
        }
    }
}

/// One consumed cardinal group.
pub struct SpecGroup {
    pub value: int,
    /// Index of the first token after the group.
    pub end: int,
    /// Leading punctuation of the group's first token.
    pub lead: Seq<char>,
    /// Trailing punctuation of the group's last token, if it ended on punctuation.
    pub trail: Seq<char>,
    /// The group is exactly the standalone word "one".
    pub bare_one: bool,
}

pub open spec fn init_state(start: int) -> GState {
    GState { cats: seq![], trail: seq![], first_lower: seq![], prev: None, i: start }
}

/// The cardinal group starting at token `start`, if that token starts one.
pub open spec fn parse_group(ws: Seq<Seq<char>>, start: int) -> Option<SpecGroup> {
    if start < 0 || start >= ws.len() {
        None
    } else {
        let f = group_loop(ws, start, init_state(start));
        if f.cats.len() == 0 {
            None
        } else {
            Some(
                SpecGroup {
                    value: cats_value(f.cats),
                    end: f.i,
                    lead: w_lead(ws[start]),
                    trail: f.trail,
                    bare_one: f.cats == seq![Cat::Unit(1)] && f.first_lower == "one"@,
                },
            )
        }
    }
}

pub proof fn lemma_number_cats_nonempty(core: Seq<char>)
    ensures
        number_cats(core) matches Some(c) ==> c.len() >= 1,
{
    crate::unicode::lemma_split_on_from_nonempty(str_lower(core), '-', 0, seq![]);
}

pub proof fn lemma_group_loop(ws: Seq<Seq<char>>, start: int, st: GState)
    requires
        0 <= start <= st.i <= ws.len(),
        st.cats.len() > 0 ==> st.i > start,
        st.prev is Some ==> st.cats.len() > 0,
    ensures
        st.i <= group_loop(ws, start, st).i <= ws.len(),
        group_loop(ws, start, st).cats.len() > 0 ==> group_loop(ws, start, st).i > start,
        st.cats.len() <= group_loop(ws, start, st).cats.len(),
    decreases ws.len() - st.i,
{
    if st.i < 0 || st.i >= ws.len() {
    } else if st.i > start && w_lead(ws[st.i]).len() > 0 {
    } else if lower_core(ws[st.i]) == "and"@ {
        if and_continues(ws, st) {
            lemma_group_loop(ws, start, GState { i: st.i + 1, ..st });
        }
    } else if (lower_core(ws[st.i]) == "a"@ || lower_core(ws[st.i]) == "an"@) && w_trail(
        ws[st.i],
    ).len() == 0 {
        if article_qualifies(ws, st) {
            lemma_group_loop(
                ws,
                start,
                GState {
                    cats: st.cats.push(Cat::Unit(1)),
                    first_lower: if st.cats.len() == 0 { lower_core(ws[st.i]) } else { st.first_lower },
                    prev: Some(Cat::Unit(1)),
                    i: st.i + 1,
                    ..st
                },
            );
        }
    } else {
        match number_cats(w_core(ws[st.i])) {
            None => {},
            Some(tc) => if st.prev is Some && !follows(st.prev->0, tc[0]) {
            } else if w_trail(ws[st.i]).len() > 0 {
            } else {
                lemma_number_cats_nonempty(w_core(ws[st.i]));
                lemma_group_loop(ws, start, absorb(ws, st, tc));
            },
        }
    }
}

/// The exec form of a consumed cardinal group.
pub struct NumGroup {
    pub value: u64,
    pub end: usize,
    pub lead: Vec<char>,
    pub trail: Vec<char>,
    pub is_bare_one: bool,
}

/// The group matches its specification.
pub open spec fn group_matches(g: NumGroup, s: SpecGroup) -> bool {
    &&& g.value == s.value
    &&& g.end == s.end
    &&& g.lead@ == s.lead
    &&& g.trail@ == s.trail
    &&& g.is_bare_one == s.bare_one
}

fn is_bare_one_cats(cats: &Vec<Cat>, first: &[char]) -> (r: bool)
    ensures
        r == (cats@ == seq![Cat::Unit(1)] && first@ == "one"@),
{
    if cats.len() == 1 && eq_lit(first, "one") {
        match cats[0] {
            Cat::Unit(n) => {
                if n == 1 {
                    assert(cats@ =~= seq![Cat::Unit(1)]);
                    true
                } else {
                    assert(cats@[0] != Cat::Unit(1));
                    false
                }
            },
            _ => {
                assert(cats@[0] != Cat::Unit(1));
                false
            },
        }
    } else {
        if cats.len() != 1 {
            assert(cats@.len() != seq![Cat::Unit(1)].len());
        }
        false
    }
}

/// Reads one cardinal number starting at `start`.
fn parse_number_group(tokens: &Vec<Token>, start: usize) -> (r: Option<NumGroup>)
    requires
        tokens_ok(tokens@),
    ensures
        r is Some <==> parse_group(tok_words(tokens@), start as int) is Some,
        r matches Some(g) ==> group_matches(g, parse_group(tok_words(tokens@), start as int)->0),
{
    let ghost ws = tok_words(tokens@);
    if start >= tokens.len() {
        return None;
    }
    let mut cats: Vec<Cat> = Vec::new();
    let mut trail: Vec<char> = Vec::new();
    let mut first_lower: Vec<char> = Vec::new();
    let mut prev: Option<Cat> = None;
    let mut i: usize = start;
    let mut stop = false;
    proof { lemma_group_loop(ws, start as int, init_state(start as int)); }
    let ghost fin = group_loop(ws, start as int, init_state(start as int));
    while i < tokens.len() && !stop
        invariant
            ws == tok_words(tokens@),
            tokens_ok(tokens@),
            start < tokens@.len(),
            start <= i <= tokens@.len(),
            cats@.len() > 0 ==> i > start,
            prev is Some ==> cats@.len() > 0,
            prev matches Some(p) ==> p == cats@.last(),
            fin == group_loop(ws, start as int, init_state(start as int)),
            ({
                let cur = GState {
                    cats: cats@,
                    trail: trail@,
                    first_lower: first_lower@,
                    prev: prev,
                    i: i as int,
                };
                fin == if stop { cur } else { group_loop(ws, start as int, cur) }
            }),
        decreases tokens@.len() - i, if stop { 0int } else { 1int },
    {
        let ghost cur = GState {
            cats: cats@,
            trail: trail@,
            first_lower: first_lower@,
            prev: prev,
            i: i as int,
        };
        let t = &tokens[i];
        assert(token_ok(tokens@[i as int]));
        assert(ws[i as int] == t.original@);
        if i > start && t.lead.len() > 0 {
            stop = true;
        } else {
            let lower = lower_chars(&t.core);
            if eq_lit(&lower, "and") {
                let mut cont = false;
                if t.trail.len() == 0 {
                    match prev {
                        Some(Cat::Hundred) | Some(Cat::Scale(_)) => {
                            if i + 1 < tokens.len() {
                                let next = &tokens[i + 1];
                                assert(token_ok(tokens@[i + 1]));
                                assert(ws[i + 1] == next.original@);
                                if next.lead.len() == 0 {
                                    if token_number_cats(&next.core).is_some() {
                                        cont = true;
                                    }
                                }
                            }
                        },
                        _ => {},
                    }
                }
                assert(cont == and_continues(ws, cur));
                if cont {
                    i += 1;
                } else {
                    stop = true;
                }
            } else if (eq_lit(&lower, "a") || eq_lit(&lower, "an")) && t.trail.len() == 0 {
                let mut qualifies = false;
                let prev_ok = match prev {
                    None => true,
                    Some(Cat::Scale(_)) => true,
                    _ => false,
                };
                if prev_ok && i + 1 < tokens.len() {
                    let next = &tokens[i + 1];
                    assert(token_ok(tokens@[i + 1]));
                    assert(ws[i + 1] == next.original@);
                    if next.lead.len() == 0 {
                        match token_number_cats(&next.core) {
                            Some(nc) => {
                                match nc[0] {
                                    Cat::Hundred | Cat::Scale(_) => {
                                        qualifies = true;
                                    },
                                    _ => {},
                                }
                            },
                            None => {},
                        }
                    }
                }
                assert(qualifies == article_qualifies(ws, cur));
                if qualifies {
                    if cats.len() == 0 {
                        first_lower = lower;
                    }
                    cats.push(Cat::Unit(1));
                    prev = Some(Cat::Unit(1));
                    i += 1;
                } else {
                    stop = true;
                }
            } else {
                match token_number_cats(&t.core) {
                    None => {
                        stop = true;
                    },
                    Some(tc) => {
                        let blocked = match prev {
                            Some(p) => !can_follow(p, tc[0]),
                            None => false,
                        };
                        if blocked {
                            stop = true;
                        } else {
                            let ghost nxt = absorb(ws, cur, tc@);
                            if cats.len() == 0 {
                                first_lower = lower;
                            }
                            prev = Some(tc[tc.len() - 1]);
                            let mut k: usize = 0;
                            let ghost base = cats@;
                            while k < tc.len()
                                invariant
                                    k <= tc@.len(),
                                    cats@ == base + tc@.take(k as int),
                                decreases tc@.len() - k,
                            {
                                cats.push(tc[k]);
                                k += 1;
                                assert(tc@.take(k as int) =~= tc@.take(k - 1).push(tc@[k - 1]));
                            }
                            assert(tc@.take(tc@.len() as int) =~= tc@);
                            if t.trail.len() > 0 {
                                trail = copy_chars(&t.trail);
                                stop = true;
                            }
                            i += 1;
                            assert(cats@ == nxt.cats);
                        }
                    },
                }
            }
        }
    }
    if cats.len() == 0 {
        return None;
    }
    let value = cats_to_value(&cats);
    let is_bare_one = is_bare_one_cats(&cats, &first_lower);
    let t0 = &tokens[start];
    assert(token_ok(tokens@[start as int]));
    Some(NumGroup { value, end: i, lead: copy_chars(&t0.lead), trail, is_bare_one })
}

} // verus!

verus! {

pub proof fn lemma_parse_group_end(ws: Seq<Seq<char>>, start: int)
    ensures
        parse_group(ws, start) matches Some(g) ==> start < g.end <= ws.len(),
{
    if 0 <= start < ws.len() {
        lemma_group_loop(ws, start, init_state(start));
    }
}

/// Lowercased core of the token at `idx` when it carries no leading punctuation.
pub open spec fn abutting_lower(ws: Seq<Seq<char>>, idx: int) -> Option<Seq<char>> {
    if 0 <= idx < ws.len() && w_lead(ws[idx]).len() == 0 {
        Some(lower_core(ws[idx]))
    } else {
        None
    }
}

/// Unit words that pull a preceding number into a symbol or decimal form.
pub open spec fn combinator_word(w: Seq<char>) -> bool {
    w == "dollar"@ || w == "dollars"@ || w == "buck"@ || w == "bucks"@ || w == "percent"@
        || w == "point"@ || w == "cent"@ || w == "cents"@
}

/// Currency words.
pub open spec fn dollar_word(w: Seq<char>) -> bool {
    w == "dollar"@ || w == "dollars"@ || w == "buck"@ || w == "bucks"@
}

/// English ordinal words: a cardinal right before one reads as a compound ordinal.
pub open spec fn ordinal_word(w: Seq<char>) -> bool {
    w == "first"@ || w == "second"@ || w == "third"@ || w == "fourth"@ || w == "fifth"@
        || w == "sixth"@ || w == "seventh"@ || w == "eighth"@ || w == "ninth"@ || w == "tenth"@
        || w == "eleventh"@ || w == "twelfth"@ || w == "thirteenth"@ || w == "fourteenth"@
        || w == "fifteenth"@ || w == "sixteenth"@ || w == "seventeenth"@ || w == "eighteenth"@
        || w == "nineteenth"@ || w == "twentieth"@ || w == "thirtieth"@ || w == "fortieth"@
        || w == "fiftieth"@ || w == "sixtieth"@ || w == "seventieth"@ || w == "eightieth"@
        || w == "ninetieth"@ || w == "hundredth"@ || w == "thousandth"@ || w == "millionth"@
        || w == "billionth"@ || w == "trillionth"@
}

fn is_combinator_word(w: &[char]) -> (r: bool)
    ensures
        r == combinator_word(w@),
{
    eq_lit(w, "dollar") || eq_lit(w, "dollars") || eq_lit(w, "buck") || eq_lit(w, "bucks")
        || eq_lit(w, "percent") || eq_lit(w, "point") || eq_lit(w, "cent") || eq_lit(w, "cents")
}

fn is_dollar_word(w: &[char]) -> (r: bool)
    ensures
        r == dollar_word(w@),
{
    eq_lit(w, "dollar") || eq_lit(w, "dollars") || eq_lit(w, "buck") || eq_lit(w, "bucks")
}

fn is_ordinal_word(w: &[char]) -> (r: bool)
    ensures
        r == ordinal_word(w@),
{
    eq_lit(w, "first") || eq_lit(w, "second") || eq_lit(w, "third") || eq_lit(w, "fourth")
        || eq_lit(w, "fifth") || eq_lit(w, "sixth") || eq_lit(w, "seventh") || eq_lit(w, "eighth")
        || eq_lit(w, "ninth") || eq_lit(w, "tenth") || eq_lit(w, "eleventh") || eq_lit(
        w,
        "twelfth",
    ) || eq_lit(w, "thirteenth") || eq_lit(w, "fourteenth") || eq_lit(w, "fifteenth") || eq_lit(
        w,
        "sixteenth",
    ) || eq_lit(w, "seventeenth") || eq_lit(w, "eighteenth") || eq_lit(w, "nineteenth")
        || eq_lit(w, "twentieth") || eq_lit(w, "thirtieth") || eq_lit(w, "fortieth") || eq_lit(
        w,
        "fiftieth",
    ) || eq_lit(w, "sixtieth") || eq_lit(w, "seventieth") || eq_lit(w, "eightieth") || eq_lit(
        w,
        "ninetieth",
    ) || eq_lit(w, "hundredth") || eq_lit(w, "thousandth") || eq_lit(w, "millionth") || eq_lit(
        w,
        "billionth",
    ) || eq_lit(w, "trillionth")
}

fn abutting_core_lower(tokens: &Vec<Token>, idx: usize) -> (r: Option<Vec<char>>)
    requires
        tokens_ok(tokens@),
    ensures
        r is Some <==> abutting_lower(tok_words(tokens@), idx as int) is Some,
        r matches Some(v) ==> v@ == abutting_lower(tok_words(tokens@), idx as int)->0,
{
    if idx < tokens.len() {
        assert(token_ok(tokens@[idx as int]));
        if tokens[idx].lead.len() == 0 {
            return Some(lower_chars(&tokens[idx].core));
        }
    }
    None
}

/// One spoken digit of a decimal fraction at `idx`: `(digit, next index, trailing punctuation)`.
pub open spec fn decimal_step(ws: Seq<Seq<char>>, idx: int) -> Option<(int, int, Seq<char>)> {
    match parse_group(ws, idx) {
        Some(g) => if g.lead.len() == 0 && g.value <= 9 && g.end == idx + 1 {
            Some((g.value, g.end, g.trail))
        } else {
            spoken_zero(ws, idx)
        },
        None => spoken_zero(ws, idx),
    }
}

/// The spoken zero "oh"/"o" as one fractional digit.
pub open spec fn spoken_zero(ws: Seq<Seq<char>>, idx: int) -> Option<(int, int, Seq<char>)> {
    if 0 <= idx < ws.len() && w_lead(ws[idx]).len() == 0 && (lower_core(ws[idx]) == "oh"@
        || lower_core(ws[idx]) == "o"@) {
        Some((0, idx + 1, w_trail(ws[idx])))
    } else {
        None
    }
}

/// Reads fractional digits from `idx` until a non-digit or a digit carrying punctuation.
pub open spec fn dec_loop(ws: Seq<Seq<char>>, idx: int, frac: Seq<char>, last: Seq<char>) -> (
    Seq<char>,
    Seq<char>,
    int,
)
    decreases ws.len() - idx,
{
    if idx < 0 || idx >= ws.len() {
        (frac, last, idx)
    } else {
        match decimal_step(ws, idx) {
            None => (frac, last, idx),
            Some((d, ni, tr)) => if tr.len() > 0 || ni != idx + 1 {
                (frac.push(digit_char(d)), tr, ni)
            } else {
                dec_loop(ws, ni, frac.push(digit_char(d)), tr)
            },
        }
    }
}

/// The decimal fraction after the "point" token at `point`: digits, trailing punctuation, and the
/// index after the fraction.
pub open spec fn parse_decimal(ws: Seq<Seq<char>>, point: int) -> Option<(Seq<char>, Seq<char>, int)> {
    if w_trail(ws[point]).len() > 0 {
        None
    } else {
        let r = dec_loop(ws, point + 1, seq![], seq![]);
        if r.0.len() == 0 {
            None
        } else {
            Some(r)
        }
    }
}

pub proof fn lemma_dec_loop(ws: Seq<Seq<char>>, idx: int, frac: Seq<char>, last: Seq<char>)
    ensures
        dec_loop(ws, idx, frac, last).2 >= idx,
        0 <= idx <= ws.len() ==> dec_loop(ws, idx, frac, last).2 <= ws.len(),
        dec_loop(ws, idx, frac, last).0.len() > frac.len() ==> dec_loop(ws, idx, frac, last).2 > idx,
    decreases ws.len() - idx,
{
    if idx < 0 || idx >= ws.len() {
    } else {
        match decimal_step(ws, idx) {
            None => {},
            Some((d, ni, tr)) => if tr.len() > 0 || ni != idx + 1 {
                lemma_parse_group_end(ws, idx);
            } else {
                lemma_dec_loop(ws, ni, frac.push(digit_char(d)), tr);
            },
        }
    }
}

fn parse_decimal_digits(tokens: &Vec<Token>, point_idx: usize) -> (r: Option<(Vec<char>, Vec<char>, usize)>)
    requires
        tokens_ok(tokens@),
        point_idx < tokens@.len(),
    ensures
        r is Some <==> parse_decimal(tok_words(tokens@), point_idx as int) is Some,
        r matches Some(x) ==> ({
            let s = parse_decimal(tok_words(tokens@), point_idx as int)->0;
            x.0@ == s.0 && x.1@ == s.1 && x.2 == s.2
        }),
{
    let ghost ws = tok_words(tokens@);
    assert(token_ok(tokens@[point_idx as int]));
    if tokens[point_idx].trail.len() > 0 {
        return None;
    }
    let mut frac: Vec<char> = Vec::new();
    let mut last_trail: Vec<char> = Vec::new();
    let n = tokens.len();
    let mut idx: usize = point_idx + 1;
    let mut stop = false;
    let ghost fin = dec_loop(ws, point_idx + 1, seq![], seq![]);
    assert(frac@ =~= seq![]);
    assert(last_trail@ =~= seq![]);
    while !stop
        invariant
            ws == tok_words(tokens@),
            tokens_ok(tokens@),
            idx <= tokens@.len(),
            fin == dec_loop(ws, point_idx + 1, seq![], seq![]),
            fin == if stop { (frac@, last_trail@, idx as int) } else { dec_loop(ws, idx as int, frac@, last_trail@) },
        decreases tokens@.len() - idx, if stop { 0int } else { 1int },
    {
        if idx >= tokens.len() {
            stop = true;
        } else {
            let mut step: Option<(u64, usize, Vec<char>)> = None;
            match parse_number_group(tokens, idx) {
                Some(g) => {
                    if g.lead.len() == 0 && g.value <= 9 && g.end == idx + 1 {
                        step = Some((g.value, g.end, g.trail));
                    }
                },
                None => {},
            }
            if step.is_none() {
                assert(token_ok(tokens@[idx as int]));
                let t = &tokens[idx];
                if t.lead.len() == 0 {
                    let lower = lower_chars(&t.core);
                    if eq_lit(&lower, "oh") || eq_lit(&lower, "o") {
                        step = Some((0, idx + 1, copy_chars(&t.trail)));
                    }
                }
            }
            match step {
                None => {
                    stop = true;
                },
                Some((d, ni, tr)) => {
                    proof { lemma_parse_group_end(ws, idx as int); }
                    frac.push(crate::unicode::digit_of(d));
                    let done = tr.len() > 0 || ni != idx + 1;
                    last_trail = tr;
                    idx = ni;
                    if done {
                        stop = true;
                    }
                },
            }
        }
    }
    if frac.len() == 0 {
        None
    } else {
        Some((frac, last_trail, idx))
    }
}

/// An optional "[and] <number> cents" tail after a dollar amount: `(cents, trailing
/// punctuation, index after the cents word)`. The cents value must be below 100.
pub open spec fn parse_cents(ws: Seq<Seq<char>>, start: int, allow: bool) -> Option<(int, Seq<char>, int)> {
    if !allow {
        None
    } else {
        let num_start = if 0 <= start < ws.len() && w_lead(ws[start]).len() == 0 && w_trail(
            ws[start],
        ).len() == 0 && ascii_ci_eq(w_core(ws[start]), "and"@) {
            start + 1
        } else {
            start
        };
        match parse_group(ws, num_start) {
            None => None,
            Some(g) => if g.lead.len() > 0 || g.trail.len() > 0 || g.value >= 100 || g.end
                >= ws.len() || w_lead(ws[g.end]).len() > 0 {
                None
            } else if lower_core(ws[g.end]) == "cent"@ || lower_core(ws[g.end]) == "cents"@ {
                Some((g.value, w_trail(ws[g.end]), g.end + 1))
            } else {
                None
            },
        }
    }
}

fn parse_trailing_cents(tokens: &Vec<Token>, start: usize, allow: bool) -> (r: Option<(u64, Vec<char>, usize)>)
    requires
        tokens_ok(tokens@),
    ensures
        r is Some <==> parse_cents(tok_words(tokens@), start as int, allow) is Some,
        r matches Some(x) ==> ({
            let s = parse_cents(tok_words(tokens@), start as int, allow)->0;
            x.0 == s.0 && x.1@ == s.1 && x.2 == s.2
        }),
{
    let ghost ws = tok_words(tokens@);
    if !allow {
        return None;
    }
    let mut num_start = start;
    if start < tokens.len() {
        assert(token_ok(tokens@[start as int]));
        let t = &tokens[start];
        let and_chars = crate::unicode::chars_of("and");
        if t.lead.len() == 0 && t.trail.len() == 0 && eq_ignore_ascii_case(&t.core, &and_chars) {
            num_start = start + 1;
        }
    }
    let group = match parse_number_group(tokens, num_start) {
        Some(g) => g,
        None => return None,
    };
    proof { lemma_parse_group_end(ws, num_start as int); }
    if group.lead.len() > 0 || group.trail.len() > 0 || group.value >= 100 || group.end >= tokens.len() {
        return None;
    }
    assert(token_ok(tokens@[group.end as int]));
    let cw = &tokens[group.end];
    if cw.lead.len() > 0 {
        return None;
    }
    let lower = lower_chars(&cw.core);
    if eq_lit(&lower, "cent") || eq_lit(&lower, "cents") {
        Some((group.value, copy_chars(&cw.trail), group.end + 1))
    } else {
        None
    }
}

} // verus!

verus! {

/// The output words produced from token `i` on: every cardinal group becomes its digits,
/// with currency, percent and decimal forms when the unit word directly follows it.
pub open spec fn fmt_from(ws: Seq<Seq<char>>, i: int) -> Seq<Seq<char>>
    decreases ws.len() - i,
{
    if i < 0 || i >= ws.len() {
        seq![]
    } else {
        match parse_group(ws, i) {
            None => seq![ws[i]] + fmt_from(ws, i + 1),
            Some(g) => {
                proof {
                    lemma_parse_group_end(ws, i);
                }
                let nw = abutting_lower(ws, g.end);
                let v = decimal(g.value as nat);
                if g.trail.len() == 0 && nw is Some && ordinal_word(nw->0) {
                    ws.subrange(i, g.end) + fmt_from(ws, g.end)
                } else {
                    let dec = if g.trail.len() == 0 && nw == Some("point"@) {
                        parse_decimal(ws, g.end)
                    } else {
                        None
                    };
                    let comb = nw is Some && combinator_word(nw->0) && (nw->0 != "point"@ || dec is Some);
                    if g.bare_one && !comb {
                        seq![ws[i]] + fmt_from(ws, g.end)
                    } else if g.trail.len() == 0 && dec is Some {
                        let d = dec->0;
                        proof {
                            lemma_dec_loop(ws, g.end + 1, seq![], seq![]);
                            assert(d == dec_loop(ws, g.end + 1, seq![], seq![]));
                            assert(d.0.len() > 0);
                            assert(d.2 > g.end + 1);
                            assert(d.2 <= ws.len());
                        }
                        seq![g.lead + v + seq!['.'] + d.0 + d.1] + fmt_from(ws, d.2)
                    } else if g.trail.len() == 0 && nw == Some("percent"@) {
                        seq![g.lead + v + seq!['%'] + w_trail(ws[g.end])] + fmt_from(ws, g.end + 1)
                    } else if g.trail.len() == 0 && nw is Some && dollar_word(nw->0) {
                        match parse_cents(ws, g.end + 1, w_trail(ws[g.end]).len() == 0) {
                            Some(c) => {
                                proof {
                                    let ns = if 0 <= g.end + 1 < ws.len() && w_lead(ws[g.end + 1]).len() == 0
                                        && w_trail(ws[g.end + 1]).len() == 0 && ascii_ci_eq(
                                        w_core(ws[g.end + 1]),
                                        "and"@,
                                    ) {
                                        g.end + 2
                                    } else {
                                        g.end + 1
                                    };
                                    lemma_parse_group_end(ws, ns);
                                }
                                seq![g.lead + seq!['$'] + v + seq!['.'] + two_digits(c.0 as nat) + c.1]
                                    + fmt_from(ws, c.2)
                            },
                            None => seq![g.lead + seq!['$'] + v + w_trail(ws[g.end])] + fmt_from(ws, g.end + 1),
                        }
                    } else {
                        seq![g.lead + v + g.trail] + fmt_from(ws, g.end)
                    }
                }
            },
        }
    }
}

/// Digits, as a number.
pub open spec fn digits_value(w: Seq<char>) -> int
    decreases w.len(),
{
    if w.len() == 0 {
        0
    } else {
        digits_value(w.drop_last()) * 10 + digit_value(w.last())
    }
}

/// A word of bare ASCII digits whose value lies in `lo..=hi`.
pub open spec fn bare_num(w: Seq<char>, lo: int, hi: int) -> Option<int> {
    if w.len() > 0 && (forall|k: int| 0 <= k < w.len() ==> ascii_digit(#[trigger] w[k]))
        && lo <= digits_value(w) <= hi {
        Some(digits_value(w))
    } else {
        None
    }
}

/// A spoken meridiem, with or without its periods: "am", "pm", "a.m", "p.m" after trailing
/// punctuation is trimmed, ignoring ASCII case.
pub open spec fn meridiem(w: Seq<char>) -> bool {
    let c = w.take(trail_start(w, w.len() as int));
    let l = Seq::new(c.len(), |k: int| ascii_lower(c[k]));
    l == "am"@ || l == "pm"@ || l == "a.m"@ || l == "p.m"@
}

/// The clock time read at word `i` ("3 30 pm" -> "3:30"), if the hour, a two-digit minute and
/// a meridiem line up there.
pub open spec fn clock_at(ws: Seq<Seq<char>>, i: int) -> Option<Seq<char>> {
    let w = ws[i];
    let le = lead_end(w, 0);
    let hour = bare_num(w.skip(le), 1, 12);
    let minute = bare_num(ws[i + 1], 0, 59);
    if hour is Some && minute is Some && ws[i + 1].len() == 2 && meridiem(ws[i + 2]) {
        Some(w.take(le) + decimal(hour->0 as nat) + seq![':'] + two_digits(minute->0 as nat))
    } else {
        None
    }
}

/// Joins an hour and minute that group conversion emitted apart into a clock time, anchored
/// on a following meridiem and on nothing else.
pub open spec fn stitch_from(ws: Seq<Seq<char>>, i: int) -> Seq<Seq<char>>
    decreases ws.len() - i,
{
    if i < 0 || i >= ws.len() {
        seq![]
    } else if i + 2 < ws.len() && clock_at(ws, i) is Some {
        seq![clock_at(ws, i)->0] + stitch_from(ws, i + 2)
    } else {
        seq![ws[i]] + stitch_from(ws, i + 1)
    }
}

/// The whole transform: convert number groups, join the words with single spaces, then
/// stitch clock times across the space-separated words.
pub open spec fn formatted(text: Seq<char>) -> Seq<char> {
    let converted = join_space(fmt_from(crate::unicode::split_ws(text), 0));
    join_space(stitch_from(split_on(converted, ' '), 0))
}

} // verus!

verus! {

pub proof fn lemma_digits_value_nonneg(w: Seq<char>)
    requires
        forall|k: int| 0 <= k < w.len() ==> ascii_digit(#[trigger] w[k]),
    ensures
        digits_value(w) >= 0,
    decreases w.len(),
{
    if w.len() > 0 {
        lemma_digits_value_nonneg(w.drop_last());
    }
}

/// Bare ASCII digits whose value lies in `lo..=hi`, returning that value.
fn bare_number(w: &[char], lo: u64, hi: u64) -> (r: Option<u64>)
    requires
        hi <= 1000,
    ensures
        r is Some <==> bare_num(w@, lo as int, hi as int) is Some,
        r matches Some(v) ==> v == bare_num(w@, lo as int, hi as int)->0,
{
    if w.len() == 0 {
        return None;
    }
    let mut val: u64 = 0;
    let mut over = false;
    let mut k: usize = 0;
    assert(w@.take(0) =~= seq![]);
    while k < w.len()
        invariant
            k <= w@.len(),
            hi <= 1000,
            forall|j: int| 0 <= j < k ==> ascii_digit(#[trigger] w@[j]),
            !over ==> val == digits_value(w@.take(k as int)) && val <= hi,
            over ==> digits_value(w@.take(k as int)) > hi,
        decreases w@.len() - k,
    {
        let c = w[k];
        if !('0' <= c && c <= '9') {
            assert(!ascii_digit(w@[k as int]));
            return None;
        }
        let ghost pre = w@.take(k as int);
        assert(w@.take(k + 1).drop_last() =~= pre);
        proof { lemma_digits_value_nonneg(pre); }
        let d: u64 = ((c as u32) - ('0' as u32)) as u64;
        if !over {
            let nv = val * 10 + d;
            if nv > hi {
                over = true;
            } else {
                val = nv;
            }
        }
        k += 1;
    }
    assert(w@.take(w@.len() as int) =~= w@);
    if over || val < lo {
        None
    } else {
        Some(val)
    }
}

fn is_meridiem(w: &[char]) -> (r: bool)
    ensures
        r == meridiem(w@),
{
    let mut last: usize = w.len();
    while last > 0 && is_boundary(w[last - 1])
        invariant
            last <= w@.len(),
            trail_start(w@, last as int) == trail_start(w@, w@.len() as int),
        decreases last,
    {
        last -= 1;
    }
    let c = subrange_chars(w, 0, last);
    let mut l: Vec<char> = Vec::new();
    let mut k: usize = 0;
    while k < c.len()
        invariant
            k <= c@.len(),
            l@ == Seq::new(k as nat, |j: int| ascii_lower(c@[j])),
        decreases c@.len() - k,
    {
        l.push(ascii_lower_char(c[k]));
        k += 1;
        assert(l@ =~= Seq::new(k as nat, |j: int| ascii_lower(c@[j])));
    }
    assert(w@.take(last as int) =~= c@);
    eq_lit(&l, "am") || eq_lit(&l, "pm") || eq_lit(&l, "a.m") || eq_lit(&l, "p.m")
}

fn clock_time(ws: &Vec<Vec<char>>, i: usize) -> (r: Option<Vec<char>>)
    requires
        i + 2 < ws@.len(),
    ensures
        r is Some <==> clock_at(views(ws@), i as int) is Some,
        r matches Some(v) ==> v@ == clock_at(views(ws@), i as int)->0,
{
    let ghost vs = views(ws@);
    let n = ws.len();
    let w = &ws[i];
    assert(vs[i as int] == w@);
    assert(vs[i + 1] == ws@[i + 1]@);
    assert(vs[i + 2] == ws@[i + 2]@);
    let mut le: usize = 0;
    while le < w.len() && is_boundary(w[le])
        invariant
            le <= w@.len(),
            lead_end(w@, le as int) == lead_end(w@, 0),
        decreases w@.len() - le,
    {
        le += 1;
    }
    let digits = subrange_chars(w, le, w.len());
    assert(digits@ =~= w@.skip(le as int));
    let hour = bare_number(&digits, 1, 12);
    let minute = bare_number(&ws[i + 1], 0, 59);
    match (hour, minute) {
        (Some(h), Some(m)) => {
            if ws[i + 1].len() == 2 && is_meridiem(&ws[i + 2]) {
                let mut piece = subrange_chars(w, 0, le);
                assert(piece@ =~= w@.take(le as int));
                let hd = crate::unicode::decimal_digits(h);
                extend_chars(&mut piece, &hd);
                piece.push(':');
                let md = crate::unicode::two_digit_chars(m);
                extend_chars(&mut piece, &md);
                assert(piece@ =~= w@.take(le as int) + decimal(h as nat) + seq![':'] + two_digits(m as nat));
                Some(piece)
            } else {
                None
            }
        },
        _ => None,
    }
}

/// Joins "3 30 pm" into "3:30 pm" across the space-separated words of `text`.
fn stitch_clock_times(text: &[char]) -> (r: Vec<char>)
    ensures
        r@ == join_space(stitch_from(split_on(text@, ' '), 0)),
{
    let words = split_on_char(text, ' ');
    let ghost ws = views(words@);
    let mut out: Vec<Vec<char>> = Vec::new();
    let mut i: usize = 0;
    while i < words.len()
        invariant
            i <= words@.len(),
            ws == views(words@),
            views(out@) + stitch_from(ws, i as int) == stitch_from(ws, 0),
        decreases words@.len() - i,
    {
        let ghost before = views(out@);
        let mut stitched = false;
        if words.len() - i > 2 {
            match clock_time(&words, i) {
                Some(piece) => {
                    out.push(piece);
                    assert(views(out@) =~= before + seq![clock_at(ws, i as int)->0]);
                    i += 2;
                    stitched = true;
                },
                None => {},
            }
        }
        if !stitched {
            out.push(copy_chars(&words[i]));
            assert(views(out@) =~= before + seq![ws[i as int]]);
            i += 1;
        }
    }
    crate::unicode::join_words(&out)
}

/// Rewrites spelled-out numbers in English text into digits and symbols when the text is
/// known to be English; text in another or an unknown language comes back unchanged.
pub fn format_numbers(text: &str, language: &TextPipelineLanguage) -> (r: String)
    ensures
        r@ == if tag_is_english(language@) {
            formatted(text@)
        } else {
            text@
        },
{
    if language.is_english() {
        format_english_numbers(text)
    } else {
        crate::unicode::string_from(crate::unicode::chars_of(text).as_slice())
    }
}

/// Rewrites spelled-out English numbers in `text` into digits and symbols ("twenty five
/// dollars" -> "$25", "ten percent" -> "10%", "three point one four" -> "3.14",
/// "three thirty pm" -> "3:30 pm"), leaving everything else as it was.
pub fn format_english_numbers(text: &str) -> (r: String)
    ensures
        r@ == formatted(text@),
{
    let chars = crate::unicode::chars_of(text);
    let tokens = tokenize(&chars);
    let ghost ws = tok_words(tokens@);
    let mut out: Vec<Vec<char>> = Vec::new();
    let mut i: usize = 0;
    while i < tokens.len()
        invariant
            i <= tokens@.len(),
            ws == tok_words(tokens@),
            tokens_ok(tokens@),
            views(out@) + fmt_from(ws, i as int) == fmt_from(ws, 0),
        decreases tokens@.len() - i,
    {
        let ghost before = views(out@);
        assert(ws[i as int] == tokens@[i as int].original@);
        match parse_number_group(&tokens, i) {
            None => {
                out.push(copy_chars(&tokens[i].original));
                assert(views(out@) =~= before + seq![ws[i as int]]);
                i += 1;
            },
            Some(group) => {
                proof { lemma_parse_group_end(ws, i as int); }
                let ghost g = parse_group(ws, i as int)->0;
                let end = group.end;
                let next_word = abutting_core_lower(&tokens, end);
                let v = crate::unicode::decimal_digits(group.value);
                let ordinal = match &next_word {
                    Some(w) => group.trail.len() == 0 && is_ordinal_word(w),
                    None => false,
                };
                if ordinal {
                    let mut k = i;
                    while k < end
                        invariant
                            i <= k <= end <= tokens@.len(),
                            ws == tok_words(tokens@),
                            views(out@) == before + ws.subrange(i as int, k as int),
                        decreases end - k,
                    {
                        let ghost b2 = views(out@);
                        out.push(copy_chars(&tokens[k].original));
                        assert(views(out@) =~= b2 + seq![ws[k as int]]);
                        assert(ws.subrange(i as int, k + 1) =~= ws.subrange(i as int, k as int).push(ws[k as int]));
                        k += 1;
                    }
                    i = end;
                } else {
                    let is_point = match &next_word {
                        Some(w) => eq_lit(w, "point"),
                        None => false,
                    };
                    let decimal_part = if group.trail.len() == 0 && is_point {
                        parse_decimal_digits(&tokens, end)
                    } else {
                        None
                    };
                    let next_is_combinator = match &next_word {
                        Some(w) => is_combinator_word(w) && (!is_point || decimal_part.is_some()),
                        None => false,
                    };
                    if group.is_bare_one && !next_is_combinator {
                        out.push(copy_chars(&tokens[i].original));
                        assert(views(out@) =~= before + seq![ws[i as int]]);
                        i = end;
                    } else if group.trail.len() == 0 && decimal_part.is_some() {
                        let (frac, frac_trail, next_i) = decimal_part.unwrap();
                        proof { lemma_dec_loop(ws, end + 1, seq![], seq![]); }
                        let mut piece = copy_chars(&group.lead);
                        extend_chars(&mut piece, &v);
                        piece.push('.');
                        extend_chars(&mut piece, &frac);
                        extend_chars(&mut piece, &frac_trail);
                        assert(piece@ =~= g.lead + decimal(g.value as nat) + seq!['.'] + frac@ + frac_trail@);
                        out.push(piece);
                        assert(views(out@) =~= before + seq![g.lead + decimal(g.value as nat) + seq!['.'] + frac@ + frac_trail@]);
                        i = next_i;
                    } else {
                        let is_percent = match &next_word {
                            Some(w) => eq_lit(w, "percent"),
                            None => false,
                        };
                        let is_dollar = match &next_word {
                            Some(w) => is_dollar_word(w),
                            None => false,
                        };
                        if group.trail.len() == 0 && is_percent {
                            assert(token_ok(tokens@[end as int]));
                            let mut piece = copy_chars(&group.lead);
                            extend_chars(&mut piece, &v);
                            piece.push('%');
                            extend_chars(&mut piece, &tokens[end].trail);
                            assert(piece@ =~= g.lead + decimal(g.value as nat) + seq!['%'] + w_trail(ws[end as int]));
                            out.push(piece);
                            assert(views(out@) =~= before + seq![g.lead + decimal(g.value as nat) + seq!['%'] + w_trail(ws[end as int])]);
                            i = end + 1;
                        } else if group.trail.len() == 0 && is_dollar {
                            assert(token_ok(tokens@[end as int]));
                            let dollars_trail_empty = tokens[end].trail.len() == 0;
                            match parse_trailing_cents(&tokens, end + 1, dollars_trail_empty) {
                                Some((cents, cents_trail, next_i)) => {
                                    proof {
                                        let ns = if 0 <= end + 1 < ws.len() && w_lead(ws[end + 1]).len() == 0
                                            && w_trail(ws[end + 1]).len() == 0 && ascii_ci_eq(w_core(ws[end + 1]), "and"@) {
                                            end + 2
                                        } else {
                                            end + 1
                                        };
                                        lemma_parse_group_end(ws, ns);
                                    }
                                    let mut piece = copy_chars(&group.lead);
                                    piece.push('$');
                                    extend_chars(&mut piece, &v);
                                    piece.push('.');
                                    let cd = crate::unicode::two_digit_chars(cents);
                                    extend_chars(&mut piece, &cd);
                                    extend_chars(&mut piece, &cents_trail);
                                    assert(piece@ =~= g.lead + seq!['$'] + decimal(g.value as nat) + seq!['.'] + two_digits(cents as nat) + cents_trail@);
                                    out.push(piece);
                                    assert(views(out@) =~= before + seq![g.lead + seq!['$'] + decimal(g.value as nat) + seq!['.'] + two_digits(cents as nat) + cents_trail@]);
                                    i = next_i;
                                },
                                None => {
                                    let mut piece = copy_chars(&group.lead);
                                    piece.push('$');
                                    extend_chars(&mut piece, &v);
                                    extend_chars(&mut piece, &tokens[end].trail);
                                    assert(piece@ =~= g.lead + seq!['$'] + decimal(g.value as nat) + w_trail(ws[end as int]));
                                    out.push(piece);
                                    assert(views(out@) =~= before + seq![g.lead + seq!['$'] + decimal(g.value as nat) + w_trail(ws[end as int])]);
                                    i = end + 1;
                                },
                            }
                        } else {
                            let mut piece = copy_chars(&group.lead);
                            extend_chars(&mut piece, &v);
                            extend_chars(&mut piece, &group.trail);
                            assert(piece@ =~= g.lead + decimal(g.value as nat) + g.trail);
                            out.push(piece);
                            assert(views(out@) =~= before + seq![g.lead + decimal(g.value as nat) + g.trail]);
                            i = end;
                        }
                    }
                }
            },
        }
    }
    let joined = crate::unicode::join_words(&out);
    assert(fmt_from(ws, tokens@.len() as int) =~= seq![]);
    assert(views(out@) =~= fmt_from(ws, 0));
    let stitched = stitch_clock_times(&joined);
    crate::unicode::string_from(&stitched)
}

} // verus!

verus! {

// ---------------------------------------------------------------------------
// What the number words mean.
// ---------------------------------------------------------------------------

/// Whether `n` is a value that a single English number word names: zero to twenty, the
/// tens up to ninety, a hundred, and a thousand, million, billion and trillion.
pub open spec fn named_value(n: int) -> bool {
    (0 <= n <= 20) || (n % 10 == 0 && 30 <= n <= 90) || n == 100 || n == 1000 || n == 1000000
        || n == 1000000000 || n == 1000000000000
}

/// The English word that names the value `n`.
pub open spec fn english_name(n: int) -> Seq<char> {
    if n == 1000000000000 { "trillion"@ }
    else if n == 1000000000 { "billion"@ }
    else if n == 1000000 { "million"@ }
    else if n == 1000 { "thousand"@ }
    else if n == 100 { "hundred"@ }
    else if n == 90 { "ninety"@ }
    else if n == 80 { "eighty"@ }
    else if n == 70 { "seventy"@ }
    else if n == 60 { "sixty"@ }
    else if n == 50 { "fifty"@ }
    else if n == 40 { "forty"@ }
    else if n == 30 { "thirty"@ }
    else if n == 20 { "twenty"@ }
    else if n == 19 { "nineteen"@ }
    else if n == 18 { "eighteen"@ }
    else if n == 17 { "seventeen"@ }
    else if n == 16 { "sixteen"@ }
    else if n == 15 { "fifteen"@ }
    else if n == 14 { "fourteen"@ }
    else if n == 13 { "thirteen"@ }
    else if n == 12 { "twelve"@ }
    else if n == 11 { "eleven"@ }
    else if n == 10 { "ten"@ }
    else if n == 9 { "nine"@ }
    else if n == 8 { "eight"@ }
    else if n == 7 { "seven"@ }
    else if n == 6 { "six"@ }
    else if n == 5 { "five"@ }
    else if n == 4 { "four"@ }
    else if n == 3 { "three"@ }
    else if n == 2 { "two"@ }
    else if n == 1 { "one"@ }
    else if n == 0 { "zero"@ }
    else { seq![] }
}

proof fn lemma_split_without_sep(s: Seq<char>, sep: char, i: int)
    requires
        0 <= i <= s.len(),
        forall|j: int| 0 <= j < s.len() ==> s[j] != sep,
    ensures
        crate::unicode::split_on_from(s, sep, i, s.take(i)) == seq![s],
    decreases s.len() - i,
{
    if i < s.len() {
        assert(s.take(i).push(s[i]) =~= s.take(i + 1));
        lemma_split_without_sep(s, sep, i + 1);
    } else {
        assert(s.take(i) =~= s);
    }
}

/// A lowercase word with no hyphen splits into itself, and its value is that of its
/// single category.
proof fn lemma_single_word(core: Seq<char>, w: Seq<char>, c: Cat)
    requires
        core.len() > 0,
        str_lower(core) == w,
        w.len() > 0,
        forall|j: int| 0 <= j < w.len() ==> w[j] != '-',
        word_cat(w) == Some(c),
    ensures
        number_cats(core) == Some(seq![c]),
{
    lemma_split_without_sep(w, '-', 0);
    assert(w.take(0) =~= Seq::<char>::empty());
    let parts = split_on(w, '-');
    assert(parts == seq![w]);
    assert(part_cats(parts) =~= seq![c]);
}

/// The value of one category alone.
proof fn lemma_single_value(c: Cat)
    ensures
        cats_value(seq![c]) == match c {
            Cat::Unit(n) => n as int,
            Cat::Teen(n) => n as int,
            Cat::Ten(n) => n as int,
            Cat::Hundred => 100,
            Cat::Scale(s) => s as int,
        },
{
    reveal_with_fuel(fold_value, 3);
}

proof fn lemma_word_zero()
    ensures
        "zero"@.len() == 4,
        word_cat("zero"@) == Some(Cat::Unit(0)),
        forall|j: int| 0 <= j < "zero"@.len() ==> "zero"@[j] != '-',
{
    reveal_strlit("zero");
}

proof fn lemma_word_one()
    ensures
        "one"@.len() == 3,
        word_cat("one"@) == Some(Cat::Unit(1)),
        forall|j: int| 0 <= j < "one"@.len() ==> "one"@[j] != '-',
{
    reveal_strlit("one");
    reveal_strlit("zero");
    assert("one"@.len() != "zero"@.len());
}

proof fn lemma_word_two()
    ensures
        "two"@.len() == 3,
        word_cat("two"@) == Some(Cat::Unit(2)),
        forall|j: int| 0 <= j < "two"@.len() ==> "two"@[j] != '-',
{
    reveal_strlit("two");
    reveal_strlit("zero");
    assert("two"@.len() != "zero"@.len());
    reveal_strlit("one");
    assert("two"@[0] != "one"@[0]);
}

proof fn lemma_word_three()
    ensures
        "three"@.len() == 5,
        word_cat("three"@) == Some(Cat::Unit(3)),
        forall|j: int| 0 <= j < "three"@.len() ==> "three"@[j] != '-',
{
    reveal_strlit("three");
    reveal_strlit("zero");
    assert("three"@.len() != "zero"@.len());
    reveal_strlit("one");
    assert("three"@.len() != "one"@.len());
    reveal_strlit("two");
    assert("three"@.len() != "two"@.len());
}

proof fn lemma_word_four()
    ensures
        "four"@.len() == 4,
        word_cat("four"@) == Some(Cat::Unit(4)),
        forall|j: int| 0 <= j < "four"@.len() ==> "four"@[j] != '-',
{
    reveal_strlit("four");
    reveal_strlit("zero");
    assert("four"@[0] != "zero"@[0]);
    reveal_strlit("one");
    assert("four"@.len() != "one"@.len());
    reveal_strlit("two");
    assert("four"@.len() != "two"@.len());
    reveal_strlit("three");
    assert("four"@.len() != "three"@.len());
}

proof fn lemma_word_five()
    ensures
        "five"@.len() == 4,
        word_cat("five"@) == Some(Cat::Unit(5)),
        forall|j: int| 0 <= j < "five"@.len() ==> "five"@[j] != '-',
{
    reveal_strlit("five");
    reveal_strlit("zero");
    assert("five"@[0] != "zero"@[0]);
    reveal_strlit("one");
    assert("five"@.len() != "one"@.len());
    reveal_strlit("two");
    assert("five"@.len() != "two"@.len());
    reveal_strlit("three");
    assert("five"@.len() != "three"@.len());
    reveal_strlit("four");
    assert("five"@[1] != "four"@[1]);
}

proof fn lemma_word_six()
    ensures
        "six"@.len() == 3,
        word_cat("six"@) == Some(Cat::Unit(6)),
        forall|j: int| 0 <= j < "six"@.len() ==> "six"@[j] != '-',
{
    reveal_strlit("six");
    reveal_strlit("zero");
    assert("six"@.len() != "zero"@.len());
    reveal_strlit("one");
    assert("six"@[0] != "one"@[0]);
    reveal_strlit("two");
    assert("six"@[0] != "two"@[0]);
    reveal_strlit("three");
    assert("six"@.len() != "three"@.len());
    reveal_strlit("four");
    assert("six"@.len() != "four"@.len());
    reveal_strlit("five");
    assert("six"@.len() != "five"@.len());
}

proof fn lemma_word_seven()
    ensures
        "seven"@.len() == 5,
        word_cat("seven"@) == Some(Cat::Unit(7)),
        forall|j: int| 0 <= j < "seven"@.len() ==> "seven"@[j] != '-',
{
    reveal_strlit("seven");
    reveal_strlit("zero");
    assert("seven"@.len() != "zero"@.len());
    reveal_strlit("one");
    assert("seven"@.len() != "one"@.len());
    reveal_strlit("two");
    assert("seven"@.len() != "two"@.len());
    reveal_strlit("three");
    assert("seven"@[0] != "three"@[0]);
    reveal_strlit("four");
    assert("seven"@.len() != "four"@.len());
    reveal_strlit("five");
    assert("seven"@.len() != "five"@.len());
    reveal_strlit("six");
    assert("seven"@.len() != "six"@.len());
}

proof fn lemma_word_eight()
    ensures
        "eight"@.len() == 5,
        word_cat("eight"@) == Some(Cat::Unit(8)),
        forall|j: int| 0 <= j < "eight"@.len() ==> "eight"@[j] != '-',
{
    reveal_strlit("eight");
    reveal_strlit("zero");
    assert("eight"@.len() != "zero"@.len());
    reveal_strlit("one");
    assert("eight"@.len() != "one"@.len());
    reveal_strlit("two");
    assert("eight"@.len() != "two"@.len());
    reveal_strlit("three");
    assert("eight"@[0] != "three"@[0]);
    reveal_strlit("four");
    assert("eight"@.len() != "four"@.len());
    reveal_strlit("five");
    assert("eight"@.len() != "five"@.len());
    reveal_strlit("six");
    assert("eight"@.len() != "six"@.len());
    reveal_strlit("seven");
    assert("eight"@[0] != "seven"@[0]);
}

proof fn lemma_word_nine()
    ensures
        "nine"@.len() == 4,
        word_cat("nine"@) == Some(Cat::Unit(9)),
        forall|j: int| 0 <= j < "nine"@.len() ==> "nine"@[j] != '-',
{
    reveal_strlit("nine");
    reveal_strlit("zero");
    assert("nine"@[0] != "zero"@[0]);
    reveal_strlit("one");
    assert("nine"@.len() != "one"@.len());
    reveal_strlit("two");
    assert("nine"@.len() != "two"@.len());
    reveal_strlit("three");
    assert("nine"@.len() != "three"@.len());
    reveal_strlit("four");
    assert("nine"@[0] != "four"@[0]);
    reveal_strlit("five");
    assert("nine"@[0] != "five"@[0]);
    reveal_strlit("six");
    assert("nine"@.len() != "six"@.len());
    reveal_strlit("seven");
    assert("nine"@.len() != "seven"@.len());
    reveal_strlit("eight");
    assert("nine"@.len() != "eight"@.len());
}

proof fn lemma_word_ten()
    ensures
        "ten"@.len() == 3,
        word_cat("ten"@) == Some(Cat::Teen(10)),
        forall|j: int| 0 <= j < "ten"@.len() ==> "ten"@[j] != '-',
{
    reveal_strlit("ten");
    reveal_strlit("zero");
    assert("ten"@.len() != "zero"@.len());
    reveal_strlit("one");
    assert("ten"@[0] != "one"@[0]);
    reveal_strlit("two");
    assert("ten"@[1] != "two"@[1]);
    reveal_strlit("three");
    assert("ten"@.len() != "three"@.len());
    reveal_strlit("four");
    assert("ten"@.len() != "four"@.len());
    reveal_strlit("five");
    assert("ten"@.len() != "five"@.len());
    reveal_strlit("six");
    assert("ten"@[0] != "six"@[0]);
    reveal_strlit("seven");
    assert("ten"@.len() != "seven"@.len());
    reveal_strlit("eight");
    assert("ten"@.len() != "eight"@.len());
    reveal_strlit("nine");
    assert("ten"@.len() != "nine"@.len());
}

proof fn lemma_word_eleven()
    ensures
        "eleven"@.len() == 6,
        word_cat("eleven"@) == Some(Cat::Teen(11)),
        forall|j: int| 0 <= j < "eleven"@.len() ==> "eleven"@[j] != '-',
{
    reveal_strlit("eleven");
    reveal_strlit("zero");
    assert("eleven"@.len() != "zero"@.len());
    reveal_strlit("one");
    assert("eleven"@.len() != "one"@.len());
    reveal_strlit("two");
    assert("eleven"@.len() != "two"@.len());
    reveal_strlit("three");
    assert("eleven"@.len() != "three"@.len());
    reveal_strlit("four");
    assert("eleven"@.len() != "four"@.len());
    reveal_strlit("five");
    assert("eleven"@.len() != "five"@.len());
    reveal_strlit("six");
    assert("eleven"@.len() != "six"@.len());
    reveal_strlit("seven");
    assert("eleven"@.len() != "seven"@.len());
    reveal_strlit("eight");
    assert("eleven"@.len() != "eight"@.len());
    reveal_strlit("nine");
    assert("eleven"@.len() != "nine"@.len());
    reveal_strlit("ten");
    assert("eleven"@.len() != "ten"@.len());
}

proof fn lemma_word_twelve()
    ensures
        "twelve"@.len() == 6,
        word_cat("twelve"@) == Some(Cat::Teen(12)),
        forall|j: int| 0 <= j < "twelve"@.len() ==> "twelve"@[j] != '-',
{
    reveal_strlit("twelve");
    reveal_strlit("zero");
    assert("twelve"@.len() != "zero"@.len());
    reveal_strlit("one");
    assert("twelve"@.len() != "one"@.len());
    reveal_strlit("two");
    assert("twelve"@.len() != "two"@.len());
    reveal_strlit("three");
    assert("twelve"@.len() != "three"@.len());
    reveal_strlit("four");
    assert("twelve"@.len() != "four"@.len());
    reveal_strlit("five");
    assert("twelve"@.len() != "five"@.len());
    reveal_strlit("six");
    assert("twelve"@.len() != "six"@.len());
    reveal_strlit("seven");
    assert("twelve"@.len() != "seven"@.len());
    reveal_strlit("eight");
    assert("twelve"@.len() != "eight"@.len());
    reveal_strlit("nine");
    assert("twelve"@.len() != "nine"@.len());
    reveal_strlit("ten");
    assert("twelve"@.len() != "ten"@.len());
    reveal_strlit("eleven");
    assert("twelve"@[0] != "eleven"@[0]);
}

proof fn lemma_word_thirteen()
    ensures
        "thirteen"@.len() == 8,
        word_cat("thirteen"@) == Some(Cat::Teen(13)),
        forall|j: int| 0 <= j < "thirteen"@.len() ==> "thirteen"@[j] != '-',
{
    reveal_strlit("thirteen");
    reveal_strlit("zero");
    assert("thirteen"@.len() != "zero"@.len());
    reveal_strlit("one");
    assert("thirteen"@.len() != "one"@.len());
    reveal_strlit("two");
    assert("thirteen"@.len() != "two"@.len());
    reveal_strlit("three");
    assert("thirteen"@.len() != "three"@.len());
    reveal_strlit("four");
    assert("thirteen"@.len() != "four"@.len());
    reveal_strlit("five");
    assert("thirteen"@.len() != "five"@.len());
    reveal_strlit("six");
    assert("thirteen"@.len() != "six"@.len());
    reveal_strlit("seven");
    assert("thirteen"@.len() != "seven"@.len());
    reveal_strlit("eight");
    assert("thirteen"@.len() != "eight"@.len());
    reveal_strlit("nine");
    assert("thirteen"@.len() != "nine"@.len());
    reveal_strlit("ten");
    assert("thirteen"@.len() != "ten"@.len());
    reveal_strlit("eleven");
    assert("thirteen"@.len() != "eleven"@.len());
    reveal_strlit("twelve");
    assert("thirteen"@.len() != "twelve"@.len());
}

proof fn lemma_word_fourteen()
    ensures
        "fourteen"@.len() == 8,
        word_cat("fourteen"@) == Some(Cat::Teen(14)),
        forall|j: int| 0 <= j < "fourteen"@.len() ==> "fourteen"@[j] != '-',
{
    reveal_strlit("fourteen");
    reveal_strlit("zero");
    assert("fourteen"@.len() != "zero"@.len());
    reveal_strlit("one");
    assert("fourteen"@.len() != "one"@.len());
    reveal_strlit("two");
    assert("fourteen"@.len() != "two"@.len());
    reveal_strlit("three");
    assert("fourteen"@.len() != "three"@.len());
    reveal_strlit("four");
    assert("fourteen"@.len() != "four"@.len());
    reveal_strlit("five");
    assert("fourteen"@.len() != "five"@.len());
    reveal_strlit("six");
    assert("fourteen"@.len() != "six"@.len());
    reveal_strlit("seven");
    assert("fourteen"@.len() != "seven"@.len());
    reveal_strlit("eight");
    assert("fourteen"@.len() != "eight"@.len());
    reveal_strlit("nine");
    assert("fourteen"@.len() != "nine"@.len());
    reveal_strlit("ten");
    assert("fourteen"@.len() != "ten"@.len());
    reveal_strlit("eleven");
    assert("fourteen"@.len() != "eleven"@.len());
    reveal_strlit("twelve");
    assert("fourteen"@.len() != "twelve"@.len());
    reveal_strlit("thirteen");
    assert("fourteen"@[0] != "thirteen"@[0]);
}

proof fn lemma_word_fifteen()
    ensures
        "fifteen"@.len() == 7,
        word_cat("fifteen"@) == Some(Cat::Teen(15)),
        forall|j: int| 0 <= j < "fifteen"@.len() ==> "fifteen"@[j] != '-',
{
    reveal_strlit("fifteen");
    reveal_strlit("zero");
    assert("fifteen"@.len() != "zero"@.len());
    reveal_strlit("one");
    assert("fifteen"@.len() != "one"@.len());
    reveal_strlit("two");
    assert("fifteen"@.len() != "two"@.len());
    reveal_strlit("three");
    assert("fifteen"@.len() != "three"@.len());
    reveal_strlit("four");
    assert("fifteen"@.len() != "four"@.len());
    reveal_strlit("five");
    assert("fifteen"@.len() != "five"@.len());
    reveal_strlit("six");
    assert("fifteen"@.len() != "six"@.len());
    reveal_strlit("seven");
    assert("fifteen"@.len() != "seven"@.len());
    reveal_strlit("eight");
    assert("fifteen"@.len() != "eight"@.len());
    reveal_strlit("nine");
    assert("fifteen"@.len() != "nine"@.len());
    reveal_strlit("ten");
    assert("fifteen"@.len() != "ten"@.len());
    reveal_strlit("eleven");
    assert("fifteen"@.len() != "eleven"@.len());
    reveal_strlit("twelve");
    assert("fifteen"@.len() != "twelve"@.len());
    reveal_strlit("thirteen");
    assert("fifteen"@.len() != "thirteen"@.len());
    reveal_strlit("fourteen");
    assert("fifteen"@.len() != "fourteen"@.len());
}

proof fn lemma_word_sixteen()
    ensures
        "sixteen"@.len() == 7,
        word_cat("sixteen"@) == Some(Cat::Teen(16)),
        forall|j: int| 0 <= j < "sixteen"@.len() ==> "sixteen"@[j] != '-',
{
    reveal_strlit("sixteen");
    reveal_strlit("zero");
    assert("sixteen"@.len() != "zero"@.len());
    reveal_strlit("one");
    assert("sixteen"@.len() != "one"@.len());
    reveal_strlit("two");
    assert("sixteen"@.len() != "two"@.len());
    reveal_strlit("three");
    assert("sixteen"@.len() != "three"@.len());
    reveal_strlit("four");
    assert("sixteen"@.len() != "four"@.len());
    reveal_strlit("five");
    assert("sixteen"@.len() != "five"@.len());
    reveal_strlit("six");
    assert("sixteen"@.len() != "six"@.len());
    reveal_strlit("seven");
    assert("sixteen"@.len() != "seven"@.len());
    reveal_strlit("eight");
    assert("sixteen"@.len() != "eight"@.len());
    reveal_strlit("nine");
    assert("sixteen"@.len() != "nine"@.len());
    reveal_strlit("ten");
    assert("sixteen"@.len() != "ten"@.len());
    reveal_strlit("eleven");
    assert("sixteen"@.len() != "eleven"@.len());
    reveal_strlit("twelve");
    assert("sixteen"@.len() != "twelve"@.len());
    reveal_strlit("thirteen");
    assert("sixteen"@.len() != "thirteen"@.len());
    reveal_strlit("fourteen");
    assert("sixteen"@.len() != "fourteen"@.len());
    reveal_strlit("fifteen");
    assert("sixteen"@[0] != "fifteen"@[0]);
}

proof fn lemma_word_seventeen()
    ensures
        "seventeen"@.len() == 9,
        word_cat("seventeen"@) == Some(Cat::Teen(17)),
        forall|j: int| 0 <= j < "seventeen"@.len() ==> "seventeen"@[j] != '-',
{
    reveal_strlit("seventeen");
    reveal_strlit("zero");
    assert("seventeen"@.len() != "zero"@.len());
    reveal_strlit("one");
    assert("seventeen"@.len() != "one"@.len());
    reveal_strlit("two");
    assert("seventeen"@.len() != "two"@.len());
    reveal_strlit("three");
    assert("seventeen"@.len() != "three"@.len());
    reveal_strlit("four");
    assert("seventeen"@.len() != "four"@.len());
    reveal_strlit("five");
    assert("seventeen"@.len() != "five"@.len());
    reveal_strlit("six");
    assert("seventeen"@.len() != "six"@.len());
    reveal_strlit("seven");
    assert("seventeen"@.len() != "seven"@.len());
    reveal_strlit("eight");
    assert("seventeen"@.len() != "eight"@.len());
    reveal_strlit("nine");
    assert("seventeen"@.len() != "nine"@.len());
    reveal_strlit("ten");
    assert("seventeen"@.len() != "ten"@.len());
    reveal_strlit("eleven");
    assert("seventeen"@.len() != "eleven"@.len());
    reveal_strlit("twelve");
    assert("seventeen"@.len() != "twelve"@.len());
    reveal_strlit("thirteen");
    assert("seventeen"@.len() != "thirteen"@.len());
    reveal_strlit("fourteen");
    assert("seventeen"@.len() != "fourteen"@.len());
    reveal_strlit("fifteen");
    assert("seventeen"@.len() != "fifteen"@.len());
    reveal_strlit("sixteen");
    assert("seventeen"@.len() != "sixteen"@.len());
}

proof fn lemma_word_eighteen()
    ensures
        "eighteen"@.len() == 8,
        word_cat("eighteen"@) == Some(Cat::Teen(18)),
        forall|j: int| 0 <= j < "eighteen"@.len() ==> "eighteen"@[j] != '-',
{
    reveal_strlit("eighteen");
    reveal_strlit("zero");
    assert("eighteen"@.len() != "zero"@.len());
    reveal_strlit("one");
    assert("eighteen"@.len() != "one"@.len());
    reveal_strlit("two");
    assert("eighteen"@.len() != "two"@.len());
    reveal_strlit("three");
    assert("eighteen"@.len() != "three"@.len());
    reveal_strlit("four");
    assert("eighteen"@.len() != "four"@.len());
    reveal_strlit("five");
    assert("eighteen"@.len() != "five"@.len());
    reveal_strlit("six");
    assert("eighteen"@.len() != "six"@.len());
    reveal_strlit("seven");
    assert("eighteen"@.len() != "seven"@.len());
    reveal_strlit("eight");
    assert("eighteen"@.len() != "eight"@.len());
    reveal_strlit("nine");
    assert("eighteen"@.len() != "nine"@.len());
    reveal_strlit("ten");
    assert("eighteen"@.len() != "ten"@.len());
    reveal_strlit("eleven");
    assert("eighteen"@.len() != "eleven"@.len());
    reveal_strlit("twelve");
    assert("eighteen"@.len() != "twelve"@.len());
    reveal_strlit("thirteen");
    assert("eighteen"@[0] != "thirteen"@[0]);
    reveal_strlit("fourteen");
    assert("eighteen"@[0] != "fourteen"@[0]);
    reveal_strlit("fifteen");
    assert("eighteen"@.len() != "fifteen"@.len());
    reveal_strlit("sixteen");
    assert("eighteen"@.len() != "sixteen"@.len());
    reveal_strlit("seventeen");
    assert("eighteen"@.len() != "seventeen"@.len());
}

proof fn lemma_word_nineteen()
    ensures
        "nineteen"@.len() == 8,
        word_cat("nineteen"@) == Some(Cat::Teen(19)),
        forall|j: int| 0 <= j < "nineteen"@.len() ==> "nineteen"@[j] != '-',
{
    reveal_strlit("nineteen");
    reveal_strlit("zero");
    assert("nineteen"@.len() != "zero"@.len());
    reveal_strlit("one");
    assert("nineteen"@.len() != "one"@.len());
    reveal_strlit("two");
    assert("nineteen"@.len() != "two"@.len());
    reveal_strlit("three");
    assert("nineteen"@.len() != "three"@.len());
    reveal_strlit("four");
    assert("nineteen"@.len() != "four"@.len());
    reveal_strlit("five");
    assert("nineteen"@.len() != "five"@.len());
    reveal_strlit("six");
    assert("nineteen"@.len() != "six"@.len());
    reveal_strlit("seven");
    assert("nineteen"@.len() != "seven"@.len());
    reveal_strlit("eight");
    assert("nineteen"@.len() != "eight"@.len());
    reveal_strlit("nine");
    assert("nineteen"@.len() != "nine"@.len());
    reveal_strlit("ten");
    assert("nineteen"@.len() != "ten"@.len());
    reveal_strlit("eleven");
    assert("nineteen"@.len() != "eleven"@.len());
    reveal_strlit("twelve");
    assert("nineteen"@.len() != "twelve"@.len());
    reveal_strlit("thirteen");
    assert("nineteen"@[0] != "thirteen"@[0]);
    reveal_strlit("fourteen");
    assert("nineteen"@[0] != "fourteen"@[0]);
    reveal_strlit("fifteen");
    assert("nineteen"@.len() != "fifteen"@.len());
    reveal_strlit("sixteen");
    assert("nineteen"@.len() != "sixteen"@.len());
    reveal_strlit("seventeen");
    assert("nineteen"@.len() != "seventeen"@.len());
    reveal_strlit("eighteen");
    assert("nineteen"@[0] != "eighteen"@[0]);
}

proof fn lemma_word_twenty()
    ensures
        "twenty"@.len() == 6,
        word_cat("twenty"@) == Some(Cat::Ten(20)),
        forall|j: int| 0 <= j < "twenty"@.len() ==> "twenty"@[j] != '-',
{
    reveal_strlit("twenty");
    reveal_strlit("zero");
    assert("twenty"@.len() != "zero"@.len());
    reveal_strlit("one");
    assert("twenty"@.len() != "one"@.len());
    reveal_strlit("two");
    assert("twenty"@.len() != "two"@.len());
    reveal_strlit("three");
    assert("twenty"@.len() != "three"@.len());
    reveal_strlit("four");
    assert("twenty"@.len() != "four"@.len());
    reveal_strlit("five");
    assert("twenty"@.len() != "five"@.len());
    reveal_strlit("six");
    assert("twenty"@.len() != "six"@.len());
    reveal_strlit("seven");
    assert("twenty"@.len() != "seven"@.len());
    reveal_strlit("eight");
    assert("twenty"@.len() != "eight"@.len());
    reveal_strlit("nine");
    assert("twenty"@.len() != "nine"@.len());
    reveal_strlit("ten");
    assert("twenty"@.len() != "ten"@.len());
    reveal_strlit("eleven");
    assert("twenty"@[0] != "eleven"@[0]);
    reveal_strlit("twelve");
    assert("twenty"@[3] != "twelve"@[3]);
    reveal_strlit("thirteen");
    assert("twenty"@.len() != "thirteen"@.len());
    reveal_strlit("fourteen");
    assert("twenty"@.len() != "fourteen"@.len());
    reveal_strlit("fifteen");
    assert("twenty"@.len() != "fifteen"@.len());
    reveal_strlit("sixteen");
    assert("twenty"@.len() != "sixteen"@.len());
    reveal_strlit("seventeen");
    assert("twenty"@.len() != "seventeen"@.len());
    reveal_strlit("eighteen");
    assert("twenty"@.len() != "eighteen"@.len());
    reveal_strlit("nineteen");
    assert("twenty"@.len() != "nineteen"@.len());
}

proof fn lemma_word_thirty()
    ensures
        "thirty"@.len() == 6,
        word_cat("thirty"@) == Some(Cat::Ten(30)),
        forall|j: int| 0 <= j < "thirty"@.len() ==> "thirty"@[j] != '-',
{
    reveal_strlit("thirty");
    reveal_strlit("zero");
    assert("thirty"@.len() != "zero"@.len());
    reveal_strlit("one");
    assert("thirty"@.len() != "one"@.len());
    reveal_strlit("two");
    assert("thirty"@.len() != "two"@.len());
    reveal_strlit("three");
    assert("thirty"@.len() != "three"@.len());
    reveal_strlit("four");
    assert("thirty"@.len() != "four"@.len());
    reveal_strlit("five");
    assert("thirty"@.len() != "five"@.len());
    reveal_strlit("six");
    assert("thirty"@.len() != "six"@.len());
    reveal_strlit("seven");
    assert("thirty"@.len() != "seven"@.len());
    reveal_strlit("eight");
    assert("thirty"@.len() != "eight"@.len());
    reveal_strlit("nine");
    assert("thirty"@.len() != "nine"@.len());
    reveal_strlit("ten");
    assert("thirty"@.len() != "ten"@.len());
    reveal_strlit("eleven");
    assert("thirty"@[0] != "eleven"@[0]);
    reveal_strlit("twelve");
    assert("thirty"@[1] != "twelve"@[1]);
    reveal_strlit("thirteen");
    assert("thirty"@.len() != "thirteen"@.len());
    reveal_strlit("fourteen");
    assert("thirty"@.len() != "fourteen"@.len());
    reveal_strlit("fifteen");
    assert("thirty"@.len() != "fifteen"@.len());
    reveal_strlit("sixteen");
    assert("thirty"@.len() != "sixteen"@.len());
    reveal_strlit("seventeen");
    assert("thirty"@.len() != "seventeen"@.len());
    reveal_strlit("eighteen");
    assert("thirty"@.len() != "eighteen"@.len());
    reveal_strlit("nineteen");
    assert("thirty"@.len() != "nineteen"@.len());
    reveal_strlit("twenty");
    assert("thirty"@[1] != "twenty"@[1]);
}

proof fn lemma_word_forty()
    ensures
        "forty"@.len() == 5,
        word_cat("forty"@) == Some(Cat::Ten(40)),
        forall|j: int| 0 <= j < "forty"@.len() ==> "forty"@[j] != '-',
{
    reveal_strlit("forty");
    reveal_strlit("zero");
    assert("forty"@.len() != "zero"@.len());
    reveal_strlit("one");
    assert("forty"@.len() != "one"@.len());
    reveal_strlit("two");
    assert("forty"@.len() != "two"@.len());
    reveal_strlit("three");
    assert("forty"@[0] != "three"@[0]);
    reveal_strlit("four");
    assert("forty"@.len() != "four"@.len());
    reveal_strlit("five");
    assert("forty"@.len() != "five"@.len());
    reveal_strlit("six");
    assert("forty"@.len() != "six"@.len());
    reveal_strlit("seven");
    assert("forty"@[0] != "seven"@[0]);
    reveal_strlit("eight");
    assert("forty"@[0] != "eight"@[0]);
    reveal_strlit("nine");
    assert("forty"@.len() != "nine"@.len());
    reveal_strlit("ten");
    assert("forty"@.len() != "ten"@.len());
    reveal_strlit("eleven");
    assert("forty"@.len() != "eleven"@.len());
    reveal_strlit("twelve");
    assert("forty"@.len() != "twelve"@.len());
    reveal_strlit("thirteen");
    assert("forty"@.len() != "thirteen"@.len());
    reveal_strlit("fourteen");
    assert("forty"@.len() != "fourteen"@.len());
    reveal_strlit("fifteen");
    assert("forty"@.len() != "fifteen"@.len());
    reveal_strlit("sixteen");
    assert("forty"@.len() != "sixteen"@.len());
    reveal_strlit("seventeen");
    assert("forty"@.len() != "seventeen"@.len());
    reveal_strlit("eighteen");
    assert("forty"@.len() != "eighteen"@.len());
    reveal_strlit("nineteen");
    assert("forty"@.len() != "nineteen"@.len());
    reveal_strlit("twenty");
    assert("forty"@.len() != "twenty"@.len());
    reveal_strlit("thirty");
    assert("forty"@.len() != "thirty"@.len());
}

proof fn lemma_word_fifty()
    ensures
        "fifty"@.len() == 5,
        word_cat("fifty"@) == Some(Cat::Ten(50)),
        forall|j: int| 0 <= j < "fifty"@.len() ==> "fifty"@[j] != '-',
{
    reveal_strlit("fifty");
    reveal_strlit("zero");
    assert("fifty"@.len() != "zero"@.len());
    reveal_strlit("one");
    assert("fifty"@.len() != "one"@.len());
    reveal_strlit("two");
    assert("fifty"@.len() != "two"@.len());
    reveal_strlit("three");
    assert("fifty"@[0] != "three"@[0]);
    reveal_strlit("four");
    assert("fifty"@.len() != "four"@.len());
    reveal_strlit("five");
    assert("fifty"@.len() != "five"@.len());
    reveal_strlit("six");
    assert("fifty"@.len() != "six"@.len());
    reveal_strlit("seven");
    assert("fifty"@[0] != "seven"@[0]);
    reveal_strlit("eight");
    assert("fifty"@[0] != "eight"@[0]);
    reveal_strlit("nine");
    assert("fifty"@.len() != "nine"@.len());
    reveal_strlit("ten");
    assert("fifty"@.len() != "ten"@.len());
    reveal_strlit("eleven");
    assert("fifty"@.len() != "eleven"@.len());
    reveal_strlit("twelve");
    assert("fifty"@.len() != "twelve"@.len());
    reveal_strlit("thirteen");
    assert("fifty"@.len() != "thirteen"@.len());
    reveal_strlit("fourteen");
    assert("fifty"@.len() != "fourteen"@.len());
    reveal_strlit("fifteen");
    assert("fifty"@.len() != "fifteen"@.len());
    reveal_strlit("sixteen");
    assert("fifty"@.len() != "sixteen"@.len());
    reveal_strlit("seventeen");
    assert("fifty"@.len() != "seventeen"@.len());
    reveal_strlit("eighteen");
    assert("fifty"@.len() != "eighteen"@.len());
    reveal_strlit("nineteen");
    assert("fifty"@.len() != "nineteen"@.len());
    reveal_strlit("twenty");
    assert("fifty"@.len() != "twenty"@.len());
    reveal_strlit("thirty");
    assert("fifty"@.len() != "thirty"@.len());
    reveal_strlit("forty");
    assert("fifty"@[1] != "forty"@[1]);
}

proof fn lemma_word_sixty()
    ensures
        "sixty"@.len() == 5,
        word_cat("sixty"@) == Some(Cat::Ten(60)),
        forall|j: int| 0 <= j < "sixty"@.len() ==> "sixty"@[j] != '-',
{
    reveal_strlit("sixty");
    reveal_strlit("zero");
    assert("sixty"@.len() != "zero"@.len());
    reveal_strlit("one");
    assert("sixty"@.len() != "one"@.len());
    reveal_strlit("two");
    assert("sixty"@.len() != "two"@.len());
    reveal_strlit("three");
    assert("sixty"@[0] != "three"@[0]);
    reveal_strlit("four");
    assert("sixty"@.len() != "four"@.len());
    reveal_strlit("five");
    assert("sixty"@.len() != "five"@.len());
    reveal_strlit("six");
    assert("sixty"@.len() != "six"@.len());
    reveal_strlit("seven");
    assert("sixty"@[1] != "seven"@[1]);
    reveal_strlit("eight");
    assert("sixty"@[0] != "eight"@[0]);
    reveal_strlit("nine");
    assert("sixty"@.len() != "nine"@.len());
    reveal_strlit("ten");
    assert("sixty"@.len() != "ten"@.len());
    reveal_strlit("eleven");
    assert("sixty"@.len() != "eleven"@.len());
    reveal_strlit("twelve");
    assert("sixty"@.len() != "twelve"@.len());
    reveal_strlit("thirteen");
    assert("sixty"@.len() != "thirteen"@.len());
    reveal_strlit("fourteen");
    assert("sixty"@.len() != "fourteen"@.len());
    reveal_strlit("fifteen");
    assert("sixty"@.len() != "fifteen"@.len());
    reveal_strlit("sixteen");
    assert("sixty"@.len() != "sixteen"@.len());
    reveal_strlit("seventeen");
    assert("sixty"@.len() != "seventeen"@.len());
    reveal_strlit("eighteen");
    assert("sixty"@.len() != "eighteen"@.len());
    reveal_strlit("nineteen");
    assert("sixty"@.len() != "nineteen"@.len());
    reveal_strlit("twenty");
    assert("sixty"@.len() != "twenty"@.len());
    reveal_strlit("thirty");
    assert("sixty"@.len() != "thirty"@.len());
    reveal_strlit("forty");
    assert("sixty"@[0] != "forty"@[0]);
    reveal_strlit("fifty");
    assert("sixty"@[0] != "fifty"@[0]);
}

proof fn lemma_word_seventy()
    ensures
        "seventy"@.len() == 7,
        word_cat("seventy"@) == Some(Cat::Ten(70)),
        forall|j: int| 0 <= j < "seventy"@.len() ==> "seventy"@[j] != '-',
{
    reveal_strlit("seventy");
    reveal_strlit("zero");
    assert("seventy"@.len() != "zero"@.len());
    reveal_strlit("one");
    assert("seventy"@.len() != "one"@.len());
    reveal_strlit("two");
    assert("seventy"@.len() != "two"@.len());
    reveal_strlit("three");
    assert("seventy"@.len() != "three"@.len());
    reveal_strlit("four");
    assert("seventy"@.len() != "four"@.len());
    reveal_strlit("five");
    assert("seventy"@.len() != "five"@.len());
    reveal_strlit("six");
    assert("seventy"@.len() != "six"@.len());
    reveal_strlit("seven");
    assert("seventy"@.len() != "seven"@.len());
    reveal_strlit("eight");
    assert("seventy"@.len() != "eight"@.len());
    reveal_strlit("nine");
    assert("seventy"@.len() != "nine"@.len());
    reveal_strlit("ten");
    assert("seventy"@.len() != "ten"@.len());
    reveal_strlit("eleven");
    assert("seventy"@.len() != "eleven"@.len());
    reveal_strlit("twelve");
    assert("seventy"@.len() != "twelve"@.len());
    reveal_strlit("thirteen");
    assert("seventy"@.len() != "thirteen"@.len());
    reveal_strlit("fourteen");
    assert("seventy"@.len() != "fourteen"@.len());
    reveal_strlit("fifteen");
    assert("seventy"@[0] != "fifteen"@[0]);
    reveal_strlit("sixteen");
    assert("seventy"@[1] != "sixteen"@[1]);
    reveal_strlit("seventeen");
    assert("seventy"@.len() != "seventeen"@.len());
    reveal_strlit("eighteen");
    assert("seventy"@.len() != "eighteen"@.len());
    reveal_strlit("nineteen");
    assert("seventy"@.len() != "nineteen"@.len());
    reveal_strlit("twenty");
    assert("seventy"@.len() != "twenty"@.len());
    reveal_strlit("thirty");
    assert("seventy"@.len() != "thirty"@.len());
    reveal_strlit("forty");
    assert("seventy"@.len() != "forty"@.len());
    reveal_strlit("fifty");
    assert("seventy"@.len() != "fifty"@.len());
    reveal_strlit("sixty");
    assert("seventy"@.len() != "sixty"@.len());
}

proof fn lemma_word_eighty()
    ensures
        "eighty"@.len() == 6,
        word_cat("eighty"@) == Some(Cat::Ten(80)),
        forall|j: int| 0 <= j < "eighty"@.len() ==> "eighty"@[j] != '-',
{
    reveal_strlit("eighty");
    reveal_strlit("zero");
    assert("eighty"@.len() != "zero"@.len());
    reveal_strlit("one");
    assert("eighty"@.len() != "one"@.len());
    reveal_strlit("two");
    assert("eighty"@.len() != "two"@.len());
    reveal_strlit("three");
    assert("eighty"@.len() != "three"@.len());
    reveal_strlit("four");
    assert("eighty"@.len() != "four"@.len());
    reveal_strlit("five");
    assert("eighty"@.len() != "five"@.len());
    reveal_strlit("six");
    assert("eighty"@.len() != "six"@.len());
    reveal_strlit("seven");
    assert("eighty"@.len() != "seven"@.len());
    reveal_strlit("eight");
    assert("eighty"@.len() != "eight"@.len());
    reveal_strlit("nine");
    assert("eighty"@.len() != "nine"@.len());
    reveal_strlit("ten");
    assert("eighty"@.len() != "ten"@.len());
    reveal_strlit("eleven");
    assert("eighty"@[1] != "eleven"@[1]);
    reveal_strlit("twelve");
    assert("eighty"@[0] != "twelve"@[0]);
    reveal_strlit("thirteen");
    assert("eighty"@.len() != "thirteen"@.len());
    reveal_strlit("fourteen");
    assert("eighty"@.len() != "fourteen"@.len());
    reveal_strlit("fifteen");
    assert("eighty"@.len() != "fifteen"@.len());
    reveal_strlit("sixteen");
    assert("eighty"@.len() != "sixteen"@.len());
    reveal_strlit("seventeen");
    assert("eighty"@.len() != "seventeen"@.len());
    reveal_strlit("eighteen");
    assert("eighty"@.len() != "eighteen"@.len());
    reveal_strlit("nineteen");
    assert("eighty"@.len() != "nineteen"@.len());
    reveal_strlit("twenty");
    assert("eighty"@[0] != "twenty"@[0]);
    reveal_strlit("thirty");
    assert("eighty"@[0] != "thirty"@[0]);
    reveal_strlit("forty");
    assert("eighty"@.len() != "forty"@.len());
    reveal_strlit("fifty");
    assert("eighty"@.len() != "fifty"@.len());
    reveal_strlit("sixty");
    assert("eighty"@.len() != "sixty"@.len());
    reveal_strlit("seventy");
    assert("eighty"@.len() != "seventy"@.len());
}

proof fn lemma_word_ninety()
    ensures
        "ninety"@.len() == 6,
        word_cat("ninety"@) == Some(Cat::Ten(90)),
        forall|j: int| 0 <= j < "ninety"@.len() ==> "ninety"@[j] != '-',
{
    reveal_strlit("ninety");
    reveal_strlit("zero");
    assert("ninety"@.len() != "zero"@.len());
    reveal_strlit("one");
    assert("ninety"@.len() != "one"@.len());
    reveal_strlit("two");
    assert("ninety"@.len() != "two"@.len());
    reveal_strlit("three");
    assert("ninety"@.len() != "three"@.len());
    reveal_strlit("four");
    assert("ninety"@.len() != "four"@.len());
    reveal_strlit("five");
    assert("ninety"@.len() != "five"@.len());
    reveal_strlit("six");
    assert("ninety"@.len() != "six"@.len());
    reveal_strlit("seven");
    assert("ninety"@.len() != "seven"@.len());
    reveal_strlit("eight");
    assert("ninety"@.len() != "eight"@.len());
    reveal_strlit("nine");
    assert("ninety"@.len() != "nine"@.len());
    reveal_strlit("ten");
    assert("ninety"@.len() != "ten"@.len());
    reveal_strlit("eleven");
    assert("ninety"@[0] != "eleven"@[0]);
    reveal_strlit("twelve");
    assert("ninety"@[0] != "twelve"@[0]);
    reveal_strlit("thirteen");
    assert("ninety"@.len() != "thirteen"@.len());
    reveal_strlit("fourteen");
    assert("ninety"@.len() != "fourteen"@.len());
    reveal_strlit("fifteen");
    assert("ninety"@.len() != "fifteen"@.len());
    reveal_strlit("sixteen");
    assert("ninety"@.len() != "sixteen"@.len());
    reveal_strlit("seventeen");
    assert("ninety"@.len() != "seventeen"@.len());
    reveal_strlit("eighteen");
    assert("ninety"@.len() != "eighteen"@.len());
    reveal_strlit("nineteen");
    assert("ninety"@.len() != "nineteen"@.len());
    reveal_strlit("twenty");
    assert("ninety"@[0] != "twenty"@[0]);
    reveal_strlit("thirty");
    assert("ninety"@[0] != "thirty"@[0]);
    reveal_strlit("forty");
    assert("ninety"@.len() != "forty"@.len());
    reveal_strlit("fifty");
    assert("ninety"@.len() != "fifty"@.len());
    reveal_strlit("sixty");
    assert("ninety"@.len() != "sixty"@.len());
    reveal_strlit("seventy");
    assert("ninety"@.len() != "seventy"@.len());
    reveal_strlit("eighty");
    assert("ninety"@[0] != "eighty"@[0]);
}

proof fn lemma_word_hundred()
    ensures
        "hundred"@.len() == 7,
        word_cat("hundred"@) == Some(Cat::Hundred),
        forall|j: int| 0 <= j < "hundred"@.len() ==> "hundred"@[j] != '-',
{
    reveal_strlit("hundred");
    reveal_strlit("zero");
    assert("hundred"@.len() != "zero"@.len());
    reveal_strlit("one");
    assert("hundred"@.len() != "one"@.len());
    reveal_strlit("two");
    assert("hundred"@.len() != "two"@.len());
    reveal_strlit("three");
    assert("hundred"@.len() != "three"@.len());
    reveal_strlit("four");
    assert("hundred"@.len() != "four"@.len());
    reveal_strlit("five");
    assert("hundred"@.len() != "five"@.len());
    reveal_strlit("six");
    assert("hundred"@.len() != "six"@.len());
    reveal_strlit("seven");
    assert("hundred"@.len() != "seven"@.len());
    reveal_strlit("eight");
    assert("hundred"@.len() != "eight"@.len());
    reveal_strlit("nine");
    assert("hundred"@.len() != "nine"@.len());
    reveal_strlit("ten");
    assert("hundred"@.len() != "ten"@.len());
    reveal_strlit("eleven");
    assert("hundred"@.len() != "eleven"@.len());
    reveal_strlit("twelve");
    assert("hundred"@.len() != "twelve"@.len());
    reveal_strlit("thirteen");
    assert("hundred"@.len() != "thirteen"@.len());
    reveal_strlit("fourteen");
    assert("hundred"@.len() != "fourteen"@.len());
    reveal_strlit("fifteen");
    assert("hundred"@[0] != "fifteen"@[0]);
    reveal_strlit("sixteen");
    assert("hundred"@[0] != "sixteen"@[0]);
    reveal_strlit("seventeen");
    assert("hundred"@.len() != "seventeen"@.len());
    reveal_strlit("eighteen");
    assert("hundred"@.len() != "eighteen"@.len());
    reveal_strlit("nineteen");
    assert("hundred"@.len() != "nineteen"@.len());
    reveal_strlit("twenty");
    assert("hundred"@.len() != "twenty"@.len());
    reveal_strlit("thirty");
    assert("hundred"@.len() != "thirty"@.len());
    reveal_strlit("forty");
    assert("hundred"@.len() != "forty"@.len());
    reveal_strlit("fifty");
    assert("hundred"@.len() != "fifty"@.len());
    reveal_strlit("sixty");
    assert("hundred"@.len() != "sixty"@.len());
    reveal_strlit("seventy");
    assert("hundred"@[0] != "seventy"@[0]);
    reveal_strlit("eighty");
    assert("hundred"@.len() != "eighty"@.len());
    reveal_strlit("ninety");
    assert("hundred"@.len() != "ninety"@.len());
}

proof fn lemma_word_thousand()
    ensures
        "thousand"@.len() == 8,
        word_cat("thousand"@) == Some(Cat::Scale(1_000)),
        forall|j: int| 0 <= j < "thousand"@.len() ==> "thousand"@[j] != '-',
{
    reveal_strlit("thousand");
    reveal_strlit("zero");
    assert("thousand"@.len() != "zero"@.len());
    reveal_strlit("one");
    assert("thousand"@.len() != "one"@.len());
    reveal_strlit("two");
    assert("thousand"@.len() != "two"@.len());
    reveal_strlit("three");
    assert("thousand"@.len() != "three"@.len());
    reveal_strlit("four");
    assert("thousand"@.len() != "four"@.len());
    reveal_strlit("five");
    assert("thousand"@.len() != "five"@.len());
    reveal_strlit("six");
    assert("thousand"@.len() != "six"@.len());
    reveal_strlit("seven");
    assert("thousand"@.len() != "seven"@.len());
    reveal_strlit("eight");
    assert("thousand"@.len() != "eight"@.len());
    reveal_strlit("nine");
    assert("thousand"@.len() != "nine"@.len());
    reveal_strlit("ten");
    assert("thousand"@.len() != "ten"@.len());
    reveal_strlit("eleven");
    assert("thousand"@.len() != "eleven"@.len());
    reveal_strlit("twelve");
    assert("thousand"@.len() != "twelve"@.len());
    reveal_strlit("thirteen");
    assert("thousand"@[2] != "thirteen"@[2]);
    reveal_strlit("fourteen");
    assert("thousand"@[0] != "fourteen"@[0]);
    reveal_strlit("fifteen");
    assert("thousand"@.len() != "fifteen"@.len());
    reveal_strlit("sixteen");
    assert("thousand"@.len() != "sixteen"@.len());
    reveal_strlit("seventeen");
    assert("thousand"@.len() != "seventeen"@.len());
    reveal_strlit("eighteen");
    assert("thousand"@[0] != "eighteen"@[0]);
    reveal_strlit("nineteen");
    assert("thousand"@[0] != "nineteen"@[0]);
    reveal_strlit("twenty");
    assert("thousand"@.len() != "twenty"@.len());
    reveal_strlit("thirty");
    assert("thousand"@.len() != "thirty"@.len());
    reveal_strlit("forty");
    assert("thousand"@.len() != "forty"@.len());
    reveal_strlit("fifty");
    assert("thousand"@.len() != "fifty"@.len());
    reveal_strlit("sixty");
    assert("thousand"@.len() != "sixty"@.len());
    reveal_strlit("seventy");
    assert("thousand"@.len() != "seventy"@.len());
    reveal_strlit("eighty");
    assert("thousand"@.len() != "eighty"@.len());
    reveal_strlit("ninety");
    assert("thousand"@.len() != "ninety"@.len());
    reveal_strlit("hundred");
    assert("thousand"@.len() != "hundred"@.len());
}

proof fn lemma_word_million()
    ensures
        "million"@.len() == 7,
        word_cat("million"@) == Some(Cat::Scale(1_000_000)),
        forall|j: int| 0 <= j < "million"@.len() ==> "million"@[j] != '-',
{
    reveal_strlit("million");
    reveal_strlit("zero");
    assert("million"@.len() != "zero"@.len());
    reveal_strlit("one");
    assert("million"@.len() != "one"@.len());
    reveal_strlit("two");
    assert("million"@.len() != "two"@.len());
    reveal_strlit("three");
    assert("million"@.len() != "three"@.len());
    reveal_strlit("four");
    assert("million"@.len() != "four"@.len());
    reveal_strlit("five");
    assert("million"@.len() != "five"@.len());
    reveal_strlit("six");
    assert("million"@.len() != "six"@.len());
    reveal_strlit("seven");
    assert("million"@.len() != "seven"@.len());
    reveal_strlit("eight");
    assert("million"@.len() != "eight"@.len());
    reveal_strlit("nine");
    assert("million"@.len() != "nine"@.len());
    reveal_strlit("ten");
    assert("million"@.len() != "ten"@.len());
    reveal_strlit("eleven");
    assert("million"@.len() != "eleven"@.len());
    reveal_strlit("twelve");
    assert("million"@.len() != "twelve"@.len());
    reveal_strlit("thirteen");
    assert("million"@.len() != "thirteen"@.len());
    reveal_strlit("fourteen");
    assert("million"@.len() != "fourteen"@.len());
    reveal_strlit("fifteen");
    assert("million"@[0] != "fifteen"@[0]);
    reveal_strlit("sixteen");
    assert("million"@[0] != "sixteen"@[0]);
    reveal_strlit("seventeen");
    assert("million"@.len() != "seventeen"@.len());
    reveal_strlit("eighteen");
    assert("million"@.len() != "eighteen"@.len());
    reveal_strlit("nineteen");
    assert("million"@.len() != "nineteen"@.len());
    reveal_strlit("twenty");
    assert("million"@.len() != "twenty"@.len());
    reveal_strlit("thirty");
    assert("million"@.len() != "thirty"@.len());
    reveal_strlit("forty");
    assert("million"@.len() != "forty"@.len());
    reveal_strlit("fifty");
    assert("million"@.len() != "fifty"@.len());
    reveal_strlit("sixty");
    assert("million"@.len() != "sixty"@.len());
    reveal_strlit("seventy");
    assert("million"@[0] != "seventy"@[0]);
    reveal_strlit("eighty");
    assert("million"@.len() != "eighty"@.len());
    reveal_strlit("ninety");
    assert("million"@.len() != "ninety"@.len());
    reveal_strlit("hundred");
    assert("million"@[0] != "hundred"@[0]);
    reveal_strlit("thousand");
    assert("million"@.len() != "thousand"@.len());
}

proof fn lemma_word_billion()
    ensures
        "billion"@.len() == 7,
        word_cat("billion"@) == Some(Cat::Scale(1_000_000_000)),
        forall|j: int| 0 <= j < "billion"@.len() ==> "billion"@[j] != '-',
{
    reveal_strlit("billion");
    reveal_strlit("zero");
    assert("billion"@.len() != "zero"@.len());
    reveal_strlit("one");
    assert("billion"@.len() != "one"@.len());
    reveal_strlit("two");
    assert("billion"@.len() != "two"@.len());
    reveal_strlit("three");
    assert("billion"@.len() != "three"@.len());
    reveal_strlit("four");
    assert("billion"@.len() != "four"@.len());
    reveal_strlit("five");
    assert("billion"@.len() != "five"@.len());
    reveal_strlit("six");
    assert("billion"@.len() != "six"@.len());
    reveal_strlit("seven");
    assert("billion"@.len() != "seven"@.len());
    reveal_strlit("eight");
    assert("billion"@.len() != "eight"@.len());
    reveal_strlit("nine");
    assert("billion"@.len() != "nine"@.len());
    reveal_strlit("ten");
    assert("billion"@.len() != "ten"@.len());
    reveal_strlit("eleven");
    assert("billion"@.len() != "eleven"@.len());
    reveal_strlit("twelve");
    assert("billion"@.len() != "twelve"@.len());
    reveal_strlit("thirteen");
    assert("billion"@.len() != "thirteen"@.len());
    reveal_strlit("fourteen");
    assert("billion"@.len() != "fourteen"@.len());
    reveal_strlit("fifteen");
    assert("billion"@[0] != "fifteen"@[0]);
    reveal_strlit("sixteen");
    assert("billion"@[0] != "sixteen"@[0]);
    reveal_strlit("seventeen");
    assert("billion"@.len() != "seventeen"@.len());
    reveal_strlit("eighteen");
    assert("billion"@.len() != "eighteen"@.len());
    reveal_strlit("nineteen");
    assert("billion"@.len() != "nineteen"@.len());
    reveal_strlit("twenty");
    assert("billion"@.len() != "twenty"@.len());
    reveal_strlit("thirty");
    assert("billion"@.len() != "thirty"@.len());
    reveal_strlit("forty");
    assert("billion"@.len() != "forty"@.len());
    reveal_strlit("fifty");
    assert("billion"@.len() != "fifty"@.len());
    reveal_strlit("sixty");
    assert("billion"@.len() != "sixty"@.len());
    reveal_strlit("seventy");
    assert("billion"@[0] != "seventy"@[0]);
    reveal_strlit("eighty");
    assert("billion"@.len() != "eighty"@.len());
    reveal_strlit("ninety");
    assert("billion"@.len() != "ninety"@.len());
    reveal_strlit("hundred");
    assert("billion"@[0] != "hundred"@[0]);
    reveal_strlit("thousand");
    assert("billion"@.len() != "thousand"@.len());
    reveal_strlit("million");
    assert("billion"@[0] != "million"@[0]);
}

proof fn lemma_word_trillion()
    ensures
        "trillion"@.len() == 8,
        word_cat("trillion"@) == Some(Cat::Scale(1_000_000_000_000)),
        forall|j: int| 0 <= j < "trillion"@.len() ==> "trillion"@[j] != '-',
{
    reveal_strlit("trillion");
    reveal_strlit("zero");
    assert("trillion"@.len() != "zero"@.len());
    reveal_strlit("one");
    assert("trillion"@.len() != "one"@.len());
    reveal_strlit("two");
    assert("trillion"@.len() != "two"@.len());
    reveal_strlit("three");
    assert("trillion"@.len() != "three"@.len());
    reveal_strlit("four");
    assert("trillion"@.len() != "four"@.len());
    reveal_strlit("five");
    assert("trillion"@.len() != "five"@.len());
    reveal_strlit("six");
    assert("trillion"@.len() != "six"@.len());
    reveal_strlit("seven");
    assert("trillion"@.len() != "seven"@.len());
    reveal_strlit("eight");
    assert("trillion"@.len() != "eight"@.len());
    reveal_strlit("nine");
    assert("trillion"@.len() != "nine"@.len());
    reveal_strlit("ten");
    assert("trillion"@.len() != "ten"@.len());
    reveal_strlit("eleven");
    assert("trillion"@.len() != "eleven"@.len());
    reveal_strlit("twelve");
    assert("trillion"@.len() != "twelve"@.len());
    reveal_strlit("thirteen");
    assert("trillion"@[1] != "thirteen"@[1]);
    reveal_strlit("fourteen");
    assert("trillion"@[0] != "fourteen"@[0]);
    reveal_strlit("fifteen");
    assert("trillion"@.len() != "fifteen"@.len());
    reveal_strlit("sixteen");
    assert("trillion"@.len() != "sixteen"@.len());
    reveal_strlit("seventeen");
    assert("trillion"@.len() != "seventeen"@.len());
    reveal_strlit("eighteen");
    assert("trillion"@[0] != "eighteen"@[0]);
    reveal_strlit("nineteen");
    assert("trillion"@[0] != "nineteen"@[0]);
    reveal_strlit("twenty");
    assert("trillion"@.len() != "twenty"@.len());
    reveal_strlit("thirty");
    assert("trillion"@.len() != "thirty"@.len());
    reveal_strlit("forty");
    assert("trillion"@.len() != "forty"@.len());
    reveal_strlit("fifty");
    assert("trillion"@.len() != "fifty"@.len());
    reveal_strlit("sixty");
    assert("trillion"@.len() != "sixty"@.len());
    reveal_strlit("seventy");
    assert("trillion"@.len() != "seventy"@.len());
    reveal_strlit("eighty");
    assert("trillion"@.len() != "eighty"@.len());
    reveal_strlit("ninety");
    assert("trillion"@.len() != "ninety"@.len());
    reveal_strlit("hundred");
    assert("trillion"@.len() != "hundred"@.len());
    reveal_strlit("thousand");
    assert("trillion"@[1] != "thousand"@[1]);
    reveal_strlit("million");
    assert("trillion"@.len() != "million"@.len());
    reveal_strlit("billion");
    assert("trillion"@.len() != "billion"@.len());
}

/// Each English number word, alone, denotes the value it names: a token whose lowercase
/// form is `english_name(n)` is read as a cardinal of value `n` ("eighty" is 80, "twelve" is
/// 12, "thousand" is 1000).
pub proof fn law_number_words_denote_their_values(core: Seq<char>, n: int)
    requires
        named_value(n),
        core.len() > 0,
        str_lower(core) == english_name(n),
    ensures
        number_cats(core) is Some,
        cats_value(number_cats(core)->0) == n,
{
    if n == 0 {
        lemma_word_zero();
        lemma_single_word(core, "zero"@, Cat::Unit(0));
        lemma_single_value(Cat::Unit(0));
    } else if n == 1 {
        lemma_word_one();
        lemma_single_word(core, "one"@, Cat::Unit(1));
        lemma_single_value(Cat::Unit(1));
    } else if n == 2 {
        lemma_word_two();
        lemma_single_word(core, "two"@, Cat::Unit(2));
        lemma_single_value(Cat::Unit(2));
    } else if n == 3 {
        lemma_word_three();
        lemma_single_word(core, "three"@, Cat::Unit(3));
        lemma_single_value(Cat::Unit(3));
    } else if n == 4 {
        lemma_word_four();
        lemma_single_word(core, "four"@, Cat::Unit(4));
        lemma_single_value(Cat::Unit(4));
    } else if n == 5 {
        lemma_word_five();
        lemma_single_word(core, "five"@, Cat::Unit(5));
        lemma_single_value(Cat::Unit(5));
    } else if n == 6 {
        lemma_word_six();
        lemma_single_word(core, "six"@, Cat::Unit(6));
        lemma_single_value(Cat::Unit(6));
    } else if n == 7 {
        lemma_word_seven();
        lemma_single_word(core, "seven"@, Cat::Unit(7));
        lemma_single_value(Cat::Unit(7));
    } else if n == 8 {
        lemma_word_eight();
        lemma_single_word(core, "eight"@, Cat::Unit(8));
        lemma_single_value(Cat::Unit(8));
    } else if n == 9 {
        lemma_word_nine();
        lemma_single_word(core, "nine"@, Cat::Unit(9));
        lemma_single_value(Cat::Unit(9));
    } else if n == 10 {
        lemma_word_ten();
        lemma_single_word(core, "ten"@, Cat::Teen(10));
        lemma_single_value(Cat::Teen(10));
    } else if n == 11 {
        lemma_word_eleven();
        lemma_single_word(core, "eleven"@, Cat::Teen(11));
        lemma_single_value(Cat::Teen(11));
    } else if n == 12 {
        lemma_word_twelve();
        lemma_single_word(core, "twelve"@, Cat::Teen(12));
        lemma_single_value(Cat::Teen(12));
    } else if n == 13 {
        lemma_word_thirteen();
        lemma_single_word(core, "thirteen"@, Cat::Teen(13));
        lemma_single_value(Cat::Teen(13));
    } else if n == 14 {
        lemma_word_fourteen();
        lemma_single_word(core, "fourteen"@, Cat::Teen(14));
        lemma_single_value(Cat::Teen(14));
    } else if n == 15 {
        lemma_word_fifteen();
        lemma_single_word(core, "fifteen"@, Cat::Teen(15));
        lemma_single_value(Cat::Teen(15));
    } else if n == 16 {
        lemma_word_sixteen();
        lemma_single_word(core, "sixteen"@, Cat::Teen(16));
        lemma_single_value(Cat::Teen(16));
    } else if n == 17 {
        lemma_word_seventeen();
        lemma_single_word(core, "seventeen"@, Cat::Teen(17));
        lemma_single_value(Cat::Teen(17));
    } else if n == 18 {
        lemma_word_eighteen();
        lemma_single_word(core, "eighteen"@, Cat::Teen(18));
        lemma_single_value(Cat::Teen(18));
    } else if n == 19 {
        lemma_word_nineteen();
        lemma_single_word(core, "nineteen"@, Cat::Teen(19));
        lemma_single_value(Cat::Teen(19));
    } else if n == 20 {
        lemma_word_twenty();
        lemma_single_word(core, "twenty"@, Cat::Ten(20));
        lemma_single_value(Cat::Ten(20));
    } else if n == 30 {
        lemma_word_thirty();
        lemma_single_word(core, "thirty"@, Cat::Ten(30));
        lemma_single_value(Cat::Ten(30));
    } else if n == 40 {
        lemma_word_forty();
        lemma_single_word(core, "forty"@, Cat::Ten(40));
        lemma_single_value(Cat::Ten(40));
    } else if n == 50 {
        lemma_word_fifty();
        lemma_single_word(core, "fifty"@, Cat::Ten(50));
        lemma_single_value(Cat::Ten(50));
    } else if n == 60 {
        lemma_word_sixty();
        lemma_single_word(core, "sixty"@, Cat::Ten(60));
        lemma_single_value(Cat::Ten(60));
    } else if n == 70 {
        lemma_word_seventy();
        lemma_single_word(core, "seventy"@, Cat::Ten(70));
        lemma_single_value(Cat::Ten(70));
    } else if n == 80 {
        lemma_word_eighty();
        lemma_single_word(core, "eighty"@, Cat::Ten(80));
        lemma_single_value(Cat::Ten(80));
    } else if n == 90 {
        lemma_word_ninety();
        lemma_single_word(core, "ninety"@, Cat::Ten(90));
        lemma_single_value(Cat::Ten(90));
    } else if n == 100 {
        lemma_word_hundred();
        lemma_single_word(core, "hundred"@, Cat::Hundred);
        lemma_single_value(Cat::Hundred);
    } else if n == 1000 {
        lemma_word_thousand();
        lemma_single_word(core, "thousand"@, Cat::Scale(1_000));
        lemma_single_value(Cat::Scale(1_000));
    } else if n == 1000000 {
        lemma_word_million();
        lemma_single_word(core, "million"@, Cat::Scale(1_000_000));
        lemma_single_value(Cat::Scale(1_000_000));
    } else if n == 1000000000 {
        lemma_word_billion();
        lemma_single_word(core, "billion"@, Cat::Scale(1_000_000_000));
        lemma_single_value(Cat::Scale(1_000_000_000));
    } else if n == 1000000000000 {
        lemma_word_trillion();
        lemma_single_word(core, "trillion"@, Cat::Scale(1_000_000_000_000));
        lemma_single_value(Cat::Scale(1_000_000_000_000));
    }
}

} // verus!

verus! {

proof fn lemma_split_two(t: Seq<char>, u: Seq<char>, sep: char, i: int)
    requires
        0 <= i <= t.len(),
        forall|j: int| 0 <= j < t.len() ==> t[j] != sep,
        forall|j: int| 0 <= j < u.len() ==> u[j] != sep,
    ensures
        crate::unicode::split_on_from(t + seq![sep] + u, sep, i, t.take(i)) == seq![t, u],
    decreases t.len() - i,
{
    let s = t + seq![sep] + u;
    if i < t.len() {
        assert(s[i] == t[i]);
        assert(t.take(i).push(t[i]) =~= t.take(i + 1));
        lemma_split_two(t, u, sep, i + 1);
    } else {
        assert(t.take(i) =~= t);
        assert(s[i] == sep);
        lemma_split_tail(t, u, sep, 0);
        assert(u.take(0) =~= Seq::<char>::empty());
        assert(i < s.len());
        assert(seq![t] + seq![u] =~= seq![t, u]);
    }
}

proof fn lemma_split_tail(t: Seq<char>, u: Seq<char>, sep: char, j: int)
    requires
        0 <= j <= u.len(),
        forall|k: int| 0 <= k < u.len() ==> u[k] != sep,
    ensures
        crate::unicode::split_on_from(t + seq![sep] + u, sep, t.len() + 1 + j, u.take(j)) == seq![u],
    decreases u.len() - j,
{
    let s = t + seq![sep] + u;
    if j < u.len() {
        assert(s[t.len() + 1 + j] == u[j]);
        assert(u.take(j).push(u[j]) =~= u.take(j + 1));
        lemma_split_tail(t, u, sep, j + 1);
    } else {
        assert(u.take(j) =~= u);
    }
}

/// The value of a tens word followed by a unit word.
proof fn lemma_tens_unit_value(t: u64, u: u64)
    requires
        20 <= t <= 90,
        1 <= u <= 9,
    ensures
        cats_value(seq![Cat::Ten(t), Cat::Unit(u)]) == t + u,
{
    reveal_with_fuel(fold_value, 4);
}

/// A hyphenated tens-and-unit token denotes the sum of its parts: a token whose lowercase
/// form is the word for `10 * d`, a hyphen, and the word for `u` ("eighty-five") is read as
/// the cardinal `10 * d + u`.
pub proof fn law_hyphenated_numbers_add_up(core: Seq<char>, d: int, u: int)
    requires
        2 <= d <= 9,
        1 <= u <= 9,
        core.len() > 0,
        str_lower(core) == english_name(10 * d) + "-"@ + english_name(u),
    ensures
        number_cats(core) is Some,
        cats_value(number_cats(core)->0) == 10 * d + u,
{
    reveal_strlit("-");
    let t = english_name(10 * d);
    let w = english_name(u);
    assert("-"@ =~= seq!['-']);
    if d == 2 {
        lemma_word_twenty();
    } else if d == 3 {
        lemma_word_thirty();
    } else if d == 4 {
        lemma_word_forty();
    } else if d == 5 {
        lemma_word_fifty();
    } else if d == 6 {
        lemma_word_sixty();
    } else if d == 7 {
        lemma_word_seventy();
    } else if d == 8 {
        lemma_word_eighty();
    } else if d == 9 {
        lemma_word_ninety();
    }
    if u == 1 {
        lemma_word_one();
    } else if u == 2 {
        lemma_word_two();
    } else if u == 3 {
        lemma_word_three();
    } else if u == 4 {
        lemma_word_four();
    } else if u == 5 {
        lemma_word_five();
    } else if u == 6 {
        lemma_word_six();
    } else if u == 7 {
        lemma_word_seven();
    } else if u == 8 {
        lemma_word_eight();
    } else if u == 9 {
        lemma_word_nine();
    }
    lemma_split_two(t, w, '-', 0);
    assert(t.take(0) =~= Seq::<char>::empty());
    let parts = split_on(t + seq!['-'] + w, '-');
    assert(parts == seq![t, w]);
    let ct = word_cat(t)->0;
    let cu = word_cat(w)->0;
    assert(part_cats(parts) =~= seq![ct, cu]);
    assert(follows(ct, cu));
    lemma_tens_unit_value((10 * d) as u64, u as u64);
}

} // verus!

verus! {

// ---------------------------------------------------------------------------
// Spoken dollar amounts.
// ---------------------------------------------------------------------------

/// "dollars" is no number word, no ordinal, and none of the words a group reads specially.
proof fn lemma_dollars_word()
    ensures
        word_cat("dollars"@) is None,
        !ordinal_word("dollars"@),
        "dollars"@ != "and"@,
        "dollars"@ != "a"@,
        "dollars"@ != "an"@,
        "dollars"@ != "point"@,
        "dollars"@ != "percent"@,
        forall|j: int| 0 <= j < "dollars"@.len() ==> "dollars"@[j] != '-',
        "dollars"@.len() > 0,
{
    reveal_strlit("dollars");
    reveal_strlit("and");
    reveal_strlit("a");
    reveal_strlit("an");
    reveal_strlit("point");
    reveal_strlit("percent");
    reveal_strlit("zero");
    reveal_strlit("one");
    reveal_strlit("two");
    reveal_strlit("three");
    reveal_strlit("four");
    reveal_strlit("five");
    reveal_strlit("six");
    reveal_strlit("seven");
    reveal_strlit("eight");
    reveal_strlit("nine");
    reveal_strlit("ten");
    reveal_strlit("eleven");
    reveal_strlit("twelve");
    reveal_strlit("thirteen");
    reveal_strlit("fourteen");
    reveal_strlit("fifteen");
    reveal_strlit("sixteen");
    reveal_strlit("seventeen");
    reveal_strlit("eighteen");
    reveal_strlit("nineteen");
    reveal_strlit("twenty");
    reveal_strlit("thirty");
    reveal_strlit("forty");
    reveal_strlit("fifty");
    reveal_strlit("sixty");
    reveal_strlit("seventy");
    reveal_strlit("eighty");
    reveal_strlit("ninety");
    reveal_strlit("hundred");
    reveal_strlit("thousand");
    reveal_strlit("million");
    reveal_strlit("billion");
    reveal_strlit("trillion");
    reveal_strlit("first");
    reveal_strlit("second");
    reveal_strlit("third");
    reveal_strlit("fourth");
    reveal_strlit("fifth");
    reveal_strlit("sixth");
    reveal_strlit("seventh");
    reveal_strlit("eighth");
    reveal_strlit("ninth");
    reveal_strlit("tenth");
    reveal_strlit("eleventh");
    reveal_strlit("twelfth");
    reveal_strlit("thirteenth");
    reveal_strlit("fourteenth");
    reveal_strlit("fifteenth");
    reveal_strlit("sixteenth");
    reveal_strlit("seventeenth");
    reveal_strlit("eighteenth");
    reveal_strlit("nineteenth");
    reveal_strlit("twentieth");
    reveal_strlit("thirtieth");
    reveal_strlit("fortieth");
    reveal_strlit("fiftieth");
    reveal_strlit("sixtieth");
    reveal_strlit("seventieth");
    reveal_strlit("eightieth");
    reveal_strlit("ninetieth");
    reveal_strlit("hundredth");
    reveal_strlit("thousandth");
    reveal_strlit("millionth");
    reveal_strlit("billionth");
    reveal_strlit("trillionth");
    assert("dollars"@.len() != "zero"@.len());
    assert("dollars"@.len() != "one"@.len());
    assert("dollars"@.len() != "two"@.len());
    assert("dollars"@.len() != "three"@.len());
    assert("dollars"@.len() != "four"@.len());
    assert("dollars"@.len() != "five"@.len());
    assert("dollars"@.len() != "six"@.len());
    assert("dollars"@.len() != "seven"@.len());
    assert("dollars"@.len() != "eight"@.len());
    assert("dollars"@.len() != "nine"@.len());
    assert("dollars"@.len() != "ten"@.len());
    assert("dollars"@.len() != "eleven"@.len());
    assert("dollars"@.len() != "twelve"@.len());
    assert("dollars"@.len() != "thirteen"@.len());
    assert("dollars"@.len() != "fourteen"@.len());
    assert("dollars"@[0] != "fifteen"@[0]);
    assert("dollars"@[0] != "sixteen"@[0]);
    assert("dollars"@.len() != "seventeen"@.len());
    assert("dollars"@.len() != "eighteen"@.len());
    assert("dollars"@.len() != "nineteen"@.len());
    assert("dollars"@.len() != "twenty"@.len());
    assert("dollars"@.len() != "thirty"@.len());
    assert("dollars"@.len() != "forty"@.len());
    assert("dollars"@.len() != "fifty"@.len());
    assert("dollars"@.len() != "sixty"@.len());
    assert("dollars"@[0] != "seventy"@[0]);
    assert("dollars"@.len() != "eighty"@.len());
    assert("dollars"@.len() != "ninety"@.len());
    assert("dollars"@[0] != "hundred"@[0]);
    assert("dollars"@.len() != "thousand"@.len());
    assert("dollars"@[0] != "million"@[0]);
    assert("dollars"@[0] != "billion"@[0]);
    assert("dollars"@.len() != "trillion"@.len());
    assert("dollars"@.len() != "first"@.len());
    assert("dollars"@.len() != "second"@.len());
    assert("dollars"@.len() != "third"@.len());
    assert("dollars"@.len() != "fourth"@.len());
    assert("dollars"@.len() != "fifth"@.len());
    assert("dollars"@.len() != "sixth"@.len());
    assert("dollars"@[0] != "seventh"@[0]);
    assert("dollars"@.len() != "eighth"@.len());
    assert("dollars"@.len() != "ninth"@.len());
    assert("dollars"@.len() != "tenth"@.len());
    assert("dollars"@.len() != "eleventh"@.len());
    assert("dollars"@[0] != "twelfth"@[0]);
    assert("dollars"@.len() != "thirteenth"@.len());
    assert("dollars"@.len() != "fourteenth"@.len());
    assert("dollars"@.len() != "fifteenth"@.len());
    assert("dollars"@.len() != "sixteenth"@.len());
    assert("dollars"@.len() != "seventeenth"@.len());
    assert("dollars"@.len() != "eighteenth"@.len());
    assert("dollars"@.len() != "nineteenth"@.len());
    assert("dollars"@.len() != "twentieth"@.len());
    assert("dollars"@.len() != "thirtieth"@.len());
    assert("dollars"@.len() != "fortieth"@.len());
    assert("dollars"@.len() != "fiftieth"@.len());
    assert("dollars"@.len() != "sixtieth"@.len());
    assert("dollars"@.len() != "seventieth"@.len());
    assert("dollars"@.len() != "eightieth"@.len());
    assert("dollars"@.len() != "ninetieth"@.len());
    assert("dollars"@.len() != "hundredth"@.len());
    assert("dollars"@.len() != "thousandth"@.len());
    assert("dollars"@.len() != "millionth"@.len());
    assert("dollars"@.len() != "billionth"@.len());
    assert("dollars"@.len() != "trillionth"@.len());
    assert("dollars"@.len() != "and"@.len());
    assert("dollars"@.len() != "a"@.len());
    assert("dollars"@.len() != "an"@.len());
    assert("dollars"@.len() != "point"@.len());
    assert("dollars"@[0] != "percent"@[0]);
}

/// No number word is "and", "a" or "an".
proof fn lemma_name_not_connector(n: int)
    requires
        named_value(n),
    ensures
        english_name(n) != "and"@,
        english_name(n) != "a"@,
        english_name(n) != "an"@,
{
    reveal_strlit("zero");
    reveal_strlit("one");
    reveal_strlit("two");
    reveal_strlit("three");
    reveal_strlit("four");
    reveal_strlit("five");
    reveal_strlit("six");
    reveal_strlit("seven");
    reveal_strlit("eight");
    reveal_strlit("nine");
    reveal_strlit("ten");
    reveal_strlit("eleven");
    reveal_strlit("twelve");
    reveal_strlit("thirteen");
    reveal_strlit("fourteen");
    reveal_strlit("fifteen");
    reveal_strlit("sixteen");
    reveal_strlit("seventeen");
    reveal_strlit("eighteen");
    reveal_strlit("nineteen");
    reveal_strlit("twenty");
    reveal_strlit("thirty");
    reveal_strlit("forty");
    reveal_strlit("fifty");
    reveal_strlit("sixty");
    reveal_strlit("seventy");
    reveal_strlit("eighty");
    reveal_strlit("ninety");
    reveal_strlit("hundred");
    reveal_strlit("thousand");
    reveal_strlit("million");
    reveal_strlit("billion");
    reveal_strlit("trillion");
    reveal_strlit("and");
    reveal_strlit("a");
    reveal_strlit("an");
    if n == 0 {
        assert("zero"@.len() != "and"@.len());
        assert("zero"@.len() != "a"@.len());
        assert("zero"@.len() != "an"@.len());
    }
    if n == 1 {
        assert("one"@[0] != "and"@[0]);
        assert("one"@.len() != "a"@.len());
        assert("one"@.len() != "an"@.len());
    }
    if n == 2 {
        assert("two"@[0] != "and"@[0]);
        assert("two"@.len() != "a"@.len());
        assert("two"@.len() != "an"@.len());
    }
    if n == 3 {
        assert("three"@.len() != "and"@.len());
        assert("three"@.len() != "a"@.len());
        assert("three"@.len() != "an"@.len());
    }
    if n == 4 {
        assert("four"@.len() != "and"@.len());
        assert("four"@.len() != "a"@.len());
        assert("four"@.len() != "an"@.len());
    }
    if n == 5 {
        assert("five"@.len() != "and"@.len());
        assert("five"@.len() != "a"@.len());
        assert("five"@.len() != "an"@.len());
    }
    if n == 6 {
        assert("six"@[0] != "and"@[0]);
        assert("six"@.len() != "a"@.len());
        assert("six"@.len() != "an"@.len());
    }
    if n == 7 {
        assert("seven"@.len() != "and"@.len());
        assert("seven"@.len() != "a"@.len());
        assert("seven"@.len() != "an"@.len());
    }
    if n == 8 {
        assert("eight"@.len() != "and"@.len());
        assert("eight"@.len() != "a"@.len());
        assert("eight"@.len() != "an"@.len());
    }
    if n == 9 {
        assert("nine"@.len() != "and"@.len());
        assert("nine"@.len() != "a"@.len());
        assert("nine"@.len() != "an"@.len());
    }
    if n == 10 {
        assert("ten"@[0] != "and"@[0]);
        assert("ten"@.len() != "a"@.len());
        assert("ten"@.len() != "an"@.len());
    }
    if n == 11 {
        assert("eleven"@.len() != "and"@.len());
        assert("eleven"@.len() != "a"@.len());
        assert("eleven"@.len() != "an"@.len());
    }
    if n == 12 {
        assert("twelve"@.len() != "and"@.len());
        assert("twelve"@.len() != "a"@.len());
        assert("twelve"@.len() != "an"@.len());
    }
    if n == 13 {
        assert("thirteen"@.len() != "and"@.len());
        assert("thirteen"@.len() != "a"@.len());
        assert("thirteen"@.len() != "an"@.len());
    }
    if n == 14 {
        assert("fourteen"@.len() != "and"@.len());
        assert("fourteen"@.len() != "a"@.len());
        assert("fourteen"@.len() != "an"@.len());
    }
    if n == 15 {
        assert("fifteen"@.len() != "and"@.len());
        assert("fifteen"@.len() != "a"@.len());
        assert("fifteen"@.len() != "an"@.len());
    }
    if n == 16 {
        assert("sixteen"@.len() != "and"@.len());
        assert("sixteen"@.len() != "a"@.len());
        assert("sixteen"@.len() != "an"@.len());
    }
    if n == 17 {
        assert("seventeen"@.len() != "and"@.len());
        assert("seventeen"@.len() != "a"@.len());
        assert("seventeen"@.len() != "an"@.len());
    }
    if n == 18 {
        assert("eighteen"@.len() != "and"@.len());
        assert("eighteen"@.len() != "a"@.len());
        assert("eighteen"@.len() != "an"@.len());
    }
    if n == 19 {
        assert("nineteen"@.len() != "and"@.len());
        assert("nineteen"@.len() != "a"@.len());
        assert("nineteen"@.len() != "an"@.len());
    }
    if n == 20 {
        assert("twenty"@.len() != "and"@.len());
        assert("twenty"@.len() != "a"@.len());
        assert("twenty"@.len() != "an"@.len());
    }
    if n == 30 {
        assert("thirty"@.len() != "and"@.len());
        assert("thirty"@.len() != "a"@.len());
        assert("thirty"@.len() != "an"@.len());
    }
    if n == 40 {
        assert("forty"@.len() != "and"@.len());
        assert("forty"@.len() != "a"@.len());
        assert("forty"@.len() != "an"@.len());
    }
    if n == 50 {
        assert("fifty"@.len() != "and"@.len());
        assert("fifty"@.len() != "a"@.len());
        assert("fifty"@.len() != "an"@.len());
    }
    if n == 60 {
        assert("sixty"@.len() != "and"@.len());
        assert("sixty"@.len() != "a"@.len());
        assert("sixty"@.len() != "an"@.len());
    }
    if n == 70 {
        assert("seventy"@.len() != "and"@.len());
        assert("seventy"@.len() != "a"@.len());
        assert("seventy"@.len() != "an"@.len());
    }
    if n == 80 {
        assert("eighty"@.len() != "and"@.len());
        assert("eighty"@.len() != "a"@.len());
        assert("eighty"@.len() != "an"@.len());
    }
    if n == 90 {
        assert("ninety"@.len() != "and"@.len());
        assert("ninety"@.len() != "a"@.len());
        assert("ninety"@.len() != "an"@.len());
    }
    if n == 100 {
        assert("hundred"@.len() != "and"@.len());
        assert("hundred"@.len() != "a"@.len());
        assert("hundred"@.len() != "an"@.len());
    }
    if n == 1000 {
        assert("thousand"@.len() != "and"@.len());
        assert("thousand"@.len() != "a"@.len());
        assert("thousand"@.len() != "an"@.len());
    }
    if n == 1000000 {
        assert("million"@.len() != "and"@.len());
        assert("million"@.len() != "a"@.len());
        assert("million"@.len() != "an"@.len());
    }
    if n == 1000000000 {
        assert("billion"@.len() != "and"@.len());
        assert("billion"@.len() != "a"@.len());
        assert("billion"@.len() != "an"@.len());
    }
    if n == 1000000000000 {
        assert("trillion"@.len() != "and"@.len());
        assert("trillion"@.len() != "a"@.len());
        assert("trillion"@.len() != "an"@.len());
    }
}

/// The number word `english_name(n)` splits into itself and has category `c`.
proof fn lemma_name_word(n: int) -> (c: Cat)
    requires
        named_value(n),
    ensures
        word_cat(english_name(n)) == Some(c),
        english_name(n).len() > 0,
        forall|j: int| 0 <= j < english_name(n).len() ==> english_name(n)[j] != '-',
        cats_value(seq![c]) == n,
{
    if n == 0 {
        lemma_word_zero();
        lemma_single_value(Cat::Unit(0));
        Cat::Unit(0)
    } else if n == 1 {
        lemma_word_one();
        lemma_single_value(Cat::Unit(1));
        Cat::Unit(1)
    } else if n == 2 {
        lemma_word_two();
        lemma_single_value(Cat::Unit(2));
        Cat::Unit(2)
    } else if n == 3 {
        lemma_word_three();
        lemma_single_value(Cat::Unit(3));
        Cat::Unit(3)
    } else if n == 4 {
        lemma_word_four();
        lemma_single_value(Cat::Unit(4));
        Cat::Unit(4)
    } else if n == 5 {
        lemma_word_five();
        lemma_single_value(Cat::Unit(5));
        Cat::Unit(5)
    } else if n == 6 {
        lemma_word_six();
        lemma_single_value(Cat::Unit(6));
        Cat::Unit(6)
    } else if n == 7 {
        lemma_word_seven();
        lemma_single_value(Cat::Unit(7));
        Cat::Unit(7)
    } else if n == 8 {
        lemma_word_eight();
        lemma_single_value(Cat::Unit(8));
        Cat::Unit(8)
    } else if n == 9 {
        lemma_word_nine();
        lemma_single_value(Cat::Unit(9));
        Cat::Unit(9)
    } else if n == 10 {
        lemma_word_ten();
        lemma_single_value(Cat::Teen(10));
        Cat::Teen(10)
    } else if n == 11 {
        lemma_word_eleven();
        lemma_single_value(Cat::Teen(11));
        Cat::Teen(11)
    } else if n == 12 {
        lemma_word_twelve();
        lemma_single_value(Cat::Teen(12));
        Cat::Teen(12)
    } else if n == 13 {
        lemma_word_thirteen();
        lemma_single_value(Cat::Teen(13));
        Cat::Teen(13)
    } else if n == 14 {
        lemma_word_fourteen();
        lemma_single_value(Cat::Teen(14));
        Cat::Teen(14)
    } else if n == 15 {
        lemma_word_fifteen();
        lemma_single_value(Cat::Teen(15));
        Cat::Teen(15)
    } else if n == 16 {
        lemma_word_sixteen();
        lemma_single_value(Cat::Teen(16));
        Cat::Teen(16)
    } else if n == 17 {
        lemma_word_seventeen();
        lemma_single_value(Cat::Teen(17));
        Cat::Teen(17)
    } else if n == 18 {
        lemma_word_eighteen();
        lemma_single_value(Cat::Teen(18));
        Cat::Teen(18)
    } else if n == 19 {
        lemma_word_nineteen();
        lemma_single_value(Cat::Teen(19));
        Cat::Teen(19)
    } else if n == 20 {
        lemma_word_twenty();
        lemma_single_value(Cat::Ten(20));
        Cat::Ten(20)
    } else if n == 30 {
        lemma_word_thirty();
        lemma_single_value(Cat::Ten(30));
        Cat::Ten(30)
    } else if n == 40 {
        lemma_word_forty();
        lemma_single_value(Cat::Ten(40));
        Cat::Ten(40)
    } else if n == 50 {
        lemma_word_fifty();
        lemma_single_value(Cat::Ten(50));
        Cat::Ten(50)
    } else if n == 60 {
        lemma_word_sixty();
        lemma_single_value(Cat::Ten(60));
        Cat::Ten(60)
    } else if n == 70 {
        lemma_word_seventy();
        lemma_single_value(Cat::Ten(70));
        Cat::Ten(70)
    } else if n == 80 {
        lemma_word_eighty();
        lemma_single_value(Cat::Ten(80));
        Cat::Ten(80)
    } else if n == 90 {
        lemma_word_ninety();
        lemma_single_value(Cat::Ten(90));
        Cat::Ten(90)
    } else if n == 100 {
        lemma_word_hundred();
        lemma_single_value(Cat::Hundred);
        Cat::Hundred
    } else if n == 1000 {
        lemma_word_thousand();
        lemma_single_value(Cat::Scale(1_000));
        Cat::Scale(1_000)
    } else if n == 1000000 {
        lemma_word_million();
        lemma_single_value(Cat::Scale(1_000_000));
        Cat::Scale(1_000_000)
    } else if n == 1000000000 {
        lemma_word_billion();
        lemma_single_value(Cat::Scale(1_000_000_000));
        Cat::Scale(1_000_000_000)
    } else if n == 1000000000000 {
        lemma_word_trillion();
        lemma_single_value(Cat::Scale(1_000_000_000_000));
        Cat::Scale(1_000_000_000_000)
    } else {
        Cat::Hundred
    }
}

proof fn lemma_decimal_no_space(n: nat)
    ensures
        forall|j: int| 0 <= j < decimal(n).len() ==> decimal(n)[j] != ' ',
        decimal(n).len() > 0,
    decreases n,
{
    if n >= 10 {
        lemma_decimal_no_space(n / 10);
    }
}

/// A spoken amount of dollars is written with a dollar sign: two words, the first naming the
/// value `n` ("eighty") and the second "dollars" (in any casing), both without surrounding
/// punctuation, come out as the single word `$` followed by the digits of `n` ("$80").
pub proof fn law_spoken_dollars(ws: Seq<Seq<char>>, n: int)
    requires
        named_value(n),
        ws.len() == 2,
        w_lead(ws[0]).len() == 0,
        w_trail(ws[0]).len() == 0,
        w_core(ws[0]).len() > 0,
        str_lower(w_core(ws[0])) == english_name(n),
        w_lead(ws[1]).len() == 0,
        w_trail(ws[1]).len() == 0,
        lower_core(ws[1]) == "dollars"@,
    ensures
        fmt_from(ws, 0) == seq![seq!['$'] + decimal(n as nat)],
{
    let c = lemma_name_word(n);
    lemma_name_not_connector(n);
    lemma_dollars_word();
    lemma_single_word(w_core(ws[0]), english_name(n), c);
    lemma_split_without_sep("dollars"@, '-', 0);
    assert("dollars"@.take(0) =~= Seq::<char>::empty());
    assert(split_on(str_lower(w_core(ws[1])), '-') == seq!["dollars"@]);
    assert(seq!["dollars"@][0] == "dollars"@);
    assert(word_cat(seq!["dollars"@][0]) is None);
    assert(!all_number_words(seq!["dollars"@]));
    assert(number_cats(w_core(ws[1])) is None);
    let st0 = init_state(0);
    let st1 = absorb(ws, st0, seq![c]);
    assert(st1.cats =~= seq![c]);
    assert(group_loop(ws, 0, st1) == st1);
    assert(group_loop(ws, 0, st0) == st1);
    let g = parse_group(ws, 0);
    assert(w_lead(ws[0]) =~= Seq::<char>::empty());
    assert(st1.trail =~= Seq::<char>::empty());
    assert(st1.i == 1);
    assert(st1.first_lower == lower_core(ws[0]));
    assert(cats_value(st1.cats) == n);
    assert(g is Some);
    assert(g->0.value == n);
    assert(g->0.end == 1);
    assert(g->0.lead == Seq::<char>::empty());
    assert(g->0.trail == Seq::<char>::empty());
    assert(g == Some(SpecGroup {
        value: n,
        end: 1,
        lead: seq![],
        trail: seq![],
        bare_one: seq![c] == seq![Cat::Unit(1)] && lower_core(ws[0]) == "one"@,
    }));
    assert(abutting_lower(ws, 1) == Some("dollars"@));
    assert(parse_group(ws, 2) is None);
    assert(parse_cents(ws, 2, true) is None);
    assert(fmt_from(ws, 2) == Seq::<Seq<char>>::empty());
    assert(Seq::<char>::empty() + seq!['$'] + decimal(n as nat) + Seq::<char>::empty() =~= seq!['$'] + decimal(
        n as nat,
    ));
}

/// A transcript made of a spoken number word and "dollars" formats as `$` and the digits:
/// "eighty dollars" gives "$80".
pub proof fn law_spoken_dollars_text(text: Seq<char>, n: int)
    requires
        named_value(n),
        crate::unicode::split_ws(text).len() == 2,
        w_lead(crate::unicode::split_ws(text)[0]).len() == 0,
        w_trail(crate::unicode::split_ws(text)[0]).len() == 0,
        w_core(crate::unicode::split_ws(text)[0]).len() > 0,
        str_lower(w_core(crate::unicode::split_ws(text)[0])) == english_name(n),
        w_lead(crate::unicode::split_ws(text)[1]).len() == 0,
        w_trail(crate::unicode::split_ws(text)[1]).len() == 0,
        lower_core(crate::unicode::split_ws(text)[1]) == "dollars"@,
    ensures
        formatted(text) == seq!['$'] + decimal(n as nat),
{
    let ws = crate::unicode::split_ws(text);
    law_spoken_dollars(ws, n);
    let w = seq!['$'] + decimal(n as nat);
    let converted = join_space(fmt_from(ws, 0));
    assert(converted == w);
    lemma_decimal_no_space(n as nat);
    assert forall|j: int| 0 <= j < w.len() implies w[j] != ' ' by {
        if j > 0 {
            assert(w[j] == decimal(n as nat)[j - 1]);
        }
    }
    lemma_split_without_sep(w, ' ', 0);
    assert(w.take(0) =~= Seq::<char>::empty());
    assert(split_on(converted, ' ') == seq![w]);
    assert(stitch_from(seq![w], 1) == Seq::<Seq<char>>::empty());
    assert(seq![w][0] == w);
    assert(seq![seq![w][0]] + Seq::<Seq<char>>::empty() =~= seq![w]);
    assert(stitch_from(seq![w], 0) == seq![w]);
}

} // verus!
