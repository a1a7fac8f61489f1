//! Spoken punctuation for raw transcript mode: "is this thing on question mark" prints
//! "is this thing on?". Each command records which side its symbol closes up against, which
//! is why the pass rebuilds the string from its words instead of replacing text in place.
use vstd::prelude::*;
use crate::language::{tag_is_english, TextPipelineLanguage};
use crate::unicode::{
    alnum_char, chars_of, extend_chars, is_alphanumeric, lower_chars, split_whitespace, split_ws,
    str_lower, string_from, views,
};

verus! {

/// Which neighbour a symbol closes up against.
#[derive(Clone, Copy, Debug, PartialEq, Eq, Structural)]
pub enum Attach {
    /// Closes up to the word before it: `on` + `?` -> `on?`.
    Left,
    /// Closes up to the word after it: `(` + `hello` -> `(hello`.
    Right,
    /// Closes up to both: `well` + `-` + `known` -> `well-known`.
    Both,
    /// Closes up to neither. Line breaks supply their own separation.
    Neither,
}

/// Number of entries in the command table.
pub const COMMAND_COUNT: usize = 21;

/// The spoken words of command `k` of the table.
pub open spec fn cmd_phrase(k: int) -> Seq<Seq<char>> {
    if k == 0 { seq!["question"@, "mark"@] }
    else if k == 1 { seq!["exclamation"@, "mark"@] }
    else if k == 2 { seq!["exclamation"@, "point"@] }
    else if k == 3 { seq!["full"@, "stop"@] }
    else if k == 4 { seq!["period"@] }
    else if k == 5 { seq!["comma"@] }
    else if k == 6 { seq!["colon"@] }
    else if k == 7 { seq!["semicolon"@] }
    else if k == 8 { seq!["semi"@, "colon"@] }
    else if k == 9 { seq!["hyphen"@] }
    else if k == 10 { seq!["dash"@] }
    else if k == 11 { seq!["open"@, "paren"@] }
    else if k == 12 { seq!["open"@, "parenthesis"@] }
    else if k == 13 { seq!["close"@, "paren"@] }
    else if k == 14 { seq!["close"@, "parenthesis"@] }
    else if k == 15 { seq!["open"@, "quote"@] }
    else if k == 16 { seq!["quote"@] }
    else if k == 17 { seq!["close"@, "quote"@] }
    else if k == 18 { seq!["unquote"@] }
    else if k == 19 { seq!["new"@, "paragraph"@] }
    else { seq!["new"@, "line"@] }
}

/// The symbol command `k` prints.
pub open spec fn cmd_symbol(k: int) -> Seq<char> {
    if k <= 2 {
        if k == 0 { "?"@ } else { "!"@ }
    } else if k <= 4 { "."@ }
    else if k == 5 { ","@ }
    else if k == 6 { ":"@ }
    else if k <= 8 { ";"@ }
    else if k <= 10 { "-"@ }
    else if k <= 12 { "("@ }
    else if k <= 14 { ")"@ }
    else if k <= 18 { "\""@ }
    else if k == 19 { "\n\n"@ }
    else { "\n"@ }
}

/// How the symbol of command `k` attaches.
pub open spec fn cmd_attach(k: int) -> Attach {
    if k <= 8 || k == 13 || k == 14 || k == 17 || k == 18 { Attach::Left }
    else if k <= 10 { Attach::Both }
    else if k <= 12 || k == 15 || k == 16 { Attach::Right }
    else { Attach::Neither }
}

fn lit_words(a: &str, b: &str, two: bool) -> (r: Vec<Vec<char>>)
    ensures
        two ==> views(r@) == seq![a@, b@],
        !two ==> views(r@) == seq![a@],
{
    let mut r = Vec::new();
    r.push(chars_of(a));
    if two {
        r.push(chars_of(b));
        assert(views(r@) =~= seq![a@, b@]);
    } else {
        assert(views(r@) =~= seq![a@]);
    }
    r
}

/// Command `k` of the table: its words, symbol, and attachment.
fn command(k: usize) -> (r: (Vec<Vec<char>>, Vec<char>, Attach))
    requires
        k < COMMAND_COUNT,
    ensures
        views(r.0@) == cmd_phrase(k as int),
        r.1@ == cmd_symbol(k as int),
        r.2 == cmd_attach(k as int),
{
    let (phrase, symbol, attach) = if k == 0 { (lit_words("question", "mark", true), "?", Attach::Left) }
    else if k == 1 { (lit_words("exclamation", "mark", true), "!", Attach::Left) }
    else if k == 2 { (lit_words("exclamation", "point", true), "!", Attach::Left) }
    else if k == 3 { (lit_words("full", "stop", true), ".", Attach::Left) }
    else if k == 4 { (lit_words("period", "", false), ".", Attach::Left) }
    else if k == 5 { (lit_words("comma", "", false), ",", Attach::Left) }
    else if k == 6 { (lit_words("colon", "", false), ":", Attach::Left) }
    else if k == 7 { (lit_words("semicolon", "", false), ";", Attach::Left) }
    else if k == 8 { (lit_words("semi", "colon", true), ";", Attach::Left) }
    else if k == 9 { (lit_words("hyphen", "", false), "-", Attach::Both) }
    else if k == 10 { (lit_words("dash", "", false), "-", Attach::Both) }
    else if k == 11 { (lit_words("open", "paren", true), "(", Attach::Right) }
    else if k == 12 { (lit_words("open", "parenthesis", true), "(", Attach::Right) }
    else if k == 13 { (lit_words("close", "paren", true), ")", Attach::Left) }
    else if k == 14 { (lit_words("close", "parenthesis", true), ")", Attach::Left) }
    else if k == 15 { (lit_words("open", "quote", true), "\"", Attach::Right) }
    else if k == 16 { (lit_words("quote", "", false), "\"", Attach::Right) }
    else if k == 17 { (lit_words("close", "quote", true), "\"", Attach::Left) }
    else if k == 18 { (lit_words("unquote", "", false), "\"", Attach::Left) }
    else if k == 19 { (lit_words("new", "paragraph", true), "\n\n", Attach::Neither) }
    else { (lit_words("new", "line", true), "\n", Attach::Neither) };
    (phrase, chars_of(symbol), attach)
}

/// End of the leading run of non-alphanumeric characters from `i`.
pub open spec fn alnum_lead(w: Seq<char>, i: int) -> int
    decreases w.len() - i,
{
    if 0 <= i < w.len() && !alnum_char(w[i]) { alnum_lead(w, i + 1) } else { i }
}

/// Start of the trailing run of non-alphanumeric characters before `j`.
pub open spec fn alnum_trail(w: Seq<char>, j: int) -> int
    decreases j,
{
    if 0 < j <= w.len() && !alnum_char(w[j - 1]) { alnum_trail(w, j - 1) } else { j }
}

/// A token with non-alphanumeric characters trimmed from both ends.
pub open spec fn trim_non_alnum(w: Seq<char>) -> Seq<char> {
    let a = alnum_lead(w, 0);
    if a >= w.len() { seq![] } else { w.subrange(a, alnum_trail(w, w.len() as int)) }
}

pub proof fn lemma_alnum_bounds(w: Seq<char>, i: int)
    requires
        0 <= i <= w.len(),
    ensures
        i <= alnum_lead(w, i) <= w.len(),
        alnum_lead(w, i) < w.len() ==> alnum_char(w[alnum_lead(w, i)]),
    decreases w.len() - i,
{
    if i < w.len() && !alnum_char(w[i]) {
        lemma_alnum_bounds(w, i + 1);
    }
}

pub proof fn lemma_alnum_trail(w: Seq<char>, j: int, first: int)
    requires
        0 <= first < j <= w.len(),
        alnum_char(w[first]),
    ensures
        first < alnum_trail(w, j) <= j,
    decreases j,
{
    if !alnum_char(w[j - 1]) {
        lemma_alnum_trail(w, j - 1, first);
    }
}

/// Trims non-alphanumeric characters from both ends (`trim_matches(|c| !c.is_alphanumeric())`).
pub fn trim_non_alphanumeric(w: &[char]) -> (r: Vec<char>)
    ensures
        r@ == trim_non_alnum(w@),
{
    let n = w.len();
    let mut a: usize = 0;
    while a < n && !is_alphanumeric(w[a])
        invariant
            a <= n == w@.len(),
            alnum_lead(w@, a as int) == alnum_lead(w@, 0),
        decreases n - a,
    {
        a += 1;
    }
    proof { lemma_alnum_bounds(w@, 0); }
    if a >= n {
        return Vec::new();
    }
    let mut b: usize = n;
    while b > 0 && !is_alphanumeric(w[b - 1])
        invariant
            b <= n == w@.len(),
            alnum_trail(w@, b as int) == alnum_trail(w@, n as int),
        decreases b,
    {
        b -= 1;
    }
    proof { lemma_alnum_trail(w@, n as int, a as int); }
    let mut r = Vec::new();
    let mut k = a;
    while k < b
        invariant
            a <= k <= b <= n == w@.len(),
            r@ == w@.subrange(a as int, k as int),
        decreases b - k,
    {
        r.push(w[k]);
        k += 1;
        assert(w@.subrange(a as int, k as int) =~= w@.subrange(a as int, k - 1).push(w@[k - 1]));
    }
    r
}

/// The comparable core of a token: lowercased, without surrounding punctuation.
pub open spec fn command_core(w: Seq<char>) -> Seq<char> {
    str_lower(trim_non_alnum(w))
}

/// Command `k` is spoken at word `i`.
pub open spec fn phrase_at(ws: Seq<Seq<char>>, i: int, k: int) -> bool {
    let p = cmd_phrase(k);
    i + p.len() <= ws.len() && forall|j: int| 0 <= j < p.len() ==> command_core(#[trigger] ws[i + j]) == p[j]
}

/// The best command among the first `k` table entries at word `i`: the longest phrase wins,
/// and among equally long phrases the first entry.
pub open spec fn best_command(ws: Seq<Seq<char>>, i: int, k: int) -> Option<int>
    decreases k,
{
    if k <= 0 {
        None
    } else {
        let prior = best_command(ws, i, k - 1);
        if phrase_at(ws, i, k - 1) && (prior is None || cmd_phrase(k - 1).len() > cmd_phrase(prior->0).len()) {
            Some(k - 1)
        } else {
            prior
        }
    }
}

pub proof fn lemma_best_command(ws: Seq<Seq<char>>, i: int, k: int)
    ensures
        best_command(ws, i, k) matches Some(b) ==> 0 <= b < k && phrase_at(ws, i, b),
    decreases k,
{
    if k > 0 {
        lemma_best_command(ws, i, k - 1);
    }
}

/// Matches a command starting at `words[i]`.
fn match_command(words: &Vec<Vec<char>>, cores: &Vec<Vec<char>>, i: usize) -> (r: Option<usize>)
    requires
        i < words@.len(),
        cores@.len() == words@.len(),
        forall|j: int| 0 <= j < words@.len() ==> (#[trigger] cores@[j])@ == command_core(words@[j]@),
    ensures
        r is Some <==> best_command(views(words@), i as int, COMMAND_COUNT as int) is Some,
        r matches Some(k) ==> k == best_command(views(words@), i as int, COMMAND_COUNT as int)->0
            && k < COMMAND_COUNT,
{
    let ghost ws = views(words@);
    let mut best: Option<usize> = None;
    let mut best_n: usize = 0;
    let mut k: usize = 0;
    while k < COMMAND_COUNT
        invariant
            k <= COMMAND_COUNT,
            i < words@.len(),
            ws == views(words@),
            cores@.len() == words@.len(),
            forall|j: int| 0 <= j < words@.len() ==> (#[trigger] cores@[j])@ == command_core(words@[j]@),
            best is Some <==> best_command(ws, i as int, k as int) is Some,
            best matches Some(b) ==> b == best_command(ws, i as int, k as int)->0 && b < k
                && best_n == cmd_phrase(b as int).len(),
        decreases COMMAND_COUNT - k,
    {
        let (phrase, _symbol, _attach) = command(k);
        let n = phrase.len();
        let mut matched = false;
        if n <= words.len() - i {
            matched = true;
            assert(i + n <= usize::MAX);
            let mut j: usize = 0;
            while j < n
                invariant
                    j <= n == phrase@.len(),
                    i + n <= words@.len(),
                    i + n <= usize::MAX,
                    cores@.len() == words@.len(),
                    views(phrase@) == cmd_phrase(k as int),
                    forall|m: int| 0 <= m < words@.len() ==> (#[trigger] cores@[m])@ == command_core(words@[m]@),
                    matched ==> forall|m: int| 0 <= m < j ==> command_core(#[trigger] ws[i + m]) == cmd_phrase(k as int)[m],
                    !matched ==> !phrase_at(ws, i as int, k as int),
                    ws == views(words@),
                decreases n - j,
            {
                if matched && !crate::unicode::chars_eq(&cores[i + j], &phrase[j]) {
                    assert(ws[i + j] == words@[i + j]@);
                    assert(command_core(ws[i as int + j as int]) != cmd_phrase(k as int)[j as int]);
                    matched = false;
                } else if matched {
                    assert(ws[i + j] == words@[i + j]@);
                }
                j += 1;
            }
        }
        let better = matched && (best.is_none() || n > best_n);
        if better {
            best = Some(k);
            best_n = n;
        }
        k += 1;
    }
    best
}

/// The text rebuilt from word `i` on, with `needs_space` telling whether the next thing written
/// needs a space in front of it.
pub open spec fn punct_from(ws: Seq<Seq<char>>, i: int, needs_space: bool) -> Seq<char>
    decreases ws.len() - i,
{
    if i < 0 || i >= ws.len() {
        seq![]
    } else {
        match best_command(ws, i, COMMAND_COUNT as int) {
            Some(k) => {
                let a = cmd_attach(k);
                let n = cmd_phrase(k).len();
                (if a == Attach::Right && needs_space { seq![' '] } else { seq![] }) + cmd_symbol(k)
                    + if n >= 1 && i + n <= ws.len() { punct_from(ws, i + n, a == Attach::Left) } else { seq![] }
            },
            None => (if needs_space { seq![' '] } else { seq![] }) + ws[i] + punct_from(ws, i + 1, true),
        }
    }
}

/// Rewrites the English spoken punctuation commands in `text` as their symbols when the text
/// is known to be English; text in another or an unknown language comes back unchanged.
pub fn apply_spoken_punctuation(text: &str, language: &TextPipelineLanguage) -> (r: String)
    ensures
        r@ == if tag_is_english(language@) {
            punct_from(split_ws(text@), 0, false)
        } else {
            text@
        },
{
    if language.is_english() {
        apply_english_spoken_punctuation(text)
    } else {
        string_from(chars_of(text).as_slice())
    }
}

/// Rewrites spoken punctuation commands in `text` as their symbols. Runs of whitespace
/// collapse to single spaces because the pass rebuilds the string from its words.
pub fn apply_english_spoken_punctuation(text: &str) -> (r: String)
    ensures
        r@ == punct_from(split_ws(text@), 0, false),
{
    let chars = chars_of(text);
    let words = split_whitespace(&chars);
    let ghost ws = views(words@);
    let mut cores: Vec<Vec<char>> = Vec::new();
    let mut m: usize = 0;
    while m < words.len()
        invariant
            m <= words@.len(),
            cores@.len() == m,
            forall|j: int| 0 <= j < m ==> (#[trigger] cores@[j])@ == command_core(words@[j]@),
        decreases words@.len() - m,
    {
        let t = trim_non_alphanumeric(&words[m]);
        cores.push(lower_chars(&t));
        m += 1;
    }
    let mut out: Vec<char> = Vec::new();
    let mut needs_space = false;
    let mut i: usize = 0;
    while i < words.len()
        invariant
            i <= words@.len(),
            ws == views(words@),
            cores@.len() == words@.len(),
            forall|j: int| 0 <= j < words@.len() ==> (#[trigger] cores@[j])@ == command_core(words@[j]@),
            out@ + punct_from(ws, i as int, needs_space) == punct_from(ws, 0, false),
        decreases words@.len() - i,
    {
        let ghost before = out@;
        let ghost ns = needs_space;
        match match_command(&words, &cores, i) {
            Some(k) => {
                let (phrase, symbol, attach) = command(k);
                if attach == Attach::Right && needs_space {
                    out.push(' ');
                }
                extend_chars(&mut out, &symbol);
                needs_space = attach == Attach::Left;
                let consumed = phrase.len();
                proof { lemma_best_command(ws, i as int, COMMAND_COUNT as int); }
                assert(cmd_phrase(k as int).len() >= 1);
                assert(phrase_at(ws, i as int, k as int));
                assert(out@ =~= before + (if attach == Attach::Right && ns { seq![' '] } else { seq![] }) + cmd_symbol(k as int));
                i += consumed;
            },
            None => {
                if needs_space {
                    out.push(' ');
                }
                extend_chars(&mut out, &words[i]);
                assert(out@ =~= before + (if ns { seq![' '] } else { seq![] }) + ws[i as int]);
                needs_space = true;
                i += 1;
            },
        }
    }
    string_from(&out)
}

} // verus!

verus! {

// ---------------------------------------------------------------------------
// "semi colon" and "semicolon".
// ---------------------------------------------------------------------------

/// Where "semi" and "semicolon" stand in the command table: only entry 8 begins with
/// "semi" and only entry 7 with "semicolon", and neither is the second word of a phrase.
proof fn lemma_semicolon_entries(k: int)
    requires
        0 <= k < COMMAND_COUNT,
    ensures
        1 <= cmd_phrase(k).len() <= 2,
        k != 8 ==> cmd_phrase(k)[0] != "semi"@,
        k != 7 ==> cmd_phrase(k)[0] != "semicolon"@,
        cmd_phrase(k).len() == 2 ==> cmd_phrase(k)[1] != "semi"@ && cmd_phrase(k)[1] != "semicolon"@,
        k == 8 ==> cmd_phrase(k) == seq!["semi"@, "colon"@],
        k == 7 ==> cmd_phrase(k) == seq!["semicolon"@],
{
    reveal_strlit("close");
    reveal_strlit("colon");
    reveal_strlit("comma");
    reveal_strlit("dash");
    reveal_strlit("exclamation");
    reveal_strlit("full");
    reveal_strlit("hyphen");
    reveal_strlit("line");
    reveal_strlit("mark");
    reveal_strlit("new");
    reveal_strlit("open");
    reveal_strlit("paragraph");
    reveal_strlit("paren");
    reveal_strlit("parenthesis");
    reveal_strlit("period");
    reveal_strlit("point");
    reveal_strlit("question");
    reveal_strlit("quote");
    reveal_strlit("semi");
    reveal_strlit("semicolon");
    reveal_strlit("stop");
    reveal_strlit("unquote");
    if k == 0 {
        assert("question"@.len() != "semi"@.len());
        assert("question"@.len() != "semicolon"@.len());
        assert("mark"@[0] != "semi"@[0]);
        assert("mark"@.len() != "semicolon"@.len());
    }
    if k == 1 {
        assert("exclamation"@.len() != "semi"@.len());
        assert("exclamation"@.len() != "semicolon"@.len());
        assert("mark"@[0] != "semi"@[0]);
        assert("mark"@.len() != "semicolon"@.len());
    }
    if k == 2 {
        assert("exclamation"@.len() != "semi"@.len());
        assert("exclamation"@.len() != "semicolon"@.len());
        assert("point"@.len() != "semi"@.len());
        assert("point"@.len() != "semicolon"@.len());
    }
    if k == 3 {
        assert("full"@[0] != "semi"@[0]);
        assert("full"@.len() != "semicolon"@.len());
        assert("stop"@[1] != "semi"@[1]);
        assert("stop"@.len() != "semicolon"@.len());
    }
    if k == 4 {
        assert("period"@.len() != "semi"@.len());
        assert("period"@.len() != "semicolon"@.len());
    }
    if k == 5 {
        assert("comma"@.len() != "semi"@.len());
        assert("comma"@.len() != "semicolon"@.len());
    }
    if k == 6 {
        assert("colon"@.len() != "semi"@.len());
        assert("colon"@.len() != "semicolon"@.len());
    }
    if k == 7 {
        assert("semicolon"@.len() != "semi"@.len());
    }
    if k == 8 {
        assert("semi"@.len() != "semicolon"@.len());
        assert("colon"@.len() != "semi"@.len());
        assert("colon"@.len() != "semicolon"@.len());
    }
    if k == 9 {
        assert("hyphen"@.len() != "semi"@.len());
        assert("hyphen"@.len() != "semicolon"@.len());
    }
    if k == 10 {
        assert("dash"@[0] != "semi"@[0]);
        assert("dash"@.len() != "semicolon"@.len());
    }
    if k == 11 {
        assert("open"@[0] != "semi"@[0]);
        assert("open"@.len() != "semicolon"@.len());
        assert("paren"@.len() != "semi"@.len());
        assert("paren"@.len() != "semicolon"@.len());
    }
    if k == 12 {
        assert("open"@[0] != "semi"@[0]);
        assert("open"@.len() != "semicolon"@.len());
        assert("parenthesis"@.len() != "semi"@.len());
        assert("parenthesis"@.len() != "semicolon"@.len());
    }
    if k == 13 {
        assert("close"@.len() != "semi"@.len());
        assert("close"@.len() != "semicolon"@.len());
        assert("paren"@.len() != "semi"@.len());
        assert("paren"@.len() != "semicolon"@.len());
    }
    if k == 14 {
        assert("close"@.len() != "semi"@.len());
        assert("close"@.len() != "semicolon"@.len());
        assert("parenthesis"@.len() != "semi"@.len());
        assert("parenthesis"@.len() != "semicolon"@.len());
    }
    if k == 15 {
        assert("open"@[0] != "semi"@[0]);
        assert("open"@.len() != "semicolon"@.len());
        assert("quote"@.len() != "semi"@.len());
        assert("quote"@.len() != "semicolon"@.len());
    }
    if k == 16 {
        assert("quote"@.len() != "semi"@.len());
        assert("quote"@.len() != "semicolon"@.len());
    }
    if k == 17 {
        assert("close"@.len() != "semi"@.len());
        assert("close"@.len() != "semicolon"@.len());
        assert("quote"@.len() != "semi"@.len());
        assert("quote"@.len() != "semicolon"@.len());
    }
    if k == 18 {
        assert("unquote"@.len() != "semi"@.len());
        assert("unquote"@.len() != "semicolon"@.len());
    }
    if k == 19 {
        assert("new"@.len() != "semi"@.len());
        assert("new"@.len() != "semicolon"@.len());
        assert("paragraph"@.len() != "semi"@.len());
        assert("paragraph"@[0] != "semicolon"@[0]);
    }
    if k == 20 {
        assert("new"@.len() != "semi"@.len());
        assert("new"@.len() != "semicolon"@.len());
        assert("line"@[0] != "semi"@[0]);
        assert("line"@.len() != "semicolon"@.len());
    }
}
/// A command spoken at two positions with the same words ahead is the same best command.
proof fn lemma_best_same(ws1: Seq<Seq<char>>, i1: int, ws2: Seq<Seq<char>>, i2: int, k: int)
    requires
        forall|m: int| 0 <= m < k ==> phrase_at(ws1, i1, m) == phrase_at(ws2, i2, m),
    ensures
        best_command(ws1, i1, k) == best_command(ws2, i2, k),
    decreases k,
{
    if k > 0 {
        lemma_best_same(ws1, i1, ws2, i2, k - 1);
    }
}

/// When entry `k0` is the only phrase spoken at `i`, it is the best command.
proof fn lemma_best_unique(ws: Seq<Seq<char>>, i: int, k: int, k0: int)
    requires
        forall|m: int| 0 <= m < k ==> phrase_at(ws, i, m) == (m == k0),
    ensures
        best_command(ws, i, k) == if k > k0 && k0 >= 0 { Some(k0) } else { None::<int> },
    decreases k,
{
    if k > 0 {
        lemma_best_unique(ws, i, k - 1, k0);
    }
}

/// The rebuilt text from a position depends only on the words from there on.
proof fn lemma_punct_suffix(ws1: Seq<Seq<char>>, i1: int, ws2: Seq<Seq<char>>, i2: int, needs_space: bool)
    requires
        0 <= i1 <= ws1.len(),
        0 <= i2 <= ws2.len(),
        ws1.skip(i1) == ws2.skip(i2),
    ensures
        punct_from(ws1, i1, needs_space) == punct_from(ws2, i2, needs_space),
    decreases ws1.len() - i1,
{
    assert(ws1.len() - i1 == ws2.len() - i2) by {
        assert(ws1.skip(i1).len() == ws1.len() - i1);
        assert(ws2.skip(i2).len() == ws2.len() - i2);
    }
    if i1 < ws1.len() {
        assert forall|m: int| 0 <= m < COMMAND_COUNT implies phrase_at(ws1, i1, m) == phrase_at(ws2, i2, m) by {
            let p = cmd_phrase(m);
            if i1 + p.len() <= ws1.len() {
                assert forall|j: int| 0 <= j < p.len() implies command_core(#[trigger] ws1[i1 + j]) == command_core(
                    ws2[i2 + j],
                ) by {
                    assert(ws1.skip(i1)[j] == ws2.skip(i2)[j]);
                }
                if phrase_at(ws1, i1, m) {
                    assert forall|j: int| 0 <= j < p.len() implies command_core(#[trigger] ws2[i2 + j]) == p[j] by {
                        assert(ws1.skip(i1)[j] == ws2.skip(i2)[j]);
                        assert(command_core(ws1[i1 + j]) == p[j]);
                    }
                }
                if phrase_at(ws2, i2, m) {
                    assert forall|j: int| 0 <= j < p.len() implies command_core(#[trigger] ws1[i1 + j]) == p[j] by {
                        assert(ws1.skip(i1)[j] == ws2.skip(i2)[j]);
                        assert(command_core(ws2[i2 + j]) == p[j]);
                    }
                }
            }
        }
        lemma_best_same(ws1, i1, ws2, i2, COMMAND_COUNT as int);
        lemma_best_command(ws1, i1, COMMAND_COUNT as int);
        match best_command(ws1, i1, COMMAND_COUNT as int) {
            Some(k) => {
                let n = cmd_phrase(k).len() as int;
                if n >= 1 && i1 + n <= ws1.len() {
                    assert(ws1.skip(i1 + n) =~= ws1.skip(i1).skip(n));
                    assert(ws2.skip(i2 + n) =~= ws2.skip(i2).skip(n));
                    lemma_punct_suffix(ws1, i1 + n, ws2, i2 + n, cmd_attach(k) == Attach::Left);
                }
            },
            None => {
                assert(ws1.skip(i1)[0] == ws2.skip(i2)[0]);
                assert(ws1[i1] == ws2[i2]);
                assert(ws1.skip(i1 + 1) =~= ws1.skip(i1).skip(1));
                assert(ws2.skip(i2 + 1) =~= ws2.skip(i2).skip(1));
                lemma_punct_suffix(ws1, i1 + 1, ws2, i2 + 1, true);
            },
        }
    }
}

proof fn lemma_semi_colon_from(
    xs: Seq<Seq<char>>,
    a: Seq<char>,
    b: Seq<char>,
    c: Seq<char>,
    ys: Seq<Seq<char>>,
    i: int,
    needs_space: bool,
)
    requires
        command_core(a) == "semi"@,
        command_core(b) == "colon"@,
        command_core(c) == "semicolon"@,
        0 <= i <= xs.len(),
    ensures
        punct_from(xs + seq![a, b] + ys, i, needs_space) == punct_from(xs + seq![c] + ys, i, needs_space),
    decreases xs.len() - i,
{
    let ws1 = xs + seq![a, b] + ys;
    let ws2 = xs + seq![c] + ys;
    let n = xs.len() as int;
    assert(ws1[n] == a && ws1[n + 1] == b && ws2[n] == c);
    assert forall|j: int| 0 <= j < n implies ws1[j] == xs[j] && ws2[j] == xs[j] by {}
    if i == n {
        assert forall|m: int| 0 <= m < COMMAND_COUNT implies phrase_at(ws1, i, m) == (m == 8) by {
            lemma_semicolon_entries(m);
            if m == 8 {
                assert(forall|j: int| 0 <= j < 2 ==> command_core(#[trigger] ws1[i + j]) == cmd_phrase(m)[j]);
            } else {
                assert(command_core(ws1[i + 0]) != cmd_phrase(m)[0]);
            }
        }
        assert forall|m: int| 0 <= m < COMMAND_COUNT implies phrase_at(ws2, i, m) == (m == 7) by {
            lemma_semicolon_entries(m);
            if m == 7 {
                assert(forall|j: int| 0 <= j < 1 ==> command_core(#[trigger] ws2[i + j]) == cmd_phrase(m)[j]);
            } else {
                assert(command_core(ws2[i + 0]) != cmd_phrase(m)[0]);
            }
        }
        lemma_best_unique(ws1, i, COMMAND_COUNT as int, 8);
        lemma_best_unique(ws2, i, COMMAND_COUNT as int, 7);
        lemma_semicolon_entries(7);
        lemma_semicolon_entries(8);
        assert(ws1.skip(n + 2) =~= ys);
        assert(ws2.skip(n + 1) =~= ys);
        lemma_punct_suffix(ws1, n + 2, ws2, n + 1, true);
    } else {
        assert forall|m: int| 0 <= m < COMMAND_COUNT implies phrase_at(ws1, i, m) == phrase_at(ws2, i, m) by {
            lemma_semicolon_entries(m);
            let p = cmd_phrase(m);
            if p.len() == 2 && i + 1 == n {
                assert(command_core(ws1[i + 1]) != p[1]);
                assert(command_core(ws2[i + 1]) != p[1]);
            } else if p.len() == 2 {
                assert(ws1[i + 1] == ws2[i + 1]);
            }
            assert(ws1[i + 0] == ws2[i + 0]);
        }
        lemma_best_same(ws1, i, ws2, i, COMMAND_COUNT as int);
        lemma_best_command(ws1, i, COMMAND_COUNT as int);
        match best_command(ws1, i, COMMAND_COUNT as int) {
            Some(k) => {
                lemma_semicolon_entries(k);
                let p = cmd_phrase(k);
                if p.len() == 2 && i + 1 == n {
                    assert(command_core(ws1[i + 1]) != p[1]);
                    assert(!phrase_at(ws1, i, k));
                }
                lemma_semi_colon_from(xs, a, b, c, ys, i + p.len(), cmd_attach(k) == Attach::Left);
            },
            None => {
                lemma_semi_colon_from(xs, a, b, c, ys, i + 1, true);
            },
        }
    }
}

/// The two-word command "semi colon" is the command "semicolon": wherever it is spoken,
/// between any words, the rebuilt text is the same as with "semicolon" in its place, and
/// either one alone prints ";". Words are compared by their lowercased core, as the pass
/// compares them.
pub proof fn law_semi_colon_is_semicolon(
    xs: Seq<Seq<char>>,
    a: Seq<char>,
    b: Seq<char>,
    c: Seq<char>,
    ys: Seq<Seq<char>>,
)
    requires
        command_core(a) == "semi"@,
        command_core(b) == "colon"@,
        command_core(c) == "semicolon"@,
    ensures
        punct_from(xs + seq![a, b] + ys, 0, false) == punct_from(xs + seq![c] + ys, 0, false),
        punct_from(seq![a, b], 0, false) == ";"@,
        punct_from(seq![c], 0, false) == ";"@,
{
    lemma_semi_colon_from(xs, a, b, c, ys, 0, false);
    let e = Seq::<Seq<char>>::empty();
    lemma_semi_colon_from(e, a, b, c, e, 0, false);
    assert(e + seq![a, b] + e =~= seq![a, b]);
    assert(e + seq![c] + e =~= seq![c]);
    lemma_semicolon_at(seq![c], 0, false);
    assert(punct_from(seq![c], 1, true) == Seq::<char>::empty());
}

/// A word spoken as "semicolon" prints ";" and the text goes on after it.
proof fn lemma_semicolon_at(ws: Seq<Seq<char>>, i: int, needs_space: bool)
    requires
        0 <= i < ws.len(),
        command_core(ws[i]) == "semicolon"@,
    ensures
        punct_from(ws, i, needs_space) == ";"@ + punct_from(ws, i + 1, true),
{
    assert forall|m: int| 0 <= m < COMMAND_COUNT implies phrase_at(ws, i, m) == (m == 7) by {
        lemma_semicolon_entries(m);
        if m == 7 {
            assert forall|j: int| 0 <= j < cmd_phrase(m).len() implies command_core(#[trigger] ws[i + j])
                == cmd_phrase(m)[j] by {
                assert(j == 0);
            }
        } else {
            assert(command_core(ws[i + 0]) != cmd_phrase(m)[0]);
        }
    }
    lemma_best_unique(ws, i, COMMAND_COUNT as int, 7);
    lemma_semicolon_entries(7);
    assert(cmd_symbol(7) == ";"@);
}

/// Two transcripts that differ only in saying "semi colon" where the other says "semicolon"
/// come out of English spoken punctuation the same.
pub proof fn law_semi_colon_text(t1: Seq<char>, t2: Seq<char>, xs: Seq<Seq<char>>, a: Seq<char>, b: Seq<char>, c: Seq<char>, ys: Seq<Seq<char>>)
    requires
        split_ws(t1) == xs + seq![a, b] + ys,
        split_ws(t2) == xs + seq![c] + ys,
        command_core(a) == "semi"@,
        command_core(b) == "colon"@,
        command_core(c) == "semicolon"@,
    ensures
        punct_from(split_ws(t1), 0, false) == punct_from(split_ws(t2), 0, false),
{
    law_semi_colon_is_semicolon(xs, a, b, c, ys);
}

} // verus!

verus! {

// ---------------------------------------------------------------------------
// What each spoken command prints, and which side it closes up to.
// ---------------------------------------------------------------------------

/// The spoken punctuation commands by entry `n`, with the symbol each one prints and the
/// side it closes up to: comma, period, full stop, question mark and the two exclamations,
/// colon and semicolon (one word or two) close up to the word before; hyphen and dash to
/// both words; the opening parentheses and quotes to the word after; the closing ones to the
/// word before; new line and new paragraph to neither.
pub open spec fn spoken_command(n: int) -> (Seq<Seq<char>>, Seq<char>, Attach) {
    if n == 0 { (seq!["comma"@], ","@, Attach::Left) }
    else if n == 1 { (seq!["period"@], "."@, Attach::Left) }
    else if n == 2 { (seq!["full"@, "stop"@], "."@, Attach::Left) }
    else if n == 3 { (seq!["question"@, "mark"@], "?"@, Attach::Left) }
    else if n == 4 { (seq!["exclamation"@, "mark"@], "!"@, Attach::Left) }
    else if n == 5 { (seq!["exclamation"@, "point"@], "!"@, Attach::Left) }
    else if n == 6 { (seq!["colon"@], ":"@, Attach::Left) }
    else if n == 7 { (seq!["semicolon"@], ";"@, Attach::Left) }
    else if n == 8 { (seq!["semi"@, "colon"@], ";"@, Attach::Left) }
    else if n == 9 { (seq!["hyphen"@], "-"@, Attach::Both) }
    else if n == 10 { (seq!["dash"@], "-"@, Attach::Both) }
    else if n == 11 { (seq!["open"@, "paren"@], "("@, Attach::Right) }
    else if n == 12 { (seq!["open"@, "parenthesis"@], "("@, Attach::Right) }
    else if n == 13 { (seq!["close"@, "paren"@], ")"@, Attach::Left) }
    else if n == 14 { (seq!["close"@, "parenthesis"@], ")"@, Attach::Left) }
    else if n == 15 { (seq!["open"@, "quote"@], "\""@, Attach::Right) }
    else if n == 16 { (seq!["quote"@], "\""@, Attach::Right) }
    else if n == 17 { (seq!["close"@, "quote"@], "\""@, Attach::Left) }
    else if n == 18 { (seq!["unquote"@], "\""@, Attach::Left) }
    else if n == 19 { (seq!["new"@, "line"@], "\n"@, Attach::Neither) }
    else if n == 20 { (seq!["new"@, "paragraph"@], "\n\n"@, Attach::Neither) }
    else { (seq![], seq![], Attach::Neither) }
}

/// Whether a word is not the first word of any spoken command.
pub open spec fn plain_word(w: Seq<char>) -> bool {
    forall|n: int| 0 <= n < COMMAND_COUNT ==> #[trigger] spoken_command(n).0[0] != command_core(w)
}

proof fn lemma_plain_word_at(ws: Seq<Seq<char>>, i: int)
    requires
        0 <= i < ws.len(),
        plain_word(ws[i]),
    ensures
        best_command(ws, i, COMMAND_COUNT as int) is None,
{
    assert(spoken_command(0).0[0] != command_core(ws[i]));
    assert(spoken_command(1).0[0] != command_core(ws[i]));
    assert(spoken_command(2).0[0] != command_core(ws[i]));
    assert(spoken_command(3).0[0] != command_core(ws[i]));
    assert(spoken_command(4).0[0] != command_core(ws[i]));
    assert(spoken_command(5).0[0] != command_core(ws[i]));
    assert(spoken_command(6).0[0] != command_core(ws[i]));
    assert(spoken_command(7).0[0] != command_core(ws[i]));
    assert(spoken_command(8).0[0] != command_core(ws[i]));
    assert(spoken_command(9).0[0] != command_core(ws[i]));
    assert(spoken_command(10).0[0] != command_core(ws[i]));
    assert(spoken_command(11).0[0] != command_core(ws[i]));
    assert(spoken_command(12).0[0] != command_core(ws[i]));
    assert(spoken_command(13).0[0] != command_core(ws[i]));
    assert(spoken_command(14).0[0] != command_core(ws[i]));
    assert(spoken_command(15).0[0] != command_core(ws[i]));
    assert(spoken_command(16).0[0] != command_core(ws[i]));
    assert(spoken_command(17).0[0] != command_core(ws[i]));
    assert(spoken_command(18).0[0] != command_core(ws[i]));
    assert(spoken_command(19).0[0] != command_core(ws[i]));
    assert(spoken_command(20).0[0] != command_core(ws[i]));
    assert forall|m: int| 0 <= m < COMMAND_COUNT implies !phrase_at(ws, i, m) by {
        if m == 0 { assert(command_core(ws[i + 0]) != cmd_phrase(m)[0]); }
        if m == 1 { assert(command_core(ws[i + 0]) != cmd_phrase(m)[0]); }
        if m == 2 { assert(command_core(ws[i + 0]) != cmd_phrase(m)[0]); }
        if m == 3 { assert(command_core(ws[i + 0]) != cmd_phrase(m)[0]); }
        if m == 4 { assert(command_core(ws[i + 0]) != cmd_phrase(m)[0]); }
        if m == 5 { assert(command_core(ws[i + 0]) != cmd_phrase(m)[0]); }
        if m == 6 { assert(command_core(ws[i + 0]) != cmd_phrase(m)[0]); }
        if m == 7 { assert(command_core(ws[i + 0]) != cmd_phrase(m)[0]); }
        if m == 8 { assert(command_core(ws[i + 0]) != cmd_phrase(m)[0]); }
        if m == 9 { assert(command_core(ws[i + 0]) != cmd_phrase(m)[0]); }
        if m == 10 { assert(command_core(ws[i + 0]) != cmd_phrase(m)[0]); }
        if m == 11 { assert(command_core(ws[i + 0]) != cmd_phrase(m)[0]); }
        if m == 12 { assert(command_core(ws[i + 0]) != cmd_phrase(m)[0]); }
        if m == 13 { assert(command_core(ws[i + 0]) != cmd_phrase(m)[0]); }
        if m == 14 { assert(command_core(ws[i + 0]) != cmd_phrase(m)[0]); }
        if m == 15 { assert(command_core(ws[i + 0]) != cmd_phrase(m)[0]); }
        if m == 16 { assert(command_core(ws[i + 0]) != cmd_phrase(m)[0]); }
        if m == 17 { assert(command_core(ws[i + 0]) != cmd_phrase(m)[0]); }
        if m == 18 { assert(command_core(ws[i + 0]) != cmd_phrase(m)[0]); }
        if m == 19 { assert(command_core(ws[i + 0]) != cmd_phrase(m)[0]); }
        if m == 20 { assert(command_core(ws[i + 0]) != cmd_phrase(m)[0]); }
    }
    lemma_best_unique(ws, i, COMMAND_COUNT as int, -1);
}

proof fn lemma_only_command_0(ws: Seq<Seq<char>>, i: int)
    requires
        0 <= i,
        i + 1 <= ws.len(),
        command_core(ws[i + 0]) == "comma"@,
    ensures
        forall|m: int| 0 <= m < COMMAND_COUNT ==> phrase_at(ws, i, m) == (m == 5),
{
    reveal_strlit("close");
    reveal_strlit("colon");
    reveal_strlit("comma");
    reveal_strlit("dash");
    reveal_strlit("exclamation");
    reveal_strlit("full");
    reveal_strlit("hyphen");
    reveal_strlit("line");
    reveal_strlit("mark");
    reveal_strlit("new");
    reveal_strlit("open");
    reveal_strlit("paragraph");
    reveal_strlit("paren");
    reveal_strlit("parenthesis");
    reveal_strlit("period");
    reveal_strlit("point");
    reveal_strlit("question");
    reveal_strlit("quote");
    reveal_strlit("semi");
    reveal_strlit("semicolon");
    reveal_strlit("stop");
    reveal_strlit("unquote");
    assert forall|m: int| 0 <= m < COMMAND_COUNT implies phrase_at(ws, i, m) == (m == 5) by {
        if m == 0 {
            assert("comma"@.len() != "question"@.len());
            assert(cmd_phrase(m)[0] == "question"@);
            assert(command_core(ws[i + 0]) != cmd_phrase(m)[0]);
        }
        if m == 1 {
            assert("comma"@.len() != "exclamation"@.len());
            assert(cmd_phrase(m)[0] == "exclamation"@);
            assert(command_core(ws[i + 0]) != cmd_phrase(m)[0]);
        }
        if m == 2 {
            assert("comma"@.len() != "exclamation"@.len());
            assert(cmd_phrase(m)[0] == "exclamation"@);
            assert(command_core(ws[i + 0]) != cmd_phrase(m)[0]);
        }
        if m == 3 {
            assert("comma"@.len() != "full"@.len());
            assert(cmd_phrase(m)[0] == "full"@);
            assert(command_core(ws[i + 0]) != cmd_phrase(m)[0]);
        }
        if m == 4 {
            assert("comma"@.len() != "period"@.len());
            assert(cmd_phrase(m)[0] == "period"@);
            assert(command_core(ws[i + 0]) != cmd_phrase(m)[0]);
        }
        if m == 5 {
            assert forall|j: int| 0 <= j < cmd_phrase(m).len() implies command_core(#[trigger] ws[i + j]) == cmd_phrase(m)[j] by {
                if j == 0 { assert(ws[i + j] == ws[i + 0]); }
            }
        }
        if m == 6 {
            assert("comma"@[2] != "colon"@[2]);
            assert(cmd_phrase(m)[0] == "colon"@);
            assert(command_core(ws[i + 0]) != cmd_phrase(m)[0]);
        }
        if m == 7 {
            assert("comma"@.len() != "semicolon"@.len());
            assert(cmd_phrase(m)[0] == "semicolon"@);
            assert(command_core(ws[i + 0]) != cmd_phrase(m)[0]);
        }
        if m == 8 {
            assert("comma"@.len() != "semi"@.len());
            assert(cmd_phrase(m)[0] == "semi"@);
            assert(command_core(ws[i + 0]) != cmd_phrase(m)[0]);
        }
        if m == 9 {
            assert("comma"@.len() != "hyphen"@.len());
            assert(cmd_phrase(m)[0] == "hyphen"@);
            assert(command_core(ws[i + 0]) != cmd_phrase(m)[0]);
        }
        if m == 10 {
            assert("comma"@.len() != "dash"@.len());
            assert(cmd_phrase(m)[0] == "dash"@);
            assert(command_core(ws[i + 0]) != cmd_phrase(m)[0]);
        }
        if m == 11 {
            assert("comma"@.len() != "open"@.len());
            assert(cmd_phrase(m)[0] == "open"@);
            assert(command_core(ws[i + 0]) != cmd_phrase(m)[0]);
        }
        if m == 12 {
            assert("comma"@.len() != "open"@.len());
            assert(cmd_phrase(m)[0] == "open"@);
            assert(command_core(ws[i + 0]) != cmd_phrase(m)[0]);
        }
        if m == 13 {
            assert("comma"@[1] != "close"@[1]);
            assert(cmd_phrase(m)[0] == "close"@);
            assert(command_core(ws[i + 0]) != cmd_phrase(m)[0]);
        }
        if m == 14 {
            assert("comma"@[1] != "close"@[1]);
            assert(cmd_phrase(m)[0] == "close"@);
            assert(command_core(ws[i + 0]) != cmd_phrase(m)[0]);
        }
        if m == 15 {
            assert("comma"@.len() != "open"@.len());
            assert(cmd_phrase(m)[0] == "open"@);
            assert(command_core(ws[i + 0]) != cmd_phrase(m)[0]);
        }
        if m == 16 {
            assert("comma"@[0] != "quote"@[0]);
            assert(cmd_phrase(m)[0] == "quote"@);
            assert(command_core(ws[i + 0]) != cmd_phrase(m)[0]);
        }
        if m == 17 {
            assert("comma"@[1] != "close"@[1]);
            assert(cmd_phrase(m)[0] == "close"@);
            assert(command_core(ws[i + 0]) != cmd_phrase(m)[0]);
        }
        if m == 18 {
            assert("comma"@.len() != "unquote"@.len());
            assert(cmd_phrase(m)[0] == "unquote"@);
            assert(command_core(ws[i + 0]) != cmd_phrase(m)[0]);
        }
        if m == 19 {
            assert("comma"@.len() != "new"@.len());
            assert(cmd_phrase(m)[0] == "new"@);
            assert(command_core(ws[i + 0]) != cmd_phrase(m)[0]);
        }
        if m == 20 {
            assert("comma"@.len() != "new"@.len());
            assert(cmd_phrase(m)[0] == "new"@);
            assert(command_core(ws[i + 0]) != cmd_phrase(m)[0]);
        }
    }
}

proof fn lemma_only_command_1(ws: Seq<Seq<char>>, i: int)
    requires
        0 <= i,
        i + 1 <= ws.len(),
        command_core(ws[i + 0]) == "period"@,
    ensures
        forall|m: int| 0 <= m < COMMAND_COUNT ==> phrase_at(ws, i, m) == (m == 4),
{
    reveal_strlit("close");
    reveal_strlit("colon");
    reveal_strlit("comma");
    reveal_strlit("dash");
    reveal_strlit("exclamation");
    reveal_strlit("full");
    reveal_strlit("hyphen");
    reveal_strlit("line");
    reveal_strlit("mark");
    reveal_strlit("new");
    reveal_strlit("open");
    reveal_strlit("paragraph");
    reveal_strlit("paren");
    reveal_strlit("parenthesis");
    reveal_strlit("period");
    reveal_strlit("point");
    reveal_strlit("question");
    reveal_strlit("quote");
    reveal_strlit("semi");
    reveal_strlit("semicolon");
    reveal_strlit("stop");
    reveal_strlit("unquote");
    assert forall|m: int| 0 <= m < COMMAND_COUNT implies phrase_at(ws, i, m) == (m == 4) by {
        if m == 0 {
            assert("period"@.len() != "question"@.len());
            assert(cmd_phrase(m)[0] == "question"@);
            assert(command_core(ws[i + 0]) != cmd_phrase(m)[0]);
        }
        if m == 1 {
            assert("period"@.len() != "exclamation"@.len());
            assert(cmd_phrase(m)[0] == "exclamation"@);
            assert(command_core(ws[i + 0]) != cmd_phrase(m)[0]);
        }
        if m == 2 {
            assert("period"@.len() != "exclamation"@.len());
            assert(cmd_phrase(m)[0] == "exclamation"@);
            assert(command_core(ws[i + 0]) != cmd_phrase(m)[0]);
        }
        if m == 3 {
            assert("period"@.len() != "full"@.len());
            assert(cmd_phrase(m)[0] == "full"@);
            assert(command_core(ws[i + 0]) != cmd_phrase(m)[0]);
        }
        if m == 4 {
            assert forall|j: int| 0 <= j < cmd_phrase(m).len() implies command_core(#[trigger] ws[i + j]) == cmd_phrase(m)[j] by {
                if j == 0 { assert(ws[i + j] == ws[i + 0]); }
            }
        }
        if m == 5 {
            assert("period"@.len() != "comma"@.len());
            assert(cmd_phrase(m)[0] == "comma"@);
            assert(command_core(ws[i + 0]) != cmd_phrase(m)[0]);
        }
        if m == 6 {
            assert("period"@.len() != "colon"@.len());
            assert(cmd_phrase(m)[0] == "colon"@);
            assert(command_core(ws[i + 0]) != cmd_phrase(m)[0]);
        }
        if m == 7 {
            assert("period"@.len() != "semicolon"@.len());
            assert(cmd_phrase(m)[0] == "semicolon"@);
            assert(command_core(ws[i + 0]) != cmd_phrase(m)[0]);
        }
        if m == 8 {
            assert("period"@.len() != "semi"@.len());
            assert(cmd_phrase(m)[0] == "semi"@);
            assert(command_core(ws[i + 0]) != cmd_phrase(m)[0]);
        }
        if m == 9 {
            assert("period"@[0] != "hyphen"@[0]);
            assert(cmd_phrase(m)[0] == "hyphen"@);
            assert(command_core(ws[i + 0]) != cmd_phrase(m)[0]);
        }
        if m == 10 {
            assert("period"@.len() != "dash"@.len());
            assert(cmd_phrase(m)[0] == "dash"@);
            assert(command_core(ws[i + 0]) != cmd_phrase(m)[0]);
        }
        if m == 11 {
            assert("period"@.len() != "open"@.len());
            assert(cmd_phrase(m)[0] == "open"@);
            assert(command_core(ws[i + 0]) != cmd_phrase(m)[0]);
        }
        if m == 12 {
            assert("period"@.len() != "open"@.len());
            assert(cmd_phrase(m)[0] == "open"@);
            assert(command_core(ws[i + 0]) != cmd_phrase(m)[0]);
        }
        if m == 13 {
            assert("period"@.len() != "close"@.len());
            assert(cmd_phrase(m)[0] == "close"@);
            assert(command_core(ws[i + 0]) != cmd_phrase(m)[0]);
        }
        if m == 14 {
            assert("period"@.len() != "close"@.len());
            assert(cmd_phrase(m)[0] == "close"@);
            assert(command_core(ws[i + 0]) != cmd_phrase(m)[0]);
        }
        if m == 15 {
            assert("period"@.len() != "open"@.len());
            assert(cmd_phrase(m)[0] == "open"@);
            assert(command_core(ws[i + 0]) != cmd_phrase(m)[0]);
        }
        if m == 16 {
            assert("period"@.len() != "quote"@.len());
            assert(cmd_phrase(m)[0] == "quote"@);
            assert(command_core(ws[i + 0]) != cmd_phrase(m)[0]);
        }
        if m == 17 {
            assert("period"@.len() != "close"@.len());
            assert(cmd_phrase(m)[0] == "close"@);
            assert(command_core(ws[i + 0]) != cmd_phrase(m)[0]);
        }
        if m == 18 {
            assert("period"@.len() != "unquote"@.len());
            assert(cmd_phrase(m)[0] == "unquote"@);
            assert(command_core(ws[i + 0]) != cmd_phrase(m)[0]);
        }
        if m == 19 {
            assert("period"@.len() != "new"@.len());
            assert(cmd_phrase(m)[0] == "new"@);
            assert(command_core(ws[i + 0]) != cmd_phrase(m)[0]);
        }
        if m == 20 {
            assert("period"@.len() != "new"@.len());
            assert(cmd_phrase(m)[0] == "new"@);
            assert(command_core(ws[i + 0]) != cmd_phrase(m)[0]);
        }
    }
}

proof fn lemma_only_command_2(ws: Seq<Seq<char>>, i: int)
    requires
        0 <= i,
        i + 2 <= ws.len(),
        command_core(ws[i + 0]) == "full"@,
        command_core(ws[i + 1]) == "stop"@,
    ensures
        forall|m: int| 0 <= m < COMMAND_COUNT ==> phrase_at(ws, i, m) == (m == 3),
{
    reveal_strlit("close");
    reveal_strlit("colon");
    reveal_strlit("comma");
    reveal_strlit("dash");
    reveal_strlit("exclamation");
    reveal_strlit("full");
    reveal_strlit("hyphen");
    reveal_strlit("line");
    reveal_strlit("mark");
    reveal_strlit("new");
    reveal_strlit("open");
    reveal_strlit("paragraph");
    reveal_strlit("paren");
    reveal_strlit("parenthesis");
    reveal_strlit("period");
    reveal_strlit("point");
    reveal_strlit("question");
    reveal_strlit("quote");
    reveal_strlit("semi");
    reveal_strlit("semicolon");
    reveal_strlit("stop");
    reveal_strlit("unquote");
    assert forall|m: int| 0 <= m < COMMAND_COUNT implies phrase_at(ws, i, m) == (m == 3) by {
        if m == 0 {
            assert("full"@.len() != "question"@.len());
            assert(cmd_phrase(m)[0] == "question"@);
            assert(command_core(ws[i + 0]) != cmd_phrase(m)[0]);
        }
        if m == 1 {
            assert("full"@.len() != "exclamation"@.len());
            assert(cmd_phrase(m)[0] == "exclamation"@);
            assert(command_core(ws[i + 0]) != cmd_phrase(m)[0]);
        }
        if m == 2 {
            assert("full"@.len() != "exclamation"@.len());
            assert(cmd_phrase(m)[0] == "exclamation"@);
            assert(command_core(ws[i + 0]) != cmd_phrase(m)[0]);
        }
        if m == 3 {
            assert forall|j: int| 0 <= j < cmd_phrase(m).len() implies command_core(#[trigger] ws[i + j]) == cmd_phrase(m)[j] by {
                if j == 0 { assert(ws[i + j] == ws[i + 0]); }
                if j == 1 { assert(ws[i + j] == ws[i + 1]); }
            }
        }
        if m == 4 {
            assert("full"@.len() != "period"@.len());
            assert(cmd_phrase(m)[0] == "period"@);
            assert(command_core(ws[i + 0]) != cmd_phrase(m)[0]);
        }
        if m == 5 {
            assert("full"@.len() != "comma"@.len());
            assert(cmd_phrase(m)[0] == "comma"@);
            assert(command_core(ws[i + 0]) != cmd_phrase(m)[0]);
        }
        if m == 6 {
            assert("full"@.len() != "colon"@.len());
            assert(cmd_phrase(m)[0] == "colon"@);
            assert(command_core(ws[i + 0]) != cmd_phrase(m)[0]);
        }
        if m == 7 {
            assert("full"@.len() != "semicolon"@.len());
            assert(cmd_phrase(m)[0] == "semicolon"@);
            assert(command_core(ws[i + 0]) != cmd_phrase(m)[0]);
        }
        if m == 8 {
            assert("full"@[0] != "semi"@[0]);
            assert(cmd_phrase(m)[0] == "semi"@);
            assert(command_core(ws[i + 0]) != cmd_phrase(m)[0]);
        }
        if m == 9 {
            assert("full"@.len() != "hyphen"@.len());
            assert(cmd_phrase(m)[0] == "hyphen"@);
            assert(command_core(ws[i + 0]) != cmd_phrase(m)[0]);
        }
        if m == 10 {
            assert("full"@[0] != "dash"@[0]);
            assert(cmd_phrase(m)[0] == "dash"@);
            assert(command_core(ws[i + 0]) != cmd_phrase(m)[0]);
        }
        if m == 11 {
            assert("full"@[0] != "open"@[0]);
            assert(cmd_phrase(m)[0] == "open"@);
            assert(command_core(ws[i + 0]) != cmd_phrase(m)[0]);
        }
        if m == 12 {
            assert("full"@[0] != "open"@[0]);
            assert(cmd_phrase(m)[0] == "open"@);
            assert(command_core(ws[i + 0]) != cmd_phrase(m)[0]);
        }
        if m == 13 {
            assert("full"@.len() != "close"@.len());
            assert(cmd_phrase(m)[0] == "close"@);
            assert(command_core(ws[i + 0]) != cmd_phrase(m)[0]);
        }
        if m == 14 {
            assert("full"@.len() != "close"@.len());
            assert(cmd_phrase(m)[0] == "close"@);
            assert(command_core(ws[i + 0]) != cmd_phrase(m)[0]);
        }
        if m == 15 {
            assert("full"@[0] != "open"@[0]);
            assert(cmd_phrase(m)[0] == "open"@);
            assert(command_core(ws[i + 0]) != cmd_phrase(m)[0]);
        }
        if m == 16 {
            assert("full"@.len() != "quote"@.len());
            assert(cmd_phrase(m)[0] == "quote"@);
            assert(command_core(ws[i + 0]) != cmd_phrase(m)[0]);
        }
        if m == 17 {
            assert("full"@.len() != "close"@.len());
            assert(cmd_phrase(m)[0] == "close"@);
            assert(command_core(ws[i + 0]) != cmd_phrase(m)[0]);
        }
        if m == 18 {
            assert("full"@.len() != "unquote"@.len());
            assert(cmd_phrase(m)[0] == "unquote"@);
            assert(command_core(ws[i + 0]) != cmd_phrase(m)[0]);
        }
        if m == 19 {
            assert("full"@.len() != "new"@.len());
            assert(cmd_phrase(m)[0] == "new"@);
            assert(command_core(ws[i + 0]) != cmd_phrase(m)[0]);
        }
        if m == 20 {
            assert("full"@.len() != "new"@.len());
            assert(cmd_phrase(m)[0] == "new"@);
            assert(command_core(ws[i + 0]) != cmd_phrase(m)[0]);
        }
    }
}

proof fn lemma_only_command_3(ws: Seq<Seq<char>>, i: int)
    requires
        0 <= i,
        i + 2 <= ws.len(),
        command_core(ws[i + 0]) == "question"@,
        command_core(ws[i + 1]) == "mark"@,
    ensures
        forall|m: int| 0 <= m < COMMAND_COUNT ==> phrase_at(ws, i, m) == (m == 0),
{
    reveal_strlit("close");
    reveal_strlit("colon");
    reveal_strlit("comma");
    reveal_strlit("dash");
    reveal_strlit("exclamation");
    reveal_strlit("full");
    reveal_strlit("hyphen");
    reveal_strlit("line");
    reveal_strlit("mark");
    reveal_strlit("new");
    reveal_strlit("open");
    reveal_strlit("paragraph");
    reveal_strlit("paren");
    reveal_strlit("parenthesis");
    reveal_strlit("period");
    reveal_strlit("point");
    reveal_strlit("question");
    reveal_strlit("quote");
    reveal_strlit("semi");
    reveal_strlit("semicolon");
    reveal_strlit("stop");
    reveal_strlit("unquote");
    assert forall|m: int| 0 <= m < COMMAND_COUNT implies phrase_at(ws, i, m) == (m == 0) by {
        if m == 0 {
            assert forall|j: int| 0 <= j < cmd_phrase(m).len() implies command_core(#[trigger] ws[i + j]) == cmd_phrase(m)[j] by {
                if j == 0 { assert(ws[i + j] == ws[i + 0]); }
                if j == 1 { assert(ws[i + j] == ws[i + 1]); }
            }
        }
        if m == 1 {
            assert("question"@.len() != "exclamation"@.len());
            assert(cmd_phrase(m)[0] == "exclamation"@);
            assert(command_core(ws[i + 0]) != cmd_phrase(m)[0]);
        }
        if m == 2 {
            assert("question"@.len() != "exclamation"@.len());
            assert(cmd_phrase(m)[0] == "exclamation"@);
            assert(command_core(ws[i + 0]) != cmd_phrase(m)[0]);
        }
        if m == 3 {
            assert("question"@.len() != "full"@.len());
            assert(cmd_phrase(m)[0] == "full"@);
            assert(command_core(ws[i + 0]) != cmd_phrase(m)[0]);
        }
        if m == 4 {
            assert("question"@.len() != "period"@.len());
            assert(cmd_phrase(m)[0] == "period"@);
            assert(command_core(ws[i + 0]) != cmd_phrase(m)[0]);
        }
        if m == 5 {
            assert("question"@.len() != "comma"@.len());
            assert(cmd_phrase(m)[0] == "comma"@);
            assert(command_core(ws[i + 0]) != cmd_phrase(m)[0]);
        }
        if m == 6 {
            assert("question"@.len() != "colon"@.len());
            assert(cmd_phrase(m)[0] == "colon"@);
            assert(command_core(ws[i + 0]) != cmd_phrase(m)[0]);
        }
        if m == 7 {
            assert("question"@.len() != "semicolon"@.len());
            assert(cmd_phrase(m)[0] == "semicolon"@);
            assert(command_core(ws[i + 0]) != cmd_phrase(m)[0]);
        }
        if m == 8 {
            assert("question"@.len() != "semi"@.len());
            assert(cmd_phrase(m)[0] == "semi"@);
            assert(command_core(ws[i + 0]) != cmd_phrase(m)[0]);
        }
        if m == 9 {
            assert("question"@.len() != "hyphen"@.len());
            assert(cmd_phrase(m)[0] == "hyphen"@);
            assert(command_core(ws[i + 0]) != cmd_phrase(m)[0]);
        }
        if m == 10 {
            assert("question"@.len() != "dash"@.len());
            assert(cmd_phrase(m)[0] == "dash"@);
            assert(command_core(ws[i + 0]) != cmd_phrase(m)[0]);
        }
        if m == 11 {
            assert("question"@.len() != "open"@.len());
            assert(cmd_phrase(m)[0] == "open"@);
            assert(command_core(ws[i + 0]) != cmd_phrase(m)[0]);
        }
        if m == 12 {
            assert("question"@.len() != "open"@.len());
            assert(cmd_phrase(m)[0] == "open"@);
            assert(command_core(ws[i + 0]) != cmd_phrase(m)[0]);
        }
        if m == 13 {
            assert("question"@.len() != "close"@.len());
            assert(cmd_phrase(m)[0] == "close"@);
            assert(command_core(ws[i + 0]) != cmd_phrase(m)[0]);
        }
        if m == 14 {
            assert("question"@.len() != "close"@.len());
            assert(cmd_phrase(m)[0] == "close"@);
            assert(command_core(ws[i + 0]) != cmd_phrase(m)[0]);
        }
        if m == 15 {
            assert("question"@.len() != "open"@.len());
            assert(cmd_phrase(m)[0] == "open"@);
            assert(command_core(ws[i + 0]) != cmd_phrase(m)[0]);
        }
        if m == 16 {
            assert("question"@.len() != "quote"@.len());
            assert(cmd_phrase(m)[0] == "quote"@);
            assert(command_core(ws[i + 0]) != cmd_phrase(m)[0]);
        }
        if m == 17 {
            assert("question"@.len() != "close"@.len());
            assert(cmd_phrase(m)[0] == "close"@);
            assert(command_core(ws[i + 0]) != cmd_phrase(m)[0]);
        }
        if m == 18 {
            assert("question"@.len() != "unquote"@.len());
            assert(cmd_phrase(m)[0] == "unquote"@);
            assert(command_core(ws[i + 0]) != cmd_phrase(m)[0]);
        }
        if m == 19 {
            assert("question"@.len() != "new"@.len());
            assert(cmd_phrase(m)[0] == "new"@);
            assert(command_core(ws[i + 0]) != cmd_phrase(m)[0]);
        }
        if m == 20 {
            assert("question"@.len() != "new"@.len());
            assert(cmd_phrase(m)[0] == "new"@);
            assert(command_core(ws[i + 0]) != cmd_phrase(m)[0]);
        }
    }
}

proof fn lemma_only_command_4(ws: Seq<Seq<char>>, i: int)
    requires
        0 <= i,
        i + 2 <= ws.len(),
        command_core(ws[i + 0]) == "exclamation"@,
        command_core(ws[i + 1]) == "mark"@,
    ensures
        forall|m: int| 0 <= m < COMMAND_COUNT ==> phrase_at(ws, i, m) == (m == 1),
{
    reveal_strlit("close");
    reveal_strlit("colon");
    reveal_strlit("comma");
    reveal_strlit("dash");
    reveal_strlit("exclamation");
    reveal_strlit("full");
    reveal_strlit("hyphen");
    reveal_strlit("line");
    reveal_strlit("mark");
    reveal_strlit("new");
    reveal_strlit("open");
    reveal_strlit("paragraph");
    reveal_strlit("paren");
    reveal_strlit("parenthesis");
    reveal_strlit("period");
    reveal_strlit("point");
    reveal_strlit("question");
    reveal_strlit("quote");
    reveal_strlit("semi");
    reveal_strlit("semicolon");
    reveal_strlit("stop");
    reveal_strlit("unquote");
    assert forall|m: int| 0 <= m < COMMAND_COUNT implies phrase_at(ws, i, m) == (m == 1) by {
        if m == 0 {
            assert("exclamation"@.len() != "question"@.len());
            assert(cmd_phrase(m)[0] == "question"@);
            assert(command_core(ws[i + 0]) != cmd_phrase(m)[0]);
        }
        if m == 1 {
            assert forall|j: int| 0 <= j < cmd_phrase(m).len() implies command_core(#[trigger] ws[i + j]) == cmd_phrase(m)[j] by {
                if j == 0 { assert(ws[i + j] == ws[i + 0]); }
                if j == 1 { assert(ws[i + j] == ws[i + 1]); }
            }
        }
        if m == 2 {
            assert("mark"@.len() != "point"@.len());
            assert(cmd_phrase(m)[1] == "point"@);
            assert(command_core(ws[i + 1]) != cmd_phrase(m)[1]);
        }
        if m == 3 {
            assert("exclamation"@.len() != "full"@.len());
            assert(cmd_phrase(m)[0] == "full"@);
            assert(command_core(ws[i + 0]) != cmd_phrase(m)[0]);
        }
        if m == 4 {
            assert("exclamation"@.len() != "period"@.len());
            assert(cmd_phrase(m)[0] == "period"@);
            assert(command_core(ws[i + 0]) != cmd_phrase(m)[0]);
        }
        if m == 5 {
            assert("exclamation"@.len() != "comma"@.len());
            assert(cmd_phrase(m)[0] == "comma"@);
            assert(command_core(ws[i + 0]) != cmd_phrase(m)[0]);
        }
        if m == 6 {
            assert("exclamation"@.len() != "colon"@.len());
            assert(cmd_phrase(m)[0] == "colon"@);
            assert(command_core(ws[i + 0]) != cmd_phrase(m)[0]);
        }
        if m == 7 {
            assert("exclamation"@.len() != "semicolon"@.len());
            assert(cmd_phrase(m)[0] == "semicolon"@);
            assert(command_core(ws[i + 0]) != cmd_phrase(m)[0]);
        }
        if m == 8 {
            assert("exclamation"@.len() != "semi"@.len());
            assert(cmd_phrase(m)[0] == "semi"@);
            assert(command_core(ws[i + 0]) != cmd_phrase(m)[0]);
        }
        if m == 9 {
            assert("exclamation"@.len() != "hyphen"@.len());
            assert(cmd_phrase(m)[0] == "hyphen"@);
            assert(command_core(ws[i + 0]) != cmd_phrase(m)[0]);
        }
        if m == 10 {
            assert("exclamation"@.len() != "dash"@.len());
            assert(cmd_phrase(m)[0] == "dash"@);
            assert(command_core(ws[i + 0]) != cmd_phrase(m)[0]);
        }
        if m == 11 {
            assert("exclamation"@.len() != "open"@.len());
            assert(cmd_phrase(m)[0] == "open"@);
            assert(command_core(ws[i + 0]) != cmd_phrase(m)[0]);
        }
        if m == 12 {
            assert("exclamation"@.len() != "open"@.len());
            assert(cmd_phrase(m)[0] == "open"@);
            assert(command_core(ws[i + 0]) != cmd_phrase(m)[0]);
        }
        if m == 13 {
            assert("exclamation"@.len() != "close"@.len());
            assert(cmd_phrase(m)[0] == "close"@);
            assert(command_core(ws[i + 0]) != cmd_phrase(m)[0]);
        }
        if m == 14 {
            assert("exclamation"@.len() != "close"@.len());
            assert(cmd_phrase(m)[0] == "close"@);
            assert(command_core(ws[i + 0]) != cmd_phrase(m)[0]);
        }
        if m == 15 {
            assert("exclamation"@.len() != "open"@.len());
            assert(cmd_phrase(m)[0] == "open"@);
            assert(command_core(ws[i + 0]) != cmd_phrase(m)[0]);
        }
        if m == 16 {
            assert("exclamation"@.len() != "quote"@.len());
            assert(cmd_phrase(m)[0] == "quote"@);
            assert(command_core(ws[i + 0]) != cmd_phrase(m)[0]);
        }
        if m == 17 {
            assert("exclamation"@.len() != "close"@.len());
            assert(cmd_phrase(m)[0] == "close"@);
            assert(command_core(ws[i + 0]) != cmd_phrase(m)[0]);
        }
        if m == 18 {
            assert("exclamation"@.len() != "unquote"@.len());
            assert(cmd_phrase(m)[0] == "unquote"@);
            assert(command_core(ws[i + 0]) != cmd_phrase(m)[0]);
        }
        if m == 19 {
            assert("exclamation"@.len() != "new"@.len());
            assert(cmd_phrase(m)[0] == "new"@);
            assert(command_core(ws[i + 0]) != cmd_phrase(m)[0]);
        }
        if m == 20 {
            assert("exclamation"@.len() != "new"@.len());
            assert(cmd_phrase(m)[0] == "new"@);
            assert(command_core(ws[i + 0]) != cmd_phrase(m)[0]);
        }
    }
}

proof fn lemma_only_command_5(ws: Seq<Seq<char>>, i: int)
    requires
        0 <= i,
        i + 2 <= ws.len(),
        command_core(ws[i + 0]) == "exclamation"@,
        command_core(ws[i + 1]) == "point"@,
    ensures
        forall|m: int| 0 <= m < COMMAND_COUNT ==> phrase_at(ws, i, m) == (m == 2),
{
    reveal_strlit("close");
    reveal_strlit("colon");
    reveal_strlit("comma");
    reveal_strlit("dash");
    reveal_strlit("exclamation");
    reveal_strlit("full");
    reveal_strlit("hyphen");
    reveal_strlit("line");
    reveal_strlit("mark");
    reveal_strlit("new");
    reveal_strlit("open");
    reveal_strlit("paragraph");
    reveal_strlit("paren");
    reveal_strlit("parenthesis");
    reveal_strlit("period");
    reveal_strlit("point");
    reveal_strlit("question");
    reveal_strlit("quote");
    reveal_strlit("semi");
    reveal_strlit("semicolon");
    reveal_strlit("stop");
    reveal_strlit("unquote");
    assert forall|m: int| 0 <= m < COMMAND_COUNT implies phrase_at(ws, i, m) == (m == 2) by {
        if m == 0 {
            assert("exclamation"@.len() != "question"@.len());
            assert(cmd_phrase(m)[0] == "question"@);
            assert(command_core(ws[i + 0]) != cmd_phrase(m)[0]);
        }
        if m == 1 {
            assert("point"@.len() != "mark"@.len());
            assert(cmd_phrase(m)[1] == "mark"@);
            assert(command_core(ws[i + 1]) != cmd_phrase(m)[1]);
        }
        if m == 2 {
            assert forall|j: int| 0 <= j < cmd_phrase(m).len() implies command_core(#[trigger] ws[i + j]) == cmd_phrase(m)[j] by {
                if j == 0 { assert(ws[i + j] == ws[i + 0]); }
                if j == 1 { assert(ws[i + j] == ws[i + 1]); }
            }
        }
        if m == 3 {
            assert("exclamation"@.len() != "full"@.len());
            assert(cmd_phrase(m)[0] == "full"@);
            assert(command_core(ws[i + 0]) != cmd_phrase(m)[0]);
        }
        if m == 4 {
            assert("exclamation"@.len() != "period"@.len());
            assert(cmd_phrase(m)[0] == "period"@);
            assert(command_core(ws[i + 0]) != cmd_phrase(m)[0]);
        }
        if m == 5 {
            assert("exclamation"@.len() != "comma"@.len());
            assert(cmd_phrase(m)[0] == "comma"@);
            assert(command_core(ws[i + 0]) != cmd_phrase(m)[0]);
        }
        if m == 6 {
            assert("exclamation"@.len() != "colon"@.len());
            assert(cmd_phrase(m)[0] == "colon"@);
            assert(command_core(ws[i + 0]) != cmd_phrase(m)[0]);
        }
        if m == 7 {
            assert("exclamation"@.len() != "semicolon"@.len());
            assert(cmd_phrase(m)[0] == "semicolon"@);
            assert(command_core(ws[i + 0]) != cmd_phrase(m)[0]);
        }
        if m == 8 {
            assert("exclamation"@.len() != "semi"@.len());
            assert(cmd_phrase(m)[0] == "semi"@);
            assert(command_core(ws[i + 0]) != cmd_phrase(m)[0]);
        }
        if m == 9 {
            assert("exclamation"@.len() != "hyphen"@.len());
            assert(cmd_phrase(m)[0] == "hyphen"@);
            assert(command_core(ws[i + 0]) != cmd_phrase(m)[0]);
        }
        if m == 10 {
            assert("exclamation"@.len() != "dash"@.len());
            assert(cmd_phrase(m)[0] == "dash"@);
            assert(command_core(ws[i + 0]) != cmd_phrase(m)[0]);
        }
        if m == 11 {
            assert("exclamation"@.len() != "open"@.len());
            assert(cmd_phrase(m)[0] == "open"@);
            assert(command_core(ws[i + 0]) != cmd_phrase(m)[0]);
        }
        if m == 12 {
            assert("exclamation"@.len() != "open"@.len());
            assert(cmd_phrase(m)[0] == "open"@);
            assert(command_core(ws[i + 0]) != cmd_phrase(m)[0]);
        }
        if m == 13 {
            assert("exclamation"@.len() != "close"@.len());
            assert(cmd_phrase(m)[0] == "close"@);
            assert(command_core(ws[i + 0]) != cmd_phrase(m)[0]);
        }
        if m == 14 {
            assert("exclamation"@.len() != "close"@.len());
            assert(cmd_phrase(m)[0] == "close"@);
            assert(command_core(ws[i + 0]) != cmd_phrase(m)[0]);
        }
        if m == 15 {
            assert("exclamation"@.len() != "open"@.len());
            assert(cmd_phrase(m)[0] == "open"@);
            assert(command_core(ws[i + 0]) != cmd_phrase(m)[0]);
        }
        if m == 16 {
            assert("exclamation"@.len() != "quote"@.len());
            assert(cmd_phrase(m)[0] == "quote"@);
            assert(command_core(ws[i + 0]) != cmd_phrase(m)[0]);
        }
        if m == 17 {
            assert("exclamation"@.len() != "close"@.len());
            assert(cmd_phrase(m)[0] == "close"@);
            assert(command_core(ws[i + 0]) != cmd_phrase(m)[0]);
        }
        if m == 18 {
            assert("exclamation"@.len() != "unquote"@.len());
            assert(cmd_phrase(m)[0] == "unquote"@);
            assert(command_core(ws[i + 0]) != cmd_phrase(m)[0]);
        }
        if m == 19 {
            assert("exclamation"@.len() != "new"@.len());
            assert(cmd_phrase(m)[0] == "new"@);
            assert(command_core(ws[i + 0]) != cmd_phrase(m)[0]);
        }
        if m == 20 {
            assert("exclamation"@.len() != "new"@.len());
            assert(cmd_phrase(m)[0] == "new"@);
            assert(command_core(ws[i + 0]) != cmd_phrase(m)[0]);
        }
    }
}

proof fn lemma_only_command_6(ws: Seq<Seq<char>>, i: int)
    requires
        0 <= i,
        i + 1 <= ws.len(),
        command_core(ws[i + 0]) == "colon"@,
    ensures
        forall|m: int| 0 <= m < COMMAND_COUNT ==> phrase_at(ws, i, m) == (m == 6),
{
    reveal_strlit("close");
    reveal_strlit("colon");
    reveal_strlit("comma");
    reveal_strlit("dash");
    reveal_strlit("exclamation");
    reveal_strlit("full");
    reveal_strlit("hyphen");
    reveal_strlit("line");
    reveal_strlit("mark");
    reveal_strlit("new");
    reveal_strlit("open");
    reveal_strlit("paragraph");
    reveal_strlit("paren");
    reveal_strlit("parenthesis");
    reveal_strlit("period");
    reveal_strlit("point");
    reveal_strlit("question");
    reveal_strlit("quote");
    reveal_strlit("semi");
    reveal_strlit("semicolon");
    reveal_strlit("stop");
    reveal_strlit("unquote");
    assert forall|m: int| 0 <= m < COMMAND_COUNT implies phrase_at(ws, i, m) == (m == 6) by {
        if m == 0 {
            assert("colon"@.len() != "question"@.len());
            assert(cmd_phrase(m)[0] == "question"@);
            assert(command_core(ws[i + 0]) != cmd_phrase(m)[0]);
        }
        if m == 1 {
            assert("colon"@.len() != "exclamation"@.len());
            assert(cmd_phrase(m)[0] == "exclamation"@);
            assert(command_core(ws[i + 0]) != cmd_phrase(m)[0]);
        }
        if m == 2 {
            assert("colon"@.len() != "exclamation"@.len());
            assert(cmd_phrase(m)[0] == "exclamation"@);
            assert(command_core(ws[i + 0]) != cmd_phrase(m)[0]);
        }
        if m == 3 {
            assert("colon"@.len() != "full"@.len());
            assert(cmd_phrase(m)[0] == "full"@);
            assert(command_core(ws[i + 0]) != cmd_phrase(m)[0]);
        }
        if m == 4 {
            assert("colon"@.len() != "period"@.len());
            assert(cmd_phrase(m)[0] == "period"@);
            assert(command_core(ws[i + 0]) != cmd_phrase(m)[0]);
        }
        if m == 5 {
            assert("colon"@[2] != "comma"@[2]);
            assert(cmd_phrase(m)[0] == "comma"@);
            assert(command_core(ws[i + 0]) != cmd_phrase(m)[0]);
        }
        if m == 6 {
            assert forall|j: int| 0 <= j < cmd_phrase(m).len() implies command_core(#[trigger] ws[i + j]) == cmd_phrase(m)[j] by {
                if j == 0 { assert(ws[i + j] == ws[i + 0]); }
            }
        }
        if m == 7 {
            assert("colon"@.len() != "semicolon"@.len());
            assert(cmd_phrase(m)[0] == "semicolon"@);
            assert(command_core(ws[i + 0]) != cmd_phrase(m)[0]);
        }
        if m == 8 {
            assert("colon"@.len() != "semi"@.len());
            assert(cmd_phrase(m)[0] == "semi"@);
            assert(command_core(ws[i + 0]) != cmd_phrase(m)[0]);
        }
        if m == 9 {
            assert("colon"@.len() != "hyphen"@.len());
            assert(cmd_phrase(m)[0] == "hyphen"@);
            assert(command_core(ws[i + 0]) != cmd_phrase(m)[0]);
        }
        if m == 10 {
            assert("colon"@.len() != "dash"@.len());
            assert(cmd_phrase(m)[0] == "dash"@);
            assert(command_core(ws[i + 0]) != cmd_phrase(m)[0]);
        }
        if m == 11 {
            assert("colon"@.len() != "open"@.len());
            assert(cmd_phrase(m)[0] == "open"@);
            assert(command_core(ws[i + 0]) != cmd_phrase(m)[0]);
        }
        if m == 12 {
            assert("colon"@.len() != "open"@.len());
            assert(cmd_phrase(m)[0] == "open"@);
            assert(command_core(ws[i + 0]) != cmd_phrase(m)[0]);
        }
        if m == 13 {
            assert("colon"@[1] != "close"@[1]);
            assert(cmd_phrase(m)[0] == "close"@);
            assert(command_core(ws[i + 0]) != cmd_phrase(m)[0]);
        }
        if m == 14 {
            assert("colon"@[1] != "close"@[1]);
            assert(cmd_phrase(m)[0] == "close"@);
            assert(command_core(ws[i + 0]) != cmd_phrase(m)[0]);
        }
        if m == 15 {
            assert("colon"@.len() != "open"@.len());
            assert(cmd_phrase(m)[0] == "open"@);
            assert(command_core(ws[i + 0]) != cmd_phrase(m)[0]);
        }
        if m == 16 {
            assert("colon"@[0] != "quote"@[0]);
            assert(cmd_phrase(m)[0] == "quote"@);
            assert(command_core(ws[i + 0]) != cmd_phrase(m)[0]);
        }
        if m == 17 {
            assert("colon"@[1] != "close"@[1]);
            assert(cmd_phrase(m)[0] == "close"@);
            assert(command_core(ws[i + 0]) != cmd_phrase(m)[0]);
        }
        if m == 18 {
            assert("colon"@.len() != "unquote"@.len());
            assert(cmd_phrase(m)[0] == "unquote"@);
            assert(command_core(ws[i + 0]) != cmd_phrase(m)[0]);
        }
        if m == 19 {
            assert("colon"@.len() != "new"@.len());
            assert(cmd_phrase(m)[0] == "new"@);
            assert(command_core(ws[i + 0]) != cmd_phrase(m)[0]);
        }
        if m == 20 {
            assert("colon"@.len() != "new"@.len());
            assert(cmd_phrase(m)[0] == "new"@);
            assert(command_core(ws[i + 0]) != cmd_phrase(m)[0]);
        }
    }
}

proof fn lemma_only_command_7(ws: Seq<Seq<char>>, i: int)
    requires
        0 <= i,
        i + 1 <= ws.len(),
        command_core(ws[i + 0]) == "semicolon"@,
    ensures
        forall|m: int| 0 <= m < COMMAND_COUNT ==> phrase_at(ws, i, m) == (m == 7),
{
    reveal_strlit("close");
    reveal_strlit("colon");
    reveal_strlit("comma");
    reveal_strlit("dash");
    reveal_strlit("exclamation");
    reveal_strlit("full");
    reveal_strlit("hyphen");
    reveal_strlit("line");
    reveal_strlit("mark");
    reveal_strlit("new");
    reveal_strlit("open");
    reveal_strlit("paragraph");
    reveal_strlit("paren");
    reveal_strlit("parenthesis");
    reveal_strlit("period");
    reveal_strlit("point");
    reveal_strlit("question");
    reveal_strlit("quote");
    reveal_strlit("semi");
    reveal_strlit("semicolon");
    reveal_strlit("stop");
    reveal_strlit("unquote");
    assert forall|m: int| 0 <= m < COMMAND_COUNT implies phrase_at(ws, i, m) == (m == 7) by {
        if m == 0 {
            assert("semicolon"@.len() != "question"@.len());
            assert(cmd_phrase(m)[0] == "question"@);
            assert(command_core(ws[i + 0]) != cmd_phrase(m)[0]);
        }
        if m == 1 {
            assert("semicolon"@.len() != "exclamation"@.len());
            assert(cmd_phrase(m)[0] == "exclamation"@);
            assert(command_core(ws[i + 0]) != cmd_phrase(m)[0]);
        }
        if m == 2 {
            assert("semicolon"@.len() != "exclamation"@.len());
            assert(cmd_phrase(m)[0] == "exclamation"@);
            assert(command_core(ws[i + 0]) != cmd_phrase(m)[0]);
        }
        if m == 3 {
            assert("semicolon"@.len() != "full"@.len());
            assert(cmd_phrase(m)[0] == "full"@);
            assert(command_core(ws[i + 0]) != cmd_phrase(m)[0]);
        }
        if m == 4 {
            assert("semicolon"@.len() != "period"@.len());
            assert(cmd_phrase(m)[0] == "period"@);
            assert(command_core(ws[i + 0]) != cmd_phrase(m)[0]);
        }
        if m == 5 {
            assert("semicolon"@.len() != "comma"@.len());
            assert(cmd_phrase(m)[0] == "comma"@);
            assert(command_core(ws[i + 0]) != cmd_phrase(m)[0]);
        }
        if m == 6 {
            assert("semicolon"@.len() != "colon"@.len());
            assert(cmd_phrase(m)[0] == "colon"@);
            assert(command_core(ws[i + 0]) != cmd_phrase(m)[0]);
        }
        if m == 7 {
            assert forall|j: int| 0 <= j < cmd_phrase(m).len() implies command_core(#[trigger] ws[i + j]) == cmd_phrase(m)[j] by {
                if j == 0 { assert(ws[i + j] == ws[i + 0]); }
            }
        }
        if m == 8 {
            assert("semicolon"@.len() != "semi"@.len());
            assert(cmd_phrase(m)[0] == "semi"@);
            assert(command_core(ws[i + 0]) != cmd_phrase(m)[0]);
        }
        if m == 9 {
            assert("semicolon"@.len() != "hyphen"@.len());
            assert(cmd_phrase(m)[0] == "hyphen"@);
            assert(command_core(ws[i + 0]) != cmd_phrase(m)[0]);
        }
        if m == 10 {
            assert("semicolon"@.len() != "dash"@.len());
            assert(cmd_phrase(m)[0] == "dash"@);
            assert(command_core(ws[i + 0]) != cmd_phrase(m)[0]);
        }
        if m == 11 {
            assert("semicolon"@.len() != "open"@.len());
            assert(cmd_phrase(m)[0] == "open"@);
            assert(command_core(ws[i + 0]) != cmd_phrase(m)[0]);
        }
        if m == 12 {
            assert("semicolon"@.len() != "open"@.len());
            assert(cmd_phrase(m)[0] == "open"@);
            assert(command_core(ws[i + 0]) != cmd_phrase(m)[0]);
        }
        if m == 13 {
            assert("semicolon"@.len() != "close"@.len());
            assert(cmd_phrase(m)[0] == "close"@);
            assert(command_core(ws[i + 0]) != cmd_phrase(m)[0]);
        }
        if m == 14 {
            assert("semicolon"@.len() != "close"@.len());
            assert(cmd_phrase(m)[0] == "close"@);
            assert(command_core(ws[i + 0]) != cmd_phrase(m)[0]);
        }
        if m == 15 {
            assert("semicolon"@.len() != "open"@.len());
            assert(cmd_phrase(m)[0] == "open"@);
            assert(command_core(ws[i + 0]) != cmd_phrase(m)[0]);
        }
        if m == 16 {
            assert("semicolon"@.len() != "quote"@.len());
            assert(cmd_phrase(m)[0] == "quote"@);
            assert(command_core(ws[i + 0]) != cmd_phrase(m)[0]);
        }
        if m == 17 {
            assert("semicolon"@.len() != "close"@.len());
            assert(cmd_phrase(m)[0] == "close"@);
            assert(command_core(ws[i + 0]) != cmd_phrase(m)[0]);
        }
        if m == 18 {
            assert("semicolon"@.len() != "unquote"@.len());
            assert(cmd_phrase(m)[0] == "unquote"@);
            assert(command_core(ws[i + 0]) != cmd_phrase(m)[0]);
        }
        if m == 19 {
            assert("semicolon"@.len() != "new"@.len());
            assert(cmd_phrase(m)[0] == "new"@);
            assert(command_core(ws[i + 0]) != cmd_phrase(m)[0]);
        }
        if m == 20 {
            assert("semicolon"@.len() != "new"@.len());
            assert(cmd_phrase(m)[0] == "new"@);
            assert(command_core(ws[i + 0]) != cmd_phrase(m)[0]);
        }
    }
}

proof fn lemma_only_command_8(ws: Seq<Seq<char>>, i: int)
    requires
        0 <= i,
        i + 2 <= ws.len(),
        command_core(ws[i + 0]) == "semi"@,
        command_core(ws[i + 1]) == "colon"@,
    ensures
        forall|m: int| 0 <= m < COMMAND_COUNT ==> phrase_at(ws, i, m) == (m == 8),
{
    reveal_strlit("close");
    reveal_strlit("colon");
    reveal_strlit("comma");
    reveal_strlit("dash");
    reveal_strlit("exclamation");
    reveal_strlit("full");
    reveal_strlit("hyphen");
    reveal_strlit("line");
    reveal_strlit("mark");
    reveal_strlit("new");
    reveal_strlit("open");
    reveal_strlit("paragraph");
    reveal_strlit("paren");
    reveal_strlit("parenthesis");
    reveal_strlit("period");
    reveal_strlit("point");
    reveal_strlit("question");
    reveal_strlit("quote");
    reveal_strlit("semi");
    reveal_strlit("semicolon");
    reveal_strlit("stop");
    reveal_strlit("unquote");
    assert forall|m: int| 0 <= m < COMMAND_COUNT implies phrase_at(ws, i, m) == (m == 8) by {
        if m == 0 {
            assert("semi"@.len() != "question"@.len());
            assert(cmd_phrase(m)[0] == "question"@);
            assert(command_core(ws[i + 0]) != cmd_phrase(m)[0]);
        }
        if m == 1 {
            assert("semi"@.len() != "exclamation"@.len());
            assert(cmd_phrase(m)[0] == "exclamation"@);
            assert(command_core(ws[i + 0]) != cmd_phrase(m)[0]);
        }
        if m == 2 {
            assert("semi"@.len() != "exclamation"@.len());
            assert(cmd_phrase(m)[0] == "exclamation"@);
            assert(command_core(ws[i + 0]) != cmd_phrase(m)[0]);
        }
        if m == 3 {
            assert("semi"@[0] != "full"@[0]);
            assert(cmd_phrase(m)[0] == "full"@);
            assert(command_core(ws[i + 0]) != cmd_phrase(m)[0]);
        }
        if m == 4 {
            assert("semi"@.len() != "period"@.len());
            assert(cmd_phrase(m)[0] == "period"@);
            assert(command_core(ws[i + 0]) != cmd_phrase(m)[0]);
        }
        if m == 5 {
            assert("semi"@.len() != "comma"@.len());
            assert(cmd_phrase(m)[0] == "comma"@);
            assert(command_core(ws[i + 0]) != cmd_phrase(m)[0]);
        }
        if m == 6 {
            assert("semi"@.len() != "colon"@.len());
            assert(cmd_phrase(m)[0] == "colon"@);
            assert(command_core(ws[i + 0]) != cmd_phrase(m)[0]);
        }
        if m == 7 {
            assert("semi"@.len() != "semicolon"@.len());
            assert(cmd_phrase(m)[0] == "semicolon"@);
            assert(command_core(ws[i + 0]) != cmd_phrase(m)[0]);
        }
        if m == 8 {
            assert forall|j: int| 0 <= j < cmd_phrase(m).len() implies command_core(#[trigger] ws[i + j]) == cmd_phrase(m)[j] by {
                if j == 0 { assert(ws[i + j] == ws[i + 0]); }
                if j == 1 { assert(ws[i + j] == ws[i + 1]); }
            }
        }
        if m == 9 {
            assert("semi"@.len() != "hyphen"@.len());
            assert(cmd_phrase(m)[0] == "hyphen"@);
            assert(command_core(ws[i + 0]) != cmd_phrase(m)[0]);
        }
        if m == 10 {
            assert("semi"@[0] != "dash"@[0]);
            assert(cmd_phrase(m)[0] == "dash"@);
            assert(command_core(ws[i + 0]) != cmd_phrase(m)[0]);
        }
        if m == 11 {
            assert("semi"@[0] != "open"@[0]);
            assert(cmd_phrase(m)[0] == "open"@);
            assert(command_core(ws[i + 0]) != cmd_phrase(m)[0]);
        }
        if m == 12 {
            assert("semi"@[0] != "open"@[0]);
            assert(cmd_phrase(m)[0] == "open"@);
            assert(command_core(ws[i + 0]) != cmd_phrase(m)[0]);
        }
        if m == 13 {
            assert("semi"@.len() != "close"@.len());
            assert(cmd_phrase(m)[0] == "close"@);
            assert(command_core(ws[i + 0]) != cmd_phrase(m)[0]);
        }
        if m == 14 {
            assert("semi"@.len() != "close"@.len());
            assert(cmd_phrase(m)[0] == "close"@);
            assert(command_core(ws[i + 0]) != cmd_phrase(m)[0]);
        }
        if m == 15 {
            assert("semi"@[0] != "open"@[0]);
            assert(cmd_phrase(m)[0] == "open"@);
            assert(command_core(ws[i + 0]) != cmd_phrase(m)[0]);
        }
        if m == 16 {
            assert("semi"@.len() != "quote"@.len());
            assert(cmd_phrase(m)[0] == "quote"@);
            assert(command_core(ws[i + 0]) != cmd_phrase(m)[0]);
        }
        if m == 17 {
            assert("semi"@.len() != "close"@.len());
            assert(cmd_phrase(m)[0] == "close"@);
            assert(command_core(ws[i + 0]) != cmd_phrase(m)[0]);
        }
        if m == 18 {
            assert("semi"@.len() != "unquote"@.len());
            assert(cmd_phrase(m)[0] == "unquote"@);
            assert(command_core(ws[i + 0]) != cmd_phrase(m)[0]);
        }
        if m == 19 {
            assert("semi"@.len() != "new"@.len());
            assert(cmd_phrase(m)[0] == "new"@);
            assert(command_core(ws[i + 0]) != cmd_phrase(m)[0]);
        }
        if m == 20 {
            assert("semi"@.len() != "new"@.len());
            assert(cmd_phrase(m)[0] == "new"@);
            assert(command_core(ws[i + 0]) != cmd_phrase(m)[0]);
        }
    }
}

proof fn lemma_only_command_9(ws: Seq<Seq<char>>, i: int)
    requires
        0 <= i,
        i + 1 <= ws.len(),
        command_core(ws[i + 0]) == "hyphen"@,
    ensures
        forall|m: int| 0 <= m < COMMAND_COUNT ==> phrase_at(ws, i, m) == (m == 9),
{
    reveal_strlit("close");
    reveal_strlit("colon");
    reveal_strlit("comma");
    reveal_strlit("dash");
    reveal_strlit("exclamation");
    reveal_strlit("full");
    reveal_strlit("hyphen");
    reveal_strlit("line");
    reveal_strlit("mark");
    reveal_strlit("new");
    reveal_strlit("open");
    reveal_strlit("paragraph");
    reveal_strlit("paren");
    reveal_strlit("parenthesis");
    reveal_strlit("period");
    reveal_strlit("point");
    reveal_strlit("question");
    reveal_strlit("quote");
    reveal_strlit("semi");
    reveal_strlit("semicolon");
    reveal_strlit("stop");
    reveal_strlit("unquote");
    assert forall|m: int| 0 <= m < COMMAND_COUNT implies phrase_at(ws, i, m) == (m == 9) by {
        if m == 0 {
            assert("hyphen"@.len() != "question"@.len());
            assert(cmd_phrase(m)[0] == "question"@);
            assert(command_core(ws[i + 0]) != cmd_phrase(m)[0]);
        }
        if m == 1 {
            assert("hyphen"@.len() != "exclamation"@.len());
            assert(cmd_phrase(m)[0] == "exclamation"@);
            assert(command_core(ws[i + 0]) != cmd_phrase(m)[0]);
        }
        if m == 2 {
            assert("hyphen"@.len() != "exclamation"@.len());
            assert(cmd_phrase(m)[0] == "exclamation"@);
            assert(command_core(ws[i + 0]) != cmd_phrase(m)[0]);
        }
        if m == 3 {
            assert("hyphen"@.len() != "full"@.len());
            assert(cmd_phrase(m)[0] == "full"@);
            assert(command_core(ws[i + 0]) != cmd_phrase(m)[0]);
        }
        if m == 4 {
            assert("hyphen"@[0] != "period"@[0]);
            assert(cmd_phrase(m)[0] == "period"@);
            assert(command_core(ws[i + 0]) != cmd_phrase(m)[0]);
        }
        if m == 5 {
            assert("hyphen"@.len() != "comma"@.len());
            assert(cmd_phrase(m)[0] == "comma"@);
            assert(command_core(ws[i + 0]) != cmd_phrase(m)[0]);
        }
        if m == 6 {
            assert("hyphen"@.len() != "colon"@.len());
            assert(cmd_phrase(m)[0] == "colon"@);
            assert(command_core(ws[i + 0]) != cmd_phrase(m)[0]);
        }
        if m == 7 {
            assert("hyphen"@.len() != "semicolon"@.len());
            assert(cmd_phrase(m)[0] == "semicolon"@);
            assert(command_core(ws[i + 0]) != cmd_phrase(m)[0]);
        }
        if m == 8 {
            assert("hyphen"@.len() != "semi"@.len());
            assert(cmd_phrase(m)[0] == "semi"@);
            assert(command_core(ws[i + 0]) != cmd_phrase(m)[0]);
        }
        if m == 9 {
            assert forall|j: int| 0 <= j < cmd_phrase(m).len() implies command_core(#[trigger] ws[i + j]) == cmd_phrase(m)[j] by {
                if j == 0 { assert(ws[i + j] == ws[i + 0]); }
            }
        }
        if m == 10 {
            assert("hyphen"@.len() != "dash"@.len());
            assert(cmd_phrase(m)[0] == "dash"@);
            assert(command_core(ws[i + 0]) != cmd_phrase(m)[0]);
        }
        if m == 11 {
            assert("hyphen"@.len() != "open"@.len());
            assert(cmd_phrase(m)[0] == "open"@);
            assert(command_core(ws[i + 0]) != cmd_phrase(m)[0]);
        }
        if m == 12 {
            assert("hyphen"@.len() != "open"@.len());
            assert(cmd_phrase(m)[0] == "open"@);
            assert(command_core(ws[i + 0]) != cmd_phrase(m)[0]);
        }
        if m == 13 {
            assert("hyphen"@.len() != "close"@.len());
            assert(cmd_phrase(m)[0] == "close"@);
            assert(command_core(ws[i + 0]) != cmd_phrase(m)[0]);
        }
        if m == 14 {
            assert("hyphen"@.len() != "close"@.len());
            assert(cmd_phrase(m)[0] == "close"@);
            assert(command_core(ws[i + 0]) != cmd_phrase(m)[0]);
        }
        if m == 15 {
            assert("hyphen"@.len() != "open"@.len());
            assert(cmd_phrase(m)[0] == "open"@);
            assert(command_core(ws[i + 0]) != cmd_phrase(m)[0]);
        }
        if m == 16 {
            assert("hyphen"@.len() != "quote"@.len());
            assert(cmd_phrase(m)[0] == "quote"@);
            assert(command_core(ws[i + 0]) != cmd_phrase(m)[0]);
        }
        if m == 17 {
            assert("hyphen"@.len() != "close"@.len());
            assert(cmd_phrase(m)[0] == "close"@);
            assert(command_core(ws[i + 0]) != cmd_phrase(m)[0]);
        }
        if m == 18 {
            assert("hyphen"@.len() != "unquote"@.len());
            assert(cmd_phrase(m)[0] == "unquote"@);
            assert(command_core(ws[i + 0]) != cmd_phrase(m)[0]);
        }
        if m == 19 {
            assert("hyphen"@.len() != "new"@.len());
            assert(cmd_phrase(m)[0] == "new"@);
            assert(command_core(ws[i + 0]) != cmd_phrase(m)[0]);
        }
        if m == 20 {
            assert("hyphen"@.len() != "new"@.len());
            assert(cmd_phrase(m)[0] == "new"@);
            assert(command_core(ws[i + 0]) != cmd_phrase(m)[0]);
        }
    }
}

proof fn lemma_only_command_10(ws: Seq<Seq<char>>, i: int)
    requires
        0 <= i,
        i + 1 <= ws.len(),
        command_core(ws[i + 0]) == "dash"@,
    ensures
        forall|m: int| 0 <= m < COMMAND_COUNT ==> phrase_at(ws, i, m) == (m == 10),
{
    reveal_strlit("close");
    reveal_strlit("colon");
    reveal_strlit("comma");
    reveal_strlit("dash");
    reveal_strlit("exclamation");
    reveal_strlit("full");
    reveal_strlit("hyphen");
    reveal_strlit("line");
    reveal_strlit("mark");
    reveal_strlit("new");
    reveal_strlit("open");
    reveal_strlit("paragraph");
    reveal_strlit("paren");
    reveal_strlit("parenthesis");
    reveal_strlit("period");
    reveal_strlit("point");
    reveal_strlit("question");
    reveal_strlit("quote");
    reveal_strlit("semi");
    reveal_strlit("semicolon");
    reveal_strlit("stop");
    reveal_strlit("unquote");
    assert forall|m: int| 0 <= m < COMMAND_COUNT implies phrase_at(ws, i, m) == (m == 10) by {
        if m == 0 {
            assert("dash"@.len() != "question"@.len());
            assert(cmd_phrase(m)[0] == "question"@);
            assert(command_core(ws[i + 0]) != cmd_phrase(m)[0]);
        }
        if m == 1 {
            assert("dash"@.len() != "exclamation"@.len());
            assert(cmd_phrase(m)[0] == "exclamation"@);
            assert(command_core(ws[i + 0]) != cmd_phrase(m)[0]);
        }
        if m == 2 {
            assert("dash"@.len() != "exclamation"@.len());
            assert(cmd_phrase(m)[0] == "exclamation"@);
            assert(command_core(ws[i + 0]) != cmd_phrase(m)[0]);
        }
        if m == 3 {
            assert("dash"@[0] != "full"@[0]);
            assert(cmd_phrase(m)[0] == "full"@);
            assert(command_core(ws[i + 0]) != cmd_phrase(m)[0]);
        }
        if m == 4 {
            assert("dash"@.len() != "period"@.len());
            assert(cmd_phrase(m)[0] == "period"@);
            assert(command_core(ws[i + 0]) != cmd_phrase(m)[0]);
        }
        if m == 5 {
            assert("dash"@.len() != "comma"@.len());
            assert(cmd_phrase(m)[0] == "comma"@);
            assert(command_core(ws[i + 0]) != cmd_phrase(m)[0]);
        }
        if m == 6 {
            assert("dash"@.len() != "colon"@.len());
            assert(cmd_phrase(m)[0] == "colon"@);
            assert(command_core(ws[i + 0]) != cmd_phrase(m)[0]);
        }
        if m == 7 {
            assert("dash"@.len() != "semicolon"@.len());
            assert(cmd_phrase(m)[0] == "semicolon"@);
            assert(command_core(ws[i + 0]) != cmd_phrase(m)[0]);
        }
        if m == 8 {
            assert("dash"@[0] != "semi"@[0]);
            assert(cmd_phrase(m)[0] == "semi"@);
            assert(command_core(ws[i + 0]) != cmd_phrase(m)[0]);
        }
        if m == 9 {
            assert("dash"@.len() != "hyphen"@.len());
            assert(cmd_phrase(m)[0] == "hyphen"@);
            assert(command_core(ws[i + 0]) != cmd_phrase(m)[0]);
        }
        if m == 10 {
            assert forall|j: int| 0 <= j < cmd_phrase(m).len() implies command_core(#[trigger] ws[i + j]) == cmd_phrase(m)[j] by {
                if j == 0 { assert(ws[i + j] == ws[i + 0]); }
            }
        }
        if m == 11 {
            assert("dash"@[0] != "open"@[0]);
            assert(cmd_phrase(m)[0] == "open"@);
            assert(command_core(ws[i + 0]) != cmd_phrase(m)[0]);
        }
        if m == 12 {
            assert("dash"@[0] != "open"@[0]);
            assert(cmd_phrase(m)[0] == "open"@);
            assert(command_core(ws[i + 0]) != cmd_phrase(m)[0]);
        }
        if m == 13 {
            assert("dash"@.len() != "close"@.len());
            assert(cmd_phrase(m)[0] == "close"@);
            assert(command_core(ws[i + 0]) != cmd_phrase(m)[0]);
        }
        if m == 14 {
            assert("dash"@.len() != "close"@.len());
            assert(cmd_phrase(m)[0] == "close"@);
            assert(command_core(ws[i + 0]) != cmd_phrase(m)[0]);
        }
        if m == 15 {
            assert("dash"@[0] != "open"@[0]);
            assert(cmd_phrase(m)[0] == "open"@);
            assert(command_core(ws[i + 0]) != cmd_phrase(m)[0]);
        }
        if m == 16 {
            assert("dash"@.len() != "quote"@.len());
            assert(cmd_phrase(m)[0] == "quote"@);
            assert(command_core(ws[i + 0]) != cmd_phrase(m)[0]);
        }
        if m == 17 {
            assert("dash"@.len() != "close"@.len());
            assert(cmd_phrase(m)[0] == "close"@);
            assert(command_core(ws[i + 0]) != cmd_phrase(m)[0]);
        }
        if m == 18 {
            assert("dash"@.len() != "unquote"@.len());
            assert(cmd_phrase(m)[0] == "unquote"@);
            assert(command_core(ws[i + 0]) != cmd_phrase(m)[0]);
        }
        if m == 19 {
            assert("dash"@.len() != "new"@.len());
            assert(cmd_phrase(m)[0] == "new"@);
            assert(command_core(ws[i + 0]) != cmd_phrase(m)[0]);
        }
        if m == 20 {
            assert("dash"@.len() != "new"@.len());
            assert(cmd_phrase(m)[0] == "new"@);
            assert(command_core(ws[i + 0]) != cmd_phrase(m)[0]);
        }
    }
}

proof fn lemma_only_command_11(ws: Seq<Seq<char>>, i: int)
    requires
        0 <= i,
        i + 2 <= ws.len(),
        command_core(ws[i + 0]) == "open"@,
        command_core(ws[i + 1]) == "paren"@,
    ensures
        forall|m: int| 0 <= m < COMMAND_COUNT ==> phrase_at(ws, i, m) == (m == 11),
{
    reveal_strlit("close");
    reveal_strlit("colon");
    reveal_strlit("comma");
    reveal_strlit("dash");
    reveal_strlit("exclamation");
    reveal_strlit("full");
    reveal_strlit("hyphen");
    reveal_strlit("line");
    reveal_strlit("mark");
    reveal_strlit("new");
    reveal_strlit("open");
    reveal_strlit("paragraph");
    reveal_strlit("paren");
    reveal_strlit("parenthesis");
    reveal_strlit("period");
    reveal_strlit("point");
    reveal_strlit("question");
    reveal_strlit("quote");
    reveal_strlit("semi");
    reveal_strlit("semicolon");
    reveal_strlit("stop");
    reveal_strlit("unquote");
    assert forall|m: int| 0 <= m < COMMAND_COUNT implies phrase_at(ws, i, m) == (m == 11) by {
        if m == 0 {
            assert("open"@.len() != "question"@.len());
            assert(cmd_phrase(m)[0] == "question"@);
            assert(command_core(ws[i + 0]) != cmd_phrase(m)[0]);
        }
        if m == 1 {
            assert("open"@.len() != "exclamation"@.len());
            assert(cmd_phrase(m)[0] == "exclamation"@);
            assert(command_core(ws[i + 0]) != cmd_phrase(m)[0]);
        }
        if m == 2 {
            assert("open"@.len() != "exclamation"@.len());
            assert(cmd_phrase(m)[0] == "exclamation"@);
            assert(command_core(ws[i + 0]) != cmd_phrase(m)[0]);
        }
        if m == 3 {
            assert("open"@[0] != "full"@[0]);
            assert(cmd_phrase(m)[0] == "full"@);
            assert(command_core(ws[i + 0]) != cmd_phrase(m)[0]);
        }
        if m == 4 {
            assert("open"@.len() != "period"@.len());
            assert(cmd_phrase(m)[0] == "period"@);
            assert(command_core(ws[i + 0]) != cmd_phrase(m)[0]);
        }
        if m == 5 {
            assert("open"@.len() != "comma"@.len());
            assert(cmd_phrase(m)[0] == "comma"@);
            assert(command_core(ws[i + 0]) != cmd_phrase(m)[0]);
        }
        if m == 6 {
            assert("open"@.len() != "colon"@.len());
            assert(cmd_phrase(m)[0] == "colon"@);
            assert(command_core(ws[i + 0]) != cmd_phrase(m)[0]);
        }
        if m == 7 {
            assert("open"@.len() != "semicolon"@.len());
            assert(cmd_phrase(m)[0] == "semicolon"@);
            assert(command_core(ws[i + 0]) != cmd_phrase(m)[0]);
        }
        if m == 8 {
            assert("open"@[0] != "semi"@[0]);
            assert(cmd_phrase(m)[0] == "semi"@);
            assert(command_core(ws[i + 0]) != cmd_phrase(m)[0]);
        }
        if m == 9 {
            assert("open"@.len() != "hyphen"@.len());
            assert(cmd_phrase(m)[0] == "hyphen"@);
            assert(command_core(ws[i + 0]) != cmd_phrase(m)[0]);
        }
        if m == 10 {
            assert("open"@[0] != "dash"@[0]);
            assert(cmd_phrase(m)[0] == "dash"@);
            assert(command_core(ws[i + 0]) != cmd_phrase(m)[0]);
        }
        if m == 11 {
            assert forall|j: int| 0 <= j < cmd_phrase(m).len() implies command_core(#[trigger] ws[i + j]) == cmd_phrase(m)[j] by {
                if j == 0 { assert(ws[i + j] == ws[i + 0]); }
                if j == 1 { assert(ws[i + j] == ws[i + 1]); }
            }
        }
        if m == 12 {
            assert("paren"@.len() != "parenthesis"@.len());
            assert(cmd_phrase(m)[1] == "parenthesis"@);
            assert(command_core(ws[i + 1]) != cmd_phrase(m)[1]);
        }
        if m == 13 {
            assert("open"@.len() != "close"@.len());
            assert(cmd_phrase(m)[0] == "close"@);
            assert(command_core(ws[i + 0]) != cmd_phrase(m)[0]);
        }
        if m == 14 {
            assert("open"@.len() != "close"@.len());
            assert(cmd_phrase(m)[0] == "close"@);
            assert(command_core(ws[i + 0]) != cmd_phrase(m)[0]);
        }
        if m == 15 {
            assert("paren"@[0] != "quote"@[0]);
            assert(cmd_phrase(m)[1] == "quote"@);
            assert(command_core(ws[i + 1]) != cmd_phrase(m)[1]);
        }
        if m == 16 {
            assert("open"@.len() != "quote"@.len());
            assert(cmd_phrase(m)[0] == "quote"@);
            assert(command_core(ws[i + 0]) != cmd_phrase(m)[0]);
        }
        if m == 17 {
            assert("open"@.len() != "close"@.len());
            assert(cmd_phrase(m)[0] == "close"@);
            assert(command_core(ws[i + 0]) != cmd_phrase(m)[0]);
        }
        if m == 18 {
            assert("open"@.len() != "unquote"@.len());
            assert(cmd_phrase(m)[0] == "unquote"@);
            assert(command_core(ws[i + 0]) != cmd_phrase(m)[0]);
        }
        if m == 19 {
            assert("open"@.len() != "new"@.len());
            assert(cmd_phrase(m)[0] == "new"@);
            assert(command_core(ws[i + 0]) != cmd_phrase(m)[0]);
        }
        if m == 20 {
            assert("open"@.len() != "new"@.len());
            assert(cmd_phrase(m)[0] == "new"@);
            assert(command_core(ws[i + 0]) != cmd_phrase(m)[0]);
        }
    }
}

proof fn lemma_only_command_12(ws: Seq<Seq<char>>, i: int)
    requires
        0 <= i,
        i + 2 <= ws.len(),
        command_core(ws[i + 0]) == "open"@,
        command_core(ws[i + 1]) == "parenthesis"@,
    ensures
        forall|m: int| 0 <= m < COMMAND_COUNT ==> phrase_at(ws, i, m) == (m == 12),
{
    reveal_strlit("close");
    reveal_strlit("colon");
    reveal_strlit("comma");
    reveal_strlit("dash");
    reveal_strlit("exclamation");
    reveal_strlit("full");
    reveal_strlit("hyphen");
    reveal_strlit("line");
    reveal_strlit("mark");
    reveal_strlit("new");
    reveal_strlit("open");
    reveal_strlit("paragraph");
    reveal_strlit("paren");
    reveal_strlit("parenthesis");
    reveal_strlit("period");
    reveal_strlit("point");
    reveal_strlit("question");
    reveal_strlit("quote");
    reveal_strlit("semi");
    reveal_strlit("semicolon");
    reveal_strlit("stop");
    reveal_strlit("unquote");
    assert forall|m: int| 0 <= m < COMMAND_COUNT implies phrase_at(ws, i, m) == (m == 12) by {
        if m == 0 {
            assert("open"@.len() != "question"@.len());
            assert(cmd_phrase(m)[0] == "question"@);
            assert(command_core(ws[i + 0]) != cmd_phrase(m)[0]);
        }
        if m == 1 {
            assert("open"@.len() != "exclamation"@.len());
            assert(cmd_phrase(m)[0] == "exclamation"@);
            assert(command_core(ws[i + 0]) != cmd_phrase(m)[0]);
        }
        if m == 2 {
            assert("open"@.len() != "exclamation"@.len());
            assert(cmd_phrase(m)[0] == "exclamation"@);
            assert(command_core(ws[i + 0]) != cmd_phrase(m)[0]);
        }
        if m == 3 {
            assert("open"@[0] != "full"@[0]);
            assert(cmd_phrase(m)[0] == "full"@);
            assert(command_core(ws[i + 0]) != cmd_phrase(m)[0]);
        }
        if m == 4 {
            assert("open"@.len() != "period"@.len());
            assert(cmd_phrase(m)[0] == "period"@);
            assert(command_core(ws[i + 0]) != cmd_phrase(m)[0]);
        }
        if m == 5 {
            assert("open"@.len() != "comma"@.len());
            assert(cmd_phrase(m)[0] == "comma"@);
            assert(command_core(ws[i + 0]) != cmd_phrase(m)[0]);
        }
        if m == 6 {
            assert("open"@.len() != "colon"@.len());
            assert(cmd_phrase(m)[0] == "colon"@);
            assert(command_core(ws[i + 0]) != cmd_phrase(m)[0]);
        }
        if m == 7 {
            assert("open"@.len() != "semicolon"@.len());
            assert(cmd_phrase(m)[0] == "semicolon"@);
            assert(command_core(ws[i + 0]) != cmd_phrase(m)[0]);
        }
        if m == 8 {
            assert("open"@[0] != "semi"@[0]);
            assert(cmd_phrase(m)[0] == "semi"@);
            assert(command_core(ws[i + 0]) != cmd_phrase(m)[0]);
        }
        if m == 9 {
            assert("open"@.len() != "hyphen"@.len());
            assert(cmd_phrase(m)[0] == "hyphen"@);
            assert(command_core(ws[i + 0]) != cmd_phrase(m)[0]);
        }
        if m == 10 {
            assert("open"@[0] != "dash"@[0]);
            assert(cmd_phrase(m)[0] == "dash"@);
            assert(command_core(ws[i + 0]) != cmd_phrase(m)[0]);
        }
        if m == 11 {
            assert("parenthesis"@.len() != "paren"@.len());
            assert(cmd_phrase(m)[1] == "paren"@);
            assert(command_core(ws[i + 1]) != cmd_phrase(m)[1]);
        }
        if m == 12 {
            assert forall|j: int| 0 <= j < cmd_phrase(m).len() implies command_core(#[trigger] ws[i + j]) == cmd_phrase(m)[j] by {
                if j == 0 { assert(ws[i + j] == ws[i + 0]); }
                if j == 1 { assert(ws[i + j] == ws[i + 1]); }
            }
        }
        if m == 13 {
            assert("open"@.len() != "close"@.len());
            assert(cmd_phrase(m)[0] == "close"@);
            assert(command_core(ws[i + 0]) != cmd_phrase(m)[0]);
        }
        if m == 14 {
            assert("open"@.len() != "close"@.len());
            assert(cmd_phrase(m)[0] == "close"@);
            assert(command_core(ws[i + 0]) != cmd_phrase(m)[0]);
        }
        if m == 15 {
            assert("parenthesis"@.len() != "quote"@.len());
            assert(cmd_phrase(m)[1] == "quote"@);
            assert(command_core(ws[i + 1]) != cmd_phrase(m)[1]);
        }
        if m == 16 {
            assert("open"@.len() != "quote"@.len());
            assert(cmd_phrase(m)[0] == "quote"@);
            assert(command_core(ws[i + 0]) != cmd_phrase(m)[0]);
        }
        if m == 17 {
            assert("open"@.len() != "close"@.len());
            assert(cmd_phrase(m)[0] == "close"@);
            assert(command_core(ws[i + 0]) != cmd_phrase(m)[0]);
        }
        if m == 18 {
            assert("open"@.len() != "unquote"@.len());
            assert(cmd_phrase(m)[0] == "unquote"@);
            assert(command_core(ws[i + 0]) != cmd_phrase(m)[0]);
        }
        if m == 19 {
            assert("open"@.len() != "new"@.len());
            assert(cmd_phrase(m)[0] == "new"@);
            assert(command_core(ws[i + 0]) != cmd_phrase(m)[0]);
        }
        if m == 20 {
            assert("open"@.len() != "new"@.len());
            assert(cmd_phrase(m)[0] == "new"@);
            assert(command_core(ws[i + 0]) != cmd_phrase(m)[0]);
        }
    }
}

proof fn lemma_only_command_13(ws: Seq<Seq<char>>, i: int)
    requires
        0 <= i,
        i + 2 <= ws.len(),
        command_core(ws[i + 0]) == "close"@,
        command_core(ws[i + 1]) == "paren"@,
    ensures
        forall|m: int| 0 <= m < COMMAND_COUNT ==> phrase_at(ws, i, m) == (m == 13),
{
    reveal_strlit("close");
    reveal_strlit("colon");
    reveal_strlit("comma");
    reveal_strlit("dash");
    reveal_strlit("exclamation");
    reveal_strlit("full");
    reveal_strlit("hyphen");
    reveal_strlit("line");
    reveal_strlit("mark");
    reveal_strlit("new");
    reveal_strlit("open");
    reveal_strlit("paragraph");
    reveal_strlit("paren");
    reveal_strlit("parenthesis");
    reveal_strlit("period");
    reveal_strlit("point");
    reveal_strlit("question");
    reveal_strlit("quote");
    reveal_strlit("semi");
    reveal_strlit("semicolon");
    reveal_strlit("stop");
    reveal_strlit("unquote");
    assert forall|m: int| 0 <= m < COMMAND_COUNT implies phrase_at(ws, i, m) == (m == 13) by {
        if m == 0 {
            assert("close"@.len() != "question"@.len());
            assert(cmd_phrase(m)[0] == "question"@);
            assert(command_core(ws[i + 0]) != cmd_phrase(m)[0]);
        }
        if m == 1 {
            assert("close"@.len() != "exclamation"@.len());
            assert(cmd_phrase(m)[0] == "exclamation"@);
            assert(command_core(ws[i + 0]) != cmd_phrase(m)[0]);
        }
        if m == 2 {
            assert("close"@.len() != "exclamation"@.len());
            assert(cmd_phrase(m)[0] == "exclamation"@);
            assert(command_core(ws[i + 0]) != cmd_phrase(m)[0]);
        }
        if m == 3 {
            assert("close"@.len() != "full"@.len());
            assert(cmd_phrase(m)[0] == "full"@);
            assert(command_core(ws[i + 0]) != cmd_phrase(m)[0]);
        }
        if m == 4 {
            assert("close"@.len() != "period"@.len());
            assert(cmd_phrase(m)[0] == "period"@);
            assert(command_core(ws[i + 0]) != cmd_phrase(m)[0]);
        }
        if m == 5 {
            assert("close"@[1] != "comma"@[1]);
            assert(cmd_phrase(m)[0] == "comma"@);
            assert(command_core(ws[i + 0]) != cmd_phrase(m)[0]);
        }
        if m == 6 {
            assert("close"@[1] != "colon"@[1]);
            assert(cmd_phrase(m)[0] == "colon"@);
            assert(command_core(ws[i + 0]) != cmd_phrase(m)[0]);
        }
        if m == 7 {
            assert("close"@.len() != "semicolon"@.len());
            assert(cmd_phrase(m)[0] == "semicolon"@);
            assert(command_core(ws[i + 0]) != cmd_phrase(m)[0]);
        }
        if m == 8 {
            assert("close"@.len() != "semi"@.len());
            assert(cmd_phrase(m)[0] == "semi"@);
            assert(command_core(ws[i + 0]) != cmd_phrase(m)[0]);
        }
        if m == 9 {
            assert("close"@.len() != "hyphen"@.len());
            assert(cmd_phrase(m)[0] == "hyphen"@);
            assert(command_core(ws[i + 0]) != cmd_phrase(m)[0]);
        }
        if m == 10 {
            assert("close"@.len() != "dash"@.len());
            assert(cmd_phrase(m)[0] == "dash"@);
            assert(command_core(ws[i + 0]) != cmd_phrase(m)[0]);
        }
        if m == 11 {
            assert("close"@.len() != "open"@.len());
            assert(cmd_phrase(m)[0] == "open"@);
            assert(command_core(ws[i + 0]) != cmd_phrase(m)[0]);
        }
        if m == 12 {
            assert("close"@.len() != "open"@.len());
            assert(cmd_phrase(m)[0] == "open"@);
            assert(command_core(ws[i + 0]) != cmd_phrase(m)[0]);
        }
        if m == 13 {
            assert forall|j: int| 0 <= j < cmd_phrase(m).len() implies command_core(#[trigger] ws[i + j]) == cmd_phrase(m)[j] by {
                if j == 0 { assert(ws[i + j] == ws[i + 0]); }
                if j == 1 { assert(ws[i + j] == ws[i + 1]); }
            }
        }
        if m == 14 {
            assert("paren"@.len() != "parenthesis"@.len());
            assert(cmd_phrase(m)[1] == "parenthesis"@);
            assert(command_core(ws[i + 1]) != cmd_phrase(m)[1]);
        }
        if m == 15 {
            assert("close"@.len() != "open"@.len());
            assert(cmd_phrase(m)[0] == "open"@);
            assert(command_core(ws[i + 0]) != cmd_phrase(m)[0]);
        }
        if m == 16 {
            assert("close"@[0] != "quote"@[0]);
            assert(cmd_phrase(m)[0] == "quote"@);
            assert(command_core(ws[i + 0]) != cmd_phrase(m)[0]);
        }
        if m == 17 {
            assert("paren"@[0] != "quote"@[0]);
            assert(cmd_phrase(m)[1] == "quote"@);
            assert(command_core(ws[i + 1]) != cmd_phrase(m)[1]);
        }
        if m == 18 {
            assert("close"@.len() != "unquote"@.len());
            assert(cmd_phrase(m)[0] == "unquote"@);
            assert(command_core(ws[i + 0]) != cmd_phrase(m)[0]);
        }
        if m == 19 {
            assert("close"@.len() != "new"@.len());
            assert(cmd_phrase(m)[0] == "new"@);
            assert(command_core(ws[i + 0]) != cmd_phrase(m)[0]);
        }
        if m == 20 {
            assert("close"@.len() != "new"@.len());
            assert(cmd_phrase(m)[0] == "new"@);
            assert(command_core(ws[i + 0]) != cmd_phrase(m)[0]);
        }
    }
}

proof fn lemma_only_command_14(ws: Seq<Seq<char>>, i: int)
    requires
        0 <= i,
        i + 2 <= ws.len(),
        command_core(ws[i + 0]) == "close"@,
        command_core(ws[i + 1]) == "parenthesis"@,
    ensures
        forall|m: int| 0 <= m < COMMAND_COUNT ==> phrase_at(ws, i, m) == (m == 14),
{
    reveal_strlit("close");
    reveal_strlit("colon");
    reveal_strlit("comma");
    reveal_strlit("dash");
    reveal_strlit("exclamation");
    reveal_strlit("full");
    reveal_strlit("hyphen");
    reveal_strlit("line");
    reveal_strlit("mark");
    reveal_strlit("new");
    reveal_strlit("open");
    reveal_strlit("paragraph");
    reveal_strlit("paren");
    reveal_strlit("parenthesis");
    reveal_strlit("period");
    reveal_strlit("point");
    reveal_strlit("question");
    reveal_strlit("quote");
    reveal_strlit("semi");
    reveal_strlit("semicolon");
    reveal_strlit("stop");
    reveal_strlit("unquote");
    assert forall|m: int| 0 <= m < COMMAND_COUNT implies phrase_at(ws, i, m) == (m == 14) by {
        if m == 0 {
            assert("close"@.len() != "question"@.len());
            assert(cmd_phrase(m)[0] == "question"@);
            assert(command_core(ws[i + 0]) != cmd_phrase(m)[0]);
        }
        if m == 1 {
            assert("close"@.len() != "exclamation"@.len());
            assert(cmd_phrase(m)[0] == "exclamation"@);
            assert(command_core(ws[i + 0]) != cmd_phrase(m)[0]);
        }
        if m == 2 {
            assert("close"@.len() != "exclamation"@.len());
            assert(cmd_phrase(m)[0] == "exclamation"@);
            assert(command_core(ws[i + 0]) != cmd_phrase(m)[0]);
        }
        if m == 3 {
            assert("close"@.len() != "full"@.len());
            assert(cmd_phrase(m)[0] == "full"@);
            assert(command_core(ws[i + 0]) != cmd_phrase(m)[0]);
        }
        if m == 4 {
            assert("close"@.len() != "period"@.len());
            assert(cmd_phrase(m)[0] == "period"@);
            assert(command_core(ws[i + 0]) != cmd_phrase(m)[0]);
        }
        if m == 5 {
            assert("close"@[1] != "comma"@[1]);
            assert(cmd_phrase(m)[0] == "comma"@);
            assert(command_core(ws[i + 0]) != cmd_phrase(m)[0]);
        }
        if m == 6 {
            assert("close"@[1] != "colon"@[1]);
            assert(cmd_phrase(m)[0] == "colon"@);
            assert(command_core(ws[i + 0]) != cmd_phrase(m)[0]);
        }
        if m == 7 {
            assert("close"@.len() != "semicolon"@.len());
            assert(cmd_phrase(m)[0] == "semicolon"@);
            assert(command_core(ws[i + 0]) != cmd_phrase(m)[0]);
        }
        if m == 8 {
            assert("close"@.len() != "semi"@.len());
            assert(cmd_phrase(m)[0] == "semi"@);
            assert(command_core(ws[i + 0]) != cmd_phrase(m)[0]);
        }
        if m == 9 {
            assert("close"@.len() != "hyphen"@.len());
            assert(cmd_phrase(m)[0] == "hyphen"@);
            assert(command_core(ws[i + 0]) != cmd_phrase(m)[0]);
        }
        if m == 10 {
            assert("close"@.len() != "dash"@.len());
            assert(cmd_phrase(m)[0] == "dash"@);
            assert(command_core(ws[i + 0]) != cmd_phrase(m)[0]);
        }
        if m == 11 {
            assert("close"@.len() != "open"@.len());
            assert(cmd_phrase(m)[0] == "open"@);
            assert(command_core(ws[i + 0]) != cmd_phrase(m)[0]);
        }
        if m == 12 {
            assert("close"@.len() != "open"@.len());
            assert(cmd_phrase(m)[0] == "open"@);
            assert(command_core(ws[i + 0]) != cmd_phrase(m)[0]);
        }
        if m == 13 {
            assert("parenthesis"@.len() != "paren"@.len());
            assert(cmd_phrase(m)[1] == "paren"@);
            assert(command_core(ws[i + 1]) != cmd_phrase(m)[1]);
        }
        if m == 14 {
            assert forall|j: int| 0 <= j < cmd_phrase(m).len() implies command_core(#[trigger] ws[i + j]) == cmd_phrase(m)[j] by {
                if j == 0 { assert(ws[i + j] == ws[i + 0]); }
                if j == 1 { assert(ws[i + j] == ws[i + 1]); }
            }
        }
        if m == 15 {
            assert("close"@.len() != "open"@.len());
            assert(cmd_phrase(m)[0] == "open"@);
            assert(command_core(ws[i + 0]) != cmd_phrase(m)[0]);
        }
        if m == 16 {
            assert("close"@[0] != "quote"@[0]);
            assert(cmd_phrase(m)[0] == "quote"@);
            assert(command_core(ws[i + 0]) != cmd_phrase(m)[0]);
        }
        if m == 17 {
            assert("parenthesis"@.len() != "quote"@.len());
            assert(cmd_phrase(m)[1] == "quote"@);
            assert(command_core(ws[i + 1]) != cmd_phrase(m)[1]);
        }
        if m == 18 {
            assert("close"@.len() != "unquote"@.len());
            assert(cmd_phrase(m)[0] == "unquote"@);
            assert(command_core(ws[i + 0]) != cmd_phrase(m)[0]);
        }
        if m == 19 {
            assert("close"@.len() != "new"@.len());
            assert(cmd_phrase(m)[0] == "new"@);
            assert(command_core(ws[i + 0]) != cmd_phrase(m)[0]);
        }
        if m == 20 {
            assert("close"@.len() != "new"@.len());
            assert(cmd_phrase(m)[0] == "new"@);
            assert(command_core(ws[i + 0]) != cmd_phrase(m)[0]);
        }
    }
}

proof fn lemma_only_command_15(ws: Seq<Seq<char>>, i: int)
    requires
        0 <= i,
        i + 2 <= ws.len(),
        command_core(ws[i + 0]) == "open"@,
        command_core(ws[i + 1]) == "quote"@,
    ensures
        forall|m: int| 0 <= m < COMMAND_COUNT ==> phrase_at(ws, i, m) == (m == 15),
{
    reveal_strlit("close");
    reveal_strlit("colon");
    reveal_strlit("comma");
    reveal_strlit("dash");
    reveal_strlit("exclamation");
    reveal_strlit("full");
    reveal_strlit("hyphen");
    reveal_strlit("line");
    reveal_strlit("mark");
    reveal_strlit("new");
    reveal_strlit("open");
    reveal_strlit("paragraph");
    reveal_strlit("paren");
    reveal_strlit("parenthesis");
    reveal_strlit("period");
    reveal_strlit("point");
    reveal_strlit("question");
    reveal_strlit("quote");
    reveal_strlit("semi");
    reveal_strlit("semicolon");
    reveal_strlit("stop");
    reveal_strlit("unquote");
    assert forall|m: int| 0 <= m < COMMAND_COUNT implies phrase_at(ws, i, m) == (m == 15) by {
        if m == 0 {
            assert("open"@.len() != "question"@.len());
            assert(cmd_phrase(m)[0] == "question"@);
            assert(command_core(ws[i + 0]) != cmd_phrase(m)[0]);
        }
        if m == 1 {
            assert("open"@.len() != "exclamation"@.len());
            assert(cmd_phrase(m)[0] == "exclamation"@);
            assert(command_core(ws[i + 0]) != cmd_phrase(m)[0]);
        }
        if m == 2 {
            assert("open"@.len() != "exclamation"@.len());
            assert(cmd_phrase(m)[0] == "exclamation"@);
            assert(command_core(ws[i + 0]) != cmd_phrase(m)[0]);
        }
        if m == 3 {
            assert("open"@[0] != "full"@[0]);
            assert(cmd_phrase(m)[0] == "full"@);
            assert(command_core(ws[i + 0]) != cmd_phrase(m)[0]);
        }
        if m == 4 {
            assert("open"@.len() != "period"@.len());
            assert(cmd_phrase(m)[0] == "period"@);
            assert(command_core(ws[i + 0]) != cmd_phrase(m)[0]);
        }
        if m == 5 {
            assert("open"@.len() != "comma"@.len());
            assert(cmd_phrase(m)[0] == "comma"@);
            assert(command_core(ws[i + 0]) != cmd_phrase(m)[0]);
        }
        if m == 6 {
            assert("open"@.len() != "colon"@.len());
            assert(cmd_phrase(m)[0] == "colon"@);
            assert(command_core(ws[i + 0]) != cmd_phrase(m)[0]);
        }
        if m == 7 {
            assert("open"@.len() != "semicolon"@.len());
            assert(cmd_phrase(m)[0] == "semicolon"@);
            assert(command_core(ws[i + 0]) != cmd_phrase(m)[0]);
        }
        if m == 8 {
            assert("open"@[0] != "semi"@[0]);
            assert(cmd_phrase(m)[0] == "semi"@);
            assert(command_core(ws[i + 0]) != cmd_phrase(m)[0]);
        }
        if m == 9 {
            assert("open"@.len() != "hyphen"@.len());
            assert(cmd_phrase(m)[0] == "hyphen"@);
            assert(command_core(ws[i + 0]) != cmd_phrase(m)[0]);
        }
        if m == 10 {
            assert("open"@[0] != "dash"@[0]);
            assert(cmd_phrase(m)[0] == "dash"@);
            assert(command_core(ws[i + 0]) != cmd_phrase(m)[0]);
        }
        if m == 11 {
            assert("quote"@[0] != "paren"@[0]);
            assert(cmd_phrase(m)[1] == "paren"@);
            assert(command_core(ws[i + 1]) != cmd_phrase(m)[1]);
        }
        if m == 12 {
            assert("quote"@.len() != "parenthesis"@.len());
            assert(cmd_phrase(m)[1] == "parenthesis"@);
            assert(command_core(ws[i + 1]) != cmd_phrase(m)[1]);
        }
        if m == 13 {
            assert("open"@.len() != "close"@.len());
            assert(cmd_phrase(m)[0] == "close"@);
            assert(command_core(ws[i + 0]) != cmd_phrase(m)[0]);
        }
        if m == 14 {
            assert("open"@.len() != "close"@.len());
            assert(cmd_phrase(m)[0] == "close"@);
            assert(command_core(ws[i + 0]) != cmd_phrase(m)[0]);
        }
        if m == 15 {
            assert forall|j: int| 0 <= j < cmd_phrase(m).len() implies command_core(#[trigger] ws[i + j]) == cmd_phrase(m)[j] by {
                if j == 0 { assert(ws[i + j] == ws[i + 0]); }
                if j == 1 { assert(ws[i + j] == ws[i + 1]); }
            }
        }
        if m == 16 {
            assert("open"@.len() != "quote"@.len());
            assert(cmd_phrase(m)[0] == "quote"@);
            assert(command_core(ws[i + 0]) != cmd_phrase(m)[0]);
        }
        if m == 17 {
            assert("open"@.len() != "close"@.len());
            assert(cmd_phrase(m)[0] == "close"@);
            assert(command_core(ws[i + 0]) != cmd_phrase(m)[0]);
        }
        if m == 18 {
            assert("open"@.len() != "unquote"@.len());
            assert(cmd_phrase(m)[0] == "unquote"@);
            assert(command_core(ws[i + 0]) != cmd_phrase(m)[0]);
        }
        if m == 19 {
            assert("open"@.len() != "new"@.len());
            assert(cmd_phrase(m)[0] == "new"@);
            assert(command_core(ws[i + 0]) != cmd_phrase(m)[0]);
        }
        if m == 20 {
            assert("open"@.len() != "new"@.len());
            assert(cmd_phrase(m)[0] == "new"@);
            assert(command_core(ws[i + 0]) != cmd_phrase(m)[0]);
        }
    }
}

proof fn lemma_only_command_16(ws: Seq<Seq<char>>, i: int)
    requires
        0 <= i,
        i + 1 <= ws.len(),
        command_core(ws[i + 0]) == "quote"@,
    ensures
        forall|m: int| 0 <= m < COMMAND_COUNT ==> phrase_at(ws, i, m) == (m == 16),
{
    reveal_strlit("close");
    reveal_strlit("colon");
    reveal_strlit("comma");
    reveal_strlit("dash");
    reveal_strlit("exclamation");
    reveal_strlit("full");
    reveal_strlit("hyphen");
    reveal_strlit("line");
    reveal_strlit("mark");
    reveal_strlit("new");
    reveal_strlit("open");
    reveal_strlit("paragraph");
    reveal_strlit("paren");
    reveal_strlit("parenthesis");
    reveal_strlit("period");
    reveal_strlit("point");
    reveal_strlit("question");
    reveal_strlit("quote");
    reveal_strlit("semi");
    reveal_strlit("semicolon");
    reveal_strlit("stop");
    reveal_strlit("unquote");
    assert forall|m: int| 0 <= m < COMMAND_COUNT implies phrase_at(ws, i, m) == (m == 16) by {
        if m == 0 {
            assert("quote"@.len() != "question"@.len());
            assert(cmd_phrase(m)[0] == "question"@);
            assert(command_core(ws[i + 0]) != cmd_phrase(m)[0]);
        }
        if m == 1 {
            assert("quote"@.len() != "exclamation"@.len());
            assert(cmd_phrase(m)[0] == "exclamation"@);
            assert(command_core(ws[i + 0]) != cmd_phrase(m)[0]);
        }
        if m == 2 {
            assert("quote"@.len() != "exclamation"@.len());
            assert(cmd_phrase(m)[0] == "exclamation"@);
            assert(command_core(ws[i + 0]) != cmd_phrase(m)[0]);
        }
        if m == 3 {
            assert("quote"@.len() != "full"@.len());
            assert(cmd_phrase(m)[0] == "full"@);
            assert(command_core(ws[i + 0]) != cmd_phrase(m)[0]);
        }
        if m == 4 {
            assert("quote"@.len() != "period"@.len());
            assert(cmd_phrase(m)[0] == "period"@);
            assert(command_core(ws[i + 0]) != cmd_phrase(m)[0]);
        }
        if m == 5 {
            assert("quote"@[0] != "comma"@[0]);
            assert(cmd_phrase(m)[0] == "comma"@);
            assert(command_core(ws[i + 0]) != cmd_phrase(m)[0]);
        }
        if m == 6 {
            assert("quote"@[0] != "colon"@[0]);
            assert(cmd_phrase(m)[0] == "colon"@);
            assert(command_core(ws[i + 0]) != cmd_phrase(m)[0]);
        }
        if m == 7 {
            assert("quote"@.len() != "semicolon"@.len());
            assert(cmd_phrase(m)[0] == "semicolon"@);
            assert(command_core(ws[i + 0]) != cmd_phrase(m)[0]);
        }
        if m == 8 {
            assert("quote"@.len() != "semi"@.len());
            assert(cmd_phrase(m)[0] == "semi"@);
            assert(command_core(ws[i + 0]) != cmd_phrase(m)[0]);
        }
        if m == 9 {
            assert("quote"@.len() != "hyphen"@.len());
            assert(cmd_phrase(m)[0] == "hyphen"@);
            assert(command_core(ws[i + 0]) != cmd_phrase(m)[0]);
        }
        if m == 10 {
            assert("quote"@.len() != "dash"@.len());
            assert(cmd_phrase(m)[0] == "dash"@);
            assert(command_core(ws[i + 0]) != cmd_phrase(m)[0]);
        }
        if m == 11 {
            assert("quote"@.len() != "open"@.len());
            assert(cmd_phrase(m)[0] == "open"@);
            assert(command_core(ws[i + 0]) != cmd_phrase(m)[0]);
        }
        if m == 12 {
            assert("quote"@.len() != "open"@.len());
            assert(cmd_phrase(m)[0] == "open"@);
            assert(command_core(ws[i + 0]) != cmd_phrase(m)[0]);
        }
        if m == 13 {
            assert("quote"@[0] != "close"@[0]);
            assert(cmd_phrase(m)[0] == "close"@);
            assert(command_core(ws[i + 0]) != cmd_phrase(m)[0]);
        }
        if m == 14 {
            assert("quote"@[0] != "close"@[0]);
            assert(cmd_phrase(m)[0] == "close"@);
            assert(command_core(ws[i + 0]) != cmd_phrase(m)[0]);
        }
        if m == 15 {
            assert("quote"@.len() != "open"@.len());
            assert(cmd_phrase(m)[0] == "open"@);
            assert(command_core(ws[i + 0]) != cmd_phrase(m)[0]);
        }
        if m == 16 {
            assert forall|j: int| 0 <= j < cmd_phrase(m).len() implies command_core(#[trigger] ws[i + j]) == cmd_phrase(m)[j] by {
                if j == 0 { assert(ws[i + j] == ws[i + 0]); }
            }
        }
        if m == 17 {
            assert("quote"@[0] != "close"@[0]);
            assert(cmd_phrase(m)[0] == "close"@);
            assert(command_core(ws[i + 0]) != cmd_phrase(m)[0]);
        }
        if m == 18 {
            assert("quote"@.len() != "unquote"@.len());
            assert(cmd_phrase(m)[0] == "unquote"@);
            assert(command_core(ws[i + 0]) != cmd_phrase(m)[0]);
        }
        if m == 19 {
            assert("quote"@.len() != "new"@.len());
            assert(cmd_phrase(m)[0] == "new"@);
            assert(command_core(ws[i + 0]) != cmd_phrase(m)[0]);
        }
        if m == 20 {
            assert("quote"@.len() != "new"@.len());
            assert(cmd_phrase(m)[0] == "new"@);
            assert(command_core(ws[i + 0]) != cmd_phrase(m)[0]);
        }
    }
}

proof fn lemma_only_command_17(ws: Seq<Seq<char>>, i: int)
    requires
        0 <= i,
        i + 2 <= ws.len(),
        command_core(ws[i + 0]) == "close"@,
        command_core(ws[i + 1]) == "quote"@,
    ensures
        forall|m: int| 0 <= m < COMMAND_COUNT ==> phrase_at(ws, i, m) == (m == 17),
{
    reveal_strlit("close");
    reveal_strlit("colon");
    reveal_strlit("comma");
    reveal_strlit("dash");
    reveal_strlit("exclamation");
    reveal_strlit("full");
    reveal_strlit("hyphen");
    reveal_strlit("line");
    reveal_strlit("mark");
    reveal_strlit("new");
    reveal_strlit("open");
    reveal_strlit("paragraph");
    reveal_strlit("paren");
    reveal_strlit("parenthesis");
    reveal_strlit("period");
    reveal_strlit("point");
    reveal_strlit("question");
    reveal_strlit("quote");
    reveal_strlit("semi");
    reveal_strlit("semicolon");
    reveal_strlit("stop");
    reveal_strlit("unquote");
    assert forall|m: int| 0 <= m < COMMAND_COUNT implies phrase_at(ws, i, m) == (m == 17) by {
        if m == 0 {
            assert("close"@.len() != "question"@.len());
            assert(cmd_phrase(m)[0] == "question"@);
            assert(command_core(ws[i + 0]) != cmd_phrase(m)[0]);
        }
        if m == 1 {
            assert("close"@.len() != "exclamation"@.len());
            assert(cmd_phrase(m)[0] == "exclamation"@);
            assert(command_core(ws[i + 0]) != cmd_phrase(m)[0]);
        }
        if m == 2 {
            assert("close"@.len() != "exclamation"@.len());
            assert(cmd_phrase(m)[0] == "exclamation"@);
            assert(command_core(ws[i + 0]) != cmd_phrase(m)[0]);
        }
        if m == 3 {
            assert("close"@.len() != "full"@.len());
            assert(cmd_phrase(m)[0] == "full"@);
            assert(command_core(ws[i + 0]) != cmd_phrase(m)[0]);
        }
        if m == 4 {
            assert("close"@.len() != "period"@.len());
            assert(cmd_phrase(m)[0] == "period"@);
            assert(command_core(ws[i + 0]) != cmd_phrase(m)[0]);
        }
        if m == 5 {
            assert("close"@[1] != "comma"@[1]);
            assert(cmd_phrase(m)[0] == "comma"@);
            assert(command_core(ws[i + 0]) != cmd_phrase(m)[0]);
        }
        if m == 6 {
            assert("close"@[1] != "colon"@[1]);
            assert(cmd_phrase(m)[0] == "colon"@);
            assert(command_core(ws[i + 0]) != cmd_phrase(m)[0]);
        }
        if m == 7 {
            assert("close"@.len() != "semicolon"@.len());
            assert(cmd_phrase(m)[0] == "semicolon"@);
            assert(command_core(ws[i + 0]) != cmd_phrase(m)[0]);
        }
        if m == 8 {
            assert("close"@.len() != "semi"@.len());
            assert(cmd_phrase(m)[0] == "semi"@);
            assert(command_core(ws[i + 0]) != cmd_phrase(m)[0]);
        }
        if m == 9 {
            assert("close"@.len() != "hyphen"@.len());
            assert(cmd_phrase(m)[0] == "hyphen"@);
            assert(command_core(ws[i + 0]) != cmd_phrase(m)[0]);
        }
        if m == 10 {
            assert("close"@.len() != "dash"@.len());
            assert(cmd_phrase(m)[0] == "dash"@);
            assert(command_core(ws[i + 0]) != cmd_phrase(m)[0]);
        }
        if m == 11 {
            assert("close"@.len() != "open"@.len());
            assert(cmd_phrase(m)[0] == "open"@);
            assert(command_core(ws[i + 0]) != cmd_phrase(m)[0]);
        }
        if m == 12 {
            assert("close"@.len() != "open"@.len());
            assert(cmd_phrase(m)[0] == "open"@);
            assert(command_core(ws[i + 0]) != cmd_phrase(m)[0]);
        }
        if m == 13 {
            assert("quote"@[0] != "paren"@[0]);
            assert(cmd_phrase(m)[1] == "paren"@);
            assert(command_core(ws[i + 1]) != cmd_phrase(m)[1]);
        }
        if m == 14 {
            assert("quote"@.len() != "parenthesis"@.len());
            assert(cmd_phrase(m)[1] == "parenthesis"@);
            assert(command_core(ws[i + 1]) != cmd_phrase(m)[1]);
        }
        if m == 15 {
            assert("close"@.len() != "open"@.len());
            assert(cmd_phrase(m)[0] == "open"@);
            assert(command_core(ws[i + 0]) != cmd_phrase(m)[0]);
        }
        if m == 16 {
            assert("close"@[0] != "quote"@[0]);
            assert(cmd_phrase(m)[0] == "quote"@);
            assert(command_core(ws[i + 0]) != cmd_phrase(m)[0]);
        }
        if m == 17 {
            assert forall|j: int| 0 <= j < cmd_phrase(m).len() implies command_core(#[trigger] ws[i + j]) == cmd_phrase(m)[j] by {
                if j == 0 { assert(ws[i + j] == ws[i + 0]); }
                if j == 1 { assert(ws[i + j] == ws[i + 1]); }
            }
        }
        if m == 18 {
            assert("close"@.len() != "unquote"@.len());
            assert(cmd_phrase(m)[0] == "unquote"@);
            assert(command_core(ws[i + 0]) != cmd_phrase(m)[0]);
        }
        if m == 19 {
            assert("close"@.len() != "new"@.len());
            assert(cmd_phrase(m)[0] == "new"@);
            assert(command_core(ws[i + 0]) != cmd_phrase(m)[0]);
        }
        if m == 20 {
            assert("close"@.len() != "new"@.len());
            assert(cmd_phrase(m)[0] == "new"@);
            assert(command_core(ws[i + 0]) != cmd_phrase(m)[0]);
        }
    }
}

proof fn lemma_only_command_18(ws: Seq<Seq<char>>, i: int)
    requires
        0 <= i,
        i + 1 <= ws.len(),
        command_core(ws[i + 0]) == "unquote"@,
    ensures
        forall|m: int| 0 <= m < COMMAND_COUNT ==> phrase_at(ws, i, m) == (m == 18),
{
    reveal_strlit("close");
    reveal_strlit("colon");
    reveal_strlit("comma");
    reveal_strlit("dash");
    reveal_strlit("exclamation");
    reveal_strlit("full");
    reveal_strlit("hyphen");
    reveal_strlit("line");
    reveal_strlit("mark");
    reveal_strlit("new");
    reveal_strlit("open");
    reveal_strlit("paragraph");
    reveal_strlit("paren");
    reveal_strlit("parenthesis");
    reveal_strlit("period");
    reveal_strlit("point");
    reveal_strlit("question");
    reveal_strlit("quote");
    reveal_strlit("semi");
    reveal_strlit("semicolon");
    reveal_strlit("stop");
    reveal_strlit("unquote");
    assert forall|m: int| 0 <= m < COMMAND_COUNT implies phrase_at(ws, i, m) == (m == 18) by {
        if m == 0 {
            assert("unquote"@.len() != "question"@.len());
            assert(cmd_phrase(m)[0] == "question"@);
            assert(command_core(ws[i + 0]) != cmd_phrase(m)[0]);
        }
        if m == 1 {
            assert("unquote"@.len() != "exclamation"@.len());
            assert(cmd_phrase(m)[0] == "exclamation"@);
            assert(command_core(ws[i + 0]) != cmd_phrase(m)[0]);
        }
        if m == 2 {
            assert("unquote"@.len() != "exclamation"@.len());
            assert(cmd_phrase(m)[0] == "exclamation"@);
            assert(command_core(ws[i + 0]) != cmd_phrase(m)[0]);
        }
        if m == 3 {
            assert("unquote"@.len() != "full"@.len());
            assert(cmd_phrase(m)[0] == "full"@);
            assert(command_core(ws[i + 0]) != cmd_phrase(m)[0]);
        }
        if m == 4 {
            assert("unquote"@.len() != "period"@.len());
            assert(cmd_phrase(m)[0] == "period"@);
            assert(command_core(ws[i + 0]) != cmd_phrase(m)[0]);
        }
        if m == 5 {
            assert("unquote"@.len() != "comma"@.len());
            assert(cmd_phrase(m)[0] == "comma"@);
            assert(command_core(ws[i + 0]) != cmd_phrase(m)[0]);
        }
        if m == 6 {
            assert("unquote"@.len() != "colon"@.len());
            assert(cmd_phrase(m)[0] == "colon"@);
            assert(command_core(ws[i + 0]) != cmd_phrase(m)[0]);
        }
        if m == 7 {
            assert("unquote"@.len() != "semicolon"@.len());
            assert(cmd_phrase(m)[0] == "semicolon"@);
            assert(command_core(ws[i + 0]) != cmd_phrase(m)[0]);
        }
        if m == 8 {
            assert("unquote"@.len() != "semi"@.len());
            assert(cmd_phrase(m)[0] == "semi"@);
            assert(command_core(ws[i + 0]) != cmd_phrase(m)[0]);
        }
        if m == 9 {
            assert("unquote"@.len() != "hyphen"@.len());
            assert(cmd_phrase(m)[0] == "hyphen"@);
            assert(command_core(ws[i + 0]) != cmd_phrase(m)[0]);
        }
        if m == 10 {
            assert("unquote"@.len() != "dash"@.len());
            assert(cmd_phrase(m)[0] == "dash"@);
            assert(command_core(ws[i + 0]) != cmd_phrase(m)[0]);
        }
        if m == 11 {
            assert("unquote"@.len() != "open"@.len());
            assert(cmd_phrase(m)[0] == "open"@);
            assert(command_core(ws[i + 0]) != cmd_phrase(m)[0]);
        }
        if m == 12 {
            assert("unquote"@.len() != "open"@.len());
            assert(cmd_phrase(m)[0] == "open"@);
            assert(command_core(ws[i + 0]) != cmd_phrase(m)[0]);
        }
        if m == 13 {
            assert("unquote"@.len() != "close"@.len());
            assert(cmd_phrase(m)[0] == "close"@);
            assert(command_core(ws[i + 0]) != cmd_phrase(m)[0]);
        }
        if m == 14 {
            assert("unquote"@.len() != "close"@.len());
            assert(cmd_phrase(m)[0] == "close"@);
            assert(command_core(ws[i + 0]) != cmd_phrase(m)[0]);
        }
        if m == 15 {
            assert("unquote"@.len() != "open"@.len());
            assert(cmd_phrase(m)[0] == "open"@);
            assert(command_core(ws[i + 0]) != cmd_phrase(m)[0]);
        }
        if m == 16 {
            assert("unquote"@.len() != "quote"@.len());
            assert(cmd_phrase(m)[0] == "quote"@);
            assert(command_core(ws[i + 0]) != cmd_phrase(m)[0]);
        }
        if m == 17 {
            assert("unquote"@.len() != "close"@.len());
            assert(cmd_phrase(m)[0] == "close"@);
            assert(command_core(ws[i + 0]) != cmd_phrase(m)[0]);
        }
        if m == 18 {
            assert forall|j: int| 0 <= j < cmd_phrase(m).len() implies command_core(#[trigger] ws[i + j]) == cmd_phrase(m)[j] by {
                if j == 0 { assert(ws[i + j] == ws[i + 0]); }
            }
        }
        if m == 19 {
            assert("unquote"@.len() != "new"@.len());
            assert(cmd_phrase(m)[0] == "new"@);
            assert(command_core(ws[i + 0]) != cmd_phrase(m)[0]);
        }
        if m == 20 {
            assert("unquote"@.len() != "new"@.len());
            assert(cmd_phrase(m)[0] == "new"@);
            assert(command_core(ws[i + 0]) != cmd_phrase(m)[0]);
        }
    }
}

proof fn lemma_only_command_19(ws: Seq<Seq<char>>, i: int)
    requires
        0 <= i,
        i + 2 <= ws.len(),
        command_core(ws[i + 0]) == "new"@,
        command_core(ws[i + 1]) == "line"@,
    ensures
        forall|m: int| 0 <= m < COMMAND_COUNT ==> phrase_at(ws, i, m) == (m == 20),
{
    reveal_strlit("close");
    reveal_strlit("colon");
    reveal_strlit("comma");
    reveal_strlit("dash");
    reveal_strlit("exclamation");
    reveal_strlit("full");
    reveal_strlit("hyphen");
    reveal_strlit("line");
    reveal_strlit("mark");
    reveal_strlit("new");
    reveal_strlit("open");
    reveal_strlit("paragraph");
    reveal_strlit("paren");
    reveal_strlit("parenthesis");
    reveal_strlit("period");
    reveal_strlit("point");
    reveal_strlit("question");
    reveal_strlit("quote");
    reveal_strlit("semi");
    reveal_strlit("semicolon");
    reveal_strlit("stop");
    reveal_strlit("unquote");
    assert forall|m: int| 0 <= m < COMMAND_COUNT implies phrase_at(ws, i, m) == (m == 20) by {
        if m == 0 {
            assert("new"@.len() != "question"@.len());
            assert(cmd_phrase(m)[0] == "question"@);
            assert(command_core(ws[i + 0]) != cmd_phrase(m)[0]);
        }
        if m == 1 {
            assert("new"@.len() != "exclamation"@.len());
            assert(cmd_phrase(m)[0] == "exclamation"@);
            assert(command_core(ws[i + 0]) != cmd_phrase(m)[0]);
        }
        if m == 2 {
            assert("new"@.len() != "exclamation"@.len());
            assert(cmd_phrase(m)[0] == "exclamation"@);
            assert(command_core(ws[i + 0]) != cmd_phrase(m)[0]);
        }
        if m == 3 {
            assert("new"@.len() != "full"@.len());
            assert(cmd_phrase(m)[0] == "full"@);
            assert(command_core(ws[i + 0]) != cmd_phrase(m)[0]);
        }
        if m == 4 {
            assert("new"@.len() != "period"@.len());
            assert(cmd_phrase(m)[0] == "period"@);
            assert(command_core(ws[i + 0]) != cmd_phrase(m)[0]);
        }
        if m == 5 {
            assert("new"@.len() != "comma"@.len());
            assert(cmd_phrase(m)[0] == "comma"@);
            assert(command_core(ws[i + 0]) != cmd_phrase(m)[0]);
        }
        if m == 6 {
            assert("new"@.len() != "colon"@.len());
            assert(cmd_phrase(m)[0] == "colon"@);
            assert(command_core(ws[i + 0]) != cmd_phrase(m)[0]);
        }
        if m == 7 {
            assert("new"@.len() != "semicolon"@.len());
            assert(cmd_phrase(m)[0] == "semicolon"@);
            assert(command_core(ws[i + 0]) != cmd_phrase(m)[0]);
        }
        if m == 8 {
            assert("new"@.len() != "semi"@.len());
            assert(cmd_phrase(m)[0] == "semi"@);
            assert(command_core(ws[i + 0]) != cmd_phrase(m)[0]);
        }
        if m == 9 {
            assert("new"@.len() != "hyphen"@.len());
            assert(cmd_phrase(m)[0] == "hyphen"@);
            assert(command_core(ws[i + 0]) != cmd_phrase(m)[0]);
        }
        if m == 10 {
            assert("new"@.len() != "dash"@.len());
            assert(cmd_phrase(m)[0] == "dash"@);
            assert(command_core(ws[i + 0]) != cmd_phrase(m)[0]);
        }
        if m == 11 {
            assert("new"@.len() != "open"@.len());
            assert(cmd_phrase(m)[0] == "open"@);
            assert(command_core(ws[i + 0]) != cmd_phrase(m)[0]);
        }
        if m == 12 {
            assert("new"@.len() != "open"@.len());
            assert(cmd_phrase(m)[0] == "open"@);
            assert(command_core(ws[i + 0]) != cmd_phrase(m)[0]);
        }
        if m == 13 {
            assert("new"@.len() != "close"@.len());
            assert(cmd_phrase(m)[0] == "close"@);
            assert(command_core(ws[i + 0]) != cmd_phrase(m)[0]);
        }
        if m == 14 {
            assert("new"@.len() != "close"@.len());
            assert(cmd_phrase(m)[0] == "close"@);
            assert(command_core(ws[i + 0]) != cmd_phrase(m)[0]);
        }
        if m == 15 {
            assert("new"@.len() != "open"@.len());
            assert(cmd_phrase(m)[0] == "open"@);
            assert(command_core(ws[i + 0]) != cmd_phrase(m)[0]);
        }
        if m == 16 {
            assert("new"@.len() != "quote"@.len());
            assert(cmd_phrase(m)[0] == "quote"@);
            assert(command_core(ws[i + 0]) != cmd_phrase(m)[0]);
        }
        if m == 17 {
            assert("new"@.len() != "close"@.len());
            assert(cmd_phrase(m)[0] == "close"@);
            assert(command_core(ws[i + 0]) != cmd_phrase(m)[0]);
        }
        if m == 18 {
            assert("new"@.len() != "unquote"@.len());
            assert(cmd_phrase(m)[0] == "unquote"@);
            assert(command_core(ws[i + 0]) != cmd_phrase(m)[0]);
        }
        if m == 19 {
            assert("line"@.len() != "paragraph"@.len());
            assert(cmd_phrase(m)[1] == "paragraph"@);
            assert(command_core(ws[i + 1]) != cmd_phrase(m)[1]);
        }
        if m == 20 {
            assert forall|j: int| 0 <= j < cmd_phrase(m).len() implies command_core(#[trigger] ws[i + j]) == cmd_phrase(m)[j] by {
                if j == 0 { assert(ws[i + j] == ws[i + 0]); }
                if j == 1 { assert(ws[i + j] == ws[i + 1]); }
            }
        }
    }
}

proof fn lemma_only_command_20(ws: Seq<Seq<char>>, i: int)
    requires
        0 <= i,
        i + 2 <= ws.len(),
        command_core(ws[i + 0]) == "new"@,
        command_core(ws[i + 1]) == "paragraph"@,
    ensures
        forall|m: int| 0 <= m < COMMAND_COUNT ==> phrase_at(ws, i, m) == (m == 19),
{
    reveal_strlit("close");
    reveal_strlit("colon");
    reveal_strlit("comma");
    reveal_strlit("dash");
    reveal_strlit("exclamation");
    reveal_strlit("full");
    reveal_strlit("hyphen");
    reveal_strlit("line");
    reveal_strlit("mark");
    reveal_strlit("new");
    reveal_strlit("open");
    reveal_strlit("paragraph");
    reveal_strlit("paren");
    reveal_strlit("parenthesis");
    reveal_strlit("period");
    reveal_strlit("point");
    reveal_strlit("question");
    reveal_strlit("quote");
    reveal_strlit("semi");
    reveal_strlit("semicolon");
    reveal_strlit("stop");
    reveal_strlit("unquote");
    assert forall|m: int| 0 <= m < COMMAND_COUNT implies phrase_at(ws, i, m) == (m == 19) by {
        if m == 0 {
            assert("new"@.len() != "question"@.len());
            assert(cmd_phrase(m)[0] == "question"@);
            assert(command_core(ws[i + 0]) != cmd_phrase(m)[0]);
        }
        if m == 1 {
            assert("new"@.len() != "exclamation"@.len());
            assert(cmd_phrase(m)[0] == "exclamation"@);
            assert(command_core(ws[i + 0]) != cmd_phrase(m)[0]);
        }
        if m == 2 {
            assert("new"@.len() != "exclamation"@.len());
            assert(cmd_phrase(m)[0] == "exclamation"@);
            assert(command_core(ws[i + 0]) != cmd_phrase(m)[0]);
        }
        if m == 3 {
            assert("new"@.len() != "full"@.len());
            assert(cmd_phrase(m)[0] == "full"@);
            assert(command_core(ws[i + 0]) != cmd_phrase(m)[0]);
        }
        if m == 4 {
            assert("new"@.len() != "period"@.len());
            assert(cmd_phrase(m)[0] == "period"@);
            assert(command_core(ws[i + 0]) != cmd_phrase(m)[0]);
        }
        if m == 5 {
            assert("new"@.len() != "comma"@.len());
            assert(cmd_phrase(m)[0] == "comma"@);
            assert(command_core(ws[i + 0]) != cmd_phrase(m)[0]);
        }
        if m == 6 {
            assert("new"@.len() != "colon"@.len());
            assert(cmd_phrase(m)[0] == "colon"@);
            assert(command_core(ws[i + 0]) != cmd_phrase(m)[0]);
        }
        if m == 7 {
            assert("new"@.len() != "semicolon"@.len());
            assert(cmd_phrase(m)[0] == "semicolon"@);
            assert(command_core(ws[i + 0]) != cmd_phrase(m)[0]);
        }
        if m == 8 {
            assert("new"@.len() != "semi"@.len());
            assert(cmd_phrase(m)[0] == "semi"@);
            assert(command_core(ws[i + 0]) != cmd_phrase(m)[0]);
        }
        if m == 9 {
            assert("new"@.len() != "hyphen"@.len());
            assert(cmd_phrase(m)[0] == "hyphen"@);
            assert(command_core(ws[i + 0]) != cmd_phrase(m)[0]);
        }
        if m == 10 {
            assert("new"@.len() != "dash"@.len());
            assert(cmd_phrase(m)[0] == "dash"@);
            assert(command_core(ws[i + 0]) != cmd_phrase(m)[0]);
        }
        if m == 11 {
            assert("new"@.len() != "open"@.len());
            assert(cmd_phrase(m)[0] == "open"@);
            assert(command_core(ws[i + 0]) != cmd_phrase(m)[0]);
        }
        if m == 12 {
            assert("new"@.len() != "open"@.len());
            assert(cmd_phrase(m)[0] == "open"@);
            assert(command_core(ws[i + 0]) != cmd_phrase(m)[0]);
        }
        if m == 13 {
            assert("new"@.len() != "close"@.len());
            assert(cmd_phrase(m)[0] == "close"@);
            assert(command_core(ws[i + 0]) != cmd_phrase(m)[0]);
        }
        if m == 14 {
            assert("new"@.len() != "close"@.len());
            assert(cmd_phrase(m)[0] == "close"@);
            assert(command_core(ws[i + 0]) != cmd_phrase(m)[0]);
        }
        if m == 15 {
            assert("new"@.len() != "open"@.len());
            assert(cmd_phrase(m)[0] == "open"@);
            assert(command_core(ws[i + 0]) != cmd_phrase(m)[0]);
        }
        if m == 16 {
            assert("new"@.len() != "quote"@.len());
            assert(cmd_phrase(m)[0] == "quote"@);
            assert(command_core(ws[i + 0]) != cmd_phrase(m)[0]);
        }
        if m == 17 {
            assert("new"@.len() != "close"@.len());
            assert(cmd_phrase(m)[0] == "close"@);
            assert(command_core(ws[i + 0]) != cmd_phrase(m)[0]);
        }
        if m == 18 {
            assert("new"@.len() != "unquote"@.len());
            assert(cmd_phrase(m)[0] == "unquote"@);
            assert(command_core(ws[i + 0]) != cmd_phrase(m)[0]);
        }
        if m == 19 {
            assert forall|j: int| 0 <= j < cmd_phrase(m).len() implies command_core(#[trigger] ws[i + j]) == cmd_phrase(m)[j] by {
                if j == 0 { assert(ws[i + j] == ws[i + 0]); }
                if j == 1 { assert(ws[i + j] == ws[i + 1]); }
            }
        }
        if m == 20 {
            assert("paragraph"@.len() != "line"@.len());
            assert(cmd_phrase(m)[1] == "line"@);
            assert(command_core(ws[i + 1]) != cmd_phrase(m)[1]);
        }
    }
}

/// Each spoken punctuation command prints its symbol and closes up to the side it names:
/// between two ordinary words `x` and `y`, the words of command `n` come out as `x`, a space
/// only when the symbol closes up to the word after, the symbol, a space only when it closes
/// up to the word before, and `y`; said on their own they come out as the symbol alone.
/// Words are compared by their lowercased core, so casing and surrounding punctuation of the
/// spoken words do not matter.
pub proof fn law_each_command_prints_its_symbol(n: int, x: Seq<char>, cmd: Seq<Seq<char>>, y: Seq<char>)
    requires
        0 <= n < COMMAND_COUNT,
        cmd.len() == spoken_command(n).0.len(),
        forall|j: int| 0 <= j < cmd.len() ==> command_core(#[trigger] cmd[j]) == spoken_command(n).0[j],
        plain_word(x),
        plain_word(y),
    ensures
        punct_from(cmd, 0, false) == spoken_command(n).1,
        punct_from(seq![x] + cmd + seq![y], 0, false) == x + (if spoken_command(n).2 == Attach::Right {
            seq![' ']
        } else {
            seq![]
        }) + spoken_command(n).1 + (if spoken_command(n).2 == Attach::Left {
            seq![' ']
        } else {
            seq![]
        }) + y,
{
    let ws = seq![x] + cmd + seq![y];
    let m = cmd.len() as int;
    assert(ws[0] == x);
    assert(ws[m + 1] == y);
    assert forall|j: int| 0 <= j < m implies ws[1 + j] == cmd[j] by {}
    lemma_plain_word_at(ws, 0);
    lemma_plain_word_at(ws, m + 1);
    assert(punct_from(ws, m + 2, true) == Seq::<char>::empty());
    reveal_strlit("close");
    reveal_strlit("colon");
    reveal_strlit("comma");
    reveal_strlit("dash");
    reveal_strlit("exclamation");
    reveal_strlit("full");
    reveal_strlit("hyphen");
    reveal_strlit("line");
    reveal_strlit("mark");
    reveal_strlit("new");
    reveal_strlit("open");
    reveal_strlit("paragraph");
    reveal_strlit("paren");
    reveal_strlit("parenthesis");
    reveal_strlit("period");
    reveal_strlit("point");
    reveal_strlit("question");
    reveal_strlit("quote");
    reveal_strlit("semi");
    reveal_strlit("semicolon");
    reveal_strlit("stop");
    reveal_strlit("unquote");
    if n == 0 {
        assert(command_core(cmd[0]) == "comma"@);
        assert(command_core(ws[1int + 0]) == "comma"@);
        lemma_only_command_0(cmd, 0);
        lemma_best_unique(cmd, 0, COMMAND_COUNT as int, 5);
        assert(punct_from(cmd, 1, cmd_attach(5) == Attach::Left) == Seq::<char>::empty());
        lemma_only_command_0(ws, 1);
        lemma_best_unique(ws, 1, COMMAND_COUNT as int, 5);
        assert(cmd_phrase(5).len() == 1);
        let a = cmd_attach(5) == Attach::Left;
        assert(cmd_symbol(5) == spoken_command(n).1);
        assert(cmd_attach(5) == spoken_command(n).2);
        assert(punct_from(ws, 1, true) == (if cmd_attach(5) == Attach::Right { seq![' '] } else { seq![] })
            + cmd_symbol(5) + punct_from(ws, 1int + 1, a));
        assert(punct_from(ws, 1int + 1, a) == (if a { seq![' '] } else { seq![] }) + y + punct_from(ws, 2int + 1, true));
    } else if n == 1 {
        assert(command_core(cmd[0]) == "period"@);
        assert(command_core(ws[1int + 0]) == "period"@);
        lemma_only_command_1(cmd, 0);
        lemma_best_unique(cmd, 0, COMMAND_COUNT as int, 4);
        assert(punct_from(cmd, 1, cmd_attach(4) == Attach::Left) == Seq::<char>::empty());
        lemma_only_command_1(ws, 1);
        lemma_best_unique(ws, 1, COMMAND_COUNT as int, 4);
        assert(cmd_phrase(4).len() == 1);
        let a = cmd_attach(4) == Attach::Left;
        assert(cmd_symbol(4) == spoken_command(n).1);
        assert(cmd_attach(4) == spoken_command(n).2);
        assert(punct_from(ws, 1, true) == (if cmd_attach(4) == Attach::Right { seq![' '] } else { seq![] })
            + cmd_symbol(4) + punct_from(ws, 1int + 1, a));
        assert(punct_from(ws, 1int + 1, a) == (if a { seq![' '] } else { seq![] }) + y + punct_from(ws, 2int + 1, true));
    } else if n == 2 {
        assert(command_core(cmd[0]) == "full"@);
        assert(command_core(ws[1int + 0]) == "full"@);
        assert(command_core(cmd[1]) == "stop"@);
        assert(command_core(ws[1int + 1]) == "stop"@);
        lemma_only_command_2(cmd, 0);
        lemma_best_unique(cmd, 0, COMMAND_COUNT as int, 3);
        assert(punct_from(cmd, 2, cmd_attach(3) == Attach::Left) == Seq::<char>::empty());
        lemma_only_command_2(ws, 1);
        lemma_best_unique(ws, 1, COMMAND_COUNT as int, 3);
        assert(cmd_phrase(3).len() == 2);
        let a = cmd_attach(3) == Attach::Left;
        assert(cmd_symbol(3) == spoken_command(n).1);
        assert(cmd_attach(3) == spoken_command(n).2);
        assert(punct_from(ws, 1, true) == (if cmd_attach(3) == Attach::Right { seq![' '] } else { seq![] })
            + cmd_symbol(3) + punct_from(ws, 1int + 2, a));
        assert(punct_from(ws, 1int + 2, a) == (if a { seq![' '] } else { seq![] }) + y + punct_from(ws, 2int + 2, true));
    } else if n == 3 {
        assert(command_core(cmd[0]) == "question"@);
        assert(command_core(ws[1int + 0]) == "question"@);
        assert(command_core(cmd[1]) == "mark"@);
        assert(command_core(ws[1int + 1]) == "mark"@);
        lemma_only_command_3(cmd, 0);
        lemma_best_unique(cmd, 0, COMMAND_COUNT as int, 0);
        assert(punct_from(cmd, 2, cmd_attach(0) == Attach::Left) == Seq::<char>::empty());
        lemma_only_command_3(ws, 1);
        lemma_best_unique(ws, 1, COMMAND_COUNT as int, 0);
        assert(cmd_phrase(0).len() == 2);
        let a = cmd_attach(0) == Attach::Left;
        assert(cmd_symbol(0) == spoken_command(n).1);
        assert(cmd_attach(0) == spoken_command(n).2);
        assert(punct_from(ws, 1, true) == (if cmd_attach(0) == Attach::Right { seq![' '] } else { seq![] })
            + cmd_symbol(0) + punct_from(ws, 1int + 2, a));
        assert(punct_from(ws, 1int + 2, a) == (if a { seq![' '] } else { seq![] }) + y + punct_from(ws, 2int + 2, true));
    } else if n == 4 {
        assert(command_core(cmd[0]) == "exclamation"@);
        assert(command_core(ws[1int + 0]) == "exclamation"@);
        assert(command_core(cmd[1]) == "mark"@);
        assert(command_core(ws[1int + 1]) == "mark"@);
        lemma_only_command_4(cmd, 0);
        lemma_best_unique(cmd, 0, COMMAND_COUNT as int, 1);
        assert(punct_from(cmd, 2, cmd_attach(1) == Attach::Left) == Seq::<char>::empty());
        lemma_only_command_4(ws, 1);
        lemma_best_unique(ws, 1, COMMAND_COUNT as int, 1);
        assert(cmd_phrase(1).len() == 2);
        let a = cmd_attach(1) == Attach::Left;
        assert(cmd_symbol(1) == spoken_command(n).1);
        assert(cmd_attach(1) == spoken_command(n).2);
        assert(punct_from(ws, 1, true) == (if cmd_attach(1) == Attach::Right { seq![' '] } else { seq![] })
            + cmd_symbol(1) + punct_from(ws, 1int + 2, a));
        assert(punct_from(ws, 1int + 2, a) == (if a { seq![' '] } else { seq![] }) + y + punct_from(ws, 2int + 2, true));
    } else if n == 5 {
        assert(command_core(cmd[0]) == "exclamation"@);
        assert(command_core(ws[1int + 0]) == "exclamation"@);
        assert(command_core(cmd[1]) == "point"@);
        assert(command_core(ws[1int + 1]) == "point"@);
        lemma_only_command_5(cmd, 0);
        lemma_best_unique(cmd, 0, COMMAND_COUNT as int, 2);
        assert(punct_from(cmd, 2, cmd_attach(2) == Attach::Left) == Seq::<char>::empty());
        lemma_only_command_5(ws, 1);
        lemma_best_unique(ws, 1, COMMAND_COUNT as int, 2);
        assert(cmd_phrase(2).len() == 2);
        let a = cmd_attach(2) == Attach::Left;
        assert(cmd_symbol(2) == spoken_command(n).1);
        assert(cmd_attach(2) == spoken_command(n).2);
        assert(punct_from(ws, 1, true) == (if cmd_attach(2) == Attach::Right { seq![' '] } else { seq![] })
            + cmd_symbol(2) + punct_from(ws, 1int + 2, a));
        assert(punct_from(ws, 1int + 2, a) == (if a { seq![' '] } else { seq![] }) + y + punct_from(ws, 2int + 2, true));
    } else if n == 6 {
        assert(command_core(cmd[0]) == "colon"@);
        assert(command_core(ws[1int + 0]) == "colon"@);
        lemma_only_command_6(cmd, 0);
        lemma_best_unique(cmd, 0, COMMAND_COUNT as int, 6);
        assert(punct_from(cmd, 1, cmd_attach(6) == Attach::Left) == Seq::<char>::empty());
        lemma_only_command_6(ws, 1);
        lemma_best_unique(ws, 1, COMMAND_COUNT as int, 6);
        assert(cmd_phrase(6).len() == 1);
        let a = cmd_attach(6) == Attach::Left;
        assert(cmd_symbol(6) == spoken_command(n).1);
        assert(cmd_attach(6) == spoken_command(n).2);
        assert(punct_from(ws, 1, true) == (if cmd_attach(6) == Attach::Right { seq![' '] } else { seq![] })
            + cmd_symbol(6) + punct_from(ws, 1int + 1, a));
        assert(punct_from(ws, 1int + 1, a) == (if a { seq![' '] } else { seq![] }) + y + punct_from(ws, 2int + 1, true));
    } else if n == 7 {
        assert(command_core(cmd[0]) == "semicolon"@);
        assert(command_core(ws[1int + 0]) == "semicolon"@);
        lemma_only_command_7(cmd, 0);
        lemma_best_unique(cmd, 0, COMMAND_COUNT as int, 7);
        assert(punct_from(cmd, 1, cmd_attach(7) == Attach::Left) == Seq::<char>::empty());
        lemma_only_command_7(ws, 1);
        lemma_best_unique(ws, 1, COMMAND_COUNT as int, 7);
        assert(cmd_phrase(7).len() == 1);
        let a = cmd_attach(7) == Attach::Left;
        assert(cmd_symbol(7) == spoken_command(n).1);
        assert(cmd_attach(7) == spoken_command(n).2);
        assert(punct_from(ws, 1, true) == (if cmd_attach(7) == Attach::Right { seq![' '] } else { seq![] })
            + cmd_symbol(7) + punct_from(ws, 1int + 1, a));
        assert(punct_from(ws, 1int + 1, a) == (if a { seq![' '] } else { seq![] }) + y + punct_from(ws, 2int + 1, true));
    } else if n == 8 {
        assert(command_core(cmd[0]) == "semi"@);
        assert(command_core(ws[1int + 0]) == "semi"@);
        assert(command_core(cmd[1]) == "colon"@);
        assert(command_core(ws[1int + 1]) == "colon"@);
        lemma_only_command_8(cmd, 0);
        lemma_best_unique(cmd, 0, COMMAND_COUNT as int, 8);
        assert(punct_from(cmd, 2, cmd_attach(8) == Attach::Left) == Seq::<char>::empty());
        lemma_only_command_8(ws, 1);
        lemma_best_unique(ws, 1, COMMAND_COUNT as int, 8);
        assert(cmd_phrase(8).len() == 2);
        let a = cmd_attach(8) == Attach::Left;
        assert(cmd_symbol(8) == spoken_command(n).1);
        assert(cmd_attach(8) == spoken_command(n).2);
        assert(punct_from(ws, 1, true) == (if cmd_attach(8) == Attach::Right { seq![' '] } else { seq![] })
            + cmd_symbol(8) + punct_from(ws, 1int + 2, a));
        assert(punct_from(ws, 1int + 2, a) == (if a { seq![' '] } else { seq![] }) + y + punct_from(ws, 2int + 2, true));
    } else if n == 9 {
        assert(command_core(cmd[0]) == "hyphen"@);
        assert(command_core(ws[1int + 0]) == "hyphen"@);
        lemma_only_command_9(cmd, 0);
        lemma_best_unique(cmd, 0, COMMAND_COUNT as int, 9);
        assert(punct_from(cmd, 1, cmd_attach(9) == Attach::Left) == Seq::<char>::empty());
        lemma_only_command_9(ws, 1);
        lemma_best_unique(ws, 1, COMMAND_COUNT as int, 9);
        assert(cmd_phrase(9).len() == 1);
        let a = cmd_attach(9) == Attach::Left;
        assert(cmd_symbol(9) == spoken_command(n).1);
        assert(cmd_attach(9) == spoken_command(n).2);
        assert(punct_from(ws, 1, true) == (if cmd_attach(9) == Attach::Right { seq![' '] } else { seq![] })
            + cmd_symbol(9) + punct_from(ws, 1int + 1, a));
        assert(punct_from(ws, 1int + 1, a) == (if a { seq![' '] } else { seq![] }) + y + punct_from(ws, 2int + 1, true));
    } else if n == 10 {
        assert(command_core(cmd[0]) == "dash"@);
        assert(command_core(ws[1int + 0]) == "dash"@);
        lemma_only_command_10(cmd, 0);
        lemma_best_unique(cmd, 0, COMMAND_COUNT as int, 10);
        assert(punct_from(cmd, 1, cmd_attach(10) == Attach::Left) == Seq::<char>::empty());
        lemma_only_command_10(ws, 1);
        lemma_best_unique(ws, 1, COMMAND_COUNT as int, 10);
        assert(cmd_phrase(10).len() == 1);
        let a = cmd_attach(10) == Attach::Left;
        assert(cmd_symbol(10) == spoken_command(n).1);
        assert(cmd_attach(10) == spoken_command(n).2);
        assert(punct_from(ws, 1, true) == (if cmd_attach(10) == Attach::Right { seq![' '] } else { seq![] })
            + cmd_symbol(10) + punct_from(ws, 1int + 1, a));
        assert(punct_from(ws, 1int + 1, a) == (if a { seq![' '] } else { seq![] }) + y + punct_from(ws, 2int + 1, true));
    } else if n == 11 {
        assert(command_core(cmd[0]) == "open"@);
        assert(command_core(ws[1int + 0]) == "open"@);
        assert(command_core(cmd[1]) == "paren"@);
        assert(command_core(ws[1int + 1]) == "paren"@);
        lemma_only_command_11(cmd, 0);
        lemma_best_unique(cmd, 0, COMMAND_COUNT as int, 11);
        assert(punct_from(cmd, 2, cmd_attach(11) == Attach::Left) == Seq::<char>::empty());
        lemma_only_command_11(ws, 1);
        lemma_best_unique(ws, 1, COMMAND_COUNT as int, 11);
        assert(cmd_phrase(11).len() == 2);
        let a = cmd_attach(11) == Attach::Left;
        assert(cmd_symbol(11) == spoken_command(n).1);
        assert(cmd_attach(11) == spoken_command(n).2);
        assert(punct_from(ws, 1, true) == (if cmd_attach(11) == Attach::Right { seq![' '] } else { seq![] })
            + cmd_symbol(11) + punct_from(ws, 1int + 2, a));
        assert(punct_from(ws, 1int + 2, a) == (if a { seq![' '] } else { seq![] }) + y + punct_from(ws, 2int + 2, true));
    } else if n == 12 {
        assert(command_core(cmd[0]) == "open"@);
        assert(command_core(ws[1int + 0]) == "open"@);
        assert(command_core(cmd[1]) == "parenthesis"@);
        assert(command_core(ws[1int + 1]) == "parenthesis"@);
        lemma_only_command_12(cmd, 0);
        lemma_best_unique(cmd, 0, COMMAND_COUNT as int, 12);
        assert(punct_from(cmd, 2, cmd_attach(12) == Attach::Left) == Seq::<char>::empty());
        lemma_only_command_12(ws, 1);
        lemma_best_unique(ws, 1, COMMAND_COUNT as int, 12);
        assert(cmd_phrase(12).len() == 2);
        let a = cmd_attach(12) == Attach::Left;
        assert(cmd_symbol(12) == spoken_command(n).1);
        assert(cmd_attach(12) == spoken_command(n).2);
        assert(punct_from(ws, 1, true) == (if cmd_attach(12) == Attach::Right { seq![' '] } else { seq![] })
            + cmd_symbol(12) + punct_from(ws, 1int + 2, a));
        assert(punct_from(ws, 1int + 2, a) == (if a { seq![' '] } else { seq![] }) + y + punct_from(ws, 2int + 2, true));
    } else if n == 13 {
        assert(command_core(cmd[0]) == "close"@);
        assert(command_core(ws[1int + 0]) == "close"@);
        assert(command_core(cmd[1]) == "paren"@);
        assert(command_core(ws[1int + 1]) == "paren"@);
        lemma_only_command_13(cmd, 0);
        lemma_best_unique(cmd, 0, COMMAND_COUNT as int, 13);
        assert(punct_from(cmd, 2, cmd_attach(13) == Attach::Left) == Seq::<char>::empty());
        lemma_only_command_13(ws, 1);
        lemma_best_unique(ws, 1, COMMAND_COUNT as int, 13);
        assert(cmd_phrase(13).len() == 2);
        let a = cmd_attach(13) == Attach::Left;
        assert(cmd_symbol(13) == spoken_command(n).1);
        assert(cmd_attach(13) == spoken_command(n).2);
        assert(punct_from(ws, 1, true) == (if cmd_attach(13) == Attach::Right { seq![' '] } else { seq![] })
            + cmd_symbol(13) + punct_from(ws, 1int + 2, a));
        assert(punct_from(ws, 1int + 2, a) == (if a { seq![' '] } else { seq![] }) + y + punct_from(ws, 2int + 2, true));
    } else if n == 14 {
        assert(command_core(cmd[0]) == "close"@);
        assert(command_core(ws[1int + 0]) == "close"@);
        assert(command_core(cmd[1]) == "parenthesis"@);
        assert(command_core(ws[1int + 1]) == "parenthesis"@);
        lemma_only_command_14(cmd, 0);
        lemma_best_unique(cmd, 0, COMMAND_COUNT as int, 14);
        assert(punct_from(cmd, 2, cmd_attach(14) == Attach::Left) == Seq::<char>::empty());
        lemma_only_command_14(ws, 1);
        lemma_best_unique(ws, 1, COMMAND_COUNT as int, 14);
        assert(cmd_phrase(14).len() == 2);
        let a = cmd_attach(14) == Attach::Left;
        assert(cmd_symbol(14) == spoken_command(n).1);
        assert(cmd_attach(14) == spoken_command(n).2);
        assert(punct_from(ws, 1, true) == (if cmd_attach(14) == Attach::Right { seq![' '] } else { seq![] })
            + cmd_symbol(14) + punct_from(ws, 1int + 2, a));
        assert(punct_from(ws, 1int + 2, a) == (if a { seq![' '] } else { seq![] }) + y + punct_from(ws, 2int + 2, true));
    } else if n == 15 {
        assert(command_core(cmd[0]) == "open"@);
        assert(command_core(ws[1int + 0]) == "open"@);
        assert(command_core(cmd[1]) == "quote"@);
        assert(command_core(ws[1int + 1]) == "quote"@);
        lemma_only_command_15(cmd, 0);
        lemma_best_unique(cmd, 0, COMMAND_COUNT as int, 15);
        assert(punct_from(cmd, 2, cmd_attach(15) == Attach::Left) == Seq::<char>::empty());
        lemma_only_command_15(ws, 1);
        lemma_best_unique(ws, 1, COMMAND_COUNT as int, 15);
        assert(cmd_phrase(15).len() == 2);
        let a = cmd_attach(15) == Attach::Left;
        assert(cmd_symbol(15) == spoken_command(n).1);
        assert(cmd_attach(15) == spoken_command(n).2);
        assert(punct_from(ws, 1, true) == (if cmd_attach(15) == Attach::Right { seq![' '] } else { seq![] })
            + cmd_symbol(15) + punct_from(ws, 1int + 2, a));
        assert(punct_from(ws, 1int + 2, a) == (if a { seq![' '] } else { seq![] }) + y + punct_from(ws, 2int + 2, true));
    } else if n == 16 {
        assert(command_core(cmd[0]) == "quote"@);
        assert(command_core(ws[1int + 0]) == "quote"@);
        lemma_only_command_16(cmd, 0);
        lemma_best_unique(cmd, 0, COMMAND_COUNT as int, 16);
        assert(punct_from(cmd, 1, cmd_attach(16) == Attach::Left) == Seq::<char>::empty());
        lemma_only_command_16(ws, 1);
        lemma_best_unique(ws, 1, COMMAND_COUNT as int, 16);
        assert(cmd_phrase(16).len() == 1);
        let a = cmd_attach(16) == Attach::Left;
        assert(cmd_symbol(16) == spoken_command(n).1);
        assert(cmd_attach(16) == spoken_command(n).2);
        assert(punct_from(ws, 1, true) == (if cmd_attach(16) == Attach::Right { seq![' '] } else { seq![] })
            + cmd_symbol(16) + punct_from(ws, 1int + 1, a));
        assert(punct_from(ws, 1int + 1, a) == (if a { seq![' '] } else { seq![] }) + y + punct_from(ws, 2int + 1, true));
    } else if n == 17 {
        assert(command_core(cmd[0]) == "close"@);
        assert(command_core(ws[1int + 0]) == "close"@);
        assert(command_core(cmd[1]) == "quote"@);
        assert(command_core(ws[1int + 1]) == "quote"@);
        lemma_only_command_17(cmd, 0);
        lemma_best_unique(cmd, 0, COMMAND_COUNT as int, 17);
        assert(punct_from(cmd, 2, cmd_attach(17) == Attach::Left) == Seq::<char>::empty());
        lemma_only_command_17(ws, 1);
        lemma_best_unique(ws, 1, COMMAND_COUNT as int, 17);
        assert(cmd_phrase(17).len() == 2);
        let a = cmd_attach(17) == Attach::Left;
        assert(cmd_symbol(17) == spoken_command(n).1);
        assert(cmd_attach(17) == spoken_command(n).2);
        assert(punct_from(ws, 1, true) == (if cmd_attach(17) == Attach::Right { seq![' '] } else { seq![] })
            + cmd_symbol(17) + punct_from(ws, 1int + 2, a));
        assert(punct_from(ws, 1int + 2, a) == (if a { seq![' '] } else { seq![] }) + y + punct_from(ws, 2int + 2, true));
    } else if n == 18 {
        assert(command_core(cmd[0]) == "unquote"@);
        assert(command_core(ws[1int + 0]) == "unquote"@);
        lemma_only_command_18(cmd, 0);
        lemma_best_unique(cmd, 0, COMMAND_COUNT as int, 18);
        assert(punct_from(cmd, 1, cmd_attach(18) == Attach::Left) == Seq::<char>::empty());
        lemma_only_command_18(ws, 1);
        lemma_best_unique(ws, 1, COMMAND_COUNT as int, 18);
        assert(cmd_phrase(18).len() == 1);
        let a = cmd_attach(18) == Attach::Left;
        assert(cmd_symbol(18) == spoken_command(n).1);
        assert(cmd_attach(18) == spoken_command(n).2);
        assert(punct_from(ws, 1, true) == (if cmd_attach(18) == Attach::Right { seq![' '] } else { seq![] })
            + cmd_symbol(18) + punct_from(ws, 1int + 1, a));
        assert(punct_from(ws, 1int + 1, a) == (if a { seq![' '] } else { seq![] }) + y + punct_from(ws, 2int + 1, true));
    } else if n == 19 {
        assert(command_core(cmd[0]) == "new"@);
        assert(command_core(ws[1int + 0]) == "new"@);
        assert(command_core(cmd[1]) == "line"@);
        assert(command_core(ws[1int + 1]) == "line"@);
        lemma_only_command_19(cmd, 0);
        lemma_best_unique(cmd, 0, COMMAND_COUNT as int, 20);
        assert(punct_from(cmd, 2, cmd_attach(20) == Attach::Left) == Seq::<char>::empty());
        lemma_only_command_19(ws, 1);
        lemma_best_unique(ws, 1, COMMAND_COUNT as int, 20);
        assert(cmd_phrase(20).len() == 2);
        let a = cmd_attach(20) == Attach::Left;
        assert(cmd_symbol(20) == spoken_command(n).1);
        assert(cmd_attach(20) == spoken_command(n).2);
        assert(punct_from(ws, 1, true) == (if cmd_attach(20) == Attach::Right { seq![' '] } else { seq![] })
            + cmd_symbol(20) + punct_from(ws, 1int + 2, a));
        assert(punct_from(ws, 1int + 2, a) == (if a { seq![' '] } else { seq![] }) + y + punct_from(ws, 2int + 2, true));
    } else if n == 20 {
        assert(command_core(cmd[0]) == "new"@);
        assert(command_core(ws[1int + 0]) == "new"@);
        assert(command_core(cmd[1]) == "paragraph"@);
        assert(command_core(ws[1int + 1]) == "paragraph"@);
        lemma_only_command_20(cmd, 0);
        lemma_best_unique(cmd, 0, COMMAND_COUNT as int, 19);
        assert(punct_from(cmd, 2, cmd_attach(19) == Attach::Left) == Seq::<char>::empty());
        lemma_only_command_20(ws, 1);
        lemma_best_unique(ws, 1, COMMAND_COUNT as int, 19);
        assert(cmd_phrase(19).len() == 2);
        let a = cmd_attach(19) == Attach::Left;
        assert(cmd_symbol(19) == spoken_command(n).1);
        assert(cmd_attach(19) == spoken_command(n).2);
        assert(punct_from(ws, 1, true) == (if cmd_attach(19) == Attach::Right { seq![' '] } else { seq![] })
            + cmd_symbol(19) + punct_from(ws, 1int + 2, a));
        assert(punct_from(ws, 1int + 2, a) == (if a { seq![' '] } else { seq![] }) + y + punct_from(ws, 2int + 2, true));
    }
    assert(punct_from(ws, 0, false) == x + punct_from(ws, 1, true)) by {
        assert(Seq::<char>::empty() + ws[0] =~= x);
    }
    assert(punct_from(ws, 0, false) =~= x + (if spoken_command(n).2 == Attach::Right {
        seq![' ']
    } else {
        seq![]
    }) + spoken_command(n).1 + (if spoken_command(n).2 == Attach::Left {
        seq![' ']
    } else {
        seq![]
    }) + y);
}

} // verus!
