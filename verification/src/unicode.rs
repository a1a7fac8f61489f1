//! Character-level building blocks shared by the text passes: collecting the
//! characters of a string, building strings back, and Unicode character
//! classification taken from the standard library.
use vstd::prelude::*;

verus! {

broadcast use vstd::string::axiom_spec_iter;

/// The characters of `s`, in order.
pub fn chars_of(s: &str) -> (v: Vec<char>)
    ensures
        v@ == s@,
{
    let mut v: Vec<char> = Vec::new();
    for c in it: s.chars()
        invariant
            v@ == it.seq().take(it.index()),
            it.seq() == s@,
    {
        v.push(c);
    }
    v
}

/// Appends one character to a string (`String::push`).
#[verifier::external_body]
pub(crate) fn push_char(s: &mut String, c: char)
    ensures
        final(s)@ == old(s)@.push(c),
{
    s.push(c);
}

/// The string made of the characters of `v`.
pub fn string_from(v: &[char]) -> (s: String)
    ensures
        s@ == v@,
{
    let mut s = String::new();
    let mut i: usize = 0;
    while i < v.len()
        invariant
            i <= v@.len(),
            s@ == v@.take(i as int),
        decreases v@.len() - i,
    {
        push_char(&mut s, v[i]);
        i += 1;
        assert(v@.take(i as int) =~= v@.take((i - 1) as int).push(v@[i - 1]));
    }
    assert(v@.take(v@.len() as int) =~= v@);
    s
}

} // verus!

verus! {

// ---------------------------------------------------------------------------
// Unicode character classification (from `char`'s inherent methods).
// ---------------------------------------------------------------------------

/// Whether `c` has the Unicode `White_Space` property, as `char::is_whitespace` decides it:
/// tab through carriage return, space, next line, no-break space, ogham space mark, the en
/// quad through the hair space, the line and paragraph separators, the narrow no-break
/// space, the medium mathematical space and the ideographic space.
pub open spec fn whitespace_char(c: char) -> bool {
    ||| '\u{9}' <= c && c <= '\u{d}'
    ||| c == ' '
    ||| c == '\u{85}'
    ||| c == '\u{a0}'
    ||| c == '\u{1680}'
    ||| '\u{2000}' <= c && c <= '\u{200a}'
    ||| c == '\u{2028}'
    ||| c == '\u{2029}'
    ||| c == '\u{202f}'
    ||| c == '\u{205f}'
    ||| c == '\u{3000}'
}

/// Whether `c` has the Unicode `Alphabetic` property (`char::is_alphabetic`).
pub uninterp spec fn alphabetic_char(c: char) -> bool;

/// Whether `c` is in a numeric general category (`char::is_numeric`).
pub uninterp spec fn numeric_char(c: char) -> bool;

/// Whether `c` has the Unicode `Uppercase` property (`char::is_uppercase`).
pub uninterp spec fn uppercase_char(c: char) -> bool;

/// Whether `c` has the Unicode `Lowercase` property (`char::is_lowercase`).
pub uninterp spec fn lowercase_char(c: char) -> bool;

/// The characters `char::to_lowercase` yields for `c`.
pub uninterp spec fn char_lower(c: char) -> Seq<char>;

/// The characters `char::to_uppercase` yields for `c`.
pub uninterp spec fn char_upper(c: char) -> Seq<char>;

/// The string `str::to_lowercase` returns for `s`.
pub uninterp spec fn str_lower(s: Seq<char>) -> Seq<char>;

/// The string `str::to_uppercase` returns for `s`.
pub uninterp spec fn str_upper(s: Seq<char>) -> Seq<char>;

/// `char::is_alphanumeric`: by its documentation, alphabetic or numeric.
pub open spec fn alnum_char(c: char) -> bool {
    alphabetic_char(c) || numeric_char(c)
}

/// Whether `c` has the Unicode `White_Space` property (`char::is_whitespace`).
pub(crate) fn is_whitespace(c: char) -> (b: bool)
    ensures
        b == whitespace_char(c),
{
    ('\u{9}' <= c && c <= '\u{d}') || c == ' ' || c == '\u{85}' || c == '\u{a0}' || c == '\u{1680}' || (
    '\u{2000}' <= c && c <= '\u{200a}') || c == '\u{2028}' || c == '\u{2029}' || c == '\u{202f}' || c
        == '\u{205f}' || c == '\u{3000}'
}

/// `char::is_alphabetic`.
#[verifier::external_body]
pub(crate) fn is_alphabetic(c: char) -> (b: bool)
    ensures
        b == alphabetic_char(c),
{
    c.is_alphabetic()
}

/// `char::is_numeric`.
#[verifier::external_body]
pub(crate) fn is_numeric(c: char) -> (b: bool)
    ensures
        b == numeric_char(c),
{
    c.is_numeric()
}

/// `char::is_alphanumeric`, documented as `is_alphabetic() || is_numeric()`.
#[verifier::external_body]
pub(crate) fn is_alphanumeric(c: char) -> (b: bool)
    ensures
        b == alnum_char(c),
{
    c.is_alphanumeric()
}

/// `char::is_uppercase`.
#[verifier::external_body]
pub(crate) fn is_uppercase(c: char) -> (b: bool)
    ensures
        b == uppercase_char(c),
{
    c.is_uppercase()
}

/// `char::is_lowercase`.
#[verifier::external_body]
pub(crate) fn is_lowercase(c: char) -> (b: bool)
    ensures
        b == lowercase_char(c),
{
    c.is_lowercase()
}

/// `char::to_lowercase`, collected.
#[verifier::external_body]
pub(crate) fn lower_char(c: char) -> (v: Vec<char>)
    ensures
        v@ == char_lower(c),
{
    c.to_lowercase().collect()
}

/// `char::to_uppercase`, collected.
#[verifier::external_body]
pub(crate) fn upper_char(c: char) -> (v: Vec<char>)
    ensures
        v@ == char_upper(c),
{
    c.to_uppercase().collect()
}

/// `str::to_lowercase`.
#[verifier::external_body]
pub(crate) fn lower_str(s: &str) -> (r: String)
    ensures
        r@ == str_lower(s@),
{
    s.to_lowercase()
}

/// `str::to_uppercase`.
#[verifier::external_body]
pub(crate) fn upper_str(s: &str) -> (r: String)
    ensures
        r@ == str_upper(s@),
{
    s.to_uppercase()
}

/// The lowercase form of a character sequence, through `str::to_lowercase`.
pub fn lower_chars(s: &[char]) -> (r: Vec<char>)
    ensures
        r@ == str_lower(s@),
{
    let st = string_from(s);
    let l = lower_str(st.as_str());
    chars_of(l.as_str())
}

/// The uppercase form of a character sequence, through `str::to_uppercase`.
pub fn upper_chars(s: &[char]) -> (r: Vec<char>)
    ensures
        r@ == str_upper(s@),
{
    let st = string_from(s);
    let u = upper_str(st.as_str());
    chars_of(u.as_str())
}

// ---------------------------------------------------------------------------
// Sequences of words.
// ---------------------------------------------------------------------------

/// The views of a vector of character vectors.
pub open spec fn views(v: Seq<Vec<char>>) -> Seq<Seq<char>> {
    Seq::new(v.len(), |i: int| v[i]@)
}

/// `[cur]` when `cur` is non-empty, else nothing.
pub open spec fn flush(cur: Seq<char>) -> Seq<Seq<char>> {
    if cur.len() > 0 {
        seq![cur]
    } else {
        seq![]
    }
}

/// Whitespace splitting scanned from position `i` with the partial word `cur`.
pub open spec fn split_ws_from(s: Seq<char>, i: int, cur: Seq<char>) -> Seq<Seq<char>>
    decreases s.len() - i,
{
    if i >= s.len() {
        flush(cur)
    } else if whitespace_char(s[i]) {
        flush(cur) + split_ws_from(s, i + 1, seq![])
    } else {
        split_ws_from(s, i + 1, cur.push(s[i]))
    }
}

/// `str::split_whitespace`: the maximal runs of non-whitespace characters, in order.
pub open spec fn split_ws(s: Seq<char>) -> Seq<Seq<char>> {
    split_ws_from(s, 0, seq![])
}

/// Splits `s` on whitespace, as `str::split_whitespace` does.
pub fn split_whitespace(s: &[char]) -> (words: Vec<Vec<char>>)
    ensures
        views(words@) == split_ws(s@),
{
    let mut words: Vec<Vec<char>> = Vec::new();
    let mut cur: Vec<char> = Vec::new();
    let mut i: usize = 0;
    while i < s.len()
        invariant
            i <= s@.len(),
            views(words@) + split_ws_from(s@, i as int, cur@) == split_ws(s@),
        decreases s@.len() - i,
    {
        let c = s[i];
        if is_whitespace(c) {
            let ghost old_words = views(words@);
            let ghost oc = cur@;
            if cur.len() > 0 {
                words.push(cur);
            }
            assert(views(words@) =~= old_words + flush(oc));
            cur = Vec::new();
            assert(cur@ =~= seq![]);
            assert(old_words + (flush(oc) + split_ws_from(s@, i + 1, seq![]))
                =~= views(words@) + split_ws_from(s@, i + 1, cur@));
        } else {
            cur.push(c);
        }
        i += 1;
    }
    if cur.len() > 0 {
        let ghost old_words = views(words@);
        words.push(cur);
        assert(views(words@) =~= old_words + flush(cur@));
    } else {
        assert(views(words@) + flush(cur@) =~= views(words@));
    }
    words
}

/// Words joined by single spaces.
pub open spec fn join_space(ws: Seq<Seq<char>>) -> Seq<char>
    decreases ws.len(),
{
    if ws.len() == 0 {
        seq![]
    } else if ws.len() == 1 {
        ws[0]
    } else {
        join_space(ws.drop_last()) + seq![' '] + ws.last()
    }
}

/// Joins words with single spaces (`[..].join(" ")`).
pub fn join_words(ws: &Vec<Vec<char>>) -> (r: Vec<char>)
    ensures
        r@ == join_space(views(ws@)),
{
    let mut r: Vec<char> = Vec::new();
    let mut i: usize = 0;
    while i < ws.len()
        invariant
            i <= ws@.len(),
            r@ == join_space(views(ws@).take(i as int)),
        decreases ws@.len() - i,
    {
        let ghost prefix = views(ws@).take(i as int);
        if i > 0 {
            r.push(' ');
        }
        let w = &ws[i];
        let mut k: usize = 0;
        let ghost base = r@;
        while k < w.len()
            invariant
                k <= w@.len(),
                r@ == base + w@.take(k as int),
            decreases w@.len() - k,
        {
            r.push(w[k]);
            k += 1;
            assert(w@.take(k as int) =~= w@.take(k - 1).push(w@[k - 1]));
        }
        assert(w@.take(w@.len() as int) =~= w@);
        i += 1;
        assert(views(ws@).take(i as int).drop_last() =~= prefix);
        if i == 1 {
            assert(r@ =~= join_space(views(ws@).take(i as int)));
        }
    }
    assert(views(ws@).take(ws@.len() as int) =~= views(ws@));
    r
}

/// Whether two character sequences are equal.
pub fn chars_eq(a: &[char], b: &[char]) -> (r: bool)
    ensures
        r == (a@ == b@),
{
    if a.len() != b.len() {
        return false;
    }
    let mut i: usize = 0;
    while i < a.len()
        invariant
            i <= a@.len(),
            a@.len() == b@.len(),
            forall|j: int| 0 <= j < i ==> a@[j] == b@[j],
        decreases a@.len() - i,
    {
        if a[i] != b[i] {
            return false;
        }
        i += 1;
    }
    assert(a@ =~= b@);
    true
}

/// Whether a character sequence spells the literal `lit`.
pub fn eq_lit(a: &[char], lit: &str) -> (r: bool)
    ensures
        r == (a@ == lit@),
{
    let l = chars_of(lit);
    chars_eq(a, l.as_slice())
}

} // verus!

verus! {

/// Splitting on a separator character scanned from position `i` with partial piece `cur`.
pub open spec fn split_on_from(s: Seq<char>, sep: char, i: int, cur: Seq<char>) -> Seq<Seq<char>>
    decreases s.len() - i,
{
    if i >= s.len() {
        seq![cur]
    } else if s[i] == sep {
        seq![cur] + split_on_from(s, sep, i + 1, seq![])
    } else {
        split_on_from(s, sep, i + 1, cur.push(s[i]))
    }
}

/// `str::split(sep)`: the pieces between separators, empty pieces included.
pub open spec fn split_on(s: Seq<char>, sep: char) -> Seq<Seq<char>> {
    split_on_from(s, sep, 0, seq![])
}

pub proof fn lemma_split_on_from_nonempty(s: Seq<char>, sep: char, i: int, cur: Seq<char>)
    ensures
        split_on_from(s, sep, i, cur).len() >= 1,
    decreases s.len() - i,
{
    if i < s.len() {
        if s[i] == sep {
            lemma_split_on_from_nonempty(s, sep, i + 1, seq![]);
        } else {
            lemma_split_on_from_nonempty(s, sep, i + 1, cur.push(s[i]));
        }
    }
}

/// Splits `s` on every occurrence of `sep`, as `str::split` does.
pub fn split_on_char(s: &[char], sep: char) -> (parts: Vec<Vec<char>>)
    ensures
        views(parts@) == split_on(s@, sep),
        parts@.len() >= 1,
{
    let mut parts: Vec<Vec<char>> = Vec::new();
    let mut cur: Vec<char> = Vec::new();
    let mut i: usize = 0;
    while i < s.len()
        invariant
            i <= s@.len(),
            views(parts@) + split_on_from(s@, sep, i as int, cur@) == split_on(s@, sep),
        decreases s@.len() - i,
    {
        let c = s[i];
        if c == sep {
            let ghost old_parts = views(parts@);
            let ghost oc = cur@;
            parts.push(cur);
            assert(views(parts@) =~= old_parts + seq![oc]);
            cur = Vec::new();
            assert(cur@ =~= seq![]);
            assert(old_parts + (seq![oc] + split_on_from(s@, sep, i + 1, seq![]))
                =~= views(parts@) + split_on_from(s@, sep, i + 1, cur@));
        } else {
            cur.push(c);
        }
        i += 1;
    }
    let ghost old_parts = views(parts@);
    let ghost oc = cur@;
    parts.push(cur);
    assert(views(parts@) =~= old_parts + seq![oc]);
    parts
}

/// The decimal digit character for `d` in `0..=9`.
pub open spec fn digit_char(d: int) -> char {
    if d == 0 { '0' } else if d == 1 { '1' } else if d == 2 { '2' } else if d == 3 { '3' }
    else if d == 4 { '4' } else if d == 5 { '5' } else if d == 6 { '6' } else if d == 7 { '7' }
    else if d == 8 { '8' } else { '9' }
}

/// The decimal representation of `n`, most significant digit first, without leading zeros.
pub open spec fn decimal(n: nat) -> Seq<char>
    decreases n,
{
    if n < 10 {
        seq![digit_char(n as int)]
    } else {
        decimal(n / 10).push(digit_char((n % 10) as int))
    }
}

/// The numeric value of a digit character.
pub open spec fn digit_value(c: char) -> int {
    (c as int) - ('0' as int)
}

/// Whether `c` is an ASCII decimal digit.
pub open spec fn ascii_digit(c: char) -> bool {
    '0' <= c && c <= '9'
}

pub fn digit_of(d: u64) -> (c: char)
    requires
        d < 10,
    ensures
        c == digit_char(d as int),
{
    if d == 0 { '0' } else if d == 1 { '1' } else if d == 2 { '2' } else if d == 3 { '3' }
    else if d == 4 { '4' } else if d == 5 { '5' } else if d == 6 { '6' } else if d == 7 { '7' }
    else if d == 8 { '8' } else { '9' }
}

/// `u64::to_string`: the decimal digits of `n`.
pub fn decimal_digits(n: u64) -> (v: Vec<char>)
    ensures
        v@ == decimal(n as nat),
    decreases n,
{
    if n < 10 {
        let mut v = Vec::new();
        v.push(digit_of(n));
        assert(v@ =~= seq![digit_char(n as int)]);
        v
    } else {
        let mut v = decimal_digits(n / 10);
        v.push(digit_of(n % 10));
        v
    }
}

/// A value below 100 written with at least two digits (`format!("{:02}", n)`).
pub open spec fn two_digits(n: nat) -> Seq<char> {
    if n < 10 {
        seq!['0', digit_char(n as int)]
    } else {
        decimal(n)
    }
}

pub fn two_digit_chars(n: u64) -> (v: Vec<char>)
    ensures
        v@ == two_digits(n as nat),
{
    if n < 10 {
        let mut v = Vec::new();
        v.push('0');
        v.push(digit_of(n));
        assert(v@ =~= seq!['0', digit_char(n as int)]);
        v
    } else {
        decimal_digits(n)
    }
}

/// Appends all characters of `b` to `a`.
pub fn extend_chars(a: &mut Vec<char>, b: &[char])
    ensures
        final(a)@ == old(a)@ + b@,
{
    let mut k: usize = 0;
    while k < b.len()
        invariant
            k <= b@.len(),
            a@ == old(a)@ + b@.take(k as int),
        decreases b@.len() - k,
    {
        a.push(b[k]);
        k += 1;
        assert(b@.take(k as int) =~= b@.take(k - 1).push(b@[k - 1]));
    }
    assert(b@.take(b@.len() as int) =~= b@);
}

/// The characters of `w` from `a` up to `b`.
pub fn subrange_chars(w: &[char], a: usize, b: usize) -> (r: Vec<char>)
    requires
        a <= b <= w@.len(),
    ensures
        r@ == w@.subrange(a as int, b as int),
{
    let mut r = Vec::new();
    let mut k = a;
    while k < b
        invariant
            a <= k <= b <= w@.len(),
            r@ == w@.subrange(a as int, k as int),
        decreases b - k,
    {
        r.push(w[k]);
        k += 1;
        assert(w@.subrange(a as int, k as int) =~= w@.subrange(a as int, k - 1).push(w@[k - 1]));
    }
    r
}

/// A copy of a character slice.
pub fn copy_chars(b: &[char]) -> (v: Vec<char>)
    ensures
        v@ == b@,
{
    let mut v = Vec::new();
    extend_chars(&mut v, b);
    assert(v@ =~= b@);
    v
}

/// The ASCII lowercase of one character.
pub open spec fn ascii_lower(c: char) -> char {
    if 'A' <= c && c <= 'Z' {
        ((c as u32) + 32) as char
    } else {
        c
    }
}

pub fn ascii_lower_char(c: char) -> (r: char)
    ensures
        r == ascii_lower(c),
{
    if 'A' <= c && c <= 'Z' {
        let b: u8 = (c as u32) as u8;
        let r: char = (b + 32) as char;
        assert(r == ((c as u32) + 32) as char);
        r
    } else {
        c
    }
}

/// ASCII case-insensitive equality.
pub open spec fn ascii_ci_eq(a: Seq<char>, b: Seq<char>) -> bool {
    a.len() == b.len() && forall|k: int| 0 <= k < a.len() ==> ascii_lower(#[trigger] a[k]) == ascii_lower(b[k])
}

pub fn eq_ignore_ascii_case(a: &[char], b: &[char]) -> (r: bool)
    ensures
        r == ascii_ci_eq(a@, b@),
{
    if a.len() != b.len() {
        return false;
    }
    let mut k: usize = 0;
    while k < a.len()
        invariant
            k <= a@.len() == b@.len(),
            forall|j: int| 0 <= j < k ==> ascii_lower(#[trigger] a@[j]) == ascii_lower(b@[j]),
        decreases a@.len() - k,
    {
        if ascii_lower_char(a[k]) != ascii_lower_char(b[k]) {
            return false;
        }
        k += 1;
    }
    true
}


/// End of the leading whitespace run from `i`.
pub open spec fn ws_lead(w: Seq<char>, i: int) -> int
    decreases w.len() - i,
{
    if 0 <= i < w.len() && whitespace_char(w[i]) { ws_lead(w, i + 1) } else { i }
}

/// Start of the trailing whitespace run before `j`.
pub open spec fn ws_trail(w: Seq<char>, j: int) -> int
    decreases j,
{
    if 0 < j <= w.len() && whitespace_char(w[j - 1]) { ws_trail(w, j - 1) } else { j }
}

/// `str::trim`: without leading and trailing whitespace.
pub open spec fn trim_ws(w: Seq<char>) -> Seq<char> {
    let a = ws_lead(w, 0);
    if a >= w.len() { seq![] } else { w.subrange(a, ws_trail(w, w.len() as int)) }
}

pub proof fn lemma_ws_bounds(w: Seq<char>, i: int)
    requires
        0 <= i <= w.len(),
    ensures
        i <= ws_lead(w, i) <= w.len(),
        ws_lead(w, i) < w.len() ==> !whitespace_char(w[ws_lead(w, i)]),
    decreases w.len() - i,
{
    if i < w.len() && whitespace_char(w[i]) {
        lemma_ws_bounds(w, i + 1);
    }
}

pub proof fn lemma_ws_trail(w: Seq<char>, j: int, first: int)
    requires
        0 <= first < j <= w.len(),
        !whitespace_char(w[first]),
    ensures
        first < ws_trail(w, j) <= j,
    decreases j,
{
    if whitespace_char(w[j - 1]) {
        lemma_ws_trail(w, j - 1, first);
    }
}

/// Trimming never lengthens a sequence.
pub proof fn lemma_trim_len(w: Seq<char>)
    ensures
        trim_ws(w).len() <= w.len(),
{
    lemma_ws_bounds(w, 0);
    let a = ws_lead(w, 0);
    if a < w.len() {
        lemma_ws_trail(w, w.len() as int, a);
    }
}

proof fn lemma_ws_trail_stop(w: Seq<char>, j: int)
    requires
        0 <= j <= w.len(),
    ensures
        0 <= ws_trail(w, j) <= j,
        ws_trail(w, j) > 0 ==> !whitespace_char(w[ws_trail(w, j) - 1]),
    decreases j,
{
    if 0 < j && whitespace_char(w[j - 1]) {
        lemma_ws_trail_stop(w, j - 1);
    }
}

/// Trimming twice is trimming once.
pub proof fn lemma_trim_idempotent(w: Seq<char>)
    ensures
        trim_ws(trim_ws(w)) == trim_ws(w),
{
    lemma_ws_bounds(w, 0);
    let a = ws_lead(w, 0);
    if a < w.len() {
        lemma_ws_trail(w, w.len() as int, a);
        lemma_ws_trail_stop(w, w.len() as int);
        let b = ws_trail(w, w.len() as int);
        let t = w.subrange(a, b);
        assert(t[0] == w[a]);
        assert(ws_lead(t, 0) == 0);
        assert(t[t.len() - 1] == w[b - 1]);
        assert(ws_trail(t, t.len() as int) == t.len());
        assert(t.subrange(0, t.len() as int) =~= t);
    }
}

/// Trims leading and trailing whitespace, as `str::trim` does.
pub fn trim_whitespace(w: &[char]) -> (r: Vec<char>)
    ensures
        r@ == trim_ws(w@),
{
    let n = w.len();
    let mut a: usize = 0;
    while a < n && is_whitespace(w[a])
        invariant
            a <= n == w@.len(),
            ws_lead(w@, a as int) == ws_lead(w@, 0),
        decreases n - a,
    {
        a += 1;
    }
    proof { lemma_ws_bounds(w@, 0); }
    if a >= n {
        return Vec::new();
    }
    let mut b: usize = n;
    while b > 0 && is_whitespace(w[b - 1])
        invariant
            b <= n == w@.len(),
            ws_trail(w@, b as int) == ws_trail(w@, n as int),
        decreases b,
    {
        b -= 1;
    }
    proof { lemma_ws_trail(w@, n as int, a as int); }
    let mut r = Vec::new();
    let mut k = a;
    while k < b
        invariant
            a <= k <= b <= n == w@.len(),
            r@ == w@.subrange(a as int, k as int),
        decreases b - k,
    {
        r.push(w[k]);
        k += 1;
        assert(w@.subrange(a as int, k as int) =~= w@.subrange(a as int, k - 1).push(w@[k - 1]));
    }
    r
}

} // verus!
