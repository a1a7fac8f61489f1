//! The first stage of correction capture: aligning a transcript with the user's corrected
//! version of it and collecting the one-for-one token substitutions the edit consists of. An
//! edit with an insertion, a deletion, a multi-token rewrite or a reorder yields nothing, and
//! so does one beyond the bounds that keep the alignment cheap. Whether a substitution is
//! worth learning as a rule is decided afterwards, pair by pair.
use vstd::prelude::*;
use crate::settings::WordReplacement;
use crate::text::{lcs_anchors, pair_views, owned_views, anchors_from, word_core, word_core_of, lead_in, CharClass};
use crate::unicode::{chars_eq, chars_of, lower_chars, split_whitespace, split_ws, str_lower, string_from, subrange_chars, views, alnum_char, is_alphanumeric};

verus! {

/// Most rules that may precede the learned ones.
pub const MAX_PRECEDING_RULES: usize = 512;

/// Longest phrase or output, in UTF-8 bytes, of a preceding rule.
pub const MAX_PRECEDING_FIELD_BYTES: usize = 1024;

/// Longest transcript or correction, in UTF-8 bytes.
pub const MAX_INPUT_BYTES: usize = 65536;

/// Longest token, in UTF-8 bytes.
pub const MAX_TOKEN_BYTES: usize = 256;

/// Most tokens on either side.
pub const MAX_TOKENS: usize = 4096;

/// Most cells of the alignment table.
pub const MAX_LCS_CELLS: usize = 1000000;

/// Most substitutions one edit may hold.
pub const MAX_CANDIDATES: usize = 64;

/// The number of bytes `char::len_utf8` gives for `c`.
pub open spec fn utf8_width(c: char) -> int {
    if (c as u32) < 0x80 {
        1
    } else if (c as u32) < 0x800 {
        2
    } else if (c as u32) < 0x10000 {
        3
    } else {
        4
    }
}

/// The UTF-8 length of a text.
pub open spec fn utf8_len(s: Seq<char>) -> int
    decreases s.len(),
{
    if s.len() == 0 {
        0
    } else {
        utf8_len(s.drop_last()) + utf8_width(s.last())
    }
}

/// A letter, digit or underscore.
pub open spec fn is_word(c: char) -> bool {
    alnum_char(c) || c == '_'
}

/// Whether each run of a text is made of word characters, one entry per run.
pub open spec fn boundary_shape(s: Seq<char>) -> Seq<bool>
    decreases s.len(),
{
    if s.len() == 0 {
        seq![]
    } else {
        let p = boundary_shape(s.drop_last());
        let w = is_word(s.last());
        if p.len() > 0 && p.last() == w {
            p
        } else {
            p.push(w)
        }
    }
}

/// Whether the rules before the learned ones leave room for learning: few enough, short
/// enough, none deleting, and each keeping the word-boundary shape of its phrase.
pub open spec fn preceding_allow(rules: Seq<WordReplacement>) -> bool {
    &&& rules.len() <= MAX_PRECEDING_RULES
    &&& forall|i: int|
        0 <= i < rules.len() ==> utf8_len((#[trigger] rules[i]).from@) <= MAX_PRECEDING_FIELD_BYTES
            && utf8_len(rules[i].to@) <= MAX_PRECEDING_FIELD_BYTES
    &&& forall|i: int|
        0 <= i < rules.len() ==> (#[trigger] rules[i]).to@.len() > 0 && boundary_shape(rules[i].from@)
            == boundary_shape(rules[i].to@)
}

/// Whether the two sides are small enough to align.
pub open spec fn inputs_allow(original: Seq<char>, corrected: Seq<char>) -> bool {
    let os = split_ws(original);
    let cs = split_ws(corrected);
    &&& utf8_len(original) <= MAX_INPUT_BYTES
    &&& utf8_len(corrected) <= MAX_INPUT_BYTES
    &&& forall|i: int| 0 <= i < os.len() ==> utf8_len(#[trigger] os[i]) <= MAX_TOKEN_BYTES
    &&& forall|i: int| 0 <= i < cs.len() ==> utf8_len(#[trigger] cs[i]) <= MAX_TOKEN_BYTES
    &&& os.len() <= MAX_TOKENS
    &&& cs.len() <= MAX_TOKENS
    &&& (os.len() + 1) * (cs.len() + 1) <= MAX_LCS_CELLS
}

/// The alignment key of a token: its word core, lowercased.
pub open spec fn token_key(t: Seq<char>) -> Seq<char> {
    str_lower(word_core_of(t))
}

/// The keys of tokens.
pub open spec fn keys_of(ts: Seq<Seq<char>>) -> Seq<Seq<char>> {
    Seq::new(ts.len(), |i: int| token_key(ts[i]))
}

/// What surrounds a token's word core: the marks before it and the marks after it.
pub open spec fn outer_affixes(t: Seq<char>) -> (Seq<char>, Seq<char>) {
    let a = lead_in(t, CharClass::Opener, 0);
    let core = word_core_of(t);
    (t.take(a), t.skip(a + core.len()))
}

/// One stretch between anchors: `Some(None)` when nothing changed, `Some(Some(pair))` for
/// a one-for-one substitution whose surrounding marks are unchanged, and `None` for anything
/// else.
pub open spec fn gap(
    os: Seq<Seq<char>>,
    cs: Seq<Seq<char>>,
    pi: int,
    pj: int,
    ai: int,
    aj: int,
) -> Option<Option<(Seq<char>, Seq<char>)>> {
    if ai == pi && aj == pj {
        Some(None)
    } else if ai == pi + 1 && aj == pj + 1 && outer_affixes(os[pi]) == outer_affixes(cs[pj]) {
        Some(Some((word_core_of(os[pi]), word_core_of(cs[pj]))))
    } else {
        None
    }
}

/// The substitutions of the stretches from anchor `k` on, the previous anchor ending before
/// `(pi, pj)`; the last stretch runs to the ends of both sides.
pub open spec fn gaps(
    os: Seq<Seq<char>>,
    cs: Seq<Seq<char>>,
    anchors: Seq<(int, int)>,
    k: int,
    pi: int,
    pj: int,
) -> Option<Seq<(Seq<char>, Seq<char>)>>
    decreases anchors.len() - k,
{
    if k >= anchors.len() || k < 0 {
        match gap(os, cs, pi, pj, os.len() as int, cs.len() as int) {
            None => None,
            Some(None) => Some(seq![]),
            Some(Some(p)) => Some(seq![p]),
        }
    } else {
        let (ai, aj) = anchors[k];
        if !(pi <= ai < os.len() && pj <= aj < cs.len()) {
            None
        } else {
            match gap(os, cs, pi, pj, ai, aj) {
                None => None,
                Some(g) => match gaps(os, cs, anchors, k + 1, ai + 1, aj + 1) {
                    None => None,
                    Some(rest) => Some(
                        match g {
                            Some(p) => seq![p] + rest,
                            None => rest,
                        },
                    ),
                },
            }
        }
    }
}

/// The one-for-one substitutions of an edit, in order, when the edit consists of nothing
/// else and stays within the bounds.
pub open spec fn candidates(
    original: Seq<char>,
    corrected: Seq<char>,
    preceding: Seq<WordReplacement>,
) -> Option<Seq<(Seq<char>, Seq<char>)>> {
    let os = split_ws(original);
    let cs = split_ws(corrected);
    if !preceding_allow(preceding) || !inputs_allow(original, corrected) {
        None
    } else {
        match gaps(os, cs, anchors_from(keys_of(os), keys_of(cs), 0, 0), 0, 0, 0) {
            Some(ps) => if ps.len() <= MAX_CANDIDATES {
                Some(ps)
            } else {
                None
            },
            None => None,
        }
    }
}

/// The UTF-8 length of a text.
fn utf8_length(s: &[char]) -> (r: usize)
    ensures
        r == utf8_len(s@) || (r == usize::MAX && utf8_len(s@) > usize::MAX - 4),
{
    let mut total: usize = 0;
    let mut i: usize = 0;
    while i < s.len()
        invariant
            i <= s@.len(),
            total == utf8_len(s@.take(i as int)),
            total <= 4 * i,
        decreases s@.len() - i,
    {
        assert(s@.take(i + 1).drop_last() =~= s@.take(i as int));
        let c = s[i];
        let code = c as u32;
        let w: usize = if code < 0x80 {
            1
        } else if code < 0x800 {
            2
        } else if code < 0x10000 {
            3
        } else {
            4
        };
        if total > usize::MAX - 4 {
            proof {
                lemma_utf8_len_grows(s@, i as int);
            }
            return usize::MAX;
        }
        total = total + w;
        i += 1;
    }
    assert(s@.take(i as int) =~= s@);
    total
}

proof fn lemma_utf8_len_grows(s: Seq<char>, i: int)
    requires
        0 <= i <= s.len(),
    ensures
        utf8_len(s) >= utf8_len(s.take(i)),
    decreases s.len() - i,
{
    if i < s.len() {
        lemma_utf8_len_grows(s, i + 1);
        assert(s.take(i + 1).drop_last() =~= s.take(i));
    } else {
        assert(s.take(i) =~= s);
    }
}

/// Whether a character is a letter, digit or underscore.
fn word_char_exec(c: char) -> (r: bool)
    ensures
        r == is_word(c),
{
    is_alphanumeric(c) || c == '_'
}

/// The word-boundary shape of a text.
fn shape_of(s: &[char]) -> (r: Vec<bool>)
    ensures
        r@ == boundary_shape(s@),
{
    let mut shape: Vec<bool> = Vec::new();
    let mut i: usize = 0;
    while i < s.len()
        invariant
            i <= s@.len(),
            shape@ == boundary_shape(s@.take(i as int)),
        decreases s@.len() - i,
    {
        assert(s@.take(i + 1).drop_last() =~= s@.take(i as int));
        let w = word_char_exec(s[i]);
        let n = shape.len();
        if !(n > 0 && shape[n - 1] == w) {
            shape.push(w);
        }
        i += 1;
    }
    assert(s@.take(i as int) =~= s@);
    shape
}

fn same_shape(a: &Vec<bool>, b: &Vec<bool>) -> (r: bool)
    ensures
        r == (a@ == b@),
{
    if a.len() != b.len() {
        return false;
    }
    let mut i: usize = 0;
    while i < a.len()
        invariant
            i <= a@.len() == b@.len(),
            forall|k: int| 0 <= k < i ==> a@[k] == b@[k],
        decreases a@.len() - i,
    {
        if a[i] != b[i] {
            return false;
        }
        i += 1;
    }
    assert(a@ =~= b@);
    true
}

/// Whether the preceding rules leave room for learning.
fn preceding_rules_allow(rules: &[WordReplacement]) -> (r: bool)
    ensures
        r == preceding_allow(rules@),
{
    if rules.len() > MAX_PRECEDING_RULES {
        return false;
    }
    let mut i: usize = 0;
    while i < rules.len()
        invariant
            i <= rules@.len() <= MAX_PRECEDING_RULES,
            forall|k: int|
                0 <= k < i ==> utf8_len((#[trigger] rules@[k]).from@) <= MAX_PRECEDING_FIELD_BYTES
                    && utf8_len(rules@[k].to@) <= MAX_PRECEDING_FIELD_BYTES
                    && rules@[k].to@.len() > 0 && boundary_shape(rules@[k].from@)
                    == boundary_shape(rules@[k].to@),
        decreases rules@.len() - i,
    {
        let from = chars_of(rules[i].from.as_str());
        let to = chars_of(rules[i].to.as_str());
        if utf8_length(from.as_slice()) > MAX_PRECEDING_FIELD_BYTES || utf8_length(to.as_slice())
            > MAX_PRECEDING_FIELD_BYTES {
            return false;
        }
        if to.len() == 0 {
            return false;
        }
        let fs = shape_of(from.as_slice());
        let ts = shape_of(to.as_slice());
        if !same_shape(&fs, &ts) {
            return false;
        }
        i += 1;
    }
    true
}

/// Whether every token is short enough.
fn tokens_short(tokens: &Vec<Vec<char>>) -> (r: bool)
    ensures
        r == forall|i: int|
            0 <= i < tokens@.len() ==> utf8_len(#[trigger] views(tokens@)[i]) <= MAX_TOKEN_BYTES,
{
    let mut i: usize = 0;
    while i < tokens.len()
        invariant
            i <= tokens@.len(),
            forall|k: int| 0 <= k < i ==> utf8_len(#[trigger] views(tokens@)[k]) <= MAX_TOKEN_BYTES,
        decreases tokens@.len() - i,
    {
        assert(views(tokens@)[i as int] == tokens@[i as int]@);
        if utf8_length(tokens[i].as_slice()) > MAX_TOKEN_BYTES {
            return false;
        }
        i += 1;
    }
    true
}

/// The alignment keys of tokens.
fn token_keys(tokens: &Vec<Vec<char>>) -> (r: Vec<String>)
    ensures
        owned_views(r@) == keys_of(views(tokens@)),
{
    let mut keys: Vec<String> = Vec::new();
    let mut i: usize = 0;
    while i < tokens.len()
        invariant
            i <= tokens@.len(),
            keys@.len() == i,
            forall|k: int| 0 <= k < i ==> (#[trigger] keys@[k])@ == token_key(tokens@[k]@),
        decreases tokens@.len() - i,
    {
        let core = word_core(tokens[i].as_slice());
        let lowered = lower_chars(core.as_slice());
        keys.push(string_from(lowered.as_slice()));
        i += 1;
    }
    assert(owned_views(keys@) =~= keys_of(views(tokens@)));
    keys
}

/// The marks before and after a token's word core.
fn affixes(t: &[char]) -> (r: (Vec<char>, Vec<char>))
    ensures
        (r.0@, r.1@) == outer_affixes(t@),
{
    let core = word_core(t);
    let a = crate::text::lead_index(t, CharClass::Opener);
    proof {
        crate::text::lemma_lead_in(t@, CharClass::Opener, 0);
        let rest = t@.skip(a as int);
        crate::text::lemma_trail_in(rest, CharClass::Closer, rest.len() as int);
    }
    let before = subrange_chars(t, 0, a);
    let ghost rest = t@.skip(a as int);
    let ghost tr = crate::text::trail_in(rest, CharClass::Closer, rest.len() as int);
    assert(a <= t@.len());
    assert(0 <= tr <= rest.len());
    assert(core@ == rest.take(tr));
    assert(core@.len() == tr);
    assert(core@.len() + a <= t@.len());
    let core_len = core.len();
    let total_len = t.len();
    assert(core_len + a <= t@.len());
    let end: usize = a + core_len;
    let after = subrange_chars(t, end, t.len());
    assert(before@ =~= t@.take(a as int));
    assert(after@ =~= t@.skip(a + core@.len()));
    (before, after)
}

fn chars_same(a: &Vec<char>, b: &Vec<char>) -> (r: bool)
    ensures
        r == (a@ == b@),
{
    crate::unicode::chars_eq(a.as_slice(), b.as_slice())
}

/// Takes one stretch between anchors: `false` when it is not empty or a one-for-one
/// substitution with unchanged marks; a substitution is appended to `out`.
fn take_gap(
    orig: &Vec<Vec<char>>,
    corr: &Vec<Vec<char>>,
    pi: usize,
    pj: usize,
    ai: usize,
    aj: usize,
    out: &mut Vec<(String, String)>,
) -> (ok: bool)
    requires
        pi <= ai <= orig@.len(),
        pj <= aj <= corr@.len(),
    ensures
        ok == gap(views(orig@), views(corr@), pi as int, pj as int, ai as int, aj as int) is Some,
        Seq::new(final(out)@.len(), |i: int| (final(out)@[i].0@, final(out)@[i].1@)) == match gap(
            views(orig@),
            views(corr@),
            pi as int,
            pj as int,
            ai as int,
            aj as int,
        ) {
            Some(Some(p)) => Seq::new(old(out)@.len(), |i: int| (old(out)@[i].0@, old(out)@[i].1@)).push(p),
            _ => Seq::new(old(out)@.len(), |i: int| (old(out)@[i].0@, old(out)@[i].1@)),
        },
{
    let ghost before = Seq::new(out@.len(), |i: int| (out@[i].0@, out@[i].1@));
    if ai == pi && aj == pj {
        return true;
    }
    if !(ai - pi == 1 && aj - pj == 1) {
        return false;
    }
    assert(views(orig@)[pi as int] == orig@[pi as int]@);
    assert(views(corr@)[pj as int] == corr@[pj as int]@);
    let (fb, fa) = affixes(orig[pi].as_slice());
    let (tb, ta) = affixes(corr[pj].as_slice());
    if !(chars_same(&fb, &tb) && chars_same(&fa, &ta)) {
        return false;
    }
    let from = word_core(orig[pi].as_slice());
    let to = word_core(corr[pj].as_slice());
    out.push((string_from(from.as_slice()), string_from(to.as_slice())));
    assert(Seq::new(out@.len(), |i: int| (out@[i].0@, out@[i].1@)) =~= before.push(
        (word_core_of(orig@[pi as int]@), word_core_of(corr@[pj as int]@)),
    ));
    true
}

/// The one-for-one token substitutions that turned `original` into `corrected`, as pairs
/// of word cores in order: `None` when the edit holds anything else (an insertion, a
/// deletion, a multi-token rewrite, a reorder, or a changed mark around a word), when it
/// holds more than [`MAX_CANDIDATES`] substitutions, when either side or one of its tokens is
/// too long to align, or when the rules that would precede learned ones leave no room.
pub fn learned_replacement_candidates(
    original: &str,
    corrected: &str,
    preceding_replacements: &[WordReplacement],
) -> (r: Option<Vec<(String, String)>>)
    ensures
        match candidates(original@, corrected@, preceding_replacements@) {
            None => r is None,
            Some(ps) => r matches Some(v) && v@.len() == ps.len() && forall|i: int|
                0 <= i < ps.len() ==> (#[trigger] v@[i]).0@ == ps[i].0 && v@[i].1@ == ps[i].1,
        },
{
    if !preceding_rules_allow(preceding_replacements) {
        return None;
    }
    let oc = chars_of(original);
    let cc = chars_of(corrected);
    if utf8_length(oc.as_slice()) > MAX_INPUT_BYTES || utf8_length(cc.as_slice()) > MAX_INPUT_BYTES {
        return None;
    }
    let orig = split_whitespace(oc.as_slice());
    let corr = split_whitespace(cc.as_slice());
    let ghost os = split_ws(original@);
    let ghost cs = split_ws(corrected@);
    assert(views(orig@) == os);
    assert(views(corr@) == cs);
    if !tokens_short(&orig) || !tokens_short(&corr) {
        proof {
            assert(!inputs_allow(original@, corrected@));
        }
        return None;
    }
    let n = orig.len();
    let m = corr.len();
    if n > MAX_TOKENS || m > MAX_TOKENS {
        return None;
    }
    assert((n + 1) * (m + 1) <= 4097 * 4097) by (nonlinear_arith)
        requires
            n <= 4096,
            m <= 4096,
    ;
    if (n + 1) * (m + 1) > MAX_LCS_CELLS {
        return None;
    }
    let ok = token_keys(&orig);
    let ck = token_keys(&corr);
    let anchors = lcs_anchors(ok.as_slice(), ck.as_slice());
    let ghost av = pair_views(anchors@);
    assert(av == anchors_from(keys_of(os), keys_of(cs), 0, 0));
    let mut out: Vec<(String, String)> = Vec::new();
    let mut k: usize = 0;
    let mut pi: usize = 0;
    let mut pj: usize = 0;
    while k < anchors.len()
        invariant
            preceding_allow(preceding_replacements@),
            inputs_allow(original@, corrected@),
            os == split_ws(original@),
            cs == split_ws(corrected@),
            n == os.len() == orig@.len(),
            m == cs.len() == corr@.len(),
            views(orig@) == os,
            views(corr@) == cs,
            av == pair_views(anchors@),
            av == anchors_from(keys_of(os), keys_of(cs), 0, 0),
            k <= anchors@.len(),
            pi <= n,
            pj <= m,
            match gaps(os, cs, av, k as int, pi as int, pj as int) {
                None => gaps(os, cs, av, 0, 0, 0) is None,
                Some(rest) => gaps(os, cs, av, 0, 0, 0) == Some(
                    Seq::new(out@.len(), |i: int| (out@[i].0@, out@[i].1@)) + rest,
                ),
            },
        decreases anchors@.len() - k,
    {
        let (ai, aj) = anchors[k];
        assert(av[k as int] == (ai as int, aj as int));
        if !(pi <= ai && ai < n && pj <= aj && aj < m) {
            return None;
        }
        let ghost before = Seq::new(out@.len(), |i: int| (out@[i].0@, out@[i].1@));
        if !take_gap(&orig, &corr, pi, pj, ai, aj, &mut out) {
            return None;
        }
        proof {
            let after = Seq::new(out@.len(), |i: int| (out@[i].0@, out@[i].1@));
            let rest = gaps(os, cs, av, k + 1, ai + 1, aj + 1);
            if let Some(r) = rest {
                match gap(os, cs, pi as int, pj as int, ai as int, aj as int) {
                    Some(Some(p)) => {
                        assert(after == before.push(p));
                        assert(before + (seq![p] + r) =~= after + r);
                    },
                    _ => {
                        assert(after == before);
                    },
                }
            }
        }
        pi = ai + 1;
        pj = aj + 1;
        k = k + 1;
    }
    let ghost before = Seq::new(out@.len(), |i: int| (out@[i].0@, out@[i].1@));
    if !take_gap(&orig, &corr, pi, pj, n, m, &mut out) {
        return None;
    }
    proof {
        let after = Seq::new(out@.len(), |i: int| (out@[i].0@, out@[i].1@));
        match gap(os, cs, pi as int, pj as int, n as int, m as int) {
            Some(Some(p)) => {
                assert(before + seq![p] =~= after);
            },
            _ => {
                assert(before + seq![] =~= after);
            },
        }
        assert(gaps(os, cs, av, 0, 0, 0) == Some(after));
    }
    if out.len() > MAX_CANDIDATES {
        return None;
    }
    Some(out)
}

/// How many entries of `ks` equal `k`.
pub open spec fn count_of(ks: Seq<Seq<char>>, k: Seq<char>) -> nat
    decreases ks.len(),
{
    if ks.len() == 0 {
        0
    } else {
        count_of(ks.drop_last(), k) + if ks.last() == k { 1nat } else { 0nat }
    }
}

/// How many anchors fall on an original token whose key is `k`.
pub open spec fn anchored_count(ok: Seq<Seq<char>>, anchors: Seq<(int, int)>, k: Seq<char>) -> nat
    decreases anchors.len(),
{
    if anchors.len() == 0 {
        0
    } else {
        let a = anchors.last().0;
        anchored_count(ok, anchors.drop_last(), k) + if 0 <= a < ok.len() && ok[a] == k { 1nat } else { 0nat }
    }
}

/// Whether a token present on both sides of an edit is not fully accounted for by the
/// alignment, so that it moved: fewer of its occurrences are aligned than it has on the side
/// where it is rarer.
pub open spec fn token_moved(original: Seq<char>, corrected: Seq<char>) -> bool {
    let ok = keys_of(split_ws(original));
    let ck = keys_of(split_ws(corrected));
    let an = anchors_from(ok, ck, 0, 0);
    exists|i: int| 0 <= i < ok.len() && #[trigger] under_aligned(ok, ck, an, ok[i])
}

/// Whether a key present in the correction has fewer aligned occurrences than it has on
/// the side where it is rarer.
pub open spec fn under_aligned(ok: Seq<Seq<char>>, ck: Seq<Seq<char>>, an: Seq<(int, int)>, k: Seq<char>) -> bool {
    count_of(ck, k) > 0 && anchored_count(ok, an, k) < count_of(ok, k) && anchored_count(ok, an, k) < count_of(ck, k)
}

fn count_in(ks: &Vec<String>, k: &[char]) -> (r: usize)
    requires
        ks@.len() <= MAX_TOKENS,
    ensures
        r == count_of(owned_views(ks@), k@),
{
    let ghost kv = owned_views(ks@);
    let mut n: usize = 0;
    let mut i: usize = 0;
    while i < ks.len()
        invariant
            kv == owned_views(ks@),
            ks@.len() <= MAX_TOKENS,
            i <= ks@.len(),
            n == count_of(kv.take(i as int), k@),
            n <= i,
        decreases ks@.len() - i,
    {
        assert(kv.take(i + 1).drop_last() =~= kv.take(i as int));
        assert(kv[i as int] == ks@[i as int]@);
        if chars_eq(chars_of(ks[i].as_str()).as_slice(), k) {
            n += 1;
        }
        i += 1;
    }
    assert(kv.take(ks@.len() as int) =~= kv);
    n
}

fn anchored_in(ks: &Vec<String>, anchors: &Vec<(usize, usize)>, k: &[char]) -> (r: usize)
    requires
        anchors@.len() <= MAX_TOKENS,
    ensures
        r == anchored_count(owned_views(ks@), pair_views(anchors@), k@),
{
    let ghost kv = owned_views(ks@);
    let ghost av = pair_views(anchors@);
    let mut n: usize = 0;
    let mut i: usize = 0;
    while i < anchors.len()
        invariant
            kv == owned_views(ks@),
            av == pair_views(anchors@),
            anchors@.len() <= MAX_TOKENS,
            i <= anchors@.len(),
            n == anchored_count(kv, av.take(i as int), k@),
            n <= i,
        decreases anchors@.len() - i,
    {
        assert(av.take(i + 1).drop_last() =~= av.take(i as int));
        assert(av[i as int] == (anchors@[i as int].0 as int, anchors@[i as int].1 as int));
        let a = anchors[i].0;
        if a < ks.len() {
            assert(kv[a as int] == ks@[a as int]@);
            if chars_eq(chars_of(ks[a].as_str()).as_slice(), k) {
                n += 1;
            }
        }
        i += 1;
    }
    assert(av.take(anchors@.len() as int) =~= av);
    n
}

/// Whether a token that appears on both sides of an edit moved during it, which makes the
/// surrounding substitutions unreliable.
pub fn has_moved_token(original: &str, corrected: &str) -> (r: bool)
    requires
        inputs_allow(original@, corrected@),
    ensures
        r == token_moved(original@, corrected@),
{
    let orig = split_whitespace(chars_of(original).as_slice());
    let corr = split_whitespace(chars_of(corrected).as_slice());
    let ghost os = split_ws(original@);
    let ghost cs = split_ws(corrected@);
    assert(views(orig@) == os);
    assert(views(corr@) == cs);
    let n = orig.len();
    let m = corr.len();
    assert((n + 1) * (m + 1) <= 4097 * 4097) by (nonlinear_arith)
        requires
            n <= 4096,
            m <= 4096,
    ;
    let ok = token_keys(&orig);
    let ck = token_keys(&corr);
    assert(owned_views(ok@).len() == ok@.len());
    assert(owned_views(ck@).len() == ck@.len());
    assert(keys_of(views(orig@)).len() == n);
    assert(keys_of(views(corr@)).len() == m);
    let anchors = lcs_anchors(ok.as_slice(), ck.as_slice());
    let ghost okv = keys_of(os);
    let ghost ckv = keys_of(cs);
    let ghost av = pair_views(anchors@);
    proof {
        lemma_anchor_count(okv, ckv, 0, 0);
    }
    let mut i: usize = 0;
    while i < ok.len()
        invariant
            os == split_ws(original@),
            cs == split_ws(corrected@),
            okv == owned_views(ok@),
            okv == keys_of(os),
            ckv == owned_views(ck@),
            ckv == keys_of(cs),
            av == pair_views(anchors@),
            av == anchors_from(okv, ckv, 0, 0),
            ok@.len() <= MAX_TOKENS,
            ck@.len() <= MAX_TOKENS,
            anchors@.len() <= MAX_TOKENS,
            i <= ok@.len(),
            forall|j: int| 0 <= j < i ==> !#[trigger] under_aligned(okv, ckv, av, okv[j]),
        decreases ok@.len() - i,
    {
        let key = chars_of(ok[i].as_str());
        assert(okv[i as int] == key@);
        let in_corr = count_in(&ck, key.as_slice());
        if in_corr > 0 {
            let aligned = anchored_in(&ok, &anchors, key.as_slice());
            if aligned < count_in(&ok, key.as_slice()) && aligned < in_corr {
                assert(under_aligned(okv, ckv, av, okv[i as int]));

                return true;
            }
        }
        i += 1;
    }
    false
}

proof fn lemma_anchor_count(a: Seq<Seq<char>>, b: Seq<Seq<char>>, i: int, j: int)
    requires
        0 <= i <= a.len(),
        0 <= j <= b.len(),
    ensures
        anchors_from(a, b, i, j).len() <= a.len() - i,
    decreases a.len() - i + b.len() - j,
{
    if i < a.len() && j < b.len() {
        if a[i] == b[j] {
            lemma_anchor_count(a, b, i + 1, j + 1);
        } else {
            lemma_anchor_count(a, b, i + 1, j);
            lemma_anchor_count(a, b, i, j + 1);
        }
    }
}

} // verus!
