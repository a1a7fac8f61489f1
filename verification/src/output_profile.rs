//! Per-application output settings. A profile describes how to type into one named
//! application; this module decides which profile applies to a delivery and what that one
//! delivery's settings therefore are. A profile never changes the stored settings.
use vstd::prelude::*;
use crate::settings::{AppSettings, AutoSubmitKey, ClipboardHandling, OutputProfile, PasteMethod};
use crate::unicode::{chars_of, chars_eq, lower_chars, str_lower, string_from, subrange_chars, trim_whitespace, trim_ws};

verus! {

/// Whether `l` ends in ".exe".
pub open spec fn has_exe_suffix(l: Seq<char>) -> bool {
    &&& l.len() >= 4
    &&& l[l.len() - 4] == '.'
    &&& l[l.len() - 3] == 'e'
    &&& l[l.len() - 2] == 'x'
    &&& l[l.len() - 1] == 'e'
}

/// `l` trimmed, and then, as long as it ends in ".exe", without that suffix and trimmed
/// again: no surrounding blanks and no ".exe" suffix are left.
pub open spec fn bare_stem(l: Seq<char>) -> Seq<char>
    decreases l.len(),
{
    let t = trim_ws(l);
    if has_exe_suffix(t) {
        proof {
            crate::unicode::lemma_trim_len(l);
        }
        bare_stem(t.subrange(0, t.len() - 4))
    } else {
        t
    }
}

/// The form profiles are matched on: lowercased, with no surrounding blanks and no ".exe"
/// suffix.
pub open spec fn app_key(name: Seq<char>) -> Seq<char> {
    bare_stem(str_lower(trim_ws(name)))
}

/// A stem has no surrounding blanks and no ".exe" suffix.
pub proof fn lemma_bare_stem(l: Seq<char>)
    ensures
        trim_ws(bare_stem(l)) == bare_stem(l),
        !has_exe_suffix(bare_stem(l)),
    decreases l.len(),
{
    let t = trim_ws(l);
    crate::unicode::lemma_trim_len(l);
    if has_exe_suffix(t) {
        lemma_bare_stem(t.subrange(0, t.len() - 4));
    } else {
        crate::unicode::lemma_trim_idempotent(l);
    }
}

/// The index of the first profile at or after `i` whose name has the key `wanted`.
pub open spec fn first_profile(ps: Seq<OutputProfile>, wanted: Seq<char>, i: int) -> Option<int>
    decreases ps.len() - i,
{
    if i < 0 || i >= ps.len() {
        None
    } else if app_key(ps[i].app_name@) == wanted {
        Some(i)
    } else {
        first_profile(ps, wanted, i + 1)
    }
}

/// The view of an optional application name.
pub open spec fn name_view(app_name: Option<&str>) -> Option<Seq<char>> {
    match app_name {
        Some(n) => Some(n@),
        None => None,
    }
}

/// The index of the profile that applies to `app_name`: none for an unknown or blank
/// name, else the first profile whose key equals the name's key.
pub open spec fn profile_index(ps: Seq<OutputProfile>, app_name: Option<Seq<char>>) -> Option<int> {
    match app_name {
        None => None,
        Some(n) => if app_key(n).len() == 0 { None } else { first_profile(ps, app_key(n), 0) },
    }
}

/// The first match found from `i` is a match, lies at or after `i`, and no profile between
/// `i` and it matches; when there is none, no profile from `i` on matches.
pub proof fn lemma_first_profile(ps: Seq<OutputProfile>, wanted: Seq<char>, i: int)
    requires
        0 <= i <= ps.len(),
    ensures
        match first_profile(ps, wanted, i) {
            Some(k) => i <= k < ps.len() && app_key(ps[k].app_name@) == wanted && forall|j: int|
                i <= j < k ==> app_key(#[trigger] ps[j].app_name@) != wanted,
            None => forall|j: int| i <= j < ps.len() ==> app_key(#[trigger] ps[j].app_name@) != wanted,
        },
    decreases ps.len() - i,
{
    if i < ps.len() && app_key(ps[i].app_name@) != wanted {
        lemma_first_profile(ps, wanted, i + 1);
    }
}

/// The key of a character sequence, as [`app_key`] defines it.
fn app_key_chars(name: &[char]) -> (r: Vec<char>)
    ensures
        r@ == app_key(name@),
{
    let t = trim_whitespace(name);
    let mut current = lower_chars(t.as_slice());
    loop
        invariant
            bare_stem(current@) == app_key(name@),
        decreases current@.len(),
    {
        let t = trim_whitespace(current.as_slice());
        let n = t.len();
        proof {
            crate::unicode::lemma_trim_len(current@);
        }
        if n >= 4 && t[n - 4] == '.' && t[n - 3] == 'e' && t[n - 2] == 'x' && t[n - 1] == 'e' {
            current = subrange_chars(t.as_slice(), 0, n - 4);
        } else {
            return t;
        }
    }
}

/// Reduces an application name to the form profiles are matched on: no surrounding
/// blanks, no case, and no ".exe" suffix, so "Code.exe" finds the same profile as "code".
pub fn normalize_app_name(name: &str) -> (r: String)
    ensures
        r@ == app_key(name@),
        trim_ws(r@) == r@,
        !has_exe_suffix(r@),
{
    proof {
        lemma_bare_stem(str_lower(trim_ws(name@)));
    }
    let cs = chars_of(name);
    let k = app_key_chars(cs.as_slice());
    string_from(k.as_slice())
}

/// The profile for `app_name`, if the user wrote one. `None` for an application with no
/// profile and for a delivery whose application could not be read; the first match wins.
pub fn matching_profile<'a>(profiles: &'a [OutputProfile], app_name: Option<&str>) -> (r: Option<
    &'a OutputProfile,
>)
    ensures
        r == (match profile_index(profiles@, name_view(app_name)) {
            Some(i) => Some(&profiles@[i]),
            None => None,
        }),
{
    let name = match app_name {
        Some(n) => n,
        None => return None,
    };
    let cs = chars_of(name);
    let wanted = app_key_chars(cs.as_slice());
    if wanted.len() == 0 {
        return None;
    }
    assert(name_view(app_name) == Some(name@));
    let n = profiles.len();
    let mut i: usize = 0;
    while i < n
        invariant
            i <= n == profiles@.len(),
            wanted@ == app_key(name@),
            wanted@.len() > 0,
            name_view(app_name) == Some(name@),
            first_profile(profiles@, wanted@, i as int) == first_profile(profiles@, wanted@, 0),
        decreases n - i,
    {
        let pc = chars_of(profiles[i].app_name.as_str());
        let key = app_key_chars(pc.as_slice());
        if chars_eq(key.as_slice(), wanted.as_slice()) {
            assert(first_profile(profiles@, wanted@, i as int) == Some(i as int));
            assert(profile_index(profiles@, name_view(app_name)) == Some(i as int));
            return Some(&profiles[i]);
        }
        i += 1;
    }
    None
}

/// The output settings one delivery actually runs with: the global settings with the
/// matching profile's overrides folded over them.
#[derive(Clone, Copy, Debug, PartialEq, Eq, Structural)]
pub struct EffectiveOutput {
    pub paste_method: PasteMethod,
    pub auto_submit: bool,
    pub auto_submit_key: AutoSubmitKey,
    pub clipboard_handling: ClipboardHandling,
}

/// The global settings, with no profile applied.
pub open spec fn global_output(s: AppSettings) -> EffectiveOutput {
    EffectiveOutput {
        paste_method: s.paste_method,
        auto_submit: s.auto_submit,
        auto_submit_key: s.auto_submit_key,
        clipboard_handling: s.clipboard_handling,
    }
}

/// `e` with each override that `p` sets.
pub open spec fn overlaid(e: EffectiveOutput, p: OutputProfile) -> EffectiveOutput {
    EffectiveOutput {
        paste_method: match p.paste_method {
            Some(m) => m,
            None => e.paste_method,
        },
        auto_submit: match p.auto_submit {
            Some(b) => b,
            None => e.auto_submit,
        },
        auto_submit_key: match p.auto_submit_key {
            Some(k) => k,
            None => e.auto_submit_key,
        },
        clipboard_handling: match p.clipboard_handling {
            Some(h) => h,
            None => e.clipboard_handling,
        },
    }
}

/// The settings for a delivery to the application named `app_name`.
pub open spec fn resolved_output(s: AppSettings, app_name: Option<Seq<char>>) -> EffectiveOutput {
    match profile_index(s.output_profiles@, app_name) {
        Some(i) => overlaid(global_output(s), s.output_profiles@[i]),
        None => global_output(s),
    }
}

impl EffectiveOutput {
    /// The global settings, with no profile applied.
    pub fn global(settings: &AppSettings) -> (r: Self)
        ensures
            r == global_output(*settings),
    {
        EffectiveOutput {
            paste_method: settings.paste_method,
            auto_submit: settings.auto_submit,
            auto_submit_key: settings.auto_submit_key,
            clipboard_handling: settings.clipboard_handling,
        }
    }

    /// The settings for a delivery to `app_name`.
    pub fn resolve(settings: &AppSettings, app_name: Option<&str>) -> (r: Self)
        ensures
            r == resolved_output(*settings, name_view(app_name)),
    {
        let mut effective = Self::global(settings);
        if let Some(profile) = matching_profile(settings.output_profiles.as_slice(), app_name) {
            effective.overlay(profile);
        }
        effective
    }

    /// Applies one profile's overrides; an override left unset keeps the current value.
    fn overlay(&mut self, profile: &OutputProfile)
        ensures
            *final(self) == overlaid(*old(self), *profile),
    {
        if let Some(paste_method) = profile.paste_method {
            self.paste_method = paste_method;
        }
        if let Some(auto_submit) = profile.auto_submit {
            self.auto_submit = auto_submit;
        }
        if let Some(auto_submit_key) = profile.auto_submit_key {
            self.auto_submit_key = auto_submit_key;
        }
        if let Some(clipboard_handling) = profile.clipboard_handling {
            self.clipboard_handling = clipboard_handling;
        }
    }
}

} // verus!
