//! The language contract shared by the deterministic text-pipeline stages. A selected
//! dictation language is a usable signal; `auto` is not, so an English-only formatter never
//! silently treats an unknown or non-English transcript as English.
use vstd::prelude::*;
use crate::unicode::{ascii_ci_eq, chars_of, eq_ignore_ascii_case, string_from, trim_whitespace, trim_ws};

verus! {

/// The language of the text entering the formatting pipeline; `None` when unknown.
#[derive(Clone, Debug, PartialEq, Eq)]
pub struct TextPipelineLanguage(Option<String>);

/// The language tag a setting names: trimmed, with empty and `auto` meaning unknown.
pub open spec fn known_tag(tag: Seq<char>) -> Option<Seq<char>> {
    let t = trim_ws(tag);
    if t.len() == 0 || ascii_ci_eq(t, "auto"@) {
        None
    } else {
        Some(t)
    }
}

/// The first subtag of a language tag: everything before the first `-` or `_`.
pub open spec fn base_of(tag: Seq<char>) -> Seq<char>
    decreases tag.len(),
{
    if tag.len() == 0 {
        seq![]
    } else if tag[0] == '-' || tag[0] == '_' {
        seq![]
    } else {
        seq![tag[0]] + base_of(tag.drop_first())
    }
}

/// The base of an optional tag is English, ignoring ASCII case.
pub open spec fn tag_is_english(tag: Option<Seq<char>>) -> bool {
    tag matches Some(t) && ascii_ci_eq(base_of(t), "en"@)
}

/// The effective output language: translation always emits English; a selectable model keeps
/// an explicit dictation language; otherwise only the model's fixed language counts.
pub open spec fn effective_language(
    selected: Seq<char>,
    translation_is_effective: bool,
    supports_language_selection: bool,
    fixed: Option<Seq<char>>,
) -> Option<Seq<char>> {
    if translation_is_effective {
        Some("en"@)
    } else if supports_language_selection && known_tag(selected) is Some {
        known_tag(selected)
    } else {
        match fixed {
            Some(f) => known_tag(f),
            None => None,
        }
    }
}

impl View for TextPipelineLanguage {
    type V = Option<Seq<char>>;

    closed spec fn view(&self) -> Option<Seq<char>> {
        match self.0 {
            Some(s) => Some(s@),
            None => None,
        }
    }
}

/// The prefix of `tag` before the first `-` or `_`.
pub fn base_subtag(tag: &[char]) -> (r: Vec<char>)
    ensures
        r@ == base_of(tag@),
{
    let mut r: Vec<char> = Vec::new();
    let mut k: usize = 0;
    assert(tag@.skip(0) =~= tag@);
    assert(r@ =~= seq![]);
    while k < tag.len() && tag[k] != '-' && tag[k] != '_'
        invariant
            k <= tag@.len(),
            r@ + base_of(tag@.skip(k as int)) == base_of(tag@),
        decreases tag@.len() - k,
    {
        let ghost rest = tag@.skip(k as int);
        assert(rest.drop_first() =~= tag@.skip(k + 1));
        r.push(tag[k]);
        k += 1;
    }
    assert(base_of(tag@.skip(k as int)) =~= seq![]);
    r
}

impl TextPipelineLanguage {
    /// Derives the output language from the selected settings and model contract.
    pub fn from_transcription_settings(
        selected_language: &str,
        translation_is_effective: bool,
        supports_language_selection: bool,
        fixed_model_language: Option<&str>,
    ) -> (r: Self)
        ensures
            r@ == effective_language(
                selected_language@,
                translation_is_effective,
                supports_language_selection,
                match fixed_model_language {
                    Some(f) => Some(f@),
                    None => None,
                },
            ),
    {
        if translation_is_effective {
            return Self::english();
        }
        if supports_language_selection {
            let selected = Self::known(selected_language);
            if selected.0.is_some() {
                return selected;
            }
        }
        match fixed_model_language {
            Some(f) => Self::known(f),
            None => Self::unknown(),
        }
    }

    /// The language a tag names; empty and `auto` are unknown.
    pub fn known(language_tag: &str) -> (r: Self)
        ensures
            r@ == known_tag(language_tag@),
    {
        let chars = chars_of(language_tag);
        let tag = trim_whitespace(&chars);
        let auto = chars_of("auto");
        if tag.len() == 0 || eq_ignore_ascii_case(&tag, &auto) {
            Self::unknown()
        } else {
            TextPipelineLanguage(Some(string_from(&tag)))
        }
    }

    /// The unknown language.
    pub fn unknown() -> (r: Self)
        ensures
            r@ is None,
    {
        TextPipelineLanguage(None)
    }

    /// English.
    pub fn english() -> (r: Self)
        ensures
            r@ == Some("en"@),
    {
        TextPipelineLanguage(Some(string_from(&chars_of("en"))))
    }

    /// The language tag, when known.
    pub fn tag(&self) -> (r: Option<&str>)
        ensures
            r is Some <==> self@ is Some,
            r matches Some(t) ==> t@ == self@->0,
    {
        match &self.0 {
            Some(s) => Some(s.as_str()),
            None => None,
        }
    }

    /// The base language of the tag (before the first `-` or `_`), when known.
    pub fn base_language(&self) -> (r: Option<String>)
        ensures
            r is Some <==> self@ is Some,
            r matches Some(b) ==> b@ == base_of(self@->0),
    {
        match &self.0 {
            Some(s) => {
                let chars = chars_of(s.as_str());
                Some(string_from(&base_subtag(&chars)))
            },
            None => None,
        }
    }

    /// Whether the text is known to be English.
    pub fn is_english(&self) -> (r: bool)
        ensures
            r == tag_is_english(self@),
    {
        match &self.0 {
            Some(s) => {
                let chars = chars_of(s.as_str());
                let base = base_subtag(&chars);
                eq_ignore_ascii_case(&base, &chars_of("en"))
            },
            None => false,
        }
    }
}

} // verus!
