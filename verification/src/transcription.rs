//! The decisions a transcription makes around the engine call: which vocabulary is in
//! force, which dictation language survives the model's list, what each engine is told
//! about the language, and what the status events carry. The engines are the caller's.
use vstd::prelude::*;
use vstd::string::StringExecFns;
use crate::unicode::{chars_eq, chars_of, eq_lit, extend_chars, string_from};

verus! {

/// A model-state change reported to the interface.
#[derive(Clone, Debug)]
pub struct ModelStateEvent {
    pub event_type: String,
    pub model_id: Option<String>,
    pub model_name: Option<String>,
    pub error: Option<String>,
}

/// A GPU the Whisper engine can run on.
#[derive(Clone, Debug)]
pub struct GpuDeviceOption {
    pub id: i32,
    pub name: String,
    pub total_vram_mb: usize,
}

/// The accelerators compiled into this build.
#[derive(Clone, Debug)]
pub struct AvailableAccelerators {
    pub whisper: Vec<String>,
    pub ort: Vec<String>,
    pub gpu_devices: Vec<GpuDeviceOption>,
}

/// The speech engines a model can run on.
#[derive(Clone, Copy, Debug, PartialEq, Eq, Structural)]
pub enum EngineKind {
    Whisper,
    Parakeet,
    Moonshine,
    MoonshineStreaming,
    SenseVoice,
    GigaAM,
    Canary,
    Cohere,
}

/// The user's list followed, when personalization is on, by the learned one.
pub fn effective_list<T>(user: Vec<T>, learned: Vec<T>, personalization_enabled: bool) -> (r: Vec<T>)
    ensures
        r@ == if personalization_enabled { user@ + learned@ } else { user@ },
{
    if personalization_enabled {
        let mut all = user;
        let mut rest = learned;
        all.append(&mut rest);
        all
    } else {
        user
    }
}

/// The views of owned strings.
pub open spec fn owned_views(v: Seq<String>) -> Seq<Seq<char>> {
    Seq::new(v.len(), |k: int| v[k]@)
}

/// The language the engine is asked for: "auto" stays, a language the model lists (or any
/// language when it lists none, or its list is unknown) is kept, anything else falls back
/// to "auto".
pub open spec fn validated_language_spec(selected: Seq<char>, supported: Option<Seq<Seq<char>>>) -> Seq<char> {
    if selected == "auto"@ {
        "auto"@
    } else {
        match supported {
            None => selected,
            Some(langs) => if langs.len() == 0 || langs.contains(selected) { selected } else { "auto"@ },
        }
    }
}

/// Validates the selected language against the model's supported languages (`None` when
/// the model is unknown).
pub fn validated_language(selected: &str, supported: Option<&Vec<String>>) -> (r: String)
    ensures
        r@ == validated_language_spec(
            selected@,
            match supported {
                Some(v) => Some(owned_views(v@)),
                None => None,
            },
        ),
{
    let s = chars_of(selected);
    if eq_lit(s.as_slice(), "auto") {
        return String::from_str("auto");
    }
    match supported {
        None => string_from(s.as_slice()),
        Some(langs) => {
            let n = langs.len();
            if n == 0 {
                return string_from(s.as_slice());
            }
            let mut i: usize = 0;
            while i < n
                invariant
                    i <= n == langs@.len(),
                    n > 0,
                    supported == Some(langs),
                    s@ == selected@,
                    s@ != "auto"@,
                    forall|j: int| 0 <= j < i ==> owned_views(langs@)[j] != s@,
                decreases n - i,
            {
                if chars_eq(chars_of(langs[i].as_str()).as_slice(), s.as_slice()) {
                    assert(owned_views(langs@)[i as int] == s@);
                    assert(owned_views(langs@).contains(s@));
                    return string_from(s.as_slice());
                }
                i += 1;
            }
            assert(!owned_views(langs@).contains(s@));
            String::from_str("auto")
        },
    }
}

/// What an engine is told about the language, given the validated one: Whisper and Cohere
/// get no hint for "auto" and "zh" for either Chinese script; SenseVoice knows only Chinese,
/// English, Japanese, Korean and Cantonese; Canary gets the language as it is; the others
/// take no language.
pub open spec fn engine_language_spec(kind: EngineKind, lang: Seq<char>) -> Option<Seq<char>> {
    let chinese = lang == "zh-Hans"@ || lang == "zh-Hant"@;
    match kind {
        EngineKind::Whisper | EngineKind::Cohere => if lang == "auto"@ {
            None
        } else if chinese {
            Some("zh"@)
        } else {
            Some(lang)
        },
        EngineKind::Canary => if lang == "auto"@ { None } else { Some(lang) },
        EngineKind::SenseVoice => if lang == "zh"@ || chinese {
            Some("zh"@)
        } else if lang == "en"@ || lang == "ja"@ || lang == "ko"@ || lang == "yue"@ {
            Some(lang)
        } else {
            None
        },
        _ => None,
    }
}

/// The language parameter for an engine.
pub fn engine_language(kind: EngineKind, lang: &str) -> (r: Option<String>)
    ensures
        match engine_language_spec(kind, lang@) {
            Some(l) => r matches Some(s) && s@ == l,
            None => r is None,
        },
{
    let l = chars_of(lang);
    let chinese = eq_lit(l.as_slice(), "zh-Hans") || eq_lit(l.as_slice(), "zh-Hant");
    match kind {
        EngineKind::Whisper | EngineKind::Cohere => {
            if eq_lit(l.as_slice(), "auto") {
                None
            } else if chinese {
                Some(String::from_str("zh"))
            } else {
                Some(string_from(l.as_slice()))
            }
        },
        EngineKind::Canary => {
            if eq_lit(l.as_slice(), "auto") {
                None
            } else {
                Some(string_from(l.as_slice()))
            }
        },
        EngineKind::SenseVoice => {
            if eq_lit(l.as_slice(), "zh") || chinese {
                Some(String::from_str("zh"))
            } else if eq_lit(l.as_slice(), "en") || eq_lit(l.as_slice(), "ja") || eq_lit(l.as_slice(), "ko")
                || eq_lit(l.as_slice(), "yue") {
                Some(string_from(l.as_slice()))
            } else {
                None
            }
        },
        _ => None,
    }
}

/// Words joined with ", ".
pub open spec fn comma_joined(ws: Seq<Seq<char>>) -> Seq<char>
    decreases ws.len(),
{
    if ws.len() == 0 {
        seq![]
    } else if ws.len() == 1 {
        ws[0]
    } else {
        comma_joined(ws.drop_last()) + ", "@ + ws.last()
    }
}

/// Whisper's initial prompt: the custom words joined with ", ", or none without words.
pub fn whisper_initial_prompt(custom_words: &Vec<String>) -> (r: Option<String>)
    ensures
        custom_words@.len() == 0 ==> r is None,
        custom_words@.len() > 0 ==> (r matches Some(p) && p@ == comma_joined(owned_views(custom_words@))),
{
    let n = custom_words.len();
    if n == 0 {
        return None;
    }
    let ghost ws = owned_views(custom_words@);
    let mut out = chars_of(custom_words[0].as_str());
    assert(ws.take(1).drop_last() =~= seq![]);
    let mut i: usize = 1;
    while i < n
        invariant
            1 <= i <= n == custom_words@.len(),
            ws == owned_views(custom_words@),
            out@ == comma_joined(ws.take(i as int)),
        decreases n - i,
    {
        extend_chars(&mut out, chars_of(", ").as_slice());
        extend_chars(&mut out, chars_of(custom_words[i].as_str()).as_slice());
        assert(ws.take(i + 1).drop_last() =~= ws.take(i as int));
        i += 1;
    }
    assert(ws.take(n as int) =~= ws);
    Some(string_from(out.as_slice()))
}

/// Whether fuzzy custom-word correction runs: there are words, and the engine is not
/// Whisper, which already received them as its prompt.
pub fn should_apply_custom_words(has_custom_words: bool, is_whisper: bool) -> (r: bool)
    ensures
        r == (has_custom_words && !is_whisper),
{
    has_custom_words && !is_whisper
}

} // verus!
