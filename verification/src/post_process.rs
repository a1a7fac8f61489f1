//! The decisions around post-processing a transcript with a language model: whether a
//! request is made at all, what it carries, and what text is taken from the reply. The request
//! itself is the caller's.
use vstd::prelude::*;
use crate::actions::{
    build_system_prompt, output_placeholder, prompt_index, remove_all, selected_prompt_text,
    strip_invisible_chars, without_invisible, PostProcessPrompt,
};
use crate::unicode::{chars_eq, chars_of, extend_chars, string_from, trim_whitespace, trim_ws};

verus! {

/// A model provider as post-processing sees it.
#[derive(Clone, Debug)]
pub struct PostProcessProvider {
    pub id: String,
    /// Whether the provider accepts a JSON schema for its reply.
    pub supports_structured_output: bool,
}

/// The post-processing part of the settings.
#[derive(Clone, Debug)]
pub struct PostProcessSettings {
    /// The selected provider, if any.
    pub provider: Option<PostProcessProvider>,
    /// The model chosen for each provider id.
    pub models: Vec<(String, String)>,
    /// The API key stored for each provider id.
    pub api_keys: Vec<(String, String)>,
    pub selected_prompt_id: Option<String>,
    pub prompts: Vec<PostProcessPrompt>,
}

/// How a provider is told not to spend effort on reasoning.
#[derive(Clone, Copy, Debug, PartialEq, Eq, Structural)]
pub enum ReasoningOverride {
    /// Nothing is sent.
    Unchanged,
    /// A top-level `reasoning_effort` of "none" (local OpenAI-compatible servers).
    EffortNone,
    /// A nested reasoning object with effort "none" and the reasoning text excluded.
    ExcludedEffortNone,
}

/// One post-processing request: the structured form (system prompt plus the transcript as the
/// user message, with a schema asking for a `transcription` field), used when the provider
/// supports it, and the legacy form (the prompt with the transcript written in), used otherwise
/// and when the structured request fails.
#[derive(Clone, Debug)]
pub struct PostProcessRequest {
    pub provider_id: String,
    pub model: String,
    pub api_key: String,
    pub reasoning: ReasoningOverride,
    pub structured: bool,
    pub system_prompt: String,
    pub user_content: String,
    pub legacy_prompt: String,
}

/// The value of the first pair whose key is `key`, as a map lookup gives it.
pub open spec fn lookup(pairs: Seq<(String, String)>, key: Seq<char>) -> Option<Seq<char>>
    decreases pairs.len(),
{
    if pairs.len() == 0 {
        None
    } else if pairs[0].0@ == key {
        Some(pairs[0].1@)
    } else {
        lookup(pairs.drop_first(), key)
    }
}

/// The reasoning override for a provider id.
pub open spec fn reasoning_for(id: Seq<char>) -> ReasoningOverride {
    if id == "custom"@ {
        ReasoningOverride::EffortNone
    } else if id == "openrouter"@ {
        ReasoningOverride::ExcludedEffortNone
    } else {
        ReasoningOverride::Unchanged
    }
}

/// `s` with every occurrence of the non-empty `pat` replaced by `rep`, scanning left to right
/// (`str::replace`).
pub open spec fn replace_all(s: Seq<char>, pat: Seq<char>, rep: Seq<char>) -> Seq<char>
    decreases s.len(),
{
    if s.len() == 0 || pat.len() == 0 {
        s
    } else if s.len() >= pat.len() && s.take(pat.len() as int) == pat {
        rep + replace_all(s.skip(pat.len() as int), pat, rep)
    } else {
        seq![s[0]] + replace_all(s.drop_first(), pat, rep)
    }
}

/// What a post-processing request is made of, or `None` when post-processing is skipped: no
/// provider selected, a blank model, no prompt selected, a selected prompt that does not
/// exist, or a blank prompt.
pub open spec fn post_process_plan_spec(s: PostProcessSettings, transcription: Seq<char>) -> Option<
    (Seq<char>, Seq<char>, Seq<char>, ReasoningOverride, bool, Seq<char>, Seq<char>, Seq<char>),
> {
    match s.provider {
        None => None,
        Some(p) => {
            let model = match lookup(s.models@, p.id@) {
                Some(m) => m,
                None => seq![],
            };
            let key = match lookup(s.api_keys@, p.id@) {
                Some(k) => k,
                None => seq![],
            };
            if trim_ws(model).len() == 0 {
                None
            } else {
                match s.selected_prompt_id {
                    None => None,
                    Some(id) => match prompt_index(s.prompts@, id@) {
                        None => None,
                        Some(i) => {
                            let prompt = s.prompts@[i].prompt@;
                            if trim_ws(prompt).len() == 0 {
                                None
                            } else {
                                Some(
                                    (
                                        p.id@,
                                        model,
                                        key,
                                        reasoning_for(p.id@),
                                        p.supports_structured_output,
                                        trim_ws(remove_all(prompt, output_placeholder())),
                                        transcription,
                                        replace_all(prompt, output_placeholder(), transcription),
                                    ),
                                )
                            }
                        },
                    },
                }
            }
        },
    }
}

/// The parts of a request.
pub open spec fn request_view(r: PostProcessRequest) -> (
    Seq<char>,
    Seq<char>,
    Seq<char>,
    ReasoningOverride,
    bool,
    Seq<char>,
    Seq<char>,
    Seq<char>,
) {
    (
        r.provider_id@,
        r.model@,
        r.api_key@,
        r.reasoning,
        r.structured,
        r.system_prompt@,
        r.user_content@,
        r.legacy_prompt@,
    )
}

fn lookup_pairs(pairs: &Vec<(String, String)>, key: &str) -> (r: Option<String>)
    ensures
        match lookup(pairs@, key@) {
            None => r is None,
            Some(v) => r matches Some(s) && s@ == v,
        },
{
    let wanted = chars_of(key);
    let mut i: usize = 0;
    assert(pairs@.skip(0) =~= pairs@);
    while i < pairs.len()
        invariant
            i <= pairs@.len(),
            wanted@ == key@,
            lookup(pairs@, key@) == lookup(pairs@.skip(i as int), key@),
        decreases pairs@.len() - i,
    {
        assert(pairs@.skip(i as int)[0] == pairs@[i as int]);
        if chars_eq(chars_of(pairs[i].0.as_str()).as_slice(), wanted.as_slice()) {
            return Some(string_from(chars_of(pairs[i].1.as_str()).as_slice()));
        }
        assert(pairs@.skip(i as int).drop_first() =~= pairs@.skip(i + 1));
        i += 1;
    }
    None
}

fn reasoning_of(id: &str) -> (r: ReasoningOverride)
    ensures
        r == reasoning_for(id@),
{
    let cs = chars_of(id);
    if crate::unicode::eq_lit(cs.as_slice(), "custom") {
        ReasoningOverride::EffortNone
    } else if crate::unicode::eq_lit(cs.as_slice(), "openrouter") {
        ReasoningOverride::ExcludedEffortNone
    } else {
        ReasoningOverride::Unchanged
    }
}

/// Writes `rep` for every occurrence of the placeholder `${output}` in `s`.
fn substitute_output(s: &str, rep: &str) -> (r: String)
    ensures
        r@ == replace_all(s@, output_placeholder(), rep@),
{
    let cs = chars_of(s);
    let rc = chars_of(rep);
    let pat: Vec<char> = vec!['$', '{', 'o', 'u', 't', 'p', 'u', 't', '}'];
    assert(pat@ =~= output_placeholder());
    let n = cs.len();
    let m = pat.len();
    let mut out: Vec<char> = Vec::new();
    let mut i: usize = 0;
    assert(cs@.skip(0) =~= cs@);
    assert(out@ + replace_all(cs@, pat@, rc@) =~= replace_all(cs@, pat@, rc@));
    while i < n
        invariant
            i <= n == cs@.len(),
            cs@ == s@,
            rc@ == rep@,
            m == pat@.len() == 9,
            pat@ == output_placeholder(),
            out@ + replace_all(cs@.skip(i as int), pat@, rc@) == replace_all(cs@, pat@, rc@),
        decreases n - i,
    {
        let ghost rest = cs@.skip(i as int);
        if crate::actions::occurs_at(cs.as_slice(), pat.as_slice(), i) {
            assert(rest.skip(m as int) =~= cs@.skip(i + m));
            let ghost before = out@;
            extend_chars(&mut out, rc.as_slice());
            assert(out@ + replace_all(cs@.skip(i + m), pat@, rc@) =~= before + (rc@ + replace_all(
                rest.skip(m as int),
                pat@,
                rc@,
            )));
            i += m;
        } else {
            assert(rest.drop_first() =~= cs@.skip(i + 1));
            assert(rest[0] == cs@[i as int]);
            assert(out@.push(cs@[i as int]) + replace_all(cs@.skip(i + 1), pat@, rc@) =~= out@ + (
            seq![rest[0]] + replace_all(rest.drop_first(), pat@, rc@)));
            out.push(cs[i]);
            i += 1;
        }
    }
    assert(cs@.skip(n as int) =~= seq![]);
    assert(out@ =~= replace_all(cs@, pat@, rc@));
    string_from(out.as_slice())
}

/// The request to make for `transcription`, or `None` when post-processing is skipped (see
/// [`post_process_plan_spec`]).
pub fn post_process_plan(settings: &PostProcessSettings, transcription: &str) -> (r: Option<
    PostProcessRequest,
>)
    ensures
        match post_process_plan_spec(*settings, transcription@) {
            None => r is None,
            Some(v) => r matches Some(q) && request_view(q) == v,
        },
{
    let provider = match &settings.provider {
        Some(p) => p,
        None => return None,
    };
    let model = match lookup_pairs(&settings.models, provider.id.as_str()) {
        Some(m) => m,
        None => String::new(),
    };
    let key = match lookup_pairs(&settings.api_keys, provider.id.as_str()) {
        Some(k) => k,
        None => String::new(),
    };
    if trim_whitespace(chars_of(model.as_str()).as_slice()).len() == 0 {
        return None;
    }
    let selected = match &settings.selected_prompt_id {
        Some(id) => id.as_str(),
        None => return None,
    };
    let prompt = match selected_prompt_text(settings.prompts.as_slice(), Some(selected)) {
        Some(p) => p,
        None => return None,
    };
    if trim_whitespace(chars_of(prompt.as_str()).as_slice()).len() == 0 {
        return None;
    }
    Some(PostProcessRequest {
        provider_id: string_from(chars_of(provider.id.as_str()).as_slice()),
        model,
        api_key: key,
        reasoning: reasoning_of(provider.id.as_str()),
        structured: provider.supports_structured_output,
        system_prompt: build_system_prompt(prompt.as_str()),
        user_content: string_from(chars_of(transcription).as_slice()),
        legacy_prompt: substitute_output(prompt.as_str(), transcription),
    })
}

/// The text of the string field `field` of the JSON object `content`, when `content` parses
/// as JSON (`serde_json::from_str::<Value>`) and has such a field; `None` otherwise.
pub uninterp spec fn json_string_field(content: Seq<char>, field: Seq<char>) -> Option<Seq<char>>;

/// Parses `content` with `serde_json::from_str::<serde_json::Value>` and reads the string
/// field `field` (`Value::get`, then `Value::as_str`). The contract only names the result.
#[verifier::external_body]
fn json_field(content: &str, field: &str) -> (r: Option<String>)
    ensures
        match r {
            Some(s) => json_string_field(content@, field@) == Some(s@),
            None => json_string_field(content@, field@) is None,
        },
{
    let value = serde_json::from_str::<serde_json::Value>(content).ok()?;
    value.get(field)?.as_str().map(|text| text.to_string())
}

/// The text taken from a structured reply: its `transcription` field, else the whole reply;
/// invisible characters removed either way.
pub open spec fn reply_text(field: Option<Seq<char>>, content: Seq<char>) -> Seq<char> {
    match field {
        Some(t) => without_invisible(t),
        None => without_invisible(content),
    }
}

/// The text of a structured reply (see [`reply_text`]).
pub fn structured_reply_text(content: &str) -> (r: String)
    ensures
        r@ == reply_text(json_string_field(content@, "transcription"@), content@),
{
    match json_field(content, "transcription") {
        Some(t) => strip_invisible_chars(t.as_str()),
        None => strip_invisible_chars(content),
    }
}

/// The text of a reply from the on-device model: `None` when it is blank, else the reply
/// without invisible characters.
pub fn on_device_reply_text(result: &str) -> (r: Option<String>)
    ensures
        trim_ws(result@).len() == 0 ==> r is None,
        trim_ws(result@).len() > 0 ==> (r matches Some(t) && t@ == without_invisible(result@)),
{
    if trim_whitespace(chars_of(result).as_slice()).len() == 0 {
        None
    } else {
        Some(strip_invisible_chars(result))
    }
}

} // verus!
