//! Small decisions of the transcription actions: which failures already told the user, how
//! a model's reply and a prompt template are cleaned, and when the English "I" is forced.
use vstd::prelude::*;
use crate::engine_limits::{MODEL_AUTO_LOAD_FAILED_ERROR, WEDGED_ENGINE_ERROR};
use crate::language::{base_of, base_subtag, tag_is_english, TextPipelineLanguage};
use crate::numbers::{format_numbers, formatted};
use crate::spoken_punctuation::{apply_spoken_punctuation, punct_from};
use crate::text::{raw_tokens, strip_to_raw_text};
use crate::unicode::{chars_eq, chars_of, eq_lit, join_space, split_ws, string_from, trim_whitespace, trim_ws};

verus! {

/// Whether a transcription failure already reached the user through its own event, so no
/// generic error toast is due: a failed automatic model load, or a wedged engine. A plain
/// missing model can follow a manual unload and is still reported.
pub fn transcription_error_already_notified(message: &str) -> (r: bool)
    ensures
        r == (message@ == MODEL_AUTO_LOAD_FAILED_ERROR@ || message@ == WEDGED_ENGINE_ERROR@),
{
    let m = chars_of(message);
    eq_lit(m.as_slice(), MODEL_AUTO_LOAD_FAILED_ERROR) || eq_lit(m.as_slice(), WEDGED_ENGINE_ERROR)
}

/// The zero-width characters a language model may slip into its reply.
pub open spec fn invisible_char(c: char) -> bool {
    c == '\u{200B}' || c == '\u{200C}' || c == '\u{200D}' || c == '\u{FEFF}'
}

/// `s` without its invisible characters.
pub open spec fn without_invisible(s: Seq<char>) -> Seq<char>
    decreases s.len(),
{
    if s.len() == 0 {
        s
    } else if invisible_char(s.last()) {
        without_invisible(s.drop_last())
    } else {
        without_invisible(s.drop_last()).push(s.last())
    }
}

/// Removes zero-width spaces, joiners and byte-order marks.
pub fn strip_invisible_chars(s: &str) -> (r: String)
    ensures
        r@ == without_invisible(s@),
{
    let cs = chars_of(s);
    let n = cs.len();
    let mut out: Vec<char> = Vec::new();
    let mut i: usize = 0;
    while i < n
        invariant
            i <= n == cs@.len(),
            cs@ == s@,
            out@ == without_invisible(cs@.take(i as int)),
        decreases n - i,
    {
        let c = cs[i];
        assert(cs@.take(i + 1).drop_last() =~= cs@.take(i as int));
        if !(c == '\u{200B}' || c == '\u{200C}' || c == '\u{200D}' || c == '\u{FEFF}') {
            out.push(c);
        }
        i += 1;
    }
    assert(cs@.take(n as int) =~= cs@);
    string_from(out.as_slice())
}

/// `s` with every occurrence of the non-empty `pat` removed, scanning left to right
/// (`str::replace(pat, "")`).
pub open spec fn remove_all(s: Seq<char>, pat: Seq<char>) -> Seq<char>
    recommends
        pat.len() > 0,
    decreases s.len(),
{
    if s.len() == 0 || pat.len() == 0 {
        s
    } else if s.len() >= pat.len() && s.take(pat.len() as int) == pat {
        remove_all(s.skip(pat.len() as int), pat)
    } else {
        seq![s[0]] + remove_all(s.drop_first(), pat)
    }
}

/// The placeholder a prompt template marks the transcript with.
pub open spec fn output_placeholder() -> Seq<char> {
    seq!['$', '{', 'o', 'u', 't', 'p', 'u', 't', '}']
}

/// Whether `pat` occurs in `s` at `i`.
pub(crate) fn occurs_at(s: &[char], pat: &[char], i: usize) -> (r: bool)
    requires
        i <= s@.len(),
    ensures
        r == (s@.len() - i >= pat@.len() && s@.skip(i as int).take(pat@.len() as int) == pat@),
{
    let n = s.len();
    let m = pat.len();
    if n - i < m {
        return false;
    }
    let mut k: usize = 0;
    while k < m
        invariant
            i <= n == s@.len(),
            m == pat@.len(),
            n - i >= m,
            k <= m,
            forall|j: int| 0 <= j < k ==> s@[i + j] == pat@[j],
        decreases m - k,
    {
        if s[i + k] != pat[k] {
            assert(s@.skip(i as int).take(m as int)[k as int] != pat@[k as int]);
            return false;
        }
        k += 1;
    }
    assert(s@.skip(i as int).take(m as int) =~= pat@);
    true
}

/// The system prompt for a template: its transcript placeholder removed (the transcript
/// travels as the user message) and the result trimmed.
pub fn build_system_prompt(prompt_template: &str) -> (r: String)
    ensures
        r@ == trim_ws(remove_all(prompt_template@, output_placeholder())),
{
    let s = chars_of(prompt_template);
    let pat: Vec<char> = vec!['$', '{', 'o', 'u', 't', 'p', 'u', 't', '}'];
    assert(pat@ =~= output_placeholder());
    let n = s.len();
    let m = pat.len();
    let mut out: Vec<char> = Vec::new();
    let mut i: usize = 0;
    assert(s@.skip(0) =~= s@);
    assert(out@ + remove_all(s@, pat@) =~= remove_all(s@, pat@));
    while i < n
        invariant
            i <= n == s@.len(),
            m == pat@.len() == 9,
            pat@ == output_placeholder(),
            out@ + remove_all(s@.skip(i as int), pat@) == remove_all(s@, pat@),
        decreases n - i,
    {
        let ghost rest = s@.skip(i as int);
        if occurs_at(s.as_slice(), pat.as_slice(), i) {
            assert(rest.skip(m as int) =~= s@.skip(i + m));
            i += m;
        } else {
            assert(rest.drop_first() =~= s@.skip(i + 1));
            assert(rest[0] == s@[i as int]);
            assert(out@.push(s@[i as int]) + remove_all(s@.skip(i + 1), pat@) =~= out@ + (seq![rest[0]]
                + remove_all(rest.drop_first(), pat@)));
            out.push(s[i]);
            i += 1;
        }
    }
    assert(s@.skip(n as int) =~= seq![]);
    assert(out@ =~= remove_all(s@, pat@));
    let t = trim_whitespace(out.as_slice());
    string_from(t.as_slice())
}

/// Whether raw formatting forces English casing of the standalone "I": only when the output
/// is known to be English, because it is translated to English or the selected dictation
/// language's base subtag is exactly "en".
pub fn force_english_i_casing(translate_to_english: bool, selected_language: &str) -> (r: bool)
    ensures
        r == (translate_to_english || base_of(selected_language@) == "en"@),
{
    if translate_to_english {
        return true;
    }
    let cs = chars_of(selected_language);
    let base = base_subtag(cs.as_slice());
    eq_lit(base.as_slice(), "en")
}

/// The deterministic output of raw mode: the raw transcript (English "I" forced when the
/// output is known to be English), then, when raw formatting is on and the pipeline language
/// `language` is English, numbers (if that setting is on) and spoken punctuation.
pub open spec fn raw_output(
    text: Seq<char>,
    translate_to_english: bool,
    selected_language: Seq<char>,
    language: Option<Seq<char>>,
    format_raw_output: bool,
    format_numbers_setting: bool,
) -> Seq<char> {
    let force = translate_to_english || base_of(selected_language) == "en"@;
    let english = tag_is_english(language);
    let raw = join_space(raw_tokens(split_ws(text), force));
    if format_raw_output && english {
        let numbered = if format_numbers_setting { formatted(raw) } else { raw };
        punct_from(split_ws(numbered), 0, false)
    } else {
        raw
    }
}

/// Formats a transcript for raw mode. Raw output and model post-processing exclude each
/// other, so raw mode is the last stage. `language` is the pipeline language the caller
/// derived from the settings and the engine (`TextPipelineLanguage::from_transcription_settings`).
pub fn raw_transcript(
    text: &str,
    translate_to_english: bool,
    selected_language: &str,
    language: &TextPipelineLanguage,
    format_raw_output: bool,
    format_numbers_setting: bool,
) -> (r: String)
    ensures
        r@ == raw_output(
            text@,
            translate_to_english,
            selected_language@,
            language@,
            format_raw_output,
            format_numbers_setting,
        ),
{
    let force = force_english_i_casing(translate_to_english, selected_language);
    let raw = strip_to_raw_text(text, force);
    if format_raw_output {
        let numbered = if format_numbers_setting {
            format_numbers(raw.as_str(), language)
        } else {
            raw
        };
        apply_spoken_punctuation(numbered.as_str(), language)
    } else {
        raw
    }
}

/// Formats a transcript on the normal path (neither raw nor post-processed): numbers are
/// written as digits when that setting is on and the text is known to be English. Returns the
/// final text and, when it differs from the verbatim transcript, the same text as the
/// formatted variant kept in history.
pub fn plain_transcript(
    verbatim: &str,
    text: &str,
    format_numbers_setting: bool,
    language: &TextPipelineLanguage,
) -> (r: (String, Option<String>))
    ensures
        r.0@ == if format_numbers_setting && tag_is_english(language@) {
            formatted(text@)
        } else {
            text@
        },
        r.0@ != verbatim@ ==> (r.1 matches Some(v) && v@ == r.0@),
        r.0@ == verbatim@ ==> r.1 is None,
{
    let final_text = if format_numbers_setting {
        format_numbers(text, language)
    } else {
        string_from(chars_of(text).as_slice())
    };
    if chars_eq(chars_of(final_text.as_str()).as_slice(), chars_of(verbatim).as_slice()) {
        (final_text, None)
    } else {
        let copy = string_from(chars_of(final_text.as_str()).as_slice());
        (final_text, Some(copy))
    }
}

/// The script conversion that a Chinese dictation language asks for.
#[derive(Clone, Copy, Debug, PartialEq, Eq, Structural)]
pub enum ChineseConversion {
    /// `zh-Hans`: Traditional characters are converted to Simplified ones.
    TraditionalToSimplified,
    /// `zh-Hant`: Simplified characters are converted to Traditional ones.
    SimplifiedToTraditional,
}

/// Which conversion, if any, the selected language asks the transcript to go through.
pub fn chinese_conversion(selected_language: &str) -> (r: Option<ChineseConversion>)
    ensures
        r == if selected_language@ == "zh-Hans"@ {
            Some(ChineseConversion::TraditionalToSimplified)
        } else if selected_language@ == "zh-Hant"@ {
            Some(ChineseConversion::SimplifiedToTraditional)
        } else {
            None
        },
{
    let cs = chars_of(selected_language);
    if eq_lit(cs.as_slice(), "zh-Hans") {
        Some(ChineseConversion::TraditionalToSimplified)
    } else if eq_lit(cs.as_slice(), "zh-Hant") {
        Some(ChineseConversion::SimplifiedToTraditional)
    } else {
        None
    }
}

/// A saved post-processing prompt.
#[derive(Clone, Debug)]
pub struct PostProcessPrompt {
    pub id: String,
    pub prompt: String,
}

/// The first prompt whose id is `id`, if any.
pub open spec fn prompt_index(prompts: Seq<PostProcessPrompt>, id: Seq<char>) -> Option<int>
    decreases prompts.len(),
{
    if prompts.len() == 0 {
        None
    } else if prompts[0].id@ == id {
        Some(0)
    } else {
        match prompt_index(prompts.drop_first(), id) {
            Some(k) => Some(k + 1),
            None => None,
        }
    }
}

proof fn lemma_prompt_index(prompts: Seq<PostProcessPrompt>, id: Seq<char>, i: int)
    requires
        0 <= i <= prompts.len(),
        forall|j: int| 0 <= j < i ==> (#[trigger] prompts[j]).id@ != id,
    ensures
        prompt_index(prompts, id) == match prompt_index(prompts.skip(i), id) {
            Some(k) => Some(k + i),
            None => None::<int>,
        },
    decreases i,
{
    if i > 0 {
        assert(prompts[0].id@ != id);
        lemma_prompt_index(prompts.drop_first(), id, i - 1);
        assert(prompts.drop_first().skip(i - 1) =~= prompts.skip(i));
    } else {
        assert(prompts.skip(0) =~= prompts);
    }
}

/// The text of the selected post-processing prompt: the first prompt with the selected id.
pub fn selected_prompt_text(prompts: &[PostProcessPrompt], selected_id: Option<&str>) -> (r:
    Option<String>)
    ensures
        selected_id is None ==> r is None,
        selected_id matches Some(id) ==> match prompt_index(prompts@, id@) {
            None => r is None,
            Some(k) => r matches Some(t) && t@ == prompts@[k].prompt@,
        },
{
    let id = match selected_id {
        Some(id) => id,
        None => return None,
    };
    let wanted = chars_of(id);
    let mut i: usize = 0;
    while i < prompts.len()
        invariant
            i <= prompts@.len(),
            selected_id == Some(id),
            wanted@ == id@,
            forall|j: int| 0 <= j < i ==> (#[trigger] prompts@[j]).id@ != id@,
        decreases prompts.len() - i,
    {
        let candidate = chars_of(prompts[i].id.as_str());
        if chars_eq(candidate.as_slice(), wanted.as_slice()) {
            proof {
                lemma_prompt_index(prompts@, id@, i as int);
                assert(prompts@.skip(i as int)[0] == prompts@[i as int]);
                assert(prompt_index(prompts@.skip(i as int), id@) == Some(0int));
            }
            let text = chars_of(prompts[i].prompt.as_str());
            return Some(string_from(text.as_slice()));
        }
        i += 1;
    }
    proof {
        lemma_prompt_index(prompts@, id@, i as int);
    }
    None
}

/// Whether a transcript goes to the post-processing model: only when that was asked for and
/// raw output, which excludes it, is off.
pub fn wants_post_processing(post_process: bool, effective_raw: bool) -> (r: bool)
    ensures
        r == (post_process && !effective_raw),
{
    post_process && !effective_raw
}

/// The settings that shape a transcript's text after transcription.
#[derive(Clone, Debug)]
pub struct TranscriptFormatting {
    pub translate_to_english: bool,
    pub selected_language: String,
    /// The pipeline language, derived from the settings and the engine's language support.
    pub language: TextPipelineLanguage,
    pub format_raw_output: bool,
    pub format_numbers: bool,
}

/// A transcript after the output stages: the text to deliver, the variant kept in history
/// when a stage changed the text, and the prompt that produced a post-processed text.
#[derive(Clone, Debug)]
pub struct ProcessedTranscription {
    pub final_text: String,
    pub post_processed_text: Option<String>,
    pub post_process_prompt: Option<String>,
}

/// The text the output stages start from: the script-converted transcript when a conversion
/// produced one, else the transcript itself.
pub open spec fn stage_input(transcription: Seq<char>, converted: Option<String>) -> Seq<char> {
    match converted {
        Some(c) => c@,
        None => transcription,
    }
}

/// Runs the output stages on a transcript, given what the outside stages returned: the
/// script conversion (`converted`) and the post-processing model's reply (`post_processed`,
/// with the selected prompt's text), which is read only when post-processing was wanted.
///
/// Raw output wins over post-processing and is the last stage. With post-processing asked
/// for, a reply replaces the text and is recorded; without a reply the text stays as it is.
/// Otherwise numbers are formatted when that setting is on, and the result is recorded when
/// it differs from the verbatim transcript.
pub fn process_transcription_output(
    transcription: &str,
    converted: Option<String>,
    post_process: bool,
    effective_raw: bool,
    post_processed: Option<String>,
    selected_prompt: Option<String>,
    formatting: &TranscriptFormatting,
) -> (r: ProcessedTranscription)
    ensures
        ({
            let text = stage_input(transcription@, converted);
            if effective_raw {
                &&& r.final_text@ == raw_output(
                    text,
                    formatting.translate_to_english,
                    formatting.selected_language@,
                    formatting.language@,
                    formatting.format_raw_output,
                    formatting.format_numbers,
                )
                &&& r.post_processed_text is None
                &&& r.post_process_prompt is None
            } else if post_process {
                match post_processed {
                    Some(p) => {
                        &&& r.final_text@ == p@
                        &&& r.post_processed_text matches Some(v) && v@ == p@
                        &&& r.post_process_prompt == selected_prompt
                    },
                    None => {
                        &&& r.final_text@ == text
                        &&& r.post_processed_text is None
                        &&& r.post_process_prompt is None
                    },
                }
            } else {
                &&& r.final_text@ == if formatting.format_numbers && tag_is_english(
                    formatting.language@,
                ) {
                    formatted(text)
                } else {
                    text
                }
                &&& r.final_text@ != transcription@ ==> (r.post_processed_text matches Some(v)
                    && v@ == r.final_text@)
                &&& r.final_text@ == transcription@ ==> r.post_processed_text is None
                &&& r.post_process_prompt is None
            }
        }),
{
    let text = match converted {
        Some(c) => c,
        None => string_from(chars_of(transcription).as_slice()),
    };
    if effective_raw {
        let final_text = raw_transcript(
            text.as_str(),
            formatting.translate_to_english,
            formatting.selected_language.as_str(),
            &formatting.language,
            formatting.format_raw_output,
            formatting.format_numbers,
        );
        ProcessedTranscription { final_text, post_processed_text: None, post_process_prompt: None }
    } else if post_process {
        match post_processed {
            Some(p) => {
                let copy = string_from(chars_of(p.as_str()).as_slice());
                ProcessedTranscription {
                    final_text: p,
                    post_processed_text: Some(copy),
                    post_process_prompt: selected_prompt,
                }
            },
            None => ProcessedTranscription {
                final_text: text,
                post_processed_text: None,
                post_process_prompt: None,
            },
        }
    } else {
        let (final_text, post_processed_text) = plain_transcript(
            transcription,
            text.as_str(),
            formatting.format_numbers,
            &formatting.language,
        );
        ProcessedTranscription { final_text, post_processed_text, post_process_prompt: None }
    }
}

/// What the history keeps of a finished dictation.
#[derive(Clone, Debug, PartialEq, Eq)]
pub enum HistoryRecord {
    /// Nothing: the recording was not saved and no delivery overflowed.
    Skip,
    /// An ordinary entry with its primary text and its processed variant.
    Entry { primary: String, post_processed_text: Option<String> },
    /// A starred recovery entry for a transcript the full delivery queue could not take.
    Recovery { primary: String, post_processed_text: Option<String> },
}

/// The characters of an optional string.
pub open spec fn opt_view(s: Option<String>) -> Option<Seq<char>> {
    match s {
        Some(t) => Some(t@),
        None => None,
    }
}

fn copy_string(s: &String) -> (r: String)
    ensures
        r@ == s@,
{
    string_from(chars_of(s.as_str()).as_slice())
}

fn copy_opt(s: &Option<String>) -> (r: Option<String>)
    ensures
        opt_view(r) == opt_view(*s),
{
    match s {
        Some(t) => Some(copy_string(t)),
        None => None,
    }
}

/// What the history keeps once a dictation is processed. `overflow` is the text the full
/// delivery queue handed back, if it did (only a non-empty text is delivered).
///
/// In raw mode the emitted text is the primary text, so history shows what the user got;
/// otherwise the verbatim transcript is primary and a processed variant is kept beside it. An
/// overflowed transcript is always kept, as a recovery entry, and its delivered text is kept as
/// the variant whenever it differs from the transcript outside raw mode. Otherwise an entry is
/// kept only when the recording was saved.
pub fn history_record(
    transcription: &str,
    processed: &ProcessedTranscription,
    effective_raw: bool,
    wav_saved: bool,
    overflow: Option<String>,
) -> (r: HistoryRecord)
    ensures
        ({
            let primary_of = |t: Seq<char>| if effective_raw { t } else { transcription@ };
            if processed.final_text@.len() > 0 && overflow is Some {
                let rt = overflow->0@;
                r matches HistoryRecord::Recovery { primary, post_processed_text } && primary@
                    == primary_of(rt) && opt_view(post_processed_text) == (if effective_raw || rt
                    == transcription@ {
                    opt_view(processed.post_processed_text)
                } else {
                    Some(rt)
                })
            } else if wav_saved {
                r matches HistoryRecord::Entry { primary, post_processed_text } && primary@
                    == primary_of(processed.final_text@) && opt_view(post_processed_text)
                    == opt_view(processed.post_processed_text)
            } else {
                r is Skip
            }
        }),
{
    let final_chars = chars_of(processed.final_text.as_str());
    if final_chars.len() > 0 {
        if let Some(rt) = overflow {
            let same = crate::unicode::chars_eq(
                chars_of(rt.as_str()).as_slice(),
                chars_of(transcription).as_slice(),
            );
            let post_processed_text = if effective_raw || same {
                copy_opt(&processed.post_processed_text)
            } else {
                Some(copy_string(&rt))
            };
            let primary = if effective_raw {
                rt
            } else {
                string_from(chars_of(transcription).as_slice())
            };
            return HistoryRecord::Recovery { primary, post_processed_text };
        }
    }
    if wav_saved {
        let primary = if effective_raw {
            copy_string(&processed.final_text)
        } else {
            string_from(chars_of(transcription).as_slice())
        };
        HistoryRecord::Entry {
            primary,
            post_processed_text: copy_opt(&processed.post_processed_text),
        }
    } else {
        HistoryRecord::Skip
    }
}

} // verus!
