//! The output part of the user's settings: how a transcript is typed, whether it is
//! submitted, and what happens to the clipboard, plus the per-application profiles.
use vstd::prelude::*;

verus! {

/// How the transcript reaches the focused window.
#[derive(Clone, Copy, Debug, PartialEq, Eq, Structural)]
pub enum PasteMethod {
    CtrlV,
    Direct,
    /// Types nothing.
    NoPaste,
    ShiftInsert,
    CtrlShiftV,
    ExternalScript,
}

/// The key combination sent after the transcript when auto-submit is on.
#[derive(Clone, Copy, Debug, PartialEq, Eq, Structural)]
pub enum AutoSubmitKey {
    Enter,
    CtrlEnter,
    CmdEnter,
}

/// Whether the transcript is also left on the clipboard.
#[derive(Clone, Copy, Debug, PartialEq, Eq, Structural)]
pub enum ClipboardHandling {
    DontModify,
    CopyToClipboard,
}

/// The Linux tool used to type text or send key combinations.
#[derive(Clone, Copy, Debug, PartialEq, Eq, Structural)]
pub enum TypingTool {
    Auto,
    Wtype,
    Kwtype,
    Dotool,
    Ydotool,
    Xdotool,
}

/// How to type into one named application. Each override left `None` keeps the
/// global setting.
#[derive(Clone, Debug)]
pub struct OutputProfile {
    pub app_name: String,
    pub paste_method: Option<PasteMethod>,
    pub auto_submit: Option<bool>,
    pub auto_submit_key: Option<AutoSubmitKey>,
    pub clipboard_handling: Option<ClipboardHandling>,
}

/// The output settings that delivery decisions read.
#[derive(Clone, Debug)]
pub struct AppSettings {
    pub paste_method: PasteMethod,
    pub auto_submit: bool,
    pub auto_submit_key: AutoSubmitKey,
    pub clipboard_handling: ClipboardHandling,
    pub output_profiles: Vec<OutputProfile>,
}

/// A literal replacement applied to every transcript.
#[derive(Clone, Debug, PartialEq, Eq)]
pub struct WordReplacement {
    pub from: String,
    pub to: String,
    /// Match only on word boundaries.
    pub whole_word: bool,
    pub case_sensitive: bool,
    /// Keep the replacement's own casing whatever the matched text looked like.
    pub preserve_replacement_case: bool,
}

/// The opt-in personalization store, kept apart from the user-authored vocabulary.
#[derive(Clone, Debug, PartialEq, Eq)]
pub struct PersonalizationData {
    pub enabled: bool,
    pub learned_words: Vec<String>,
    pub learned_replacements: Vec<WordReplacement>,
    pub dismissed_suggestions: Vec<String>,
}

} // verus!
