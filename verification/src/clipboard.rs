//! Decisions of the paste path: whether a delivery submits, copies, or needs focus, how a
//! lost target is reported, and which Linux input tool handles typing and key combinations.
//! The keystrokes and processes themselves are the caller's.
use vstd::prelude::*;
use vstd::string::StringExecFns;
use crate::settings::{ClipboardHandling, PasteMethod, TypingTool};

verus! {

/// Whether the configured submit key follows the transcript. `NoPaste` types nothing,
/// so it never submits.
pub fn should_send_auto_submit(auto_submit: bool, paste_method: PasteMethod) -> (r: bool)
    ensures
        r == (auto_submit && paste_method != PasteMethod::NoPaste),
{
    auto_submit && paste_method != PasteMethod::NoPaste
}

/// Whether the transcript is also copied to the clipboard. `delivered` is deliberately
/// ignored: the setting is about the clipboard, so it holds whether or not the text reached
/// a window, and a suppressed delivery still leaves its copy behind.
pub fn should_copy_to_clipboard(handling: ClipboardHandling, delivered: bool) -> (r: bool)
    ensures
        r == (handling == ClipboardHandling::CopyToClipboard),
{
    let _ = delivered;
    handling == ClipboardHandling::CopyToClipboard
}

/// Whether this delivery sends any input to a window, and so needs one to hold focus.
pub fn delivery_sends_input(paste_method: PasteMethod, auto_submit: bool) -> (r: bool)
    ensures
        r == (paste_method != PasteMethod::NoPaste),
{
    paste_method != PasteMethod::NoPaste || should_send_auto_submit(auto_submit, paste_method)
}

/// How a transcript reaches the window.
#[derive(Clone, Copy, Debug, PartialEq, Eq, Structural)]
pub enum PasteRoute {
    /// Nothing is typed.
    Skip,
    /// Typed key by key, by a native tool or the built-in keyboard simulation.
    TypeDirectly,
    /// Put on the clipboard and pasted with a key combination.
    ViaClipboard,
    /// Handed to the user's script, which decides where it goes.
    ExternalScript,
}

/// The route of a paste method.
pub fn paste_route(paste_method: PasteMethod) -> (r: PasteRoute)
    ensures
        r == match paste_method {
            PasteMethod::NoPaste => PasteRoute::Skip,
            PasteMethod::Direct => PasteRoute::TypeDirectly,
            PasteMethod::CtrlV | PasteMethod::CtrlShiftV | PasteMethod::ShiftInsert =>
                PasteRoute::ViaClipboard,
            PasteMethod::ExternalScript => PasteRoute::ExternalScript,
        },
{
    match paste_method {
        PasteMethod::NoPaste => PasteRoute::Skip,
        PasteMethod::Direct => PasteRoute::TypeDirectly,
        PasteMethod::CtrlV | PasteMethod::CtrlShiftV | PasteMethod::ShiftInsert =>
            PasteRoute::ViaClipboard,
        PasteMethod::ExternalScript => PasteRoute::ExternalScript,
    }
}

/// Whether a delivery borrows the focus of its pinned target window. A delivery that sends
/// nothing never takes the user's window away.
pub fn borrows_focus(pinned: bool, paste_method: PasteMethod, auto_submit: bool) -> (r: bool)
    ensures
        r == (pinned && paste_method != PasteMethod::NoPaste),
{
    pinned && delivery_sends_input(paste_method, auto_submit)
}

/// The configured external paste script, which must be set and non-empty.
pub fn configured_script_path(path: Option<&str>) -> (r: Result<&str, String>)
    ensures
        match path {
            Some(p) if p@.len() > 0 => r == Ok::<&str, String>(p),
            _ => r matches Err(e) && e@ == "External script path is not configured"@,
        },
{
    match path {
        Some(p) => {
            if p.unicode_len() > 0 {
                Ok(p)
            } else {
                Err(String::from_str("External script path is not configured"))
            }
        },
        None => Err(String::from_str("External script path is not configured")),
    }
}

/// Why the target of a delivery could not be held.
#[derive(Debug, PartialEq, Eq)]
pub enum FocusLost {
    /// The locked window closed.
    TargetGone,
    /// The window is still there but would not come forward, for the given reason.
    ActivationRefused(String),
}

/// The words that tell the user the locked window closed during delivery.
pub open spec fn target_gone_text() -> Seq<char> {
    seq![
        't', 'h', 'e', ' ', 'l', 'o', 'c', 'k', 'e', 'd', ' ', 'w', 'i', 'n', 'd', 'o', 'w', ' ',
        'c', 'l', 'o', 's', 'e', 'd', ' ', 'd', 'u', 'r', 'i', 'n', 'g', ' ', 'd', 'e', 'l', 'i',
        'v', 'e', 'r', 'y',
    ]
}

impl FocusLost {
    /// What the user is told.
    pub open spec fn message_spec(&self) -> Seq<char> {
        match self {
            FocusLost::TargetGone => target_gone_text(),
            FocusLost::ActivationRefused(reason) => reason@,
        }
    }

    /// What the user is told: the fixed notice for a closed window, the reason otherwise.
    pub fn message(&self) -> (r: String)
        ensures
            r@ == self.message_spec(),
    {
        match self {
            FocusLost::TargetGone => {
                let s = String::from_str("the locked window closed during delivery");
                proof {
                    reveal_strlit("the locked window closed during delivery");
                }
                assert(s@ =~= target_gone_text());
                s
            },
            FocusLost::ActivationRefused(reason) => reason.clone(),
        }
    }
}

/// Why one delivery stopped early.
#[derive(Debug, PartialEq, Eq)]
pub enum DeliveryError {
    /// The target window went away; nothing more was typed and the user was already told.
    /// What does not depend on a window, the clipboard copy, still applies.
    Suppressed(String),
    /// The paste machinery failed and the user should be told.
    Failed(String),
}

impl DeliveryError {
    /// The error for a lost target: a closed window only suppresses the delivery, a refused
    /// activation is a failure the user must hear about.
    pub fn for_focus_lost(lost: FocusLost) -> (r: DeliveryError)
        ensures
            match lost {
                FocusLost::TargetGone => r matches DeliveryError::Suppressed(m) && m@ == target_gone_text(),
                FocusLost::ActivationRefused(reason) => r matches DeliveryError::Failed(m) && m@ == reason@,
            },
    {
        match lost {
            FocusLost::TargetGone => DeliveryError::Suppressed(FocusLost::TargetGone.message()),
            FocusLost::ActivationRefused(reason) => DeliveryError::Failed(reason),
        }
    }
}

impl From<String> for DeliveryError {
    fn from(error: String) -> (r: Self) {
        DeliveryError::Failed(error)
    }
}

impl vstd::std_specs::convert::FromSpecImpl<String> for DeliveryError {
    open spec fn obeys_from_spec() -> bool {
        true
    }

    open spec fn from_spec(v: String) -> Self {
        DeliveryError::Failed(v)
    }
}

/// The conversion is [`DeliveryError::for_focus_lost`], whose contract states the result
/// over the message's characters; no spec-level `String` value exists to state it here.
impl From<FocusLost> for DeliveryError {
    fn from(lost: FocusLost) -> (r: Self) {
        DeliveryError::for_focus_lost(lost)
    }
}

impl vstd::std_specs::convert::FromSpecImpl<FocusLost> for DeliveryError {
    open spec fn obeys_from_spec() -> bool {
        false
    }

    open spec fn from_spec(v: FocusLost) -> Self {
        vstd::pervasive::arbitrary()
    }
}

/// Whether one delivery's result means "delivered", "not delivered", or a real error. A
/// suppressed delivery is not an error: the clipboard copy after it must still run.
pub fn delivery_outcome(outcome: Result<(), DeliveryError>) -> (r: Result<bool, String>)
    ensures
        r == match outcome {
            Ok(()) => Ok::<bool, String>(true),
            Err(DeliveryError::Suppressed(_)) => Ok(false),
            Err(DeliveryError::Failed(e)) => Err(e),
        },
{
    match outcome {
        Ok(()) => Ok(true),
        Err(DeliveryError::Suppressed(_)) => Ok(false),
        Err(DeliveryError::Failed(error)) => Err(error),
    }
}

/// Which Linux input tools are installed.
#[derive(Clone, Copy, Debug, PartialEq, Eq, Structural)]
pub struct ToolAvailability {
    pub wtype: bool,
    pub kwtype: bool,
    pub dotool: bool,
    pub ydotool: bool,
    pub xdotool: bool,
}

/// Whether the tool `t` is installed (`Auto` names no tool).
pub open spec fn tool_available(a: ToolAvailability, t: TypingTool) -> bool {
    match t {
        TypingTool::Auto => false,
        TypingTool::Wtype => a.wtype,
        TypingTool::Kwtype => a.kwtype,
        TypingTool::Dotool => a.dotool,
        TypingTool::Ydotool => a.ydotool,
        TypingTool::Xdotool => a.xdotool,
    }
}

/// The tool that sends a paste key combination: on Wayland wtype (not on KDE, which lacks
/// its protocol), then dotool, then ydotool; on X11 xdotool, then ydotool. `None` falls
/// back to the built-in keyboard simulation.
pub open spec fn key_combo_tool_spec(wayland: bool, kde: bool, a: ToolAvailability) -> Option<TypingTool> {
    if wayland {
        if !kde && a.wtype {
            Some(TypingTool::Wtype)
        } else if a.dotool {
            Some(TypingTool::Dotool)
        } else if a.ydotool {
            Some(TypingTool::Ydotool)
        } else {
            None
        }
    } else if a.xdotool {
        Some(TypingTool::Xdotool)
    } else if a.ydotool {
        Some(TypingTool::Ydotool)
    } else {
        None
    }
}

/// Chooses the tool that sends a paste key combination.
pub fn key_combo_tool(wayland: bool, kde: bool, available: ToolAvailability) -> (r: Option<TypingTool>)
    ensures
        r == key_combo_tool_spec(wayland, kde, available),
{
    if wayland {
        if !kde && available.wtype {
            Some(TypingTool::Wtype)
        } else if available.dotool {
            Some(TypingTool::Dotool)
        } else if available.ydotool {
            Some(TypingTool::Ydotool)
        } else {
            None
        }
    } else if available.xdotool {
        Some(TypingTool::Xdotool)
    } else if available.ydotool {
        Some(TypingTool::Ydotool)
    } else {
        None
    }
}

/// The tool that types text in `Auto` mode: on KDE Wayland kwtype, on other Wayland
/// desktops wtype, then dotool, then ydotool; on X11 xdotool, then ydotool.
pub open spec fn auto_typing_tool(wayland: bool, kde: bool, a: ToolAvailability) -> Option<TypingTool> {
    if wayland {
        if kde && a.kwtype {
            Some(TypingTool::Kwtype)
        } else if !kde && a.wtype {
            Some(TypingTool::Wtype)
        } else if a.dotool {
            Some(TypingTool::Dotool)
        } else if a.ydotool {
            Some(TypingTool::Ydotool)
        } else {
            None
        }
    } else if a.xdotool {
        Some(TypingTool::Xdotool)
    } else if a.ydotool {
        Some(TypingTool::Ydotool)
    } else {
        None
    }
}

/// The name a tool is shown by in an error.
pub open spec fn tool_label(t: TypingTool) -> Seq<char> {
    match t {
        TypingTool::Auto => "Auto"@,
        TypingTool::Wtype => "Wtype"@,
        TypingTool::Kwtype => "Kwtype"@,
        TypingTool::Dotool => "Dotool"@,
        TypingTool::Ydotool => "Ydotool"@,
        TypingTool::Xdotool => "Xdotool"@,
    }
}

fn tool_label_str(t: TypingTool) -> (r: &'static str)
    ensures
        r@ == tool_label(t),
{
    match t {
        TypingTool::Auto => "Auto",
        TypingTool::Wtype => "Wtype",
        TypingTool::Kwtype => "Kwtype",
        TypingTool::Dotool => "Dotool",
        TypingTool::Ydotool => "Ydotool",
        TypingTool::Xdotool => "Xdotool",
    }
}

/// Chooses the tool that types text directly. A tool the user named is used only if it is
/// installed, and its absence is an error; `Auto` walks the fallback chain, and `None`
/// falls back to the built-in keyboard simulation.
pub fn direct_typing_tool(preferred: TypingTool, wayland: bool, kde: bool, available: ToolAvailability) -> (r:
    Result<Option<TypingTool>, String>)
    ensures
        preferred == TypingTool::Auto ==> r == Ok::<Option<TypingTool>, String>(
            auto_typing_tool(wayland, kde, available),
        ),
        preferred != TypingTool::Auto && tool_available(available, preferred) ==> r == Ok::<
            Option<TypingTool>,
            String,
        >(Some(preferred)),
        preferred != TypingTool::Auto && !tool_available(available, preferred) ==> (r matches Err(m)
            && m@ == "Typing tool "@ + tool_label(preferred) + " is not available on this system"@),
{
    let installed = match preferred {
        TypingTool::Auto => {
            if wayland {
                if kde && available.kwtype {
                    return Ok(Some(TypingTool::Kwtype));
                } else if !kde && available.wtype {
                    return Ok(Some(TypingTool::Wtype));
                } else if available.dotool {
                    return Ok(Some(TypingTool::Dotool));
                } else if available.ydotool {
                    return Ok(Some(TypingTool::Ydotool));
                } else {
                    return Ok(None);
                }
            } else if available.xdotool {
                return Ok(Some(TypingTool::Xdotool));
            } else if available.ydotool {
                return Ok(Some(TypingTool::Ydotool));
            } else {
                return Ok(None);
            }
        },
        TypingTool::Wtype => available.wtype,
        TypingTool::Kwtype => available.kwtype,
        TypingTool::Dotool => available.dotool,
        TypingTool::Ydotool => available.ydotool,
        TypingTool::Xdotool => available.xdotool,
    };
    if installed {
        Ok(Some(preferred))
    } else {
        let m = String::from_str("Typing tool ");
        let m = m.concat(tool_label_str(preferred));
        let m = m.concat(" is not available on this system");
        Err(m)
    }
}

/// The names of the installed tools a user may pick from, "auto" first.
pub open spec fn available_tool_names(a: ToolAvailability) -> Seq<Seq<char>> {
    seq!["auto"@]
        + (if a.wtype { seq!["wtype"@] } else { seq![] })
        + (if a.kwtype { seq!["kwtype"@] } else { seq![] })
        + (if a.dotool { seq!["dotool"@] } else { seq![] })
        + (if a.ydotool { seq!["ydotool"@] } else { seq![] })
        + (if a.xdotool { seq!["xdotool"@] } else { seq![] })
}

/// The views of a vector of strings.
pub open spec fn string_views(v: Seq<String>) -> Seq<Seq<char>> {
    v.map_values(|s: String| s@)
}

fn push_name(names: &mut Vec<String>, name: &str)
    ensures
        string_views(final(names)@) == string_views(old(names)@).push(name@),
{
    names.push(String::from_str(name));
    assert(string_views(final(names)@) =~= string_views(old(names)@).push(name@));
}

/// The typing tools installed on this system, as the settings list offers them: always
/// "auto" first, then each installed tool.
pub fn get_available_typing_tools(available: ToolAvailability) -> (r: Vec<String>)
    ensures
        string_views(r@) == available_tool_names(available),
{
    let mut tools: Vec<String> = Vec::new();
    push_name(&mut tools, "auto");
    let ghost g0 = string_views(tools@);
    if available.wtype {
        push_name(&mut tools, "wtype");
    }
    let ghost g1 = string_views(tools@);
    if available.kwtype {
        push_name(&mut tools, "kwtype");
    }
    let ghost g2 = string_views(tools@);
    if available.dotool {
        push_name(&mut tools, "dotool");
    }
    let ghost g3 = string_views(tools@);
    if available.ydotool {
        push_name(&mut tools, "ydotool");
    }
    let ghost g4 = string_views(tools@);
    if available.xdotool {
        push_name(&mut tools, "xdotool");
    }
    assert(string_views(tools@) =~= available_tool_names(available));
    tools
}

/// The views of string slices.
pub open spec fn slice_views(v: Seq<&str>) -> Seq<Seq<char>> {
    Seq::new(v.len(), |i: int| v[i]@)
}

/// Whether a paste method sends a key combination.
pub open spec fn combo_method(m: PasteMethod) -> bool {
    m == PasteMethod::CtrlV || m == PasteMethod::ShiftInsert || m == PasteMethod::CtrlShiftV
}

/// The error for a paste method that has no key combination.
fn unsupported() -> (r: String)
    ensures
        r@ == "Unsupported paste method"@,
{
    String::from_str("Unsupported paste method")
}

/// The `wtype` arguments that send the combination of `method`.
pub fn wtype_key_args(method: PasteMethod) -> (r: Result<Vec<&'static str>, String>)
    ensures
        method == PasteMethod::CtrlV ==> (r matches Ok(v) && slice_views(v@) == seq!["-M"@, "ctrl"@, "-k"@, "v"@]),
        method == PasteMethod::ShiftInsert ==> (r matches Ok(v) && slice_views(v@) == seq!["-M"@, "shift"@, "-k"@, "Insert"@]),
        method == PasteMethod::CtrlShiftV ==> (r matches Ok(v) && slice_views(v@) == seq!["-M"@, "ctrl"@, "-M"@, "shift"@, "-k"@, "v"@]),
        !combo_method(method) ==> (r matches Err(e) && e@ == "Unsupported paste method"@),
{
    let v: Vec<&'static str> = match method {
        PasteMethod::CtrlV => vec!["-M", "ctrl", "-k", "v"],
        PasteMethod::ShiftInsert => vec!["-M", "shift", "-k", "Insert"],
        PasteMethod::CtrlShiftV => vec!["-M", "ctrl", "-M", "shift", "-k", "v"],
        _ => return Err(unsupported()),
    };
    proof {
        if method == PasteMethod::CtrlV {
            assert(slice_views(v@) =~= seq!["-M"@, "ctrl"@, "-k"@, "v"@]);
        } else if method == PasteMethod::ShiftInsert {
            assert(slice_views(v@) =~= seq!["-M"@, "shift"@, "-k"@, "Insert"@]);
        } else {
            assert(slice_views(v@) =~= seq!["-M"@, "ctrl"@, "-M"@, "shift"@, "-k"@, "v"@]);
        }
    }
    Ok(v)
}

/// The `ydotool key` arguments (Linux input keycodes, `<code>:1` press and `<code>:0`
/// release; ctrl 29, shift 42, v 47, insert 110) that send the combination of `method`.
pub fn ydotool_key_args(method: PasteMethod) -> (r: Result<Vec<&'static str>, String>)
    ensures
        method == PasteMethod::CtrlV ==> (r matches Ok(v) && slice_views(v@) == seq!["key"@, "29:1"@, "47:1"@, "47:0"@, "29:0"@]),
        method == PasteMethod::ShiftInsert ==> (r matches Ok(v) && slice_views(v@) == seq!["key"@, "42:1"@, "110:1"@, "110:0"@, "42:0"@]),
        method == PasteMethod::CtrlShiftV ==> (r matches Ok(v) && slice_views(v@) == seq!["key"@, "29:1"@, "42:1"@, "47:1"@, "47:0"@, "42:0"@, "29:0"@]),
        !combo_method(method) ==> (r matches Err(e) && e@ == "Unsupported paste method"@),
{
    let v: Vec<&'static str> = match method {
        PasteMethod::CtrlV => vec!["key", "29:1", "47:1", "47:0", "29:0"],
        PasteMethod::ShiftInsert => vec!["key", "42:1", "110:1", "110:0", "42:0"],
        PasteMethod::CtrlShiftV => vec!["key", "29:1", "42:1", "47:1", "47:0", "42:0", "29:0"],
        _ => return Err(unsupported()),
    };
    proof {
        if method == PasteMethod::CtrlV {
            assert(slice_views(v@) =~= seq!["key"@, "29:1"@, "47:1"@, "47:0"@, "29:0"@]);
        } else if method == PasteMethod::ShiftInsert {
            assert(slice_views(v@) =~= seq!["key"@, "42:1"@, "110:1"@, "110:0"@, "42:0"@]);
        } else {
            assert(slice_views(v@) =~= seq!["key"@, "29:1"@, "42:1"@, "47:1"@, "47:0"@, "42:0"@, "29:0"@]);
        }
    }
    Ok(v)
}

/// The `xdotool key` combination of `method`.
pub fn xdotool_key_combo(method: PasteMethod) -> (r: Result<&'static str, String>)
    ensures
        method == PasteMethod::CtrlV ==> (r matches Ok(k) && k@ == "ctrl+v"@),
        method == PasteMethod::CtrlShiftV ==> (r matches Ok(k) && k@ == "ctrl+shift+v"@),
        method == PasteMethod::ShiftInsert ==> (r matches Ok(k) && k@ == "shift+Insert"@),
        !combo_method(method) ==> (r matches Err(e) && e@ == "Unsupported paste method"@),
{
    match method {
        PasteMethod::CtrlV => Ok("ctrl+v"),
        PasteMethod::CtrlShiftV => Ok("ctrl+shift+v"),
        PasteMethod::ShiftInsert => Ok("shift+Insert"),
        _ => Err(unsupported()),
    }
}

/// The shell command that pipes the combination of `method` into `dotool`.
pub fn dotool_key_command(method: PasteMethod) -> (r: Result<&'static str, String>)
    ensures
        method == PasteMethod::CtrlV ==> (r matches Ok(k) && k@ == "echo key ctrl+v | dotool"@),
        method == PasteMethod::ShiftInsert ==> (r matches Ok(k) && k@ == "echo key shift+insert | dotool"@),
        method == PasteMethod::CtrlShiftV ==> (r matches Ok(k) && k@ == "echo key ctrl+shift+v | dotool"@),
        !combo_method(method) ==> (r matches Err(e) && e@ == "Unsupported paste method"@),
{
    match method {
        PasteMethod::CtrlV => Ok("echo key ctrl+v | dotool"),
        PasteMethod::ShiftInsert => Ok("echo key shift+insert | dotool"),
        PasteMethod::CtrlShiftV => Ok("echo key ctrl+shift+v | dotool"),
        _ => Err(unsupported()),
    }
}

/// The transcript as delivered: with a trailing space when that setting is on.
pub fn delivered_text(text: String, append_trailing_space: bool) -> (r: String)
    ensures
        r@ == if append_trailing_space { text@.push(' ') } else { text@ },
{
    if append_trailing_space {
        let mut t = text;
        crate::unicode::push_char(&mut t, ' ');
        t
    } else {
        text
    }
}

} // verus!
