use audiobud::clipboard::{
    delivery_outcome, delivery_sends_input, direct_typing_tool, get_available_typing_tools,
    key_combo_tool, should_copy_to_clipboard, should_send_auto_submit, DeliveryError, FocusLost,
    ToolAvailability, delivered_text, dotool_key_command, wtype_key_args, xdotool_key_combo,
    ydotool_key_args,
};
use audiobud::clipboard::{borrows_focus, configured_script_path, paste_route, PasteRoute};
use audiobud::settings::{ClipboardHandling, PasteMethod, TypingTool};

#[test]
fn auto_submit_requires_setting_enabled() {
    assert!(!should_send_auto_submit(false, PasteMethod::CtrlV));
    assert!(!should_send_auto_submit(false, PasteMethod::Direct));
}

#[test]
fn a_closed_target_suppresses_but_a_refused_one_fails() {
    assert_eq!(
        DeliveryError::from(FocusLost::TargetGone),
        DeliveryError::Suppressed("the locked window closed during delivery".to_string())
    );
    assert_eq!(
        DeliveryError::from(FocusLost::ActivationRefused("refused".to_string())),
        DeliveryError::Failed("refused".to_string())
    );
}

#[test]
fn a_refused_activation_reaches_the_user_as_an_error() {
    let refused = delivery_outcome(Err(FocusLost::ActivationRefused(
        "the system refused to activate the target window".to_string(),
    )
    .into()));
    assert_eq!(
        refused,
        Err("the system refused to activate the target window".to_string())
    );
    assert_eq!(
        delivery_outcome(Err(FocusLost::TargetGone.into())),
        Ok(false)
    );
}

#[test]
fn only_a_delivery_that_types_something_needs_focus() {
    assert!(!delivery_sends_input(PasteMethod::NoPaste, false));
    assert!(!delivery_sends_input(PasteMethod::NoPaste, true));
    assert!(delivery_sends_input(PasteMethod::CtrlV, false));
    assert!(delivery_sends_input(PasteMethod::Direct, false));
    assert!(delivery_sends_input(PasteMethod::ExternalScript, false));
}

#[test]
fn a_lost_target_is_not_a_paste_failure() {
    let suppressed = delivery_outcome(Err(DeliveryError::Suppressed(
        "the locked window closed during delivery".to_string(),
    )));
    assert_eq!(suppressed, Ok(false));
}

#[test]
fn a_broken_paste_is_still_reported() {
    let failed = delivery_outcome(Err(DeliveryError::Failed("enigo exploded".to_string())));
    assert_eq!(failed, Err("enigo exploded".to_string()));
    assert_eq!(delivery_outcome(Ok(())), Ok(true));
}

#[test]
fn a_suppressed_delivery_still_copies_to_the_clipboard() {
    assert!(should_copy_to_clipboard(ClipboardHandling::CopyToClipboard, false));
    assert!(should_copy_to_clipboard(ClipboardHandling::CopyToClipboard, true));
}

#[test]
fn no_copy_when_the_setting_is_off() {
    assert!(!should_copy_to_clipboard(ClipboardHandling::DontModify, true));
    assert!(!should_copy_to_clipboard(ClipboardHandling::DontModify, false));
}

#[test]
fn auto_submit_skips_none_paste_method() {
    assert!(!should_send_auto_submit(true, PasteMethod::NoPaste));
}

#[test]
fn auto_submit_runs_for_active_paste_methods() {
    assert!(should_send_auto_submit(true, PasteMethod::CtrlV));
    assert!(should_send_auto_submit(true, PasteMethod::Direct));
    assert!(should_send_auto_submit(true, PasteMethod::CtrlShiftV));
    assert!(should_send_auto_submit(true, PasteMethod::ShiftInsert));
}

fn only(wtype: bool, kwtype: bool, dotool: bool, ydotool: bool, xdotool: bool) -> ToolAvailability {
    ToolAvailability { wtype, kwtype, dotool, ydotool, xdotool }
}

#[test]
fn the_tool_list_always_starts_with_auto() {
    assert_eq!(get_available_typing_tools(only(false, false, false, false, false)), vec!["auto"]);
    assert_eq!(
        get_available_typing_tools(only(true, false, true, false, true)),
        vec!["auto", "wtype", "dotool", "xdotool"]
    );
    assert_eq!(
        get_available_typing_tools(only(true, true, true, true, true)),
        vec!["auto", "wtype", "kwtype", "dotool", "ydotool", "xdotool"]
    );
}

#[test]
fn key_combinations_prefer_the_native_tool_of_the_session() {
    let all = only(true, true, true, true, true);
    assert_eq!(key_combo_tool(true, false, all), Some(TypingTool::Wtype));
    // wtype has no virtual-keyboard protocol on KDE.
    assert_eq!(key_combo_tool(true, true, all), Some(TypingTool::Dotool));
    assert_eq!(key_combo_tool(false, false, all), Some(TypingTool::Xdotool));
    assert_eq!(key_combo_tool(false, false, only(false, false, false, true, false)), Some(TypingTool::Ydotool));
    assert_eq!(key_combo_tool(true, false, only(false, false, false, false, true)), None);
}

#[test]
fn a_named_typing_tool_must_be_installed() {
    let none = only(false, false, false, false, false);
    assert_eq!(
        direct_typing_tool(TypingTool::Wtype, true, false, none),
        Err("Typing tool Wtype is not available on this system".to_string())
    );
    assert_eq!(
        direct_typing_tool(TypingTool::Xdotool, true, false, only(false, false, false, false, true)),
        Ok(Some(TypingTool::Xdotool))
    );
    assert_eq!(
        direct_typing_tool(TypingTool::Auto, true, true, only(true, true, false, false, false)),
        Ok(Some(TypingTool::Kwtype))
    );
    assert_eq!(direct_typing_tool(TypingTool::Auto, false, false, none), Ok(None));
}

#[test]
fn a_lost_focus_explains_itself() {
    assert_eq!(
        FocusLost::TargetGone.message(),
        "the locked window closed during delivery"
    );
    assert_eq!(
        FocusLost::ActivationRefused("busy".to_string()).message(),
        "busy"
    );
}

#[test]
fn key_combinations_per_tool() {
    use_key_tables();
}

fn use_key_tables() {
    assert_eq!(wtype_key_args(PasteMethod::CtrlV), Ok(vec!["-M", "ctrl", "-k", "v"]));
    assert_eq!(
        ydotool_key_args(PasteMethod::ShiftInsert),
        Ok(vec!["key", "42:1", "110:1", "110:0", "42:0"])
    );
    assert_eq!(xdotool_key_combo(PasteMethod::CtrlShiftV), Ok("ctrl+shift+v"));
    assert_eq!(dotool_key_command(PasteMethod::CtrlV), Ok("echo key ctrl+v | dotool"));
    assert_eq!(
        xdotool_key_combo(PasteMethod::Direct),
        Err("Unsupported paste method".to_string())
    );
    assert_eq!(delivered_text("hi".to_string(), true), "hi ");
    assert_eq!(delivered_text("hi".to_string(), false), "hi");
}

#[test]
fn each_paste_method_has_its_route() {
    assert_eq!(paste_route(PasteMethod::NoPaste), PasteRoute::Skip);
    assert_eq!(paste_route(PasteMethod::Direct), PasteRoute::TypeDirectly);
    assert_eq!(paste_route(PasteMethod::CtrlV), PasteRoute::ViaClipboard);
    assert_eq!(paste_route(PasteMethod::CtrlShiftV), PasteRoute::ViaClipboard);
    assert_eq!(paste_route(PasteMethod::ShiftInsert), PasteRoute::ViaClipboard);
    assert_eq!(paste_route(PasteMethod::ExternalScript), PasteRoute::ExternalScript);
}

#[test]
fn only_a_pinned_delivery_that_sends_input_borrows_focus() {
    assert!(borrows_focus(true, PasteMethod::CtrlV, false));
    assert!(!borrows_focus(true, PasteMethod::NoPaste, true));
    assert!(!borrows_focus(false, PasteMethod::CtrlV, true));
}

#[test]
fn an_external_script_must_be_configured() {
    assert_eq!(configured_script_path(Some("/usr/bin/paste.sh")), Ok("/usr/bin/paste.sh"));
    assert_eq!(
        configured_script_path(Some("")),
        Err("External script path is not configured".to_string())
    );
    assert_eq!(
        configured_script_path(None),
        Err("External script path is not configured".to_string())
    );
}
