use audiobud::output_profile::{matching_profile, normalize_app_name, EffectiveOutput};
use audiobud::settings::{AppSettings, AutoSubmitKey, ClipboardHandling, OutputProfile, PasteMethod};

fn profile(app_name: &str) -> OutputProfile {
    OutputProfile {
        app_name: app_name.to_string(),
        paste_method: None,
        auto_submit: None,
        auto_submit_key: None,
        clipboard_handling: None,
    }
}

fn settings() -> AppSettings {
    AppSettings {
        paste_method: PasteMethod::CtrlV,
        auto_submit: true,
        auto_submit_key: AutoSubmitKey::Enter,
        clipboard_handling: ClipboardHandling::CopyToClipboard,
        output_profiles: Vec::new(),
    }
}

#[test]
fn a_typed_name_finds_the_profile_whatever_its_case_or_suffix() {
    let profiles = vec![profile("Code.exe")];
    assert!(matching_profile(&profiles, Some("code")).is_some());
    assert!(matching_profile(&profiles, Some("CODE.EXE")).is_some());
    assert!(matching_profile(&profiles, Some("  code  ")).is_some());
    assert!(matching_profile(&profiles, Some("codex")).is_none());
}

#[test]
fn a_delivery_with_no_readable_application_uses_the_global_settings() {
    let profiles = vec![profile("code")];
    assert!(matching_profile(&profiles, None).is_none());
    assert!(matching_profile(&profiles, Some("")).is_none());
    assert!(matching_profile(&profiles, Some("   ")).is_none());
}

#[test]
fn an_empty_profile_name_never_matches() {
    let profiles = vec![profile("   ")];
    assert!(matching_profile(&profiles, Some("code")).is_none());
    assert!(matching_profile(&profiles, None).is_none());
}

#[test]
fn names_are_normalized_for_matching() {
    assert_eq!(normalize_app_name("  Code.EXE "), "code");
    assert_eq!(normalize_app_name("WindowsTerminal"), "windowsterminal");
    assert_eq!(normalize_app_name(".exe"), "");
}

#[test]
fn no_profiles_means_the_global_settings_are_unchanged() {
    let settings = settings();
    let effective = EffectiveOutput::resolve(&settings, Some("code"));
    assert_eq!(effective, EffectiveOutput::global(&settings));
}

#[test]
fn a_profile_changes_only_what_it_names() {
    let mut settings = settings();
    settings.output_profiles = vec![OutputProfile {
        app_name: "WindowsTerminal".to_string(),
        paste_method: Some(PasteMethod::ShiftInsert),
        auto_submit: Some(false),
        auto_submit_key: None,
        clipboard_handling: None,
    }];

    let terminal = EffectiveOutput::resolve(&settings, Some("WindowsTerminal"));
    assert_eq!(terminal.paste_method, PasteMethod::ShiftInsert);
    assert!(!terminal.auto_submit);
    assert_eq!(terminal.auto_submit_key, AutoSubmitKey::Enter);
    assert_eq!(terminal.clipboard_handling, ClipboardHandling::CopyToClipboard);

    let other = EffectiveOutput::resolve(&settings, Some("chrome"));
    assert_eq!(other, EffectiveOutput::global(&settings));
}

#[test]
fn two_profiles_stay_apart() {
    let mut settings = settings();
    settings.auto_submit = false;
    settings.output_profiles = vec![
        OutputProfile {
            app_name: "WindowsTerminal".to_string(),
            paste_method: Some(PasteMethod::ShiftInsert),
            auto_submit: Some(false),
            auto_submit_key: None,
            clipboard_handling: None,
        },
        OutputProfile {
            app_name: "Slack".to_string(),
            paste_method: Some(PasteMethod::CtrlV),
            auto_submit: Some(true),
            auto_submit_key: Some(AutoSubmitKey::Enter),
            clipboard_handling: None,
        },
    ];

    let terminal = EffectiveOutput::resolve(&settings, Some("WindowsTerminal"));
    assert_eq!(terminal.paste_method, PasteMethod::ShiftInsert);
    assert!(!terminal.auto_submit);

    let chat = EffectiveOutput::resolve(&settings, Some("slack.exe"));
    assert_eq!(chat.paste_method, PasteMethod::CtrlV);
    assert!(chat.auto_submit);
    assert_eq!(chat.auto_submit_key, AutoSubmitKey::Enter);
}

#[test]
fn the_first_profile_for_an_application_wins() {
    let mut settings = settings();
    settings.output_profiles = vec![
        OutputProfile {
            app_name: "code".to_string(),
            paste_method: Some(PasteMethod::ShiftInsert),
            auto_submit: None,
            auto_submit_key: None,
            clipboard_handling: None,
        },
        OutputProfile {
            app_name: "Code.exe".to_string(),
            paste_method: Some(PasteMethod::Direct),
            auto_submit: None,
            auto_submit_key: None,
            clipboard_handling: None,
        },
    ];
    assert_eq!(
        EffectiveOutput::resolve(&settings, Some("code")).paste_method,
        PasteMethod::ShiftInsert
    );
}

#[test]
fn a_profile_can_turn_the_clipboard_copy_on_for_one_application() {
    let mut settings = settings();
    settings.clipboard_handling = ClipboardHandling::DontModify;
    settings.output_profiles = vec![OutputProfile {
        app_name: "notepad".to_string(),
        paste_method: None,
        auto_submit: None,
        auto_submit_key: None,
        clipboard_handling: Some(ClipboardHandling::CopyToClipboard),
    }];
    assert_eq!(
        EffectiveOutput::resolve(&settings, Some("notepad")).clipboard_handling,
        ClipboardHandling::CopyToClipboard
    );
    assert_eq!(
        EffectiveOutput::resolve(&settings, Some("chrome")).clipboard_handling,
        ClipboardHandling::DontModify
    );
}

#[test]
fn a_normalized_name_keeps_no_blank_or_exe_suffix() {
    assert_eq!(normalize_app_name("code .exe"), "code");
    assert_eq!(normalize_app_name("a.exe.exe"), "a");
    assert_eq!(normalize_app_name("CODE.EXE"), "code");
    assert_eq!(normalize_app_name("  code  "), "code");
    assert_eq!(normalize_app_name(".exe"), "");
}
