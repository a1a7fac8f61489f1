use audiobud::cli::{CliArgs, CliParseOutcome};

fn run(arguments: &[&str]) -> CliArgs {
    match CliArgs::parse_from(arguments).expect("arguments are valid") {
        CliParseOutcome::Run(arguments) => arguments,
        other => panic!("expected runnable arguments, got {other:?}"),
    }
}

#[test]
fn every_boolean_option_is_supported() {
    assert!(run(&["audiobud", "--start-hidden"]).start_hidden);
    assert!(run(&["audiobud", "--no-tray"]).no_tray);
    assert!(run(&["audiobud", "--toggle-transcription"]).toggle_transcription);
    assert!(run(&["audiobud", "--toggle-post-process"]).toggle_post_process);
    assert!(run(&["audiobud", "--toggle-raw"]).toggle_raw);
    assert!(run(&["audiobud", "--cancel"]).cancel);
    assert!(run(&["audiobud", "--debug"]).debug);
    assert!(run(&["audiobud", "--install-update"]).install_update);
}

#[test]
fn help_and_version_stay_available() {
    assert_eq!(
        CliArgs::parse_from(&["audiobud", "--help"]),
        Ok(CliParseOutcome::Help)
    );
    assert_eq!(
        CliArgs::parse_from(&["audiobud", "-h"]),
        Ok(CliParseOutcome::Help)
    );
    assert_eq!(
        CliArgs::parse_from(&["audiobud", "--version"]),
        Ok(CliParseOutcome::Version)
    );
    assert_eq!(
        CliArgs::parse_from(&["audiobud", "-V"]),
        Ok(CliParseOutcome::Version)
    );
    assert!(CliArgs::help().contains("AudioBud"));
    assert!(CliArgs::help().contains("On Windows, download"));
    assert!(CliArgs::version().starts_with("audiobud "));
}

#[test]
fn endpoint_accepts_separated_and_joined_values() {
    let endpoint = "https://example.test/latest.json";
    for arguments in [
        vec![
            "audiobud".to_string(),
            "--install-update".to_string(),
            "--install-update-endpoint".to_string(),
            endpoint.to_string(),
        ],
        vec![
            "audiobud".to_string(),
            "--install-update".to_string(),
            format!("--install-update-endpoint={endpoint}"),
        ],
    ] {
        let borrowed: Vec<&str> = arguments.iter().map(String::as_str).collect();
        assert_eq!(
            match CliArgs::parse_from(&borrowed).unwrap() {
                CliParseOutcome::Run(arguments) => arguments.install_update_endpoint,
                other => panic!("expected runnable arguments, got {other:?}"),
            },
            Some(endpoint.to_string())
        );
    }
}

#[test]
fn invalid_forms_are_rejected() {
    let cases = [
        vec!["audiobud", "--unknown"],
        vec!["audiobud", "unexpected"],
        vec!["audiobud", "--install-update-endpoint"],
        vec!["audiobud", "--install-update-endpoint="],
        vec![
            "audiobud",
            "--install-update-endpoint",
            "https://example.test/latest.json",
        ],
        vec!["audiobud", "--install-update-endpoint", "--install-update"],
    ];

    for arguments in cases {
        assert!(
            CliArgs::parse_from(&arguments).is_err(),
            "accepted invalid arguments"
        );
    }
}

#[test]
fn an_error_names_the_offending_argument() {
    let error = CliArgs::parse_from(&["audiobud", "--unknown"]).unwrap_err();
    assert!(error.display_text().contains("--unknown"));
}

#[test]
fn options_parse_without_an_executable_name() {
    match CliArgs::parse_options(&["--debug", "--no-tray"]).unwrap() {
        CliParseOutcome::Run(arguments) => {
            assert!(arguments.debug);
            assert!(arguments.no_tray);
            assert!(!arguments.start_hidden);
        }
        _ => panic!("expected parsed arguments"),
    }
    assert!(matches!(
        CliArgs::parse_options(&["--version"]).unwrap(),
        CliParseOutcome::Version
    ));
    assert!(CliArgs::parse_options(&["audiobud"]).is_err());
}
