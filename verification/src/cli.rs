//! The fixed command-line interface accepted by AudioBud.
use vstd::prelude::*;
use crate::unicode::{chars_of, eq_lit, extend_chars, string_from};

verus! {

/// The help text printed for `--help`.
pub const HELP: &'static str = "AudioBud - Speech to Text

Usage: audiobud [OPTIONS]

Options:
      --start-hidden          Start with the main window hidden
      --no-tray               Disable the system tray icon
      --toggle-transcription  Toggle transcription on/off (sent to running instance)
      --toggle-post-process   Toggle transcription with post-processing on/off (sent to running instance)
      --toggle-raw            Toggle raw transcription on/off (sent to running instance)
      --cancel                Cancel the current operation (sent to running instance)
      --debug                 Enable debug mode with verbose logging
      --install-update        On Windows, download and apply an available signed update, then exit
  -h, --help                  Print help
  -V, --version               Print version
";

/// The release this interface belongs to.
pub const VERSION: &'static str = "0.6.0";

/// The parsed command line.
#[derive(Debug, Clone, Default, PartialEq, Eq)]
pub struct CliArgs {
    pub start_hidden: bool,
    pub no_tray: bool,
    pub toggle_transcription: bool,
    pub toggle_post_process: bool,
    pub toggle_raw: bool,
    pub cancel: bool,
    pub debug: bool,
    pub install_update: bool,
    pub install_update_endpoint: Option<String>,
}

/// A successful parse either runs the app or prints an informational response.
#[derive(Debug, Clone, PartialEq, Eq)]
pub enum CliParseOutcome {
    Run(CliArgs),
    Help,
    Version,
}

/// A rejected command line, with the reason.
#[derive(Debug, Clone, PartialEq, Eq)]
pub struct CliParseError {
    message: String,
}

/// The mathematical form of the parsed flags.
pub struct SpecArgs {
    pub start_hidden: bool,
    pub no_tray: bool,
    pub toggle_transcription: bool,
    pub toggle_post_process: bool,
    pub toggle_raw: bool,
    pub cancel: bool,
    pub debug: bool,
    pub install_update: bool,
    pub endpoint: Option<Seq<char>>,
}

/// What a parse yields.
pub enum SpecOutcome {
    Run(SpecArgs),
    Help,
    Version,
    Error(Seq<char>),
}

pub open spec fn no_flags() -> SpecArgs {
    SpecArgs {
        start_hidden: false,
        no_tray: false,
        toggle_transcription: false,
        toggle_post_process: false,
        toggle_raw: false,
        cancel: false,
        debug: false,
        install_update: false,
        endpoint: None,
    }
}

impl CliArgs {
    pub open spec fn spec_args(self) -> SpecArgs {
        SpecArgs {
            start_hidden: self.start_hidden,
            no_tray: self.no_tray,
            toggle_transcription: self.toggle_transcription,
            toggle_post_process: self.toggle_post_process,
            toggle_raw: self.toggle_raw,
            cancel: self.cancel,
            debug: self.debug,
            install_update: self.install_update,
            endpoint: match self.install_update_endpoint {
                Some(e) => Some(e@),
                None => None,
            },
        }
    }
}

impl CliParseError {
    pub closed spec fn spec_message(self) -> Seq<char> {
        self.message@
    }

    /// An error with the given reason.
    pub fn new(message: String) -> (e: Self)
        ensures
            e.spec_message() == message@,
    {
        CliParseError { message }
    }

    /// The reason the command line was rejected.
    pub fn message(&self) -> (r: &str)
        ensures
            r@ == self.spec_message(),
    {
        self.message.as_str()
    }

    /// The text printed for the error, pointing at `--help`.
    pub fn display_text(&self) -> (r: String)
        ensures
            r@ == "error: "@ + self.spec_message() + "\n\nFor more information, try '--help'."@,
    {
        let mut v = chars_of("error: ");
        extend_chars(&mut v, &chars_of(self.message.as_str()));
        extend_chars(&mut v, &chars_of("\n\nFor more information, try '--help'."));
        string_from(&v)
    }
}

/// The outcome a parse result stands for.
pub open spec fn outcome_of(r: Result<CliParseOutcome, CliParseError>) -> SpecOutcome {
    match r {
        Ok(CliParseOutcome::Run(a)) => SpecOutcome::Run(a.spec_args()),
        Ok(CliParseOutcome::Help) => SpecOutcome::Help,
        Ok(CliParseOutcome::Version) => SpecOutcome::Version,
        Err(e) => SpecOutcome::Error(e.spec_message()),
    }
}

pub open spec fn missing_value_msg() -> Seq<char> {
    "a value is required for '--install-update-endpoint <VALUE>'"@
}

pub open spec fn starts_with(s: Seq<char>, p: Seq<char>) -> bool {
    p.len() <= s.len() && s.take(p.len() as int) == p
}

/// Parses the options from argument `i` on, with the flags read so far in `a`.
pub open spec fn parse_opts(args: Seq<Seq<char>>, i: int, a: SpecArgs) -> SpecOutcome
    decreases args.len() - i,
{
    if i < 0 || i >= args.len() {
        if a.endpoint is Some && !a.install_update {
            SpecOutcome::Error("'--install-update-endpoint <VALUE>' requires '--install-update'"@)
        } else {
            SpecOutcome::Run(a)
        }
    } else {
        let arg = args[i];
        if arg == "-h"@ || arg == "--help"@ {
            SpecOutcome::Help
        } else if arg == "-V"@ || arg == "--version"@ {
            SpecOutcome::Version
        } else if arg == "--start-hidden"@ {
            parse_opts(args, i + 1, SpecArgs { start_hidden: true, ..a })
        } else if arg == "--no-tray"@ {
            parse_opts(args, i + 1, SpecArgs { no_tray: true, ..a })
        } else if arg == "--toggle-transcription"@ {
            parse_opts(args, i + 1, SpecArgs { toggle_transcription: true, ..a })
        } else if arg == "--toggle-post-process"@ {
            parse_opts(args, i + 1, SpecArgs { toggle_post_process: true, ..a })
        } else if arg == "--toggle-raw"@ {
            parse_opts(args, i + 1, SpecArgs { toggle_raw: true, ..a })
        } else if arg == "--cancel"@ {
            parse_opts(args, i + 1, SpecArgs { cancel: true, ..a })
        } else if arg == "--debug"@ {
            parse_opts(args, i + 1, SpecArgs { debug: true, ..a })
        } else if arg == "--install-update"@ {
            parse_opts(args, i + 1, SpecArgs { install_update: true, ..a })
        } else if arg == "--install-update-endpoint"@ {
            if i + 1 >= args.len() || starts_with(args[i + 1], "-"@) {
                SpecOutcome::Error(missing_value_msg())
            } else {
                parse_opts(args, i + 2, SpecArgs { endpoint: Some(args[i + 1]), ..a })
            }
        } else if starts_with(arg, "--install-update-endpoint="@) {
            let value = arg.skip("--install-update-endpoint="@.len() as int);
            if value.len() == 0 {
                SpecOutcome::Error(missing_value_msg())
            } else {
                parse_opts(args, i + 1, SpecArgs { endpoint: Some(value), ..a })
            }
        } else if starts_with(arg, "-"@) {
            SpecOutcome::Error("unexpected option '"@ + arg + "'"@)
        } else {
            SpecOutcome::Error("unexpected positional argument '"@ + arg + "'"@)
        }
    }
}

fn error(msg: Vec<char>) -> (r: CliParseError)
    ensures
        r.spec_message() == msg@,
{
    CliParseError { message: string_from(&msg) }
}

fn lit_error(msg: &str) -> (r: CliParseError)
    ensures
        r.spec_message() == msg@,
{
    error(chars_of(msg))
}

fn quoted(prefix: &str, arg: &[char]) -> (r: Vec<char>)
    ensures
        r@ == prefix@ + arg@ + "'"@,
{
    let mut v = chars_of(prefix);
    extend_chars(&mut v, arg);
    extend_chars(&mut v, &chars_of("'"));
    v
}

fn has_prefix(s: &[char], p: &[char]) -> (r: bool)
    ensures
        r == starts_with(s@, p@),
{
    if p.len() > s.len() {
        return false;
    }
    let mut k: usize = 0;
    while k < p.len()
        invariant
            k <= p@.len() <= s@.len(),
            forall|j: int| 0 <= j < k ==> s@[j] == p@[j],
        decreases p@.len() - k,
    {
        if s[k] != p[k] {
            assert(s@.take(p@.len() as int)[k as int] != p@[k as int]);
            return false;
        }
        k += 1;
    }
    assert(s@.take(p@.len() as int) =~= p@);
    true
}

impl CliArgs {
    fn none() -> (r: CliArgs)
        ensures
            r.spec_args() == no_flags(),
    {
        CliArgs {
            start_hidden: false,
            no_tray: false,
            toggle_transcription: false,
            toggle_post_process: false,
            toggle_raw: false,
            cancel: false,
            debug: false,
            install_update: false,
            install_update_endpoint: None,
        }
    }

    /// Parses an argv sequence whose first item is the executable name, which is skipped.
    pub fn parse_from(arguments: &[&str]) -> (r: Result<CliParseOutcome, CliParseError>)
        ensures
            outcome_of(r) == parse_opts(
                Seq::new(arguments@.len(), |k: int| arguments@[k]@),
                1,
                no_flags(),
            ),
    {
        CliArgs::parse_options_from(arguments, 1)
    }

    /// Parses the options alone, without an executable name in front.
    pub fn parse_options(arguments: &[&str]) -> (r: Result<CliParseOutcome, CliParseError>)
        ensures
            outcome_of(r) == parse_opts(
                Seq::new(arguments@.len(), |k: int| arguments@[k]@),
                0,
                no_flags(),
            ),
    {
        CliArgs::parse_options_from(arguments, 0)
    }

    /// Parses the options that start at index `first`.
    fn parse_options_from(arguments: &[&str], first: usize) -> (r: Result<
        CliParseOutcome,
        CliParseError,
    >)
        ensures
            outcome_of(r) == parse_opts(
                Seq::new(arguments@.len(), |k: int| arguments@[k]@),
                first as int,
                no_flags(),
            ),
    {
        let ghost args = Seq::new(arguments@.len(), |k: int| arguments@[k]@);
        let mut parsed = CliArgs::none();
        let mut i: usize = first;
        let endpoint_flag = chars_of("--install-update-endpoint");
        let endpoint_prefix = chars_of("--install-update-endpoint=");
        let dash = chars_of("-");
        while i < arguments.len()
            invariant
                args == Seq::new(arguments@.len(), |k: int| arguments@[k]@),
                first <= i,
                endpoint_flag@ == "--install-update-endpoint"@,
                endpoint_prefix@ == "--install-update-endpoint="@,
                dash@ == "-"@,
                parse_opts(args, i as int, parsed.spec_args()) == parse_opts(
                    args,
                    first as int,
                    no_flags(),
                ),
            decreases arguments@.len() - i,
        {
            let arg = chars_of(arguments[i]);
            assert(arg@ == args[i as int]);
            if eq_lit(&arg, "-h") || eq_lit(&arg, "--help") {
                return Ok(CliParseOutcome::Help);
            } else if eq_lit(&arg, "-V") || eq_lit(&arg, "--version") {
                return Ok(CliParseOutcome::Version);
            } else if eq_lit(&arg, "--start-hidden") {
                parsed.start_hidden = true;
            } else if eq_lit(&arg, "--no-tray") {
                parsed.no_tray = true;
            } else if eq_lit(&arg, "--toggle-transcription") {
                parsed.toggle_transcription = true;
            } else if eq_lit(&arg, "--toggle-post-process") {
                parsed.toggle_post_process = true;
            } else if eq_lit(&arg, "--toggle-raw") {
                parsed.toggle_raw = true;
            } else if eq_lit(&arg, "--cancel") {
                parsed.cancel = true;
            } else if eq_lit(&arg, "--debug") {
                parsed.debug = true;
            } else if eq_lit(&arg, "--install-update") {
                parsed.install_update = true;
            } else if crate::unicode::chars_eq(&arg, &endpoint_flag) {
                if i + 1 >= arguments.len() {
                    return Err(lit_error("a value is required for '--install-update-endpoint <VALUE>'"));
                }
                let value = chars_of(arguments[i + 1]);
                assert(value@ == args[i + 1]);
                if has_prefix(&value, &dash) {
                    return Err(lit_error("a value is required for '--install-update-endpoint <VALUE>'"));
                }
                parsed.install_update_endpoint = Some(string_from(&value));
                i += 1;
            } else if has_prefix(&arg, &endpoint_prefix) {
                let mut value: Vec<char> = Vec::new();
                let mut k = endpoint_prefix.len();
                let ghost start = endpoint_prefix@.len() as int;
                while k < arg.len()
                    invariant
                        0 <= start <= k <= arg@.len(),
                        value@ == arg@.subrange(start, k as int),
                    decreases arg@.len() - k,
                {
                    value.push(arg[k]);
                    k += 1;
                    assert(arg@.subrange(start, k as int) =~= arg@.subrange(start, k - 1).push(arg@[k - 1]));
                }
                assert(value@ =~= arg@.skip(start));
                if value.len() == 0 {
                    return Err(lit_error("a value is required for '--install-update-endpoint <VALUE>'"));
                }
                parsed.install_update_endpoint = Some(string_from(&value));
            } else if has_prefix(&arg, &dash) {
                return Err(error(quoted("unexpected option '", &arg)));
            } else {
                return Err(error(quoted("unexpected positional argument '", &arg)));
            }
            i += 1;
        }
        if parsed.install_update_endpoint.is_some() && !parsed.install_update {
            return Err(lit_error("'--install-update-endpoint <VALUE>' requires '--install-update'"));
        }
        Ok(CliParseOutcome::Run(parsed))
    }

    /// The help text.
    pub fn help() -> (r: &'static str)
        ensures
            r == HELP,
    {
        HELP
    }

    /// The name and release: "audiobud " followed by the version.
    pub fn version() -> (r: String)
        ensures
            r@ == "audiobud "@ + VERSION@,
    {
        let mut v = chars_of("audiobud ");
        extend_chars(&mut v, &chars_of(VERSION));
        string_from(&v)
    }
}

} // verus!
