//! The AI-prompt capability: the configured adapter, its invocation
//! building, and the decision logic around a spawn outcome.
//!
//! The capability is split around the one suspension point.  Before it,
//! `build_prompt_invocation` turns the configured command line and the
//! request into a child-process invocation.  After it, `conclude_prompt`
//! turns whatever the spawn produced into the capability's single success
//! payload or single error.  The caller in between spawns the invocation
//! and captures its output; nothing here touches the operating system.

use vstd::prelude::*;
use crate::interpret::{diagnostic_message, interpret_spec, parse_gemini_output, tier_direct,
    tier_embedded, tier_lines, ParseOutcomeView, ParseResult};
use crate::envelope::{envelope_of_text, EnvelopeRecordView, ErrorRecordView};
use crate::invoke::{build_invocation, invocation_args_spec, json_mode_spec, CapturedOutput,
    CapturedOutputView, Invocation, SpawnFailure, SpawnFailureView};
use crate::text::{lemma_trim_idempotent, split_ws, str_eq, trim_spec, trim_str};

verus! {

/// Model of an invocation request.
pub ghost struct PromptArgsView {
    pub prompt: Seq<char>,
    pub output_format: Option<Seq<char>>,
}

/// An invocation request: the prompt, and an optional output-format
/// selector where `"json"` requests structured mode.
#[derive(Debug)]
pub struct PromptGeminiArgs {
    pub prompt: String,
    pub output_format: Option<String>,
}

impl View for PromptGeminiArgs {
    type V = PromptArgsView;

    open spec fn view(&self) -> PromptArgsView {
        PromptArgsView {
            prompt: self.prompt@,
            output_format: match self.output_format {
                Some(f) => Some(f@),
                None => None,
            },
        }
    }
}

/// Model of the capability's error taxonomy.
pub ghost enum PromptErrorView {
    EmptyCommand,
    CommandFailed { command: Seq<char>, error: Seq<char>, not_found: bool, prompt: Seq<char> },
    ExecutionFailed { exit_code: Option<int>, stderr: Seq<char>, prompt: Seq<char> },
    ApiError { error_type: Seq<char>, message: Seq<char>, code: Option<int>, prompt: Seq<char> },
    JsonParseError { parse_error: Seq<char>, raw_output: Seq<char>, prompt: Seq<char> },
}

/// The capability's error taxonomy; every failure carries the detail the
/// caller needs for diagnostics.
#[derive(Debug)]
pub enum PromptError {
    /// The configured command line has no tokens at all.
    EmptyCommand,
    /// The child process could not be spawned; an absent executable is
    /// distinguished.
    CommandFailed { command: String, error: String, not_found: bool, prompt: String },
    /// The child process exited with a non-zero status.
    ExecutionFailed { exit_code: Option<i32>, stderr: String, prompt: String },
    /// A well-formed envelope carried an error record.
    ApiError { error_type: String, message: String, code: Option<i32>, prompt: String },
    /// Structured output was requested but no strategy found an envelope.
    JsonParseError { parse_error: String, raw_output: String, prompt: String },
}

impl View for PromptError {
    type V = PromptErrorView;

    open spec fn view(&self) -> PromptErrorView {
        match self {
            PromptError::EmptyCommand => PromptErrorView::EmptyCommand,
            PromptError::CommandFailed { command, error, not_found, prompt } => {
                PromptErrorView::CommandFailed {
                    command: command@,
                    error: error@,
                    not_found: *not_found,
                    prompt: prompt@,
                }
            },
            PromptError::ExecutionFailed { exit_code, stderr, prompt } => {
                PromptErrorView::ExecutionFailed {
                    exit_code: match exit_code {
                        Some(c) => Some(*c as int),
                        None => None,
                    },
                    stderr: stderr@,
                    prompt: prompt@,
                }
            },
            PromptError::ApiError { error_type, message, code, prompt } => {
                PromptErrorView::ApiError {
                    error_type: error_type@,
                    message: message@,
                    code: match code {
                        Some(c) => Some(*c as int),
                        None => None,
                    },
                    prompt: prompt@,
                }
            },
            PromptError::JsonParseError { parse_error, raw_output, prompt } => {
                PromptErrorView::JsonParseError {
                    parse_error: parse_error@,
                    raw_output: raw_output@,
                    prompt: prompt@,
                }
            },
        }
    }
}

/// The stable machine-readable code token of each error.
pub open spec fn error_code_spec(e: PromptErrorView) -> Seq<char> {
    match e {
        PromptErrorView::EmptyCommand => "empty_gemini_command"@,
        PromptErrorView::CommandFailed { .. } => "gemini_cli_command_failed"@,
        PromptErrorView::ExecutionFailed { .. } => "gemini_cli_execution_failed"@,
        PromptErrorView::ApiError { .. } => "gemini_api_error"@,
        PromptErrorView::JsonParseError { .. } => "gemini_json_parse_error"@,
    }
}

impl PromptError {
    /// The stable machine-readable code token of this error.
    pub fn error_code(&self) -> (r: String)
        ensures
            r@ == error_code_spec(self@),
    {
        match self {
            PromptError::EmptyCommand => String::from_str("empty_gemini_command"),
            PromptError::CommandFailed { .. } => String::from_str("gemini_cli_command_failed"),
            PromptError::ExecutionFailed { .. } => String::from_str("gemini_cli_execution_failed"),
            PromptError::ApiError { .. } => String::from_str("gemini_api_error"),
            PromptError::JsonParseError { .. } => String::from_str("gemini_json_parse_error"),
        }
    }
}

/// Whether a request's output-format selector requests structured mode.
pub fn is_json_format(output_format: &Option<String>) -> (r: bool)
    ensures
        r == json_mode_spec(
            match *output_format {
                Some(f) => Some(f@),
                None => None,
            },
        ),
{
    match output_format {
        Some(f) => str_eq(f.as_str(), "json"),
        None => false,
    }
}

/// The sentinel success payload for a successful run with empty output.
pub open spec fn empty_response_message() -> Seq<char> {
    "Gemini CLI returned empty response"@
}

/// The capability's outcome for a prompt, a structured-mode flag and a
/// spawn outcome: spawn failures and non-zero exits fail with their detail;
/// empty output succeeds with the sentinel payload; otherwise the
/// interpreted output decides, an envelope's error record failing the call.
pub open spec fn conclude_spec(
    prompt: Seq<char>,
    json_mode: bool,
    command: Seq<char>,
    outcome: Result<CapturedOutputView, SpawnFailureView>,
) -> Result<Seq<char>, PromptErrorView> {
    match outcome {
        Err(f) => Err(
            PromptErrorView::CommandFailed {
                command,
                error: f.message,
                not_found: f.not_found,
                prompt,
            },
        ),
        Ok(cap) => {
            if !cap.success {
                Err(
                    PromptErrorView::ExecutionFailed {
                        exit_code: cap.exit_code,
                        stderr: trim_spec(cap.stderr),
                        prompt,
                    },
                )
            } else {
                let t = trim_spec(cap.stdout);
                if t.len() == 0 {
                    Ok(empty_response_message())
                } else {
                    match interpret_spec(t, json_mode) {
                        ParseOutcomeView::Structured(ev) => match ev.error {
                            Some(er) => Err(
                                PromptErrorView::ApiError {
                                    error_type: er.error_type,
                                    message: er.message,
                                    code: er.code,
                                    prompt,
                                },
                            ),
                            None => Ok(ev.response),
                        },
                        ParseOutcomeView::Text(x) => Ok(x),
                        ParseOutcomeView::Failure { raw, diagnostic } => Err(
                            PromptErrorView::JsonParseError {
                                parse_error: diagnostic,
                                raw_output: raw,
                                prompt,
                            },
                        ),
                    }
                }
            }
        },
    }
}

/// Model of the capability's result.
pub open spec fn prompt_result_view(r: Result<String, PromptError>) -> Result<
    Seq<char>,
    PromptErrorView,
> {
    match r {
        Ok(s) => Ok(s@),
        Err(e) => Err(e@),
    }
}

/// Model of a spawn outcome.
pub open spec fn spawn_outcome_view(o: Result<CapturedOutput, SpawnFailure>) -> Result<
    CapturedOutputView,
    SpawnFailureView,
> {
    match o {
        Ok(c) => Ok(c@),
        Err(f) => Err(f@),
    }
}

/// The adapter: the configured command line and the optional workspace
/// override, fixed at construction.
#[derive(Debug, Clone)]
pub struct GeminiCli {
    pub gemini_cli_command: String,
    pub workspace: Option<String>,
}

impl GeminiCli {
    /// A fresh adapter holding the given configuration.
    pub fn new(gemini_cli_command: String, workspace: Option<String>) -> (r: Self)
        ensures
            r.gemini_cli_command == gemini_cli_command,
            r.workspace == workspace,
    {
        GeminiCli { gemini_cli_command, workspace }
    }

    /// Build the child-process invocation for a request, or fail when the
    /// configured command line is empty.
    pub fn build_prompt_invocation(&self, args: &PromptGeminiArgs) -> (r: Result<
        Invocation,
        PromptError,
    >)
        ensures
            ({
                let tokens = split_ws(self.gemini_cli_command@);
                match r {
                    Ok(inv) => {
                        &&& tokens.len() > 0
                        &&& inv.program@ == tokens[0]
                        &&& inv.args@.map_values(|a: String| a@) == invocation_args_spec(
                            tokens,
                            args.prompt@,
                            json_mode_spec(args@.output_format),
                        )
                    },
                    Err(e) => tokens.len() == 0 && e@ == PromptErrorView::EmptyCommand,
                }
            }),
    {
        let json_mode = is_json_format(&args.output_format);
        match build_invocation(self.gemini_cli_command.as_str(), args.prompt.as_str(), json_mode) {
            Some(inv) => Ok(inv),
            None => Err(PromptError::EmptyCommand),
        }
    }

    /// The workspace override to apply: the configured value takes
    /// precedence, the caller's environment value is the fallback.
    pub fn resolve_workspace(&self, env_workspace: Option<String>) -> (r: Option<String>)
        ensures
            match self.workspace {
                Some(w) => r == Some(w),
                None => r == env_workspace,
            },
    {
        match &self.workspace {
            Some(w) => Some(w.clone()),
            None => env_workspace,
        }
    }

    /// Turn a spawn outcome into the capability's result.
    pub fn conclude_prompt(&self, args: &PromptGeminiArgs, outcome: Result<
        CapturedOutput,
        SpawnFailure,
    >) -> (r: Result<String, PromptError>)
        ensures
            prompt_result_view(r) == conclude_spec(
                args.prompt@,
                json_mode_spec(args@.output_format),
                self.gemini_cli_command@,
                spawn_outcome_view(outcome),
            ),
    {
        let json_mode = is_json_format(&args.output_format);
        match outcome {
            Err(f) => Err(
                PromptError::CommandFailed {
                    command: self.gemini_cli_command.clone(),
                    error: f.message,
                    not_found: f.not_found,
                    prompt: args.prompt.clone(),
                },
            ),
            Ok(cap) => {
                if !cap.success {
                    Err(
                        PromptError::ExecutionFailed {
                            exit_code: cap.exit_code,
                            stderr: trim_str(cap.stderr.as_str()),
                            prompt: args.prompt.clone(),
                        },
                    )
                } else {
                    let t = trim_str(cap.stdout.as_str());
                    if t.as_str().unicode_len() == 0 {
                        Ok(String::from_str("Gemini CLI returned empty response"))
                    } else {
                        match parse_gemini_output(t.as_str(), json_mode) {
                            ParseResult::JsonSuccess(env) => match env.error {
                                Some(er) => Err(
                                    PromptError::ApiError {
                                        error_type: er.error_type,
                                        message: er.message,
                                        code: er.code,
                                        prompt: args.prompt.clone(),
                                    },
                                ),
                                None => Ok(env.response),
                            },
                            ParseResult::TextFallback(x) => Ok(x),
                            ParseResult::ParseError { raw_output, error } => Err(
                                PromptError::JsonParseError {
                                    parse_error: error,
                                    raw_output,
                                    prompt: args.prompt.clone(),
                                },
                            ),
                        }
                    }
                }
            },
        }
    }
}

/// A successful run whose trimmed output is one well-formed envelope with
/// no error record succeeds with the envelope's response text verbatim.
pub proof fn lemma_prompt_success_verbatim(
    prompt: Seq<char>,
    command: Seq<char>,
    cap: CapturedOutputView,
    ev: EnvelopeRecordView,
)
    requires
        cap.success,
        trim_spec(cap.stdout).len() > 0,
        envelope_of_text(trim_spec(cap.stdout)) == Some(ev),
        ev.error is None,
    ensures
        conclude_spec(prompt, true, command, Ok(cap)) == Ok::<Seq<char>, PromptErrorView>(
            ev.response,
        ),
{
    lemma_trim_idempotent(cap.stdout);
}

/// In plain-text mode a successful run with non-empty output succeeds with
/// the trimmed output unchanged.
pub proof fn lemma_prompt_plain_text_identity(
    prompt: Seq<char>,
    command: Seq<char>,
    cap: CapturedOutputView,
)
    requires
        cap.success,
        trim_spec(cap.stdout).len() > 0,
    ensures
        conclude_spec(prompt, false, command, Ok(cap)) == Ok::<Seq<char>, PromptErrorView>(
            trim_spec(cap.stdout),
        ),
{
}

/// When no strategy finds an envelope in a successful run's output, the
/// capability fails as a parse error that preserves the trimmed output
/// unmodified beside the fixed diagnostic.
pub proof fn lemma_prompt_parse_failure_detail(
    prompt: Seq<char>,
    command: Seq<char>,
    cap: CapturedOutputView,
)
    requires
        cap.success,
        trim_spec(cap.stdout).len() > 0,
        tier_direct(trim_spec(cap.stdout)) is None,
        tier_embedded(trim_spec(cap.stdout)) is None,
        tier_lines(trim_spec(cap.stdout)) is None,
    ensures
        conclude_spec(prompt, true, command, Ok(cap)) == Err::<Seq<char>, PromptErrorView>(
            PromptErrorView::JsonParseError {
                parse_error: diagnostic_message(),
                raw_output: trim_spec(cap.stdout),
                prompt,
            },
        ),
{
}

/// A successful run whose trimmed output is one well-formed envelope with a
/// non-empty error record fails as an API error carrying that record's
/// kind, message and code.
pub proof fn lemma_prompt_api_error(
    prompt: Seq<char>,
    command: Seq<char>,
    cap: CapturedOutputView,
    ev: EnvelopeRecordView,
    er: ErrorRecordView,
)
    requires
        cap.success,
        trim_spec(cap.stdout).len() > 0,
        envelope_of_text(trim_spec(cap.stdout)) == Some(ev),
        ev.error == Some(er),
    ensures
        conclude_spec(prompt, true, command, Ok(cap)) == Err::<Seq<char>, PromptErrorView>(
            PromptErrorView::ApiError {
                error_type: er.error_type,
                message: er.message,
                code: er.code,
                prompt,
            },
        ),
{
    lemma_trim_idempotent(cap.stdout);
}

} // verus!
