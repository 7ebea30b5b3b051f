use mcp_gemini_cli::invoke::{build_invocation, CapturedOutput, SpawnFailure};
use mcp_gemini_cli::tools::{GeminiCli, PromptError, PromptGeminiArgs};

fn args_plain(prompt: &str) -> PromptGeminiArgs {
    PromptGeminiArgs { prompt: prompt.to_string(), output_format: None }
}

fn args_json(prompt: &str) -> PromptGeminiArgs {
    PromptGeminiArgs { prompt: prompt.to_string(), output_format: Some("json".to_string()) }
}

fn captured_ok(stdout: &str) -> CapturedOutput {
    CapturedOutput {
        success: true,
        exit_code: Some(0),
        stdout: stdout.to_string(),
        stderr: String::new(),
    }
}

#[test]
fn test_gemini_cli_new() {
    let gemini_cli = GeminiCli::new("test_command".to_string(), None);
    assert_eq!(gemini_cli.gemini_cli_command, "test_command");
}

#[test]
fn test_plain_text_success_returns_stdout() {
    let cli = GeminiCli::new("gemini-cli".to_string(), None);
    let result = cli.conclude_prompt(
        &args_plain("What is the capital of France?"),
        Ok(captured_ok("Paris is the capital of France")),
    );
    assert_eq!(result.unwrap(), "Paris is the capital of France");
}

#[test]
fn test_json_success_returns_response_field() {
    let cli = GeminiCli::new("gemini-cli".to_string(), None);
    let result = cli.conclude_prompt(
        &args_json("What is the capital of France?"),
        Ok(captured_ok(r#"{"response":"Paris","error":null,"stats":null}"#)),
    );
    assert_eq!(result.unwrap(), "Paris");
}

#[test]
fn test_json_error_envelope_fails_as_api_error() {
    let cli = GeminiCli::new("gemini-cli".to_string(), None);
    let stdout =
        r#"{"response":"","error":{"type":"AuthError","message":"API key invalid","code":401},"stats":null}"#;
    let result = cli.conclude_prompt(&args_json("test"), Ok(captured_ok(stdout)));
    match result {
        Err(e @ PromptError::ApiError { .. }) => {
            assert_eq!(e.error_code(), "gemini_api_error");
            match e {
                PromptError::ApiError { error_type, message, code, prompt } => {
                    assert_eq!(error_type, "AuthError");
                    assert_eq!(message, "API key invalid");
                    assert_eq!(code, Some(401));
                    assert_eq!(prompt, "test");
                }
                _ => unreachable!(),
            }
        }
        _ => panic!("Expected ApiError"),
    }
}

#[test]
fn test_json_unparsable_fails_as_parse_error() {
    let cli = GeminiCli::new("gemini-cli".to_string(), None);
    let result = cli.conclude_prompt(&args_json("test"), Ok(captured_ok("\"not json\"")));
    match result {
        Err(e @ PromptError::JsonParseError { .. }) => {
            assert_eq!(e.error_code(), "gemini_json_parse_error");
            match e {
                PromptError::JsonParseError { raw_output, .. } => {
                    assert_eq!(raw_output, "\"not json\"");
                }
                _ => unreachable!(),
            }
        }
        _ => panic!("Expected JsonParseError"),
    }
}

#[test]
fn test_spawn_failure_fails_as_command_failed() {
    let cli = GeminiCli::new("nonexistent_command_12345".to_string(), None);
    let failure = SpawnFailure { not_found: true, message: "No such file or directory".to_string() };
    let result = cli.conclude_prompt(&args_plain("test prompt"), Err(failure));
    match result {
        Err(e @ PromptError::CommandFailed { .. }) => {
            assert_eq!(e.error_code(), "gemini_cli_command_failed");
            match e {
                PromptError::CommandFailed { command, not_found, .. } => {
                    assert_eq!(command, "nonexistent_command_12345");
                    assert!(not_found);
                }
                _ => unreachable!(),
            }
        }
        _ => panic!("Expected CommandFailed"),
    }
}

#[test]
fn test_nonzero_exit_fails_as_execution_failed() {
    let cli = GeminiCli::new("gemini-cli".to_string(), None);
    let captured = CapturedOutput {
        success: false,
        exit_code: Some(3),
        stdout: String::new(),
        stderr: "  boom  \n".to_string(),
    };
    let result = cli.conclude_prompt(&args_plain("test"), Ok(captured));
    match result {
        Err(e @ PromptError::ExecutionFailed { .. }) => {
            assert_eq!(e.error_code(), "gemini_cli_execution_failed");
            match e {
                PromptError::ExecutionFailed { exit_code, stderr, .. } => {
                    assert_eq!(exit_code, Some(3));
                    assert_eq!(stderr, "boom");
                }
                _ => unreachable!(),
            }
        }
        _ => panic!("Expected ExecutionFailed"),
    }
}

#[test]
fn test_empty_output_succeeds_with_sentinel() {
    let cli = GeminiCli::new("true".to_string(), None);
    let result = cli.conclude_prompt(&args_plain("test prompt"), Ok(captured_ok("  \n ")));
    assert_eq!(result.unwrap(), "Gemini CLI returned empty response");
}

#[test]
fn test_empty_command_fails_before_spawning() {
    let cli = GeminiCli::new("   ".to_string(), None);
    let result = cli.build_prompt_invocation(&args_plain("test"));
    match result {
        Err(e @ PromptError::EmptyCommand) => {
            assert_eq!(e.error_code(), "empty_gemini_command");
        }
        _ => panic!("Expected EmptyCommand"),
    }
}

#[test]
fn test_prompt_gemini_with_multiword_command() {
    let cli = GeminiCli::new("echo hello".to_string(), None);
    let inv = cli.build_prompt_invocation(&args_plain("world")).unwrap();
    assert_eq!(inv.program, "echo");
    assert_eq!(inv.args, vec!["hello", "--yolo", "--prompt", "world"]);
}

#[test]
fn test_task_runner_gets_separator() {
    let inv = build_invocation("task ai:run", "hi", true).unwrap();
    assert_eq!(inv.program, "task");
    assert_eq!(
        inv.args,
        vec!["ai:run", "--", "--yolo", "--prompt", "hi", "--output-format", "json"]
    );
}

#[test]
fn test_non_json_format_selects_plain_text() {
    // An explicit "text" selector behaves as plain-text mode: stdout is
    // returned unchanged even when it happens to be JSON.
    let cli = GeminiCli::new("gemini-cli".to_string(), None);
    let args = PromptGeminiArgs {
        prompt: "p".to_string(),
        output_format: Some("text".to_string()),
    };
    let stdout = r#"{"response":"Paris","error":null,"stats":null}"#;
    let result = cli.conclude_prompt(&args, Ok(captured_ok(stdout)));
    assert_eq!(result.unwrap(), stdout);
}

#[test]
fn test_resolve_workspace_prefers_configured() {
    let with = GeminiCli::new("c".to_string(), Some("/srv/ws".to_string()));
    assert_eq!(
        with.resolve_workspace(Some("/env/ws".to_string())),
        Some("/srv/ws".to_string())
    );
    let without = GeminiCli::new("c".to_string(), None);
    assert_eq!(
        without.resolve_workspace(Some("/env/ws".to_string())),
        Some("/env/ws".to_string())
    );
    assert_eq!(without.resolve_workspace(None), None);
}
