//! Building a child-process invocation from the configured command line.
//!
//! The configured command is split on whitespace into a program name and
//! leading arguments, so a multi-word launcher works.  When the program is
//! the recognized task-runner, its own arguments are separated from the
//! wrapped program's by an explicit separator token.  The auto-approve flag,
//! the prompt flag with the prompt, and (in structured mode) the output
//! format pair are appended.  Spawning the invocation is left to the caller;
//! what it captures comes back as a `CapturedOutput` or a `SpawnFailure`.

use vstd::prelude::*;
use crate::text::{split_ws, split_whitespace_tokens, str_eq};

verus! {

/// A fully built child-process invocation.
#[derive(Debug)]
pub struct Invocation {
    pub program: String,
    pub args: Vec<String>,
}

/// Model of what the invoker captures from a finished child process.
pub ghost struct CapturedOutputView {
    pub success: bool,
    pub exit_code: Option<int>,
    pub stdout: Seq<char>,
    pub stderr: Seq<char>,
}

/// What the invoker captures from a finished child process: the exit
/// status, and the two output streams decoded as text.
#[derive(Debug)]
pub struct CapturedOutput {
    pub success: bool,
    pub exit_code: Option<i32>,
    pub stdout: String,
    pub stderr: String,
}

impl View for CapturedOutput {
    type V = CapturedOutputView;

    open spec fn view(&self) -> CapturedOutputView {
        CapturedOutputView {
            success: self.success,
            exit_code: match self.exit_code {
                Some(c) => Some(c as int),
                None => None,
            },
            stdout: self.stdout@,
            stderr: self.stderr@,
        }
    }
}

/// Model of a failure to spawn the child process.
pub ghost struct SpawnFailureView {
    pub not_found: bool,
    pub message: Seq<char>,
}

/// Why the child process could not be spawned, as the OS reported it; an
/// absent executable is distinguished for caller diagnostics.
#[derive(Debug)]
pub struct SpawnFailure {
    pub not_found: bool,
    pub message: String,
}

impl View for SpawnFailure {
    type V = SpawnFailureView;

    open spec fn view(&self) -> SpawnFailureView {
        SpawnFailureView { not_found: self.not_found, message: self.message@ }
    }
}

/// Whether a requested output format selects structured mode.
pub open spec fn json_mode_spec(output_format: Option<Seq<char>>) -> bool {
    output_format == Some("json"@)
}

/// The closed set of argument-building conventions among recognized
/// launchers: most programs take the wrapped program's arguments directly,
/// while the task-runner wants an explicit separator token before them.
#[derive(Debug)]
pub enum LauncherConvention {
    Direct,
    SeparatorBeforeArgs,
}

/// The convention a program name selects: only the task-runner sentinel
/// asks for the separator.
pub open spec fn convention_spec(program: Seq<char>) -> LauncherConvention {
    if program == "task"@ {
        LauncherConvention::SeparatorBeforeArgs
    } else {
        LauncherConvention::Direct
    }
}

/// Pick the argument-building convention for a program name.
pub fn launcher_convention(program: &str) -> (r: LauncherConvention)
    ensures
        r == convention_spec(program@),
{
    if str_eq(program, "task") {
        LauncherConvention::SeparatorBeforeArgs
    } else {
        LauncherConvention::Direct
    }
}

/// The argument list built for a command whose whitespace tokens are
/// `tokens` (non-empty): the leading arguments, the separator when the
/// program is the task-runner sentinel, the auto-approve flag, the prompt
/// flag with the prompt, and in structured mode the output-format pair.
pub open spec fn invocation_args_spec(
    tokens: Seq<Seq<char>>,
    prompt: Seq<char>,
    json_mode: bool,
) -> Seq<Seq<char>> {
    let leading = tokens.subrange(1, tokens.len() as int);
    let sep: Seq<Seq<char>> = match convention_spec(tokens[0]) {
        LauncherConvention::SeparatorBeforeArgs => seq!["--"@],
        LauncherConvention::Direct => Seq::empty(),
    };
    let base = leading + sep + seq!["--yolo"@, "--prompt"@, prompt];
    if json_mode {
        base + seq!["--output-format"@, "json"@]
    } else {
        base
    }
}

/// Build the invocation for a configured command line and a prompt, or
/// nothing when the command line has no tokens at all.
pub fn build_invocation(command_line: &str, prompt: &str, json_mode: bool) -> (r: Option<
    Invocation,
>)
    ensures
        r is Some <==> split_ws(command_line@).len() > 0,
        r matches Some(inv) ==> {
            &&& inv.program@ == split_ws(command_line@)[0]
            &&& inv.args@.map_values(|a: String| a@) == invocation_args_spec(
                split_ws(command_line@),
                prompt@,
                json_mode,
            )
        },
{
    let parts = split_whitespace_tokens(command_line);
    if parts.len() == 0 {
        return None;
    }
    let ghost tokens = split_ws(command_line@);
    let mut args: Vec<String> = Vec::new();
    let mut k: usize = 1;
    while k < parts.len()
        invariant
            1 <= k <= parts.len(),
            parts@.map_values(|a: String| a@) == tokens,
            tokens.len() == parts.len(),
            args@.map_values(|a: String| a@) == tokens.subrange(1, k as int),
        decreases parts.len() - k,
    {
        let ghost prev = args@;
        args.push(parts[k].clone());
        proof {
            assert(args@.map_values(|a: String| a@) =~= prev.map_values(|a: String| a@)
                + seq![tokens[k as int]]);
            assert(tokens.subrange(1, k as int) + seq![tokens[k as int]] =~= tokens.subrange(
                1,
                k as int + 1,
            ));
        }
        k += 1;
    }
    match launcher_convention(parts[0].as_str()) {
        LauncherConvention::SeparatorBeforeArgs => {
            args.push(String::from_str("--"));
        },
        LauncherConvention::Direct => {},
    }
    args.push(String::from_str("--yolo"));
    args.push(String::from_str("--prompt"));
    args.push(String::from_str(prompt));
    if json_mode {
        args.push(String::from_str("--output-format"));
        args.push(String::from_str("json"));
    }
    proof {
        assert(args@.map_values(|a: String| a@) =~= invocation_args_spec(
            tokens,
            prompt@,
            json_mode,
        ));
    }
    let program = parts[0].clone();
    Some(Invocation { program, args })
}

/// A two-token configured command puts its second token first among the
/// leading arguments of the invocation, never inside the program name.
pub proof fn lemma_second_token_is_leading_argument(
    tokens: Seq<Seq<char>>,
    prompt: Seq<char>,
    json_mode: bool,
)
    requires
        tokens.len() == 2,
    ensures
        invocation_args_spec(tokens, prompt, json_mode)[0] == tokens[1],
        invocation_args_spec(tokens, prompt, json_mode).len() > 1,
{
    assert(tokens.subrange(1, 2)[0] == tokens[1]);
}

} // verus!
