//! The process runner's rules: which command to run, and what to make of how
//! it ended.

use crate::error::{CollectionError, CollectionErrorView, CommandError, CommandErrorView};
use crate::text::{join, joined};
use vstd::prelude::*;
use vstd::utf8::{decode_utf8, valid_utf8};

verus! {

/// A command to run: the program, its arguments, and the exit codes that count
/// as success besides 0.
#[derive(Debug, Clone, PartialEq, Eq)]
pub struct CommandRequest {
    pub program: String,
    pub args: Vec<String>,
    pub allowed_exit_codes: Option<Vec<i32>>,
}

/// How a command ended, as the operating system reports it.
#[derive(Debug, Clone, PartialEq, Eq)]
pub enum Execution {
    /// The program could not be started; `reason` says why.
    NotStarted { reason: String },
    /// The program ran to its end. `code` is its exit code, if it had one.
    Finished { stdout: Vec<u8>, stderr: Vec<u8>, code: Option<i32> },
}

/// The captured output of a command that counts as successful.
#[derive(Debug, Clone, PartialEq, Eq)]
pub struct CommandResult {
    pub stdout: String,
    pub stderr: String,
    pub code: Option<i32>,
}

pub struct RequestView {
    pub program: Seq<char>,
    pub args: Seq<Seq<char>>,
    pub allowed_exit_codes: Option<Seq<i32>>,
}

pub enum ExecutionView {
    NotStarted { reason: Seq<char> },
    Finished { stdout: Seq<u8>, stderr: Seq<u8>, code: Option<i32> },
}

pub struct CommandResultView {
    pub stdout: Seq<char>,
    pub stderr: Seq<char>,
    pub code: Option<i32>,
}

impl View for CommandRequest {
    type V = RequestView;

    open spec fn view(&self) -> RequestView {
        RequestView {
            program: self.program@,
            args: self.args.deep_view(),
            allowed_exit_codes: match self.allowed_exit_codes {
                Some(codes) => Some(codes@),
                None => None,
            },
        }
    }
}

impl View for Execution {
    type V = ExecutionView;

    open spec fn view(&self) -> ExecutionView {
        match self {
            Execution::NotStarted { reason } => ExecutionView::NotStarted { reason: reason@ },
            Execution::Finished { stdout, stderr, code } => ExecutionView::Finished {
                stdout: stdout@,
                stderr: stderr@,
                code: *code,
            },
        }
    }
}

impl View for CommandResult {
    type V = CommandResultView;

    open spec fn view(&self) -> CommandResultView {
        CommandResultView { stdout: self.stdout@, stderr: self.stderr@, code: self.code }
    }
}

/// The message with which `String::from_utf8` rejects `bytes`.
pub uninterp spec fn utf8_fault(bytes: Seq<u8>) -> Seq<char>;

/// `String::from_utf8`, an error turned into its message by `to_string`. Not
/// proved, but taken from its documentation: it gives the text that `bytes`
/// encode where they are valid UTF-8, and fails where they are not, with an
/// error that says where; the message depends on the bytes alone.
#[verifier::external_body]
fn text_from_utf8(bytes: Vec<u8>) -> (decoded: Result<String, String>)
    ensures
        match decoded {
            Ok(text) => valid_utf8(bytes@) && text@ == decode_utf8(bytes@),
            Err(message) => !valid_utf8(bytes@) && message@ == utf8_fault(bytes@),
        },
{
    String::from_utf8(bytes).map_err(|error| error.to_string())
}

/// An exit code counts as success where it is 0 or among the allowed ones.
pub open spec fn accepted(code: Option<i32>, allowed: Option<Seq<i32>>) -> bool {
    code == Some(0i32) || (code is Some && allowed is Some && allowed->0.contains(code->0))
}

/// The program with its arguments, as an error names a command.
pub open spec fn command_label(request: RequestView) -> Seq<char> {
    request.program + " "@ + joined(request.args, " "@)
}

/// What to make of how a command ended: its output as text where it ran, its
/// output is valid UTF-8 and its exit code counts as success; else the
/// failure.
pub open spec fn command_outcome(request: RequestView, execution: ExecutionView) -> Result<
    CommandResultView,
    CollectionErrorView,
> {
    match execution {
        ExecutionView::NotStarted { reason } => Err(
            CollectionErrorView::Command(
                CommandErrorView::Spawn { program: request.program, source: reason },
            ),
        ),
        ExecutionView::Finished { stdout, stderr, code } => if !valid_utf8(stdout) {
            Err(
                CollectionErrorView::Command(
                    CommandErrorView::Utf8 { program: request.program, source: utf8_fault(stdout) },
                ),
            )
        } else if !valid_utf8(stderr) {
            Err(
                CollectionErrorView::Command(
                    CommandErrorView::Utf8 { program: request.program, source: utf8_fault(stderr) },
                ),
            )
        } else if accepted(code, request.allowed_exit_codes) {
            Ok(
                CommandResultView {
                    stdout: decode_utf8(stdout),
                    stderr: decode_utf8(stderr),
                    code,
                },
            )
        } else {
            Err(
                CollectionErrorView::Command(
                    CommandErrorView::Status {
                        program: command_label(request),
                        code,
                        stderr: decode_utf8(stderr),
                    },
                ),
            )
        },
    }
}

/// The result view of an outcome.
pub open spec fn outcome_view(outcome: Result<CommandResult, CollectionError>) -> Result<
    CommandResultView,
    CollectionErrorView,
> {
    match outcome {
        Ok(result) => Ok(result@),
        Err(error) => Err(error@),
    }
}

fn code_is_among(code: i32, codes: &Vec<i32>) -> (found: bool)
    ensures
        found == codes@.contains(code),
{
    let mut index: usize = 0;
    while index < codes.len()
        invariant
            index <= codes.len(),
            forall|i: int| 0 <= i < index ==> codes@[i] != code,
        decreases codes.len() - index,
    {
        if codes[index] == code {
            return true;
        }
        index = index + 1;
    }
    false
}

impl CommandRequest {
    /// Whether `code` counts as success for this command.
    pub fn accepts(&self, code: Option<i32>) -> (accepted_code: bool)
        ensures
            accepted_code == accepted(code, self@.allowed_exit_codes),
    {
        match code {
            Some(number) => number == 0 || match &self.allowed_exit_codes {
                Some(codes) => code_is_among(number, codes),
                None => false,
            },
            None => false,
        }
    }

    /// The program with its arguments, as an error names the command.
    pub fn label(&self) -> (text: String)
        ensures
            text@ == command_label(self@),
    {
        let mut text = self.program.clone();
        text.append(" ");
        let arguments = join(&self.args, " ");
        text.append(arguments.as_str());
        text
    }

    /// What to make of how this command ended.
    pub fn outcome(&self, execution: Execution) -> (outcome: Result<
        CommandResult,
        CollectionError,
    >)
        ensures
            outcome_view(outcome) == command_outcome(self@, execution@),
    {
        match execution {
            Execution::NotStarted { reason } => Err(
                CollectionError::Command(
                    CommandError::Spawn { program: self.program.clone(), source: reason },
                ),
            ),
            Execution::Finished { stdout, stderr, code } => {
                let stdout = match text_from_utf8(stdout) {
                    Ok(text) => text,
                    Err(message) => {
                        return Err(
                            CollectionError::Command(
                                CommandError::Utf8 {
                                    program: self.program.clone(),
                                    source: message,
                                },
                            ),
                        );
                    },
                };
                let stderr = match text_from_utf8(stderr) {
                    Ok(text) => text,
                    Err(message) => {
                        return Err(
                            CollectionError::Command(
                                CommandError::Utf8 {
                                    program: self.program.clone(),
                                    source: message,
                                },
                            ),
                        );
                    },
                };
                if self.accepts(code) {
                    Ok(CommandResult { stdout, stderr, code })
                } else {
                    Err(
                        CollectionError::Command(
                            CommandError::Status { program: self.label(), code, stderr },
                        ),
                    )
                }
            },
        }
    }
}

/// Whether a result is a plain success: exit code 0.
pub open spec fn plain_success(result: CommandResultView) -> bool {
    result.code == Some(0i32)
}

/// Passes a result whose exit code is 0; any other is the failure of the
/// command that `label` names.
pub fn ensure_success(output: &CommandResult, label: &str) -> (checked: Result<(), CollectionError>)
    ensures
        match checked {
            Ok(_) => plain_success(output@),
            Err(error) => !plain_success(output@) && error@ == CollectionErrorView::Command(
                CommandErrorView::Status {
                    program: label@,
                    code: output.code,
                    stderr: output.stderr@,
                },
            ),
        },
{
    let success = match output.code {
        Some(number) => number == 0,
        None => false,
    };
    if success {
        Ok(())
    } else {
        Err(
            CollectionError::Command(
                CommandError::Status {
                    program: label.to_owned(),
                    code: output.code,
                    stderr: output.stderr.clone(),
                },
            ),
        )
    }
}

} // verus!
