//! Failures of a command and of a collection pass, and the messages they give.

use crate::text::{push_signed_decimal, signed_decimal};
use vstd::prelude::*;

verus! {

/// Why a command gave no usable output.
#[derive(Debug, Clone, PartialEq, Eq)]
pub enum CommandError {
    /// The program could not be started; `source` says why.
    Spawn { program: String, source: String },
    /// The program ended with an exit code that was not expected.
    Status { program: String, code: Option<i32>, stderr: String },
    /// The program's output was not valid UTF-8; `source` says where.
    Utf8 { program: String, source: String },
}

/// Why a manager's packages could not be collected.
#[derive(Debug, Clone, PartialEq, Eq)]
pub enum CollectionError {
    Command(CommandError),
    /// The output was not the JSON expected; the text says what was wrong.
    Json(String),
}

pub enum CommandErrorView {
    Spawn { program: Seq<char>, source: Seq<char> },
    Status { program: Seq<char>, code: Option<i32>, stderr: Seq<char> },
    Utf8 { program: Seq<char>, source: Seq<char> },
}

pub enum CollectionErrorView {
    Command(CommandErrorView),
    Json(Seq<char>),
}

impl View for CommandError {
    type V = CommandErrorView;

    open spec fn view(&self) -> CommandErrorView {
        match self {
            CommandError::Spawn { program, source } => CommandErrorView::Spawn {
                program: program@,
                source: source@,
            },
            CommandError::Status { program, code, stderr } => CommandErrorView::Status {
                program: program@,
                code: *code,
                stderr: stderr@,
            },
            CommandError::Utf8 { program, source } => CommandErrorView::Utf8 {
                program: program@,
                source: source@,
            },
        }
    }
}

impl View for CollectionError {
    type V = CollectionErrorView;

    open spec fn view(&self) -> CollectionErrorView {
        match self {
            CollectionError::Command(error) => CollectionErrorView::Command(error@),
            CollectionError::Json(text) => CollectionErrorView::Json(text@),
        }
    }
}

/// An exit code as `{:?}` prints it: `None`, or `Some(..)` round the number.
pub open spec fn code_text(code: Option<i32>) -> Seq<char> {
    match code {
        Some(number) => "Some("@ + signed_decimal(number as int) + ")"@,
        None => "None"@,
    }
}

/// The program, or program and arguments, that a command error names.
pub open spec fn command_error_program(error: CommandErrorView) -> Seq<char> {
    match error {
        CommandErrorView::Spawn { program, .. } => program,
        CommandErrorView::Status { program, .. } => program,
        CommandErrorView::Utf8 { program, .. } => program,
    }
}

pub open spec fn command_error_message(error: CommandErrorView) -> Seq<char> {
    match error {
        CommandErrorView::Spawn { program, source } => "failed to spawn "@ + program + ": "@
            + source,
        CommandErrorView::Status { program, code, stderr } => program + " exited with status "@
            + code_text(code) + ": "@ + stderr,
        CommandErrorView::Utf8 { program, source } => program + " produced invalid UTF-8: "@
            + source,
    }
}

pub open spec fn collection_error_message(error: CollectionErrorView) -> Seq<char> {
    match error {
        CollectionErrorView::Command(inner) => command_error_program(inner) + " failed to run: "@
            + command_error_message(inner),
        CollectionErrorView::Json(text) => "json parse error: "@ + text,
    }
}

fn push_code(out: &mut String, code: Option<i32>)
    ensures
        final(out)@ == old(out)@ + code_text(code),
{
    match code {
        Some(number) => {
            out.append("Some(");
            push_signed_decimal(out, number);
            out.append(")");
        },
        None => {
            out.append("None");
        },
    }
    assert(out@ =~= old(out)@ + code_text(code));
}

impl CommandError {
    /// The program, or program and arguments, that the error names.
    pub fn program(&self) -> (program: &String)
        ensures
            program@ == command_error_program(self@),
    {
        match self {
            CommandError::Spawn { program, .. } => program,
            CommandError::Status { program, .. } => program,
            CommandError::Utf8 { program, .. } => program,
        }
    }

    /// The error in words.
    pub fn message(&self) -> (text: String)
        ensures
            text@ == command_error_message(self@),
    {
        let mut text = String::new();
        match self {
            CommandError::Spawn { program, source } => {
                text.append("failed to spawn ");
                text.append(program.as_str());
                text.append(": ");
                text.append(source.as_str());
            },
            CommandError::Status { program, code, stderr } => {
                text.append(program.as_str());
                text.append(" exited with status ");
                push_code(&mut text, *code);
                text.append(": ");
                text.append(stderr.as_str());
            },
            CommandError::Utf8 { program, source } => {
                text.append(program.as_str());
                text.append(" produced invalid UTF-8: ");
                text.append(source.as_str());
            },
        }
        assert(text@ =~= command_error_message(self@));
        text
    }
}

impl CollectionError {
    /// The error in words, as a warning carries it.
    pub fn message(&self) -> (text: String)
        ensures
            text@ == collection_error_message(self@),
    {
        let mut text = String::new();
        match self {
            CollectionError::Command(inner) => {
                text.append(inner.program().as_str());
                text.append(" failed to run: ");
                let reason = inner.message();
                text.append(reason.as_str());
            },
            CollectionError::Json(detail) => {
                text.append("json parse error: ");
                text.append(detail.as_str());
            },
        }
        assert(text@ =~= collection_error_message(self@));
        text
    }
}

} // verus!
