//! The errors a command can end in, and the sentence each one is reported as.

use crate::text::{decimal, push_decimal};
use vstd::prelude::*;

verus! {

/// Why a command could not be carried out.
#[derive(Debug, PartialEq, Eq)]
pub enum AppError {
    /// The command was given the wrong number of arguments.
    InvalidArgCount { function: String, expected: usize, got: usize },
    /// An argument could not be read as the kind of value the command needs.
    ParseError { message: String },
    /// No command has this name.
    UnknownFunction(String),
}

/// An [`AppError`] as a mathematical value.
pub enum AppErrorView {
    InvalidArgCount { function: Seq<char>, expected: nat, got: nat },
    ParseError { message: Seq<char> },
    UnknownFunction(Seq<char>),
}

impl View for AppError {
    type V = AppErrorView;

    open spec fn view(&self) -> AppErrorView {
        match *self {
            AppError::InvalidArgCount { function, expected, got } => AppErrorView::InvalidArgCount {
                function: function@,
                expected: expected as nat,
                got: got as nat,
            },
            AppError::ParseError { message } => AppErrorView::ParseError { message: message@ },
            AppError::UnknownFunction(name) => AppErrorView::UnknownFunction(name@),
        }
    }
}

/// The sentence that reports an error.
pub open spec fn error_text(e: AppErrorView) -> Seq<char> {
    match e {
        AppErrorView::InvalidArgCount { function, expected, got } => {
            "Invalid argument count for "@ + function + ": expected "@ + decimal(expected)
                + ", got "@ + decimal(got)
        },
        AppErrorView::ParseError { message } => "Parse error: "@ + message,
        AppErrorView::UnknownFunction(name) => "Unknown function: "@ + name,
    }
}

impl AppError {
    /// The sentence that reports this error.
    pub fn to_string(&self) -> (text: String)
        ensures
            text@ == error_text(self@),
    {
        let mut text = String::new();
        match self {
            AppError::InvalidArgCount { function, expected, got } => {
                text.append("Invalid argument count for ");
                text.append(function.as_str());
                text.append(": expected ");
                push_decimal(&mut text, *expected as u64);
                text.append(", got ");
                push_decimal(&mut text, *got as u64);
            },
            AppError::ParseError { message } => {
                text.append("Parse error: ");
                text.append(message.as_str());
            },
            AppError::UnknownFunction(name) => {
                text.append("Unknown function: ");
                text.append(name.as_str());
            },
        }
        assert(text@ =~= error_text(self@));
        text
    }
}

/// Every report is a non-empty sentence.
pub proof fn lemma_error_text_nonempty(e: AppErrorView)
    ensures
        error_text(e).len() > 0,
{
    reveal_strlit("Invalid argument count for ");
    reveal_strlit("Parse error: ");
    reveal_strlit("Unknown function: ");
}

} // verus!
