//! Command handlers: a named operation and its string arguments give a string
//! result or a typed error.

use crate::error::{AppError, AppErrorView};
use crate::text::{parse_i32, parse_integer, push_signed_decimal, signed_decimal};
use vstd::prelude::*;

verus! {

/// The argument list as a sequence of texts.
pub open spec fn texts(args: Seq<String>) -> Seq<Seq<char>> {
    args.map_values(|s: String| s@)
}

/// The outcome of a command as a mathematical value.
pub open spec fn outcome_view(outcome: Result<String, AppError>) -> Result<
    Seq<char>,
    AppErrorView,
> {
    match outcome {
        Ok(text) => Ok(text@),
        Err(e) => Err(e@),
    }
}

/// How the standard library's `Debug` formatting writes a list of strings: a
/// bracketed, comma-separated list of quoted and escaped literals.
pub uninterp spec fn debug_rendering(args: Seq<Seq<char>>) -> Seq<char>;

/// Formats the list with `{:?}`, the standard library's `Debug` rendering of a
/// slice of strings. The rendering depends on the strings alone and is known
/// to the proofs only under the name [`debug_rendering`].
#[verifier::external_body]
fn render_debug(args: &[String]) -> (rendered: String)
    ensures
        rendered@ == debug_rendering(texts(args@)),
{
    format!("{:?}", args)
}

/// The greeting that `hello` answers with, given its rendered arguments.
pub open spec fn greeting_text(rendered: Seq<char>) -> Seq<char> {
    "Hello from Rust! Args: "@ + rendered
}

/// The message for an argument that does not write a number.
pub open spec fn not_a_number_text(arg: Seq<char>) -> Seq<char> {
    "Failed to parse '"@ + arg + "' as number"@
}

/// What `add` answers: the sum of its two arguments, read as 32-bit signed
/// integers, in decimal notation; the first argument that is no such integer
/// is reported; any other number of arguments is reported with the count.
pub open spec fn add_outcome(args: Seq<Seq<char>>) -> Result<Seq<char>, AppErrorView> {
    if args.len() != 2 {
        Err(AppErrorView::InvalidArgCount { function: "add"@, expected: 2, got: args.len() })
    } else {
        match (parse_integer(args[0]), parse_integer(args[1])) {
            (None, _) => Err(AppErrorView::ParseError { message: not_a_number_text(args[0]) }),
            (Some(_), None) => Err(
                AppErrorView::ParseError { message: not_a_number_text(args[1]) },
            ),
            (Some(a), Some(b)) => Ok("Sum: "@ + signed_decimal(a + b)),
        }
    }
}

/// What the built-in handler answers to each command.
pub open spec fn tuffi_outcome(function: Seq<char>, args: Seq<Seq<char>>) -> Result<
    Seq<char>,
    AppErrorView,
> {
    if function == "hello"@ {
        Ok(greeting_text(debug_rendering(args)))
    } else if function == "add"@ {
        add_outcome(args)
    } else {
        Err(AppErrorView::UnknownFunction(function))
    }
}

/// A set of commands that can be called by name.
pub trait ProtocolHandler: Send + Sync {
    /// What the handler answers to `function` called with `args`.
    spec fn outcome(&self, function: Seq<char>, args: Seq<Seq<char>>) -> Result<
        Seq<char>,
        AppErrorView,
    >;

    /// Carries out `function` on `args`.
    fn handle(&self, function: &str, args: &[String]) -> (result: Result<String, AppError>)
        ensures
            outcome_view(result) == self.outcome(function@, texts(args@)),
    ;
}

/// The built-in commands: `hello` and `add`.
#[derive(Debug, Clone, Copy, Default)]
pub struct TuffiProtocolHandler;

/// The greeting for arguments that are already rendered.
pub fn greeting(rendered: &str) -> (text: String)
    ensures
        text@ == greeting_text(rendered@),
{
    let mut text = String::from_str("Hello from Rust! Args: ");
    text.append(rendered);
    text
}

fn not_a_number(arg: &str) -> (e: AppError)
    ensures
        e@ == (AppErrorView::ParseError { message: not_a_number_text(arg@) }),
{
    let mut message = String::from_str("Failed to parse '");
    message.append(arg);
    message.append("' as number");
    AppError::ParseError { message }
}

impl TuffiProtocolHandler {
    /// Greets the caller, echoing the arguments it was given.
    pub fn handle_hello(&self, args: &[String]) -> (result: Result<String, AppError>)
        ensures
            outcome_view(result) == Ok::<Seq<char>, AppErrorView>(
                greeting_text(debug_rendering(texts(args@))),
            ),
    {
        let rendered = render_debug(args);
        Ok(greeting(rendered.as_str()))
    }

    /// Adds two integers given in decimal notation.
    pub fn handle_add(&self, args: &[String]) -> (result: Result<String, AppError>)
        ensures
            outcome_view(result) == add_outcome(texts(args@)),
    {
        if args.len() != 2 {
            return Err(
                AppError::InvalidArgCount {
                    function: String::from_str("add"),
                    expected: 2,
                    got: args.len(),
                },
            );
        }
        let a: i32 = match parse_i32(args[0].as_str()) {
            Some(a) => a,
            None => {
                return Err(not_a_number(args[0].as_str()));
            },
        };
        let b: i32 = match parse_i32(args[1].as_str()) {
            Some(b) => b,
            None => {
                return Err(not_a_number(args[1].as_str()));
            },
        };
        let mut text = String::from_str("Sum: ");
        push_signed_decimal(&mut text, a as i64 + b as i64);
        Ok(text)
    }
}

impl ProtocolHandler for TuffiProtocolHandler {
    open spec fn outcome(&self, function: Seq<char>, args: Seq<Seq<char>>) -> Result<
        Seq<char>,
        AppErrorView,
    > {
        tuffi_outcome(function, args)
    }

    fn handle(&self, function: &str, args: &[String]) -> (result: Result<String, AppError>) {
        let name = String::from_str(function);
        if name == String::from_str("hello") {
            self.handle_hello(args)
        } else if name == String::from_str("add") {
            self.handle_add(args)
        } else {
            Err(AppError::UnknownFunction(name))
        }
    }
}

} // verus!
