//! The dispatch bridge: one inbound text is decoded, handed to the command
//! handler, and its outcome is encoded into the script that delivers the
//! response to the user interface.

use crate::error::{error_text, lemma_error_text_nonempty, AppError, AppErrorView};
use crate::handler::{
    debug_rendering, greeting_text, not_a_number_text, outcome_view, ProtocolHandler,
    TuffiProtocolHandler,
};
use crate::message::{
    decode_error_text, decoded, decoding_view, well_formed, wire_text, DecodeError,
    DecodeErrorView, IpcRequest, IpcResponse, RequestView, ResponseView,
};
use crate::text::{decimal, parse_integer, signed_decimal};
use vstd::prelude::*;

verus! {

/// The response that reports the outcome of a command: its result as data, or
/// the sentence of its error.
pub open spec fn response_of(outcome: Result<Seq<char>, AppErrorView>) -> ResponseView {
    match outcome {
        Ok(data) => ResponseView { success: true, data: Some(data), error: None },
        Err(e) => ResponseView { success: false, data: None, error: Some(error_text(e)) },
    }
}

/// The error message for a text that is not a request.
pub open spec fn decode_failure_text(e: DecodeErrorView) -> Seq<char> {
    "Failed to parse message: "@ + decode_error_text(e)
}

/// The response to a request.
pub open spec fn answer<H: ProtocolHandler>(handler: &H, request: RequestView) -> ResponseView {
    response_of(handler.outcome(request.function, request.args))
}

/// The response to the outcome of decoding an inbound text.
pub open spec fn reply<H: ProtocolHandler>(
    handler: &H,
    decoded: Result<RequestView, DecodeErrorView>,
) -> ResponseView {
    match decoded {
        Ok(request) => answer(handler, request),
        Err(e) => ResponseView {
            success: false,
            data: None,
            error: Some(decode_failure_text(e)),
        },
    }
}

/// The script that raises the event `rust-response` in the user interface,
/// with `payload` as the event's detail.
pub open spec fn script_text(payload: Seq<char>) -> Seq<char> {
    "window.dispatchEvent(new CustomEvent('rust-response', { detail: "@ + payload + " }));"@
}

/// The script delivered for an inbound text.
pub open spec fn delivery<H: ProtocolHandler>(handler: &H, body: Seq<char>) -> Seq<char> {
    script_text(wire_text(reply(handler, decoded(body))))
}

impl IpcResponse {
    /// The response that reports the outcome of a command.
    pub fn from_outcome(outcome: Result<String, AppError>) -> (r: IpcResponse)
        ensures
            r@ == response_of(outcome_view(outcome)),
            well_formed(r@),
    {
        match outcome {
            Ok(data) => IpcResponse::ok(data),
            Err(e) => IpcResponse::fail(e.to_string()),
        }
    }

    /// The response to a text that could not be decoded.
    pub fn from_decode_error(e: &DecodeError) -> (r: IpcResponse)
        ensures
            r@ == (ResponseView {
                success: false,
                data: None,
                error: Some(decode_failure_text(e@)),
            }),
            well_formed(r@),
    {
        let mut message = String::from_str("Failed to parse message: ");
        let details = e.to_string();
        message.append(details.as_str());
        IpcResponse::fail(message)
    }
}

/// Hands a request to the handler and reports the outcome.
pub fn dispatch<H: ProtocolHandler>(handler: &H, request: &IpcRequest) -> (r: IpcResponse)
    ensures
        r@ == answer(handler, request@),
        well_formed(r@),
{
    IpcResponse::from_outcome(handler.handle(request.function.as_str(), request.args.as_slice()))
}

/// The response to the outcome of decoding: a request is dispatched, a
/// decoding failure is reported.
pub fn respond<H: ProtocolHandler>(handler: &H, decoded: &Result<IpcRequest, DecodeError>) -> (r:
    IpcResponse)
    ensures
        r@ == reply(handler, decoding_view(*decoded)),
        well_formed(r@),
        decoded is Err ==> !r.success && r@.error is Some && r@.error->Some_0.len() > 0,
{
    match decoded {
        Ok(request) => dispatch(handler, request),
        Err(e) => {
            proof {
                reveal_strlit("Failed to parse message: ");
            }
            IpcResponse::from_decode_error(e)
        },
    }
}

/// Wraps an encoded response into the script that delivers it.
pub fn delivery_script(payload: &str) -> (script: String)
    ensures
        script@ == script_text(payload@),
{
    let mut script = String::from_str(
        "window.dispatchEvent(new CustomEvent('rust-response', { detail: ",
    );
    script.append(payload);
    script.append(" }));");
    script
}

/// Handles one inbound text from the user interface: decodes it, dispatches
/// the request, and returns the script that delivers the encoded response.
/// Every text gets a script; a text that is not a request gets one that
/// delivers a failure.
pub fn handle_ipc_message<H: ProtocolHandler>(body: &str, handler: &H) -> (script: String)
    ensures
        script@ == delivery(handler, body@),
{
    let decoded = IpcRequest::decode(body);
    let response = respond(handler, &decoded);
    let payload = response.to_json();
    delivery_script(payload.as_str())
}

/// Every reply keeps the rule of the envelope: exactly one of data and error
/// is present, data on success and error on failure, and the error of a
/// failure is never empty.
pub proof fn lemma_reply_well_formed<H: ProtocolHandler>(
    handler: &H,
    decoded: Result<RequestView, DecodeErrorView>,
)
    ensures
        well_formed(reply(handler, decoded)),
        !reply(handler, decoded).success ==> reply(handler, decoded).error->Some_0.len() > 0,
{
    reveal_strlit("Failed to parse message: ");
    if let Ok(request) = decoded {
        if let Err(e) = handler.outcome(request.function, request.args) {
            lemma_error_text_nonempty(e);
        }
    }
}

/// A text that is not a request is answered with a failure whose error
/// message is not empty.
pub proof fn lemma_malformed_text_fails<H: ProtocolHandler>(handler: &H, body: Seq<char>)
    requires
        decoded(body) is Err,
    ensures
        !reply(handler, decoded(body)).success,
        reply(handler, decoded(body)).data is None,
        reply(handler, decoded(body)).error == Some(
            decode_failure_text(decoded(body)->Err_0),
        ),
        decode_failure_text(decoded(body)->Err_0).len() > 0,
{
    reveal_strlit("Failed to parse message: ");
}

/// The names of the two built-in commands differ.
proof fn lemma_names_differ()
    ensures
        "hello"@ != "add"@,
{
    reveal_strlit("hello");
    reveal_strlit("add");
    assert("hello"@.len() == 5);
    assert("add"@.len() == 3);
}

/// `add` called with two arguments that write the integers `a` and `b`
/// succeeds with their sum in decimal notation.
pub proof fn lemma_add_answers_sum(
    handler: &TuffiProtocolHandler,
    args: Seq<Seq<char>>,
    a: int,
    b: int,
)
    requires
        args.len() == 2,
        parse_integer(args[0]) == Some(a),
        parse_integer(args[1]) == Some(b),
    ensures
        answer(handler, RequestView { function: "add"@, args }) == (ResponseView {
            success: true,
            data: Some("Sum: "@ + signed_decimal(a + b)),
            error: None,
        }),
{
    lemma_names_differ();
}

/// `add` called with any number of arguments but two fails, and the error
/// names two as the number expected and the number given as the number got.
pub proof fn lemma_add_rejects_count(handler: &TuffiProtocolHandler, args: Seq<Seq<char>>)
    requires
        args.len() != 2,
    ensures
        answer(handler, RequestView { function: "add"@, args }) == (ResponseView {
            success: false,
            data: None,
            error: Some(
                "Invalid argument count for "@ + "add"@ + ": expected "@ + decimal(2) + ", got "@
                    + decimal(args.len()),
            ),
        }),
        decimal(2) == seq!['2'],
{
    lemma_names_differ();
}

/// The first of the two arguments that writes no integer.
pub open spec fn first_unparsed(args: Seq<Seq<char>>) -> Seq<char> {
    if parse_integer(args[0]) is None {
        args[0]
    } else {
        args[1]
    }
}

/// `add` called with two arguments of which at least one writes no 32-bit
/// integer fails with a parse error that quotes the first such argument.
pub proof fn lemma_add_rejects_unparsed(handler: &TuffiProtocolHandler, args: Seq<Seq<char>>)
    requires
        args.len() == 2,
        parse_integer(args[0]) is None || parse_integer(args[1]) is None,
    ensures
        answer(handler, RequestView { function: "add"@, args }) == (ResponseView {
            success: false,
            data: None,
            error: Some("Parse error: "@ + not_a_number_text(first_unparsed(args))),
        }),
{
    lemma_names_differ();
}

/// A command that is neither `hello` nor `add` fails, and the error names it.
pub proof fn lemma_unknown_function_fails(
    handler: &TuffiProtocolHandler,
    function: Seq<char>,
    args: Seq<Seq<char>>,
)
    requires
        function != "hello"@,
        function != "add"@,
    ensures
        answer(handler, RequestView { function, args }) == (ResponseView {
            success: false,
            data: None,
            error: Some("Unknown function: "@ + function),
        }),
{
}

/// `hello` succeeds whatever its arguments are, with a greeting that echoes
/// them.
pub proof fn lemma_hello_greets(handler: &TuffiProtocolHandler, args: Seq<Seq<char>>)
    ensures
        answer(handler, RequestView { function: "hello"@, args }) == (ResponseView {
            success: true,
            data: Some(greeting_text(debug_rendering(args))),
            error: None,
        }),
{
}

/// Dispatching is a function of the request: two requests with the same
/// function and arguments get the same response and the same script, so no
/// call leaves a trace that a later call could see.
pub proof fn lemma_dispatch_repeats<H: ProtocolHandler>(
    handler: &H,
    first: IpcRequest,
    second: IpcRequest,
    first_response: IpcResponse,
    second_response: IpcResponse,
)
    requires
        first@ == second@,
        first_response@ == answer(handler, first@),
        second_response@ == answer(handler, second@),
    ensures
        first_response@ == second_response@,
        wire_text(first_response@) == wire_text(second_response@),
{
}

} // verus!
