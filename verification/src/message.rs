//! The two envelopes exchanged with the user interface, and their codec: a
//! request is decoded from JSON text, a response is encoded to it.

use crate::handler::texts;
use crate::json::{
    find_member, json_members, json_string_literal, json_text, json_text_list,
    lemma_cancel_prefix, lemma_literal_is_read_back, list_result_view, member, parse_text,
    parse_text_list, quote, raw_members_view, split_members, split_view, text_result_view,
};
use vstd::prelude::*;

verus! {

/// A call from the user interface: the name of a command and its positional
/// arguments.
#[derive(Debug, PartialEq, Eq)]
pub struct IpcRequest {
    pub function: String,
    pub args: Vec<String>,
}

/// An [`IpcRequest`] as a mathematical value.
pub struct RequestView {
    pub function: Seq<char>,
    pub args: Seq<Seq<char>>,
}

impl View for IpcRequest {
    type V = RequestView;

    open spec fn view(&self) -> RequestView {
        RequestView { function: self.function@, args: texts(self.args@) }
    }
}

/// The answer to one request.
#[derive(Debug, PartialEq, Eq)]
pub struct IpcResponse {
    pub success: bool,
    pub data: Option<String>,
    pub error: Option<String>,
}

/// An [`IpcResponse`] as a mathematical value.
pub struct ResponseView {
    pub success: bool,
    pub data: Option<Seq<char>>,
    pub error: Option<Seq<char>>,
}

/// The characters of an optional string.
pub open spec fn optional_text(text: Option<String>) -> Option<Seq<char>> {
    match text {
        Some(t) => Some(t@),
        None => None,
    }
}

impl View for IpcResponse {
    type V = ResponseView;

    open spec fn view(&self) -> ResponseView {
        ResponseView {
            success: self.success,
            data: optional_text(self.data),
            error: optional_text(self.error),
        }
    }
}

/// Why a text is not a request.
#[derive(Debug, PartialEq, Eq)]
pub enum DecodeError {
    /// The text is not a JSON object; the parser's message says why.
    Syntax(String),
    /// The object has no member `function`.
    MissingFunction,
    /// The member `function` is not a string.
    FunctionNotText,
    /// The object has no member `args`.
    MissingArgs,
    /// The member `args` is not a list of strings.
    ArgsNotTexts,
}

/// A [`DecodeError`] as a mathematical value.
pub enum DecodeErrorView {
    Syntax(Seq<char>),
    MissingFunction,
    FunctionNotText,
    MissingArgs,
    ArgsNotTexts,
}

impl View for DecodeError {
    type V = DecodeErrorView;

    open spec fn view(&self) -> DecodeErrorView {
        match *self {
            DecodeError::Syntax(message) => DecodeErrorView::Syntax(message@),
            DecodeError::MissingFunction => DecodeErrorView::MissingFunction,
            DecodeError::FunctionNotText => DecodeErrorView::FunctionNotText,
            DecodeError::MissingArgs => DecodeErrorView::MissingArgs,
            DecodeError::ArgsNotTexts => DecodeErrorView::ArgsNotTexts,
        }
    }
}

/// The description of a decoding failure.
pub open spec fn decode_error_text(e: DecodeErrorView) -> Seq<char> {
    match e {
        DecodeErrorView::Syntax(message) => message,
        DecodeErrorView::MissingFunction => "missing field `function`"@,
        DecodeErrorView::FunctionNotText => "invalid type for `function`: expected a string"@,
        DecodeErrorView::MissingArgs => "missing field `args`"@,
        DecodeErrorView::ArgsNotTexts => "invalid type for `args`: expected a list of strings"@,
    }
}

impl DecodeError {
    /// The description of this failure.
    pub fn to_string(&self) -> (text: String)
        ensures
            text@ == decode_error_text(self@),
    {
        match self {
            DecodeError::Syntax(message) => message.clone(),
            DecodeError::MissingFunction => String::from_str("missing field `function`"),
            DecodeError::FunctionNotText => String::from_str(
                "invalid type for `function`: expected a string",
            ),
            DecodeError::MissingArgs => String::from_str("missing field `args`"),
            DecodeError::ArgsNotTexts => String::from_str(
                "invalid type for `args`: expected a list of strings",
            ),
        }
    }
}

/// The result of decoding as a mathematical value.
pub open spec fn decoding_view(decoded: Result<IpcRequest, DecodeError>) -> Result<
    RequestView,
    DecodeErrorView,
> {
    match decoded {
        Ok(request) => Ok(request@),
        Err(e) => Err(e@),
    }
}

/// What reading the member `function` gave: the string that its value
/// writes or the parser's message, if the object has the member.
pub type FunctionReading = Option<Result<String, String>>;

/// What reading the member `args` gave: the strings that its value lists or
/// the parser's message, if the object has the member.
pub type ArgsReading = Option<Result<Vec<String>, String>>;

/// What reading `function` gave, as a mathematical value.
pub open spec fn function_view(reading: FunctionReading) -> Option<Result<Seq<char>, Seq<char>>> {
    match reading {
        Some(parsed) => Some(text_result_view(parsed)),
        None => None,
    }
}

/// What reading `args` gave, as a mathematical value.
pub open spec fn args_view(reading: ArgsReading) -> Option<Result<Seq<Seq<char>>, Seq<char>>> {
    match reading {
        Some(parsed) => Some(list_result_view(parsed)),
        None => None,
    }
}

/// The request that the two members give. The first shortcoming found, in
/// this order, is the error: `function` missing, or its value not read as a
/// string; `args` missing, or its value not read as a list of strings.
pub open spec fn assembled(
    function: Option<Result<Seq<char>, Seq<char>>>,
    args: Option<Result<Seq<Seq<char>>, Seq<char>>>,
) -> Result<RequestView, DecodeErrorView> {
    match function {
        None => Err(DecodeErrorView::MissingFunction),
        Some(Err(_)) => Err(DecodeErrorView::FunctionNotText),
        Some(Ok(name)) => match args {
            None => Err(DecodeErrorView::MissingArgs),
            Some(Err(_)) => Err(DecodeErrorView::ArgsNotTexts),
            Some(Ok(list)) => Ok(RequestView { function: name, args: list }),
        },
    }
}

/// What reading the member `function` gives: its value read as a string, if
/// the object has the member.
pub open spec fn read_function(members: Seq<(Seq<char>, Seq<char>)>) -> Option<
    Result<Seq<char>, Seq<char>>,
> {
    match member(members, "function"@) {
        Some(value) => Some(json_text(value)),
        None => None,
    }
}

/// What reading the member `args` gives: its value read as a list of strings,
/// if the object has the member.
pub open spec fn read_args(members: Seq<(Seq<char>, Seq<char>)>) -> Option<
    Result<Seq<Seq<char>>, Seq<char>>,
> {
    match member(members, "args"@) {
        Some(value) => Some(json_text_list(value)),
        None => None,
    }
}

/// The request that the members of an object hold. Members other than
/// `function` and `args` are never read.
pub open spec fn envelope(members: Seq<(Seq<char>, Seq<char>)>) -> Result<
    RequestView,
    DecodeErrorView,
> {
    assembled(read_function(members), read_args(members))
}

/// The request that a split text holds.
pub open spec fn envelope_of_split(split: Result<Seq<(Seq<char>, Seq<char>)>, Seq<char>>) -> Result<
    RequestView,
    DecodeErrorView,
> {
    match split {
        Ok(members) => envelope(members),
        Err(message) => Err(DecodeErrorView::Syntax(message)),
    }
}

/// The request that a text holds.
pub open spec fn decoded(text: Seq<char>) -> Result<RequestView, DecodeErrorView> {
    envelope_of_split(json_members(text))
}

impl IpcRequest {
    /// Puts a request together from what reading the members `function` and
    /// `args` gave.
    pub fn assemble(function: FunctionReading, args: ArgsReading) -> (decoded: Result<
        IpcRequest,
        DecodeError,
    >)
        ensures
            decoding_view(decoded) == assembled(function_view(function), args_view(args)),
    {
        match function {
            None => Err(DecodeError::MissingFunction),
            Some(Err(_)) => Err(DecodeError::FunctionNotText),
            Some(Ok(name)) => match args {
                None => Err(DecodeError::MissingArgs),
                Some(Err(_)) => Err(DecodeError::ArgsNotTexts),
                Some(Ok(list)) => Ok(IpcRequest { function: name, args: list }),
            },
        }
    }

    /// Reads a request from the members of an object, each value still as
    /// text.
    pub fn from_members(members: &Vec<(String, String)>) -> (decoded: Result<
        IpcRequest,
        DecodeError,
    >)
        ensures
            decoding_view(decoded) == envelope(raw_members_view(members@)),
    {
        let function = match find_member(members, "function") {
            Some(value) => Some(parse_text(value)),
            None => None,
        };
        let args = match find_member(members, "args") {
            Some(value) => Some(parse_text_list(value)),
            None => None,
        };
        IpcRequest::assemble(function, args)
    }

    /// Reads a request from the outcome of splitting a text into members.
    pub fn from_split(split: &Result<Vec<(String, String)>, String>) -> (decoded: Result<
        IpcRequest,
        DecodeError,
    >)
        ensures
            decoding_view(decoded) == envelope_of_split(split_view(*split)),
    {
        match split {
            Ok(members) => IpcRequest::from_members(members),
            Err(message) => Err(DecodeError::Syntax(message.clone())),
        }
    }

    /// Decodes a request from JSON text.
    pub fn decode(text: &str) -> (decoded: Result<IpcRequest, DecodeError>)
        ensures
            decoding_view(decoded) == self::decoded(text@),
    {
        let split = split_members(text);
        IpcRequest::from_split(&split)
    }
}

/// Whether a response keeps the rule of the envelope: a success carries data
/// and no error, a failure carries an error and no data.
pub open spec fn well_formed(r: ResponseView) -> bool {
    if r.success {
        r.data is Some && r.error is None
    } else {
        r.data is None && r.error is Some
    }
}

/// How a boolean is written.
pub open spec fn bool_text(b: bool) -> Seq<char> {
    if b {
        "true"@
    } else {
        "false"@
    }
}

/// How an optional field is written, given the literal of its string.
pub open spec fn field_text(literal: Option<Seq<char>>) -> Seq<char> {
    match literal {
        Some(l) => l,
        None => "null"@,
    }
}

/// The wire text of a response whose strings are already written as JSON
/// literals: one object with the members `success`, `data` and `error`, in
/// this order and without blanks.
pub open spec fn framed(
    success: bool,
    data: Option<Seq<char>>,
    error: Option<Seq<char>>,
) -> Seq<char> {
    "{\"success\":"@ + bool_text(success) + ",\"data\":"@ + field_text(data) + ",\"error\":"@
        + field_text(error) + "}"@
}

/// The JSON literal of an optional string.
pub open spec fn optional_literal(text: Option<Seq<char>>) -> Option<Seq<char>> {
    match text {
        Some(t) => Some(json_string_literal(t)),
        None => None,
    }
}

/// The wire text of a response.
pub open spec fn wire_text(r: ResponseView) -> Seq<char> {
    framed(r.success, optional_literal(r.data), optional_literal(r.error))
}

/// A boolean is read back from the front of a text.
proof fn lemma_bool_is_read_back(
    first: bool,
    second: bool,
    after_first: Seq<char>,
    after_second: Seq<char>,
)
    requires
        bool_text(first) + after_first == bool_text(second) + after_second,
    ensures
        first == second,
        after_first == after_second,
{
    reveal_strlit("true");
    reveal_strlit("false");
    let left = bool_text(first) + after_first;
    let right = bool_text(second) + after_second;
    assert(left[0] == bool_text(first)[0]);
    assert(right[0] == bool_text(second)[0]);
    assert(first == second);
    lemma_cancel_prefix(bool_text(first), after_first, after_second);
}

/// An optional string is read back from the front of a text: `null` and a
/// string literal begin differently, and a literal tells its string.
proof fn lemma_field_is_read_back(
    first: Option<Seq<char>>,
    second: Option<Seq<char>>,
    after_first: Seq<char>,
    after_second: Seq<char>,
)
    requires
        field_text(optional_literal(first)) + after_first == field_text(optional_literal(second))
            + after_second,
    ensures
        first == second,
        after_first == after_second,
{
    reveal_strlit("null");
    let left = field_text(optional_literal(first)) + after_first;
    let right = field_text(optional_literal(second)) + after_second;
    assert(left[0] == field_text(optional_literal(first))[0]);
    assert(right[0] == field_text(optional_literal(second))[0]);
    match (first, second) {
        (Some(one), Some(two)) => {
            lemma_literal_is_read_back(one, two, after_first, after_second);
        },
        (None, None) => {
            lemma_cancel_prefix("null"@, after_first, after_second);
        },
        (Some(one), None) => {
            assert(json_string_literal(one)[0] == '"');
        },
        (None, Some(two)) => {
            assert(json_string_literal(two)[0] == '"');
        },
    }
}

/// The wire text with its parts taken from the right: what follows the
/// member `data`.
spec fn after_data(r: ResponseView) -> Seq<char> {
    ",\"error\":"@ + (field_text(optional_literal(r.error)) + "}"@)
}

/// The wire text with its parts taken from the right: what follows the
/// member `success`.
spec fn after_success(r: ResponseView) -> Seq<char> {
    ",\"data\":"@ + (field_text(optional_literal(r.data)) + after_data(r))
}

/// Joining texts does not depend on how they are grouped.
proof fn lemma_regroup(a: Seq<char>, b: Seq<char>, c: Seq<char>)
    ensures
        a + b + c == a + (b + c),
{
    assert(a + b + c =~= a + (b + c));
}

/// The wire text, with its parts taken from the right.
proof fn lemma_wire_text_from_the_right(r: ResponseView)
    ensures
        wire_text(r) == "{\"success\":"@ + (bool_text(r.success) + after_success(r)),
{
    let open = "{\"success\":"@;
    let success = bool_text(r.success);
    let data_key = ",\"data\":"@;
    let data = field_text(optional_literal(r.data));
    let error_key = ",\"error\":"@;
    let error = field_text(optional_literal(r.error));
    let close = "}"@;
    lemma_regroup(open + success + data_key + data + error_key, error, close);
    lemma_regroup(open + success + data_key + data, error_key, error + close);
    lemma_regroup(open + success + data_key, data, error_key + (error + close));
    lemma_regroup(open + success, data_key, data + (error_key + (error + close)));
    lemma_regroup(open, success, data_key + (data + (error_key + (error + close))));
}

/// The wire text of a response tells the whole response: two responses that
/// are written alike agree in `success`, `data` and `error`. So whoever reads
/// the text can get all three back as they were.
pub proof fn lemma_wire_text_is_read_back(first: ResponseView, second: ResponseView)
    requires
        wire_text(first) == wire_text(second),
    ensures
        first == second,
{
    let open = "{\"success\":"@;
    lemma_wire_text_from_the_right(first);
    lemma_wire_text_from_the_right(second);
    lemma_cancel_prefix(
        open,
        bool_text(first.success) + after_success(first),
        bool_text(second.success) + after_success(second),
    );
    lemma_bool_is_read_back(
        first.success,
        second.success,
        after_success(first),
        after_success(second),
    );
    lemma_cancel_prefix(
        ",\"data\":"@,
        field_text(optional_literal(first.data)) + after_data(first),
        field_text(optional_literal(second.data)) + after_data(second),
    );
    lemma_field_is_read_back(first.data, second.data, after_data(first), after_data(second));
    lemma_cancel_prefix(
        ",\"error\":"@,
        field_text(optional_literal(first.error)) + "}"@,
        field_text(optional_literal(second.error)) + "}"@,
    );
    lemma_field_is_read_back(first.error, second.error, "}"@, "}"@);
}

fn push_field(out: &mut String, literal: &Option<String>)
    ensures
        final(out)@ == old(out)@ + field_text(optional_text(*literal)),
{
    match literal {
        Some(l) => {
            out.append(l.as_str());
        },
        None => {
            out.append("null");
        },
    }
}

/// Writes the wire text of a response from the JSON literals of its strings.
pub fn frame_response(success: bool, data: &Option<String>, error: &Option<String>) -> (text:
    String)
    ensures
        text@ == framed(success, optional_text(*data), optional_text(*error)),
{
    let mut text = String::from_str("{\"success\":");
    if success {
        text.append("true");
    } else {
        text.append("false");
    }
    text.append(",\"data\":");
    push_field(&mut text, data);
    text.append(",\"error\":");
    push_field(&mut text, error);
    text.append("}");
    assert(text@ =~= framed(success, optional_text(*data), optional_text(*error)));
    text
}

fn quote_optional(text: &Option<String>) -> (literal: Option<String>)
    ensures
        optional_text(literal) == optional_literal(optional_text(*text)),
{
    match text {
        Some(t) => Some(quote(t.as_str())),
        None => None,
    }
}

impl IpcResponse {
    /// The response to a command that succeeded with `data`.
    pub fn ok(data: String) -> (r: IpcResponse)
        ensures
            r@ == (ResponseView { success: true, data: Some(data@), error: None }),
            well_formed(r@),
    {
        IpcResponse { success: true, data: Some(data), error: None }
    }

    /// The response to a request that failed with the message `error`.
    pub fn fail(error: String) -> (r: IpcResponse)
        ensures
            r@ == (ResponseView { success: false, data: None, error: Some(error@) }),
            well_formed(r@),
    {
        IpcResponse { success: false, data: None, error: Some(error) }
    }

    /// Encodes the response as JSON text.
    pub fn to_json(&self) -> (text: String)
        ensures
            text@ == wire_text(self@),
    {
        let data = quote_optional(&self.data);
        let error = quote_optional(&self.error);
        frame_response(self.success, &data, &error)
    }
}

} // verus!
