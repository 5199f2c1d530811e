//! Error codes and error objects of the JSON-RPC 2.0 envelope.
use vstd::prelude::*;
use vstd::string::StringExecFns;

verus! {

/// Predefined error codes for common JSON-RPC and protocol-specific errors.
///
/// Any integer that is not one of the named codes is kept, unchanged, in
/// `Other`.
#[derive(Clone, Copy, Debug, PartialEq, Eq, Structural)]
#[non_exhaustive]
pub enum ErrorCode {
    /// Invalid JSON was received (-32700).
    ParseError,
    /// The JSON sent is not a valid Request object (-32600).
    InvalidRequest,
    /// The method does not exist or is not available (-32601).
    MethodNotFound,
    /// Invalid method parameter(s) (-32602).
    InvalidParams,
    /// Internal JSON-RPC error (-32603).
    InternalError,
    /// Execution of the method was aborted by a cancellation (-32800).
    RequestCancelled,
    /// Authentication is required before this operation (-32000).
    AuthRequired,
    /// A given resource, such as a file, was not found (-32002).
    ResourceNotFound,
    /// Any other error code.
    Other(i32),
}

/// The integer that stands for a code on the wire.
pub open spec fn code_value(c: ErrorCode) -> i32 {
    match c {
        ErrorCode::ParseError => -32700i32,
        ErrorCode::InvalidRequest => -32600i32,
        ErrorCode::MethodNotFound => -32601i32,
        ErrorCode::InvalidParams => -32602i32,
        ErrorCode::InternalError => -32603i32,
        ErrorCode::RequestCancelled => -32800i32,
        ErrorCode::AuthRequired => -32000i32,
        ErrorCode::ResourceNotFound => -32002i32,
        ErrorCode::Other(v) => v,
    }
}

/// The code that an integer read from the wire stands for.
pub open spec fn code_from_value(v: i32) -> ErrorCode {
    if v == -32700 {
        ErrorCode::ParseError
    } else if v == -32600 {
        ErrorCode::InvalidRequest
    } else if v == -32601 {
        ErrorCode::MethodNotFound
    } else if v == -32602 {
        ErrorCode::InvalidParams
    } else if v == -32603 {
        ErrorCode::InternalError
    } else if v == -32800 {
        ErrorCode::RequestCancelled
    } else if v == -32000 {
        ErrorCode::AuthRequired
    } else if v == -32002 {
        ErrorCode::ResourceNotFound
    } else {
        ErrorCode::Other(v)
    }
}

/// A code is canonical when `Other` does not hold the integer of a named code.
pub open spec fn is_canonical_code(c: ErrorCode) -> bool {
    match c {
        ErrorCode::Other(v) => code_from_value(v) == ErrorCode::Other(v),
        _ => true,
    }
}

impl From<i32> for ErrorCode {
    fn from(value: i32) -> (r: ErrorCode) {
        match value {
            -32700 => ErrorCode::ParseError,
            -32600 => ErrorCode::InvalidRequest,
            -32601 => ErrorCode::MethodNotFound,
            -32602 => ErrorCode::InvalidParams,
            -32603 => ErrorCode::InternalError,
            -32800 => ErrorCode::RequestCancelled,
            -32000 => ErrorCode::AuthRequired,
            -32002 => ErrorCode::ResourceNotFound,
            _ => ErrorCode::Other(value),
        }
    }
}

impl vstd::std_specs::convert::FromSpecImpl<i32> for ErrorCode {
    open spec fn obeys_from_spec() -> bool {
        true
    }

    open spec fn from_spec(v: i32) -> ErrorCode {
        code_from_value(v)
    }
}

impl From<ErrorCode> for i32 {
    fn from(value: ErrorCode) -> (r: i32) {
        match value {
            ErrorCode::ParseError => -32700,
            ErrorCode::InvalidRequest => -32600,
            ErrorCode::MethodNotFound => -32601,
            ErrorCode::InvalidParams => -32602,
            ErrorCode::InternalError => -32603,
            ErrorCode::RequestCancelled => -32800,
            ErrorCode::AuthRequired => -32000,
            ErrorCode::ResourceNotFound => -32002,
            ErrorCode::Other(v) => v,
        }
    }
}

impl vstd::std_specs::convert::FromSpecImpl<ErrorCode> for i32 {
    open spec fn obeys_from_spec() -> bool {
        true
    }

    open spec fn from_spec(c: ErrorCode) -> i32 {
        code_value(c)
    }
}

impl ErrorCode {
    /// The integer of this code on the wire.
    pub fn value(self) -> (r: i32)
        ensures
            r == code_value(self),
    {
        i32::from(self)
    }

    /// The code that an integer read from the wire stands for.
    pub fn from_value(v: i32) -> (r: ErrorCode)
        ensures
            r == code_from_value(v),
            is_canonical_code(r),
    {
        ErrorCode::from(v)
    }
}

/// Reading back the integer of any code gives that integer, for every
/// integer, including those that no named code has.
pub proof fn law_value_round_trip(v: i32)
    ensures
        code_value(code_from_value(v)) == v,
{
}

/// Writing a canonical code and reading it back gives the same code; an
/// unrecognized integer stays in `Other` with the exact same integer.
pub proof fn law_code_round_trip(c: ErrorCode)
    requires
        is_canonical_code(c),
    ensures
        code_from_value(code_value(c)) == c,
{
}


/// The short description of each code, used as the message of an error
/// made from the code alone.
pub open spec fn code_description(c: ErrorCode) -> Seq<char> {
    match c {
        ErrorCode::ParseError => "Parse error"@,
        ErrorCode::InvalidRequest => "Invalid request"@,
        ErrorCode::MethodNotFound => "Method not found"@,
        ErrorCode::InvalidParams => "Invalid params"@,
        ErrorCode::InternalError => "Internal error"@,
        ErrorCode::RequestCancelled => "Request cancelled"@,
        ErrorCode::AuthRequired => "Authentication required"@,
        ErrorCode::ResourceNotFound => "Resource not found"@,
        ErrorCode::Other(_) => "Unknown error"@,
    }
}

impl ErrorCode {
    /// The short description of this code.
    pub fn description(self) -> (r: &'static str)
        ensures
            r@ == code_description(self),
    {
        match self {
            ErrorCode::ParseError => "Parse error",
            ErrorCode::InvalidRequest => "Invalid request",
            ErrorCode::MethodNotFound => "Method not found",
            ErrorCode::InvalidParams => "Invalid params",
            ErrorCode::InternalError => "Internal error",
            ErrorCode::RequestCancelled => "Request cancelled",
            ErrorCode::AuthRequired => "Authentication required",
            ErrorCode::ResourceNotFound => "Resource not found",
            ErrorCode::Other(_) => "Unknown error",
        }
    }
}

/// The lower-case hexadecimal digit of `n` (below 16).
pub open spec fn hex_digit(n: u32) -> char {
    if n < 10 {
        ((n + 48) as u8) as char
    } else {
        ((n + 87) as u8) as char
    }
}

/// How one character is written inside a JSON string: quote and backslash
/// are escaped, the control characters take their short escape or
/// `\u00XX`, and every other character stands as it is.
pub open spec fn escape_char(c: char) -> Seq<char> {
    let n = c as u32;
    if c == '"' {
        seq!['\\', '"']
    } else if c == '\\' {
        seq!['\\', '\\']
    } else if n == 8 {
        seq!['\\', 'b']
    } else if n == 9 {
        seq!['\\', 't']
    } else if n == 10 {
        seq!['\\', 'n']
    } else if n == 12 {
        seq!['\\', 'f']
    } else if n == 13 {
        seq!['\\', 'r']
    } else if n < 32 {
        seq!['\\', 'u', '0', '0', hex_digit(n / 16), hex_digit(n % 16)]
    } else {
        seq![c]
    }
}

/// The escaped characters of a string.
pub open spec fn escaped(s: Seq<char>) -> Seq<char>
    decreases s.len(),
{
    if s.len() == 0 {
        Seq::empty()
    } else {
        escaped(s.drop_last()) + escape_char(s.last())
    }
}

/// The JSON text of a JSON string whose content is `s`: the escaped
/// characters between double quotes.
pub open spec fn json_string_text(s: Seq<char>) -> Seq<char> {
    seq!['"'] + escaped(s) + seq!['"']
}

/// Relies on `serde_json::to_string` applied to a `str`: it writes the text
/// between double quotes, escaping quote, backslash and the control
/// characters by its escape table (`format_escaped_str`). A `str` has no map
/// keys and its `Serialize` never fails, so the error arm is never taken.
#[verifier::external_body]
fn json_quote(s: &str) -> (r: String)
    ensures
        r@ == json_string_text(s@),
{
    serde_json::to_string(s).unwrap_or_default()
}

/// JSON-RPC error object: a code, a short message and optional additional
/// data, kept as the JSON text that stands on the wire.
#[derive(Clone, Debug)]
#[non_exhaustive]
pub struct Error {
    /// A number indicating the error type that occurred.
    pub code: ErrorCode,
    /// A short description of the error.
    pub message: String,
    /// Optional value, as JSON text, with additional information.
    pub data: Option<String>,
}

/// The JSON text `{"uri":<uri>}` that a missing resource carries as data.
pub open spec fn uri_data_text(uri: Seq<char>) -> Seq<char> {
    "{\"uri\":"@ + json_string_text(uri) + "}"@
}

impl Error {
    /// Creates an error with the given code and message and no data.
    pub fn new(code: i32, message: &str) -> (r: Error)
        ensures
            r.code == code_from_value(code),
            r.message@ == message@,
            r.data is None,
    {
        Error { code: ErrorCode::from(code), message: message.to_owned(), data: None }
    }

    /// Replaces the additional data (JSON text) of the error.
    pub fn data(self, data: Option<String>) -> (r: Error)
        ensures
            r.code == self.code,
            r.message == self.message,
            r.data == data,
    {
        Error { data, ..self }
    }

    /// An error made from a code alone: its message is the code's description.
    pub fn from_code(code: ErrorCode) -> (r: Error)
        ensures
            r.code == code,
            r.message@ == code_description(code),
            r.data is None,
    {
        Error { code, message: code.description().to_owned(), data: None }
    }

    /// Invalid JSON was received.
    pub fn parse_error() -> (r: Error)
        ensures
            r.code == ErrorCode::ParseError,
            r.message@ == code_description(ErrorCode::ParseError),
            r.data is None,
    {
        Error::from_code(ErrorCode::ParseError)
    }

    /// The JSON sent is not a valid Request object.
    pub fn invalid_request() -> (r: Error)
        ensures
            r.code == ErrorCode::InvalidRequest,
            r.message@ == code_description(ErrorCode::InvalidRequest),
            r.data is None,
    {
        Error::from_code(ErrorCode::InvalidRequest)
    }

    /// The method does not exist or is not available.
    pub fn method_not_found() -> (r: Error)
        ensures
            r.code == ErrorCode::MethodNotFound,
            r.message@ == code_description(ErrorCode::MethodNotFound),
            r.data is None,
    {
        Error::from_code(ErrorCode::MethodNotFound)
    }

    /// Invalid method parameter(s).
    pub fn invalid_params() -> (r: Error)
        ensures
            r.code == ErrorCode::InvalidParams,
            r.message@ == code_description(ErrorCode::InvalidParams),
            r.data is None,
    {
        Error::from_code(ErrorCode::InvalidParams)
    }

    /// Internal JSON-RPC error.
    pub fn internal_error() -> (r: Error)
        ensures
            r.code == ErrorCode::InternalError,
            r.message@ == code_description(ErrorCode::InternalError),
            r.data is None,
    {
        Error::from_code(ErrorCode::InternalError)
    }

    /// The request was cancelled.
    pub fn request_cancelled() -> (r: Error)
        ensures
            r.code == ErrorCode::RequestCancelled,
            r.message@ == code_description(ErrorCode::RequestCancelled),
            r.data is None,
    {
        Error::from_code(ErrorCode::RequestCancelled)
    }

    /// Authentication is required.
    pub fn auth_required() -> (r: Error)
        ensures
            r.code == ErrorCode::AuthRequired,
            r.message@ == code_description(ErrorCode::AuthRequired),
            r.data is None,
    {
        Error::from_code(ErrorCode::AuthRequired)
    }

    /// A given resource, such as a file, was not found; its URI, when known,
    /// is carried as `{"uri": ...}` in the data.
    pub fn resource_not_found(uri: Option<String>) -> (r: Error)
        ensures
            r.code == ErrorCode::ResourceNotFound,
            r.message@ == code_description(ErrorCode::ResourceNotFound),
            uri is None ==> r.data is None,
            uri matches Some(u) ==> r.data matches Some(d) && d@ == uri_data_text(u@),
    {
        let err = Error::from_code(ErrorCode::ResourceNotFound);
        match uri {
            Some(u) => {
                let text = String::from_str("{\"uri\":");
                let text = text.concat(json_quote(u.as_str()).as_str());
                let text = text.concat("}");
                err.data(Some(text))
            },
            None => err,
        }
    }

    /// Turns the description of a local failure into an internal error that
    /// carries the description, as a JSON string, in its data.
    pub fn into_internal_error(description: &str) -> (r: Error)
        ensures
            r.code == ErrorCode::InternalError,
            r.message@ == code_description(ErrorCode::InternalError),
            r.data matches Some(d) && d@ == json_string_text(description@),
    {
        Error::internal_error().data(Some(json_quote(description)))
    }

    /// Turns the message of a parser that refused inbound parameters into an
    /// invalid-params error that carries the message, as a JSON string, in
    /// its data.
    pub fn from_parse_failure(parser_message: &str) -> (r: Error)
        ensures
            r.code == ErrorCode::InvalidParams,
            r.message@ == code_description(ErrorCode::InvalidParams),
            r.data matches Some(d) && d@ == json_string_text(parser_message@),
    {
        Error::invalid_params().data(Some(json_quote(parser_message)))
    }
}

/// The decimal digit `d`.
pub open spec fn digit_char(d: nat) -> char {
    if d == 0 {
        '0'
    } else if d == 1 {
        '1'
    } else if d == 2 {
        '2'
    } else if d == 3 {
        '3'
    } else if d == 4 {
        '4'
    } else if d == 5 {
        '5'
    } else if d == 6 {
        '6'
    } else if d == 7 {
        '7'
    } else if d == 8 {
        '8'
    } else {
        '9'
    }
}

/// The decimal digits of `n`, without leading zeros.
pub open spec fn decimal_of(n: nat) -> Seq<char>
    decreases n,
{
    if n < 10 {
        seq![digit_char(n)]
    } else {
        decimal_of(n / 10).push(digit_char(n % 10))
    }
}

/// The decimal text of an integer, with a minus sign when it is negative.
pub open spec fn signed_decimal(v: int) -> Seq<char> {
    if v < 0 {
        seq!['-'] + decimal_of((-v) as nat)
    } else {
        decimal_of(v as nat)
    }
}

/// The indented rendering of JSON text, or the text itself when it is not
/// JSON.
pub uninterp spec fn pretty_json_text(s: Seq<char>) -> Seq<char>;

/// Relies on `serde_json::from_str` and `serde_json::to_string_pretty`: the
/// data text is parsed and rendered in the indented form; the result depends
/// on the text alone. Text that does not parse, or a rendering that fails,
/// leaves the text as it is.
#[verifier::external_body]
fn pretty_json(text: &str) -> (r: String)
    ensures
        r@ == pretty_json_text(text@),
{
    match serde_json::from_str::<serde_json::Value>(text) {
        Ok(v) => serde_json::to_string_pretty(&v).unwrap_or_else(|_| text.to_owned()),
        Err(_) => text.to_owned(),
    }
}

/// The text that an error reads as: its message, or its code when the
/// message is empty, followed by `": "` and the indented data when there is
/// data.
pub open spec fn error_text(e: Error) -> Seq<char> {
    let head = if e.message@.len() == 0 {
        signed_decimal(code_value(e.code) as int)
    } else {
        e.message@
    };
    match e.data {
        Some(d) => head + ": "@ + pretty_json_text(d@),
        None => head,
    }
}

/// The one-character text of the digit `d`.
fn digit_str(d: u32) -> (r: &'static str)
    requires
        d < 10,
    ensures
        r@ == seq![digit_char(d as nat)],
{
    proof {
        reveal_strlit("0");
        reveal_strlit("1");
        reveal_strlit("2");
        reveal_strlit("3");
        reveal_strlit("4");
        reveal_strlit("5");
        reveal_strlit("6");
        reveal_strlit("7");
        reveal_strlit("8");
        reveal_strlit("9");
    }
    let r = if d == 0 {
        "0"
    } else if d == 1 {
        "1"
    } else if d == 2 {
        "2"
    } else if d == 3 {
        "3"
    } else if d == 4 {
        "4"
    } else if d == 5 {
        "5"
    } else if d == 6 {
        "6"
    } else if d == 7 {
        "7"
    } else if d == 8 {
        "8"
    } else {
        "9"
    };
    assert(r@ =~= seq![digit_char(d as nat)]);
    r
}

/// Appends the decimal digits of `n` to `out`.
fn push_decimal(n: u32, out: &mut String)
    ensures
        final(out)@ == old(out)@ + decimal_of(n as nat),
    decreases n,
{
    if n >= 10 {
        push_decimal(n / 10, out);
    }
    out.append(digit_str(n % 10));
    proof {
        assert(old(out)@ + decimal_of(n as nat) =~= if n >= 10 {
            old(out)@ + decimal_of((n / 10) as nat) + seq![digit_char((n % 10) as nat)]
        } else {
            old(out)@ + seq![digit_char((n % 10) as nat)]
        });
    }
}

/// The decimal text of an integer.
pub fn decimal_text(v: i32) -> (r: String)
    ensures
        r@ == signed_decimal(v as int),
{
    let mut out = String::new();
    if v < 0 {
        out.append("-");
        let magnitude: u32 = (-(v as i64)) as u32;
        push_decimal(magnitude, &mut out);
        proof {
            reveal_strlit("-");
            assert(out@ =~= signed_decimal(v as int));
        }
    } else {
        push_decimal(v as u32, &mut out);
        proof {
            assert(out@ =~= signed_decimal(v as int));
        }
    }
    out
}

impl Error {
    /// The text that the error reads as: its message, or its code when the
    /// message is empty, followed by `": "` and the indented data when there
    /// is data.
    pub fn to_string(&self) -> (r: String)
        ensures
            r@ == error_text(*self),
    {
        let mut out = if self.message.as_str().is_empty() {
            decimal_text(i32::from(self.code))
        } else {
            self.message.clone()
        };
        match &self.data {
            Some(d) => {
                out.append(": ");
                out.append(pretty_json(d.as_str()).as_str());
            },
            None => {},
        }
        out
    }
}

/// Two errors are equal when code, message and data are.
pub open spec fn same_error(a: Error, b: Error) -> bool {
    &&& a.code == b.code
    &&& a.message@ == b.message@
    &&& match (a.data, b.data) {
        (Some(x), Some(y)) => x@ == y@,
        (None, None) => true,
        _ => false,
    }
}

impl PartialEq for Error {
    fn eq(&self, other: &Error) -> (r: bool)
        ensures
            r == same_error(*self, *other),
    {
        let data_eq = match (&self.data, &other.data) {
            (Some(x), Some(y)) => x.eq(y),
            (None, None) => true,
            _ => false,
        };
        self.code == other.code && self.message.eq(&other.message) && data_eq
    }
}

impl vstd::std_specs::cmp::PartialEqSpecImpl for Error {
    open spec fn obeys_eq_spec() -> bool {
        true
    }

    open spec fn eq_spec(&self, other: &Error) -> bool {
        same_error(*self, *other)
    }
}

impl Eq for Error {

}

/// An error object written as its wire fields (the code's integer, the
/// message and the data text) and read back with `Error::new` and
/// `Error::data` is the same error, whenever its code is canonical; in
/// particular an unrecognized code comes back as the same `Other` integer.
pub proof fn law_error_round_trip(e: Error, back: Error)
    requires
        is_canonical_code(e.code),
        back.code == code_from_value(code_value(e.code)),
        back.message@ == e.message@,
        back.data == e.data,
    ensures
        same_error(e, back),
{
    law_code_round_trip(e.code);
}

} // verus!
