//! One HTTP exchange, seen from outside the network: what is to be sent, what
//! came back, and what the caller does next.

use crate::error::ApiError;
use crate::error::TransportError;
use vstd::prelude::*;

verus! {

/// The text that `http::StatusCode` displays for the status `code`: the code in
/// decimal, a space, and the reason phrase registered for it.
pub uninterp spec fn status_line(code: u16) -> Seq<char>;

/// The character of the decimal digit `d`, from 0 to 9.
pub open spec fn decimal_digit(d: int) -> char {
    ('0' as u8 + d) as char
}

/// The three decimal digits of a status code.
pub open spec fn code_digits(code: u16) -> Seq<char> {
    seq![
        decimal_digit(code as int / 100),
        decimal_digit(code as int / 10 % 10),
        decimal_digit(code as int % 10),
    ]
}

/// Whether `part` occurs somewhere in `text`.
pub open spec fn occurs_in(part: Seq<char>, text: Seq<char>) -> bool {
    exists|at: int|
        0 <= at && at + part.len() <= text.len() && #[trigger] text.subrange(
            at,
            at + part.len(),
        ) == part
}

/// Calls `reqwest::StatusCode::from_u16` and `StatusCode::is_success`: a code
/// counts as success from 200 to 299; `from_u16` refuses what lies outside 100
/// to 999, which is no success either.
#[verifier::external_body]
fn code_is_success(code: u16) -> (success: bool)
    ensures
        success == (200 <= code < 300),
{
    match reqwest::StatusCode::from_u16(code) {
        Ok(status) => status.is_success(),
        Err(_) => false,
    }
}

/// Calls `reqwest::StatusCode::from_u16` and the `Display` of the status, which
/// writes the code in decimal, a space and the reason phrase (or a fixed text
/// where the code has none). A code from 100 to 999 has three digits.
#[verifier::external_body]
fn code_line(code: u16) -> (line: String)
    requires
        100 <= code <= 999,
    ensures
        line@ == status_line(code),
        line@.len() >= 4,
        line@.subrange(0, 3) == code_digits(code),
        line@[3] == ' ',
{
    match reqwest::StatusCode::from_u16(code) {
        Ok(status) => status.to_string(),
        Err(_) => String::new(),
    }
}

/// The status of an HTTP response: a code of three digits.
#[derive(Debug)]
pub struct Status {
    code: u16,
}

impl View for Status {
    type V = u16;

    closed spec fn view(&self) -> u16 {
        self.code
    }
}

impl Status {
    #[verifier::type_invariant]
    spec fn three_digits(self) -> bool {
        100 <= self.code <= 999
    }

    /// The status with this code, for a code from 100 to 999.
    pub fn new(code: u16) -> (status: Option<Status>)
        ensures
            status is Some <==> 100 <= code <= 999,
            status matches Some(s) ==> s@ == code,
    {
        if 100 <= code && code <= 999 {
            Some(Status { code })
        } else {
            None
        }
    }

    /// The code.
    pub fn code(&self) -> (code: u16)
        ensures
            code == self@,
            100 <= code <= 999,
    {
        proof {
            use_type_invariant(self);
        }
        self.code
    }

    /// Whether the status reports success: a code from 200 to 299.
    pub fn is_success(&self) -> (success: bool)
        ensures
            success == (200 <= self@ < 300),
    {
        code_is_success(self.code)
    }

    /// The status as text: the code, a space and its reason phrase.
    pub fn to_string(&self) -> (line: String)
        ensures
            line@ == status_line(self@),
            line@.len() >= 4,
            line@.subrange(0, 3) == code_digits(self@),
            line@[3] == ' ',
    {
        proof {
            use_type_invariant(self);
        }
        code_line(self.code)
    }
}

/// A file in a multipart form.
#[derive(Debug)]
pub struct FilePart {
    /// The name of the form field.
    pub name: String,
    /// The file name that the part announces.
    pub file_name: String,
    /// The media type that the part announces.
    pub mime: String,
    /// The bytes of the file.
    pub content: Vec<u8>,
}

/// A multipart form: text fields in order, then one file.
#[derive(Debug)]
pub struct Form {
    /// The text fields, each a name and a value.
    pub fields: Vec<(String, String)>,
    pub file: FilePart,
}

/// The views of text fields, in order: each name with its value.
pub open spec fn field_views(fields: Seq<(String, String)>) -> Seq<(Seq<char>, Seq<char>)> {
    fields.map_values(|field: (String, String)| (field.0@, field.1@))
}

/// The body of a request.
#[derive(Debug)]
pub enum Payload {
    /// JSON text, to be sent as `application/json`.
    Json(Vec<u8>),
    /// A form, to be sent as `multipart/form-data`.
    Multipart(Form),
}

/// One POST request, authenticated by a bearer token.
pub struct Post {
    pub url: String,
    /// The token for the `Authorization` header.
    pub bearer: String,
    pub payload: Payload,
}

/// What the caller does after the request was sent.
#[derive(Debug)]
pub enum Next {
    /// A response came and reports success: read its body.
    ReadBody,
    /// The exchange is over, with this error.
    Stop(ApiError),
}

/// Decides on what sending gave: the status of the response, or the failure
/// that kept one from coming.
///
/// A transport failure ends the exchange as `RequestError`, with the failure as
/// it came. A status outside 200 to 299 ends it as `Error`, with the status as
/// text, which starts with the code and so holds it. Any other status asks for
/// the body.
pub fn after_send(sent: Result<Status, TransportError>) -> (next: Next)
    ensures
        match sent {
            Err(cause) => next == Next::Stop(ApiError::RequestError(cause)),
            Ok(status) => if 200 <= status@ < 300 {
                next is ReadBody
            } else {
                &&& next matches Next::Stop(ApiError::Error(message))
                &&& message@ == status_line(status@)
                &&& message@.len() >= 4
                &&& message@.subrange(0, 3) == code_digits(status@)
                &&& occurs_in(code_digits(status@), message@)
            },
        },
{
    match sent {
        Err(cause) => Next::Stop(ApiError::RequestError(cause)),
        Ok(status) => {
            if status.is_success() {
                Next::ReadBody
            } else {
                let line = status.to_string();
                assert(line@.subrange(0, 0 + code_digits(status@).len() as int) == code_digits(status@));
                Next::Stop(ApiError::Error(line))
            }
        },
    }
}

} // verus!
