//! Error taxonomy and its mapping to client-visible responses.
use vstd::prelude::*;
use vstd::string::StringExecFns;

verus! {

/// Every failure the service can report.
#[derive(Debug, PartialEq, Eq)]
pub enum ApiError {
    /// No prediction is stored for the pair.
    NotFound(String),
    /// Storage failed; the detail is for the server log only.
    Database(String),
    /// The request failed validation; the message is shown to the caller.
    BadRequest(String),
    /// Startup configuration is malformed.
    Config(String),
    /// Any other internal failure.
    Internal,
}

/// HTTP status of each kind of failure.
pub open spec fn status_of(e: ApiError) -> u16 {
    match e {
        ApiError::NotFound(_) => 404,
        ApiError::BadRequest(_) => 400,
        ApiError::Database(_) | ApiError::Config(_) | ApiError::Internal => 500,
    }
}

/// The message shown to the caller. Storage and configuration details are
/// never part of it.
pub open spec fn message_of(e: ApiError) -> Seq<char> {
    match e {
        ApiError::NotFound(pair) => "Prediction not found for pair: "@ + pair@,
        ApiError::Database(_) => "Database error"@,
        ApiError::BadRequest(msg) => msg@,
        ApiError::Config(_) => "Configuration error"@,
        ApiError::Internal => "Internal server error"@,
    }
}

/// The JSON error body `{"error":<literal>}` around an encoded string literal.
pub open spec fn error_body_of(literal: Seq<char>) -> Seq<char> {
    "{\"error\":"@ + literal + "}"@
}

/// A lowercase hexadecimal digit, for `d` < 16.
pub open spec fn hex_digit(d: int) -> char {
    if d < 10 {
        ('0' as int + d) as char
    } else {
        ('a' as int + d - 10) as char
    }
}

/// How one character is written inside a JSON string: quote and backslash
/// are escaped, the five control characters with short escapes use them,
/// every other character below U+0020 becomes `\u00XX`, and the rest stand
/// as they are.
pub open spec fn escaped_char(c: char) -> Seq<char> {
    if c == '"' {
        seq!['\\', '"']
    } else if c == '\\' {
        seq!['\\', '\\']
    } else if c == '\u{8}' {
        seq!['\\', 'b']
    } else if c == '\t' {
        seq!['\\', 't']
    } else if c == '\n' {
        seq!['\\', 'n']
    } else if c == '\u{c}' {
        seq!['\\', 'f']
    } else if c == '\r' {
        seq!['\\', 'r']
    } else if (c as int) < 0x20 {
        seq!['\\', 'u', '0', '0', hex_digit(c as int / 16), hex_digit(c as int % 16)]
    } else {
        seq![c]
    }
}

/// The characters of `s`, each escaped for a JSON string.
pub open spec fn escaped(s: Seq<char>) -> Seq<char>
    decreases s.len(),
{
    if s.len() == 0 {
        Seq::empty()
    } else {
        escaped(s.drop_last()) + escaped_char(s.last())
    }
}

/// The JSON string literal for `s`, quotes included.
pub open spec fn json_string_literal(s: Seq<char>) -> Seq<char> {
    seq!['"'] + escaped(s) + seq!['"']
}

#[verifier::external_type_specification]
#[verifier::external_body]
pub struct ExJsonError(serde_json::Error);

/// Relies on serde_json::to_string: a string serializes into an in-memory
/// buffer, which cannot fail, as the quoted literal with the escapes of
/// `escaped_char`.
#[verifier::external_body]
fn encode_json_string(s: &str) -> (r: Result<String, serde_json::Error>)
    ensures
        r is Ok,
        r->Ok_0@ == json_string_literal(s@),
{
    serde_json::to_string(s)
}

/// Wraps an already encoded JSON string literal into the uniform error body.
pub fn error_body_from_literal(literal: &str) -> (r: String)
    ensures
        r@ == error_body_of(literal@),
{
    let mut body = String::from_str("{\"error\":");
    body.append(literal);
    body.append("}");
    body
}

impl ApiError {
    /// The HTTP status code of this failure.
    pub fn status_code(&self) -> (r: u16)
        ensures
            r == status_of(*self),
    {
        match self {
            ApiError::NotFound(_) => 404,
            ApiError::BadRequest(_) => 400,
            ApiError::Database(_) => 500,
            ApiError::Config(_) => 500,
            ApiError::Internal => 500,
        }
    }

    /// The message shown to the caller.
    pub fn message(&self) -> (r: String)
        ensures
            r@ == message_of(*self),
    {
        match self {
            ApiError::NotFound(pair) => {
                let mut m = String::from_str("Prediction not found for pair: ");
                m.append(pair.as_str());
                m
            },
            ApiError::Database(_) => String::from_str("Database error"),
            ApiError::BadRequest(msg) => msg.clone(),
            ApiError::Config(_) => String::from_str("Configuration error"),
            ApiError::Internal => String::from_str("Internal server error"),
        }
    }

    /// The JSON response body `{"error":"<message>"}`.
    pub fn error_body(&self) -> (r: String)
        ensures
            r@ == error_body_of(json_string_literal(message_of(*self))),
    {
        let m = self.message();
        match encode_json_string(m.as_str()) {
            Ok(literal) => error_body_from_literal(literal.as_str()),
            Err(_) => unreached(),
        }
    }
}

} // verus!
