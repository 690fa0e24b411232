//! The error that the API returns in place of a result.

use crate::json::{get_field, lookup, Fields, JsonField, JsonFieldView};
use reqwest::StatusCode;
use vstd::prelude::*;
use vstd::string::*;

verus! {

/// `reqwest::StatusCode`, carried through unread.
#[verifier::external_type_specification]
#[verifier::external_body]
pub struct ExStatusCode(StatusCode);

/// A result whose error is the API's [`Error`].
pub type Result<T, E = Error> = std::result::Result<T, E>;

/// Whether `n` is a status code that [`StatusCode`] can hold.
pub open spec fn valid_status(n: u16) -> bool {
    100 <= n <= 999
}

/// The decimal digit of `d`, for `d < 10`.
pub open spec fn digit(d: nat) -> char {
    seq!['0', '1', '2', '3', '4', '5', '6', '7', '8', '9'][d as int]
}

/// The decimal representation of `n`, without leading zeros.
pub open spec fn decimal(n: nat) -> Seq<char>
    decreases n,
{
    if n < 10 {
        seq![digit(n)]
    } else {
        decimal(n / 10) + seq![digit(n % 10)]
    }
}

/// How a valid status code displays: its number and its canonical reason.
pub uninterp spec fn status_display_of(n: u16) -> Seq<char>;

/// How a string displays for debugging: quoted, with special characters escaped.
pub uninterp spec fn debug_quoted_of(s: Seq<char>) -> Seq<char>;

/// Relies on `StatusCode::from_u16`: it accepts exactly the codes from 100 to 999.
#[verifier::external_body]
fn status_code_of(n: u16) -> (r: Option<StatusCode>)
    ensures
        r is Some <==> valid_status(n),
{
    StatusCode::from_u16(n).ok()
}

/// Relies on the `Display` of `StatusCode`, for a code that `StatusCode::from_u16` accepts.
#[verifier::external_body]
fn status_display(n: u16) -> (r: String)
    requires
        valid_status(n),
    ensures
        r@ == status_display_of(n),
{
    match StatusCode::from_u16(n) {
        Ok(code) => code.to_string(),
        Err(_) => String::new(),
    }
}

/// Relies on the `Display` of `u16`: its decimal digits.
#[verifier::external_body]
fn decimal_string(n: u16) -> (r: String)
    ensures
        r@ == decimal(n as nat),
{
    n.to_string()
}

/// Relies on the `Debug` of `str`.
#[verifier::external_body]
fn debug_quoted(s: &str) -> (r: String)
    ensures
        r@ == debug_quoted_of(s@),
{
    format!("{:?}", s)
}

/// An error returned by the API: a non-zero HTTP status and a message.
#[derive(Debug, Eq, PartialEq)]
pub struct Error {
    status: u16,
    error: String,
}

/// The mathematical value of an [`Error`].
pub struct ErrorView {
    pub status: u16,
    pub message: Seq<char>,
}

impl View for Error {
    type V = ErrorView;

    closed spec fn view(&self) -> ErrorView {
        ErrorView { status: self.status, message: self.error@ }
    }
}

/// The error that the fields of an object describe: a `status` that is a non-zero integer below
/// 65536 and an `error` that is a string. Other fields are ignored.
pub open spec fn api_error_of(fields: Seq<(Seq<char>, JsonFieldView)>) -> Option<ErrorView> {
    match (lookup(fields, "status"@), lookup(fields, "error"@)) {
        (Some(JsonFieldView::UInt(n)), Some(JsonFieldView::Str(m))) => {
            if 1 <= n <= u16::MAX {
                Some(ErrorView { status: n as u16, message: m })
            } else {
                None
            }
        },
        _ => None,
    }
}

/// How an error displays: its status code and reason, then its message.
pub open spec fn error_display(e: ErrorView) -> Seq<char> {
    if valid_status(e.status) {
        status_display_of(e.status) + ", "@ + e.message
    } else {
        decimal(e.status as nat) + ", "@ + e.message
    }
}

/// How an error displays for debugging.
pub open spec fn error_debug(e: ErrorView) -> Seq<char> {
    "Error { status_code: "@ + decimal(e.status as nat) + ", error: "@ + debug_quoted_of(e.message)
        + " }"@
}

impl Clone for Error {
    fn clone(&self) -> (r: Self)
        ensures
            r@ == self@,
    {
        proof {
            use_type_invariant(self);
        }
        Error { status: self.status, error: self.error.clone() }
    }
}

impl Error {
    #[verifier::type_invariant]
    spec fn nonzero_status(self) -> bool {
        self.status != 0
    }

    /// An error with the given status and message; `None` when the status is zero.
    pub fn new(status: u16, message: String) -> (r: Option<Error>)
        ensures
            r is Some <==> status != 0,
            r matches Some(e) ==> e@ == (ErrorView { status, message: message@ }),
    {
        if status == 0 {
            None
        } else {
            Some(Error { status, error: message })
        }
    }

    /// Reads an error from the fields of a JSON object; `None` when they do not describe one.
    pub fn from_fields(fields: &Fields) -> (r: Option<Error>)
        ensures
            r is Some <==> api_error_of(crate::json::fields_view(fields@)) is Some,
            r matches Some(e) ==> api_error_of(crate::json::fields_view(fields@)) == Some(e@),
    {
        let status = match get_field(fields, "status") {
            Some(JsonField::UInt(n)) => *n,
            _ => return None,
        };
        let message = match get_field(fields, "error") {
            Some(JsonField::Str(m)) => m.clone(),
            _ => return None,
        };
        if status == 0 || status > u16::MAX as u64 {
            return None;
        }
        Some(Error { status: status as u16, error: message })
    }

    /// The HTTP status, as the API sent it.
    pub fn status(&self) -> (r: u16)
        ensures
            r == self@.status,
            r != 0,
    {
        proof {
            use_type_invariant(self);
        }
        self.status
    }

    /// The HTTP status code of this error; `None` when the status is not a valid status code.
    pub fn status_code(&self) -> (r: Option<StatusCode>)
        ensures
            r is Some <==> valid_status(self@.status),
    {
        status_code_of(self.status)
    }

    /// The message of this error.
    pub fn message(&self) -> (r: &str)
        ensures
            r@ == self@.message,
    {
        self.error.as_str()
    }

    /// The status code with its reason, a comma, and the message, as in `400 Bad Request, Bad
    /// Request`.
    pub fn to_string(&self) -> (r: String)
        ensures
            r@ == error_display(self@),
    {
        let code = if status_code_of(self.status).is_some() {
            status_display(self.status)
        } else {
            decimal_string(self.status)
        };
        let r = code.concat(", ").concat(self.error.as_str());
        r
    }

    /// The error as a debug string: `Error { status_code: 400, error: "Bad Request" }`.
    pub fn debug_string(&self) -> (r: String)
        ensures
            r@ == error_debug(self@),
    {
        let quoted = debug_quoted(self.error.as_str());
        String::from_str("Error { status_code: ").concat(decimal_string(self.status).as_str()).concat(
            ", error: ",
        ).concat(quoted.as_str()).concat(" }")
    }
}

} // verus!
