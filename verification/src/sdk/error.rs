//! The failures of the client.
use crate::text::{nat_text, nat_to_text};
use vstd::prelude::*;

verus! {

/// A failure that the API reported.
#[derive(Debug)]
pub struct ApiError {
    /// The HTTP status of the response; 0 where none is known.
    pub status: u16,
    pub message: String,
    pub uuid: String,
}

/// The mathematical value of an [`ApiError`].
pub struct ApiErrorView {
    pub status: u16,
    pub message: Seq<char>,
    pub uuid: Seq<char>,
}

impl View for ApiError {
    type V = ApiErrorView;

    open spec fn view(&self) -> ApiErrorView {
        ApiErrorView { status: self.status, message: self.message@, uuid: self.uuid@ }
    }
}

impl Default for ApiError {
    fn default() -> (r: ApiError)
        ensures
            r@ == (ApiErrorView { status: 0, message: Seq::empty(), uuid: Seq::empty() }),
    {
        ApiError { status: 0, message: String::new(), uuid: String::new() }
    }
}

/// How a failure of the API reads: message and identifier, after the status
/// where one is known.
pub open spec fn api_error_text(e: ApiErrorView) -> Seq<char> {
    if e.status == 0 {
        "message: "@ + e.message + ", uuid: "@ + e.uuid
    } else {
        "status: "@ + nat_text(e.status as nat) + ", message: "@ + e.message + ", uuid: "@ + e.uuid
    }
}

impl ApiError {
    /// A failure with a status and a message, and no identifier.
    pub fn new(status: u16, message: &str) -> (r: ApiError)
        ensures
            r@ == (ApiErrorView { status: status, message: message@, uuid: Seq::empty() }),
    {
        ApiError { status, message: message.to_owned(), uuid: String::new() }
    }

    /// How this failure reads.
    pub fn describe(&self) -> (r: String)
        ensures
            r@ == api_error_text(self@),
    {
        let mut out = String::new();
        if self.status != 0 {
            out.append("status: ");
            out.append(nat_to_text(self.status as u64).as_str());
            out.append(", ");
        }
        out.append("message: ");
        out.append(self.message.as_str());
        out.append(", uuid: ");
        out.append(self.uuid.as_str());
        proof {
            reveal_strlit("status: ");
            reveal_strlit(", ");
            reveal_strlit("message: ");
            reveal_strlit(", message: ");
            assert(out@ =~= api_error_text(self@));
        }
        out
    }
}

/// A text between double quotes, with the characters that cannot stand there
/// written as escapes.
pub uninterp spec fn quoted_text(s: Seq<char>) -> Seq<char>;

/// Formats a text with `str`'s `Debug` implementation. Trusted: what comes
/// out depends on the text alone.
#[verifier::external_body]
fn quoted(s: &str) -> (r: String)
    ensures
        r@ == quoted_text(s@),
{
    format!("{:?}", s)
}

/// A failure of the client.
#[derive(Debug)]
pub enum Error {
    ApiError(ApiError),
    IoError(String),
    ReqwestError(String),
    InvalidMethod(String),
    JWTError(String),
    JsonError(String),
    Custom(String),
}

/// The mathematical value of an [`Error`].
pub enum ErrorView {
    ApiError(ApiErrorView),
    IoError(Seq<char>),
    ReqwestError(Seq<char>),
    InvalidMethod(Seq<char>),
    JWTError(Seq<char>),
    JsonError(Seq<char>),
    Custom(Seq<char>),
}

impl View for Error {
    type V = ErrorView;

    open spec fn view(&self) -> ErrorView {
        match self {
            Error::ApiError(e) => ErrorView::ApiError(e@),
            Error::IoError(s) => ErrorView::IoError(s@),
            Error::ReqwestError(s) => ErrorView::ReqwestError(s@),
            Error::InvalidMethod(s) => ErrorView::InvalidMethod(s@),
            Error::JWTError(s) => ErrorView::JWTError(s@),
            Error::JsonError(s) => ErrorView::JsonError(s@),
            Error::Custom(s) => ErrorView::Custom(s@),
        }
    }
}

/// How a failure of the client reads: what kind it is, then the failure of
/// the API, or the quoted text of any other.
pub open spec fn error_text(e: ErrorView) -> Seq<char> {
    match e {
        ErrorView::ApiError(a) => "API Error: "@ + api_error_text(a),
        ErrorView::IoError(s) => "IO Error: "@ + quoted_text(s),
        ErrorView::ReqwestError(s) => "reqwest Error: "@ + quoted_text(s),
        ErrorView::InvalidMethod(s) => "invalid method: "@ + quoted_text(s),
        ErrorView::JWTError(s) => "jwt error: "@ + quoted_text(s),
        ErrorView::JsonError(s) => "json error: "@ + quoted_text(s),
        ErrorView::Custom(s) => "custom error: "@ + quoted_text(s),
    }
}

impl Error {
    /// How this failure reads.
    pub fn describe(&self) -> (r: String)
        ensures
            r@ == error_text(self@),
    {
        match self {
            Error::ApiError(a) => {
                let mut out = "API Error: ".to_owned();
                out.append(a.describe().as_str());
                out
            },
            Error::IoError(s) => Error::labelled("IO Error: ", s),
            Error::ReqwestError(s) => Error::labelled("reqwest Error: ", s),
            Error::InvalidMethod(s) => Error::labelled("invalid method: ", s),
            Error::JWTError(s) => Error::labelled("jwt error: ", s),
            Error::JsonError(s) => Error::labelled("json error: ", s),
            Error::Custom(s) => Error::labelled("custom error: ", s),
        }
    }

    fn labelled(label: &str, text: &String) -> (r: String)
        ensures
            r@ == label@ + quoted_text(text@),
    {
        let mut out = label.to_owned();
        out.append(quoted(text.as_str()).as_str());
        out
    }
}

impl From<String> for Error {
    fn from(s: String) -> (r: Error) {
        Error::Custom(s)
    }
}

impl vstd::std_specs::convert::FromSpecImpl<String> for Error {
    open spec fn obeys_from_spec() -> bool {
        true
    }

    open spec fn from_spec(s: String) -> Error {
        Error::Custom(s)
    }
}

impl From<ApiError> for Error {
    fn from(e: ApiError) -> (r: Error) {
        Error::ApiError(e)
    }
}

impl vstd::std_specs::convert::FromSpecImpl<ApiError> for Error {
    open spec fn obeys_from_spec() -> bool {
        true
    }

    open spec fn from_spec(e: ApiError) -> Error {
        Error::ApiError(e)
    }
}

/// Whether a response of this status reports a failure of the API: one above
/// 400 does.
pub open spec fn is_failure(status: u16) -> bool {
    status > 400
}

/// Whether a response of this status reports a failure of the API.
pub fn fails(status: u16) -> (r: bool)
    ensures
        r == is_failure(status),
{
    status > 400
}

/// What a response means for the caller: one that reports a failure becomes
/// a failure of the API, which carries the status and what the body reported;
/// any other is none.
pub fn check_response(status: u16, reported: ApiError) -> (r: Result<(), Error>)
    ensures
        !is_failure(status) ==> r is Ok,
        is_failure(status) ==> r is Err && r->Err_0@ == ErrorView::ApiError(
            ApiErrorView { status: status, message: reported.message@, uuid: reported.uuid@ },
        ),
{
    if fails(status) {
        let mut e = reported;
        e.status = status;
        Err(Error::ApiError(e))
    } else {
        Ok(())
    }
}

} // verus!
