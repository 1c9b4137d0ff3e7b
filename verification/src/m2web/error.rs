//! The errors that a call to the M2Web API can end in.

use crate::m2web::json::{Category, DecodeError, DecodeErrorView};
use crate::m2web::text::{decimal, decimal_digits};
use vstd::prelude::*;

verus! {

/// An error, with the HTTP status code that goes with it.
#[derive(Debug, PartialEq)]
pub struct Error {
    /// HTTP status code returned by the M2Web API, or 500 where the error was
    /// raised on this side.
    pub code: u16,
    /// The kind of error, with its message.
    pub kind: ErrorKind,
}

/// All kinds of error that can occur.
#[derive(Debug, PartialEq)]
pub enum ErrorKind {
    /// One of the authentication parameters is wrong, or no session is open.
    InvalidCredentials(String),
    /// A session was asked for on a client that authenticates statelessly.
    StatelessAuthSet(String),
    /// The API returned no eWON at all.
    NoContent(String),
    /// The API missed a parameter in the request, or found a wrong one.
    MissingParameter(String),
    /// The API has nothing for the request.
    EmptyResponse(String),
    /// The response of the API could not be decoded.
    ResponseParsing(String),
    /// A request was asked for without an endpoint.
    InternalError(String),
    /// Anything else.
    UnknownError(String),
}

/// The mathematical value of an [`ErrorKind`].
pub enum ErrorKindView {
    InvalidCredentials(Seq<char>),
    StatelessAuthSet(Seq<char>),
    NoContent(Seq<char>),
    MissingParameter(Seq<char>),
    EmptyResponse(Seq<char>),
    ResponseParsing(Seq<char>),
    InternalError(Seq<char>),
    UnknownError(Seq<char>),
}

/// The mathematical value of an [`Error`].
pub struct ErrorView {
    pub code: u16,
    pub kind: ErrorKindView,
}

impl View for ErrorKind {
    type V = ErrorKindView;

    open spec fn view(&self) -> ErrorKindView {
        match self {
            ErrorKind::InvalidCredentials(message) => ErrorKindView::InvalidCredentials(message@),
            ErrorKind::StatelessAuthSet(message) => ErrorKindView::StatelessAuthSet(message@),
            ErrorKind::NoContent(message) => ErrorKindView::NoContent(message@),
            ErrorKind::MissingParameter(message) => ErrorKindView::MissingParameter(message@),
            ErrorKind::EmptyResponse(message) => ErrorKindView::EmptyResponse(message@),
            ErrorKind::ResponseParsing(message) => ErrorKindView::ResponseParsing(message@),
            ErrorKind::InternalError(message) => ErrorKindView::InternalError(message@),
            ErrorKind::UnknownError(message) => ErrorKindView::UnknownError(message@),
        }
    }
}

impl View for Error {
    type V = ErrorView;

    open spec fn view(&self) -> ErrorView {
        ErrorView { code: self.code, kind: self.kind@ }
    }
}

impl ErrorKindView {
    /// The message that the kind carries.
    pub open spec fn message(self) -> Seq<char> {
        match self {
            ErrorKindView::InvalidCredentials(message) => message,
            ErrorKindView::StatelessAuthSet(message) => message,
            ErrorKindView::NoContent(message) => message,
            ErrorKindView::MissingParameter(message) => message,
            ErrorKindView::EmptyResponse(message) => message,
            ErrorKindView::ResponseParsing(message) => message,
            ErrorKindView::InternalError(message) => message,
            ErrorKindView::UnknownError(message) => message,
        }
    }

    /// Tells whether the error is shown with its HTTP status code.
    pub open spec fn shows_code(self) -> bool {
        self is InvalidCredentials || self is NoContent || self is MissingParameter
            || self is EmptyResponse
    }

    /// The words that introduce the message of an error shown without its code.
    pub open spec fn heading(self) -> Seq<char> {
        match self {
            ErrorKindView::StatelessAuthSet(_) => "Client set to authenticate statelessly: "@,
            ErrorKindView::ResponseParsing(_) => "Unable to parse JSON response: "@,
            ErrorKindView::InternalError(_) => "Internal error: "@,
            _ => "Unknown error: "@,
        }
    }
}

impl ErrorView {
    /// The line that shows the error to a reader: the status code and the message
    /// for what the API answered, a heading and the message for the rest.
    pub open spec fn display(self) -> Seq<char> {
        if self.kind.shows_code() {
            "HTTP "@ + decimal_digits(self.code as nat) + ": "@ + self.kind.message()
        } else {
            self.kind.heading() + self.kind.message()
        }
    }
}

impl ErrorKind {
    /// The message that the kind carries.
    pub fn message(&self) -> (message: &str)
        ensures
            message@ == self@.message(),
    {
        match self {
            ErrorKind::InvalidCredentials(message) => message.as_str(),
            ErrorKind::StatelessAuthSet(message) => message.as_str(),
            ErrorKind::NoContent(message) => message.as_str(),
            ErrorKind::MissingParameter(message) => message.as_str(),
            ErrorKind::EmptyResponse(message) => message.as_str(),
            ErrorKind::ResponseParsing(message) => message.as_str(),
            ErrorKind::InternalError(message) => message.as_str(),
            ErrorKind::UnknownError(message) => message.as_str(),
        }
    }
}

impl Error {
    /// Shows the error in one line.
    pub fn to_string(&self) -> (line: String)
        ensures
            line@ == self@.display(),
    {
        let message = self.kind.message();
        match &self.kind {
            ErrorKind::InvalidCredentials(_)
            | ErrorKind::NoContent(_)
            | ErrorKind::MissingParameter(_)
            | ErrorKind::EmptyResponse(_) => {
                let mut line = "HTTP ".to_owned();
                line.append(decimal(self.code as u32).as_str());
                line.append(": ");
                line.append(message);
                line
            },
            ErrorKind::StatelessAuthSet(_) => "Client set to authenticate statelessly: ".to_owned().concat(
                message,
            ),
            ErrorKind::ResponseParsing(_) => "Unable to parse JSON response: ".to_owned().concat(
                message,
            ),
            ErrorKind::InternalError(_) => "Internal error: ".to_owned().concat(message),
            ErrorKind::UnknownError(_) => "Unknown error: ".to_owned().concat(message),
        }
    }
}

/// A request that got no HTTP response: what the transport says of it.
#[derive(Debug, PartialEq)]
pub struct TransportError {
    /// The HTTP status code that the transport ties to the failure, if any.
    pub status: Option<u16>,
    /// The transport's own words for the failure.
    pub detail: String,
}

/// The mathematical value of a [`TransportError`].
pub struct TransportErrorView {
    pub status: Option<u16>,
    pub detail: Seq<char>,
}

impl View for TransportError {
    type V = TransportErrorView;

    open spec fn view(&self) -> TransportErrorView {
        TransportErrorView { status: self.status, detail: self.detail@ }
    }
}

/// The status code that goes with a list of eWONs that holds none.
pub const NO_CONTENT: u16 = 204;

/// The status code of a request that misses a parameter, or holds a wrong one.
pub const BAD_REQUEST: u16 = 400;

/// The status code of a request that the API refuses for its credentials.
pub const FORBIDDEN: u16 = 403;

/// The status code of a request for what the API does not have.
pub const GONE: u16 = 410;

/// The status code of every error that the API did not give a code of its own.
pub const INTERNAL: u16 = 500;

/// The error that a failed transport stands for: wrong credentials where the
/// transport reports a 403, an unknown error otherwise.
pub open spec fn transport_failure(failure: TransportErrorView) -> ErrorView {
    if failure.status == Some(FORBIDDEN) {
        ErrorView { code: FORBIDDEN, kind: ErrorKindView::InvalidCredentials(failure.detail) }
    } else {
        ErrorView {
            code: INTERNAL,
            kind: ErrorKindView::UnknownError(
                "Unknown error while requesting API: "@ + failure.detail,
            ),
        }
    }
}

/// The words that introduce a decoding failure of each category.
pub open spec fn decode_heading(category: Category) -> Seq<char> {
    match category {
        Category::Syntax => "JSON response syntax error: "@,
        Category::Data => "JSON response data format does not match the expected one: "@,
        Category::Eof => "An empty or incomplete response were received: "@,
        Category::Io => "Unknown error while parsing JSON response: "@,
    }
}

/// The error that a response which cannot be decoded stands for.
pub open spec fn decode_failure(failure: DecodeErrorView) -> ErrorView {
    ErrorView {
        code: INTERNAL,
        kind: ErrorKindView::ResponseParsing(decode_heading(failure.category) + failure.detail),
    }
}

/// Allow to transform the failure of a transport into an [`Error`].
impl From<TransportError> for Error {
    fn from(failure: TransportError) -> (error: Error)
        ensures
            error@ == transport_failure(failure@),
    {
        match failure.status {
            Some(FORBIDDEN) => Error {
                code: FORBIDDEN,
                kind: ErrorKind::InvalidCredentials(failure.detail),
            },
            _ => Error {
                code: INTERNAL,
                kind: ErrorKind::UnknownError(
                    "Unknown error while requesting API: ".to_owned().concat(
                        failure.detail.as_str(),
                    ),
                ),
            },
        }
    }
}

/// A `String` is known by its characters only, so no specification function can
/// build the exact error: what `from` returns is stated on `from` itself, over
/// the views.
impl vstd::std_specs::convert::FromSpecImpl<TransportError> for Error {
    open spec fn obeys_from_spec() -> bool {
        false
    }

    open spec fn from_spec(failure: TransportError) -> Error {
        arbitrary()
    }
}

/// As for [`TransportError`]: what `from` returns is stated on `from` itself.
impl vstd::std_specs::convert::FromSpecImpl<DecodeError> for Error {
    open spec fn obeys_from_spec() -> bool {
        false
    }

    open spec fn from_spec(failure: DecodeError) -> Error {
        arbitrary()
    }
}

/// Allow to transform the failure of a decoder into an [`Error`].
impl From<DecodeError> for Error {
    fn from(failure: DecodeError) -> (error: Error)
        ensures
            error@ == decode_failure(failure@),
    {
        let heading = match failure.category {
            Category::Syntax => "JSON response syntax error: ",
            Category::Data => "JSON response data format does not match the expected one: ",
            Category::Eof => "An empty or incomplete response were received: ",
            Category::Io => "Unknown error while parsing JSON response: ",
        };
        Error {
            code: INTERNAL,
            kind: ErrorKind::ResponseParsing(heading.to_owned().concat(failure.detail.as_str())),
        }
    }
}

} // verus!
