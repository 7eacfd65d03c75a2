//! Remote power control of physical machines.
//!
//! Every backend (an in-memory debug toggle, an IPMI chassis controller, a
//! Wake-on-LAN target) answers the same three operations. The library decides
//! what has to go over the network and what a reply means; it performs no
//! network traffic itself. A caller carries out each [`drivers::traits::Exchange`]
//! a backend asks for and hands the [`drivers::traits::Outcome`] back. The
//! [`registry::Registry`] holds the backends by name; [`startup`] fills it
//! from the configuration.

use vstd::prelude::*;

pub mod cmd;
pub mod drivers;
pub mod registry;
pub mod startup;

verus! {

/// A failure of a request, as reported to the serving layer.
#[derive(Debug, Clone, PartialEq, Eq)]
pub enum Error {
    /// An I/O failure, with its description.
    Io(String),
    /// The request was malformed.
    BadRequest(String),
    /// The login session is missing or broken.
    SessionError,
    /// The caller presented no usable credential.
    Unauthorized(String),
    /// The caller is known but may not do this.
    Forbidden(String),
    /// The named backend is not registered.
    NotFound(String),
    /// The backend has no way to perform the operation.
    NotImplemented(),
    /// A handshake, a transport exchange or a reply went wrong; the text
    /// carries the underlying cause.
    InternalServerError(String),
}

/// The mathematical value of an [`Error`]: its variant and its text.
pub enum ErrorView {
    Io(Seq<char>),
    BadRequest(Seq<char>),
    SessionError,
    Unauthorized(Seq<char>),
    Forbidden(Seq<char>),
    NotFound(Seq<char>),
    NotImplemented,
    InternalServerError(Seq<char>),
}

impl View for Error {
    type V = ErrorView;

    open spec fn view(&self) -> ErrorView {
        match self {
            Error::Io(s) => ErrorView::Io(s@),
            Error::BadRequest(s) => ErrorView::BadRequest(s@),
            Error::SessionError => ErrorView::SessionError,
            Error::Unauthorized(s) => ErrorView::Unauthorized(s@),
            Error::Forbidden(s) => ErrorView::Forbidden(s@),
            Error::NotFound(s) => ErrorView::NotFound(s@),
            Error::NotImplemented() => ErrorView::NotImplemented,
            Error::InternalServerError(s) => ErrorView::InternalServerError(s@),
        }
    }
}

impl ErrorView {
    /// The HTTP status class an error is reported under.
    pub open spec fn status_code(self) -> int {
        match self {
            ErrorView::BadRequest(_) => 400,
            ErrorView::Unauthorized(_) | ErrorView::SessionError => 401,
            ErrorView::Forbidden(_) => 403,
            ErrorView::NotFound(_) => 404,
            ErrorView::Io(_) | ErrorView::NotImplemented | ErrorView::InternalServerError(_) => 500,
        }
    }

    /// The text an error is shown as.
    pub open spec fn message(self) -> Seq<char> {
        match self {
            ErrorView::Io(s) => "I/O error: "@ + s,
            ErrorView::BadRequest(s) => s,
            ErrorView::SessionError => "session error"@,
            ErrorView::Unauthorized(s) => "unauthorized: "@ + s,
            ErrorView::Forbidden(s) => "forbidden: "@ + s,
            ErrorView::NotFound(s) => "not found: "@ + s,
            ErrorView::NotImplemented => "not implemented"@,
            ErrorView::InternalServerError(s) => s,
        }
    }
}

impl Error {
    /// The HTTP status code the error is answered with.
    pub fn status_code(&self) -> (code: u16)
        ensures
            code == self@.status_code(),
    {
        match self {
            Error::BadRequest(_) => 400,
            Error::Unauthorized(_) | Error::SessionError => 401,
            Error::Forbidden(_) => 403,
            Error::NotFound(_) => 404,
            Error::Io(_) | Error::NotImplemented() | Error::InternalServerError(_) => 500,
        }
    }

    /// The text the error is shown as.
    pub fn message(&self) -> (text: String)
        ensures
            text@ == self@.message(),
    {
        match self {
            Error::Io(s) => String::from_str("I/O error: ").concat(s.as_str()),
            Error::BadRequest(s) => s.clone(),
            Error::SessionError => String::from_str("session error"),
            Error::Unauthorized(s) => String::from_str("unauthorized: ").concat(s.as_str()),
            Error::Forbidden(s) => String::from_str("forbidden: ").concat(s.as_str()),
            Error::NotFound(s) => String::from_str("not found: ").concat(s.as_str()),
            Error::NotImplemented() => String::from_str("not implemented"),
            Error::InternalServerError(s) => s.clone(),
        }
    }
}

} // verus!
