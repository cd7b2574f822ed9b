//! The failure a request can end in, with the status and the message that
//! are reported for it.

use vstd::prelude::*;
use vstd::string::*;

verus! {

/// A failure that is reported to the caller of an endpoint.
#[derive(Clone, Debug, PartialEq, Eq)]
pub enum ApiError {
    /// The server failed while it was running; holds the cause.
    AxumError(String),
    /// The listening socket could not be bound; holds the cause.
    TcpListenerError(String),
    /// A store or an upstream service failed.
    InternalError(String),
    /// The subscription or the account is not known.
    NotFound(String),
    /// The request is malformed or not authentic.
    BadRequest(String),
}

/// The mathematical value of an [`ApiError`].
pub enum ApiErrorView {
    AxumError(Seq<char>),
    TcpListenerError(Seq<char>),
    InternalError(Seq<char>),
    NotFound(Seq<char>),
    BadRequest(Seq<char>),
}

impl View for ApiError {
    type V = ApiErrorView;

    open spec fn view(&self) -> ApiErrorView {
        match self {
            ApiError::AxumError(m) => ApiErrorView::AxumError(m@),
            ApiError::TcpListenerError(m) => ApiErrorView::TcpListenerError(m@),
            ApiError::InternalError(m) => ApiErrorView::InternalError(m@),
            ApiError::NotFound(m) => ApiErrorView::NotFound(m@),
            ApiError::BadRequest(m) => ApiErrorView::BadRequest(m@),
        }
    }
}

impl DeepView for ApiError {
    type V = ApiErrorView;

    open spec fn deep_view(&self) -> ApiErrorView {
        self@
    }
}

impl ApiErrorView {
    /// The cause or the explanation that the failure carries.
    pub open spec fn detail(self) -> Seq<char> {
        match self {
            ApiErrorView::AxumError(m) => m,
            ApiErrorView::TcpListenerError(m) => m,
            ApiErrorView::InternalError(m) => m,
            ApiErrorView::NotFound(m) => m,
            ApiErrorView::BadRequest(m) => m,
        }
    }

    /// The HTTP status that answers a request which failed this way.
    pub open spec fn status(self) -> u16 {
        match self {
            ApiErrorView::AxumError(_) => 400,
            ApiErrorView::TcpListenerError(_) => 500,
            ApiErrorView::InternalError(_) => 500,
            ApiErrorView::NotFound(_) => 404,
            ApiErrorView::BadRequest(_) => 400,
        }
    }

    /// The words that precede the detail in the text of the failure.
    pub open spec fn label(self) -> Seq<char> {
        match self {
            ApiErrorView::AxumError(_) => "Axum server start error: "@,
            ApiErrorView::TcpListenerError(_) => "TCP listener bind error: "@,
            ApiErrorView::InternalError(_) => "Internal server error: "@,
            ApiErrorView::NotFound(_) => "Not found error: "@,
            ApiErrorView::BadRequest(_) => "Bad request error: "@,
        }
    }

    /// The words that precede the detail in the body of the response.
    pub open spec fn response_label(self) -> Seq<char> {
        match self {
            ApiErrorView::AxumError(_) => "Server error: "@,
            ApiErrorView::TcpListenerError(_) => "Server error: "@,
            ApiErrorView::InternalError(_) => "Internal server error: "@,
            ApiErrorView::NotFound(_) => "Not found error: "@,
            ApiErrorView::BadRequest(_) => "Bad request error: "@,
        }
    }
}

impl ApiError {
    /// The cause or the explanation that the failure carries.
    pub fn detail(&self) -> (m: &String)
        ensures
            m@ == self@.detail(),
    {
        match self {
            ApiError::AxumError(m) => m,
            ApiError::TcpListenerError(m) => m,
            ApiError::InternalError(m) => m,
            ApiError::NotFound(m) => m,
            ApiError::BadRequest(m) => m,
        }
    }

    /// The HTTP status that answers a request which failed this way.
    pub fn status_code(&self) -> (code: u16)
        ensures
            code == self@.status(),
    {
        match self {
            ApiError::AxumError(_) => 400,
            ApiError::TcpListenerError(_) => 500,
            ApiError::InternalError(_) => 500,
            ApiError::NotFound(_) => 404,
            ApiError::BadRequest(_) => 400,
        }
    }

    /// The text of the failure: its label, then its detail.
    pub fn message(&self) -> (text: String)
        ensures
            text@ == self@.label() + self@.detail(),
    {
        let label = match self {
            ApiError::AxumError(_) => "Axum server start error: ",
            ApiError::TcpListenerError(_) => "TCP listener bind error: ",
            ApiError::InternalError(_) => "Internal server error: ",
            ApiError::NotFound(_) => "Not found error: ",
            ApiError::BadRequest(_) => "Bad request error: ",
        };
        String::from_str(label).concat(self.detail().as_str())
    }

    /// The status and the body of the response that reports the failure.
    pub fn into_response(self) -> (response: (u16, String))
        ensures
            response.0 == self@.status(),
            response.1@ == self@.response_label() + self@.detail(),
    {
        let label = match &self {
            ApiError::AxumError(_) => "Server error: ",
            ApiError::TcpListenerError(_) => "Server error: ",
            ApiError::InternalError(_) => "Internal server error: ",
            ApiError::NotFound(_) => "Not found error: ",
            ApiError::BadRequest(_) => "Bad request error: ",
        };
        (self.status_code(), String::from_str(label).concat(self.detail().as_str()))
    }
}

} // verus!
