//! The errors of the library.

use vstd::prelude::*;
use vstd::string::*;

verus! {

/// What can go wrong around a session. Each variant holds the text of the
/// failure that it stands for.
#[derive(Clone, Debug, PartialEq, Eq)]
pub enum ShellmindError {
    /// The settings could not be loaded or are not usable.
    Config(String),
    /// The request to the backend failed.
    Api(String),
    /// A document could not be read as JSON.
    Json(String),
    /// The remote procedure call was answered with an error status.
    Grpc(String),
    /// No channel to the remote endpoint could be had.
    GrpcTransport(String),
    /// The endpoint is no URI.
    InvalidUri(String),
    /// Anything else.
    Other(String),
}

/// The view of `ShellmindError`: the same value, with every text as its characters.
pub enum ErrorView {
    Config(Seq<char>),
    Api(Seq<char>),
    Json(Seq<char>),
    Grpc(Seq<char>),
    GrpcTransport(Seq<char>),
    InvalidUri(Seq<char>),
    Other(Seq<char>),
}

impl View for ShellmindError {
    type V = ErrorView;

    open spec fn view(&self) -> ErrorView {
        match self {
            ShellmindError::Config(t) => ErrorView::Config(t@),
            ShellmindError::Api(t) => ErrorView::Api(t@),
            ShellmindError::Json(t) => ErrorView::Json(t@),
            ShellmindError::Grpc(t) => ErrorView::Grpc(t@),
            ShellmindError::GrpcTransport(t) => ErrorView::GrpcTransport(t@),
            ShellmindError::InvalidUri(t) => ErrorView::InvalidUri(t@),
            ShellmindError::Other(t) => ErrorView::Other(t@),
        }
    }
}

/// The line that reports `error`.
pub open spec fn error_text(error: ErrorView) -> Seq<char> {
    match error {
        ErrorView::Config(t) => "Configuration error: "@ + t,
        ErrorView::Api(t) => "API error: "@ + t,
        ErrorView::Json(t) => "JSON parsing error: "@ + t,
        ErrorView::Grpc(t) => "gRPC error: "@ + t,
        ErrorView::GrpcTransport(t) => "gRPC transport error: "@ + t,
        ErrorView::InvalidUri(t) => "Invalid URI: "@ + t,
        ErrorView::Other(t) => "Other error: "@ + t,
    }
}

impl ShellmindError {
    /// The line that reports this error.
    pub fn message(&self) -> (r: String)
        ensures
            r@ == error_text(self@),
    {
        match self {
            ShellmindError::Config(t) => crate::text::concat2("Configuration error: ", t.as_str()),
            ShellmindError::Api(t) => crate::text::concat2("API error: ", t.as_str()),
            ShellmindError::Json(t) => crate::text::concat2("JSON parsing error: ", t.as_str()),
            ShellmindError::Grpc(t) => crate::text::concat2("gRPC error: ", t.as_str()),
            ShellmindError::GrpcTransport(t) => crate::text::concat2(
                "gRPC transport error: ",
                t.as_str(),
            ),
            ShellmindError::InvalidUri(t) => crate::text::concat2("Invalid URI: ", t.as_str()),
            ShellmindError::Other(t) => crate::text::concat2("Other error: ", t.as_str()),
        }
    }
}

} // verus!
