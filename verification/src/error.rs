//! The failures that the clients and the loop tell apart.

use vstd::prelude::*;
use vstd::string::*;

verus! {

/// Why a call or a turn did not yield its result.
#[derive(Clone, Debug, PartialEq, Eq)]
pub enum Error {
    /// A required setting is absent. Carries the setting's name.
    ConfigurationError(String),
    /// The endpoint rejected the credential.
    AuthFailure,
    /// The request did not complete at the network level. Carries the
    /// transport's description.
    TransportFailure(String),
    /// The reply's body does not have the expected shape. Carries the
    /// parser's complaint and the body as it was received.
    MalformedResponse { detail: String, raw: String },
    /// The chat reply was well formed and held no choice.
    EmptyResult,
    /// The catalog matched nothing. Carries the query that was searched.
    NoResults(String),
    /// The input source failed. Carries its description.
    InputFailure(String),
}

/// The model of an [`Error`]: the same variants over character sequences.
pub enum ErrorView {
    ConfigurationError(Seq<char>),
    AuthFailure,
    TransportFailure(Seq<char>),
    MalformedResponse { detail: Seq<char>, raw: Seq<char> },
    EmptyResult,
    NoResults(Seq<char>),
    InputFailure(Seq<char>),
}

impl View for Error {
    type V = ErrorView;

    open spec fn view(&self) -> ErrorView {
        match self {
            Error::ConfigurationError(name) => ErrorView::ConfigurationError(name@),
            Error::AuthFailure => ErrorView::AuthFailure,
            Error::TransportFailure(detail) => ErrorView::TransportFailure(detail@),
            Error::MalformedResponse { detail, raw } => ErrorView::MalformedResponse {
                detail: detail@,
                raw: raw@,
            },
            Error::EmptyResult => ErrorView::EmptyResult,
            Error::NoResults(query) => ErrorView::NoResults(query@),
            Error::InputFailure(detail) => ErrorView::InputFailure(detail@),
        }
    }
}

impl ErrorView {
    /// Every failure ends the loop but the catalog's "nothing matched".
    pub open spec fn is_fatal(self) -> bool {
        !(self is NoResults)
    }

    /// The diagnostic shown to the operator.
    pub open spec fn message(self) -> Seq<char> {
        match self {
            ErrorView::ConfigurationError(name) => "Missing configuration value: "@ + name,
            ErrorView::AuthFailure => "The credential was rejected"@,
            ErrorView::TransportFailure(detail) => "Transport failure: "@ + detail,
            ErrorView::MalformedResponse { detail, raw } => "JSON parse error: "@ + detail
                + "\nRaw response: "@ + raw,
            ErrorView::EmptyResult => "Empty Api Response"@,
            ErrorView::NoResults(query) => "No music found for: '"@ + query + "'"@,
            ErrorView::InputFailure(detail) => "Input failure: "@ + detail,
        }
    }
}

impl Error {
    /// Whether this failure ends the loop.
    pub fn is_fatal(&self) -> (fatal: bool)
        ensures
            fatal == self@.is_fatal(),
    {
        match self {
            Error::NoResults(_) => false,
            _ => true,
        }
    }

    /// The diagnostic shown to the operator.
    pub fn message(&self) -> (text: String)
        ensures
            text@ == self@.message(),
    {
        match self {
            Error::ConfigurationError(name) => String::from_str(
                "Missing configuration value: ",
            ).concat(name.as_str()),
            Error::AuthFailure => String::from_str("The credential was rejected"),
            Error::TransportFailure(detail) => String::from_str("Transport failure: ").concat(
                detail.as_str(),
            ),
            Error::MalformedResponse { detail, raw } => String::from_str(
                "JSON parse error: ",
            ).concat(detail.as_str()).concat("\nRaw response: ").concat(raw.as_str()),
            Error::EmptyResult => String::from_str("Empty Api Response"),
            Error::NoResults(query) => String::from_str("No music found for: '").concat(
                query.as_str(),
            ).concat("'"),
            Error::InputFailure(detail) => String::from_str("Input failure: ").concat(
                detail.as_str(),
            ),
        }
    }
}

/// The model of a text that may have failed to arrive.
pub open spec fn text_outcome(r: Result<String, Error>) -> Result<Seq<char>, ErrorView> {
    match r {
        Ok(text) => Ok(text@),
        Err(failure) => Err(failure@),
    }
}

} // verus!
