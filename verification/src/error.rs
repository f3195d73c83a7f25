//! The ways in which handling an interaction can fail.

use vstd::prelude::*;

verus! {

/// Why a command could not answer.
#[derive(Clone, Debug, PartialEq, Eq)]
pub enum InteractionError {
    /// The interaction carries nothing a command could work on.
    GenericError(),
    /// No command goes by the name that the interaction asks for.
    UnknownCommand(String),
}

/// Why an interaction as a whole failed.
#[derive(Clone, Debug, PartialEq, Eq)]
pub enum Error {
    /// The payload lacks a part or asks for what is not offered.
    InvalidPayload(String),
    /// The command that was called failed.
    InteractionFailed(InteractionError),
}

/// Why a currency request failed. Either failure ends the request: nothing
/// partial is rendered and nothing is retried.
#[derive(Clone, Copy, Debug, PartialEq, Eq, Structural)]
pub enum ExchangeError {
    /// A write to the key-value store did not go through.
    StoreUnavailable,
    /// The rate service could not be reached, answered with a failure, or
    /// left out what was asked for.
    UpstreamFailure,
}

/// What an `InteractionError` holds, as mathematical values.
pub enum InteractionErrorView {
    GenericError,
    UnknownCommand(Seq<char>),
}

/// What an `Error` holds, as mathematical values.
pub enum ErrorView {
    InvalidPayload(Seq<char>),
    InteractionFailed(InteractionErrorView),
}

impl View for InteractionError {
    type V = InteractionErrorView;

    open spec fn view(&self) -> InteractionErrorView {
        match self {
            InteractionError::GenericError() => InteractionErrorView::GenericError,
            InteractionError::UnknownCommand(name) => InteractionErrorView::UnknownCommand(name@),
        }
    }
}

impl View for Error {
    type V = ErrorView;

    open spec fn view(&self) -> ErrorView {
        match self {
            Error::InvalidPayload(reason) => ErrorView::InvalidPayload(reason@),
            Error::InteractionFailed(inner) => ErrorView::InteractionFailed(inner@),
        }
    }
}

impl ExchangeError {
    /// A sentence that names the failure.
    pub fn message(&self) -> (text: String)
        ensures
            text@ == (match self {
                ExchangeError::StoreUnavailable => "the key-value store is unavailable"@,
                ExchangeError::UpstreamFailure => "the exchange rate service failed"@,
            }),
    {
        match self {
            ExchangeError::StoreUnavailable => "the key-value store is unavailable".to_owned(),
            ExchangeError::UpstreamFailure => "the exchange rate service failed".to_owned(),
        }
    }
}

} // verus!
