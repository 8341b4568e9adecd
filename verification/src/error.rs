//! The errors that an exchange with an endpoint can end in.

use vstd::prelude::*;
use vstd::std_specs::convert::FromSpec;
use vstd::std_specs::convert::FromSpecImpl;

verus! {

/// A failure below HTTP: no connection, a timeout, a broken body stream.
#[derive(Debug)]
pub struct TransportError {
    /// What the transport said of the failure.
    pub message: String,
}

/// How a call to an endpoint fails.
#[derive(Debug)]
pub enum ApiError {
    /// The call could not be completed; the text says why.
    Error(String),
    /// The request never got an answer.
    RequestError(TransportError),
}

impl ApiError {
    /// The text that the error carries: its own, or that of the transport failure.
    pub open spec fn text(self) -> Seq<char> {
        match self {
            ApiError::Error(message) => message@,
            ApiError::RequestError(cause) => cause.message@,
        }
    }

    /// The text that the error carries.
    pub fn message(&self) -> (text: String)
        ensures
            text@ == self.text(),
    {
        match self {
            ApiError::Error(message) => message.clone(),
            ApiError::RequestError(cause) => cause.message.clone(),
        }
    }
}

impl From<TransportError> for ApiError {
    /// Folds a transport failure into the general error, keeping its text.
    fn from(value: TransportError) -> (error: ApiError) {
        ApiError::Error(value.message)
    }
}

impl FromSpecImpl<TransportError> for ApiError {
    open spec fn obeys_from_spec() -> bool {
        true
    }

    open spec fn from_spec(value: TransportError) -> ApiError {
        ApiError::Error(value.message)
    }
}

/// Folding a transport failure into the general error changes the variant and
/// nothing of the text.
pub proof fn lemma_from_keeps_text(cause: TransportError)
    ensures
        <ApiError as FromSpec<TransportError>>::from_spec(cause) is Error,
        <ApiError as FromSpec<TransportError>>::from_spec(cause).text() == cause.message@,
        <ApiError as FromSpec<TransportError>>::from_spec(cause).text()
            == ApiError::RequestError(cause).text(),
{
}

} // verus!
