//! What can go wrong for a client of the service.
use vstd::prelude::*;
use vstd::std_specs::convert::FromSpecImpl;
use reqwest::Error as ReqwestError;

verus! {

#[verifier::external_type_specification]
#[verifier::external_body]
pub struct ExReqwestError(ReqwestError);

/// A failure of a call to the service.
#[derive(Debug)]
pub enum Error {
    /// The request could not be sent, or the reply could not be read.
    Reqwest(ReqwestError),
}

impl From<ReqwestError> for Error {
    fn from(error: ReqwestError) -> (wrapped: Error) {
        Error::Reqwest(error)
    }
}

impl FromSpecImpl<ReqwestError> for Error {
    open spec fn obeys_from_spec() -> bool {
        true
    }

    open spec fn from_spec(error: ReqwestError) -> Error {
        Error::Reqwest(error)
    }
}

} // verus!
