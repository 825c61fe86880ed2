//! The failures a step execution can end in.

use vstd::prelude::*;

verus! {

/// Why the execution of a step failed.
#[derive(Debug, PartialEq, Eq)]
pub enum StepError {
    /// No step is registered under the requested name.
    StepNotFound(String),
    /// The transport failed or ran into its deadline; the text is the transport's own report.
    ReqwestError(String),
    /// A response arrived, but its status code was not an accepted one. Holds the status
    /// received and the explicit list of accepted codes (empty when the request gave none).
    StatusCodeNotFound(i32, Vec<u16>),
}

/// Mathematical model of a [`StepError`].
pub enum StepErrorView {
    StepNotFound(Seq<char>),
    ReqwestError(Seq<char>),
    StatusCodeNotFound(int, Seq<u16>),
}

impl View for StepError {
    type V = StepErrorView;

    open spec fn view(&self) -> StepErrorView {
        match self {
            StepError::StepNotFound(name) => StepErrorView::StepNotFound(name@),
            StepError::ReqwestError(detail) => StepErrorView::ReqwestError(detail@),
            StepError::StatusCodeNotFound(status, expected) => StepErrorView::StatusCodeNotFound(
                *status as int,
                expected@,
            ),
        }
    }
}

impl Clone for StepError {
    fn clone(&self) -> (copy: Self)
        ensures
            copy@ == self@,
    {
        match self {
            StepError::StepNotFound(name) => StepError::StepNotFound(name.clone()),
            StepError::ReqwestError(detail) => StepError::ReqwestError(detail.clone()),
            StepError::StatusCodeNotFound(status, expected) => StepError::StatusCodeNotFound(
                *status,
                expected.clone(),
            ),
        }
    }
}

} // verus!
