//! The typed failures a call across the boundary can end in.

use vstd::prelude::*;
use crate::function_types::{ParameterType, ReturnType};

verus! {

/// The code that identifies a kind of failure, without its details.
#[derive(Clone, Copy, Debug, PartialEq, Eq, Structural)]
pub enum ErrorCode {
    FunctionNotFound,
    ParameterTypeMismatch,
    CallEnvelopeDecodeError,
    InvalidRegionAlignment,
    ReturnTypeMismatch,
    HostCallFailed,
}

/// Why a call, or a mapping request, was refused or failed.
#[allow(inconsistent_fields)]
#[derive(Debug, PartialEq, Eq)]
pub enum CallError {
    /// No function of that name is registered and the fallback handler
    /// declined it as well.
    FunctionNotFound { name: String },
    /// The argument types of the call differ from the registered signature.
    ParameterTypeMismatch { expected: Vec<ParameterType>, received: Vec<ParameterType> },
    /// The call could not be read from its encoded form.
    CallEnvelopeDecodeError { message: String },
    /// A region whose base or length is not a whole number of pages.
    InvalidRegionAlignment { base: u64, length: u64 },
    /// The value that came back does not have the type the caller asked for.
    ReturnTypeMismatch { expected: ReturnType, received: ReturnType },
    /// The other side of the boundary reported a failure of its own.
    HostCallFailed { message: String },
}

/// The mathematical content of a [`CallError`].
#[allow(inconsistent_fields)]
pub enum CallErrorView {
    FunctionNotFound { name: Seq<char> },
    ParameterTypeMismatch { expected: Seq<ParameterType>, received: Seq<ParameterType> },
    CallEnvelopeDecodeError { message: Seq<char> },
    InvalidRegionAlignment { base: u64, length: u64 },
    ReturnTypeMismatch { expected: ReturnType, received: ReturnType },
    HostCallFailed { message: Seq<char> },
}

impl CallErrorView {
    /// The code of this failure.
    pub open spec fn code(self) -> ErrorCode {
        match self {
            CallErrorView::FunctionNotFound { .. } => ErrorCode::FunctionNotFound,
            CallErrorView::ParameterTypeMismatch { .. } => ErrorCode::ParameterTypeMismatch,
            CallErrorView::CallEnvelopeDecodeError { .. } => ErrorCode::CallEnvelopeDecodeError,
            CallErrorView::InvalidRegionAlignment { .. } => ErrorCode::InvalidRegionAlignment,
            CallErrorView::ReturnTypeMismatch { .. } => ErrorCode::ReturnTypeMismatch,
            CallErrorView::HostCallFailed { .. } => ErrorCode::HostCallFailed,
        }
    }
}

impl View for CallError {
    type V = CallErrorView;

    open spec fn view(&self) -> CallErrorView {
        match *self {
            CallError::FunctionNotFound { name } => CallErrorView::FunctionNotFound { name: name@ },
            CallError::ParameterTypeMismatch { expected, received } => {
                CallErrorView::ParameterTypeMismatch { expected: expected@, received: received@ }
            },
            CallError::CallEnvelopeDecodeError { message } => {
                CallErrorView::CallEnvelopeDecodeError { message: message@ }
            },
            CallError::InvalidRegionAlignment { base, length } => {
                CallErrorView::InvalidRegionAlignment { base, length }
            },
            CallError::ReturnTypeMismatch { expected, received } => {
                CallErrorView::ReturnTypeMismatch { expected, received }
            },
            CallError::HostCallFailed { message } => {
                CallErrorView::HostCallFailed { message: message@ }
            },
        }
    }
}

impl CallError {
    /// The code of this failure.
    pub fn code(&self) -> (code: ErrorCode)
        ensures
            code == self@.code(),
    {
        match self {
            CallError::FunctionNotFound { .. } => ErrorCode::FunctionNotFound,
            CallError::ParameterTypeMismatch { .. } => ErrorCode::ParameterTypeMismatch,
            CallError::CallEnvelopeDecodeError { .. } => ErrorCode::CallEnvelopeDecodeError,
            CallError::InvalidRegionAlignment { .. } => ErrorCode::InvalidRegionAlignment,
            CallError::ReturnTypeMismatch { .. } => ErrorCode::ReturnTypeMismatch,
            CallError::HostCallFailed { .. } => ErrorCode::HostCallFailed,
        }
    }
}

/// The view of a result whose error is a [`CallError`].
pub open spec fn result_view<T>(result: Result<T, CallError>) -> Result<T, CallErrorView> {
    match result {
        Ok(value) => Ok(value),
        Err(error) => Err(error@),
    }
}

} // verus!
