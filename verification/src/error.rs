//! What goes wrong at the C boundary, and how it reaches the caller's error slot.

use vstd::prelude::*;

verus! {

/// An error met while handling a call from C. The payload says what was wrong.
#[derive(Debug, PartialEq, Eq)]
pub enum InterfaceError {
    /// A pointer that must point at something was null.
    NullError(String),
    /// An argument was present but unusable.
    InvalidArgument(String),
    /// The asynchronous runtime could not be created.
    TokioError(String),
}

/// The mathematical content of an [`InterfaceError`].
pub enum ErrorView {
    NullError(Seq<char>),
    InvalidArgument(Seq<char>),
    TokioError(Seq<char>),
}

impl View for InterfaceError {
    type V = ErrorView;

    open spec fn view(&self) -> ErrorView {
        match self {
            InterfaceError::NullError(what) => ErrorView::NullError(what@),
            InterfaceError::InvalidArgument(what) => ErrorView::InvalidArgument(what@),
            InterfaceError::TokioError(what) => ErrorView::TokioError(what@),
        }
    }
}

/// The numbers under which the C header publishes each kind of error.
#[derive(Debug, Clone, Copy, PartialEq, Eq)]
pub struct ErrorCodes {
    pub null_error: i32,
    pub invalid_argument: i32,
    pub tokio_error: i32,
}

impl ErrorCodes {
    /// A usable table has positive codes only: zero in an error slot stands for success.
    pub open spec fn well_formed(self) -> bool {
        &&& self.null_error > 0
        &&& self.invalid_argument > 0
        &&& self.tokio_error > 0
    }

    /// The code of an error. The payload plays no part in it.
    pub open spec fn code(self, error: ErrorView) -> i32 {
        match error {
            ErrorView::NullError(_) => self.null_error,
            ErrorView::InvalidArgument(_) => self.invalid_argument,
            ErrorView::TokioError(_) => self.tokio_error,
        }
    }

    /// What an error slot holds once a call has come to `outcome`.
    pub open spec fn slot<T>(self, outcome: Result<T, ErrorView>) -> i32 {
        match outcome {
            Ok(_) => 0,
            Err(error) => self.code(error),
        }
    }

    /// Looks up the code of `error`.
    pub fn code_of(&self, error: &InterfaceError) -> (code: i32)
        ensures
            code == self.code(error@),
    {
        match error {
            InterfaceError::NullError(_) => self.null_error,
            InterfaceError::InvalidArgument(_) => self.invalid_argument,
            InterfaceError::TokioError(_) => self.tokio_error,
        }
    }
}

/// The content of a result whose value has none of its own.
pub open spec fn outcome_view<T>(outcome: Result<T, InterfaceError>) -> Result<T, ErrorView> {
    match outcome {
        Ok(value) => Ok(value),
        Err(error) => Err(error@),
    }
}

/// Leaves the mark of `outcome` in the caller's error slot, and hands on the value if there is one.
pub fn report<T>(
    outcome: Result<T, InterfaceError>,
    error_out: &mut i32,
    codes: &ErrorCodes,
) -> (value: Option<T>)
    ensures
        *final(error_out) == codes.slot(outcome_view(outcome)),
        value == outcome.ok(),
{
    match outcome {
        Ok(value) => {
            *error_out = 0;
            Some(value)
        },
        Err(error) => {
            *error_out = codes.code_of(&error);
            None
        },
    }
}

} // verus!
