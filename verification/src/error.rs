//! What can go wrong before anything is written.

use vstd::prelude::*;

verus! {

/// Why a run was refused.
#[derive(Debug, PartialEq, Eq)]
pub enum Error {
    /// No transition was named.
    MissingArgument,
    /// Something was named that is no transition.
    InvalidArgument { given: String },
    /// A device reported nothing but white space.
    EmptyValue { path: String },
}

/// An `Error` as plain text.
pub enum ErrorView {
    MissingArgument,
    InvalidArgument { given: Seq<char> },
    EmptyValue { path: Seq<char> },
}

impl ErrorView {
    /// The error in words.
    pub open spec fn message(self) -> Seq<char> {
        match self {
            ErrorView::MissingArgument => "Missing required argument: must be 'pre' or 'post'"@,
            ErrorView::InvalidArgument { given } => "Invalid argument '"@ + given
                + "', must be 'pre' or 'post'"@,
            ErrorView::EmptyValue { path } => "Invalid empty value read from '"@ + path + "'"@,
        }
    }
}

impl View for Error {
    type V = ErrorView;

    open spec fn view(&self) -> ErrorView {
        match self {
            Error::MissingArgument => ErrorView::MissingArgument,
            Error::InvalidArgument { given } => ErrorView::InvalidArgument { given: given@ },
            Error::EmptyValue { path } => ErrorView::EmptyValue { path: path@ },
        }
    }
}

impl DeepView for Error {
    type V = ErrorView;

    open spec fn deep_view(&self) -> ErrorView {
        self@
    }
}

impl Error {
    /// The error in words, as it is shown to the user.
    pub fn message(&self) -> (text: String)
        ensures
            text@ == self@.message(),
    {
        match self {
            Error::MissingArgument => String::from_str(
                "Missing required argument: must be 'pre' or 'post'",
            ),
            Error::InvalidArgument { given } => {
                let mut text = String::from_str("Invalid argument '");
                text.append(given.as_str());
                text.append("', must be 'pre' or 'post'");
                text
            },
            Error::EmptyValue { path } => {
                let mut text = String::from_str("Invalid empty value read from '");
                text.append(path.as_str());
                text.append("'");
                text
            },
        }
    }
}

} // verus!
