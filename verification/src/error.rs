use crate::transaction::{ApplicationCallTransaction, ApplicationCallView};
use vstd::prelude::*;

verus! {

/// Why a call of this library failed.
#[derive(Debug, Clone, PartialEq, Eq)]
pub enum Error {
    /// The parts of an application call are in a combination that the
    /// wallet's schema cannot express; the call is handed back.
    InvalidTransactionState(ApplicationCallTransaction),
    /// The wallet failed to connect; the text is its own diagnostic.
    ExternalConnection(String),
    /// The wallet failed to sign; the text is its own diagnostic.
    ExternalSigning(String),
    /// The wallet's answer has not the expected form.
    Decode,
}

/// The mathematical value of an [`Error`].
pub ghost enum ErrorView {
    InvalidTransactionState(ApplicationCallView),
    ExternalConnection(Seq<char>),
    ExternalSigning(Seq<char>),
    Decode,
}

impl View for Error {
    type V = ErrorView;

    open spec fn view(&self) -> ErrorView {
        match self {
            Error::InvalidTransactionState(call) => ErrorView::InvalidTransactionState(call@),
            Error::ExternalConnection(diagnostic) => ErrorView::ExternalConnection(diagnostic@),
            Error::ExternalSigning(diagnostic) => ErrorView::ExternalSigning(diagnostic@),
            Error::Decode => ErrorView::Decode,
        }
    }
}

} // verus!
