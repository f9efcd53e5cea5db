//! The typed rejections of the ledger's operations.
use vstd::prelude::*;

verus! {

/// Why an operation was rejected. A rejected operation leaves the ledger unchanged.
#[derive(Clone, Copy, Debug, PartialEq, Eq, Structural)]
pub enum LedgerError {
    /// The operation is not allowed while the marketplace is paused.
    InvalidState,
    /// The deposit is below the minimum.
    InsufficientDeposit,
    /// A title or description is empty.
    InvalidInput,
    /// The deadline is not later than the current time.
    InvalidDeadline,
    /// The referenced question or answer was never created.
    NotFound,
    /// The question no longer accepts answers.
    QuestionClosed,
    /// The question's deadline has passed.
    DeadlinePassed,
    /// A question's creator cannot answer it.
    SelfAnswerForbidden,
    /// The caller is not the identity the operation requires.
    Unauthorized,
    /// The question's deadline has not been reached yet.
    TooEarly,
    /// The question has already been approved or refunded.
    AlreadyClosed,
    /// The answer does not belong to the question.
    AnswerMismatch,
}

/// The broad class of a rejection.
#[derive(Clone, Copy, Debug, PartialEq, Eq, Structural)]
pub enum ErrorKind {
    InvalidInput,
    InvalidState,
    Unauthorized,
    NotFound,
    TimingViolation,
    Mismatch,
}

impl LedgerError {
    pub open spec fn kind_of(self) -> ErrorKind {
        match self {
            LedgerError::InvalidState => ErrorKind::InvalidState,
            LedgerError::InsufficientDeposit => ErrorKind::InvalidInput,
            LedgerError::InvalidInput => ErrorKind::InvalidInput,
            LedgerError::InvalidDeadline => ErrorKind::InvalidInput,
            LedgerError::NotFound => ErrorKind::NotFound,
            LedgerError::QuestionClosed => ErrorKind::InvalidState,
            LedgerError::DeadlinePassed => ErrorKind::TimingViolation,
            LedgerError::SelfAnswerForbidden => ErrorKind::Unauthorized,
            LedgerError::Unauthorized => ErrorKind::Unauthorized,
            LedgerError::TooEarly => ErrorKind::TimingViolation,
            LedgerError::AlreadyClosed => ErrorKind::InvalidState,
            LedgerError::AnswerMismatch => ErrorKind::Mismatch,
        }
    }

    /// The class this rejection belongs to.
    pub fn kind(&self) -> (r: ErrorKind)
        ensures
            r == self.kind_of(),
    {
        match self {
            LedgerError::InvalidState => ErrorKind::InvalidState,
            LedgerError::InsufficientDeposit => ErrorKind::InvalidInput,
            LedgerError::InvalidInput => ErrorKind::InvalidInput,
            LedgerError::InvalidDeadline => ErrorKind::InvalidInput,
            LedgerError::NotFound => ErrorKind::NotFound,
            LedgerError::QuestionClosed => ErrorKind::InvalidState,
            LedgerError::DeadlinePassed => ErrorKind::TimingViolation,
            LedgerError::SelfAnswerForbidden => ErrorKind::Unauthorized,
            LedgerError::Unauthorized => ErrorKind::Unauthorized,
            LedgerError::TooEarly => ErrorKind::TimingViolation,
            LedgerError::AlreadyClosed => ErrorKind::InvalidState,
            LedgerError::AnswerMismatch => ErrorKind::Mismatch,
        }
    }
}

} // verus!
