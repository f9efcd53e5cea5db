//! An escrow-backed question and answer marketplace, modelled as a verified
//! state machine.
pub mod error;
pub mod laws;
pub mod ledger;
pub mod model;
pub mod types;

pub use error::{ErrorKind, LedgerError};
pub use ledger::StackTokenContract;
pub use model::{LedgerState, MIN_EGLD_LOCKED};
pub use types::{Address, Answer, Payout, Question, QuestionCreatedEventData, QuestionStatus};
