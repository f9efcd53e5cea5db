//! The entities held by the marketplace ledger.
use vstd::prelude::*;

verus! {

/// An account identity: the 32 bytes of a ledger address.
#[derive(Clone, Copy, Debug)]
pub struct Address {
    pub bytes: [u8; 32],
}

impl PartialEq for Address {
    fn eq(&self, o: &Address) -> (r: bool) {
        let mut i: usize = 0;
        while i < 32
            invariant
                0 <= i <= 32,
                forall|j: int| 0 <= j < i ==> self.bytes@[j] == o.bytes@[j],
            decreases 32 - i,
        {
            if self.bytes[i] != o.bytes[i] {
                return false;
            }
            i = i + 1;
        }
        assert(self.bytes@ =~= o.bytes@);
        true
    }
}

impl Eq for Address {
}

impl vstd::std_specs::cmp::PartialEqSpecImpl for Address {
    open spec fn obeys_eq_spec() -> bool {
        true
    }

    open spec fn eq_spec(&self, o: &Address) -> bool {
        self.bytes@ == o.bytes@
    }
}

impl Address {
    /// Two addresses are the same identity exactly when they are equal values.
    pub fn same(&self, o: &Address) -> (r: bool)
        ensures
            r == (*self == *o),
    {
        let r = *self == *o;
        proof {
            if self.bytes@ == o.bytes@ {
                assert(self.bytes =~= o.bytes);
            }
        }
        r
    }
}

/// The lifecycle of a question.
#[derive(Clone, Copy, Debug, PartialEq, Eq, Structural)]
pub enum QuestionStatus {
    Created,
    Answered,
    AnswerApproved,
    Expired,
}

/// A question with its escrowed deposit.
#[derive(Debug, PartialEq, Eq)]
pub struct Question {
    pub question_id: u64,
    pub creator: Address,
    pub title: String,
    pub description: String,
    pub deadline: u64,
    pub locked_amount: u128,
    pub created_at: u64,
    pub status: QuestionStatus,
    pub approved_answer_id: Option<u64>,
}

impl Clone for Question {
    fn clone(&self) -> (r: Question)
        ensures
            r == *self,
    {
        Question {
            question_id: self.question_id,
            creator: self.creator,
            title: self.title.clone(),
            description: self.description.clone(),
            deadline: self.deadline,
            locked_amount: self.locked_amount,
            created_at: self.created_at,
            status: self.status,
            approved_answer_id: self.approved_answer_id,
        }
    }
}

/// The data published when a question is created.
#[derive(Clone, Copy, Debug, PartialEq, Eq, Structural)]
pub struct QuestionCreatedEventData {
    pub deadline: u64,
    pub locked_amount: u128,
}

/// An answer to a question.
#[derive(Debug, PartialEq, Eq)]
pub struct Answer {
    pub answer_id: u64,
    pub question_id: u64,
    pub creator: Address,
    pub title: String,
    pub description: String,
    pub created_at: u64,
    pub votes: u32,
    pub approved_by_creator: bool,
}

impl Clone for Answer {
    fn clone(&self) -> (r: Answer)
        ensures
            r == *self,
    {
        Answer {
            answer_id: self.answer_id,
            question_id: self.question_id,
            creator: self.creator,
            title: self.title.clone(),
            description: self.description.clone(),
            created_at: self.created_at,
            votes: self.votes,
            approved_by_creator: self.approved_by_creator,
        }
    }
}

/// A movement of escrowed funds that the environment is asked to carry out.
#[derive(Clone, Copy, Debug, PartialEq, Eq)]
pub struct Payout {
    pub recipient: Address,
    pub amount: u128,
}

impl QuestionStatus {
    /// A question in this status still holds its deposit.
    pub open spec fn is_open(self) -> bool {
        self is Created || self is Answered
    }

    /// A question in this status still holds its deposit.
    pub fn still_open(&self) -> (r: bool)
        ensures
            r == self.is_open(),
    {
        match self {
            QuestionStatus::Created | QuestionStatus::Answered => true,
            _ => false,
        }
    }
}

} // verus!
