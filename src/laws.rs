//! Laws of the ledger, stated over its model and proved for every input.
use vstd::prelude::*;

use crate::model::LedgerState;
use crate::types::{Address, Payout, Question, QuestionStatus};

verus! {

/// One operation on the ledger, with the caller and block time the environment supplies.
pub enum Operation {
    PostQuestion {
        caller: Address,
        now: u64,
        payment: u128,
        title: String,
        description: String,
        deadline: u64,
    },
    SubmitAnswer {
        caller: Address,
        now: u64,
        question_id: u64,
        title: String,
        description: String,
    },
    ApproveAnswer { caller: Address, now: u64, question_id: u64, answer_id: u64 },
    RefundQuestion { caller: Address, now: u64, question_id: u64 },
    PauseContract { caller: Address },
    UnpauseContract { caller: Address },
    TransferOwnership { caller: Address, new_owner: Address },
}

impl LedgerState {
    /// Whether `op` succeeds on this ledger.
    pub open spec fn accepts(self, op: Operation) -> bool {
        match op {
            Operation::PostQuestion { now, payment, title, description, deadline, .. } => {
                self.post_question_error(now, payment, title, description, deadline) is None
            },
            Operation::SubmitAnswer { caller, now, question_id, .. } => {
                self.submit_answer_error(caller, now, question_id) is None
            },
            Operation::ApproveAnswer { caller, now, question_id, answer_id } => {
                self.approve_answer_error(caller, now, question_id, answer_id) is None
            },
            Operation::RefundQuestion { caller, now, question_id } => {
                self.refund_question_error(caller, now, question_id) is None
            },
            Operation::PauseContract { caller } => self.owner_error(caller) is None,
            Operation::UnpauseContract { caller } => self.owner_error(caller) is None,
            Operation::TransferOwnership { caller, .. } => self.owner_error(caller) is None,
        }
    }

    /// The ledger after `op`: a rejected operation changes nothing.
    pub open spec fn step(self, op: Operation) -> LedgerState {
        if !self.accepts(op) {
            self
        } else {
            match op {
                Operation::PostQuestion { caller, now, payment, title, description, deadline } => {
                    self.after_post_question(caller, now, payment, title, description, deadline)
                },
                Operation::SubmitAnswer { caller, now, question_id, title, description } => {
                    self.after_submit_answer(caller, now, question_id, title, description)
                },
                Operation::ApproveAnswer { question_id, answer_id, .. } => {
                    self.after_approve_answer(question_id, answer_id)
                },
                Operation::RefundQuestion { question_id, .. } => {
                    self.after_refund_question(question_id)
                },
                Operation::PauseContract { .. } => self.with_paused(true),
                Operation::UnpauseContract { .. } => self.with_paused(false),
                Operation::TransferOwnership { new_owner, .. } => self.with_owner(new_owner),
            }
        }
    }

    /// The deposit that `op` releases, with the question it belonged to.
    pub open spec fn release(self, op: Operation) -> Option<(u64, Payout)> {
        if !self.accepts(op) {
            None
        } else {
            match op {
                Operation::ApproveAnswer { question_id, answer_id, .. } => {
                    Some((question_id, self.approval_payout(question_id, answer_id)))
                },
                Operation::RefundQuestion { question_id, .. } => {
                    Some((question_id, self.refund_payout(question_id)))
                },
                _ => None,
            }
        }
    }

    /// Whether `op` releases the deposit of question `question_id`.
    pub open spec fn releases(self, op: Operation, question_id: u64) -> bool {
        self.release(op) matches Some((id, _)) && id == question_id
    }

    /// The ledger after the operations `ops`, in order.
    pub open spec fn run(self, ops: Seq<Operation>) -> LedgerState
        decreases ops.len(),
    {
        if ops.len() == 0 {
            self
        } else {
            self.run(ops.drop_last()).step(ops.last())
        }
    }

    /// How many of the operations `ops` release the deposit of question `question_id`.
    pub open spec fn release_count(self, ops: Seq<Operation>, question_id: u64) -> nat
        decreases ops.len(),
    {
        if ops.len() == 0 {
            0
        } else {
            self.release_count(ops.drop_last(), question_id) + if self.run(ops.drop_last()).releases(
                ops.last(),
                question_id,
            ) {
                1nat
            } else {
                0nat
            }
        }
    }
}

/// Every operation keeps the ledger valid and never decreases a counter.
pub proof fn lemma_step_valid(s: LedgerState, op: Operation)
    requires
        s.valid(),
    ensures
        s.step(op).valid(),
        s.step(op).question_counter >= s.question_counter,
        s.step(op).answer_counter >= s.answer_counter,
{
    if s.accepts(op) {
        match op {
            Operation::PostQuestion { caller, now, payment, title, description, deadline } => {
                crate::model::lemma_post_question_valid(
                    s,
                    caller,
                    now,
                    payment,
                    title,
                    description,
                    deadline,
                );
            },
            Operation::SubmitAnswer { caller, now, question_id, title, description } => {
                crate::model::lemma_submit_answer_valid(
                    s,
                    caller,
                    now,
                    question_id,
                    title,
                    description,
                );
            },
            Operation::ApproveAnswer { caller, now, question_id, answer_id } => {
                crate::model::lemma_approve_answer_valid(s, caller, now, question_id, answer_id);
            },
            Operation::RefundQuestion { caller, now, question_id } => {
                crate::model::lemma_refund_question_valid(s, caller, now, question_id);
            },
            _ => {},
        }
    }
}

/// Over any sequence of operations the question and answer counters never
/// decrease, and every ID the counters allocated belongs to exactly one stored
/// entry: the entry at its position, which keeps that ID for good.
pub proof fn lemma_counters_monotone(s: LedgerState, ops: Seq<Operation>)
    requires
        s.valid(),
    ensures
        s.run(ops).valid(),
        s.run(ops).question_counter >= s.question_counter,
        s.run(ops).answer_counter >= s.answer_counter,
        forall|id: u64|
            1 <= id <= s.run(ops).question_counter ==> #[trigger] s.run(ops).question(
                id,
            ).question_id == id,
        forall|id: u64|
            1 <= id <= s.run(ops).answer_counter ==> #[trigger] s.run(ops).answer(id).answer_id
                == id,
    decreases ops.len(),
{
    let r = s.run(ops);
    if ops.len() > 0 {
        lemma_counters_monotone(s, ops.drop_last());
        lemma_step_valid(s.run(ops.drop_last()), ops.last());
    }
    assert forall|id: u64| 1 <= id <= r.question_counter implies #[trigger] r.question(
        id,
    ).question_id == id by {
        assert(r.questions[id - 1].question_id == id - 1 + 1);
    }
    assert forall|id: u64| 1 <= id <= r.answer_counter implies #[trigger] r.answer(id).answer_id
        == id by {
        assert(r.answers[id - 1].answer_id == id - 1 + 1);
    }
}

/// The custody of one question's deposit under a single operation. The deposit
/// amount never changes. An operation releases it only while the question holds
/// it, only by closing the question, for exactly the locked amount, to the author
/// of the approved answer on approval and to the creator on refund. A question
/// that holds its deposit keeps holding it unless released; a closed question
/// never changes again; a question created by the operation starts in `Created`.
pub proof fn lemma_step_custody(s: LedgerState, op: Operation, question_id: u64)
    requires
        s.valid(),
    ensures
        s.has_question(question_id) ==> {
            &&& s.step(op).has_question(question_id)
            &&& s.step(op).question(question_id).locked_amount == s.question(
                question_id,
            ).locked_amount
        },
        s.release(op) matches Some((id, p)) ==> {
            let q = s.step(op).question(id);
            &&& s.has_question(id)
            &&& s.question(id).status.is_open()
            &&& !q.status.is_open()
            &&& p.amount == s.question(id).locked_amount
            &&& p.recipient == (if q.status is Expired {
                q.creator
            } else {
                s.step(op).answer(q.approved_answer_id->Some_0).creator
            })
        },
        s.has_question(question_id) && s.question(question_id).status.is_open() && !s.releases(
            op,
            question_id,
        ) ==> s.step(op).question(question_id).status.is_open(),
        s.has_question(question_id) && !s.question(question_id).status.is_open() ==> {
            &&& s.step(op).question(question_id) == s.question(question_id)
            &&& !s.releases(op, question_id)
        },
        !s.has_question(question_id) ==> {
            &&& !s.releases(op, question_id)
            &&& s.step(op).has_question(question_id) ==> s.step(op).question(question_id).status is Created
        },
{
    lemma_step_valid(s, op);
}

/// Over any sequence of operations that starts while a question holds its
/// deposit (or before it exists), the deposit is released at most once, and it
/// has been released exactly when the question has reached a closed status.
pub proof fn lemma_single_release(s: LedgerState, ops: Seq<Operation>, question_id: u64)
    requires
        s.valid(),
        s.has_question(question_id) ==> s.question(question_id).status.is_open(),
    ensures
        s.release_count(ops, question_id) <= 1,
        s.release_count(ops, question_id) == 1 <==> (s.run(ops).has_question(question_id)
            && !s.run(ops).question(question_id).status.is_open()),
    decreases ops.len(),
{
    if ops.len() > 0 {
        let prev = s.run(ops.drop_last());
        lemma_single_release(s, ops.drop_last(), question_id);
        lemma_counters_monotone(s, ops.drop_last());
        lemma_step_custody(prev, ops.last(), question_id);
    }
}

/// Answering a question twice: the first accepted answer moves a `Created`
/// question to `Answered`, and the second leaves every question exactly as the
/// first left it.
pub proof fn lemma_second_answer_keeps_status(
    s: LedgerState,
    question_id: u64,
    first: Address,
    first_now: u64,
    first_title: String,
    first_description: String,
    second: Address,
    second_now: u64,
    second_title: String,
    second_description: String,
)
    requires
        s.valid(),
        s.has_question(question_id),
        s.question(question_id).status is Created,
        s.submit_answer_error(first, first_now, question_id) is None,
        s.after_submit_answer(
            first,
            first_now,
            question_id,
            first_title,
            first_description,
        ).submit_answer_error(second, second_now, question_id) is None,
    ensures
        ({
            let s1 = s.after_submit_answer(
                first,
                first_now,
                question_id,
                first_title,
                first_description,
            );
            let s2 = s1.after_submit_answer(
                second,
                second_now,
                question_id,
                second_title,
                second_description,
            );
            &&& s1.question(question_id) == (Question {
                status: QuestionStatus::Answered,
                ..s.question(question_id)
            })
            &&& s2.questions == s1.questions
        }),
{
}

/// A question read back right after it is posted holds exactly the posted
/// values, under the next ID, with status `Created` and no approved answer.
pub proof fn lemma_post_then_read(
    s: LedgerState,
    caller: Address,
    now: u64,
    payment: u128,
    title: String,
    description: String,
    deadline: u64,
)
    requires
        s.valid(),
        s.post_question_error(now, payment, title, description, deadline) is None,
    ensures
        ({
            let s2 = s.after_post_question(caller, now, payment, title, description, deadline);
            let id = (s.question_counter + 1) as u64;
            &&& s2.has_question(id)
            &&& s2.question(id) == (Question {
                question_id: id,
                creator: caller,
                title,
                description,
                deadline,
                locked_amount: payment,
                created_at: now,
                status: QuestionStatus::Created,
                approved_answer_id: None,
            })
        }),
{
}

} // verus!
