//! The mathematical model of the ledger and of each transition.
use vstd::prelude::*;

use crate::error::LedgerError;
use crate::types::{Address, Answer, Payout, Question, QuestionStatus};

verus! {

/// The smallest deposit a question may lock (0.1 EGLD, in its smallest unit).
pub const MIN_EGLD_LOCKED: u64 = 100_000_000_000_000_000;

/// The whole ledger as a value: configuration, counters and the append-only
/// stores of questions and answers.
pub struct LedgerState {
    pub owner: Address,
    pub paused: bool,
    pub question_counter: nat,
    pub answer_counter: nat,
    pub questions: Seq<Question>,
    pub answers: Seq<Answer>,
}

/// A question that is still open for answers at time `now`.
pub open spec fn is_open_at(q: Question, now: u64) -> bool {
    q.status.is_open() && q.deadline > now
}

/// A question past its deadline whose deposit has not been released yet.
pub open spec fn is_overdue_at(q: Question, now: u64) -> bool {
    q.status.is_open() && now >= q.deadline
}

/// The status shown for a question at time `now`: an overdue question shows as expired.
pub open spec fn display_status(q: Question, now: u64) -> QuestionStatus {
    if is_overdue_at(q, now) {
        QuestionStatus::Expired
    } else {
        q.status
    }
}

impl LedgerState {
    /// The ledger right after initialisation by `owner`.
    pub open spec fn initial(owner: Address) -> LedgerState {
        LedgerState {
            owner,
            paused: false,
            question_counter: 0,
            answer_counter: 0,
            questions: Seq::empty(),
            answers: Seq::empty(),
        }
    }

    /// Question `id` was created: IDs run from 1 to the question counter.
    pub open spec fn has_question(self, id: u64) -> bool {
        1 <= id <= self.questions.len()
    }

    /// Question `id`, stored at position `id - 1`.
    pub open spec fn question(self, id: u64) -> Question {
        self.questions[id - 1]
    }

    /// Answer `id` was created: IDs run from 1 to the answer counter.
    pub open spec fn has_answer(self, id: u64) -> bool {
        1 <= id <= self.answers.len()
    }

    /// Answer `id`, stored at position `id - 1`.
    pub open spec fn answer(self, id: u64) -> Answer {
        self.answers[id - 1]
    }

    /// The invariant every reachable ledger satisfies.
    pub open spec fn valid(self) -> bool {
        &&& self.question_counter == self.questions.len()
        &&& self.answer_counter == self.answers.len()
        &&& self.question_counter <= u64::MAX
        &&& self.answer_counter <= u64::MAX
        &&& forall|i: int|
            0 <= i < self.questions.len() ==> #[trigger] self.questions[i].question_id == i + 1
        &&& forall|i: int|
            0 <= i < self.answers.len() ==> #[trigger] self.answers[i].answer_id == i + 1
        &&& forall|i: int|
            0 <= i < self.answers.len() ==> self.has_question(#[trigger] self.answers[i].question_id)
        &&& forall|i: int|
            0 <= i < self.answers.len() ==> #[trigger] self.answers[i].creator != self.question(
                self.answers[i].question_id,
            ).creator
        &&& forall|i: int|
            0 <= i < self.questions.len() ==> self.approval_coherent(#[trigger] self.questions[i])
        &&& forall|i: int|
            0 <= i < self.answers.len() && #[trigger] self.answers[i].approved_by_creator
                ==> self.question(self.answers[i].question_id).approved_answer_id == Some(
                (i + 1) as u64,
            )
    }

    /// A question refers to an approved answer exactly when it is approved, and
    /// that answer belongs to it and is marked approved.
    pub open spec fn approval_coherent(self, q: Question) -> bool {
        &&& (q.status is AnswerApproved <==> q.approved_answer_id is Some)
        &&& q.approved_answer_id matches Some(aid) ==> {
            &&& self.has_answer(aid)
            &&& self.answer(aid).question_id == q.question_id
            &&& self.answer(aid).approved_by_creator
        }
    }

    // ---- postQuestion ----
    /// The first failed precondition of posting a question, if any. Once the
    /// question counter has used up every `u64` ID no question can be posted.
    pub open spec fn post_question_error(
        self,
        now: u64,
        payment: u128,
        title: String,
        description: String,
        deadline: u64,
    ) -> Option<LedgerError> {
        if self.paused {
            Some(LedgerError::InvalidState)
        } else if payment < MIN_EGLD_LOCKED {
            Some(LedgerError::InsufficientDeposit)
        } else if title@.len() == 0 || description@.len() == 0 {
            Some(LedgerError::InvalidInput)
        } else if deadline <= now {
            Some(LedgerError::InvalidDeadline)
        } else if self.question_counter >= u64::MAX {
            Some(LedgerError::InvalidState)
        } else {
            None
        }
    }

    /// The question that a successful post stores.
    pub open spec fn new_question(
        self,
        caller: Address,
        now: u64,
        payment: u128,
        title: String,
        description: String,
        deadline: u64,
    ) -> Question {
        Question {
            question_id: (self.question_counter + 1) as u64,
            creator: caller,
            title,
            description,
            deadline,
            locked_amount: payment,
            created_at: now,
            status: QuestionStatus::Created,
            approved_answer_id: None,
        }
    }

    /// The ledger after a successful post.
    pub open spec fn after_post_question(
        self,
        caller: Address,
        now: u64,
        payment: u128,
        title: String,
        description: String,
        deadline: u64,
    ) -> LedgerState {
        LedgerState {
            question_counter: self.question_counter + 1,
            questions: self.questions.push(
                self.new_question(caller, now, payment, title, description, deadline),
            ),
            ..self
        }
    }

    // ---- submitAnswer ----
    /// The first failed precondition of answering question `question_id`, if any.
    /// Once the answer counter has used up every `u64` ID no answer can be added.
    pub open spec fn submit_answer_error(self, caller: Address, now: u64, question_id: u64) -> Option<
        LedgerError,
    > {
        if self.paused {
            Some(LedgerError::InvalidState)
        } else if !self.has_question(question_id) {
            Some(LedgerError::NotFound)
        } else if !self.question(question_id).status.is_open() {
            Some(LedgerError::QuestionClosed)
        } else if now >= self.question(question_id).deadline {
            Some(LedgerError::DeadlinePassed)
        } else if caller == self.question(question_id).creator {
            Some(LedgerError::SelfAnswerForbidden)
        } else if self.answer_counter >= u64::MAX {
            Some(LedgerError::InvalidState)
        } else {
            None
        }
    }

    /// The answer that a successful submission stores.
    pub open spec fn new_answer(
        self,
        caller: Address,
        now: u64,
        question_id: u64,
        title: String,
        description: String,
    ) -> Answer {
        Answer {
            answer_id: (self.answer_counter + 1) as u64,
            question_id,
            creator: caller,
            title,
            description,
            created_at: now,
            votes: 0,
            approved_by_creator: false,
        }
    }

    /// The ledger after a successful submission: the answer is stored, and a
    /// question still in `Created` moves to `Answered`.
    pub open spec fn after_submit_answer(
        self,
        caller: Address,
        now: u64,
        question_id: u64,
        title: String,
        description: String,
    ) -> LedgerState {
        let q = self.question(question_id);
        LedgerState {
            answer_counter: self.answer_counter + 1,
            answers: self.answers.push(self.new_answer(caller, now, question_id, title, description)),
            questions: if q.status is Created {
                self.questions.update(
                    question_id - 1,
                    Question { status: QuestionStatus::Answered, ..q },
                )
            } else {
                self.questions
            },
            ..self
        }
    }

    // ---- approveAnswer ----
    /// The first failed precondition of approving answer `answer_id` of question
    /// `question_id`, if any.
    pub open spec fn approve_answer_error(
        self,
        caller: Address,
        now: u64,
        question_id: u64,
        answer_id: u64,
    ) -> Option<LedgerError> {
        if !self.has_question(question_id) {
            Some(LedgerError::NotFound)
        } else if caller != self.question(question_id).creator {
            Some(LedgerError::Unauthorized)
        } else if now < self.question(question_id).deadline {
            Some(LedgerError::TooEarly)
        } else if !self.question(question_id).status.is_open() {
            Some(LedgerError::AlreadyClosed)
        } else if !self.has_answer(answer_id) {
            Some(LedgerError::NotFound)
        } else if self.answer(answer_id).question_id != question_id {
            Some(LedgerError::AnswerMismatch)
        } else {
            None
        }
    }

    /// The ledger after a successful approval.
    pub open spec fn after_approve_answer(self, question_id: u64, answer_id: u64) -> LedgerState {
        let q = self.question(question_id);
        let a = self.answer(answer_id);
        LedgerState {
            questions: self.questions.update(
                question_id - 1,
                Question {
                    status: QuestionStatus::AnswerApproved,
                    approved_answer_id: Some(answer_id),
                    ..q
                },
            ),
            answers: self.answers.update(answer_id - 1, Answer { approved_by_creator: true, ..a }),
            ..self
        }
    }

    /// The deposit released by an approval: it goes to the answer's author.
    pub open spec fn approval_payout(self, question_id: u64, answer_id: u64) -> Payout {
        Payout {
            recipient: self.answer(answer_id).creator,
            amount: self.question(question_id).locked_amount,
        }
    }

    // ---- refundQuestion ----
    /// The first failed precondition of refunding question `question_id`, if any.
    pub open spec fn refund_question_error(self, caller: Address, now: u64, question_id: u64) -> Option<
        LedgerError,
    > {
        if !self.has_question(question_id) {
            Some(LedgerError::NotFound)
        } else if caller != self.question(question_id).creator {
            Some(LedgerError::Unauthorized)
        } else if now < self.question(question_id).deadline {
            Some(LedgerError::TooEarly)
        } else if !self.question(question_id).status.is_open() {
            Some(LedgerError::AlreadyClosed)
        } else {
            None
        }
    }

    /// The ledger after a successful refund.
    pub open spec fn after_refund_question(self, question_id: u64) -> LedgerState {
        let q = self.question(question_id);
        LedgerState {
            questions: self.questions.update(
                question_id - 1,
                Question { status: QuestionStatus::Expired, ..q },
            ),
            ..self
        }
    }

    /// The deposit released by a refund: it goes back to the question's creator.
    pub open spec fn refund_payout(self, question_id: u64) -> Payout {
        Payout {
            recipient: self.question(question_id).creator,
            amount: self.question(question_id).locked_amount,
        }
    }

    // ---- owner operations ----
    /// Owner-only operations reject every other caller.
    pub open spec fn owner_error(self, caller: Address) -> Option<LedgerError> {
        if caller != self.owner {
            Some(LedgerError::Unauthorized)
        } else {
            None
        }
    }

    /// The ledger with its pause flag set to `paused`.
    pub open spec fn with_paused(self, paused: bool) -> LedgerState {
        LedgerState { paused, ..self }
    }

    /// The ledger owned by `new_owner`.
    pub open spec fn with_owner(self, new_owner: Address) -> LedgerState {
        LedgerState { owner: new_owner, ..self }
    }

    // ---- queries ----
    /// The questions open for answers at `now`, in increasing ID order.
    pub open spec fn open_questions(self, now: u64) -> Seq<Question> {
        self.questions.filter(open_at(now))
    }

    /// The questions past their deadline whose deposit is still held, in increasing ID order.
    pub open spec fn overdue_questions(self, now: u64) -> Seq<Question> {
        self.questions.filter(overdue_at(now))
    }

    /// The questions whose stored status is `status`, in increasing ID order.
    pub open spec fn questions_with_status(self, status: QuestionStatus) -> Seq<Question> {
        self.questions.filter(has_status(status))
    }

    /// The answers to question `question_id`, in the order they were submitted.
    pub open spec fn answers_for(self, question_id: u64) -> Seq<Answer> {
        self.answers.filter(answers_question(question_id))
    }
}

pub open spec fn open_at(now: u64) -> spec_fn(Question) -> bool {
    |q: Question| is_open_at(q, now)
}

pub open spec fn overdue_at(now: u64) -> spec_fn(Question) -> bool {
    |q: Question| is_overdue_at(q, now)
}

pub open spec fn has_status(status: QuestionStatus) -> spec_fn(Question) -> bool {
    |q: Question| q.status == status
}

pub open spec fn answers_question(question_id: u64) -> spec_fn(Answer) -> bool {
    |a: Answer| a.question_id == question_id
}


/// Extending a prefix by one element extends its filter by that element exactly
/// when the element passes.
pub proof fn lemma_filter_prefix_step<A>(s: Seq<A>, pred: spec_fn(A) -> bool, i: int)
    requires
        0 <= i < s.len(),
    ensures
        s.subrange(0, i + 1).filter(pred) == (if pred(s[i]) {
            s.subrange(0, i).filter(pred).push(s[i])
        } else {
            s.subrange(0, i).filter(pred)
        }),
{
    let s1 = s.subrange(0, i + 1);
    assert(s1.len() == i + 1);
    assert(s1.drop_last() =~= s.subrange(0, i));
    reveal(Seq::filter);
    assert(s1.last() == s[i]);
}

/// Posting a question keeps the ledger valid.
pub proof fn lemma_post_question_valid(
    s: LedgerState,
    caller: Address,
    now: u64,
    payment: u128,
    title: String,
    description: String,
    deadline: u64,
)
    requires
        s.valid(),
        s.post_question_error(now, payment, title, description, deadline) is None,
    ensures
        s.after_post_question(caller, now, payment, title, description, deadline).valid(),
{
    let post = s.after_post_question(caller, now, payment, title, description, deadline);
    assert forall|i: int| 0 <= i < post.questions.len() implies post.approval_coherent(
        #[trigger] post.questions[i],
    ) by {
        if i < s.questions.len() {
            assert(s.approval_coherent(s.questions[i]));
        }
    }
    assert forall|i: int|
        0 <= i < post.answers.len()
            && #[trigger] post.answers[i].approved_by_creator implies post.question(
        post.answers[i].question_id,
    ).approved_answer_id == Some((i + 1) as u64) by {
        assert(s.has_question(s.answers[i].question_id));
    }
}

/// Submitting an answer keeps the ledger valid.
pub proof fn lemma_submit_answer_valid(
    s: LedgerState,
    caller: Address,
    now: u64,
    question_id: u64,
    title: String,
    description: String,
)
    requires
        s.valid(),
        s.submit_answer_error(caller, now, question_id) is None,
    ensures
        s.after_submit_answer(caller, now, question_id, title, description).valid(),
{
    let post = s.after_submit_answer(caller, now, question_id, title, description);
    assert forall|i: int| 0 <= i < post.questions.len() implies post.approval_coherent(
        #[trigger] post.questions[i],
    ) by {
        assert(s.approval_coherent(s.questions[i]));
    }
    assert forall|i: int|
        0 <= i < post.answers.len()
            && #[trigger] post.answers[i].approved_by_creator implies post.question(
        post.answers[i].question_id,
    ).approved_answer_id == Some((i + 1) as u64) by {
        assert(s.has_question(s.answers[i].question_id));
    }
    assert forall|i: int| 0 <= i < post.answers.len() implies post.has_question(
        #[trigger] post.answers[i].question_id,
    ) by {
        if i < s.answers.len() {
            assert(s.has_question(s.answers[i].question_id));
        }
    }
}

/// Approving an answer keeps the ledger valid.
pub proof fn lemma_approve_answer_valid(s: LedgerState, caller: Address, now: u64, question_id: u64, answer_id: u64)
    requires
        s.valid(),
        s.approve_answer_error(caller, now, question_id, answer_id) is None,
    ensures
        s.after_approve_answer(question_id, answer_id).valid(),
{
    let post = s.after_approve_answer(question_id, answer_id);
    // The approved answer was not approved before: its question was still open.
    assert(!s.answer(answer_id).approved_by_creator) by {
        assert(s.approval_coherent(s.questions[question_id - 1]));
    }
    assert forall|i: int| 0 <= i < post.questions.len() implies post.approval_coherent(
        #[trigger] post.questions[i],
    ) by {
        assert(s.approval_coherent(s.questions[i]));
    }
    assert forall|i: int|
        0 <= i < post.answers.len()
            && #[trigger] post.answers[i].approved_by_creator implies post.question(
        post.answers[i].question_id,
    ).approved_answer_id == Some((i + 1) as u64) by {
        assert(s.has_question(s.answers[i].question_id));
    }
    assert forall|i: int| 0 <= i < post.answers.len() implies post.has_question(
        #[trigger] post.answers[i].question_id,
    ) by {
        assert(s.has_question(s.answers[i].question_id));
    }
}

/// Refunding a question keeps the ledger valid.
pub proof fn lemma_refund_question_valid(s: LedgerState, caller: Address, now: u64, question_id: u64)
    requires
        s.valid(),
        s.refund_question_error(caller, now, question_id) is None,
    ensures
        s.after_refund_question(question_id).valid(),
{
    let post = s.after_refund_question(question_id);
    assert forall|i: int| 0 <= i < post.questions.len() implies post.approval_coherent(
        #[trigger] post.questions[i],
    ) by {
        assert(s.approval_coherent(s.questions[i]));
    }
    assert forall|i: int|
        0 <= i < post.answers.len()
            && #[trigger] post.answers[i].approved_by_creator implies post.question(
        post.answers[i].question_id,
    ).approved_answer_id == Some((i + 1) as u64) by {
        assert(s.has_question(s.answers[i].question_id));
        if s.answers[i].question_id == question_id {
            assert(s.approval_coherent(s.questions[question_id - 1]));
        }
    }
    assert forall|i: int| 0 <= i < post.answers.len() implies post.has_question(
        #[trigger] post.answers[i].question_id,
    ) by {
        assert(s.has_question(s.answers[i].question_id));
    }
}

} // verus!
