//! The executable ledger: one value holding all questions, answers and the
//! marketplace configuration. Every operation takes the authenticated caller
//! and the current block time from its environment.
use vstd::prelude::*;

use crate::error::LedgerError;
use crate::laws::Operation;
use crate::model::{
    answers_question, display_status, has_status, lemma_approve_answer_valid,
    lemma_filter_prefix_step, lemma_post_question_valid, lemma_refund_question_valid,
    lemma_submit_answer_valid, open_at, overdue_at, LedgerState, MIN_EGLD_LOCKED,
};
use crate::types::{Address, Answer, Payout, Question, QuestionCreatedEventData, QuestionStatus};

verus! {

/// The marketplace ledger.
pub struct StackTokenContract {
    owner: Address,
    paused: bool,
    question_counter: u64,
    answer_counter: u64,
    questions: Vec<Question>,
    answers: Vec<Answer>,
}

impl View for StackTokenContract {
    type V = LedgerState;

    closed spec fn view(&self) -> LedgerState {
        LedgerState {
            owner: self.owner,
            paused: self.paused,
            question_counter: self.question_counter as nat,
            answer_counter: self.answer_counter as nat,
            questions: self.questions@,
            answers: self.answers@,
        }
    }
}

impl StackTokenContract {
    /// The ledger satisfies its invariant; every operation keeps it so.
    pub open spec fn wf(&self) -> bool {
        self@.valid()
    }

    /// A fresh ledger owned by `caller`, unpaused, with no questions or answers.
    pub fn init(caller: Address) -> (r: StackTokenContract)
        ensures
            r.wf(),
            r@ == LedgerState::initial(caller),
    {
        let r = StackTokenContract {
            owner: caller,
            paused: false,
            question_counter: 0,
            answer_counter: 0,
            questions: Vec::new(),
            answers: Vec::new(),
        };
        assert(r@.questions =~= Seq::<Question>::empty());
        assert(r@.answers =~= Seq::<Answer>::empty());
        r
    }

    /// The position of question `id` in the store, if it was ever created.
    fn question_index(&self, id: u64) -> (r: Option<usize>)
        requires
            self.wf(),
        ensures
            r is Some <==> self@.has_question(id),
            r matches Some(i) ==> i == id - 1,
    {
        let n = self.questions.len();
        if id == 0 || id - 1 >= n as u64 {
            None
        } else {
            Some((id - 1) as usize)
        }
    }

    /// The position of answer `id` in the store, if it was ever created.
    fn answer_index(&self, id: u64) -> (r: Option<usize>)
        requires
            self.wf(),
        ensures
            r is Some <==> self@.has_answer(id),
            r matches Some(i) ==> i == id - 1,
    {
        let n = self.answers.len();
        if id == 0 || id - 1 >= n as u64 {
            None
        } else {
            Some((id - 1) as usize)
        }
    }

    /// Posts a question, locking `payment` as its deposit until the question is
    /// approved or refunded. Returns the new question's ID and the data of its
    /// creation notice.
    pub fn post_question(
        &mut self,
        caller: Address,
        now: u64,
        payment: u128,
        title: String,
        description: String,
        deadline: u64,
    ) -> (r: Result<(u64, QuestionCreatedEventData), LedgerError>)
        requires
            old(self).wf(),
        ensures
            final(self).wf(),
            final(self)@ == old(self)@.step(
                (Operation::PostQuestion { caller, now, payment, title, description, deadline }),
            ),
            match r {
                Ok((id, data)) => {
                    &&& old(self)@.post_question_error(now, payment, title, description, deadline)
                        is None
                    &&& final(self)@ == old(self)@.after_post_question(
                        caller,
                        now,
                        payment,
                        title,
                        description,
                        deadline,
                    )
                    &&& id == old(self)@.question_counter + 1
                    &&& data == (QuestionCreatedEventData { deadline, locked_amount: payment })
                },
                Err(e) => {
                    &&& old(self)@.post_question_error(now, payment, title, description, deadline)
                        == Some(e)
                    &&& final(self)@ == old(self)@
                },
            },
    {
        if self.paused {
            return Err(LedgerError::InvalidState);
        }
        if payment < MIN_EGLD_LOCKED as u128 {
            return Err(LedgerError::InsufficientDeposit);
        }
        if title.as_str().is_empty() || description.as_str().is_empty() {
            return Err(LedgerError::InvalidInput);
        }
        if deadline <= now {
            return Err(LedgerError::InvalidDeadline);
        }
        if self.question_counter == u64::MAX {
            return Err(LedgerError::InvalidState);
        }
        let qid = self.question_counter + 1;
        let question = Question {
            question_id: qid,
            creator: caller,
            title,
            description,
            deadline,
            locked_amount: payment,
            created_at: now,
            status: QuestionStatus::Created,
            approved_answer_id: None,
        };
        self.questions.push(question);
        self.question_counter = qid;
        proof {
            let pre = old(self)@;
            assert(self@ =~= pre.after_post_question(
                caller,
                now,
                payment,
                title,
                description,
                deadline,
            ));
            lemma_post_question_valid(pre, caller, now, payment, title, description, deadline);
        }
        Ok((qid, QuestionCreatedEventData { deadline, locked_amount: payment }))
    }

    /// Submits an answer to question `question_id` on behalf of `caller`.
    /// Returns the new answer's ID.
    pub fn submit_answer(
        &mut self,
        caller: Address,
        now: u64,
        question_id: u64,
        title: String,
        description: String,
    ) -> (r: Result<u64, LedgerError>)
        requires
            old(self).wf(),
        ensures
            final(self).wf(),
            final(self)@ == old(self)@.step(
                (Operation::SubmitAnswer { caller, now, question_id, title, description }),
            ),
            match r {
                Ok(id) => {
                    &&& old(self)@.submit_answer_error(caller, now, question_id) is None
                    &&& final(self)@ == old(self)@.after_submit_answer(
                        caller,
                        now,
                        question_id,
                        title,
                        description,
                    )
                    &&& id == old(self)@.answer_counter + 1
                },
                Err(e) => {
                    &&& old(self)@.submit_answer_error(caller, now, question_id) == Some(e)
                    &&& final(self)@ == old(self)@
                },
            },
    {
        if self.paused {
            return Err(LedgerError::InvalidState);
        }
        let idx = match self.question_index(question_id) {
            Some(i) => i,
            None => {
                return Err(LedgerError::NotFound);
            },
        };
        let status = self.questions[idx].status;
        if !status.still_open() {
            return Err(LedgerError::QuestionClosed);
        }
        if now >= self.questions[idx].deadline {
            return Err(LedgerError::DeadlinePassed);
        }
        if caller.same(&self.questions[idx].creator) {
            return Err(LedgerError::SelfAnswerForbidden);
        }
        if self.answer_counter == u64::MAX {
            return Err(LedgerError::InvalidState);
        }
        let aid = self.answer_counter + 1;
        let answer = Answer {
            answer_id: aid,
            question_id,
            creator: caller,
            title,
            description,
            created_at: now,
            votes: 0,
            approved_by_creator: false,
        };
        self.answers.push(answer);
        self.answer_counter = aid;
        if status == QuestionStatus::Created {
            let mut question = self.questions[idx].clone();
            question.status = QuestionStatus::Answered;
            self.questions.set(idx, question);
        }
        proof {
            let pre = old(self)@;
            assert(self@ =~= pre.after_submit_answer(caller, now, question_id, title, description));
            lemma_submit_answer_valid(pre, caller, now, question_id, title, description);
        }
        Ok(aid)
    }

    /// Approves answer `answer_id` of question `question_id`, closing the
    /// question. Returns the release of the deposit to the answer's author.
    pub fn approve_answer(&mut self, caller: Address, now: u64, question_id: u64, answer_id: u64) -> (r:
        Result<Payout, LedgerError>)
        requires
            old(self).wf(),
        ensures
            final(self).wf(),
            final(self)@ == old(self)@.step(
                (Operation::ApproveAnswer { caller, now, question_id, answer_id }),
            ),
            old(self)@.release((Operation::ApproveAnswer { caller, now, question_id, answer_id }))
                == (match r {
                Ok(p) => Some((question_id, p)),
                Err(_) => None,
            }),
            match r {
                Ok(p) => {
                    &&& old(self)@.approve_answer_error(caller, now, question_id, answer_id) is None
                    &&& final(self)@ == old(self)@.after_approve_answer(question_id, answer_id)
                    &&& p == old(self)@.approval_payout(question_id, answer_id)
                },
                Err(e) => {
                    &&& old(self)@.approve_answer_error(caller, now, question_id, answer_id) == Some(e)
                    &&& final(self)@ == old(self)@
                },
            },
    {
        let qidx = match self.question_index(question_id) {
            Some(i) => i,
            None => {
                return Err(LedgerError::NotFound);
            },
        };
        if !caller.same(&self.questions[qidx].creator) {
            return Err(LedgerError::Unauthorized);
        }
        if now < self.questions[qidx].deadline {
            return Err(LedgerError::TooEarly);
        }
        if !self.questions[qidx].status.still_open() {
            return Err(LedgerError::AlreadyClosed);
        }
        let aidx = match self.answer_index(answer_id) {
            Some(i) => i,
            None => {
                return Err(LedgerError::NotFound);
            },
        };
        if self.answers[aidx].question_id != question_id {
            return Err(LedgerError::AnswerMismatch);
        }
        let mut question = self.questions[qidx].clone();
        question.status = QuestionStatus::AnswerApproved;
        question.approved_answer_id = Some(answer_id);
        let mut answer = self.answers[aidx].clone();
        answer.approved_by_creator = true;
        let payout = Payout { recipient: answer.creator, amount: question.locked_amount };
        self.questions.set(qidx, question);
        self.answers.set(aidx, answer);
        proof {
            let pre = old(self)@;
            assert(self@ =~= pre.after_approve_answer(question_id, answer_id));
            lemma_approve_answer_valid(pre, caller, now, question_id, answer_id);
        }
        Ok(payout)
    }

    /// Refunds question `question_id` to its creator after its deadline,
    /// closing it. Returns the release of the deposit to the creator.
    pub fn refund_question(&mut self, caller: Address, now: u64, question_id: u64) -> (r: Result<
        Payout,
        LedgerError,
    >)
        requires
            old(self).wf(),
        ensures
            final(self).wf(),
            final(self)@ == old(self)@.step((Operation::RefundQuestion { caller, now, question_id })),
            old(self)@.release((Operation::RefundQuestion { caller, now, question_id })) == (match r {
                Ok(p) => Some((question_id, p)),
                Err(_) => None,
            }),
            match r {
                Ok(p) => {
                    &&& old(self)@.refund_question_error(caller, now, question_id) is None
                    &&& final(self)@ == old(self)@.after_refund_question(question_id)
                    &&& p == old(self)@.refund_payout(question_id)
                },
                Err(e) => {
                    &&& old(self)@.refund_question_error(caller, now, question_id) == Some(e)
                    &&& final(self)@ == old(self)@
                },
            },
    {
        let qidx = match self.question_index(question_id) {
            Some(i) => i,
            None => {
                return Err(LedgerError::NotFound);
            },
        };
        if !caller.same(&self.questions[qidx].creator) {
            return Err(LedgerError::Unauthorized);
        }
        if now < self.questions[qidx].deadline {
            return Err(LedgerError::TooEarly);
        }
        if !self.questions[qidx].status.still_open() {
            return Err(LedgerError::AlreadyClosed);
        }
        let mut question = self.questions[qidx].clone();
        question.status = QuestionStatus::Expired;
        let payout = Payout { recipient: question.creator, amount: question.locked_amount };
        self.questions.set(qidx, question);
        proof {
            let pre = old(self)@;
            assert(self@ =~= pre.after_refund_question(question_id));
            lemma_refund_question_valid(pre, caller, now, question_id);
        }
        Ok(payout)
    }

    /// The questions open for answers at `now`: not yet closed and with a deadline after `now`, in increasing ID order.
    pub fn get_all_open_questions(&self, now: u64) -> (r: Vec<Question>)
        requires
            self.wf(),
        ensures
            r@ == self@.open_questions(now),
    {
        let mut r: Vec<Question> = Vec::new();
        let mut i: usize = 0;
        while i < self.questions.len()
            invariant
                i <= self.questions@.len(),
                r@ == self.questions@.subrange(0, i as int).filter(open_at(now)),
            decreases self.questions@.len() - i,
        {
            proof {
                lemma_filter_prefix_step(self.questions@, open_at(now), i as int);
            }
            let q = &self.questions[i];
            if q.status.still_open() && q.deadline > now {
                r.push(q.clone());
            }
            i = i + 1;
        }
        assert(self.questions@.subrange(0, i as int) =~= self.questions@);
        r
    }

    /// The questions whose stored status is `status`, in increasing ID order.
    pub fn get_questions_by_status(&self, status: QuestionStatus) -> (r: Vec<Question>)
        requires
            self.wf(),
        ensures
            r@ == self@.questions_with_status(status),
    {
        let mut r: Vec<Question> = Vec::new();
        let mut i: usize = 0;
        while i < self.questions.len()
            invariant
                i <= self.questions@.len(),
                r@ == self.questions@.subrange(0, i as int).filter(has_status(status)),
            decreases self.questions@.len() - i,
        {
            proof {
                lemma_filter_prefix_step(self.questions@, has_status(status), i as int);
            }
            let q = &self.questions[i];
            if q.status == status {
                r.push(q.clone());
            }
            i = i + 1;
        }
        assert(self.questions@.subrange(0, i as int) =~= self.questions@);
        r
    }

    /// The questions whose deadline has passed at `now` but whose deposit is still held, in increasing ID order.
    pub fn get_expired_questions(&self, now: u64) -> (r: Vec<Question>)
        requires
            self.wf(),
        ensures
            r@ == self@.overdue_questions(now),
    {
        let mut r: Vec<Question> = Vec::new();
        let mut i: usize = 0;
        while i < self.questions.len()
            invariant
                i <= self.questions@.len(),
                r@ == self.questions@.subrange(0, i as int).filter(overdue_at(now)),
            decreases self.questions@.len() - i,
        {
            proof {
                lemma_filter_prefix_step(self.questions@, overdue_at(now), i as int);
            }
            let q = &self.questions[i];
            if now >= q.deadline && q.status.still_open() {
                r.push(q.clone());
            }
            i = i + 1;
        }
        assert(self.questions@.subrange(0, i as int) =~= self.questions@);
        r
    }

    /// Every answer to question `question_id`, in the order they were submitted.
    pub fn get_answers_for_question(&self, question_id: u64) -> (r: Vec<Answer>)
        requires
            self.wf(),
        ensures
            r@ == self@.answers_for(question_id),
    {
        let mut r: Vec<Answer> = Vec::new();
        let mut i: usize = 0;
        while i < self.answers.len()
            invariant
                i <= self.answers@.len(),
                r@ == self.answers@.subrange(0, i as int).filter(answers_question(question_id)),
            decreases self.answers@.len() - i,
        {
            proof {
                lemma_filter_prefix_step(self.answers@, answers_question(question_id), i as int);
            }
            let a = &self.answers[i];
            if a.question_id == question_id {
                r.push(a.clone());
            }
            i = i + 1;
        }
        assert(self.answers@.subrange(0, i as int) =~= self.answers@);
        r
    }

    /// Question `question_id`, or `None` if that ID was never assigned.
    pub fn get_question_details(&self, question_id: u64) -> (r: Option<Question>)
        requires
            self.wf(),
        ensures
            r == (if self@.has_question(question_id) {
                Some(self@.question(question_id))
            } else {
                None
            }),
    {
        match self.question_index(question_id) {
            Some(i) => Some(self.questions[i].clone()),
            None => None,
        }
    }

    /// The status shown for question `question_id` at `now`: a question past its
    /// deadline that still holds its deposit shows as `Expired`, though its stored
    /// status is unchanged. `None` if the ID was never assigned.
    pub fn check_and_update_question_status(&self, question_id: u64, now: u64) -> (r: Option<
        QuestionStatus,
    >)
        requires
            self.wf(),
        ensures
            r == (if self@.has_question(question_id) {
                Some(display_status(self@.question(question_id), now))
            } else {
                None
            }),
    {
        match self.question_index(question_id) {
            Some(i) => {
                let q = &self.questions[i];
                if now >= q.deadline && q.status.still_open() {
                    Some(QuestionStatus::Expired)
                } else {
                    Some(q.status)
                }
            },
            None => None,
        }
    }

    /// Pauses the marketplace: new questions and answers are refused, while approvals and refunds go on. Owner only.
    pub fn pause_contract(&mut self, caller: Address) -> (r: Result<(), LedgerError>)
        requires
            old(self).wf(),
        ensures
            final(self).wf(),
            final(self)@ == old(self)@.step((Operation::PauseContract { caller })),
            match r {
                Ok(()) => {
                    &&& old(self)@.owner_error(caller) is None
                    &&& final(self)@ == old(self)@.with_paused(true)
                },
                Err(e) => {
                    &&& old(self)@.owner_error(caller) == Some(e)
                    &&& final(self)@ == old(self)@
                },
            },
    {
        if !caller.same(&self.owner) {
            return Err(LedgerError::Unauthorized);
        }
        self.paused = true;
        Ok(())
    }

    /// Lifts the pause. Owner only.
    pub fn unpause_contract(&mut self, caller: Address) -> (r: Result<(), LedgerError>)
        requires
            old(self).wf(),
        ensures
            final(self).wf(),
            final(self)@ == old(self)@.step((Operation::UnpauseContract { caller })),
            match r {
                Ok(()) => {
                    &&& old(self)@.owner_error(caller) is None
                    &&& final(self)@ == old(self)@.with_paused(false)
                },
                Err(e) => {
                    &&& old(self)@.owner_error(caller) == Some(e)
                    &&& final(self)@ == old(self)@
                },
            },
    {
        if !caller.same(&self.owner) {
            return Err(LedgerError::Unauthorized);
        }
        self.paused = false;
        Ok(())
    }

    /// Hands ownership of the marketplace to `new_owner`. Owner only.
    pub fn transfer_ownership(&mut self, caller: Address, new_owner: Address) -> (r: Result<(), LedgerError>)
        requires
            old(self).wf(),
        ensures
            final(self).wf(),
            final(self)@ == old(self)@.step((Operation::TransferOwnership { caller, new_owner })),
            match r {
                Ok(()) => {
                    &&& old(self)@.owner_error(caller) is None
                    &&& final(self)@ == old(self)@.with_owner(new_owner)
                },
                Err(e) => {
                    &&& old(self)@.owner_error(caller) == Some(e)
                    &&& final(self)@ == old(self)@
                },
            },
    {
        if !caller.same(&self.owner) {
            return Err(LedgerError::Unauthorized);
        }
        self.owner = new_owner;
        Ok(())
    }

    /// The current owner.
    pub fn get_owner(&self) -> (r: Address)
        ensures
            r == self@.owner,
    {
        self.owner
    }

    /// Whether the marketplace is paused.
    pub fn is_contract_paused(&self) -> (r: bool)
        ensures
            r == self@.paused,
    {
        self.paused
    }

    /// The number of questions ever posted.
    pub fn get_total_questions(&self) -> (r: u64)
        ensures
            r == self@.question_counter,
    {
        self.question_counter
    }

    /// The number of answers ever submitted.
    pub fn get_total_answers(&self) -> (r: u64)
        ensures
            r == self@.answer_counter,
    {
        self.answer_counter
    }

    /// The total questions, the total answers and the pause flag.
    pub fn get_contract_stats(&self) -> (r: (u64, u64, bool))
        ensures
            r.0 == self@.question_counter,
            r.1 == self@.answer_counter,
            r.2 == self@.paused,
    {
        (self.question_counter, self.answer_counter, self.paused)
    }
}

} // verus!
