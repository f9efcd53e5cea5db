use stacktoken::{
    Address, ErrorKind, LedgerError, Payout, QuestionCreatedEventData, QuestionStatus,
    StackTokenContract, MIN_EGLD_LOCKED,
};

const NOW: u64 = 1_000;
const MIN: u128 = MIN_EGLD_LOCKED as u128;

fn addr(b: u8) -> Address {
    Address { bytes: [b; 32] }
}

fn owner() -> Address {
    addr(1)
}

fn alice() -> Address {
    addr(2)
}

fn bob() -> Address {
    addr(3)
}

fn carol() -> Address {
    addr(4)
}

fn text(s: &str) -> String {
    s.to_string()
}

/// A ledger holding one question by alice, deposit = minimum, deadline = NOW + 100.
fn with_question() -> StackTokenContract {
    let mut c = StackTokenContract::init(owner());
    let r = c.post_question(alice(), NOW, MIN, text("title"), text("description"), NOW + 100);
    assert_eq!(
        r,
        Ok((1, QuestionCreatedEventData { deadline: NOW + 100, locked_amount: MIN }))
    );
    c
}

#[test]
fn scenario_a_answer_moves_question_to_answered() {
    let mut c = with_question();
    assert_eq!(c.submit_answer(bob(), NOW + 50, 1, text("a"), text("b")), Ok(1));
    let q = c.get_question_details(1).unwrap();
    assert_eq!(q.status, QuestionStatus::Answered);
}

#[test]
fn scenario_b_approval_pays_answerer_once() {
    let mut c = with_question();
    assert_eq!(c.submit_answer(bob(), NOW + 50, 1, text("a"), text("b")), Ok(1));
    let payout = c.approve_answer(alice(), NOW + 150, 1, 1);
    assert_eq!(payout, Ok(Payout { recipient: bob(), amount: MIN }));
    let q = c.get_question_details(1).unwrap();
    assert_eq!(q.status, QuestionStatus::AnswerApproved);
    assert_eq!(q.approved_answer_id, Some(1));
    let answers = c.get_answers_for_question(1);
    assert!(answers[0].approved_by_creator);
    assert_eq!(c.approve_answer(alice(), NOW + 160, 1, 1), Err(LedgerError::AlreadyClosed));
    assert_eq!(c.refund_question(alice(), NOW + 160, 1), Err(LedgerError::AlreadyClosed));
    assert_eq!(LedgerError::AlreadyClosed.kind(), ErrorKind::InvalidState);
}

#[test]
fn scenario_c_refund_without_answers() {
    let mut c = with_question();
    assert_eq!(c.get_all_open_questions(NOW + 10).len(), 1);
    let payout = c.refund_question(alice(), NOW + 100, 1);
    assert_eq!(payout, Ok(Payout { recipient: alice(), amount: MIN }));
    assert_eq!(c.get_question_details(1).unwrap().status, QuestionStatus::Expired);
    assert!(c.get_all_open_questions(NOW + 10).is_empty());
    assert!(c.get_expired_questions(NOW + 200).is_empty());
}

#[test]
fn scenario_d_non_creator_cannot_approve() {
    let mut c = with_question();
    assert_eq!(c.submit_answer(bob(), NOW + 50, 1, text("a"), text("b")), Ok(1));
    let before_q = c.get_question_details(1);
    let before_a = c.get_answers_for_question(1);
    let before_stats = c.get_contract_stats();
    assert_eq!(c.approve_answer(carol(), NOW + 150, 1, 1), Err(LedgerError::Unauthorized));
    assert_eq!(c.approve_answer(bob(), NOW + 150, 1, 1), Err(LedgerError::Unauthorized));
    assert_eq!(c.get_question_details(1), before_q);
    assert_eq!(c.get_answers_for_question(1), before_a);
    assert_eq!(c.get_contract_stats(), before_stats);
}

#[test]
fn scenario_e_pause_blocks_posting_not_refunds() {
    let mut c = with_question();
    assert_eq!(c.pause_contract(owner()), Ok(()));
    assert!(c.is_contract_paused());
    let r = c.post_question(alice(), NOW, MIN, text("t"), text("d"), NOW + 100);
    assert_eq!(r, Err(LedgerError::InvalidState));
    assert_eq!(c.submit_answer(bob(), NOW + 50, 1, text("a"), text("b")), Err(LedgerError::InvalidState));
    let payout = c.refund_question(alice(), NOW + 150, 1);
    assert_eq!(payout, Ok(Payout { recipient: alice(), amount: MIN }));
    assert_eq!(c.unpause_contract(owner()), Ok(()));
    assert!(!c.is_contract_paused());
    let r = c.post_question(alice(), NOW, MIN, text("t"), text("d"), NOW + 100);
    assert_eq!(r.map(|x| x.0), Ok(2));
}

#[test]
fn counters_only_grow_and_ids_are_fresh() {
    let mut c = with_question();
    assert_eq!(c.post_question(bob(), NOW, MIN + 5, text("t2"), text("d2"), NOW + 10).map(|x| x.0), Ok(2));
    // A rejected post allocates nothing.
    assert_eq!(c.post_question(bob(), NOW, MIN - 1, text("t"), text("d"), NOW + 10), Err(LedgerError::InsufficientDeposit));
    assert_eq!(c.get_total_questions(), 2);
    assert_eq!(c.submit_answer(carol(), NOW, 2, text("a"), text("b")), Ok(1));
    assert_eq!(c.submit_answer(carol(), NOW, 1, text("a"), text("b")), Ok(2));
    assert_eq!(c.submit_answer(alice(), NOW, 1, text("a"), text("b")), Err(LedgerError::SelfAnswerForbidden));
    assert_eq!(c.get_total_answers(), 2);
    assert_eq!(c.get_question_details(2).unwrap().question_id, 2);
    assert_eq!(c.get_answers_for_question(2)[0].answer_id, 1);
    assert_eq!(c.get_answers_for_question(1)[0].answer_id, 2);
    assert_eq!(c.get_contract_stats(), (2, 2, false));
}

#[test]
fn deposit_released_once_by_refund() {
    let mut c = with_question();
    assert_eq!(c.submit_answer(bob(), NOW + 1, 1, text("a"), text("b")), Ok(1));
    assert_eq!(c.refund_question(alice(), NOW + 100, 1), Ok(Payout { recipient: alice(), amount: MIN }));
    assert_eq!(c.approve_answer(alice(), NOW + 101, 1, 1), Err(LedgerError::AlreadyClosed));
    assert_eq!(c.refund_question(alice(), NOW + 101, 1), Err(LedgerError::AlreadyClosed));
    assert_eq!(c.get_question_details(1).unwrap().locked_amount, MIN);
}

#[test]
fn second_answer_keeps_status() {
    let mut c = with_question();
    assert_eq!(c.get_question_details(1).unwrap().status, QuestionStatus::Created);
    assert_eq!(c.submit_answer(bob(), NOW + 1, 1, text("a1"), text("b1")), Ok(1));
    let after_first = c.get_question_details(1);
    assert_eq!(after_first.as_ref().unwrap().status, QuestionStatus::Answered);
    assert_eq!(c.submit_answer(carol(), NOW + 2, 1, text("a2"), text("b2")), Ok(2));
    assert_eq!(c.get_question_details(1), after_first);
    let answers = c.get_answers_for_question(1);
    assert_eq!(answers.len(), 2);
    assert_eq!(answers[0].creator, bob());
    assert_eq!(answers[1].creator, carol());
    assert_eq!(answers[1].title, "a2");
    assert_eq!(answers[1].votes, 0);
    assert!(!answers[1].approved_by_creator);
}

#[test]
fn posted_question_reads_back() {
    let mut c = StackTokenContract::init(owner());
    let r = c.post_question(alice(), NOW, MIN + 42, text("Why?"), text("Because."), NOW + 7);
    assert_eq!(r.map(|x| x.0), Ok(1));
    let q = c.get_question_details(1).unwrap();
    assert_eq!(q.question_id, 1);
    assert_eq!(q.creator, alice());
    assert_eq!(q.title, "Why?");
    assert_eq!(q.description, "Because.");
    assert_eq!(q.deadline, NOW + 7);
    assert_eq!(q.locked_amount, MIN + 42);
    assert_eq!(q.created_at, NOW);
    assert_eq!(q.status, QuestionStatus::Created);
    assert_eq!(q.approved_answer_id, None);
    assert_eq!(c.get_question_details(2), None);
    assert_eq!(c.get_question_details(0), None);
}

#[test]
fn post_question_rejections() {
    let mut c = StackTokenContract::init(owner());
    assert_eq!(c.post_question(alice(), NOW, MIN - 1, text("t"), text("d"), NOW + 1), Err(LedgerError::InsufficientDeposit));
    assert_eq!(c.post_question(alice(), NOW, MIN, text(""), text("d"), NOW + 1), Err(LedgerError::InvalidInput));
    assert_eq!(c.post_question(alice(), NOW, MIN, text("t"), text(""), NOW + 1), Err(LedgerError::InvalidInput));
    assert_eq!(c.post_question(alice(), NOW, MIN, text("t"), text("d"), NOW), Err(LedgerError::InvalidDeadline));
    assert_eq!(c.post_question(alice(), NOW, MIN, text("t"), text("d"), NOW - 1), Err(LedgerError::InvalidDeadline));
    assert_eq!(c.get_total_questions(), 0);
    assert_eq!(LedgerError::InsufficientDeposit.kind(), ErrorKind::InvalidInput);
    assert_eq!(LedgerError::InvalidDeadline.kind(), ErrorKind::InvalidInput);
}

#[test]
fn submit_answer_rejections() {
    let mut c = with_question();
    assert_eq!(c.submit_answer(bob(), NOW, 9, text("a"), text("b")), Err(LedgerError::NotFound));
    assert_eq!(c.submit_answer(bob(), NOW + 100, 1, text("a"), text("b")), Err(LedgerError::DeadlinePassed));
    assert_eq!(c.submit_answer(alice(), NOW, 1, text("a"), text("b")), Err(LedgerError::SelfAnswerForbidden));
    assert_eq!(c.refund_question(alice(), NOW + 100, 1).map(|p| p.amount), Ok(MIN));
    assert_eq!(c.submit_answer(bob(), NOW, 1, text("a"), text("b")), Err(LedgerError::QuestionClosed));
    assert_eq!(c.get_total_answers(), 0);
    assert_eq!(LedgerError::DeadlinePassed.kind(), ErrorKind::TimingViolation);
    assert_eq!(LedgerError::SelfAnswerForbidden.kind(), ErrorKind::Unauthorized);
    assert_eq!(LedgerError::NotFound.kind(), ErrorKind::NotFound);
}

#[test]
fn approve_answer_rejections() {
    let mut c = with_question();
    assert_eq!(c.post_question(bob(), NOW, MIN, text("t"), text("d"), NOW + 10).map(|x| x.0), Ok(2));
    assert_eq!(c.submit_answer(carol(), NOW, 2, text("a"), text("b")), Ok(1));
    assert_eq!(c.approve_answer(alice(), NOW + 200, 5, 1), Err(LedgerError::NotFound));
    assert_eq!(c.approve_answer(alice(), NOW + 99, 1, 1), Err(LedgerError::TooEarly));
    assert_eq!(c.approve_answer(alice(), NOW + 100, 1, 7), Err(LedgerError::NotFound));
    assert_eq!(c.approve_answer(alice(), NOW + 100, 1, 1), Err(LedgerError::AnswerMismatch));
    assert_eq!(c.get_question_details(1).unwrap().status, QuestionStatus::Created);
    assert_eq!(LedgerError::AnswerMismatch.kind(), ErrorKind::Mismatch);
    assert_eq!(LedgerError::TooEarly.kind(), ErrorKind::TimingViolation);
    // Approval is allowed exactly at the deadline.
    assert_eq!(c.approve_answer(bob(), NOW + 10, 2, 1), Ok(Payout { recipient: carol(), amount: MIN }));
}

#[test]
fn refund_question_rejections() {
    let mut c = with_question();
    assert_eq!(c.refund_question(alice(), NOW + 200, 0), Err(LedgerError::NotFound));
    assert_eq!(c.refund_question(bob(), NOW + 200, 1), Err(LedgerError::Unauthorized));
    assert_eq!(c.refund_question(alice(), NOW + 99, 1), Err(LedgerError::TooEarly));
    assert_eq!(c.get_question_details(1).unwrap().status, QuestionStatus::Created);
}

#[test]
fn owner_operations() {
    let mut c = StackTokenContract::init(owner());
    assert_eq!(c.pause_contract(alice()), Err(LedgerError::Unauthorized));
    assert_eq!(c.unpause_contract(alice()), Err(LedgerError::Unauthorized));
    assert_eq!(c.transfer_ownership(alice(), alice()), Err(LedgerError::Unauthorized));
    assert!(!c.is_contract_paused());
    assert_eq!(c.transfer_ownership(owner(), alice()), Ok(()));
    assert_eq!(c.get_owner(), alice());
    assert_eq!(c.pause_contract(owner()), Err(LedgerError::Unauthorized));
    assert_eq!(c.pause_contract(alice()), Ok(()));
    assert_eq!(c.get_contract_stats(), (0, 0, true));
    assert_eq!(LedgerError::Unauthorized.kind(), ErrorKind::Unauthorized);
    assert_eq!(LedgerError::InvalidState.kind(), ErrorKind::InvalidState);
    assert_eq!(LedgerError::InvalidInput.kind(), ErrorKind::InvalidInput);
    assert_eq!(LedgerError::QuestionClosed.kind(), ErrorKind::InvalidState);
}

#[test]
fn queries_by_status_and_time() {
    let mut c = with_question();
    assert_eq!(c.post_question(bob(), NOW, MIN, text("t2"), text("d2"), NOW + 300).map(|x| x.0), Ok(2));
    assert_eq!(c.post_question(bob(), NOW, MIN, text("t3"), text("d3"), NOW + 50).map(|x| x.0), Ok(3));
    assert_eq!(c.submit_answer(alice(), NOW + 1, 2, text("a"), text("b")), Ok(1));
    let open: Vec<u64> = c.get_all_open_questions(NOW + 60).iter().map(|q| q.question_id).collect();
    assert_eq!(open, vec![1, 2]);
    let overdue: Vec<u64> = c.get_expired_questions(NOW + 60).iter().map(|q| q.question_id).collect();
    assert_eq!(overdue, vec![3]);
    let created: Vec<u64> = c.get_questions_by_status(QuestionStatus::Created).iter().map(|q| q.question_id).collect();
    assert_eq!(created, vec![1, 3]);
    let answered: Vec<u64> = c.get_questions_by_status(QuestionStatus::Answered).iter().map(|q| q.question_id).collect();
    assert_eq!(answered, vec![2]);
    assert!(c.get_questions_by_status(QuestionStatus::Expired).is_empty());
    // Shown as expired once overdue, while the stored status stays as it was.
    assert_eq!(c.check_and_update_question_status(3, NOW + 60), Some(QuestionStatus::Expired));
    assert_eq!(c.check_and_update_question_status(3, NOW + 10), Some(QuestionStatus::Created));
    assert_eq!(c.check_and_update_question_status(2, NOW + 10), Some(QuestionStatus::Answered));
    assert_eq!(c.check_and_update_question_status(4, NOW), None);
    assert_eq!(c.get_question_details(3).unwrap().status, QuestionStatus::Created);
    assert!(c.get_answers_for_question(3).is_empty());
    assert!(c.get_answers_for_question(9).is_empty());
}
