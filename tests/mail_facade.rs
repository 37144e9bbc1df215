use std::sync::Arc;

use tuta_sdk::services::MailUpdateRequest;
use tuta_sdk::{
    ApiCallError, GeneratedId, IdTupleGenerated, MailFacade, MailSetKind, MailUpdate,
    SimpleMoveMailPostIn, UnreadMailStatePostIn, UpdateStep,
};

fn facade() -> MailFacade<(), (), ()> {
    MailFacade::new(Arc::new(()), Arc::new(()), Arc::new(()))
}

fn generate_id_tuples(amt: usize) -> Vec<IdTupleGenerated> {
    (0..amt as u64)
        .map(|i| {
            IdTupleGenerated::new(GeneratedId::from_raw(1000 + i), GeneratedId::from_raw(5000 + i))
        })
        .collect()
}

fn repeated_id_tuples(amt: usize) -> Vec<IdTupleGenerated> {
    std::iter::repeat(IdTupleGenerated::new(
        GeneratedId::from_raw(77),
        GeneratedId::from_raw(78),
    ))
    .take(amt)
    .collect()
}

/// Sends every request the update asks for, answering each with success, and
/// returns the requests in the order they were asked for, with the final result.
fn run_all_ok(update: &mut MailUpdate) -> (Vec<MailUpdateRequest>, Result<(), ApiCallError>) {
    let mut posted = Vec::new();
    let mut step = update.advance(Ok(()));
    loop {
        match step {
            UpdateStep::Post(request) => {
                posted.push(request);
                step = update.advance(Ok(()));
            }
            UpdateStep::Finished(result) => return (posted, result),
        }
    }
}

fn unread_request(unread: bool, mails: Vec<IdTupleGenerated>) -> MailUpdateRequest {
    MailUpdateRequest::UnreadMailState(UnreadMailStatePostIn { format: 0, unread, mails })
}

fn trash_request(mails: Vec<IdTupleGenerated>) -> MailUpdateRequest {
    MailUpdateRequest::SimpleMoveMail(SimpleMoveMailPostIn {
        format: 0,
        destination_set_type: MailSetKind::Trash.code(),
        mails,
    })
}

#[test]
fn mark_mail_split() {
    for unread in [true, false] {
        let mails = generate_id_tuples(100);
        let first_invocation = unread_request(unread, mails[..50].to_vec());
        let second_invocation = unread_request(unread, mails[50..].to_vec());
        let mut update = facade().unread_status_update(&mails, unread);
        let (posted, result) = run_all_ok(&mut update);
        assert_eq!(posted, vec![first_invocation, second_invocation]);
        result.unwrap();
    }
}

#[test]
fn mark_mail_deduped() {
    for unread in [true, false] {
        let mails = repeated_id_tuples(100);
        let invocation = unread_request(unread, vec![mails[0].clone()]);
        let mut update = facade().unread_status_update(&mails, unread);
        let (posted, result) = run_all_ok(&mut update);
        assert_eq!(posted, vec![invocation]);
        result.unwrap();
    }
}

#[test]
fn mark_mail_once() {
    for unread in [true, false] {
        let mails = generate_id_tuples(1);
        let invocation = unread_request(unread, mails.clone());
        let mut update = facade().unread_status_update(&mails, unread);
        let (posted, result) = run_all_ok(&mut update);
        assert_eq!(posted, vec![invocation]);
        result.unwrap();
    }
}

#[test]
fn trash_mail_split() {
    let mails = generate_id_tuples(100);
    let first_invocation = trash_request(mails[..50].to_vec());
    let second_invocation = trash_request(mails[50..].to_vec());
    let mut update = facade().trash_update(&mails);
    let (posted, result) = run_all_ok(&mut update);
    assert_eq!(posted, vec![first_invocation, second_invocation]);
    result.unwrap();
}

#[test]
fn trash_mail_dedupe() {
    let mails = repeated_id_tuples(100);
    let invocation = trash_request(vec![mails[0].clone()]);
    let mut update = facade().trash_update(&mails);
    let (posted, result) = run_all_ok(&mut update);
    assert_eq!(posted, vec![invocation]);
    result.unwrap();
}

#[test]
fn trash_mail_one() {
    let mails = generate_id_tuples(1);
    let invocation = trash_request(mails.clone());
    let mut update = facade().trash_update(&mails);
    let (posted, result) = run_all_ok(&mut update);
    assert_eq!(posted, vec![invocation]);
    result.unwrap();
}
