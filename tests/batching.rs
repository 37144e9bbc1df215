use tuta_sdk::batching::{dedup_mails, mail_update_batches, split_into_batches, MAX_MAIL_UPDATE_LIMIT};
use tuta_sdk::{GeneratedId, IdTupleGenerated};

fn key(list: u64, element: u64) -> IdTupleGenerated {
    IdTupleGenerated::new(GeneratedId::from_raw(list), GeneratedId::from_raw(element))
}

fn keys(amt: u64) -> Vec<IdTupleGenerated> {
    (0..amt).map(|i| key(1, i)).collect()
}

#[test]
fn dedup_removes_only_adjacent_repeats() {
    let a = key(1, 1);
    let b = key(1, 2);
    assert_eq!(dedup_mails(&vec![a, a, b, b, b, a, a]), vec![a, b, a]);
}

#[test]
fn dedup_keeps_separated_repeats() {
    let a = key(1, 1);
    let b = key(1, 2);
    let batches = mail_update_batches(&vec![a, b, a]);
    assert_eq!(batches, vec![vec![a, b, a]]);
}

#[test]
fn dedup_of_empty_is_empty() {
    assert_eq!(dedup_mails(&Vec::new()), Vec::<IdTupleGenerated>::new());
}

#[test]
fn dedup_compares_both_parts_of_the_key() {
    let a = key(1, 1);
    let same_element_other_list = key(2, 1);
    assert_eq!(dedup_mails(&vec![a, same_element_other_list]), vec![a, same_element_other_list]);
}

#[test]
fn split_cuts_in_order_with_remainder_last() {
    let mails = keys(5);
    let pieces = split_into_batches(&mails, 2);
    assert_eq!(pieces, vec![mails[0..2].to_vec(), mails[2..4].to_vec(), mails[4..5].to_vec()]);
}

#[test]
fn split_of_empty_has_no_pieces() {
    assert!(split_into_batches(&Vec::new(), 3).is_empty());
}

#[test]
fn batches_of_exactly_the_limit_are_one_request() {
    let mails = keys(MAX_MAIL_UPDATE_LIMIT as u64);
    assert_eq!(mail_update_batches(&mails), vec![mails.clone()]);
}

#[test]
fn batches_of_one_over_the_limit_are_two_requests() {
    let mails = keys(101);
    let batches = mail_update_batches(&mails);
    assert_eq!(batches.len(), 3);
    assert_eq!(batches[0], mails[0..50].to_vec());
    assert_eq!(batches[1], mails[50..100].to_vec());
    assert_eq!(batches[2], mails[100..101].to_vec());
    assert_eq!(batches.concat(), mails);
}

#[test]
fn distinct_keys_split_into_ceiling_of_length_over_limit() {
    for len in [0u64, 1, 49, 50, 51, 100, 149, 150, 151] {
        let mails = keys(len);
        let batches = mail_update_batches(&mails);
        assert_eq!(batches.len() as u64, (len + 49) / 50);
        assert!(batches.iter().all(|b| !b.is_empty() && b.len() <= 50));
        assert_eq!(batches.concat(), mails);
    }
}
