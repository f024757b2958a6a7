use chat_server::error::{Error, StoreFault};
use chat_server::store::{ConversationKey, MsgDb, StoredMessage};

fn sample(id: i64, key: ConversationKey, audience: Vec<i64>, text: &str) -> StoredMessage {
    StoredMessage { id, key, audience, payload: text.as_bytes().to_vec() }
}

#[test]
fn send_msg() {
    let mut db = MsgDb::new();
    let id = db.send_to_dm(1, 2, b"hello").unwrap();
    assert_eq!(id, 1);
    assert_eq!(db.fetch_dm_messages_before(1, 2, None, 10), vec![(1, b"hello".to_vec())]);
}

#[test]
fn identifiers_rise_across_conversations() {
    let mut db = MsgDb::new();
    let a = db.send_to_dm(1, 2, b"a").unwrap();
    let b = db.send_to_group(7, vec![1, 2, 3], b"b").unwrap();
    let c = db.send_to_dm(3, 4, b"c").unwrap();
    let d = db.send_to_dm(2, 1, b"d").unwrap();
    assert_eq!((a, b, c, d), (1, 2, 3, 4));
    assert_eq!(db.next_id(), 5);
}

#[test]
fn conversations_are_apart() {
    let mut db = MsgDb::new();
    db.send_to_dm(1, 2, b"to two").unwrap();
    db.send_to_dm(1, 3, b"to three").unwrap();
    db.send_to_group(1, vec![1, 2], b"to group one").unwrap();
    assert_eq!(db.fetch_dm_messages_before(1, 2, None, 10), vec![(1, b"to two".to_vec())]);
    assert_eq!(db.fetch_dm_messages_before(1, 3, None, 10), vec![(2, b"to three".to_vec())]);
    assert_eq!(db.fetch_group_messages_before(1, None, 10), vec![(3, b"to group one".to_vec())]);
    assert_eq!(db.fetch_group_messages_before(2, None, 10), vec![]);
    assert_eq!(db.count_dm_messages_after(1, 3, 0), 1);
    assert_eq!(db.count_group_messages_after(2, 0), 0);
}

#[test]
fn dm_is_found_from_both_sides() {
    let mut db = MsgDb::new();
    let id = db.send_to_dm(5, 3, b"payload").unwrap();
    assert_eq!(db.fetch_dm_messages_before(3, 5, None, 1), vec![(id, b"payload".to_vec())]);
    assert_eq!(db.fetch_dm_messages_before(5, 3, None, 1), vec![(id, b"payload".to_vec())]);
    assert_eq!(ConversationKey::dm(5, 3), ConversationKey::Dm { low: 3, high: 5 });
    assert_eq!(ConversationKey::dm(3, 5), ConversationKey::dm(5, 3));
}

#[test]
fn pages_join_to_the_whole_history() {
    let mut db = MsgDb::new();
    for i in 0..7u8 {
        db.send_to_dm(1, 2, &[i]).unwrap();
        db.send_to_dm(1, 9, &[100 + i]).unwrap();
    }
    let whole = db.fetch_dm_messages_before(1, 2, None, usize::MAX);
    assert_eq!(whole.iter().map(|e| e.0).collect::<Vec<i64>>(), vec![13, 11, 9, 7, 5, 3, 1]);
    for page_size in 1..9usize {
        let mut joined = Vec::new();
        let mut before = None;
        loop {
            let page = db.fetch_dm_messages_before(1, 2, before, page_size);
            if page.is_empty() {
                break;
            }
            assert!(page.len() <= page_size);
            before = Some(page[page.len() - 1].0);
            joined.extend(page);
        }
        assert_eq!(joined, whole);
    }
}

#[test]
fn fetch_before_respects_bound_and_limit() {
    let mut db = MsgDb::new();
    for i in 0..5u8 {
        db.send_to_group(4, vec![1], &[i]).unwrap();
    }
    assert_eq!(db.fetch_group_messages_before(4, Some(4), 2), vec![(3, vec![2]), (2, vec![1])]);
    assert_eq!(db.fetch_group_messages_before(4, Some(1), 2), vec![]);
    assert_eq!(db.fetch_group_messages_before(4, None, 0), vec![]);
    assert_eq!(db.fetch_group_messages_before(4, Some(100), 1), vec![(5, vec![4])]);
}

#[test]
fn user_feed_is_oldest_first_over_all_conversations() {
    let mut db = MsgDb::new();
    db.send_to_dm(1, 2, b"a").unwrap();
    db.send_to_group(7, vec![2, 3], b"b").unwrap();
    db.send_to_dm(3, 1, b"c").unwrap();
    db.send_to_dm(2, 3, b"d").unwrap();
    assert_eq!(
        db.fetch_user_messages_after(2, None, 10),
        vec![(1, b"a".to_vec()), (2, b"b".to_vec()), (4, b"d".to_vec())]
    );
    assert_eq!(db.fetch_user_messages_after(2, Some(1), 1), vec![(2, b"b".to_vec())]);
    assert_eq!(db.fetch_user_messages_after(1, Some(1), 10), vec![(3, b"c".to_vec())]);
    assert_eq!(db.fetch_user_messages_after(9, None, 10), vec![]);
}

#[test]
fn get_finds_by_identifier() {
    let mut db = MsgDb::new();
    db.send_to_dm(1, 2, b"a").unwrap();
    db.send_to_dm(1, 2, b"b").unwrap();
    db.send_to_dm(1, 2, b"c").unwrap();
    assert_eq!(db.get(1), Some(b"a".to_vec()));
    assert_eq!(db.get(2), Some(b"b".to_vec()));
    assert_eq!(db.get(3), Some(b"c".to_vec()));
    assert_eq!(db.get(0), None);
    assert_eq!(db.get(4), None);
}

#[test]
fn counts_messages_after_an_identifier() {
    let mut db = MsgDb::new();
    db.send_to_dm(1, 2, b"a").unwrap();
    db.send_to_group(3, vec![1, 2], b"g").unwrap();
    db.send_to_dm(2, 1, b"b").unwrap();
    db.send_to_dm(1, 2, b"c").unwrap();
    assert_eq!(db.count_dm_messages_after(1, 2, 1), 2);
    assert_eq!(db.count_dm_messages_after(2, 1, 0), 3);
    assert_eq!(db.count_dm_messages_after(1, 2, 4), 0);
    assert_eq!(db.count_group_messages_after(3, 1), 1);
    assert_eq!(db.count_group_messages_after(3, 2), 0);
    assert_eq!(db.count_group_messages_after(99, 0), 0);
}

#[test]
fn exhausted_sequence_fails_and_changes_nothing() {
    let mut db = MsgDb::restore(i64::MAX, vec![sample(5, ConversationKey::dm(1, 2), vec![1, 2], "x")]).unwrap();
    assert_eq!(db.send_to_dm(1, 2, b"y"), Err(Error::Db(StoreFault::SequenceExhausted)));
    assert_eq!(db.send_to_group(1, vec![1], b"y"), Err(Error::Db(StoreFault::SequenceExhausted)));
    assert_eq!(db.fetch_dm_messages_before(1, 2, None, 10), vec![(5, b"x".to_vec())]);
    assert_eq!(db.next_id(), i64::MAX);
    assert_eq!(Error::Db(StoreFault::SequenceExhausted).message(), "message sequence exhausted");
}

#[test]
fn restore_accepts_a_log_and_goes_on_from_it() {
    let log = vec![
        sample(3, ConversationKey::dm(1, 2), vec![1, 2], "a"),
        sample(8, ConversationKey::group(4), vec![1, 2, 3], "b"),
    ];
    let mut db = MsgDb::restore(100, log).unwrap();
    assert_eq!(db.send_to_dm(2, 1, b"c"), Ok(100));
    assert_eq!(db.fetch_dm_messages_before(1, 2, None, 10), vec![(100, b"c".to_vec()), (3, b"a".to_vec())]);
    let copy = db.records();
    assert_eq!(copy.len(), 3);
    assert_eq!(copy[2].id, 100);
    assert_eq!(copy[2].audience, vec![2, 1]);
    assert_eq!(copy[1].key, ConversationKey::Group { gid: 4 });
    let again = MsgDb::restore(db.next_id(), copy).unwrap();
    assert_eq!(again.get(8), Some(b"b".to_vec()));
}

#[test]
fn reopened_store_gives_no_identifier_twice() {
    let mut empty = MsgDb::reopen(vec![]).unwrap();
    assert_eq!(empty.next_id(), 1);
    assert_eq!(empty.send_to_dm(1, 2, b"a"), Ok(1));
    let log = vec![
        sample(3, ConversationKey::dm(1, 2), vec![1, 2], "a"),
        sample(8, ConversationKey::group(4), vec![1, 2, 3], "b"),
    ];
    let mut db = MsgDb::reopen(log).unwrap();
    assert_eq!(db.next_id(), 9);
    assert_eq!(db.send_to_group(4, vec![1], b"c"), Ok(9));
    assert_eq!(db.fetch_group_messages_before(4, None, 10), vec![(9, b"c".to_vec()), (8, b"b".to_vec())]);
    let unordered = vec![
        sample(8, ConversationKey::dm(1, 2), vec![1, 2], "a"),
        sample(3, ConversationKey::dm(1, 2), vec![1, 2], "b"),
    ];
    assert!(matches!(MsgDb::reopen(unordered), Err(Error::InvalidData)));
    let at_the_end = vec![sample(i64::MAX, ConversationKey::dm(1, 2), vec![1, 2], "a")];
    assert!(matches!(MsgDb::reopen(at_the_end), Err(Error::InvalidData)));
    let last_but_one = vec![sample(i64::MAX - 1, ConversationKey::dm(1, 2), vec![1, 2], "a")];
    let mut full = MsgDb::reopen(last_but_one).unwrap();
    assert_eq!(full.send_to_dm(1, 2, b"x"), Err(Error::Db(StoreFault::SequenceExhausted)));
    assert_eq!(Error::Db(StoreFault::WriteFailed).message(), "message could not be written");
}

#[test]
fn restore_refuses_what_is_no_log() {
    let unordered = vec![
        sample(3, ConversationKey::dm(1, 2), vec![1, 2], "a"),
        sample(3, ConversationKey::dm(1, 2), vec![1, 2], "b"),
    ];
    assert!(matches!(MsgDb::restore(10, unordered), Err(Error::InvalidData)));
    let beyond = vec![sample(10, ConversationKey::dm(1, 2), vec![1, 2], "a")];
    assert!(matches!(MsgDb::restore(10, beyond), Err(Error::InvalidData)));
    let swapped = vec![sample(1, ConversationKey::Dm { low: 2, high: 1 }, vec![1, 2], "a")];
    assert!(matches!(MsgDb::restore(10, swapped), Err(Error::InvalidData)));
    assert_eq!(Error::InvalidData.message(), "invalid data");
}
