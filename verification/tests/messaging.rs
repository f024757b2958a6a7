use chat_server::error::{Error, StoreFault};
use chat_server::event::{BridgeAction, BridgeInput, BridgeState, EventHub, HubSignal, Message, HUB_CAPACITY};
use chat_server::event::{bridge_step, sessions_offered, BroadcastEvent, HeartbeatMessage};
use chat_server::message::{
    build_chat_message, build_chat_messages, chat_event, count_dm_unread, count_group_unread, get_by_mids,
    get_history_msg, pending_message, send_msg, store_message, widen, ChatMessage, ChatMessagePayload, HistoryMsgGroup, HistoryMsgReq,
    HistoryMsgUser, HistoryReq, MessageContent, MessageDetail, MessageNormal, MessageReplay, MessageTarget,
    MessageTargetGroup, MessageTargetUser, SendMsgFault, SendMsgReq, UnRead,
};
use chat_server::store::{ConversationKey, MsgDb};
use std::collections::BTreeSet;
use std::sync::Arc;

fn to_user(uid: i32) -> MessageTarget {
    MessageTarget::User(MessageTargetUser { uid })
}

fn to_group(gid: i32) -> MessageTarget {
    MessageTarget::Group(MessageTargetGroup { gid })
}

fn payload(from: i32, target: MessageTarget, text: &str) -> ChatMessagePayload {
    SendMsgReq { msg: text.to_string() }.build_payload(from, target, 1_700_000_000)
}

#[test]
fn direct_message_reaches_store_and_live_session() {
    let hub = EventHub::new();
    let mut db = MsgDb::restore(100, vec![]).unwrap();
    let mut live = hub.subscribe(2);
    let mut sender = hub.subscribe(1);
    let mut stranger = hub.subscribe(3);
    let mid = send_msg(payload(1, to_user(2), "hi"), b"hi", &vec![], true, &mut db, &hub).unwrap();
    assert_eq!(mid, 100);
    match live.poll() {
        BridgeAction::Push(Message::ChatMessage(message)) => {
            assert_eq!(message.mid, 100);
            assert_eq!(message.payload.from_uid, 1);
            assert_eq!(message.payload.detail.get_content(), "hi");
        }
        other => panic!("{:?}", other),
    }
    assert!(matches!(sender.poll(), BridgeAction::Push(Message::ChatMessage(_))));
    assert!(matches!(stranger.poll(), BridgeAction::Idle));
    assert!(matches!(live.poll(), BridgeAction::Idle));
    let mut late = hub.subscribe(2);
    assert!(matches!(late.poll(), BridgeAction::Idle));
    assert_eq!(db.fetch_dm_messages_before(2, 1, None, 10), vec![(100, b"hi".to_vec())]);
}

#[test]
fn group_message_is_stored_once_and_offered_to_members() {
    let hub = EventHub::new();
    let mut db = MsgDb::restore(200, vec![]).unwrap();
    let mut member = hub.subscribe(3);
    let mut outsider = hub.subscribe(4);
    let mid = send_msg(payload(1, to_group(9), "yo"), b"yo", &vec![1, 2, 3], true, &mut db, &hub).unwrap();
    assert_eq!(mid, 200);
    assert!(matches!(member.poll(), BridgeAction::Push(Message::ChatMessage(_))));
    assert!(matches!(outsider.poll(), BridgeAction::Idle));
    assert_eq!(db.fetch_group_messages_before(9, None, 10), vec![(200, b"yo".to_vec())]);
    assert_eq!(db.records().len(), 1);
    assert_eq!(db.records()[0].audience, vec![1, 2, 3]);
    assert_eq!(db.fetch_user_messages_after(2, None, 10), vec![(200, b"yo".to_vec())]);
    assert_eq!(db.fetch_user_messages_after(4, None, 10), vec![]);
}

#[test]
fn send_without_sessions_still_stores() {
    let hub = EventHub::new();
    let mut db = MsgDb::new();
    assert_eq!(send_msg(payload(1, to_user(2), "a"), b"a", &vec![], true, &mut db, &hub), Ok(1));
    assert_eq!(hub.broadcast(chat_event(5, payload(1, to_user(2), "b"), &vec![])), 0);
    let session = hub.subscribe(1);
    assert_eq!(session.user(), 1);
    assert_eq!(hub.broadcast(chat_event(6, payload(1, to_user(2), "c"), &vec![])), 1);
}

#[test]
fn send_fails_when_no_identifier_is_left() {
    let hub = EventHub::new();
    let mut db = MsgDb::restore(i64::MAX, vec![]).unwrap();
    let mut live = hub.subscribe(2);
    assert_eq!(
        send_msg(payload(1, to_user(2), "a"), b"a", &vec![], true, &mut db, &hub),
        Err(Error::Db(StoreFault::SequenceExhausted))
    );
    assert!(matches!(live.poll(), BridgeAction::Idle));
    assert!(store_message(payload(1, to_group(2), "a"), b"a", &vec![1], &mut db).is_err());
    assert_eq!(db.records().len(), 0);
}

#[test]
fn failed_write_leaves_no_trace() {
    let hub = EventHub::new();
    let mut db = MsgDb::new();
    let mut live = hub.subscribe(2);
    db.send_to_dm(1, 2, b"before").unwrap();
    assert_eq!(
        send_msg(payload(1, to_user(2), "lost"), b"lost", &vec![], false, &mut db, &hub),
        Err(Error::Db(StoreFault::WriteFailed))
    );
    assert!(matches!(live.poll(), BridgeAction::Idle));
    assert_eq!(db.next_id(), 2);
    assert_eq!(db.fetch_dm_messages_before(1, 2, None, 10), vec![(1, b"before".to_vec())]);
    assert_eq!(send_msg(payload(1, to_user(2), "kept"), b"kept", &vec![], true, &mut db, &hub), Ok(2));
    assert!(matches!(live.poll(), BridgeAction::Push(Message::ChatMessage(_))));
    let mut full = MsgDb::restore(i64::MAX, vec![]).unwrap();
    assert_eq!(
        send_msg(payload(1, to_user(2), "x"), b"x", &vec![], false, &mut full, &hub),
        Err(Error::Db(StoreFault::SequenceExhausted))
    );
}

#[test]
fn pending_record_is_what_gets_stored() {
    let hub = EventHub::new();
    let mut db = MsgDb::restore(40, vec![]).unwrap();
    let direct = pending_message(5, to_user(3), b"d", &vec![9], &db).unwrap();
    assert_eq!((direct.id, direct.key), (40, ConversationKey::Dm { low: 3, high: 5 }));
    assert_eq!((direct.audience, direct.payload), (vec![5, 3], b"d".to_vec()));
    assert_eq!(db.records().len(), 0);
    assert_eq!(send_msg(payload(5, to_user(3), "d"), b"d", &vec![9], true, &mut db, &hub), Ok(40));
    let stored = db.records().pop().unwrap();
    assert_eq!((stored.id, stored.key, stored.audience, stored.payload), (40, direct.key, vec![5, 3], b"d".to_vec()));
    let group = pending_message(5, to_group(8), b"g", &vec![5, 6], &db).unwrap();
    assert_eq!((group.id, group.key, group.audience), (41, ConversationKey::Group { gid: 8 }, vec![5, 6]));
    let full = MsgDb::restore(i64::MAX, vec![]).unwrap();
    assert_eq!(
        pending_message(5, to_user(3), b"d", &vec![], &full).err(),
        Some(Error::Db(StoreFault::SequenceExhausted))
    );
}

#[test]
fn event_names_the_users_it_is_for() {
    match chat_event(7, payload(5, to_user(2), "x"), &vec![8, 9]) {
        BroadcastEvent::Chat { targets, message } => {
            assert_eq!(targets, BTreeSet::from([2, 5]));
            assert_eq!(message.mid, 7);
        }
    }
    match chat_event(7, payload(5, to_group(2), "x"), &vec![8, 9, 8]) {
        BroadcastEvent::Chat { targets, .. } => assert_eq!(targets, BTreeSet::from([8, 9])),
    }
    assert_eq!(widen(&vec![-1, 0, i32::MAX]), vec![-1i64, 0, 2147483647]);
}

#[test]
fn session_that_lags_is_closed() {
    let hub = EventHub::new();
    let mut slow = hub.subscribe(2);
    for i in 0..(HUB_CAPACITY as i64 + 2) {
        hub.broadcast(chat_event(i, payload(1, to_user(2), "x"), &vec![]));
    }
    assert!(matches!(slow.poll(), BridgeAction::Close));
    assert!(slow.is_terminated());
    assert!(matches!(slow.poll(), BridgeAction::Close));
}

#[test]
fn session_within_capacity_loses_nothing() {
    let hub = EventHub::new();
    let mut session = hub.subscribe(2);
    for i in 0..(HUB_CAPACITY as i64) {
        assert_eq!(hub.broadcast(chat_event(i, payload(1, to_user(2), "x"), &vec![])), 1);
    }
    for i in 0..(HUB_CAPACITY as i64) {
        match session.poll() {
            BridgeAction::Push(Message::ChatMessage(message)) => assert_eq!(message.mid, i),
            other => panic!("{:?}", other),
        }
    }
    assert!(matches!(session.poll(), BridgeAction::Idle));
    assert!(!session.is_terminated());
}

#[test]
fn offered_sessions_are_counted() {
    assert_eq!(sessions_offered(Some(3)), 3);
    assert_eq!(sessions_offered(Some(1)), 1);
    assert_eq!(sessions_offered(None), 0);
}

#[test]
fn session_ends_with_the_hub() {
    let hub = EventHub::new();
    let mut session = hub.subscribe(2);
    drop(hub);
    assert!(!session.is_terminated());
    assert!(matches!(session.poll(), BridgeAction::Close));
    assert!(session.is_terminated());
}

#[test]
fn bridge_steps_through_its_states() {
    let event = |targets: &[i32]| {
        Arc::new(BroadcastEvent::Chat {
            targets: targets.iter().copied().collect(),
            message: ChatMessage::new(1, payload(1, to_user(2), "x")),
        })
    };
    let (state, action) = bridge_step(BridgeState::Connected, 2, BridgeInput::Hub(HubSignal::Event(event(&[1, 2]))));
    assert_eq!(state, BridgeState::Connected);
    assert!(matches!(action, BridgeAction::Push(Message::ChatMessage(_))));
    let (state, action) = bridge_step(BridgeState::Connected, 3, BridgeInput::Hub(HubSignal::Event(event(&[1, 2]))));
    assert_eq!(state, BridgeState::Connected);
    assert!(matches!(action, BridgeAction::Idle));
    let (state, action) = bridge_step(BridgeState::Connected, 2, BridgeInput::HeartbeatDue { now: 77 });
    assert_eq!(state, BridgeState::Connected);
    assert!(matches!(action, BridgeAction::Push(Message::Heartbeat(HeartbeatMessage { time: 77 }))));
    let (state, action) = bridge_step(BridgeState::Connected, 2, BridgeInput::Hub(HubSignal::Empty));
    assert_eq!(state, BridgeState::Connected);
    assert!(matches!(action, BridgeAction::Idle));
    for input in [
        BridgeInput::Hub(HubSignal::Closed),
        BridgeInput::Hub(HubSignal::Lagged(3)),
        BridgeInput::PushFailed,
    ] {
        let (state, action) = bridge_step(BridgeState::Connected, 2, input);
        assert_eq!(state, BridgeState::Terminated);
        assert!(matches!(action, BridgeAction::Close));
    }
    let (state, action) = bridge_step(BridgeState::Terminated, 2, BridgeInput::HeartbeatDue { now: 1 });
    assert_eq!(state, BridgeState::Terminated);
    assert!(matches!(action, BridgeAction::Close));
}

#[test]
fn session_takes_inputs_from_its_caller() {
    let hub = EventHub::new();
    let mut session = hub.subscribe(2);
    assert!(matches!(session.on(BridgeInput::HeartbeatDue { now: 5 }), BridgeAction::Push(Message::Heartbeat(_))));
    hub.broadcast(chat_event(4, payload(1, to_user(2), "x"), &vec![]));
    let taken = session.receiver().try_recv().unwrap();
    assert!(matches!(session.on(BridgeInput::Hub(HubSignal::Event(taken))), BridgeAction::Push(_)));
    assert!(matches!(session.on(BridgeInput::PushFailed), BridgeAction::Close));
    assert!(session.is_terminated());
    assert!(matches!(session.on(BridgeInput::HeartbeatDue { now: 6 }), BridgeAction::Close));
}

#[test]
fn frames_have_names() {
    assert_eq!(Message::Heartbeat(HeartbeatMessage { time: 1 }).to_string(), "Heartbeat");
    assert_eq!(Message::ChatMessage(ChatMessage::new(1, payload(1, to_user(2), "x"))).to_string(), "ChatMessage");
}

#[test]
fn request_needs_text() {
    assert_eq!(SendMsgReq { msg: String::new() }.validate(), Err(SendMsgFault::Blank));
    assert_eq!(SendMsgReq { msg: "x".to_string() }.validate(), Ok(()));
    assert_eq!(SendMsgReq { msg: "好".to_string() }.validate(), Ok(()));
    assert_eq!(SendMsgFault::Blank.code(), "1");
    assert_eq!(SendMsgFault::Blank.message(), "msg is blank");
}

#[test]
fn payload_is_built_from_the_request() {
    let built = SendMsgReq { msg: "hello".to_string() }.build_payload(4, to_group(6), 123);
    assert_eq!(built.from_uid, 4);
    assert_eq!(built.created_at, 123);
    assert_eq!(built.target, to_group(6));
    assert!(matches!(built.detail, MessageDetail::Normal(_)));
    assert_eq!(built.detail.get_content(), "hello");
    let copy = built.clone();
    assert_eq!(copy.detail.get_content(), "hello");
    assert_eq!(copy.created_at, 123);
}

#[test]
fn content_of_both_kinds_of_detail() {
    let normal = MessageDetail::Normal(MessageNormal { content: MessageContent { content: "a".to_string() } });
    let reply = MessageDetail::Replay(MessageReplay { mid: 3, content: MessageContent { content: "b".to_string() } });
    assert_eq!(normal.get_content(), "a");
    assert_eq!(reply.get_content(), "b");
    assert!(matches!(reply.clone(), MessageDetail::Replay(MessageReplay { mid: 3, .. })));
}

#[test]
fn target_has_a_label() {
    assert_eq!(to_user(12).label(), "MessageTargetUser:12");
    assert_eq!(to_group(-3).label(), "MessageTargetGroup:-3");
    assert_eq!(String::from(to_user(0)), "MessageTargetUser:0");
    assert_eq!(String::from(to_group(i32::MIN)), "MessageTargetGroup:-2147483648");
}

#[test]
fn history_request_reads_its_conversation() {
    let mut db = MsgDb::new();
    for i in 0..4u8 {
        db.send_to_dm(1, 2, &[i]).unwrap();
        db.send_to_group(2, vec![1, 2], &[10 + i]).unwrap();
    }
    let user = HistoryMsgReq::User(HistoryMsgUser {
        from_id: 2,
        to_id: 1,
        history: HistoryReq { before: Some(7), limit: 2 },
    });
    assert_eq!(get_history_msg(&db, user), vec![(5, vec![2]), (3, vec![1])]);
    let group = HistoryMsgReq::Group(HistoryMsgGroup { gid: 2, history: HistoryReq { before: None, limit: 1000 } });
    assert_eq!(get_history_msg(&db, group), vec![(8, vec![13]), (6, vec![12]), (4, vec![11]), (2, vec![10])]);
}

#[test]
fn undecodable_entries_are_left_out() {
    let decoded = vec![
        (3, Some(payload(1, to_user(2), "c"))),
        (2, None),
        (1, Some(payload(2, to_user(1), "a"))),
    ];
    let messages = build_chat_messages(decoded);
    assert_eq!(messages.iter().map(|m| m.mid).collect::<Vec<i64>>(), vec![3, 1]);
    assert_eq!(messages[1].payload.detail.get_content(), "a");
    assert!(build_chat_message(1, None).is_none());
    assert_eq!(build_chat_message(9, Some(payload(1, to_user(2), "z"))).unwrap().mid, 9);
    assert!(build_chat_messages(vec![]).is_empty());
}

#[test]
fn messages_are_found_by_their_identifiers() {
    let mut db = MsgDb::new();
    db.send_to_dm(1, 2, b"a").unwrap();
    db.send_to_dm(1, 2, b"b").unwrap();
    assert_eq!(get_by_mids(vec![2, 7, 1, 2], &db), vec![(2, b"b".to_vec()), (1, b"a".to_vec()), (2, b"b".to_vec())]);
    assert_eq!(get_by_mids(vec![], &db), vec![]);
}

#[test]
fn unread_is_all_or_a_count_or_nothing() {
    let mut db = MsgDb::new();
    assert_eq!(count_dm_unread(1, 2, None, &db), Some(UnRead::ALL));
    assert_eq!(count_group_unread(1, None, &db), Some(UnRead::ALL));
    assert_eq!(count_dm_unread(1, 2, Some(0), &db), None);
    db.send_to_dm(1, 2, b"a").unwrap();
    db.send_to_group(5, vec![1, 2], b"g").unwrap();
    db.send_to_dm(2, 1, b"b").unwrap();
    db.send_to_dm(1, 2, b"c").unwrap();
    assert_eq!(count_dm_unread(2, 1, Some(1), &db), Some(UnRead::Part(2)));
    assert_eq!(count_dm_unread(2, 1, Some(4), &db), None);
    assert_eq!(count_group_unread(5, Some(1), &db), Some(UnRead::Part(1)));
    assert_eq!(count_group_unread(5, Some(2), &db), None);
    assert_eq!(count_group_unread(6, Some(0), &db), None);
    assert_eq!(UnRead::ALL.to_string(), "all");
    assert_eq!(UnRead::Part(12).to_string(), "12");
}
