//! Chat messages: what a sender hands in, what the store keeps for it and
//! what a reader gets back.

use crate::error::{Error, StoreFault};
use crate::event::{recipients, BroadcastEvent, EventHub, EventView};
use crate::store::{
    count_after, entries, first_n, history_before, page_view, payload_of, ConversationKey, MsgDb, Record,
    StoredMessage,
};
use crate::text::{decimal, signed_text, unsigned_text};
use vstd::prelude::*;

verus! {

/// The user a direct message goes to.
#[derive(Copy, Clone, Debug, Hash, PartialEq, Eq, Structural)]
pub struct MessageTargetUser {
    pub uid: i32,
}

/// The group a group message goes to.
#[derive(Copy, Clone, Debug, Hash, PartialEq, Eq, Structural)]
pub struct MessageTargetGroup {
    pub gid: i32,
}

/// Where a message goes: to one user or to a group.
#[derive(Copy, Clone, Debug, Hash, PartialEq, Eq, Structural)]
pub enum MessageTarget {
    User(MessageTargetUser),
    Group(MessageTargetGroup),
}

impl MessageTarget {
    /// The label of a target: the kind of target, a colon and its identifier.
    pub open spec fn spec_label(self) -> Seq<char> {
        match self {
            MessageTarget::User(user) => "MessageTargetUser:"@ + decimal(user.uid as int),
            MessageTarget::Group(group) => "MessageTargetGroup:"@ + decimal(group.gid as int),
        }
    }

    /// The label of this target.
    pub fn label(&self) -> (text: String)
        ensures
            text@ == self.spec_label(),
    {
        match self {
            MessageTarget::User(user) => {
                let number = signed_text(user.uid as i64);
                String::from_str("MessageTargetUser:").concat(number.as_str())
            },
            MessageTarget::Group(group) => {
                let number = signed_text(group.gid as i64);
                String::from_str("MessageTargetGroup:").concat(number.as_str())
            },
        }
    }
}

impl From<MessageTarget> for String {
    fn from(value: MessageTarget) -> (text: String)
        ensures
            text@ == value.spec_label(),
    {
        value.label()
    }
}

/// Two strings of one text need not be the same value, so the conversion is
/// stated on `from` itself, by the text of its result.
impl vstd::std_specs::convert::FromSpecImpl<MessageTarget> for String {
    open spec fn obeys_from_spec() -> bool {
        false
    }

    open spec fn from_spec(value: MessageTarget) -> String {
        arbitrary()
    }
}

/// The text of a message.
#[derive(Debug)]
pub struct MessageContent {
    pub content: String,
}

/// An ordinary message.
#[derive(Debug)]
pub struct MessageNormal {
    pub content: MessageContent,
}

/// A reply to the message with identifier `mid`.
#[derive(Debug)]
pub struct MessageReplay {
    pub mid: i64,
    pub content: MessageContent,
}

/// What a message says: an ordinary text, or a reply to an earlier message.
#[derive(Debug)]
pub enum MessageDetail {
    Normal(MessageNormal),
    Replay(MessageReplay),
}

/// A message detail as contracts speak of it.
pub enum DetailView {
    Normal { content: Seq<char> },
    Replay { mid: i64, content: Seq<char> },
}

impl View for MessageContent {
    type V = Seq<char>;

    open spec fn view(&self) -> Seq<char> {
        self.content@
    }
}

impl View for MessageDetail {
    type V = DetailView;

    open spec fn view(&self) -> DetailView {
        match *self {
            MessageDetail::Normal(normal) => DetailView::Normal { content: normal.content@ },
            MessageDetail::Replay(reply) => DetailView::Replay { mid: reply.mid, content: reply.content@ },
        }
    }
}

impl DetailView {
    /// The text of the message, whichever kind it is.
    pub open spec fn content(self) -> Seq<char> {
        match self {
            DetailView::Normal { content } => content,
            DetailView::Replay { content, .. } => content,
        }
    }
}

impl Clone for MessageContent {
    fn clone(&self) -> (copy: Self)
        ensures
            copy@ == self@,
    {
        MessageContent { content: self.content.clone() }
    }
}

impl Clone for MessageDetail {
    fn clone(&self) -> (copy: Self)
        ensures
            copy@ == self@,
    {
        match self {
            MessageDetail::Normal(normal) => MessageDetail::Normal(MessageNormal { content: normal.content.clone() }),
            MessageDetail::Replay(reply) => MessageDetail::Replay(
                MessageReplay { mid: reply.mid, content: reply.content.clone() },
            ),
        }
    }
}

impl MessageDetail {
    /// The text of the message, whichever kind it is.
    pub fn get_content(&self) -> (text: String)
        ensures
            text@ == self@.content(),
    {
        match self {
            MessageDetail::Normal(msg) => msg.content.content.clone(),
            MessageDetail::Replay(msg) => msg.content.content.clone(),
        }
    }
}

/// What the store keeps of a message, once encoded: who sent it, when,
/// where to and what it says.
#[derive(Debug)]
pub struct ChatMessagePayload {
    /// The sender.
    pub from_uid: i32,
    /// When the message was made, in seconds since the Unix epoch.
    pub created_at: i64,
    pub target: MessageTarget,
    pub detail: MessageDetail,
}

/// A payload as contracts speak of it.
pub struct PayloadView {
    pub from_uid: i32,
    pub created_at: i64,
    pub target: MessageTarget,
    pub detail: DetailView,
}

impl View for ChatMessagePayload {
    type V = PayloadView;

    open spec fn view(&self) -> PayloadView {
        PayloadView {
            from_uid: self.from_uid,
            created_at: self.created_at,
            target: self.target,
            detail: self.detail@,
        }
    }
}

impl Clone for ChatMessagePayload {
    fn clone(&self) -> (copy: Self)
        ensures
            copy@ == self@,
    {
        ChatMessagePayload {
            from_uid: self.from_uid,
            created_at: self.created_at,
            target: self.target,
            detail: self.detail.clone(),
        }
    }
}

/// Why a request to send was turned down before anything was stored.
#[derive(Copy, Clone, Debug, PartialEq, Eq, Structural)]
pub enum SendMsgFault {
    /// The message has no text.
    Blank,
}

impl SendMsgFault {
    /// The code of the fault.
    pub fn code(&self) -> (code: &'static str)
        ensures
            code@ == "1"@,
    {
        "1"
    }

    /// The text shown for the fault.
    pub fn message(&self) -> (text: &'static str)
        ensures
            text@ == "msg is blank"@,
    {
        "msg is blank"
    }
}

/// A request to send a message.
#[derive(Debug)]
pub struct SendMsgReq {
    /// The text; at least one character.
    pub msg: String,
}

impl SendMsgReq {
    /// Accepts a request whose text has at least one character.
    pub fn validate(&self) -> (checked: Result<(), SendMsgFault>)
        ensures
            checked is Ok <==> self.msg@.len() >= 1,
            checked is Err ==> checked == Err::<(), SendMsgFault>(SendMsgFault::Blank),
    {
        if self.msg.as_str().unicode_len() >= 1 {
            Ok(())
        } else {
            Err(SendMsgFault::Blank)
        }
    }

    /// The payload of an ordinary message with this text, sent by `from_uid`
    /// to `message_target` at the time `now`.
    pub fn build_payload(self, from_uid: i32, message_target: MessageTarget, now: i64) -> (payload:
        ChatMessagePayload)
        ensures
            payload@ == (PayloadView {
                from_uid,
                created_at: now,
                target: message_target,
                detail: DetailView::Normal { content: self.msg@ },
            }),
    {
        ChatMessagePayload {
            from_uid,
            created_at: now,
            target: message_target,
            detail: MessageDetail::Normal(MessageNormal { content: MessageContent { content: self.msg } }),
        }
    }
}

/// A stored message: its identifier and its payload.
#[derive(Debug)]
pub struct ChatMessage {
    /// The identifier the store gave.
    pub mid: i64,
    pub payload: ChatMessagePayload,
}

/// A chat message as contracts speak of it.
pub struct ChatMessageView {
    pub mid: i64,
    pub payload: PayloadView,
}

impl View for ChatMessage {
    type V = ChatMessageView;

    open spec fn view(&self) -> ChatMessageView {
        ChatMessageView { mid: self.mid, payload: self.payload@ }
    }
}

impl Clone for ChatMessage {
    fn clone(&self) -> (copy: Self)
        ensures
            copy@ == self@,
    {
        ChatMessage { mid: self.mid, payload: self.payload.clone() }
    }
}

impl ChatMessage {
    /// The message with identifier `mid` and payload `payload`.
    pub fn new(mid: i64, payload: ChatMessagePayload) -> (message: Self)
        ensures
            message == (ChatMessage { mid, payload }),
    {
        ChatMessage { mid, payload }
    }
}

/// How much of a conversation a user has not read.
#[derive(Copy, Clone, Debug, PartialEq, Eq, Structural)]
pub enum UnRead {
    /// The user never read the conversation; the messages are not counted.
    ALL,
    /// So many messages follow the last one the user read.
    Part(usize),
}

impl UnRead {
    /// The text shown for the amount: `all`, or the count in decimal.
    pub open spec fn spec_text(self) -> Seq<char> {
        match self {
            UnRead::ALL => "all"@,
            UnRead::Part(count) => decimal(count as int),
        }
    }

    /// The text shown for the amount.
    pub fn to_string(&self) -> (text: String)
        ensures
            text@ == self.spec_text(),
    {
        match self {
            UnRead::ALL => String::from_str("all"),
            UnRead::Part(count) => unsigned_text(*count as u64),
        }
    }
}

/// Which part of a history is asked for: at most `limit` messages, those
/// below `before` where it is given.
#[derive(Copy, Clone, Debug, PartialEq, Eq, Structural)]
pub struct HistoryReq {
    pub before: Option<i64>,
    pub limit: usize,
}

/// A request for the history of a direct conversation.
#[derive(Copy, Clone, Debug, PartialEq, Eq, Structural)]
pub struct HistoryMsgUser {
    pub from_id: i32,
    pub to_id: i32,
    pub history: HistoryReq,
}

/// A request for the history of a group.
#[derive(Copy, Clone, Debug, PartialEq, Eq, Structural)]
pub struct HistoryMsgGroup {
    pub gid: i32,
    pub history: HistoryReq,
}

/// A request for the history of one conversation.
#[derive(Copy, Clone, Debug, PartialEq, Eq, Structural)]
pub enum HistoryMsgReq {
    User(HistoryMsgUser),
    Group(HistoryMsgGroup),
}

/// The conversation that a message from `from_uid` to `target` belongs to.
pub open spec fn conversation_of(from_uid: i32, target: MessageTarget) -> ConversationKey {
    match target {
        MessageTarget::User(user) => ConversationKey::spec_dm(from_uid as i64, user.uid as i64),
        MessageTarget::Group(group) => ConversationKey::spec_group(group.gid as i64),
    }
}

/// The users a message is for: sender and receiver of a direct message, the
/// members named at send time of a group message.
pub open spec fn audience_of(from_uid: i32, target: MessageTarget, members: Seq<i32>) -> Seq<i32> {
    match target {
        MessageTarget::User(user) => seq![from_uid, user.uid],
        MessageTarget::Group(_) => members,
    }
}

/// User identifiers as the store holds them.
pub open spec fn widened(uids: Seq<i32>) -> Seq<i64> {
    uids.map_values(|uid: i32| uid as i64)
}

/// User identifiers as the store holds them.
pub fn widen(uids: &Vec<i32>) -> (wide: Vec<i64>)
    ensures
        wide@ == widened(uids@),
{
    let mut wide: Vec<i64> = Vec::new();
    let mut i: usize = 0;
    while i < uids.len()
        invariant
            i <= uids.len(),
            wide.len() == i,
            forall|k: int| 0 <= k < i ==> wide@[k] == uids@[k] as i64,
        decreases uids.len() - i,
    {
        wide.push(uids[i] as i64);
        i += 1;
    }
    assert(wide@ =~= widened(uids@));
    wide
}

/// The event that tells of message `mid`: its targets are the users the
/// message is for, its message carries `payload` under `mid`.
pub fn chat_event(mid: i64, payload: ChatMessagePayload, members: &Vec<i32>) -> (event: BroadcastEvent)
    ensures
        event@ == (EventView {
            targets: audience_of(payload.from_uid, payload.target, members@).to_set(),
            message: ChatMessageView { mid, payload: payload@ },
        }),
{
    let targets = match payload.target {
        MessageTarget::User(user) => {
            let mut pair: Vec<i32> = Vec::new();
            pair.push(payload.from_uid);
            pair.push(user.uid);
            assert(pair@ =~= seq![payload.from_uid, user.uid]);
            recipients(&pair)
        },
        MessageTarget::Group(_) => recipients(members),
    };
    BroadcastEvent::Chat { targets, message: ChatMessage::new(mid, payload) }
}

/// Stores the encoded message `bytes` in the conversation that `payload`
/// names and returns the event that tells of it. `members` are the members
/// of the group at this moment; a direct message does not look at them.
/// Fails, storing nothing, when the store has no identifier left.
pub fn store_message(payload: ChatMessagePayload, bytes: &[u8], members: &Vec<i32>, db: &mut MsgDb) -> (stored:
    Result<BroadcastEvent, Error>)
    ensures
        final(db)@.wf(),
        match stored {
            Ok(event) => {
                &&& old(db)@.has_room()
                &&& final(db)@ == old(db)@.append(
                    conversation_of(payload.from_uid, payload.target),
                    widened(audience_of(payload.from_uid, payload.target, members@)),
                    bytes@,
                )
                &&& event@ == (EventView {
                    targets: audience_of(payload.from_uid, payload.target, members@).to_set(),
                    message: ChatMessageView { mid: old(db)@.next_id, payload: payload@ },
                })
            },
            Err(e) => !old(db)@.has_room() && e == Error::Db(StoreFault::SequenceExhausted) && final(db)@ == old(
                db,
            )@,
        },
{
    let from_uid: i32 = payload.from_uid;
    let sent = match payload.target {
        MessageTarget::User(user) => {
            assert(seq![from_uid as i64, user.uid as i64] =~= widened(seq![from_uid, user.uid]));
            db.send_to_dm(from_uid as i64, user.uid as i64, bytes)
        },
        MessageTarget::Group(group) => db.send_to_group(group.gid as i64, widen(members), bytes),
    };
    match sent {
        Ok(mid) => Ok(chat_event(mid, payload, members)),
        Err(e) => Err(e),
    }
}

/// The record that the store will hold for a message from `from_uid` to
/// `target`, once it is sent: under the identifier that the store gives
/// next. It is what has to be written to durable storage before the
/// message is sent. `members` are the members of the group at this moment;
/// a direct message does not look at them. Nothing is changed. Fails when
/// the store has no identifier left.
pub fn pending_message(from_uid: i32, target: MessageTarget, bytes: &[u8], members: &Vec<i32>, db: &MsgDb) -> (pending:
    Result<StoredMessage, Error>)
    ensures
        db@.wf(),
        match pending {
            Ok(record) => db@.has_room() && record@ == (Record {
                id: db@.next_id,
                key: conversation_of(from_uid, target),
                audience: widened(audience_of(from_uid, target, members@)),
                payload: bytes@,
            }),
            Err(e) => !db@.has_room() && e == Error::Db(StoreFault::SequenceExhausted),
        },
{
    let id: i64 = db.next_id();
    if id == i64::MAX {
        return Err(Error::Db(StoreFault::SequenceExhausted));
    }
    let record = match target {
        MessageTarget::User(user) => {
            let mut audience: Vec<i64> = Vec::new();
            audience.push(from_uid as i64);
            audience.push(user.uid as i64);
            assert(audience@ =~= widened(seq![from_uid, user.uid]));
            StoredMessage {
                id,
                key: ConversationKey::dm(from_uid as i64, user.uid as i64),
                audience,
                payload: vstd::slice::slice_to_vec(bytes),
            }
        },
        MessageTarget::Group(group) => StoredMessage {
            id,
            key: ConversationKey::group(group.gid as i64),
            audience: widen(members),
            payload: vstd::slice::slice_to_vec(bytes),
        },
    };
    Ok(record)
}

/// Sends a message whose record is in durable storage, or could not be
/// put there: `written` says which. Where it was written, stores `bytes`,
/// its encoded form, in the conversation that `payload` names, offers the
/// event that tells of it to the sessions connected to `hub`, and returns
/// the identifier the message was given. Whether any session is connected
/// makes no difference to the result. Where the store has no identifier
/// left, or the record was not written, the send fails, and then nothing
/// is stored and nothing published: a write that failed leaves no trace.
pub fn send_msg(
    payload: ChatMessagePayload,
    bytes: &[u8],
    members: &Vec<i32>,
    written: bool,
    db: &mut MsgDb,
    hub: &EventHub,
) -> (sent: Result<i64, Error>)
    ensures
        final(db)@.wf(),
        match sent {
            Ok(mid) => {
                &&& old(db)@.has_room()
                &&& written
                &&& mid == old(db)@.next_id
                &&& final(db)@ == old(db)@.append(
                    conversation_of(payload.from_uid, payload.target),
                    widened(audience_of(payload.from_uid, payload.target, members@)),
                    bytes@,
                )
            },
            Err(e) => {
                &&& final(db)@ == old(db)@
                &&& !old(db)@.has_room() || !written
                &&& e == if !old(db)@.has_room() {
                    Error::Db(StoreFault::SequenceExhausted)
                } else {
                    Error::Db(StoreFault::WriteFailed)
                }
            },
        },
{
    let mid: i64 = db.next_id();
    if mid == i64::MAX {
        return Err(Error::Db(StoreFault::SequenceExhausted));
    }
    if !written {
        return Err(Error::Db(StoreFault::WriteFailed));
    }
    match store_message(payload, bytes, members, db) {
        Ok(event) => {
            hub.broadcast(event);
            Ok(mid)
        },
        Err(e) => Err(e),
    }
}

/// The conversation whose history `request` asks for.
pub open spec fn requested_conversation(request: HistoryMsgReq) -> ConversationKey {
    match request {
        HistoryMsgReq::User(user) => ConversationKey::spec_dm(user.from_id as i64, user.to_id as i64),
        HistoryMsgReq::Group(group) => ConversationKey::spec_group(group.gid as i64),
    }
}

/// The part of the history that `request` asks for.
pub open spec fn requested_part(request: HistoryMsgReq) -> HistoryReq {
    match request {
        HistoryMsgReq::User(user) => user.history,
        HistoryMsgReq::Group(group) => group.history,
    }
}

/// The stored messages that `history_msg_req` asks for, newest first, each
/// with its identifier and its encoded form.
pub fn get_history_msg(db: &MsgDb, history_msg_req: HistoryMsgReq) -> (page: Vec<(i64, Vec<u8>)>)
    ensures
        page_view(page@) == entries(
            first_n(
                history_before(
                    db@.log,
                    requested_conversation(history_msg_req),
                    requested_part(history_msg_req).before,
                ),
                requested_part(history_msg_req).limit as nat,
            ),
        ),
{
    match history_msg_req {
        HistoryMsgReq::User(HistoryMsgUser { from_id, to_id, history: HistoryReq { before, limit } }) => {
            db.fetch_dm_messages_before(from_id as i64, to_id as i64, before, limit)
        },
        HistoryMsgReq::Group(HistoryMsgGroup { gid, history: HistoryReq { before, limit } }) => {
            db.fetch_group_messages_before(gid as i64, before, limit)
        },
    }
}

/// The message that a stored entry stands for, where its payload could be
/// decoded.
pub open spec fn spec_chat_message(mid: i64, decoded: Option<ChatMessagePayload>) -> Option<ChatMessageView> {
    match decoded {
        Some(payload) => Some(ChatMessageView { mid, payload: payload@ }),
        None => None,
    }
}

/// The messages that stored entries stand for, in their order; an entry
/// whose payload could not be decoded is left out.
pub open spec fn spec_chat_messages(msgs: Seq<(i64, Option<ChatMessagePayload>)>) -> Seq<ChatMessageView>
    decreases msgs.len(),
{
    if msgs.len() == 0 {
        Seq::empty()
    } else {
        let earlier = spec_chat_messages(msgs.drop_last());
        match spec_chat_message(msgs.last().0, msgs.last().1) {
            Some(message) => earlier.push(message),
            None => earlier,
        }
    }
}

/// Messages as contracts speak of them.
pub open spec fn messages_view(messages: Seq<ChatMessage>) -> Seq<ChatMessageView> {
    messages.map_values(|m: ChatMessage| m@)
}

/// The message under `mid`, where its payload could be decoded.
pub fn build_chat_message(mid: i64, decoded: Option<ChatMessagePayload>) -> (message: Option<ChatMessage>)
    ensures
        match message {
            Some(m) => spec_chat_message(mid, decoded) == Some(m@),
            None => spec_chat_message(mid, decoded) is None,
        },
{
    match decoded {
        Some(payload) => Some(ChatMessage::new(mid, payload)),
        None => None,
    }
}

/// The messages of a page in its order. An entry whose payload could not
/// be decoded is left out, and the rest still comes.
pub fn build_chat_messages(msgs: Vec<(i64, Option<ChatMessagePayload>)>) -> (messages: Vec<ChatMessage>)
    ensures
        messages_view(messages@) == spec_chat_messages(msgs@),
{
    let mut messages: Vec<ChatMessage> = Vec::new();
    let mut i: usize = 0;
    assert(msgs@.take(0) =~= Seq::<(i64, Option<ChatMessagePayload>)>::empty());
    assert(messages_view(messages@) =~= spec_chat_messages(msgs@.take(0)));
    while i < msgs.len()
        invariant
            i <= msgs.len(),
            messages_view(messages@) == spec_chat_messages(msgs@.take(i as int)),
        decreases msgs.len() - i,
    {
        let ghost shown = messages_view(messages@);
        proof {
            assert(msgs@.take(i + 1).drop_last() =~= msgs@.take(i as int));
            assert(msgs@.take(i + 1).last() == msgs@[i as int]);
        }
        match &msgs[i].1 {
            Some(payload) => {
                let message = ChatMessage::new(msgs[i].0, payload.clone());
                messages.push(message);
                assert(messages_view(messages@) =~= shown.push(message@));
            },
            None => {},
        }
        i += 1;
    }
    assert(msgs@.take(msgs.len() as int) =~= msgs@);
    messages
}

/// The stored entries under the identifiers `mids`, in their order; an
/// identifier that the log does not hold is left out.
pub open spec fn found_entries(log: Seq<Record>, mids: Seq<i64>) -> Seq<(i64, Seq<u8>)>
    decreases mids.len(),
{
    if mids.len() == 0 {
        Seq::empty()
    } else {
        let earlier = found_entries(log, mids.drop_last());
        match payload_of(log, mids.last()) {
            Some(payload) => earlier.push((mids.last(), payload)),
            None => earlier,
        }
    }
}

/// The stored entries under the identifiers `mids`, in their order, each
/// with its encoded form; an identifier without a message is left out.
pub fn get_by_mids(mids: Vec<i64>, db: &MsgDb) -> (found: Vec<(i64, Vec<u8>)>)
    ensures
        page_view(found@) == found_entries(db@.log, mids@),
{
    let mut found: Vec<(i64, Vec<u8>)> = Vec::new();
    let mut i: usize = 0;
    assert(mids@.take(0) =~= Seq::<i64>::empty());
    assert(page_view(found@) =~= found_entries(db@.log, mids@.take(0)));
    while i < mids.len()
        invariant
            i <= mids.len(),
            page_view(found@) == found_entries(db@.log, mids@.take(i as int)),
        decreases mids.len() - i,
    {
        let ghost shown = page_view(found@);
        proof {
            assert(mids@.take(i + 1).drop_last() =~= mids@.take(i as int));
            assert(mids@.take(i + 1).last() == mids@[i as int]);
        }
        let mid: i64 = mids[i];
        match db.get(mid) {
            Some(payload) => {
                found.push((mid, payload));
                assert(page_view(found@) =~= shown.push((mid, payload@)));
            },
            None => {},
        }
        i += 1;
    }
    assert(mids@.take(mids.len() as int) =~= mids@);
    found
}

/// What is shown as unread for a user who last read message `mid` of a
/// conversation that has `newer` messages after it: `ALL` for a user who
/// never read, whatever the conversation holds; nothing where no message
/// is newer; else the count.
pub open spec fn unread(mid: Option<i64>, newer: nat) -> Option<UnRead> {
    match mid {
        None => Some(UnRead::ALL),
        Some(_) => if newer > 0 {
            Some(UnRead::Part(newer as usize))
        } else {
            None
        },
    }
}

/// What of group `gid` is unread for a user who last read message `mid`.
pub fn count_group_unread(gid: i32, mid: Option<i64>, db: &MsgDb) -> (shown: Option<UnRead>)
    ensures
        shown == match mid {
            None => Some(UnRead::ALL),
            Some(read) => unread(mid, count_after(db@.log, ConversationKey::spec_group(gid as i64), read)),
        },
{
    match mid {
        None => Some(UnRead::ALL),
        Some(mid) => {
            let count: usize = db.count_group_messages_after(gid as i64, mid);
            if count > 0 {
                Some(UnRead::Part(count))
            } else {
                None
            }
        },
    }
}

/// What of the direct conversation of `from_uid` and `to_uid` is unread
/// for a user who last read message `mid`.
pub fn count_dm_unread(from_uid: i32, to_uid: i32, mid: Option<i64>, db: &MsgDb) -> (shown: Option<UnRead>)
    ensures
        shown == match mid {
            None => Some(UnRead::ALL),
            Some(read) => unread(
                mid,
                count_after(db@.log, ConversationKey::spec_dm(from_uid as i64, to_uid as i64), read),
            ),
        },
{
    match mid {
        None => Some(UnRead::ALL),
        Some(mid) => {
            let count: usize = db.count_dm_messages_after(from_uid as i64, to_uid as i64, mid);
            if count > 0 {
                Some(UnRead::Part(count))
            } else {
                None
            }
        },
    }
}

} // verus!
