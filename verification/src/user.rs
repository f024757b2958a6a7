//! Users: what can be wrong with one, and the rules that look at a user's
//! state before anything is sent.

use crate::by_time::{sorted_by_time, times_of};
use crate::message::{messages_view, ChatMessage, ChatMessageView};
use crate::read_index::{count_unread_msg, spec_unread_of, IndexTarget, ReadIndexRow};
use crate::sorting::{arranged, order_by_key, stable_order};
use crate::store::{MsgDb, StoreView};
use crate::text::{decimal, signed_text};
use std::collections::HashMap;
use vstd::prelude::*;

verus! {

/// What can be wrong with a user.
#[derive(Debug, PartialEq, Eq)]
pub enum UserErr {
    /// A user of this name exists already.
    UserNameExist(String),
    /// No user has this identifier.
    UserNotExist(i32),
    /// No user has this name.
    UserNameNotExist(String),
    /// The acting user's own account is frozen.
    LoginUserWasFreeze,
    /// The account of the other user, whose name this is, is frozen.
    UserWasFreeze(String),
}

impl UserErr {
    /// The text shown for the error.
    pub open spec fn spec_text(self) -> Seq<char> {
        match self {
            UserErr::UserNameExist(name) => "用户名 "@ + name@ + " 已存在"@,
            UserErr::UserNotExist(uid) => "用户"@ + decimal(uid as int) + "不存在"@,
            UserErr::UserNameNotExist(name) => "用户"@ + name@ + "不存在"@,
            UserErr::LoginUserWasFreeze => "您的账号已冻结，请先申请解冻"@,
            UserErr::UserWasFreeze(_) => "对方的账号异常，请谨慎操作"@,
        }
    }

    /// The text shown for the error.
    pub fn to_string(&self) -> (text: String)
        ensures
            text@ == self.spec_text(),
    {
        match self {
            UserErr::UserNameExist(name) => String::from_str("用户名 ").concat(name.as_str()).concat(" 已存在"),
            UserErr::UserNotExist(uid) => String::from_str("用户").concat(signed_text(*uid as i64).as_str()).concat(
                "不存在",
            ),
            UserErr::UserNameNotExist(name) => String::from_str("用户").concat(name.as_str()).concat("不存在"),
            UserErr::LoginUserWasFreeze => String::from_str("您的账号已冻结，请先申请解冻"),
            UserErr::UserWasFreeze(_) => String::from_str("对方的账号异常，请谨慎操作"),
        }
    }

    /// The HTTP status the error is answered with.
    pub fn status(&self) -> (code: u16)
        ensures
            code == match *self {
                UserErr::UserNameExist(_) => 409u16,
                UserErr::UserNotExist(_) => 404u16,
                UserErr::UserNameNotExist(_) => 404u16,
                UserErr::LoginUserWasFreeze => 401u16,
                UserErr::UserWasFreeze(_) => 401u16,
            },
    {
        match self {
            UserErr::UserNameExist(_) => 409,
            UserErr::UserNotExist(_) => 404,
            UserErr::UserNameNotExist(_) => 404,
            UserErr::LoginUserWasFreeze => 401,
            UserErr::UserWasFreeze(_) => 401,
        }
    }
}

/// Whether an account may be used.
#[derive(Copy, Clone, Debug, PartialEq, Eq, Structural)]
pub enum UserStatus {
    Normal,
    Freeze,
}

impl UserStatus {
    /// The name of the status.
    pub fn label(&self) -> (name: String)
        ensures
            name@ == match *self {
                UserStatus::Normal => "Normal"@,
                UserStatus::Freeze => "Freeze"@,
            },
    {
        match self {
            UserStatus::Normal => String::from_str("Normal"),
            UserStatus::Freeze => String::from_str("Freeze"),
        }
    }
}

/// What the status check reads of a user.
#[derive(Debug, PartialEq, Eq)]
pub struct UserState {
    pub name: String,
    pub status: UserStatus,
}

/// Whether user `uid`, as found, may take part in what user `login_uid`
/// is doing: a user who was not found does not exist; a frozen account is
/// turned down, by its owner's name where it is another user's, and an
/// account in order passes.
pub fn check_status(found: Option<UserState>, uid: i32, login_uid: i32) -> (checked: Result<(), UserErr>)
    ensures
        match found {
            None => checked == Err::<(), UserErr>(UserErr::UserNotExist(uid)),
            Some(user) => match user.status {
                UserStatus::Normal => checked is Ok,
                UserStatus::Freeze => if login_uid != uid {
                    checked == Err::<(), UserErr>(UserErr::UserWasFreeze(user.name))
                } else {
                    checked == Err::<(), UserErr>(UserErr::LoginUserWasFreeze)
                },
            },
        },
{
    match found {
        None => Err(UserErr::UserNotExist(uid)),
        Some(user) => match user.status {
            UserStatus::Freeze => {
                if login_uid != uid {
                    Err(UserErr::UserWasFreeze(user.name))
                } else {
                    Err(UserErr::LoginUserWasFreeze)
                }
            },
            UserStatus::Normal => Ok(()),
        },
    }
}

/// Whether a user may register under `name`: only under a name that no
/// user has yet.
pub fn check_register(name_taken: bool, name: &str) -> (checked: Result<(), UserErr>)
    ensures
        match checked {
            Ok(_) => !name_taken,
            Err(err) => {
                &&& name_taken
                &&& err matches UserErr::UserNameExist(taken)
                &&& taken@ == name@
            },
        },
{
    if name_taken {
        Err(UserErr::UserNameExist(String::from_str(name)))
    } else {
        Ok(())
    }
}

/// The user that was looked for under `name`; a name that no user has is
/// an error.
pub fn require_named<T>(found: Option<T>, name: String) -> (user: Result<T, UserErr>)
    ensures
        user == match found {
            Some(it) => Ok::<T, UserErr>(it),
            None => Err::<T, UserErr>(UserErr::UserNameNotExist(name)),
        },
{
    match found {
        Some(it) => Ok(it),
        None => Err(UserErr::UserNameNotExist(name)),
    }
}

/// The user that was looked for under `uid`; an identifier that no user
/// has is an error.
pub fn require_user<T>(found: Option<T>, uid: i32) -> (user: Result<T, UserErr>)
    ensures
        user == match found {
            Some(it) => Ok::<T, UserErr>(it),
            None => Err::<T, UserErr>(UserErr::UserNotExist(uid)),
        },
{
    match found {
        Some(it) => Ok(it),
        None => Err(UserErr::UserNotExist(uid)),
    }
}

/// One message of a direct conversation, as a history shows it.
#[derive(Debug, PartialEq, Eq)]
pub struct UserHistoryMsg {
    /// The identifier of the message.
    pub mid: i64,
    /// Its text.
    pub msg: String,
    /// When it was made, in seconds since the Unix epoch.
    pub time: i64,
    /// Who sent it.
    pub from_uid: i32,
}

/// A history entry as contracts speak of it.
pub struct UserHistoryView {
    pub mid: i64,
    pub msg: Seq<char>,
    pub time: i64,
    pub from_uid: i32,
}

impl View for UserHistoryMsg {
    type V = UserHistoryView;

    open spec fn view(&self) -> UserHistoryView {
        UserHistoryView { mid: self.mid, msg: self.msg@, time: self.time, from_uid: self.from_uid }
    }
}

/// The history entry of a message.
pub open spec fn user_entry(message: ChatMessageView) -> UserHistoryView {
    UserHistoryView {
        mid: message.mid,
        msg: message.payload.detail.content(),
        time: message.payload.created_at,
        from_uid: message.payload.from_uid,
    }
}

/// The times at which messages were made.
pub open spec fn created_at(messages: Seq<ChatMessageView>) -> Seq<i64> {
    messages.map_values(|m: ChatMessageView| m.payload.created_at)
}

/// History entries as contracts speak of them.
pub open spec fn user_history_view(entries: Seq<UserHistoryMsg>) -> Seq<UserHistoryView> {
    entries.map_values(|e: UserHistoryMsg| e@)
}

/// The history of a direct conversation as it is shown: an entry for each
/// message, earliest first, messages of the same second in the order they
/// were handed in.
pub fn user_history(history_msg: Vec<ChatMessage>) -> (shown: Vec<UserHistoryMsg>)
    ensures
        user_history_view(shown@) == arranged(
            messages_view(history_msg@).map_values(|m: ChatMessageView| user_entry(m)),
            stable_order(created_at(messages_view(history_msg@)), false),
        ),
{
    let mut entries: Vec<UserHistoryMsg> = Vec::new();
    let mut i: usize = 0;
    while i < history_msg.len()
        invariant
            i <= history_msg.len(),
            entries.len() == i,
            forall|k: int| 0 <= k < i ==> (#[trigger] entries@[k])@ == user_entry(history_msg@[k]@),
        decreases history_msg.len() - i,
    {
        let message = &history_msg[i];
        entries.push(
            UserHistoryMsg {
                mid: message.mid,
                msg: message.payload.detail.get_content(),
                time: message.payload.created_at,
                from_uid: message.payload.from_uid,
            },
        );
        i += 1;
    }
    let ghost unsorted = entries@;
    let shown = sorted_by_time(entries);
    proof {
        let views = messages_view(history_msg@).map_values(|m: ChatMessageView| user_entry(m));
        assert(times_of(unsorted) =~= created_at(messages_view(history_msg@)));
        let order = stable_order(times_of(unsorted), false);
        crate::sorting::lemma_stable_order_sorted(times_of(unsorted), unsorted.len(), false);
        assert(user_history_view(shown@) =~= arranged(views, order));
    }
    shown
}

/// Which kind of conversation a row of the read index is about.
#[derive(Copy, Clone, Debug, Hash, PartialEq, Eq, Structural)]
pub enum ChatTarget {
    User,
    Group,
}

/// One conversation in a user's list of chats.
#[derive(Debug, PartialEq, Eq)]
pub enum ChatVo {
    /// A direct conversation.
    User {
        /// The partner.
        uid: i32,
        user_name: String,
        /// The latest message, its text and when it was made.
        mid: i64,
        msg: String,
        msg_time: i64,
        /// What is unread, if anything.
        unread: Option<String>,
    },
    /// A group conversation.
    Group {
        gid: i32,
        group_name: String,
        /// Who sent the latest message.
        uid: i32,
        user_name: String,
        /// The latest message, its text and when it was made.
        mid: i64,
        msg: String,
        msg_time: i64,
        /// What is unread, if anything.
        unread: Option<String>,
    },
}

/// A chat as contracts speak of it.
pub enum ChatView {
    User { uid: i32, user_name: Seq<char>, mid: i64, msg: Seq<char>, msg_time: i64, unread: Option<Seq<char>> },
    Group {
        gid: i32,
        group_name: Seq<char>,
        uid: i32,
        user_name: Seq<char>,
        mid: i64,
        msg: Seq<char>,
        msg_time: i64,
        unread: Option<Seq<char>>,
    },
}

/// The text of an optional string.
pub open spec fn text_of(text: Option<String>) -> Option<Seq<char>> {
    match text {
        Some(t) => Some(t@),
        None => None,
    }
}

impl View for ChatVo {
    type V = ChatView;

    open spec fn view(&self) -> ChatView {
        match *self {
            ChatVo::User { uid, user_name, mid, msg, msg_time, unread } => ChatView::User {
                uid,
                user_name: user_name@,
                mid,
                msg: msg@,
                msg_time,
                unread: text_of(unread),
            },
            ChatVo::Group { gid, group_name, uid, user_name, mid, msg, msg_time, unread } => ChatView::Group {
                gid,
                group_name: group_name@,
                uid,
                user_name: user_name@,
                mid,
                msg: msg@,
                msg_time,
                unread: text_of(unread),
            },
        }
    }
}

impl ChatVo {
    /// When the latest message of the chat was made.
    pub fn get_msg_time(&self) -> (time: i64)
        ensures
            time == match *self {
                ChatVo::User { msg_time, .. } => msg_time,
                ChatVo::Group { msg_time, .. } => msg_time,
            },
    {
        match self {
            ChatVo::User { msg_time, .. } => *msg_time,
            ChatVo::Group { msg_time, .. } => *msg_time,
        }
    }
}

/// What the list of chats is made from, besides the rows and the store:
/// the names of users and groups and the latest messages, each as far as
/// it could be found, and the time of the request.
pub struct ChatSources {
    pub user_names: HashMap<i32, String>,
    pub group_names: HashMap<i32, String>,
    pub messages: HashMap<i64, ChatMessage>,
    pub now: i64,
}

/// The name under `id`, or `fallback` where there is none.
pub open spec fn name_or(names: Map<i32, String>, id: i32, fallback: Seq<char>) -> Seq<char> {
    if names.contains_key(id) {
        names[id]@
    } else {
        fallback
    }
}

/// The text of the message under `mid`, or the words for an unknown
/// message where it was not found.
pub open spec fn text_or_unknown(messages: Map<i64, ChatMessage>, mid: i64) -> Seq<char> {
    if messages.contains_key(mid) {
        messages[mid]@.payload.detail.content()
    } else {
        "未知消息"@
    }
}

/// When the message under `mid` was made, or `now` where it was not found.
pub open spec fn time_or_now(messages: Map<i64, ChatMessage>, mid: i64, now: i64) -> i64 {
    if messages.contains_key(mid) {
        messages[mid].payload.created_at
    } else {
        now
    }
}

/// The unread text of a row.
pub open spec fn unread_text(row: ReadIndexRow, db: StoreView) -> Option<Seq<char>> {
    match spec_unread_of(row, db) {
        Some(amount) => Some(amount.spec_text()),
        None => None,
    }
}

/// The chat that a row with the conversation `target` stands for.
pub open spec fn chat_of(
    row: ReadIndexRow,
    target: IndexTarget,
    user_names: Map<i32, String>,
    group_names: Map<i32, String>,
    messages: Map<i64, ChatMessage>,
    now: i64,
    db: StoreView,
) -> ChatView {
    match target {
        IndexTarget::User(uid) => ChatView::User {
            uid,
            user_name: name_or(user_names, uid, "未知用户"@),
            mid: row.latest_mid,
            msg: text_or_unknown(messages, row.latest_mid),
            msg_time: time_or_now(messages, row.latest_mid, now),
            unread: unread_text(row, db),
        },
        IndexTarget::Group(gid) => ChatView::Group {
            gid,
            group_name: name_or(group_names, gid, "未知群聊"@),
            uid: row.uid_of_latest_msg,
            user_name: name_or(user_names, row.uid_of_latest_msg, "未知用户"@),
            mid: row.latest_mid,
            msg: text_or_unknown(messages, row.latest_mid),
            msg_time: time_or_now(messages, row.latest_mid, now),
            unread: unread_text(row, db),
        },
    }
}

/// The rows about conversations of `kind`, in their order; a row with
/// both targets or neither is of no kind.
pub open spec fn rows_of_kind(rows: Seq<ReadIndexRow>, kind: ChatTarget) -> Seq<ReadIndexRow>
    decreases rows.len(),
{
    if rows.len() == 0 {
        Seq::empty()
    } else {
        let earlier = rows_of_kind(rows.drop_last(), kind);
        if kind_of(rows.last()) == Some(kind) {
            earlier.push(rows.last())
        } else {
            earlier
        }
    }
}

/// The kind of conversation a row is about.
pub open spec fn kind_of(row: ReadIndexRow) -> Option<ChatTarget> {
    match row.spec_target() {
        Some(IndexTarget::User(_)) => Some(ChatTarget::User),
        Some(IndexTarget::Group(_)) => Some(ChatTarget::Group),
        None => None,
    }
}

/// The rows as the list goes through them: direct conversations first,
/// then groups.
pub open spec fn rows_by_kind(rows: Seq<ReadIndexRow>) -> Seq<ReadIndexRow> {
    rows_of_kind(rows, ChatTarget::User) + rows_of_kind(rows, ChatTarget::Group)
}

/// The list of chats before it is sorted.
pub open spec fn unsorted_chats(
    rows: Seq<ReadIndexRow>,
    user_names: Map<i32, String>,
    group_names: Map<i32, String>,
    messages: Map<i64, ChatMessage>,
    now: i64,
    db: StoreView,
) -> Seq<ChatView> {
    rows_by_kind(rows).map_values(
        |row: ReadIndexRow| chat_of(row, row.spec_target().unwrap(), user_names, group_names, messages, now, db),
    )
}

/// When the latest message of each row was made.
pub open spec fn chat_times(rows: Seq<ReadIndexRow>, messages: Map<i64, ChatMessage>, now: i64) -> Seq<i64> {
    rows_by_kind(rows).map_values(|row: ReadIndexRow| time_or_now(messages, row.latest_mid, now))
}

/// The list of chats of one user: a chat for each row, the chat with the
/// newest latest message first; chats whose latest messages are of the
/// same second stand direct conversations first, and in the order of the
/// rows.
pub open spec fn spec_history(
    rows: Seq<ReadIndexRow>,
    user_names: Map<i32, String>,
    group_names: Map<i32, String>,
    messages: Map<i64, ChatMessage>,
    now: i64,
    db: StoreView,
) -> Seq<ChatView> {
    arranged(
        unsorted_chats(rows, user_names, group_names, messages, now, db),
        stable_order(chat_times(rows, messages, now), true),
    )
}

/// Chats as contracts speak of them.
pub open spec fn chats_view(chats: Seq<ChatVo>) -> Seq<ChatView> {
    chats.map_values(|chat: ChatVo| chat@)
}

fn collect_kind(rows: &Vec<ReadIndexRow>, kind: ChatTarget, into: &mut Vec<ReadIndexRow>)
    ensures
        final(into)@ == old(into)@ + rows_of_kind(rows@, kind),
{
    let mut i: usize = 0;
    assert(rows@.take(0) =~= Seq::<ReadIndexRow>::empty());
    assert(into@ =~= old(into)@ + rows_of_kind(rows@.take(0), kind));
    while i < rows.len()
        invariant
            i <= rows.len(),
            into@ == old(into)@ + rows_of_kind(rows@.take(i as int), kind),
        decreases rows.len() - i,
    {
        let ghost earlier = rows_of_kind(rows@.take(i as int), kind);
        proof {
            assert(rows@.take(i + 1).drop_last() =~= rows@.take(i as int));
            assert(rows@.take(i + 1).last() == rows@[i as int]);
        }
        let row: ReadIndexRow = rows[i];
        let wanted = match row.target() {
            Some(IndexTarget::User(_)) => kind == ChatTarget::User,
            Some(IndexTarget::Group(_)) => kind == ChatTarget::Group,
            None => false,
        };
        if wanted {
            into.push(row);
            assert(into@ =~= old(into)@ + earlier.push(row));
        }
        i += 1;
    }
    assert(rows@.take(rows.len() as int) =~= rows@);
}

/// Every row that `rows_of_kind` keeps is of that kind.
proof fn lemma_rows_of_kind(rows: Seq<ReadIndexRow>, kind: ChatTarget)
    ensures
        forall|k: int|
            0 <= k < rows_of_kind(rows, kind).len() ==> kind_of(#[trigger] rows_of_kind(rows, kind)[k]) == Some(kind),
    decreases rows.len(),
{
    if rows.len() > 0 {
        lemma_rows_of_kind(rows.drop_last(), kind);
    }
}

fn name_or_default(names: &HashMap<i32, String>, id: i32, fallback: &str) -> (name: String)
    ensures
        name@ == name_or(names@, id, fallback@),
{
    match names.get(&id) {
        Some(name) => name.clone(),
        None => String::from_str(fallback),
    }
}

fn chat_for(row: &ReadIndexRow, target: IndexTarget, sources: &ChatSources, db: &MsgDb) -> (chat: ChatVo)
    requires
        row.spec_target() == Some(target),
    ensures
        chat@ == chat_of(
            *row,
            target,
            sources.user_names@,
            sources.group_names@,
            sources.messages@,
            sources.now,
            db@,
        ),
{
    let (msg, msg_time) = match sources.messages.get(&row.latest_mid) {
        Some(message) => (message.payload.detail.get_content(), message.payload.created_at),
        None => (String::from_str("未知消息"), sources.now),
    };
    let unread = count_unread_msg(row, db);
    match target {
        IndexTarget::User(uid) => ChatVo::User {
            uid,
            user_name: name_or_default(&sources.user_names, uid, "未知用户"),
            mid: row.latest_mid,
            msg,
            msg_time,
            unread,
        },
        IndexTarget::Group(gid) => ChatVo::Group {
            gid,
            group_name: name_or_default(&sources.group_names, gid, "未知群聊"),
            uid: row.uid_of_latest_msg,
            user_name: name_or_default(&sources.user_names, row.uid_of_latest_msg, "未知用户"),
            mid: row.latest_mid,
            msg,
            msg_time,
            unread,
        },
    }
}

/// The list of chats of one user, from the rows of the read index that
/// are the user's: for each row the partner or the group by name, the
/// latest message with its text and time, and what is unread; the chat
/// with the newest latest message first. A name that was not found is
/// shown as unknown, and so is a message; a message that was not found
/// counts as made at `sources.now`.
pub fn history(ris: &Vec<ReadIndexRow>, sources: &ChatSources, db: &MsgDb) -> (chats: Vec<ChatVo>)
    ensures
        chats_view(chats@) == spec_history(
            ris@,
            sources.user_names@,
            sources.group_names@,
            sources.messages@,
            sources.now,
            db@,
        ),
{
    broadcast use vstd::std_specs::hash::group_hash_axioms;

    let mut rows: Vec<ReadIndexRow> = Vec::new();
    collect_kind(ris, ChatTarget::User, &mut rows);
    collect_kind(ris, ChatTarget::Group, &mut rows);
    assert(rows@ =~= rows_by_kind(ris@));
    proof {
        lemma_rows_of_kind(ris@, ChatTarget::User);
        lemma_rows_of_kind(ris@, ChatTarget::Group);
    }
    let mut times: Vec<i64> = Vec::new();
    let mut i: usize = 0;
    while i < rows.len()
        invariant
            i <= rows.len(),
            times.len() == i,
            forall|k: int|
                0 <= k < i ==> #[trigger] times@[k] == time_or_now(sources.messages@, rows@[k].latest_mid, sources.now),
        decreases rows.len() - i,
    {
        let time: i64 = match sources.messages.get(&rows[i].latest_mid) {
            Some(message) => message.payload.created_at,
            None => sources.now,
        };
        times.push(time);
        i += 1;
    }
    assert(times@ =~= chat_times(ris@, sources.messages@, sources.now));
    let order = order_by_key(&times, true);
    let ghost places = stable_order(times@, true);
    let ghost unsorted = unsorted_chats(
        ris@,
        sources.user_names@,
        sources.group_names@,
        sources.messages@,
        sources.now,
        db@,
    );
    let mut chats: Vec<ChatVo> = Vec::new();
    let mut k: usize = 0;
    while k < order.len()
        invariant
            k <= order.len(),
            order.len() == rows.len(),
            rows@ == rows_by_kind(ris@),
            chats.len() == k,
            places == order@.map_values(|place: usize| place as int),
            forall|j: int| 0 <= j < order.len() ==> (#[trigger] order@[j]) < rows.len(),
            forall|j: int| 0 <= j < rows.len() ==> kind_of(#[trigger] rows@[j]) is Some,
            unsorted == unsorted_chats(
                ris@,
                sources.user_names@,
                sources.group_names@,
                sources.messages@,
                sources.now,
                db@,
            ),
            forall|j: int| 0 <= j < k ==> (#[trigger] chats@[j])@ == unsorted[places[j]],
        decreases order.len() - k,
    {
        let place: usize = order[k];
        assert(places[k as int] == place);
        let row = &rows[place];
        assert(kind_of(rows@[place as int]) is Some);
        match row.target() {
            Some(target) => {
                let chat = chat_for(row, target, sources, db);
                chats.push(chat);
            },
            None => {},
        }
        k += 1;
    }
    assert(chats_view(chats@) =~= arranged(unsorted, places));
    chats
}

} // verus!
