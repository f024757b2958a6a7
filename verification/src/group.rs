//! Groups: what can be wrong with one, and the rules on who may do what
//! in a group.

use crate::message::{messages_view, ChatMessage, ChatMessageView};
use crate::sorting::{arranged, order_by_key, stable_order};
use crate::text::{decimal, signed_text};
use crate::user::{created_at, name_or};
use std::collections::HashMap;
use vstd::prelude::*;

verus! {

/// What can be wrong with a group or with a user's place in it.
#[derive(Copy, Clone, Debug, PartialEq, Eq, Structural)]
pub enum GroupErr {
    /// No group has this identifier.
    GroupNotExist(i32),
    /// The user is no member of the group.
    UserNotInGroup { uid: i32, gid: i32 },
    /// The user is silenced already.
    UserHasBeenForbid,
    /// The user is a member already.
    UserAlreadyInGroup,
    /// The user is not silenced.
    UserWasNotForbid,
    /// The acting user is not the group's administrator.
    YouAreNotAdmin,
    /// The acting user is silenced in the group.
    YouAreForbid,
}

impl GroupErr {
    /// The text shown for the error.
    pub open spec fn spec_text(self) -> Seq<char> {
        match self {
            GroupErr::GroupNotExist(gid) => "群（ID="@ + decimal(gid as int) + "）不存在存在"@,
            GroupErr::UserNotInGroup { uid, gid } => "用户（ID="@ + decimal(uid as int) + "）不在群（ID="@ + decimal(
                gid as int,
            ) + "）内"@,
            GroupErr::UserHasBeenForbid => "用户已经被禁言"@,
            GroupErr::UserAlreadyInGroup => "用户已经在群内"@,
            GroupErr::UserWasNotForbid => "用户未被禁言"@,
            GroupErr::YouAreNotAdmin => "您不是群管理员，不能设置群主！"@,
            GroupErr::YouAreForbid => "您已被禁言，无权发言"@,
        }
    }

    /// The text shown for the error.
    pub fn to_string(&self) -> (text: String)
        ensures
            text@ == self.spec_text(),
    {
        match self {
            GroupErr::GroupNotExist(gid) => String::from_str("群（ID=").concat(
                signed_text(*gid as i64).as_str(),
            ).concat("）不存在存在"),
            GroupErr::UserNotInGroup { uid, gid } => String::from_str("用户（ID=").concat(
                signed_text(*uid as i64).as_str(),
            ).concat("）不在群（ID=").concat(signed_text(*gid as i64).as_str()).concat("）内"),
            GroupErr::UserHasBeenForbid => String::from_str("用户已经被禁言"),
            GroupErr::UserAlreadyInGroup => String::from_str("用户已经在群内"),
            GroupErr::UserWasNotForbid => String::from_str("用户未被禁言"),
            GroupErr::YouAreNotAdmin => String::from_str("您不是群管理员，不能设置群主！"),
            GroupErr::YouAreForbid => String::from_str("您已被禁言，无权发言"),
        }
    }

    /// The HTTP status the error is answered with.
    pub fn status(&self) -> (code: u16)
        ensures
            code == match *self {
                GroupErr::GroupNotExist(_) => 404u16,
                GroupErr::UserNotInGroup { .. } => 404u16,
                GroupErr::UserHasBeenForbid => 304u16,
                GroupErr::UserAlreadyInGroup => 304u16,
                GroupErr::UserWasNotForbid => 304u16,
                GroupErr::YouAreNotAdmin => 403u16,
                GroupErr::YouAreForbid => 403u16,
            },
    {
        match self {
            GroupErr::GroupNotExist(_) => 404,
            GroupErr::UserNotInGroup { .. } => 404,
            GroupErr::UserHasBeenForbid => 304,
            GroupErr::UserAlreadyInGroup => 304,
            GroupErr::UserWasNotForbid => 304,
            GroupErr::YouAreNotAdmin => 403,
            GroupErr::YouAreForbid => 403,
        }
    }
}

/// A user's place in a group.
#[derive(Copy, Clone, Debug, PartialEq, Eq, Structural)]
pub struct CheckStatus {
    pub in_group: bool,
    pub forbid: bool,
}

/// A user's place in a group, from the membership found for the user:
/// whether the member is silenced, or nothing for a user who is no member.
/// Who is no member counts as silenced.
pub fn check_group_status(membership: Option<bool>) -> (status: CheckStatus)
    ensures
        status == match membership {
            Some(forbid) => CheckStatus { in_group: true, forbid },
            None => CheckStatus { in_group: false, forbid: true },
        },
{
    match membership {
        Some(forbid) => CheckStatus { in_group: true, forbid },
        None => CheckStatus { in_group: false, forbid: true },
    }
}

/// Whether user `uid` may send to group `gid`: only a member may, and only
/// one who is not silenced.
pub fn check_send(status: CheckStatus, uid: i32, gid: i32) -> (checked: Result<(), GroupErr>)
    ensures
        checked == if !status.in_group {
            Err::<(), GroupErr>(GroupErr::UserNotInGroup { uid, gid })
        } else if status.forbid {
            Err::<(), GroupErr>(GroupErr::YouAreForbid)
        } else {
            Ok::<(), GroupErr>(())
        },
{
    if !status.in_group {
        return Err(GroupErr::UserNotInGroup { uid, gid });
    }
    if status.forbid {
        return Err(GroupErr::YouAreForbid);
    }
    Ok(())
}

/// Whether user `uid` may read the history of group `gid`: only a member may.
pub fn check_read(status: CheckStatus, uid: i32, gid: i32) -> (checked: Result<(), GroupErr>)
    ensures
        checked == if !status.in_group {
            Err::<(), GroupErr>(GroupErr::UserNotInGroup { uid, gid })
        } else {
            Ok::<(), GroupErr>(())
        },
{
    if !status.in_group {
        return Err(GroupErr::UserNotInGroup { uid, gid });
    }
    Ok(())
}

/// Whether the acting user may hand the group over to user `uid`: the
/// group must exist, the acting user must be its administrator and `uid`
/// one of its members. `admin` is the administrator of the group as found,
/// nothing for a group that was not found.
pub fn check_admin_change(admin: Option<i32>, acting: i32, gid: i32, members: &Vec<i32>, uid: i32) -> (checked:
    Result<(), GroupErr>)
    ensures
        checked == match admin {
            None => Err::<(), GroupErr>(GroupErr::GroupNotExist(gid)),
            Some(current) => if current != acting {
                Err::<(), GroupErr>(GroupErr::YouAreNotAdmin)
            } else if !members@.contains(uid) {
                Err::<(), GroupErr>(GroupErr::UserNotInGroup { uid: acting, gid })
            } else {
                Ok::<(), GroupErr>(())
            },
        },
{
    match admin {
        None => Err(GroupErr::GroupNotExist(gid)),
        Some(current) => {
            if current != acting {
                return Err(GroupErr::YouAreNotAdmin);
            }
            if !has_member(members, uid) {
                return Err(GroupErr::UserNotInGroup { uid: acting, gid });
            }
            Ok(())
        },
    }
}

/// Whether `members` holds `uid`.
pub fn has_member(members: &Vec<i32>, uid: i32) -> (found: bool)
    ensures
        found == members@.contains(uid),
{
    let mut i: usize = 0;
    while i < members.len()
        invariant
            i <= members.len(),
            forall|k: int| 0 <= k < i ==> members@[k] != uid,
        decreases members.len() - i,
    {
        if members[i] == uid {
            return true;
        }
        i += 1;
    }
    false
}

/// Whether the acting user may set the silence of a member to `silence`,
/// and if so, that it is to be set: the group must exist, the acting user
/// must be its administrator, the user a member, and the member's silence
/// not already what is asked for. `admin` is the administrator of the group
/// as found, `membership` whether the member is silenced, each nothing
/// where nothing was found.
pub fn check_forbid_change(admin: Option<i32>, acting: i32, gid: i32, membership: Option<bool>, silence: bool) -> (checked:
    Result<bool, GroupErr>)
    ensures
        checked == match admin {
            None => Err::<bool, GroupErr>(GroupErr::GroupNotExist(gid)),
            Some(current) => if current != acting {
                Err::<bool, GroupErr>(GroupErr::YouAreNotAdmin)
            } else {
                match membership {
                    None => Err::<bool, GroupErr>(GroupErr::UserNotInGroup { uid: acting, gid }),
                    Some(forbid) => if forbid == silence {
                        if silence {
                            Err::<bool, GroupErr>(GroupErr::UserHasBeenForbid)
                        } else {
                            Err::<bool, GroupErr>(GroupErr::UserWasNotForbid)
                        }
                    } else {
                        Ok::<bool, GroupErr>(silence)
                    },
                }
            },
        },
{
    match admin {
        None => Err(GroupErr::GroupNotExist(gid)),
        Some(current) => {
            if current != acting {
                return Err(GroupErr::YouAreNotAdmin);
            }
            match membership {
                None => Err(GroupErr::UserNotInGroup { uid: acting, gid }),
                Some(forbid) => {
                    if forbid == silence {
                        if silence {
                            Err(GroupErr::UserHasBeenForbid)
                        } else {
                            Err(GroupErr::UserWasNotForbid)
                        }
                    } else {
                        Ok(silence)
                    }
                },
            }
        },
    }
}

/// One message of a group, as a history shows it.
#[derive(Debug, PartialEq, Eq)]
pub struct GroupHistoryMsg {
    /// The identifier of the message.
    pub mid: i64,
    /// Its text.
    pub msg: String,
    /// When it was made, in seconds since the Unix epoch.
    pub time: i64,
    /// Who sent it, and the sender's name.
    pub from_uid: i32,
    pub name_of_from_uid: String,
}

/// An entry of a group's history as contracts speak of it.
pub struct GroupHistoryView {
    pub mid: i64,
    pub msg: Seq<char>,
    pub time: i64,
    pub from_uid: i32,
    pub name_of_from_uid: Seq<char>,
}

impl View for GroupHistoryMsg {
    type V = GroupHistoryView;

    open spec fn view(&self) -> GroupHistoryView {
        GroupHistoryView {
            mid: self.mid,
            msg: self.msg@,
            time: self.time,
            from_uid: self.from_uid,
            name_of_from_uid: self.name_of_from_uid@,
        }
    }
}

/// The history entry of a message of a group.
pub open spec fn group_entry(message: ChatMessageView, names: Map<i32, String>) -> GroupHistoryView {
    GroupHistoryView {
        mid: message.mid,
        msg: message.payload.detail.content(),
        time: message.payload.created_at,
        from_uid: message.payload.from_uid,
        name_of_from_uid: name_or(names, message.payload.from_uid, "未知用户"@),
    }
}

/// Entries of a group's history as contracts speak of them.
pub open spec fn group_history_view(entries: Seq<GroupHistoryMsg>) -> Seq<GroupHistoryView> {
    entries.map_values(|e: GroupHistoryMsg| e@)
}

/// The history of a group as it is shown: an entry for each message,
/// latest first, messages of the same second in the order they were
/// handed in, each with the name of its sender; a sender whose name was
/// not found is shown as unknown.
pub fn history(history_msg: &Vec<ChatMessage>, names: &HashMap<i32, String>) -> (shown: Vec<GroupHistoryMsg>)
    ensures
        group_history_view(shown@) == arranged(
            messages_view(history_msg@).map_values(|m: ChatMessageView| group_entry(m, names@)),
            stable_order(created_at(messages_view(history_msg@)), true),
        ),
{
    broadcast use vstd::std_specs::hash::group_hash_axioms;

    let mut times: Vec<i64> = Vec::new();
    let mut i: usize = 0;
    while i < history_msg.len()
        invariant
            i <= history_msg.len(),
            times.len() == i,
            forall|k: int| 0 <= k < i ==> #[trigger] times@[k] == history_msg@[k].payload.created_at,
        decreases history_msg.len() - i,
    {
        times.push(history_msg[i].payload.created_at);
        i += 1;
    }
    assert(times@ =~= created_at(messages_view(history_msg@)));
    let order = order_by_key(&times, true);
    let ghost places = stable_order(times@, true);
    let ghost unsorted = messages_view(history_msg@).map_values(|m: ChatMessageView| group_entry(m, names@));
    let mut shown: Vec<GroupHistoryMsg> = Vec::new();
    let mut k: usize = 0;
    while k < order.len()
        invariant
            k <= order.len(),
            order.len() == history_msg.len(),
            shown.len() == k,
            places == order@.map_values(|place: usize| place as int),
            forall|j: int| 0 <= j < order.len() ==> (#[trigger] order@[j]) < history_msg.len(),
            unsorted == messages_view(history_msg@).map_values(|m: ChatMessageView| group_entry(m, names@)),
            forall|j: int| 0 <= j < k ==> (#[trigger] shown@[j])@ == unsorted[places[j]],
        decreases order.len() - k,
    {
        let place: usize = order[k];
        assert(places[k as int] == place);
        let message = &history_msg[place];
        let name = match names.get(&message.payload.from_uid) {
            Some(name) => name.clone(),
            None => String::from_str("未知用户"),
        };
        shown.push(
            GroupHistoryMsg {
                mid: message.mid,
                msg: message.payload.detail.get_content(),
                time: message.payload.created_at,
                from_uid: message.payload.from_uid,
                name_of_from_uid: name,
            },
        );
        k += 1;
    }
    assert(group_history_view(shown@) =~= arranged(unsorted, places));
    shown
}

/// Whether user `uid` may be added to group `gid`: the group and the user
/// must exist and the user must not be a member yet. What is wrong with
/// the group is told before what is wrong with the user.
pub fn check_add(group_exists: bool, user_exists: bool, status: CheckStatus, gid: i32, uid: i32) -> (checked:
    Result<(), crate::err::ServerError>)
    ensures
        checked == if !group_exists {
            Err::<(), crate::err::ServerError>(crate::err::ServerError::GroupErr(GroupErr::GroupNotExist(gid)))
        } else if !user_exists {
            Err::<(), crate::err::ServerError>(
                crate::err::ServerError::UserErr(crate::user::UserErr::UserNotExist(uid)),
            )
        } else if status.in_group {
            Err::<(), crate::err::ServerError>(crate::err::ServerError::GroupErr(GroupErr::UserAlreadyInGroup))
        } else {
            Ok::<(), crate::err::ServerError>(())
        },
{
    if !group_exists {
        return Err(crate::err::ServerError::GroupErr(GroupErr::GroupNotExist(gid)));
    }
    if !user_exists {
        return Err(crate::err::ServerError::UserErr(crate::user::UserErr::UserNotExist(uid)));
    }
    if status.in_group {
        return Err(crate::err::ServerError::GroupErr(GroupErr::UserAlreadyInGroup));
    }
    Ok(())
}

/// Whether user `uid` may be removed from group `gid`: the group and the
/// user must exist and the user must be a member.
pub fn check_remove(group_exists: bool, user_exists: bool, status: CheckStatus, gid: i32, uid: i32) -> (checked:
    Result<(), crate::err::ServerError>)
    ensures
        checked == if !group_exists {
            Err::<(), crate::err::ServerError>(crate::err::ServerError::GroupErr(GroupErr::GroupNotExist(gid)))
        } else if !user_exists {
            Err::<(), crate::err::ServerError>(
                crate::err::ServerError::UserErr(crate::user::UserErr::UserNotExist(uid)),
            )
        } else if !status.in_group {
            Err::<(), crate::err::ServerError>(
                crate::err::ServerError::GroupErr(GroupErr::UserNotInGroup { uid, gid }),
            )
        } else {
            Ok::<(), crate::err::ServerError>(())
        },
{
    if !group_exists {
        return Err(crate::err::ServerError::GroupErr(GroupErr::GroupNotExist(gid)));
    }
    if !user_exists {
        return Err(crate::err::ServerError::UserErr(crate::user::UserErr::UserNotExist(uid)));
    }
    if !status.in_group {
        return Err(crate::err::ServerError::GroupErr(GroupErr::UserNotInGroup { uid, gid }));
    }
    Ok(())
}

} // verus!
