//! Friends: what can be wrong between two users, the rule that only
//! friends write to each other, and the requests by which users become
//! friends.

use crate::text::{decimal, signed_text};
use vstd::prelude::*;

verus! {

/// What can be wrong between two users.
#[derive(Copy, Clone, Debug, PartialEq, Eq, Structural)]
pub enum FriendErr {
    /// The user with this identifier is no friend of the acting user.
    NotFriend(i32),
    /// The acting user is not the one the request was made to.
    CanNotReviewFriendRequest,
}

impl FriendErr {
    /// The text shown for the error.
    pub open spec fn spec_text(self) -> Seq<char> {
        match self {
            FriendErr::NotFriend(uid) => "用户"@ + decimal(uid as int) + "不是您的好友"@,
            FriendErr::CanNotReviewFriendRequest => "您不是该好友请求的目标对象，无权批准"@,
        }
    }

    /// The text shown for the error.
    pub fn to_string(&self) -> (text: String)
        ensures
            text@ == self.spec_text(),
    {
        match self {
            FriendErr::NotFriend(uid) => String::from_str("用户").concat(signed_text(*uid as i64).as_str()).concat(
                "不是您的好友",
            ),
            FriendErr::CanNotReviewFriendRequest => String::from_str("您不是该好友请求的目标对象，无权批准"),
        }
    }

    /// The HTTP status the error is answered with.
    pub fn status(&self) -> (code: u16)
        ensures
            code == match *self {
                FriendErr::NotFriend(_) => 404u16,
                FriendErr::CanNotReviewFriendRequest => 403u16,
            },
    {
        match self {
            FriendErr::NotFriend(_) => 404,
            FriendErr::CanNotReviewFriendRequest => 403,
        }
    }
}

/// Whether the user `friend_id` is among the friends `friends` of a
/// user; a user whose friends could not be read has none.
pub fn is_friend(friends: Option<&Vec<i32>>, friend_id: i32) -> (found: bool)
    ensures
        found == match friends {
            Some(list) => list@.contains(friend_id),
            None => false,
        },
{
    match friends {
        None => false,
        Some(list) => {
            let mut i: usize = 0;
            while i < list.len()
                invariant
                    i <= list.len(),
                    friends == Some(list),
                    forall|k: int| 0 <= k < i ==> list@[k] != friend_id,
                decreases list.len() - i,
            {
                if list[i] == friend_id {
                    return true;
                }
                i += 1;
            }
            false
        },
    }
}

/// Whether the acting user may write to, or read the conversation with,
/// user `uid`: only a friend may. No message is stored or fanned out for
/// two users who were not friends when it was sent.
pub fn check_friend(friend: bool, uid: i32) -> (checked: Result<(), FriendErr>)
    ensures
        checked == if friend {
            Ok::<(), FriendErr>(())
        } else {
            Err::<(), FriendErr>(FriendErr::NotFriend(uid))
        },
{
    if friend {
        Ok(())
    } else {
        Err(FriendErr::NotFriend(uid))
    }
}

/// Where a request to become friends stands.
#[derive(Copy, Clone, Debug, PartialEq, Eq, Structural)]
pub enum FriendRequestStatus {
    WAIT,
    APPROVE,
    REJECT,
}

/// What to do about a request to become friends.
#[derive(Copy, Clone, Debug, PartialEq, Eq, Structural)]
pub enum RequestDecision {
    /// The two are friends already: say so and change nothing.
    AlreadyFriends,
    /// A request is waiting: say so and change nothing.
    StillWaiting,
    /// An earlier request was rejected: let it wait again, with the new reason.
    Reopen,
    /// There is no request yet: make one.
    Create,
}

impl RequestDecision {
    /// What the requester is told, where the request changes nothing.
    pub fn notice(&self) -> (text: Option<&'static str>)
        ensures
            match *self {
                RequestDecision::AlreadyFriends => text matches Some(t) && t@ == "已经是好友，无需再次申请"@,
                RequestDecision::StillWaiting => text matches Some(t) && t@ == "请求等待中，请勿再次发起"@,
                RequestDecision::Reopen => text is None,
                RequestDecision::Create => text is None,
            },
    {
        match self {
            RequestDecision::AlreadyFriends => Some("已经是好友，无需再次申请"),
            RequestDecision::StillWaiting => Some("请求等待中，请勿再次发起"),
            RequestDecision::Reopen => None,
            RequestDecision::Create => None,
        }
    }
}

/// What to do about a request of one user to become the friend of
/// another, given whether they are friends and where an earlier request
/// stands, if there is one.
pub fn decide_request(friends: bool, earlier: Option<FriendRequestStatus>) -> (decision: RequestDecision)
    ensures
        decision == if friends {
            RequestDecision::AlreadyFriends
        } else {
            match earlier {
                Some(FriendRequestStatus::APPROVE) => RequestDecision::AlreadyFriends,
                Some(FriendRequestStatus::WAIT) => RequestDecision::StillWaiting,
                Some(FriendRequestStatus::REJECT) => RequestDecision::Reopen,
                None => RequestDecision::Create,
            }
        },
{
    if friends {
        return RequestDecision::AlreadyFriends;
    }
    match earlier {
        Some(FriendRequestStatus::APPROVE) => RequestDecision::AlreadyFriends,
        Some(FriendRequestStatus::WAIT) => RequestDecision::StillWaiting,
        Some(FriendRequestStatus::REJECT) => RequestDecision::Reopen,
        None => RequestDecision::Create,
    }
}

/// Whether the acting user may answer a request: only the user it was
/// made to may.
pub fn check_review(target_id: i32, acting: i32) -> (checked: Result<(), FriendErr>)
    ensures
        checked == if target_id != acting {
            Err::<(), FriendErr>(FriendErr::CanNotReviewFriendRequest)
        } else {
            Ok::<(), FriendErr>(())
        },
{
    if target_id != acting {
        return Err(FriendErr::CanNotReviewFriendRequest);
    }
    Ok(())
}

/// A user as the graph of friends knows one.
#[derive(Debug, PartialEq, Eq)]
pub struct UserDgraph {
    pub name: String,
    pub phone: Option<String>,
}

/// Two users of the graph that are to become friends.
#[derive(Debug, PartialEq, Eq)]
pub struct FriendShip {
    pub uid_1: String,
    pub uid_2: String,
}

/// The far end of an edge of the graph.
#[derive(Debug, PartialEq, Eq)]
pub struct Subject {
    pub uid: String,
}

/// A node of the graph with the friends it is to get.
#[derive(Debug, PartialEq, Eq)]
pub struct Object {
    pub uid: String,
    pub friend: Vec<Subject>,
}

/// A request to the graph to set edges.
#[derive(Debug, PartialEq, Eq)]
pub struct SetFriendShip {
    pub set: Vec<Object>,
}

impl SetFriendShip {
    /// The request that makes `subject_id` a friend of `object_id`: one
    /// edge, in that direction.
    pub fn new(object_id: String, subject_id: String) -> (request: Self)
        ensures
            request.set@.len() == 1,
            request.set@[0].uid == object_id,
            request.set@[0].friend@.len() == 1,
            request.set@[0].friend@[0].uid == subject_id,
    {
        let mut friend: Vec<Subject> = Vec::new();
        friend.push(Subject { uid: subject_id });
        let mut set: Vec<Object> = Vec::new();
        set.push(Object { uid: object_id, friend });
        SetFriendShip { set }
    }
}

} // verus!
