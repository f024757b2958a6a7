//! The errors of the service and how each is answered.

use crate::auth::AuthError;
use crate::error::Error;
use crate::friend::FriendErr;
use crate::group::GroupErr;
use crate::message::SendMsgFault;
use crate::user::UserErr;
use vstd::prelude::*;

verus! {

/// The text shown where the fault lies with the service.
pub const ERROR_MESSAGE: &'static str = "系统异常，请稍后再试";

/// Whatever can make a request fail. Failures of the web layer, of the
/// relational store and of the graph service are carried as their text.
#[derive(Debug, PartialEq, Eq)]
pub enum ServerError {
    CustomErr(String),
    ValidationError(String),
    AxumJsonRejection(String),
    UserErr(UserErr),
    GroupErr(GroupErr),
    DbErr(String),
    AuthErr(AuthError),
    MsgErr(Error),
    IoErr(String),
    ReqwestErr(String),
    FriendErr(FriendErr),
}

/// The body of an answer.
#[derive(Debug, PartialEq, Eq)]
pub enum Body {
    /// The text, sent as a JSON string.
    Json(String),
    /// The text as it is.
    Text(String),
    /// Nothing.
    Empty,
}

/// A body as contracts speak of it.
pub enum BodyView {
    Json(Seq<char>),
    Text(Seq<char>),
    Empty,
}

impl View for Body {
    type V = BodyView;

    open spec fn view(&self) -> BodyView {
        match *self {
            Body::Json(text) => BodyView::Json(text@),
            Body::Text(text) => BodyView::Text(text@),
            Body::Empty => BodyView::Empty,
        }
    }
}

/// An answer: the HTTP status and the body.
#[derive(Debug, PartialEq, Eq)]
pub struct Reply {
    pub status: u16,
    pub body: Body,
}

/// `text` with each `from` replaced by `to`.
pub open spec fn replaced(text: Seq<char>, from: char, to: Seq<char>) -> Seq<char>
    decreases text.len(),
{
    if text.len() == 0 {
        Seq::empty()
    } else {
        replaced(text.drop_last(), from, to) + if text.last() == from {
            to
        } else {
            seq![text.last()]
        }
    }
}

/// `text` with each `from` replaced by `to`.
pub fn replace_char(text: &str, from: char, to: &str) -> (out: String)
    ensures
        out@ == replaced(text@, from, to@),
{
    let mut out = String::new();
    let count: usize = text.unicode_len();
    let mut i: usize = 0;
    assert(text@.take(0) =~= Seq::<char>::empty());
    while i < count
        invariant
            i <= count,
            count == text@.len(),
            out@ == replaced(text@.take(i as int), from, to@),
        decreases count - i,
    {
        proof {
            assert(text@.take(i + 1).drop_last() =~= text@.take(i as int));
            assert(text@.take(i + 1).last() == text@[i as int]);
        }
        if text.get_char(i) == from {
            out.append(to);
        } else {
            let one = text.substring_char(i, i + 1);
            assert(one@ =~= seq![text@[i as int]]);
            out.append(one);
        }
        i += 1;
    }
    assert(text@.take(count as int) =~= text@);
    out
}

impl ServerError {
    /// The text of the error: `err: ` and the text for a custom error, the
    /// text of what is carried for every other.
    pub open spec fn spec_text(self) -> Seq<char> {
        match self {
            ServerError::CustomErr(text) => "err: "@ + text@,
            ServerError::ValidationError(text) => text@,
            ServerError::AxumJsonRejection(text) => text@,
            ServerError::UserErr(err) => err.spec_text(),
            ServerError::GroupErr(err) => err.spec_text(),
            ServerError::DbErr(text) => text@,
            ServerError::AuthErr(err) => err.spec_text(),
            ServerError::MsgErr(err) => err.spec_text(),
            ServerError::IoErr(text) => text@,
            ServerError::ReqwestErr(text) => text@,
            ServerError::FriendErr(err) => err.spec_text(),
        }
    }

    /// The text of the error.
    pub fn to_string(&self) -> (text: String)
        ensures
            text@ == self.spec_text(),
    {
        match self {
            ServerError::CustomErr(text) => String::from_str("err: ").concat(text.as_str()),
            ServerError::ValidationError(text) => text.clone(),
            ServerError::AxumJsonRejection(text) => text.clone(),
            ServerError::UserErr(err) => err.to_string(),
            ServerError::GroupErr(err) => err.to_string(),
            ServerError::DbErr(text) => text.clone(),
            ServerError::AuthErr(err) => err.to_string(),
            ServerError::MsgErr(err) => err.message(),
            ServerError::IoErr(text) => text.clone(),
            ServerError::ReqwestErr(text) => text.clone(),
            ServerError::FriendErr(err) => err.to_string(),
        }
    }

    /// The status an error is answered with: 400 for a request that is
    /// not valid, the error's own status where the fault lies with what
    /// was asked, 401 for every fault of the session, and 500 where the
    /// fault lies with the service.
    pub open spec fn spec_status(self) -> u16 {
        match self {
            ServerError::ValidationError(_) => 400,
            ServerError::AxumJsonRejection(_) => 400,
            ServerError::DbErr(_) => 500,
            ServerError::UserErr(err) => match err {
                UserErr::UserNameExist(_) => 409,
                UserErr::UserNotExist(_) => 404,
                UserErr::UserNameNotExist(_) => 404,
                UserErr::LoginUserWasFreeze => 401,
                UserErr::UserWasFreeze(_) => 401,
            },
            ServerError::GroupErr(err) => match err {
                GroupErr::GroupNotExist(_) => 404,
                GroupErr::UserNotInGroup { .. } => 404,
                GroupErr::UserHasBeenForbid => 304,
                GroupErr::UserAlreadyInGroup => 304,
                GroupErr::UserWasNotForbid => 304,
                GroupErr::YouAreNotAdmin => 403,
                GroupErr::YouAreForbid => 403,
            },
            ServerError::AuthErr(_) => 401,
            ServerError::MsgErr(_) => 500,
            ServerError::IoErr(_) => 500,
            ServerError::CustomErr(_) => 500,
            ServerError::ReqwestErr(_) => 500,
            ServerError::FriendErr(err) => match err {
                FriendErr::NotFriend(_) => 404,
                FriendErr::CanNotReviewFriendRequest => 403,
            },
        }
    }

    /// The body an error is answered with. A request that is not valid is
    /// told what is wrong with it, in one line; what was asked wrongly is
    /// answered with the error's text; a failure of either store is
    /// answered with the same text for all, that of `ERROR_MESSAGE`; a
    /// custom error has no body.
    pub open spec fn spec_body(self) -> BodyView {
        match self {
            ServerError::ValidationError(text) => BodyView::Json(
                replaced("Input validation error: ["@ + text@ + "]"@, '\n', ", "@),
            ),
            ServerError::AxumJsonRejection(text) => BodyView::Json(text@),
            ServerError::DbErr(_) => BodyView::Text(ERROR_MESSAGE@),
            ServerError::MsgErr(_) => BodyView::Text(ERROR_MESSAGE@),
            ServerError::CustomErr(_) => BodyView::Empty,
            _ => BodyView::Text(self.spec_text()),
        }
    }

    /// The answer to a request that failed with this error.
    pub fn into_response(self) -> (reply: Reply)
        ensures
            reply.status == self.spec_status(),
            reply.body@ == self.spec_body(),
    {
        match self {
            ServerError::ValidationError(text) => {
                let message = String::from_str("Input validation error: [").concat(text.as_str()).concat("]");
                Reply { status: 400, body: Body::Json(replace_char(message.as_str(), '\n', ", ")) }
            },
            ServerError::AxumJsonRejection(text) => Reply { status: 400, body: Body::Json(text) },
            ServerError::DbErr(_) => Reply { status: 500, body: Body::Text(String::from_str(ERROR_MESSAGE)) },
            ServerError::UserErr(err) => Reply { status: err.status(), body: Body::Text(err.to_string()) },
            ServerError::GroupErr(err) => Reply { status: err.status(), body: Body::Text(err.to_string()) },
            ServerError::AuthErr(err) => Reply { status: 401, body: Body::Text(err.to_string()) },
            ServerError::MsgErr(_) => Reply { status: 500, body: Body::Text(String::from_str(ERROR_MESSAGE)) },
            ServerError::IoErr(text) => Reply { status: 500, body: Body::Text(text) },
            ServerError::CustomErr(_) => Reply { status: 500, body: Body::Empty },
            ServerError::ReqwestErr(text) => Reply { status: 500, body: Body::Text(text) },
            ServerError::FriendErr(err) => Reply { status: err.status(), body: Body::Text(err.to_string()) },
        }
    }
}

impl From<UserErr> for ServerError {
    fn from(err: UserErr) -> (wrapped: ServerError) {
        ServerError::UserErr(err)
    }
}

impl vstd::std_specs::convert::FromSpecImpl<UserErr> for ServerError {
    open spec fn obeys_from_spec() -> bool {
        true
    }

    open spec fn from_spec(err: UserErr) -> ServerError {
        ServerError::UserErr(err)
    }
}

impl From<GroupErr> for ServerError {
    fn from(err: GroupErr) -> (wrapped: ServerError) {
        ServerError::GroupErr(err)
    }
}

impl vstd::std_specs::convert::FromSpecImpl<GroupErr> for ServerError {
    open spec fn obeys_from_spec() -> bool {
        true
    }

    open spec fn from_spec(err: GroupErr) -> ServerError {
        ServerError::GroupErr(err)
    }
}

impl From<AuthError> for ServerError {
    fn from(err: AuthError) -> (wrapped: ServerError) {
        ServerError::AuthErr(err)
    }
}

impl vstd::std_specs::convert::FromSpecImpl<AuthError> for ServerError {
    open spec fn obeys_from_spec() -> bool {
        true
    }

    open spec fn from_spec(err: AuthError) -> ServerError {
        ServerError::AuthErr(err)
    }
}

impl From<Error> for ServerError {
    fn from(err: Error) -> (wrapped: ServerError) {
        ServerError::MsgErr(err)
    }
}

impl vstd::std_specs::convert::FromSpecImpl<Error> for ServerError {
    open spec fn obeys_from_spec() -> bool {
        true
    }

    open spec fn from_spec(err: Error) -> ServerError {
        ServerError::MsgErr(err)
    }
}

/// A request to send that was turned down is a request that is not
/// valid: the error names the field and says what is wrong with it.
impl From<SendMsgFault> for ServerError {
    fn from(fault: SendMsgFault) -> (wrapped: ServerError)
        ensures
            wrapped matches ServerError::ValidationError(text) && text@ == "msg: msg is blank"@,
    {
        ServerError::ValidationError(String::from_str("msg: msg is blank"))
    }
}

/// Two strings of one text need not be the same value, so the conversion is
/// stated on `from` itself, by the text of its result.
impl vstd::std_specs::convert::FromSpecImpl<SendMsgFault> for ServerError {
    open spec fn obeys_from_spec() -> bool {
        false
    }

    open spec fn from_spec(fault: SendMsgFault) -> ServerError {
        arbitrary()
    }
}

impl From<FriendErr> for ServerError {
    fn from(err: FriendErr) -> (wrapped: ServerError) {
        ServerError::FriendErr(err)
    }
}

impl vstd::std_specs::convert::FromSpecImpl<FriendErr> for ServerError {
    open spec fn obeys_from_spec() -> bool {
        true
    }

    open spec fn from_spec(err: FriendErr) -> ServerError {
        ServerError::FriendErr(err)
    }
}

} // verus!
