use chat_server::auth::{
    check_admin, check_credentials, check_token_expire, expire_timestamp, pick_token, require_admin, same_text,
    AuthError, Role, Token, TokenUser, SECOND_TO_EXPIRED,
};
use chat_server::dgraph::{
    commit_body, commit_url, friends_query, join_url, mutate_now_url, mutate_url, query_url, registered_uid, CommitBody,
    Txn, DGRAPH_URL, USERS_QUERY,
};
use chat_server::envelope::AppRes;
use chat_server::err::{replace_char, Body, Reply, ServerError, ERROR_MESSAGE};
use chat_server::error::{Error, StoreFault};
use chat_server::friend::{
    check_friend, check_review, decide_request, is_friend, FriendErr, FriendRequestStatus, FriendShip, RequestDecision,
    SetFriendShip, UserDgraph,
};
use chat_server::message::SendMsgFault;
use chat_server::group::{
    check_add, check_admin_change, check_forbid_change, check_group_status, check_read, check_remove, check_send,
    has_member, CheckStatus, GroupErr,
};
use chat_server::text::{signed_text, unsigned_text};
use chat_server::user::{check_register, check_status, require_named, require_user, UserErr, UserState, UserStatus};

#[test]
fn numbers_in_decimal() {
    assert_eq!(unsigned_text(0), "0");
    assert_eq!(unsigned_text(9), "9");
    assert_eq!(unsigned_text(10), "10");
    assert_eq!(unsigned_text(1234567890), "1234567890");
    assert_eq!(unsigned_text(u64::MAX), "18446744073709551615");
    assert_eq!(signed_text(0), "0");
    assert_eq!(signed_text(-1), "-1");
    assert_eq!(signed_text(-305), "-305");
    assert_eq!(signed_text(i64::MAX), "9223372036854775807");
    assert_eq!(signed_text(i64::MIN), "-9223372036854775808");
}

#[test]
fn user_status_is_checked() {
    let state = |status| Some(UserState { name: "bob".to_string(), status });
    assert_eq!(check_status(None, 7, 1), Err(UserErr::UserNotExist(7)));
    assert_eq!(check_status(state(UserStatus::Normal), 7, 1), Ok(()));
    assert_eq!(check_status(state(UserStatus::Freeze), 7, 1), Err(UserErr::UserWasFreeze("bob".to_string())));
    assert_eq!(check_status(state(UserStatus::Freeze), 7, 7), Err(UserErr::LoginUserWasFreeze));
    assert_eq!(UserStatus::Normal.label(), "Normal");
    assert_eq!(UserStatus::Freeze.label(), "Freeze");
}

#[test]
fn users_are_looked_up() {
    assert_eq!(check_register(false, "ann"), Ok(()));
    assert_eq!(check_register(true, "ann"), Err(UserErr::UserNameExist("ann".to_string())));
    assert_eq!(require_named(Some(5), "ann".to_string()), Ok(5));
    assert_eq!(require_named(None::<i32>, "ann".to_string()), Err(UserErr::UserNameNotExist("ann".to_string())));
    assert_eq!(require_user(Some("x"), 3), Ok("x"));
    assert_eq!(require_user(None::<i32>, 3), Err(UserErr::UserNotExist(3)));
}

#[test]
fn user_errors_have_text_and_status() {
    assert_eq!(UserErr::UserNameExist("ann".to_string()).to_string(), "用户名 ann 已存在");
    assert_eq!(UserErr::UserNotExist(12).to_string(), "用户12不存在");
    assert_eq!(UserErr::UserNameNotExist("ann".to_string()).to_string(), "用户ann不存在");
    assert_eq!(UserErr::LoginUserWasFreeze.to_string(), "您的账号已冻结，请先申请解冻");
    assert_eq!(UserErr::UserWasFreeze("ann".to_string()).to_string(), "对方的账号异常，请谨慎操作");
    assert_eq!(UserErr::UserNameExist("ann".to_string()).status(), 409);
    assert_eq!(UserErr::UserNotExist(1).status(), 404);
    assert_eq!(UserErr::UserNameNotExist("a".to_string()).status(), 404);
    assert_eq!(UserErr::LoginUserWasFreeze.status(), 401);
    assert_eq!(UserErr::UserWasFreeze("a".to_string()).status(), 401);
}

#[test]
fn group_errors_have_text_and_status() {
    assert_eq!(GroupErr::GroupNotExist(3).to_string(), "群（ID=3）不存在存在");
    assert_eq!(GroupErr::UserNotInGroup { uid: 1, gid: 2 }.to_string(), "用户（ID=1）不在群（ID=2）内");
    assert_eq!(GroupErr::UserHasBeenForbid.to_string(), "用户已经被禁言");
    assert_eq!(GroupErr::UserAlreadyInGroup.to_string(), "用户已经在群内");
    assert_eq!(GroupErr::UserWasNotForbid.to_string(), "用户未被禁言");
    assert_eq!(GroupErr::YouAreNotAdmin.to_string(), "您不是群管理员，不能设置群主！");
    assert_eq!(GroupErr::YouAreForbid.to_string(), "您已被禁言，无权发言");
    assert_eq!(GroupErr::GroupNotExist(3).status(), 404);
    assert_eq!(GroupErr::UserNotInGroup { uid: 1, gid: 2 }.status(), 404);
    assert_eq!(GroupErr::UserHasBeenForbid.status(), 304);
    assert_eq!(GroupErr::UserAlreadyInGroup.status(), 304);
    assert_eq!(GroupErr::UserWasNotForbid.status(), 304);
    assert_eq!(GroupErr::YouAreNotAdmin.status(), 403);
    assert_eq!(GroupErr::YouAreForbid.status(), 403);
}

#[test]
fn only_members_who_are_not_silenced_send() {
    let member = check_group_status(Some(false));
    let silenced = check_group_status(Some(true));
    let outsider = check_group_status(None);
    assert_eq!(member, CheckStatus { in_group: true, forbid: false });
    assert_eq!(silenced, CheckStatus { in_group: true, forbid: true });
    assert_eq!(outsider, CheckStatus { in_group: false, forbid: true });
    assert_eq!(check_send(member, 1, 2), Ok(()));
    assert_eq!(check_send(silenced, 1, 2), Err(GroupErr::YouAreForbid));
    assert_eq!(check_send(outsider, 1, 2), Err(GroupErr::UserNotInGroup { uid: 1, gid: 2 }));
    assert_eq!(check_read(silenced, 1, 2), Ok(()));
    assert_eq!(check_read(outsider, 1, 2), Err(GroupErr::UserNotInGroup { uid: 1, gid: 2 }));
}

#[test]
fn only_the_administrator_changes_a_group() {
    let members = vec![1, 2, 3];
    assert_eq!(check_admin_change(None, 1, 9, &members, 2), Err(GroupErr::GroupNotExist(9)));
    assert_eq!(check_admin_change(Some(2), 1, 9, &members, 2), Err(GroupErr::YouAreNotAdmin));
    assert_eq!(check_admin_change(Some(1), 1, 9, &members, 5), Err(GroupErr::UserNotInGroup { uid: 1, gid: 9 }));
    assert_eq!(check_admin_change(Some(1), 1, 9, &members, 3), Ok(()));
    assert!(has_member(&members, 3) && !has_member(&members, 4));
    assert_eq!(check_forbid_change(None, 1, 9, Some(false), true), Err(GroupErr::GroupNotExist(9)));
    assert_eq!(check_forbid_change(Some(2), 1, 9, Some(false), true), Err(GroupErr::YouAreNotAdmin));
    assert_eq!(check_forbid_change(Some(1), 1, 9, None, true), Err(GroupErr::UserNotInGroup { uid: 1, gid: 9 }));
    assert_eq!(check_forbid_change(Some(1), 1, 9, Some(true), true), Err(GroupErr::UserHasBeenForbid));
    assert_eq!(check_forbid_change(Some(1), 1, 9, Some(false), true), Ok(true));
    assert_eq!(check_forbid_change(Some(1), 1, 9, Some(false), false), Err(GroupErr::UserWasNotForbid));
    assert_eq!(check_forbid_change(Some(1), 1, 9, Some(true), false), Ok(false));
}

#[test]
fn members_are_added_and_removed() {
    let member = CheckStatus { in_group: true, forbid: false };
    let outsider = CheckStatus { in_group: false, forbid: true };
    assert_eq!(check_add(false, false, outsider, 9, 2), Err(ServerError::GroupErr(GroupErr::GroupNotExist(9))));
    assert_eq!(check_add(true, false, outsider, 9, 2), Err(ServerError::UserErr(UserErr::UserNotExist(2))));
    assert_eq!(check_add(true, true, member, 9, 2), Err(ServerError::GroupErr(GroupErr::UserAlreadyInGroup)));
    assert_eq!(check_add(true, true, outsider, 9, 2), Ok(()));
    assert_eq!(check_remove(false, true, member, 9, 2), Err(ServerError::GroupErr(GroupErr::GroupNotExist(9))));
    assert_eq!(check_remove(true, false, member, 9, 2), Err(ServerError::UserErr(UserErr::UserNotExist(2))));
    assert_eq!(
        check_remove(true, true, outsider, 9, 2),
        Err(ServerError::GroupErr(GroupErr::UserNotInGroup { uid: 2, gid: 9 }))
    );
    assert_eq!(check_remove(true, true, member, 9, 2), Ok(()));
}

#[test]
fn only_friends_write_to_each_other() {
    let friends = vec![3, 5];
    assert!(is_friend(Some(&friends), 5));
    assert!(!is_friend(Some(&friends), 4));
    assert!(!is_friend(None, 5));
    assert_eq!(check_friend(true, 5), Ok(()));
    assert_eq!(check_friend(false, 5), Err(FriendErr::NotFriend(5)));
    assert_eq!(FriendErr::NotFriend(5).to_string(), "用户5不是您的好友");
    assert_eq!(FriendErr::CanNotReviewFriendRequest.to_string(), "您不是该好友请求的目标对象，无权批准");
    assert_eq!(FriendErr::NotFriend(5).status(), 404);
    assert_eq!(FriendErr::CanNotReviewFriendRequest.status(), 403);
}

#[test]
fn friend_requests_are_decided() {
    assert_eq!(decide_request(true, None), RequestDecision::AlreadyFriends);
    assert_eq!(decide_request(true, Some(FriendRequestStatus::REJECT)), RequestDecision::AlreadyFriends);
    assert_eq!(decide_request(false, Some(FriendRequestStatus::APPROVE)), RequestDecision::AlreadyFriends);
    assert_eq!(decide_request(false, Some(FriendRequestStatus::WAIT)), RequestDecision::StillWaiting);
    assert_eq!(decide_request(false, Some(FriendRequestStatus::REJECT)), RequestDecision::Reopen);
    assert_eq!(decide_request(false, None), RequestDecision::Create);
    assert_eq!(RequestDecision::AlreadyFriends.notice(), Some("已经是好友，无需再次申请"));
    assert_eq!(RequestDecision::StillWaiting.notice(), Some("请求等待中，请勿再次发起"));
    assert_eq!(RequestDecision::Reopen.notice(), None);
    assert_eq!(RequestDecision::Create.notice(), None);
    assert_eq!(check_review(4, 4), Ok(()));
    assert_eq!(check_review(4, 5), Err(FriendErr::CanNotReviewFriendRequest));
}

#[test]
fn friendship_is_set_one_edge_at_a_time() {
    let request = SetFriendShip::new("0x1".to_string(), "0x2".to_string());
    assert_eq!(request.set.len(), 1);
    assert_eq!(request.set[0].uid, "0x1");
    assert_eq!(request.set[0].friend.len(), 1);
    assert_eq!(request.set[0].friend[0].uid, "0x2");
    let pair = FriendShip { uid_1: "0x1".to_string(), uid_2: "0x2".to_string() };
    assert_eq!(SetFriendShip::new(pair.uid_2, pair.uid_1).set[0].uid, "0x2");
    assert_eq!(UserDgraph { name: "a".to_string(), phone: None }.name, "a");
}

#[test]
fn graph_requests_are_addressed() {
    assert_eq!(DGRAPH_URL, "http://localhost:8080");
    assert_eq!(mutate_now_url(DGRAPH_URL), "http://localhost:8080/mutate?commitNow=true");
    assert_eq!(mutate_url("http://g"), "http://g/mutate");
    assert_eq!(join_url("http://g/mutate", 21044), "http://g/mutate?startTs=21044");
    assert_eq!(commit_url("http://g", 21044), "http://g/commit?startTs=21044");
    assert_eq!(query_url("http://g"), "http://g/query");
    let query = friends_query("0x4e42");
    assert!(query.contains("user(func: uid(\"0x4e42\")) {"));
    assert!(query.contains("loc\n            friend {"));
    assert!(query.starts_with("\n    {\n") && query.ends_with("}\n    }"));
    assert!(USERS_QUERY.contains("users(func: type(User)) {"));
}

#[test]
fn commit_needs_keys_and_predicates() {
    let txn = |keys: Option<Vec<String>>, preds: Option<Vec<String>>| Txn { start_ts: 1, commit_ts: None, keys, preds };
    let some = || Some(vec!["k".to_string()]);
    assert_eq!(commit_body(txn(some(), some())), Ok(CommitBody { keys: vec!["k".to_string()], preds: vec!["k".to_string()] }));
    assert_eq!(commit_body(txn(None, some())), Err(ServerError::CustomErr("未找到事务".to_string())));
    assert_eq!(commit_body(txn(some(), None)), Err(ServerError::CustomErr("未找到事务".to_string())));
    assert_eq!(registered_uid(Some("0x1".to_string())), Ok("0x1".to_string()));
    assert_eq!(registered_uid(None), Err(ServerError::CustomErr("fail to set user".to_string())));
}

#[test]
fn sessions_are_checked() {
    let stored = "secret".to_string();
    assert_eq!(check_credentials(None, &"secret".to_string()), Err(AuthError::UserNotExist));
    assert_eq!(check_credentials(Some(&stored), &"other".to_string()), Err(AuthError::WrongCredentials));
    assert_eq!(check_credentials(Some(&stored), &"secret".to_string()), Ok(()));
    assert!(same_text(&stored, &"secret".to_string()) && !same_text(&stored, &String::new()));
    assert_eq!(check_token_expire(true), Ok(()));
    assert_eq!(check_token_expire(false), Err(AuthError::InvalidToken));
    assert_eq!(check_admin(None), Err(AuthError::InvalidToken));
    assert_eq!(check_admin(Some(Role::Admin)), Ok(true));
    assert_eq!(check_admin(Some(Role::User)), Ok(false));
    assert_eq!(require_admin(None), Err(AuthError::InvalidToken));
    assert_eq!(require_admin(Some(Role::Admin)), Ok(()));
    assert_eq!(require_admin(Some(Role::User)), Err(AuthError::NeedAdmin));
    assert_eq!(pick_token(Some("a".to_string()), Some("b".to_string())), Ok("a".to_string()));
    assert_eq!(pick_token(None, Some("b".to_string())), Ok("b".to_string()));
    assert_eq!(pick_token(None, None), Err(AuthError::InvalidToken));
}

#[test]
fn tokens_expire_after_five_minutes() {
    assert_eq!(SECOND_TO_EXPIRED, 300);
    assert_eq!(expire_timestamp(1000), Some(1300));
    assert_eq!(expire_timestamp(i64::MAX - 300), Some(i64::MAX));
    assert_eq!(expire_timestamp(i64::MAX - 299), None);
    let user = || TokenUser {
        id: 3,
        name: "ann".to_string(),
        email: Some("a@b".to_string()),
        phone: None,
        dgraph_uid: "0x1".to_string(),
        role: Role::Admin,
    };
    let token = Token::from(user(), 50).unwrap();
    assert_eq!(Token::from(user(), i64::MAX), Err(AuthError::TokenCreation));
    assert_eq!((token.id, token.exp, token.role), (3, 350, Role::Admin));
    assert_eq!(token.email, Some("a@b".to_string()));
    let renewed = token.renew(1000).unwrap();
    assert_eq!((renewed.id, renewed.exp), (3, 1300));
    assert_eq!(renewed.name, "ann");
    assert_eq!(renewed.dgraph_uid, "0x1");
    assert_eq!(renewed.renew(i64::MAX), Err(AuthError::TokenCreation));
}

#[test]
fn auth_errors_have_text() {
    assert_eq!(AuthError::UserNotExist.to_string(), "用户不存在");
    assert_eq!(AuthError::WrongCredentials.to_string(), "用户名或密码错误");
    assert_eq!(AuthError::MissingCredentials.to_string(), "登录参数丢失");
    assert_eq!(AuthError::TokenCreation.to_string(), "Token创建失败");
    assert_eq!(AuthError::InvalidToken.to_string(), "无效的Token");
    assert_eq!(AuthError::NeedAdmin.to_string(), "您没有Admin权限，无权限访问");
}

#[test]
fn errors_are_answered() {
    let text = |status, body: &str| Reply { status, body: Body::Text(body.to_string()) };
    assert_eq!(
        ServerError::ValidationError("msg: msg is blank\nname: too short".to_string()).into_response(),
        Reply { status: 400, body: Body::Json("Input validation error: [msg: msg is blank, name: too short]".to_string()) }
    );
    assert_eq!(
        ServerError::AxumJsonRejection("bad json".to_string()).into_response(),
        Reply { status: 400, body: Body::Json("bad json".to_string()) }
    );
    assert_eq!(ServerError::DbErr("connection lost".to_string()).into_response(), text(500, ERROR_MESSAGE));
    assert_eq!(ServerError::MsgErr(Error::InvalidData).into_response(), text(500, "系统异常，请稍后再试"));
    assert_eq!(ServerError::from(Error::Db(StoreFault::SequenceExhausted)).into_response(), text(500, ERROR_MESSAGE));
    assert_eq!(ServerError::from(UserErr::UserNotExist(4)).into_response(), text(404, "用户4不存在"));
    assert_eq!(ServerError::from(GroupErr::YouAreForbid).into_response(), text(403, "您已被禁言，无权发言"));
    assert_eq!(ServerError::from(AuthError::NeedAdmin).into_response(), text(401, "您没有Admin权限，无权限访问"));
    assert_eq!(ServerError::from(AuthError::UserNotExist).into_response(), text(401, "用户不存在"));
    assert_eq!(ServerError::from(FriendErr::NotFriend(2)).into_response(), text(404, "用户2不是您的好友"));
    assert_eq!(ServerError::IoErr("disk".to_string()).into_response(), text(500, "disk"));
    assert_eq!(ServerError::ReqwestErr("refused".to_string()).into_response(), text(500, "refused"));
    assert_eq!(ServerError::CustomErr("x".to_string()).into_response(), Reply { status: 500, body: Body::Empty });
    assert_eq!(ServerError::from(Error::Db(StoreFault::WriteFailed)).into_response(), text(500, ERROR_MESSAGE));
    assert_eq!(ServerError::from(SendMsgFault::Blank), ServerError::ValidationError("msg: msg is blank".to_string()));
    assert_eq!(
        ServerError::from(SendMsgFault::Blank).into_response(),
        Reply { status: 400, body: Body::Json("Input validation error: [msg: msg is blank]".to_string()) }
    );
    assert_eq!(ServerError::MsgErr(Error::Db(StoreFault::WriteFailed)).to_string(), "message could not be written");
}

#[test]
fn errors_have_text() {
    assert_eq!(ServerError::CustomErr("x".to_string()).to_string(), "err: x");
    assert_eq!(ServerError::ValidationError("v".to_string()).to_string(), "v");
    assert_eq!(ServerError::AxumJsonRejection("j".to_string()).to_string(), "j");
    assert_eq!(ServerError::DbErr("d".to_string()).to_string(), "d");
    assert_eq!(ServerError::IoErr("i".to_string()).to_string(), "i");
    assert_eq!(ServerError::ReqwestErr("r".to_string()).to_string(), "r");
    assert_eq!(ServerError::MsgErr(Error::InvalidData).to_string(), "invalid data");
    assert_eq!(ServerError::MsgErr(Error::Db(StoreFault::SequenceExhausted)).to_string(), "message sequence exhausted");
    assert_eq!(ServerError::GroupErr(GroupErr::GroupNotExist(1)).to_string(), "群（ID=1）不存在存在");
    assert_eq!(ServerError::UserErr(UserErr::LoginUserWasFreeze).to_string(), "您的账号已冻结，请先申请解冻");
    assert_eq!(ServerError::AuthErr(AuthError::InvalidToken).to_string(), "无效的Token");
    assert_eq!(ServerError::FriendErr(FriendErr::NotFriend(1)).to_string(), "用户1不是您的好友");
    assert_eq!(replace_char("a\nb\n", '\n', ", "), "a, b, ");
    assert_eq!(replace_char("好\n好", '\n', ""), "好好");
    assert_eq!(replace_char("", 'a', "b"), "");
}

#[test]
fn answers_go_out_in_an_envelope() {
    assert_eq!(AppRes::success(5), AppRes { code: 0, msg: "操作成功".to_string(), data: 5 });
    assert_eq!(AppRes::success_with_msg("done".to_string()), AppRes { code: 0, msg: "done".to_string(), data: () });
    assert_eq!(AppRes::fail_with_msg("no".to_string()), AppRes { code: 1, msg: "no".to_string(), data: () });
    assert_eq!(AppRes::fail(), AppRes { code: 1, msg: "系统异常请稍后再试".to_string(), data: () });
}
