//! Sessions: what can be wrong with a login, and the rules that decide on
//! what the session cache holds.

use vstd::prelude::*;

verus! {

/// What can be wrong with a login or a token.
#[derive(Copy, Clone, Debug, PartialEq, Eq, Structural)]
pub enum AuthError {
    UserNotExist,
    WrongCredentials,
    MissingCredentials,
    TokenCreation,
    InvalidToken,
    NeedAdmin,
}

impl AuthError {
    /// The text shown for the error.
    pub open spec fn spec_text(self) -> Seq<char> {
        match self {
            AuthError::UserNotExist => "用户不存在"@,
            AuthError::WrongCredentials => "用户名或密码错误"@,
            AuthError::MissingCredentials => "登录参数丢失"@,
            AuthError::TokenCreation => "Token创建失败"@,
            AuthError::InvalidToken => "无效的Token"@,
            AuthError::NeedAdmin => "您没有Admin权限，无权限访问"@,
        }
    }

    /// The text shown for the error.
    pub fn to_string(&self) -> (text: String)
        ensures
            text@ == self.spec_text(),
    {
        match self {
            AuthError::UserNotExist => String::from_str("用户不存在"),
            AuthError::WrongCredentials => String::from_str("用户名或密码错误"),
            AuthError::MissingCredentials => String::from_str("登录参数丢失"),
            AuthError::TokenCreation => String::from_str("Token创建失败"),
            AuthError::InvalidToken => String::from_str("无效的Token"),
            AuthError::NeedAdmin => String::from_str("您没有Admin权限，无权限访问"),
        }
    }
}

/// What a user may do.
#[derive(Copy, Clone, Debug, PartialEq, Eq, Structural)]
pub enum Role {
    User,
    Admin,
}

/// Seconds for which a token, and an idle session, stays valid.
pub const SECOND_TO_EXPIRED: u64 = 300;

/// The time, in seconds since the Unix epoch, at which a token made at
/// `now` expires; none where that time cannot be written.
pub fn expire_timestamp(now: i64) -> (expires: Option<i64>)
    ensures
        match expires {
            Some(at) => at == now + SECOND_TO_EXPIRED,
            None => now + SECOND_TO_EXPIRED > i64::MAX,
        },
{
    now.checked_add(300)
}

/// Whether a login may go on: the user must have been found and the
/// password given must be the one stored. `stored` is the password of the
/// user as found, nothing for a name that no user has.
pub fn check_credentials(stored: Option<&String>, given: &String) -> (checked: Result<(), AuthError>)
    ensures
        checked == match stored {
            None => Err::<(), AuthError>(AuthError::UserNotExist),
            Some(password) => if password@ != given@ {
                Err::<(), AuthError>(AuthError::WrongCredentials)
            } else {
                Ok::<(), AuthError>(())
            },
        },
{
    match stored {
        None => Err(AuthError::UserNotExist),
        Some(password) => {
            if !same_text(password, given) {
                Err(AuthError::WrongCredentials)
            } else {
                Ok(())
            }
        },
    }
}

/// Whether two strings hold the same text.
pub fn same_text(a: &String, b: &String) -> (same: bool)
    ensures
        same == (a@ == b@),
{
    *a == *b
}

/// Whether a token still stands for a session: it does while the session
/// cache holds its user. `cached` says whether it does.
pub fn check_token_expire(cached: bool) -> (checked: Result<(), AuthError>)
    ensures
        checked == if cached {
            Ok::<(), AuthError>(())
        } else {
            Err::<(), AuthError>(AuthError::InvalidToken)
        },
{
    if cached {
        Ok(())
    } else {
        Err(AuthError::InvalidToken)
    }
}

/// Whether the user of a token is an administrator, by the role that the
/// session cache holds for the user; without a session the token is
/// invalid.
pub fn check_admin(cached: Option<Role>) -> (checked: Result<bool, AuthError>)
    ensures
        checked == match cached {
            None => Err::<bool, AuthError>(AuthError::InvalidToken),
            Some(Role::Admin) => Ok::<bool, AuthError>(true),
            Some(Role::User) => Ok::<bool, AuthError>(false),
        },
{
    match cached {
        None => Err(AuthError::InvalidToken),
        Some(Role::Admin) => Ok(true),
        Some(Role::User) => Ok(false),
    }
}

/// Whether a request that needs an administrator may pass.
pub fn require_admin(cached: Option<Role>) -> (checked: Result<(), AuthError>)
    ensures
        checked == match cached {
            None => Err::<(), AuthError>(AuthError::InvalidToken),
            Some(Role::Admin) => Ok::<(), AuthError>(()),
            Some(Role::User) => Err::<(), AuthError>(AuthError::NeedAdmin),
        },
{
    match check_admin(cached) {
        Err(err) => Err(err),
        Ok(true) => Ok(()),
        Ok(false) => Err(AuthError::NeedAdmin),
    }
}

/// What a token says of its user.
#[derive(Debug, PartialEq, Eq)]
pub struct Token {
    pub id: i32,
    pub name: String,
    pub email: Option<String>,
    pub phone: Option<String>,
    pub dgraph_uid: String,
    pub role: Role,
    /// When the token expires, in seconds since the Unix epoch.
    pub exp: i64,
}

/// What the token is made from: the user as the relational store holds one.
#[derive(Debug, PartialEq, Eq)]
pub struct TokenUser {
    pub id: i32,
    pub name: String,
    pub email: Option<String>,
    pub phone: Option<String>,
    pub dgraph_uid: String,
    pub role: Role,
}

impl Token {
    /// The token of `user`, made at `now` and valid for
    /// `SECOND_TO_EXPIRED` seconds. No token is made where its expiry
    /// cannot be written.
    pub fn from(user: TokenUser, now: i64) -> (token: Result<Token, AuthError>)
        ensures
            match token {
                Ok(t) => {
                    &&& t.exp == now + SECOND_TO_EXPIRED
                    &&& t.id == user.id
                    &&& t.name == user.name
                    &&& t.email == user.email
                    &&& t.phone == user.phone
                    &&& t.dgraph_uid == user.dgraph_uid
                    &&& t.role == user.role
                },
                Err(err) => err == AuthError::TokenCreation && now + SECOND_TO_EXPIRED > i64::MAX,
            },
    {
        match expire_timestamp(now) {
            Some(exp) => Ok(
                Token {
                    id: user.id,
                    name: user.name,
                    email: user.email,
                    phone: user.phone,
                    dgraph_uid: user.dgraph_uid,
                    role: user.role,
                    exp,
                },
            ),
            None => Err(AuthError::TokenCreation),
        }
    }

    /// The same token, valid for `SECOND_TO_EXPIRED` seconds from `now`.
    /// No token is made where its expiry cannot be written.
    pub fn renew(self, now: i64) -> (token: Result<Token, AuthError>)
        ensures
            match token {
                Ok(t) => {
                    &&& t.exp == now + SECOND_TO_EXPIRED
                    &&& t.id == self.id
                    &&& t.name == self.name
                    &&& t.email == self.email
                    &&& t.phone == self.phone
                    &&& t.dgraph_uid == self.dgraph_uid
                    &&& t.role == self.role
                },
                Err(err) => err == AuthError::TokenCreation && now + SECOND_TO_EXPIRED > i64::MAX,
            },
    {
        match expire_timestamp(now) {
            Some(exp) => Ok(
                Token {
                    id: self.id,
                    name: self.name,
                    email: self.email,
                    phone: self.phone,
                    dgraph_uid: self.dgraph_uid,
                    role: self.role,
                    exp,
                },
            ),
            None => Err(AuthError::TokenCreation),
        }
    }
}

/// The text of the token that comes with a request: the bearer of the
/// authorization header where there is one, else the `token` of the
/// query; a request with neither has no valid token.
pub fn pick_token(bearer: Option<String>, query: Option<String>) -> (text: Result<String, AuthError>)
    ensures
        text == match bearer {
            Some(token) => Ok::<String, AuthError>(token),
            None => match query {
                Some(token) => Ok::<String, AuthError>(token),
                None => Err::<String, AuthError>(AuthError::InvalidToken),
            },
        },
{
    match bearer {
        Some(token) => Ok(token),
        None => match query {
            Some(token) => Ok(token),
            None => Err(AuthError::InvalidToken),
        },
    }
}

} // verus!
