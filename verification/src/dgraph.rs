//! The requests that go to the graph of friends: where they go, what they
//! ask, and what is made of the answers.

use crate::err::ServerError;
use crate::text::{decimal, signed_text};
use vstd::prelude::*;

verus! {

/// Where the graph service is found when nothing else is configured.
pub const DGRAPH_URL: &'static str = "http://localhost:8080";

/// Where a mutation that commits at once is sent.
pub fn mutate_now_url(base: &str) -> (url: String)
    ensures
        url@ == base@ + "/mutate?commitNow=true"@,
{
    String::from_str(base).concat("/mutate?commitNow=true")
}

/// Where a mutation that opens a transaction is sent.
pub fn mutate_url(base: &str) -> (url: String)
    ensures
        url@ == base@ + "/mutate"@,
{
    String::from_str(base).concat("/mutate")
}

/// Where a mutation that joins the transaction begun at `start_ts` is
/// sent, given where mutations go.
pub fn join_url(mutate: &str, start_ts: i64) -> (url: String)
    ensures
        url@ == mutate@ + "?startTs="@ + decimal(start_ts as int),
{
    String::from_str(mutate).concat("?startTs=").concat(signed_text(start_ts).as_str())
}

/// Where the transaction begun at `start_ts` is committed.
pub fn commit_url(base: &str, start_ts: i64) -> (url: String)
    ensures
        url@ == base@ + "/commit?startTs="@ + decimal(start_ts as int),
{
    String::from_str(base).concat("/commit?startTs=").concat(signed_text(start_ts).as_str())
}

/// Where queries are sent.
pub fn query_url(base: &str) -> (url: String)
    ensures
        url@ == base@ + "/query"@,
{
    String::from_str(base).concat("/query")
}

/// The query for every user of the graph.
pub const USERS_QUERY: &'static str = "
        {
            users(func: type(User)) {
                uid
                name
                phone
            }
        }";

/// The text before the node's identifier in the query for a user's friends.
pub const FRIENDS_QUERY_HEAD: &'static str = "
    {
        user(func: uid(";

/// The text after the node's identifier in the query for a user's friends.
pub const FRIENDS_QUERY_TAIL: &'static str = ")) {
            uid
            name
            user_id
            loc
            friend {
                uid,
                name,
                user_id
            }
        }
    }";

/// The query for the node `dgraph_uid` with its place and its friends.
pub fn friends_query(dgraph_uid: &str) -> (query: String)
    ensures
        query@ == FRIENDS_QUERY_HEAD@ + "\""@ + dgraph_uid@ + "\""@ + FRIENDS_QUERY_TAIL@,
{
    String::from_str(FRIENDS_QUERY_HEAD).concat("\"").concat(dgraph_uid).concat("\"").concat(FRIENDS_QUERY_TAIL)
}

/// What the graph service says of a transaction.
#[derive(Debug, PartialEq, Eq)]
pub struct Txn {
    pub start_ts: i64,
    pub commit_ts: Option<i64>,
    pub keys: Option<Vec<String>>,
    pub preds: Option<Vec<String>>,
}

/// What a commit hands to the graph service.
#[derive(Debug, PartialEq, Eq)]
pub struct CommitBody {
    pub keys: Vec<String>,
    pub preds: Vec<String>,
}

/// What is committed for a transaction: its keys and predicates. A
/// transaction that lacks either cannot be committed.
pub fn commit_body(txn: Txn) -> (body: Result<CommitBody, ServerError>)
    ensures
        match body {
            Ok(commit) => txn.keys == Some(commit.keys) && txn.preds == Some(commit.preds),
            Err(err) => {
                &&& txn.keys is None || txn.preds is None
                &&& err matches ServerError::CustomErr(text)
                &&& text@ == "未找到事务"@
            },
        },
{
    match txn.keys {
        None => Err(ServerError::CustomErr(String::from_str("未找到事务"))),
        Some(keys) => match txn.preds {
            None => Err(ServerError::CustomErr(String::from_str("未找到事务"))),
            Some(preds) => Ok(CommitBody { keys, preds }),
        },
    }
}

/// The identifier that the graph gave a user just set, from what its
/// answer holds under `uid`; an answer without one is an error.
pub fn registered_uid(answer: Option<String>) -> (uid: Result<String, ServerError>)
    ensures
        match uid {
            Ok(given) => answer == Some(given),
            Err(err) => {
                &&& answer is None
                &&& err matches ServerError::CustomErr(text)
                &&& text@ == "fail to set user"@
            },
        },
{
    match answer {
        None => Err(ServerError::CustomErr(String::from_str("fail to set user"))),
        Some(given) => Ok(given),
    }
}

} // verus!
