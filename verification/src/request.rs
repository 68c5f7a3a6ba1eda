//! What the library asks of the database.

use vstd::prelude::*;

use crate::sql::{
    Cell, Query, Statement, Value, ADD_FILTER, ADD_SUBSCRIPTION, DELETE_SESSION, DISABLE_TOTP,
    ENABLE_TOTP, FIND_SESSION, FIND_USER_BY_ID, FIND_USER_BY_NAME, INSERT_PREFERENCES,
    INSERT_SESSION, INSERT_USER, LIST_FILTERS, LIST_SUBSCRIPTIONS, REMOVE_FILTER,
    REMOVE_SUBSCRIPTION,
};
use crate::text::{contains, join, occurs};

verus! {

/// A list of communities that an account keeps.
#[derive(Debug, Clone, Copy, PartialEq, Eq, Structural)]
pub enum NameList {
    Subscriptions,
    Filters,
}

/// Something to be read from or written to the database.
#[derive(Debug, Clone)]
pub enum Request {
    InsertUser { username: String, password_hash: String },
    InsertPreferences { user_id: i64 },
    FindUserByName { username: String },
    FindUserById { user_id: i64 },
    InsertSession { user_id: i64, token: String, expires_at: i64 },
    FindSession { token: String, now: i64 },
    DeleteSession { token: String },
    EnableTotp { user_id: i64, secret: String },
    DisableTotp { user_id: i64 },
    ListNames { list: NameList, user_id: i64 },
    AddName { list: NameList, user_id: i64, subreddit: String },
    RemoveName { list: NameList, user_id: i64, subreddit: String },
}

/// A request as characters and numbers.
pub enum Op {
    InsertUser { username: Seq<char>, password_hash: Seq<char> },
    InsertPreferences { user_id: i64 },
    FindUserByName { username: Seq<char> },
    FindUserById { user_id: i64 },
    InsertSession { user_id: i64, token: Seq<char>, expires_at: i64 },
    FindSession { token: Seq<char>, now: i64 },
    DeleteSession { token: Seq<char> },
    EnableTotp { user_id: i64, secret: Seq<char> },
    DisableTotp { user_id: i64 },
    ListNames { list: NameList, user_id: i64 },
    AddName { list: NameList, user_id: i64, subreddit: Seq<char> },
    RemoveName { list: NameList, user_id: i64, subreddit: Seq<char> },
}

impl View for Request {
    type V = Op;

    open spec fn view(&self) -> Op {
        match self {
            Request::InsertUser { username, password_hash } => Op::InsertUser {
                username: username@,
                password_hash: password_hash@,
            },
            Request::InsertPreferences { user_id } => Op::InsertPreferences { user_id: *user_id },
            Request::FindUserByName { username } => Op::FindUserByName { username: username@ },
            Request::FindUserById { user_id } => Op::FindUserById { user_id: *user_id },
            Request::InsertSession { user_id, token, expires_at } => Op::InsertSession {
                user_id: *user_id,
                token: token@,
                expires_at: *expires_at,
            },
            Request::FindSession { token, now } => Op::FindSession { token: token@, now: *now },
            Request::DeleteSession { token } => Op::DeleteSession { token: token@ },
            Request::EnableTotp { user_id, secret } => Op::EnableTotp {
                user_id: *user_id,
                secret: secret@,
            },
            Request::DisableTotp { user_id } => Op::DisableTotp { user_id: *user_id },
            Request::ListNames { list, user_id } => Op::ListNames {
                list: *list,
                user_id: *user_id,
            },
            Request::AddName { list, user_id, subreddit } => Op::AddName {
                list: *list,
                user_id: *user_id,
                subreddit: subreddit@,
            },
            Request::RemoveName { list, user_id, subreddit } => Op::RemoveName {
                list: *list,
                user_id: *user_id,
                subreddit: subreddit@,
            },
        }
    }
}

/// The statement that carries a request out.
pub open spec fn query(op: Op) -> Query {
    match op {
        Op::InsertUser { username, password_hash } => Query {
            sql: INSERT_USER@,
            params: seq![Cell::Text(username), Cell::Text(password_hash)],
        },
        Op::InsertPreferences { user_id } => Query {
            sql: INSERT_PREFERENCES@,
            params: seq![Cell::Integer(user_id)],
        },
        Op::FindUserByName { username } => Query {
            sql: FIND_USER_BY_NAME@,
            params: seq![Cell::Text(username)],
        },
        Op::FindUserById { user_id } => Query {
            sql: FIND_USER_BY_ID@,
            params: seq![Cell::Integer(user_id)],
        },
        Op::InsertSession { user_id, token, expires_at } => Query {
            sql: INSERT_SESSION@,
            params: seq![Cell::Integer(user_id), Cell::Text(token), Cell::Integer(expires_at)],
        },
        Op::FindSession { token, now } => Query {
            sql: FIND_SESSION@,
            params: seq![Cell::Text(token), Cell::Integer(now)],
        },
        Op::DeleteSession { token } => Query {
            sql: DELETE_SESSION@,
            params: seq![Cell::Text(token)],
        },
        Op::EnableTotp { user_id, secret } => Query {
            sql: ENABLE_TOTP@,
            params: seq![Cell::Text(secret), Cell::Integer(user_id)],
        },
        Op::DisableTotp { user_id } => Query {
            sql: DISABLE_TOTP@,
            params: seq![Cell::Integer(user_id)],
        },
        Op::ListNames { list, user_id } => Query {
            sql: match list {
                NameList::Subscriptions => LIST_SUBSCRIPTIONS@,
                NameList::Filters => LIST_FILTERS@,
            },
            params: seq![Cell::Integer(user_id)],
        },
        Op::AddName { list, user_id, subreddit } => Query {
            sql: match list {
                NameList::Subscriptions => ADD_SUBSCRIPTION@,
                NameList::Filters => ADD_FILTER@,
            },
            params: seq![Cell::Integer(user_id), Cell::Text(subreddit)],
        },
        Op::RemoveName { list, user_id, subreddit } => Query {
            sql: match list {
                NameList::Subscriptions => REMOVE_SUBSCRIPTION@,
                NameList::Filters => REMOVE_FILTER@,
            },
            params: seq![Cell::Integer(user_id), Cell::Text(subreddit)],
        },
    }
}

/// Gives the statement that carries a request out.
pub fn statement(request: &Request) -> (r: Statement)
    ensures
        r@ == query(request@),
{
    match request {
        Request::InsertUser { username, password_hash } => Statement {
            sql: INSERT_USER,
            params: vec![Value::Text(username.clone()), Value::Text(password_hash.clone())],
        },
        Request::InsertPreferences { user_id } => Statement {
            sql: INSERT_PREFERENCES,
            params: vec![Value::Integer(*user_id)],
        },
        Request::FindUserByName { username } => Statement {
            sql: FIND_USER_BY_NAME,
            params: vec![Value::Text(username.clone())],
        },
        Request::FindUserById { user_id } => Statement {
            sql: FIND_USER_BY_ID,
            params: vec![Value::Integer(*user_id)],
        },
        Request::InsertSession { user_id, token, expires_at } => Statement {
            sql: INSERT_SESSION,
            params: vec![
                Value::Integer(*user_id),
                Value::Text(token.clone()),
                Value::Integer(*expires_at),
            ],
        },
        Request::FindSession { token, now } => Statement {
            sql: FIND_SESSION,
            params: vec![Value::Text(token.clone()), Value::Integer(*now)],
        },
        Request::DeleteSession { token } => Statement {
            sql: DELETE_SESSION,
            params: vec![Value::Text(token.clone())],
        },
        Request::EnableTotp { user_id, secret } => Statement {
            sql: ENABLE_TOTP,
            params: vec![Value::Text(secret.clone()), Value::Integer(*user_id)],
        },
        Request::DisableTotp { user_id } => Statement {
            sql: DISABLE_TOTP,
            params: vec![Value::Integer(*user_id)],
        },
        Request::ListNames { list, user_id } => Statement {
            sql: match list {
                NameList::Subscriptions => LIST_SUBSCRIPTIONS,
                NameList::Filters => LIST_FILTERS,
            },
            params: vec![Value::Integer(*user_id)],
        },
        Request::AddName { list, user_id, subreddit } => Statement {
            sql: match list {
                NameList::Subscriptions => ADD_SUBSCRIPTION,
                NameList::Filters => ADD_FILTER,
            },
            params: vec![Value::Integer(*user_id), Value::Text(subreddit.clone())],
        },
        Request::RemoveName { list, user_id, subreddit } => Statement {
            sql: match list {
                NameList::Subscriptions => REMOVE_SUBSCRIPTION,
                NameList::Filters => REMOVE_FILTER,
            },
            params: vec![Value::Integer(*user_id), Value::Text(subreddit.clone())],
        },
    }
}

/// What an account holder is told when the database fails to add an account: that the name is
/// taken, where that is why.
pub open spec fn creation_failure(error: Seq<char>) -> Seq<char> {
    if occurs("UNIQUE constraint"@, error) {
        "Username already exists"@
    } else {
        "Database error: "@ + error
    }
}

/// Words a failure to add an account for the account holder.
pub fn describe_creation_failure(error: &str) -> (r: String)
    ensures
        r@ == creation_failure(error@),
{
    if contains(error, "UNIQUE constraint") {
        "Username already exists".to_owned()
    } else {
        join("Database error: ", error)
    }
}

/// What an account holder is told when the database fails to carry a request out. Of a lookup of an
/// account or a session the library passes no failure on.
pub open spec fn failure_text(op: Op, error: Seq<char>) -> Seq<char> {
    match op {
        Op::InsertUser { .. } => creation_failure(error),
        Op::InsertPreferences { .. } => "Failed to create user preferences: "@ + error,
        Op::InsertSession { .. } => "Failed to create session: "@ + error,
        Op::DeleteSession { .. } => "Failed to delete session: "@ + error,
        Op::EnableTotp { .. } => "Failed to enable 2FA: "@ + error,
        Op::DisableTotp { .. } => "Failed to disable 2FA: "@ + error,
        Op::AddName { list: NameList::Subscriptions, .. } => "Failed to add subscription: "@
            + error,
        Op::AddName { list: NameList::Filters, .. } => "Failed to add filter: "@ + error,
        Op::RemoveName { list: NameList::Subscriptions, .. } => "Failed to remove subscription: "@
            + error,
        Op::RemoveName { list: NameList::Filters, .. } => "Failed to remove filter: "@ + error,
        Op::FindUserByName { .. } | Op::FindUserById { .. } | Op::FindSession { .. }
        | Op::ListNames { .. } => "Query error: "@ + error,
    }
}

/// Words a failure of the database for the account holder.
pub fn describe_failure(request: &Request, error: &str) -> (r: String)
    ensures
        r@ == failure_text(request@, error@),
{
    match request {
        Request::InsertUser { .. } => describe_creation_failure(error),
        Request::InsertPreferences { .. } => join("Failed to create user preferences: ", error),
        Request::InsertSession { .. } => join("Failed to create session: ", error),
        Request::DeleteSession { .. } => join("Failed to delete session: ", error),
        Request::EnableTotp { .. } => join("Failed to enable 2FA: ", error),
        Request::DisableTotp { .. } => join("Failed to disable 2FA: ", error),
        Request::AddName { list, .. } => match list {
            NameList::Subscriptions => join("Failed to add subscription: ", error),
            NameList::Filters => join("Failed to add filter: ", error),
        },
        Request::RemoveName { list, .. } => match list {
            NameList::Subscriptions => join("Failed to remove subscription: ", error),
            NameList::Filters => join("Failed to remove filter: ", error),
        },
        Request::FindUserByName { .. }
        | Request::FindUserById { .. }
        | Request::FindSession { .. }
        | Request::ListNames { .. } => join("Query error: ", error),
    }
}

/// The outcome of a statement that changes the database: the number of the row it added last, or
/// the text of an error, as characters.
pub open spec fn change_text(r: Result<i64, String>) -> Result<i64, Seq<char>> {
    match r {
        Ok(row) => Ok(row),
        Err(e) => Err(e@),
    }
}

/// Nothing, or the text of an error, as characters.
pub open spec fn unit_text(r: Result<(), String>) -> Result<(), Seq<char>> {
    match r {
        Ok(()) => Ok(()),
        Err(e) => Err(e@),
    }
}

/// What comes of a request that only changes the database.
pub open spec fn change_report(op: Op, reply: Result<i64, Seq<char>>) -> Result<(), Seq<char>> {
    match reply {
        Ok(_) => Ok(()),
        Err(e) => Err(failure_text(op, e)),
    }
}

/// Tells what came of a request that only changes the database.
pub fn finish(request: &Request, reply: Result<i64, String>) -> (r: Result<(), String>)
    ensures
        unit_text(r) == change_report(request@, change_text(reply)),
{
    match reply {
        Ok(_) => Ok(()),
        Err(e) => Err(describe_failure(request, e.as_str())),
    }
}

} // verus!
