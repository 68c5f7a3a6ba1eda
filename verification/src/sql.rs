//! The database's tables and statements as SQL text, and the values that go in and come out.

use vstd::prelude::*;

verus! {

/// Accounts.
pub const CREATE_USERS: &'static str = "CREATE TABLE IF NOT EXISTS users (
            id INTEGER PRIMARY KEY AUTOINCREMENT,
            username TEXT UNIQUE NOT NULL,
            password_hash TEXT NOT NULL,
            totp_secret TEXT,
            totp_enabled INTEGER DEFAULT 0,
            created_at INTEGER DEFAULT (strftime('%s', 'now')),
            updated_at INTEGER DEFAULT (strftime('%s', 'now'))
        )";

/// Open sessions.
pub const CREATE_SESSIONS: &'static str = "CREATE TABLE IF NOT EXISTS sessions (
            id INTEGER PRIMARY KEY AUTOINCREMENT,
            user_id INTEGER NOT NULL,
            token TEXT UNIQUE NOT NULL,
            expires_at INTEGER NOT NULL,
            created_at INTEGER DEFAULT (strftime('%s', 'now')),
            FOREIGN KEY (user_id) REFERENCES users(id) ON DELETE CASCADE
        )";

/// Preferences of accounts.
pub const CREATE_USER_PREFS: &'static str = "CREATE TABLE IF NOT EXISTS user_prefs (
            user_id INTEGER PRIMARY KEY,
            theme TEXT DEFAULT '',
            front_page TEXT DEFAULT '',
            layout TEXT DEFAULT '',
            wide TEXT DEFAULT '',
            blur_spoiler TEXT DEFAULT '',
            show_nsfw TEXT DEFAULT '',
            blur_nsfw TEXT DEFAULT '',
            hide_hls_notification TEXT DEFAULT '',
            video_quality TEXT DEFAULT '',
            hide_sidebar_and_summary TEXT DEFAULT '',
            use_hls TEXT DEFAULT '',
            autoplay_videos TEXT DEFAULT '',
            fixed_navbar TEXT DEFAULT 'on',
            comment_sort TEXT DEFAULT '',
            post_sort TEXT DEFAULT '',
            hide_awards TEXT DEFAULT '',
            hide_score TEXT DEFAULT '',
            remove_default_feeds TEXT DEFAULT '',
            FOREIGN KEY (user_id) REFERENCES users(id) ON DELETE CASCADE
        )";

/// Subscribed communities of accounts.
pub const CREATE_SUBSCRIPTIONS: &'static str = "CREATE TABLE IF NOT EXISTS subscriptions (
            id INTEGER PRIMARY KEY AUTOINCREMENT,
            user_id INTEGER NOT NULL,
            subreddit TEXT NOT NULL,
            created_at INTEGER DEFAULT (strftime('%s', 'now')),
            UNIQUE(user_id, subreddit),
            FOREIGN KEY (user_id) REFERENCES users(id) ON DELETE CASCADE
        )";

/// Filtered communities of accounts.
pub const CREATE_FILTERS: &'static str = "CREATE TABLE IF NOT EXISTS filters (
            id INTEGER PRIMARY KEY AUTOINCREMENT,
            user_id INTEGER NOT NULL,
            subreddit TEXT NOT NULL,
            created_at INTEGER DEFAULT (strftime('%s', 'now')),
            UNIQUE(user_id, subreddit),
            FOREIGN KEY (user_id) REFERENCES users(id) ON DELETE CASCADE
        )";

/// Finds a session by its token.
pub const INDEX_SESSIONS_TOKEN: &'static str = "CREATE INDEX IF NOT EXISTS idx_sessions_token ON sessions(token)";

/// Finds the sessions of an account.
pub const INDEX_SESSIONS_USER: &'static str = "CREATE INDEX IF NOT EXISTS idx_sessions_user ON sessions(user_id)";

/// Finds the subscriptions of an account.
pub const INDEX_SUBSCRIPTIONS_USER: &'static str = "CREATE INDEX IF NOT EXISTS idx_subs_user ON subscriptions(user_id)";

/// Finds the filters of an account.
pub const INDEX_FILTERS_USER: &'static str = "CREATE INDEX IF NOT EXISTS idx_filters_user ON filters(user_id)";

/// Adds an account.
pub const INSERT_USER: &'static str = "INSERT INTO users (username, password_hash) VALUES (?1, ?2)";

/// Gives an account its default preferences.
pub const INSERT_PREFERENCES: &'static str = "INSERT INTO user_prefs (user_id) VALUES (?1)";

/// Finds an account by its name.
pub const FIND_USER_BY_NAME: &'static str = "SELECT id, username, password_hash, totp_enabled FROM users WHERE username = ?1";

/// Finds an account by its number.
pub const FIND_USER_BY_ID: &'static str = "SELECT username, totp_secret, password_hash FROM users WHERE id = ?1";

/// Adds a session.
pub const INSERT_SESSION: &'static str = "INSERT INTO sessions (user_id, token, expires_at) VALUES (?1, ?2, ?3)";

/// Finds the account of a session that has not ended.
pub const FIND_SESSION: &'static str = "SELECT u.id, u.username, u.totp_enabled 
         FROM users u 
         JOIN sessions s ON u.id = s.user_id 
         WHERE s.token = ?1 AND s.expires_at > ?2";

/// Ends a session.
pub const DELETE_SESSION: &'static str = "DELETE FROM sessions WHERE token = ?1";

/// Turns one-time passwords on for an account.
pub const ENABLE_TOTP: &'static str = "UPDATE users SET totp_secret = ?1, totp_enabled = 1, updated_at = strftime('%s', 'now') WHERE id = ?2";

/// Turns one-time passwords off for an account.
pub const DISABLE_TOTP: &'static str = "UPDATE users SET totp_secret = NULL, totp_enabled = 0, updated_at = strftime('%s', 'now') WHERE id = ?1";

/// Lists the subscriptions of an account.
pub const LIST_SUBSCRIPTIONS: &'static str = "SELECT subreddit FROM subscriptions WHERE user_id = ?1 ORDER BY subreddit";

/// Adds a subscription to an account.
pub const ADD_SUBSCRIPTION: &'static str = "INSERT OR IGNORE INTO subscriptions (user_id, subreddit) VALUES (?1, ?2)";

/// Removes a subscription from an account.
pub const REMOVE_SUBSCRIPTION: &'static str = "DELETE FROM subscriptions WHERE user_id = ?1 AND subreddit = ?2";

/// Lists the filters of an account.
pub const LIST_FILTERS: &'static str = "SELECT subreddit FROM filters WHERE user_id = ?1 ORDER BY subreddit";

/// Adds a filter to an account.
pub const ADD_FILTER: &'static str = "INSERT OR IGNORE INTO filters (user_id, subreddit) VALUES (?1, ?2)";

/// Removes a filter from an account.
pub const REMOVE_FILTER: &'static str = "DELETE FROM filters WHERE user_id = ?1 AND subreddit = ?2";

/// A value of a statement's parameter or of a row's column.
#[derive(Debug, Clone)]
pub enum Value {
    Null,
    Integer(i64),
    Text(String),
    /// A value of any other kind, which no account data has.
    Other,
}

/// A value as characters and numbers.
pub enum Cell {
    Null,
    Integer(i64),
    Text(Seq<char>),
    Other,
}

impl View for Value {
    type V = Cell;

    open spec fn view(&self) -> Cell {
        match self {
            Value::Null => Cell::Null,
            Value::Integer(n) => Cell::Integer(*n),
            Value::Text(t) => Cell::Text(t@),
            Value::Other => Cell::Other,
        }
    }
}

/// The cells of a list of values.
pub open spec fn cells(values: Seq<Value>) -> Seq<Cell> {
    Seq::new(values.len(), |i: int| values[i]@)
}

/// A statement with its parameters.
#[derive(Debug, Clone)]
pub struct Statement {
    pub sql: &'static str,
    pub params: Vec<Value>,
}

/// A statement with its parameters as characters and numbers.
#[verifier::ext_equal]
pub struct Query {
    pub sql: Seq<char>,
    pub params: Seq<Cell>,
}

impl View for Statement {
    type V = Query;

    open spec fn view(&self) -> Query {
        Query { sql: self.sql@, params: cells(self.params@) }
    }
}

/// The statements that make the tables and indexes, in the order in which they run.
pub open spec fn schema() -> Seq<Seq<char>> {
    seq![
        CREATE_USERS@,
        CREATE_SESSIONS@,
        CREATE_USER_PREFS@,
        CREATE_SUBSCRIPTIONS@,
        CREATE_FILTERS@,
        INDEX_SESSIONS_TOKEN@,
        INDEX_SESSIONS_USER@,
        INDEX_SUBSCRIPTIONS_USER@,
        INDEX_FILTERS_USER@,
    ]
}

/// Gives the schema's statement at a place, or nothing past the last one.
pub fn schema_statement(at: usize) -> (r: Option<&'static str>)
    ensures
        r is Some <==> at < schema().len(),
        r matches Some(sql) ==> sql@ == schema()[at as int],
{
    if at == 0 {
        Some(CREATE_USERS)
    } else if at == 1 {
        Some(CREATE_SESSIONS)
    } else if at == 2 {
        Some(CREATE_USER_PREFS)
    } else if at == 3 {
        Some(CREATE_SUBSCRIPTIONS)
    } else if at == 4 {
        Some(CREATE_FILTERS)
    } else if at == 5 {
        Some(INDEX_SESSIONS_TOKEN)
    } else if at == 6 {
        Some(INDEX_SESSIONS_USER)
    } else if at == 7 {
        Some(INDEX_SUBSCRIPTIONS_USER)
    } else if at == 8 {
        Some(INDEX_FILTERS_USER)
    } else {
        None
    }
}

/// The text in a column of a row, where the row has that column and it holds text.
pub open spec fn text_at(row: Seq<Cell>, column: int) -> Option<Seq<char>> {
    if 0 <= column < row.len() && row[column] is Text {
        Some(row[column]->Text_0)
    } else {
        None
    }
}

/// The number in a column of a row, where the row has that column and it holds a number.
pub open spec fn integer_at(row: Seq<Cell>, column: int) -> Option<i64> {
    if 0 <= column < row.len() && row[column] is Integer {
        Some(row[column]->Integer_0)
    } else {
        None
    }
}

/// The flag in a column of a row: a number of 32 bits that is 0 for no.
pub open spec fn flag_at(row: Seq<Cell>, column: int) -> Option<bool> {
    match integer_at(row, column) {
        Some(n) => if i32::MIN <= n <= i32::MAX {
            Some(n != 0)
        } else {
            None
        },
        None => None,
    }
}

/// Reads the text in a column.
pub fn read_text(row: &Vec<Value>, column: usize) -> (r: Option<String>)
    ensures
        r is Some <==> text_at(cells(row@), column as int) is Some,
        r matches Some(t) ==> text_at(cells(row@), column as int) == Some(t@),
{
    if column < row.len() {
        match &row[column] {
            Value::Text(t) => Some(t.clone()),
            _ => None,
        }
    } else {
        None
    }
}

/// Reads the number in a column.
pub fn read_integer(row: &Vec<Value>, column: usize) -> (r: Option<i64>)
    ensures
        r == integer_at(cells(row@), column as int),
{
    if column < row.len() {
        match &row[column] {
            Value::Integer(n) => Some(*n),
            _ => None,
        }
    } else {
        None
    }
}

/// Reads the flag in a column.
pub fn read_flag(row: &Vec<Value>, column: usize) -> (r: Option<bool>)
    ensures
        r == flag_at(cells(row@), column as int),
{
    match read_integer(row, column) {
        Some(n) => {
            if i32::MIN as i64 <= n && n <= i32::MAX as i64 {
                Some(n != 0)
            } else {
                None
            }
        },
        None => None,
    }
}

} // verus!
