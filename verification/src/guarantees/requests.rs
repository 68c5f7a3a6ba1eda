//! What the requests to the database are: their statements and what is told of their failures.

use vstd::prelude::*;

use crate::request::{
    describe_creation_failure, describe_failure, finish, statement, NameList, Request,
};
use crate::sql::{schema_statement, Statement, Value};

verus! {

/// Whether a value is a text of these characters.
pub open spec fn is_text(value: Value, text: Seq<char>) -> bool {
    value matches Value::Text(t) && t@ == text
}

/// Whether a value is this number.
pub open spec fn is_number(value: Value, number: i64) -> bool {
    value matches Value::Integer(n) && n == number
}

/// The parameters of a statement are what they are seen as.
proof fn lemma_params(request: &Request, r: Statement)
    requires
        call_ensures(statement, (request,), r),
    ensures
        r@ == crate::request::query(request@),
        r.params@.len() == r@.params.len(),
        forall|i: int| 0 <= i < r.params@.len() ==> r@.params[i] == (#[trigger] r.params@[i])@,
{
}

/// Adding an account writes the name and the hash.
pub proof fn adding_an_account_writes_name_and_hash(request: &Request, r: Statement)
    requires
        call_ensures(statement, (request,), r),
    ensures
        *request matches Request::InsertUser { username, password_hash } ==> r.sql@
            == "INSERT INTO users (username, password_hash) VALUES (?1, ?2)"@ && r.params@.len() == 2
            && is_text(r.params@[0], username@)
            && is_text(r.params@[1], password_hash@),
{
    if *request matches Request::InsertUser { username, password_hash } {
        lemma_params(request, r);
    }
}

/// Adding preferences names the account.
pub proof fn adding_preferences_names_the_account(request: &Request, r: Statement)
    requires
        call_ensures(statement, (request,), r),
    ensures
        *request matches Request::InsertPreferences { user_id } ==> r.sql@
            == "INSERT INTO user_prefs (user_id) VALUES (?1)"@ && r.params@.len() == 1
            && is_number(r.params@[0], user_id),
{
    if *request matches Request::InsertPreferences { user_id } {
        lemma_params(request, r);
    }
}

/// An account is looked for by its whole name.
pub proof fn an_account_is_found_by_its_name(request: &Request, r: Statement)
    requires
        call_ensures(statement, (request,), r),
    ensures
        *request matches Request::FindUserByName { username } ==> r.sql@
            == "SELECT id, username, password_hash, totp_enabled FROM users WHERE username = ?1"@ && r.params@.len() == 1
            && is_text(r.params@[0], username@),
{
    if *request matches Request::FindUserByName { username } {
        lemma_params(request, r);
    }
}

/// An account is looked for by its number.
pub proof fn an_account_is_found_by_its_number(request: &Request, r: Statement)
    requires
        call_ensures(statement, (request,), r),
    ensures
        *request matches Request::FindUserById { user_id } ==> r.sql@
            == "SELECT username, totp_secret, password_hash FROM users WHERE id = ?1"@ && r.params@.len() == 1
            && is_number(r.params@[0], user_id),
{
    if *request matches Request::FindUserById { user_id } {
        lemma_params(request, r);
    }
}

/// Adding a session writes its account, its token and its end.
pub proof fn adding_a_session_writes_account_token_and_end(request: &Request, r: Statement)
    requires
        call_ensures(statement, (request,), r),
    ensures
        *request matches Request::InsertSession { user_id, token, expires_at } ==> r.sql@
            == "INSERT INTO sessions (user_id, token, expires_at) VALUES (?1, ?2, ?3)"@ && r.params@.len() == 3
            && is_number(r.params@[0], user_id)
            && is_text(r.params@[1], token@)
            && is_number(r.params@[2], expires_at),
{
    if *request matches Request::InsertSession { user_id, token, expires_at } {
        lemma_params(request, r);
    }
}

/// A session is looked for by its token, where it ends after a time.
pub proof fn a_session_is_found_by_its_token(request: &Request, r: Statement)
    requires
        call_ensures(statement, (request,), r),
    ensures
        *request matches Request::FindSession { token, now } ==> r.sql@
            == "SELECT u.id, u.username, u.totp_enabled 
         FROM users u 
         JOIN sessions s ON u.id = s.user_id 
         WHERE s.token = ?1 AND s.expires_at > ?2"@ && r.params@.len() == 2
            && is_text(r.params@[0], token@)
            && is_number(r.params@[1], now),
{
    if *request matches Request::FindSession { token, now } {
        lemma_params(request, r);
    }
}

/// Ending a session names its token.
pub proof fn ending_a_session_names_its_token(request: &Request, r: Statement)
    requires
        call_ensures(statement, (request,), r),
    ensures
        *request matches Request::DeleteSession { token } ==> r.sql@
            == "DELETE FROM sessions WHERE token = ?1"@ && r.params@.len() == 1
            && is_text(r.params@[0], token@),
{
    if *request matches Request::DeleteSession { token } {
        lemma_params(request, r);
    }
}

/// Turning one-time passwords on writes the secret to the account.
pub proof fn enabling_codes_writes_secret_to_the_account(request: &Request, r: Statement)
    requires
        call_ensures(statement, (request,), r),
    ensures
        *request matches Request::EnableTotp { user_id, secret } ==> r.sql@
            == "UPDATE users SET totp_secret = ?1, totp_enabled = 1, updated_at = strftime('%s', 'now') WHERE id = ?2"@ && r.params@.len() == 2
            && is_text(r.params@[0], secret@)
            && is_number(r.params@[1], user_id),
{
    if *request matches Request::EnableTotp { user_id, secret } {
        lemma_params(request, r);
    }
}

/// Turning one-time passwords off names the account.
pub proof fn disabling_codes_names_the_account(request: &Request, r: Statement)
    requires
        call_ensures(statement, (request,), r),
    ensures
        *request matches Request::DisableTotp { user_id } ==> r.sql@
            == "UPDATE users SET totp_secret = NULL, totp_enabled = 0, updated_at = strftime('%s', 'now') WHERE id = ?1"@ && r.params@.len() == 1
            && is_number(r.params@[0], user_id),
{
    if *request matches Request::DisableTotp { user_id } {
        lemma_params(request, r);
    }
}

/// Listing the subscriptions of an account asks for all of them, in order.
pub proof fn all_subscriptions_are_listed(request: &Request, r: Statement)
    requires
        call_ensures(statement, (request,), r),
    ensures
        *request matches Request::ListNames { list: NameList::Subscriptions, user_id } ==> r.sql@
            == "SELECT subreddit FROM subscriptions WHERE user_id = ?1 ORDER BY subreddit"@ && r.params@.len() == 1
            && is_number(r.params@[0], user_id),
{
    if *request matches Request::ListNames { list: NameList::Subscriptions, user_id } {
        lemma_params(request, r);
    }
}

/// Adding to the subscriptions names the account and the community.
pub proof fn subscriptions_are_added_to_the_account(request: &Request, r: Statement)
    requires
        call_ensures(statement, (request,), r),
    ensures
        *request matches Request::AddName { list: NameList::Subscriptions, user_id, subreddit } ==> r.sql@
            == "INSERT OR IGNORE INTO subscriptions (user_id, subreddit) VALUES (?1, ?2)"@ && r.params@.len() == 2
            && is_number(r.params@[0], user_id)
            && is_text(r.params@[1], subreddit@),
{
    if *request matches Request::AddName { list: NameList::Subscriptions, user_id, subreddit } {
        lemma_params(request, r);
    }
}

/// Removing from the subscriptions names the account and the community.
pub proof fn subscriptions_are_removed_from_the_account(request: &Request, r: Statement)
    requires
        call_ensures(statement, (request,), r),
    ensures
        *request matches Request::RemoveName { list: NameList::Subscriptions, user_id, subreddit } ==> r.sql@
            == "DELETE FROM subscriptions WHERE user_id = ?1 AND subreddit = ?2"@ && r.params@.len() == 2
            && is_number(r.params@[0], user_id)
            && is_text(r.params@[1], subreddit@),
{
    if *request matches Request::RemoveName { list: NameList::Subscriptions, user_id, subreddit } {
        lemma_params(request, r);
    }
}

/// Listing the filters of an account asks for all of them, in order.
pub proof fn all_filters_are_listed(request: &Request, r: Statement)
    requires
        call_ensures(statement, (request,), r),
    ensures
        *request matches Request::ListNames { list: NameList::Filters, user_id } ==> r.sql@
            == "SELECT subreddit FROM filters WHERE user_id = ?1 ORDER BY subreddit"@ && r.params@.len() == 1
            && is_number(r.params@[0], user_id),
{
    if *request matches Request::ListNames { list: NameList::Filters, user_id } {
        lemma_params(request, r);
    }
}

/// Adding to the filters names the account and the community.
pub proof fn filters_are_added_to_the_account(request: &Request, r: Statement)
    requires
        call_ensures(statement, (request,), r),
    ensures
        *request matches Request::AddName { list: NameList::Filters, user_id, subreddit } ==> r.sql@
            == "INSERT OR IGNORE INTO filters (user_id, subreddit) VALUES (?1, ?2)"@ && r.params@.len() == 2
            && is_number(r.params@[0], user_id)
            && is_text(r.params@[1], subreddit@),
{
    if *request matches Request::AddName { list: NameList::Filters, user_id, subreddit } {
        lemma_params(request, r);
    }
}

/// Removing from the filters names the account and the community.
pub proof fn filters_are_removed_from_the_account(request: &Request, r: Statement)
    requires
        call_ensures(statement, (request,), r),
    ensures
        *request matches Request::RemoveName { list: NameList::Filters, user_id, subreddit } ==> r.sql@
            == "DELETE FROM filters WHERE user_id = ?1 AND subreddit = ?2"@ && r.params@.len() == 2
            && is_number(r.params@[0], user_id)
            && is_text(r.params@[1], subreddit@),
{
    if *request matches Request::RemoveName { list: NameList::Filters, user_id, subreddit } {
        lemma_params(request, r);
    }
}

/// What the schema runs at place 0.
pub proof fn schema_runs_at_0(r: Option<&'static str>)
    requires
        call_ensures(schema_statement, (0usize,), r),
    ensures
        r matches Some(sql) && sql@ == "CREATE TABLE IF NOT EXISTS users (
            id INTEGER PRIMARY KEY AUTOINCREMENT,
            username TEXT UNIQUE NOT NULL,
            password_hash TEXT NOT NULL,
            totp_secret TEXT,
            totp_enabled INTEGER DEFAULT 0,
            created_at INTEGER DEFAULT (strftime('%s', 'now')),
            updated_at INTEGER DEFAULT (strftime('%s', 'now'))
        )"@,
{
}

/// What the schema runs at place 1.
pub proof fn schema_runs_at_1(r: Option<&'static str>)
    requires
        call_ensures(schema_statement, (1usize,), r),
    ensures
        r matches Some(sql) && sql@ == "CREATE TABLE IF NOT EXISTS sessions (
            id INTEGER PRIMARY KEY AUTOINCREMENT,
            user_id INTEGER NOT NULL,
            token TEXT UNIQUE NOT NULL,
            expires_at INTEGER NOT NULL,
            created_at INTEGER DEFAULT (strftime('%s', 'now')),
            FOREIGN KEY (user_id) REFERENCES users(id) ON DELETE CASCADE
        )"@,
{
}

/// What the schema runs at place 2.
pub proof fn schema_runs_at_2(r: Option<&'static str>)
    requires
        call_ensures(schema_statement, (2usize,), r),
    ensures
        r matches Some(sql) && sql@ == "CREATE TABLE IF NOT EXISTS user_prefs (
            user_id INTEGER PRIMARY KEY,
            theme TEXT DEFAULT '',
            front_page TEXT DEFAULT '',
            layout TEXT DEFAULT '',
            wide TEXT DEFAULT '',
            blur_spoiler TEXT DEFAULT '',
            show_nsfw TEXT DEFAULT '',
            blur_nsfw TEXT DEFAULT '',
            hide_hls_notification TEXT DEFAULT '',
            video_quality TEXT DEFAULT '',
            hide_sidebar_and_summary TEXT DEFAULT '',
            use_hls TEXT DEFAULT '',
            autoplay_videos TEXT DEFAULT '',
            fixed_navbar TEXT DEFAULT 'on',
            comment_sort TEXT DEFAULT '',
            post_sort TEXT DEFAULT '',
            hide_awards TEXT DEFAULT '',
            hide_score TEXT DEFAULT '',
            remove_default_feeds TEXT DEFAULT '',
            FOREIGN KEY (user_id) REFERENCES users(id) ON DELETE CASCADE
        )"@,
{
}

/// What the schema runs at place 3.
pub proof fn schema_runs_at_3(r: Option<&'static str>)
    requires
        call_ensures(schema_statement, (3usize,), r),
    ensures
        r matches Some(sql) && sql@ == "CREATE TABLE IF NOT EXISTS subscriptions (
            id INTEGER PRIMARY KEY AUTOINCREMENT,
            user_id INTEGER NOT NULL,
            subreddit TEXT NOT NULL,
            created_at INTEGER DEFAULT (strftime('%s', 'now')),
            UNIQUE(user_id, subreddit),
            FOREIGN KEY (user_id) REFERENCES users(id) ON DELETE CASCADE
        )"@,
{
}

/// What the schema runs at place 4.
pub proof fn schema_runs_at_4(r: Option<&'static str>)
    requires
        call_ensures(schema_statement, (4usize,), r),
    ensures
        r matches Some(sql) && sql@ == "CREATE TABLE IF NOT EXISTS filters (
            id INTEGER PRIMARY KEY AUTOINCREMENT,
            user_id INTEGER NOT NULL,
            subreddit TEXT NOT NULL,
            created_at INTEGER DEFAULT (strftime('%s', 'now')),
            UNIQUE(user_id, subreddit),
            FOREIGN KEY (user_id) REFERENCES users(id) ON DELETE CASCADE
        )"@,
{
}

/// What the schema runs at place 5.
pub proof fn schema_runs_at_5(r: Option<&'static str>)
    requires
        call_ensures(schema_statement, (5usize,), r),
    ensures
        r matches Some(sql) && sql@ == "CREATE INDEX IF NOT EXISTS idx_sessions_token ON sessions(token)"@,
{
}

/// What the schema runs at place 6.
pub proof fn schema_runs_at_6(r: Option<&'static str>)
    requires
        call_ensures(schema_statement, (6usize,), r),
    ensures
        r matches Some(sql) && sql@ == "CREATE INDEX IF NOT EXISTS idx_sessions_user ON sessions(user_id)"@,
{
}

/// What the schema runs at place 7.
pub proof fn schema_runs_at_7(r: Option<&'static str>)
    requires
        call_ensures(schema_statement, (7usize,), r),
    ensures
        r matches Some(sql) && sql@ == "CREATE INDEX IF NOT EXISTS idx_subs_user ON subscriptions(user_id)"@,
{
}

/// What the schema runs at place 8.
pub proof fn schema_runs_at_8(r: Option<&'static str>)
    requires
        call_ensures(schema_statement, (8usize,), r),
    ensures
        r matches Some(sql) && sql@ == "CREATE INDEX IF NOT EXISTS idx_filters_user ON filters(user_id)"@,
{
}

/// The schema has nine statements.
pub proof fn schema_ends(at: usize, r: Option<&'static str>)
    requires
        call_ensures(schema_statement, (at,), r),
    ensures
        r is Some <==> at < 9,
{
}

/// A failure to add an account is told as a taken name exactly where the database says that a name
/// must be unique, and passed on otherwise.
pub proof fn a_taken_name_is_worded(before: Seq<char>, after: Seq<char>, error: &str, r: String)
    requires
        call_ensures(describe_creation_failure, (error,), r),
        error@ == before + "UNIQUE constraint"@ + after,
    ensures
        r@ == "Username already exists"@,
{
    let n = before.len() as int;
    assert(error@.subrange(n, n + "UNIQUE constraint"@.len()) =~= "UNIQUE constraint"@);
}

/// A failure to add an account in which the database does not speak of a unique name is passed on.
pub proof fn another_failure_is_passed_on(error: &str, r: String)
    requires
        call_ensures(describe_creation_failure, (error,), r),
        forall|before: Seq<char>, after: Seq<char>|
            error@ != #[trigger] (before + "UNIQUE constraint"@ + after),
    ensures
        r@ == "Database error: "@ + error@,
{
    let words = "UNIQUE constraint"@;
    if crate::text::occurs(words, error@) {
        let i = choose|i: int|
            0 <= i <= error@.len() - words.len() && #[trigger] error@.subrange(
                i,
                i + words.len(),
            ) == words;
        let before = error@.take(i);
        let after = error@.skip(i + words.len());
        assert(error@ =~= before + words + after);
    }
}

/// Each failure is told under its own heading, with what the database says.
pub proof fn failures_are_told_under_headings(request: &Request, error: &str, r: String)
    requires
        call_ensures(describe_failure, (request, error), r),
    ensures
        *request matches Request::InsertPreferences { .. } ==> r@ == "Failed to create user preferences: "@ + error@,
        *request matches Request::InsertSession { .. } ==> r@ == "Failed to create session: "@ + error@,
        *request matches Request::DeleteSession { .. } ==> r@ == "Failed to delete session: "@ + error@,
        *request matches Request::EnableTotp { .. } ==> r@ == "Failed to enable 2FA: "@ + error@,
        *request matches Request::DisableTotp { .. } ==> r@ == "Failed to disable 2FA: "@ + error@,
        *request matches Request::AddName { list: NameList::Subscriptions, .. } ==> r@ == "Failed to add subscription: "@ + error@,
        *request matches Request::AddName { list: NameList::Filters, .. } ==> r@ == "Failed to add filter: "@ + error@,
        *request matches Request::RemoveName { list: NameList::Subscriptions, .. } ==> r@ == "Failed to remove subscription: "@ + error@,
        *request matches Request::RemoveName { list: NameList::Filters, .. } ==> r@ == "Failed to remove filter: "@ + error@,
        *request matches Request::FindUserByName { .. } ==> r@ == "Query error: "@ + error@,
        *request matches Request::FindUserById { .. } ==> r@ == "Query error: "@ + error@,
        *request matches Request::FindSession { .. } ==> r@ == "Query error: "@ + error@,
        *request matches Request::ListNames { .. } ==> r@ == "Query error: "@ + error@,
{
}

/// A failure to add an account is told in the same words wherever it is told.
pub proof fn creation_failures_are_told_alike(request: &Request, error: &str, r: String, other: String)
    requires
        call_ensures(describe_failure, (request, error), r),
        call_ensures(describe_creation_failure, (error,), other),
        request is InsertUser,
    ensures
        r@ == other@,
{
}

/// A change succeeds exactly where the database carried it out, and fails with the words for its
/// failure.
pub proof fn a_change_ends_as_the_database_says(
    request: &Request,
    reply: Result<i64, String>,
    r: Result<(), String>,
)
    requires
        call_ensures(finish, (request, reply), r),
    ensures
        r is Ok <==> reply is Ok,
        forall|error: &str, told: String|
            reply is Err && error@ == reply->Err_0@ && #[trigger] call_ensures(
                describe_failure,
                (request, error),
                told,
            ) ==> r is Err && r->Err_0@ == told@,
{
}

} // verus!
