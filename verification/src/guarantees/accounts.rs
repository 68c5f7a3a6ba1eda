//! What the operations on accounts, sessions and lists ask for and give.

use vstd::prelude::*;
use vstd::utf8::encode_utf8;

use crate::clock::clock_reading;
use crate::db::{
    add_account, add_filter, add_subscription, authenticate_user, check_credential, create_session,
    create_user, credential_verdict, delete_session, disable_totp, enable_totp, enable_totp_checked,
    finish_login, follows_verdict, get_user_filters, get_user_subscriptions, initialize_database,
    is_auth_required, is_db_enabled, is_spelled_well, judge_code, judge_credential, judge_password,
    listed_names, names_in, open_pool, read_coded_user, read_named_user, read_names, refuse_access,
    refuse_creation, remove_filter, remove_subscription, resume_create_user, row_text, rows_view,
    session_start, texts, unicode_alphanumeric, validate_session, validate_session_at,
    validated_user, verify_password, verify_totp_and_login, Access, AuthResult, Credential,
    LoginStep, NamedUser, NewUser, NewUserStep, OpenStep, PendingSession, Pool, UserAccount,
    Verdict, VerdictView,
};
use crate::encoding::base64url;
use crate::guarantees::parts::{lemma_time_of, time_of};
use crate::password::argon2_verdict;
use crate::request::Request;
use crate::session::{drawn, fresh_bytes, token_of_draw, Fault, TOKEN_BYTES};
use crate::sql::{schema_statement, Cell, Value};
use crate::totp::{code_clock, verify_totp_code_at};

verus! {

// ---------------------------------------------------------------------------------------------
// Opening the database
// ---------------------------------------------------------------------------------------------
/// Accounts are enabled exactly where the database is ready.
pub proof fn enabled_means_ready(pool: &Pool, r: bool)
    requires
        call_ensures(is_db_enabled, (pool,), r),
    ensures
        r <==> *pool is Ready,
{
}

/// The file that is opened is the one that the setting names; without one nothing is opened.
pub proof fn the_named_file_is_opened(path: Option<&str>, r: OpenStep)
    requires
        call_ensures(open_pool, (path,), r),
    ensures
        path matches Some(p) ==> r matches OpenStep::Open(file) && file@ == p@,
        path is None ==> r matches OpenStep::Done(Pool::Unconfigured),
{
}

/// After `done` statements that went well the schema's statement at that place runs; after the last
/// one the database is ready; a failure ends it with its own text.
pub proof fn set_up_follows_the_schema(
    done: usize,
    last: Result<(), String>,
    r: OpenStep,
    next: Option<&'static str>,
)
    requires
        call_ensures(initialize_database, (done, last), r),
        call_ensures(schema_statement, (done,), next),
    ensures
        last matches Err(e) ==> r matches OpenStep::Done(Pool::Failed(text)) && text@ == e@,
        last is Ok && next is Some ==> (r matches OpenStep::Run { sql, done: after } && sql@
            == next->0@ && after == done + 1),
        last is Ok && next is None ==> r matches OpenStep::Done(Pool::Ready),
{
}

/// A login is required exactly where the setting is one of three words.
pub proof fn three_words_require_a_login(setting: Option<&str>, r: bool)
    requires
        call_ensures(is_auth_required, (setting,), r),
    ensures
        r <==> setting is Some && (setting->0@ == "on"@ || setting->0@ == "true"@ || setting->0@
            == "1"@),
{
}

/// The database is refused exactly where it was not opened or is not unlocked, with the reason.
pub proof fn access_is_refused_with_the_reason(access: &Access, r: Option<String>)
    requires
        call_ensures(refuse_access, (access,), r),
    ensures
        *access is Granted ==> r is None,
        *access is Unavailable ==> r is Some && r->0@ == "Database not available"@,
        *access matches Access::LockFailed(e) ==> r is Some && r->0@ == "DB lock error: "@ + e@,
{
}

// ---------------------------------------------------------------------------------------------
// Creating an account
// ---------------------------------------------------------------------------------------------
/// Why nothing can be asked of the database, in words.
pub open spec fn says_no_access(access: Access, text: Seq<char>) -> bool {
    match access {
        Access::Granted => false,
        Access::Unavailable => text == "Database not available"@,
        Access::LockFailed(e) => text == "DB lock error: "@ + e@,
    }
}

/// Whether every character may stand in a name.
pub open spec fn only_name_characters(username: Seq<char>) -> bool {
    forall|i: int|
        0 <= i < username.len() ==> (#[trigger] username[i]) == '_' || unicode_alphanumeric(
            username[i],
        )
}

/// A name is spelled well exactly where each of its characters may stand in a name, whatever its
/// length.
pub proof fn spelling_looks_at_every_character(username: &str, r: bool)
    requires
        call_ensures(is_spelled_well, (username,), r),
    ensures
        r <==> only_name_characters(username@),
{
}

/// A registration is refused for the first of these reasons that holds, and for no other: the
/// database, the length of the name, its spelling, the length of the password.
pub proof fn registrations_are_refused_in_order(
    access: &Access,
    username: &str,
    password: &str,
    r: Option<String>,
)
    requires
        call_ensures(refuse_creation, (access, username, password), r),
    ensures
        !(*access is Granted) ==> r is Some && says_no_access(*access, r->0@),
        *access is Granted && !(3 <= encode_utf8(username@).len() <= 32) ==> r is Some && r->0@
            == "Username must be 3-32 characters"@,
        *access is Granted && 3 <= encode_utf8(username@).len() <= 32 && !only_name_characters(
            username@,
        ) ==> r is Some && r->0@
            == "Username can only contain letters, numbers, and underscores"@,
        *access is Granted && 3 <= encode_utf8(username@).len() <= 32 && only_name_characters(
            username@,
        ) && encode_utf8(password@).len() < 8 ==> r is Some && r->0@
            == "Password must be at least 8 characters"@,
        *access is Granted && 3 <= encode_utf8(username@).len() <= 32 && only_name_characters(
            username@,
        ) && encode_utf8(password@).len() >= 8 ==> r is None,
{
}

/// Creating an account ends at once with the reason where the registration is refused; otherwise the
/// account is added under the given name, with a hash that accepts the given password.
pub proof fn an_accepted_registration_is_added(
    access: &Access,
    username: &str,
    password: &str,
    refusal: Option<String>,
    r: NewUserStep,
)
    requires
        call_ensures(refuse_creation, (access, username, password), refusal),
        call_ensures(create_user, (access, username, password), r),
    ensures
        refusal matches Some(e) ==> r matches NewUserStep::Done(Err(text)) && text@ == e@,
        refusal is None && encode_utf8(password@).len() <= u32::MAX ==> r is Run,
        r is Run ==> refusal is None && (r matches NewUserStep::Run(
            Request::InsertUser { username: name, password_hash },
            NewUser::AddingAccount,
        ) && name@ == username@ && argon2_verdict(password@, password_hash@) == Some(true)),
{
}

/// An account is added with the hash that was made, and not at all where none was.
pub proof fn an_account_is_added_with_its_hash(
    username: &str,
    hashed: Result<String, String>,
    r: NewUserStep,
)
    requires
        call_ensures(add_account, (username, hashed), r),
    ensures
        hashed matches Err(e) ==> r matches NewUserStep::Done(Err(text)) && text@ == e@,
        hashed matches Ok(hash) ==> r matches NewUserStep::Run(
            Request::InsertUser { username: name, password_hash },
            NewUser::AddingAccount,
        ) && name@ == username@ && password_hash@ == hash@,
{
}

/// Once the account is added its preferences are, under the number that the database gave; then that
/// number is the result.
pub proof fn a_new_account_gets_its_preferences(
    state: NewUser,
    reply: Result<i64, String>,
    r: NewUserStep,
)
    requires
        call_ensures(resume_create_user, (state, reply), r),
    ensures
        state is AddingAccount && reply is Ok ==> (r matches NewUserStep::Run(
            Request::InsertPreferences { user_id },
            NewUser::AddingPreferences { user_id: kept },
        ) && user_id == reply->Ok_0 && kept == reply->Ok_0),
        state is AddingAccount && reply is Err ==> r matches NewUserStep::Done(Err(_)),
        state matches NewUser::AddingPreferences { user_id } ==> (reply is Ok ==> (
        r matches NewUserStep::Done(Ok(id)) && id == user_id)) && (reply matches Err(e) ==> (
        r matches NewUserStep::Done(Err(text)) && text@ == "Failed to create user preferences: "@
            + e@)),
{
}

/// A failure to add an account is told in the words for it.
pub proof fn a_failed_addition_is_told(
    reply: Result<i64, String>,
    error: &str,
    told: String,
    r: NewUserStep,
)
    requires
        call_ensures(resume_create_user, (NewUser::AddingAccount, reply), r),
        reply is Err,
        reply->Err_0@ == error@,
        call_ensures(crate::request::describe_creation_failure, (error,), told),
    ensures
        r matches NewUserStep::Done(Err(text)) && text@ == told@,
{
}

// ---------------------------------------------------------------------------------------------
// Logging in
// ---------------------------------------------------------------------------------------------
/// A login with a password looks the very name up and carries the very password, whatever their
/// lengths; where the database cannot be worked it says why.
pub proof fn a_password_login_looks_the_name_up(
    access: &Access,
    username: &str,
    password: &str,
    r: LoginStep,
)
    requires
        call_ensures(authenticate_user, (access, username, password), r),
    ensures
        *access is Granted ==> (r matches LoginStep::Lookup(
            Request::FindUserByName { username: name },
            Credential::Password(given),
        ) && name@ == username@ && given@ == password@),
        !(*access is Granted) ==> (r matches LoginStep::Done(AuthResult::DatabaseError(e))
            && says_no_access(*access, e@)),
{
}

/// A login with a code looks the very account up and carries the very code; where the database
/// cannot be worked it says why.
pub proof fn a_code_login_looks_the_account_up(
    access: &Access,
    user_id: i64,
    code: &str,
    r: LoginStep,
)
    requires
        call_ensures(verify_totp_and_login, (access, user_id, code), r),
    ensures
        *access is Granted ==> (r matches LoginStep::Lookup(
            Request::FindUserById { user_id: id },
            Credential::Code { user_id: kept, code: given },
        ) && id == user_id && kept == user_id && given@ == code@),
        !(*access is Granted) ==> (r matches LoginStep::Done(AuthResult::DatabaseError(e))
            && says_no_access(*access, e@)),
{
}

/// Whether a row holds an account as it is looked up by its name.
pub open spec fn row_of_name(
    row: Seq<Value>,
    id: i64,
    username: Seq<char>,
    password_hash: Seq<char>,
    totp_enabled: bool,
) -> bool {
    &&& row.len() >= 4
    &&& row[0] matches Value::Integer(n) && n == id
    &&& row[1] matches Value::Text(t) && t@ == username
    &&& row[2] matches Value::Text(t) && t@ == password_hash
    &&& row[3] matches Value::Integer(n) && i32::MIN <= n <= i32::MAX && totp_enabled == (n != 0)
}

/// Whether a row holds an account with a secret as it is looked up by its number.
pub open spec fn row_of_number(
    row: Seq<Value>,
    username: Seq<char>,
    secret: Seq<char>,
    password_hash: Seq<char>,
) -> bool {
    &&& row.len() >= 3
    &&& row[0] matches Value::Text(t) && t@ == username
    &&& row[1] matches Value::Text(t) && t@ == secret
    &&& row[2] matches Value::Text(t) && t@ == password_hash
}

/// An account is read from its row as it stands there.
pub proof fn a_named_account_is_read(
    row: &Vec<Value>,
    id: i64,
    username: Seq<char>,
    password_hash: Seq<char>,
    totp_enabled: bool,
    r: Option<NamedUser>,
)
    requires
        call_ensures(read_named_user, (row,), r),
        row_of_name(row@, id, username, password_hash, totp_enabled),
    ensures
        r matches Some(user) && user.id == id && user.username@ == username && user.password_hash@
            == password_hash && user.totp_enabled == totp_enabled,
{
    let c = crate::sql::cells(row@);
    assert(c[0] == row@[0]@ && c[1] == row@[1]@ && c[2] == row@[2]@ && c[3] == row@[3]@);
}

/// The name and the secret of an account are read from its row as they stand there.
pub proof fn a_numbered_account_is_read(
    row: &Vec<Value>,
    username: Seq<char>,
    secret: Seq<char>,
    password_hash: Seq<char>,
    r: Option<(String, String)>,
)
    requires
        call_ensures(read_coded_user, (row,), r),
        row_of_number(row@, username, secret, password_hash),
    ensures
        r matches Some((name, kept)) && name@ == username && kept@ == secret,
{
    let c = crate::sql::cells(row@);
    assert(c[0] == row@[0]@ && c[1] == row@[1]@ && c[2] == row@[2]@);
}

/// Whether a column of a row holds a text.
pub open spec fn text_in(row: Seq<Value>, column: int) -> bool {
    column < row.len() && row[column] is Text
}

/// Whether a column of a row holds a number.
pub open spec fn number_in(row: Seq<Value>, column: int) -> bool {
    column < row.len() && row[column] is Integer
}

/// Whether a column of a row holds a number of 32 bits.
pub open spec fn flag_in(row: Seq<Value>, column: int) -> bool {
    number_in(row, column) && i32::MIN <= row[column]->Integer_0 <= i32::MAX
}

proof fn lemma_columns(row: Seq<Value>)
    ensures
        crate::sql::cells(row).len() == row.len(),
        forall|i: int|
            0 <= i < row.len() ==> #[trigger] crate::sql::cells(row)[i] == row[i]@,
{
}

/// A credential is refused where the row cannot be read as an account.
pub proof fn an_unreadable_row_is_refused(
    credential: &Credential,
    row: Vec<Value>,
    clock: Option<u64>,
    r: Verdict,
)
    requires
        call_ensures(
            judge_credential,
            (credential, Ok::<Option<Vec<Value>>, String>(Some(row)), clock),
            r,
        ),
        *credential is Password ==> !(number_in(row@, 0) && text_in(row@, 1) && text_in(row@, 2)
            && flag_in(row@, 3)),
        *credential is Code ==> !(text_in(row@, 0) && text_in(row@, 1) && text_in(row@, 2)),
    ensures
        r matches Verdict::Refused(AuthResult::InvalidCredentials),
{
    lemma_columns(row@);
}

/// An account without a secret has none to be read.
pub proof fn an_account_without_a_secret_has_none(row: &Vec<Value>, r: Option<(String, String)>)
    requires
        call_ensures(read_coded_user, (row,), r),
        row@.len() < 2 || !(row@[1] is Text),
    ensures
        r is None,
{
    let c = crate::sql::cells(row@);
    if row@.len() >= 2 {
        assert(c[1] == row@[1]@);
    }
}

/// A wrong password is refused; a right one opens the account, or asks for its code where it has
/// one-time passwords turned on.
pub proof fn a_password_opens_its_account(user: NamedUser, right: bool, r: Verdict)
    requires
        call_ensures(judge_password, (user, right), r),
    ensures
        !right ==> r matches Verdict::Refused(AuthResult::InvalidCredentials),
        right && user.totp_enabled ==> (r matches Verdict::Refused(
            AuthResult::RequiresTwoFactor(id),
        ) && id == user.id),
        right && !user.totp_enabled ==> (r matches Verdict::Accepted(a) && a.id == user.id
            && a.username@ == user.username@ && !a.totp_enabled),
{
}

/// A code that was accepted opens its account; one that was not is refused; an error is passed on.
pub proof fn a_code_opens_its_account(
    user_id: i64,
    username: String,
    checked: Result<bool, String>,
    r: Verdict,
)
    requires
        call_ensures(judge_code, (user_id, username, checked), r),
    ensures
        checked matches Ok(true) ==> (r matches Verdict::Accepted(a) && a.id == user_id
            && a.username@ == username@ && a.totp_enabled),
        checked matches Ok(false) ==> r matches Verdict::Refused(AuthResult::InvalidCredentials),
        checked matches Err(e) ==> (r matches Verdict::Refused(AuthResult::DatabaseError(text))
            && text@ == e@),
{
}

/// The password is held against the hash in the row: a right one opens the account in the row, or
/// asks for its code where the row says so; a wrong one is refused.
pub proof fn the_password_is_held_against_the_row(
    given: String,
    row: Vec<Value>,
    clock: Option<u64>,
    r: Verdict,
    id: i64,
    username: Seq<char>,
    password_hash: Seq<char>,
    totp_enabled: bool,
    password: &str,
    hash: &str,
    right: bool,
)
    requires
        call_ensures(
            judge_credential,
            (
                &Credential::Password(given),
                Ok::<Option<Vec<Value>>, String>(Some(row)),
                clock,
            ),
            r,
        ),
        row_of_name(row@, id, username, password_hash, totp_enabled),
        password@ == given@,
        hash@ == password_hash,
        call_ensures(verify_password, (password, hash), right),
    ensures
        !right ==> r matches Verdict::Refused(AuthResult::InvalidCredentials),
        right && totp_enabled ==> (r matches Verdict::Refused(AuthResult::RequiresTwoFactor(n))
            && n == id),
        right && !totp_enabled ==> (r matches Verdict::Accepted(a) && a.id == id && a.username@
            == username && !a.totp_enabled),
{
    let c = crate::sql::cells(row@);
    assert(c[0] == row@[0]@ && c[1] == row@[1]@ && c[2] == row@[2]@ && c[3] == row@[3]@);
}

/// The code is held against the secret in the row at the reading of the clock: one that it accepts
/// opens the account, one that it does not is refused, an error is passed on.
pub proof fn the_code_is_held_against_the_row(
    user_id: i64,
    given: String,
    row: Vec<Value>,
    clock: Option<u64>,
    usable: Option<u64>,
    r: Verdict,
    username: Seq<char>,
    stored: Seq<char>,
    password_hash: Seq<char>,
    secret: &str,
    code: &str,
    checked: Result<bool, String>,
)
    requires
        call_ensures(
            judge_credential,
            (
                &Credential::Code { user_id, code: given },
                Ok::<Option<Vec<Value>>, String>(Some(row)),
                clock,
            ),
            r,
        ),
        row_of_number(row@, username, stored, password_hash),
        secret@ == stored,
        code@ == given@,
        call_ensures(code_clock, (clock,), usable),
        call_requires(verify_totp_code_at, (secret, code, usable)),
        call_ensures(verify_totp_code_at, (secret, code, usable), checked),
    ensures
        checked matches Ok(true) ==> (r matches Verdict::Accepted(a) && a.id == user_id
            && a.username@ == username && a.totp_enabled),
        checked matches Ok(false) ==> r matches Verdict::Refused(AuthResult::InvalidCredentials),
        checked matches Err(e) ==> (r matches Verdict::Refused(AuthResult::DatabaseError(text))
            && text@ == e@),
{
    let c = crate::sql::cells(row@);
    assert(c[0] == row@[0]@ && c[1] == row@[1]@ && c[2] == row@[2]@);
}

/// Without an account no credential opens one, whatever the database says of it.
pub proof fn without_an_account_every_credential_is_refused(
    credential: &Credential,
    reply: Result<Option<Vec<Value>>, String>,
    clock: Option<u64>,
    r: Verdict,
)
    requires
        call_ensures(judge_credential, (credential, reply, clock), r),
        reply is Err || reply->Ok_0 is None,
    ensures
        r matches Verdict::Refused(AuthResult::InvalidCredentials),
{
}

/// A session is stored for the account, with the token that was drawn, and ends seven days after the
/// clock's reading; without a token, or past the clock's range, the login stops.
pub proof fn a_session_is_stored_for_seven_days(
    account: UserAccount,
    token: Result<String, Fault>,
    clock: Option<u64>,
    r: LoginStep,
)
    requires
        call_ensures(create_session, (account, token, clock), r),
    ensures
        token matches Err(fault) ==> (r matches LoginStep::Fault(f) && f == fault),
        token is Ok && time_of(clock) + 604800 <= i64::MAX ==> (r matches LoginStep::Store(
            Request::InsertSession { user_id, token: stored, expires_at },
            PendingSession { account: a, token: kept },
        ) && user_id == account.id && stored@ == token->Ok_0@ && expires_at == time_of(clock)
            + 604800 && kept@ == token->Ok_0@ && a.id == account.id && a.username@
            == account.username@ && a.totp_enabled == account.totp_enabled),
        token is Ok && time_of(clock) + 604800 > i64::MAX ==> (r matches LoginStep::Fault(
            Fault::ClockOutOfRange,
        )),
{
    lemma_time_of(clock);
}

/// Whether a step stores a session for an account: with a token of 32 bytes from the random source,
/// for seven days from a reading of the clock.
pub open spec fn stores_a_session_for(step: LoginStep, account: UserAccount) -> bool {
    &&& step matches LoginStep::Store(
        Request::InsertSession { user_id, token, expires_at },
        PendingSession { account: kept, token: kept_token },
    )
    &&& user_id == account.id
    &&& kept.id == account.id
    &&& kept.username@ == account.username@
    &&& kept.totp_enabled == account.totp_enabled
    &&& kept_token@ == token@
    &&& exists|bytes: Seq<u8>|
        fresh_bytes(Ok(bytes)) && bytes.len() == 32 && token@ == #[trigger] base64url(bytes)
    &&& exists|opened: Option<u64>| #[trigger]
        clock_reading(opened) && expires_at == time_of(opened) + 604800
}

/// Whether the machine failed: the random source gave nothing, or the clock is past its range.
pub open spec fn machine_failed(fault: Fault) -> bool {
    match fault {
        Fault::NoRandomBytes => fresh_bytes(Err(Fault::NoRandomBytes)),
        Fault::ClockOutOfRange => exists|opened: Option<u64>| #[trigger]
            clock_reading(opened) && time_of(opened) + 604800 > i64::MAX,
    }
}

/// Whether a step is what a decision leads to: a refusal ends the login, an accepted credential
/// stores a session, unless the machine fails.
pub open spec fn is_earned(verdict: Verdict, step: LoginStep) -> bool {
    match verdict {
        Verdict::Refused(result) => step matches LoginStep::Done(given) && given@ == result@,
        Verdict::Accepted(account) => {
            ||| stores_a_session_for(step, account)
            ||| step matches LoginStep::Fault(fault) && machine_failed(fault)
        },
    }
}

proof fn lemma_store(account: UserAccount, step: LoginStep)
    requires
        follows_verdict(VerdictView::Accepted(account@), step@),
    ensures
        is_earned(Verdict::Accepted(account), step),
{
    let (token, opened) = choose|token: Result<Seq<char>, Fault>, opened: Option<u64>|
        drawn(token) && clock_reading(opened) && step@ == #[trigger] session_start(
            account@,
            token,
            opened,
        );
    assert(clock_reading(opened));
    lemma_time_of(opened);
    let d = choose|d: Result<Seq<u8>, Fault>|
        fresh_bytes(d) && token == #[trigger] token_of_draw(d) && match d {
            Ok(bytes) => bytes.len() == TOKEN_BYTES,
            Err(fault) => fault == Fault::NoRandomBytes,
        };
    if let Ok(bytes) = d {
        assert(token == Ok::<Seq<char>, Fault>(base64url(bytes)));
    }
}

/// After the lookup a login does what the credential earns at a reading of the clock.
pub proof fn a_credential_earns_its_session(
    credential: &Credential,
    reply: Result<Option<Vec<Value>>, String>,
    r: LoginStep,
)
    requires
        call_ensures(check_credential, (credential, reply), r),
    ensures
        exists|clock: Option<u64>| #[trigger]
            clock_reading(clock) && forall|verdict: Verdict| #[trigger]
                call_ensures(judge_credential, (credential, reply, clock), verdict) ==> is_earned(
                    verdict,
                    r,
                ),
{
    let clock = choose|clock: Option<u64>| #[trigger]
        clock_reading(clock) && follows_verdict(
            credential_verdict(credential@, row_text(reply), clock),
            r@,
        );
    assert(clock_reading(clock));
    assert forall|verdict: Verdict| #[trigger]
        call_ensures(judge_credential, (credential, reply, clock), verdict) implies is_earned(
        verdict,
        r,
    ) by {
        if let Verdict::Accepted(account) = verdict {
            lemma_store(account, r);
        }
    }
}

/// A login that stored its session gives the account and the token of that session; one that did not
/// says so.
pub proof fn a_login_gives_its_session(
    pending: PendingSession,
    reply: Result<i64, String>,
    r: AuthResult,
)
    requires
        call_ensures(finish_login, (pending, reply), r),
    ensures
        reply is Ok ==> (r matches AuthResult::Success(account, token) && account.id
            == pending.account.id && account.username@ == pending.account.username@
            && account.totp_enabled == pending.account.totp_enabled && token@ == pending.token@),
        reply matches Err(e) ==> (r matches AuthResult::DatabaseError(text) && text@
            == "Failed to create session: "@ + e@),
{
}

// ---------------------------------------------------------------------------------------------
// Sessions
// ---------------------------------------------------------------------------------------------
/// A session is looked up by the very token and the clock's time; where the database cannot be
/// worked it is not.
pub proof fn a_session_is_looked_up_by_its_token(
    access: &Access,
    token: &str,
    clock: Option<u64>,
    r: Option<Request>,
)
    requires
        call_ensures(validate_session_at, (access, token, clock), r),
    ensures
        !(*access is Granted) ==> r is None,
        *access is Granted ==> (r matches Some(Request::FindSession { token: asked, now })
            && asked@ == token@ && now == time_of(clock)),
{
    lemma_time_of(clock);
}

/// A session is looked up at a reading of the clock.
pub proof fn a_session_is_looked_up_now(access: &Access, token: &str, r: Option<Request>)
    requires
        call_ensures(validate_session, (access, token), r),
    ensures
        !(*access is Granted) ==> r is None,
        *access is Granted ==> (r matches Some(Request::FindSession { token: asked, now })
            && asked@ == token@ && exists|clock: Option<u64>| #[trigger]
            clock_reading(clock) && now == time_of(clock)),
{
    if *access is Granted {
        let clock = choose|clock: Option<u64>| #[trigger]
            clock_reading(clock) && crate::db::request_view(r) == crate::db::session_lookup(
                *access,
                token@,
                clock,
            );
        lemma_time_of(clock);
        assert(clock_reading(clock));
    }
}

/// Whether a row holds an account as it is looked up by a session.
pub open spec fn row_of_session(
    row: Seq<Value>,
    id: i64,
    username: Seq<char>,
    totp_enabled: bool,
) -> bool {
    &&& row.len() >= 3
    &&& row[0] matches Value::Integer(n) && n == id
    &&& row[1] matches Value::Text(t) && t@ == username
    &&& row[2] matches Value::Integer(n) && i32::MIN <= n <= i32::MAX && totp_enabled == (n != 0)
}

/// The account of a session is the one in its row; without a row there is none.
pub proof fn a_session_gives_its_account(
    reply: Result<Option<Vec<Value>>, String>,
    id: i64,
    username: Seq<char>,
    totp_enabled: bool,
    r: Option<UserAccount>,
)
    requires
        call_ensures(validated_user, (reply,), r),
    ensures
        (reply matches Ok(Some(row)) && row_of_session(row@, id, username, totp_enabled)) ==> (
        r matches Some(user) && user.id == id && user.username@ == username && user.totp_enabled
            == totp_enabled),
        reply is Err || reply->Ok_0 is None ==> r is None,
        (reply matches Ok(Some(row)) && !(number_in(row@, 0) && text_in(row@, 1) && flag_in(
            row@,
            2,
        ))) ==> r is None,
{
    if let Ok(Some(row)) = reply {
        lemma_columns(row@);
        let c = crate::sql::cells(row@);
        if row_of_session(row@, id, username, totp_enabled) {
            assert(c[0] == row@[0]@ && c[1] == row@[1]@ && c[2] == row@[2]@);
        }
    }
}

/// Ending a session names the very token.
pub proof fn the_very_session_is_ended(access: &Access, token: &str, r: Result<Request, String>)
    requires
        call_ensures(delete_session, (access, token), r),
    ensures
        *access is Granted ==> (r matches Ok(Request::DeleteSession { token: asked }) && asked@
            == token@),
        !(*access is Granted) ==> (r matches Err(e) && says_no_access(*access, e@)),
{
}

// ---------------------------------------------------------------------------------------------
// One-time passwords
// ---------------------------------------------------------------------------------------------
/// With an accepted code one-time passwords are turned on for the very account, with the very
/// secret; without one nothing is asked for.
pub proof fn codes_are_enabled_for_the_account_that_asks(
    access: &Access,
    user_id: i64,
    secret: &str,
    checked: Result<bool, String>,
    r: Result<Request, String>,
)
    requires
        call_ensures(enable_totp_checked, (access, user_id, secret, checked), r),
    ensures
        r is Ok <==> *access is Granted && checked matches Ok(true),
        r is Ok ==> (r matches Ok(Request::EnableTotp { user_id: id, secret: kept }) && id
            == user_id && kept@ == secret@),
        checked matches Err(e) ==> r is Err && r->Err_0@ == e@,
        checked matches Ok(false) ==> r is Err && r->Err_0@ == "Invalid verification code"@,
        checked matches Ok(true) && !(*access is Granted) ==> r is Err && says_no_access(
            *access,
            r->Err_0@,
        ),
{
}

/// One-time passwords are turned on for the very account, with the very secret, and only where the
/// code is accepted at a reading of the clock.
pub proof fn codes_are_enabled_by_a_right_code(
    access: &Access,
    user_id: i64,
    secret: &str,
    code: &str,
    r: Result<Request, String>,
)
    requires
        call_ensures(enable_totp, (access, user_id, secret, code), r),
    ensures
        r is Ok ==> (r matches Ok(Request::EnableTotp { user_id: id, secret: kept }) && id
            == user_id && kept@ == secret@),
        exists|clock: Option<u64>| #[trigger]
            clock_reading(clock) && forall|usable: Option<u64>, checked: Result<bool, String>|
                #![trigger call_ensures(code_clock, (clock,), usable), call_ensures(
                    verify_totp_code_at,
                    (secret, code, usable),
                    checked,
                )]
                call_ensures(code_clock, (clock,), usable) && call_requires(
                    verify_totp_code_at,
                    (secret, code, usable),
                ) && call_ensures(verify_totp_code_at, (secret, code, usable), checked) ==> (r is Ok
                    <==> *access is Granted && checked matches Ok(true)) && (checked matches Err(e)
                    ==> r is Err && r->Err_0@ == e@) && (checked matches Ok(false) ==> r is Err
                    && r->Err_0@ == "Invalid verification code"@),
{
}

/// One-time passwords are turned off for the very account.
pub proof fn codes_are_disabled_for_the_account_that_asks(
    access: &Access,
    user_id: i64,
    r: Result<Request, String>,
)
    requires
        call_ensures(disable_totp, (access, user_id), r),
    ensures
        *access is Granted ==> (r matches Ok(Request::DisableTotp { user_id: id }) && id
            == user_id),
        !(*access is Granted) ==> (r matches Err(e) && says_no_access(*access, e@)),
{
}

// ---------------------------------------------------------------------------------------------
// Subscriptions and filters
// ---------------------------------------------------------------------------------------------
/// Listing the subscriptions asks for that list and the very account.
pub proof fn subscriptions_of_the_account_are_listed(
    access: &Access,
    user_id: i64,
    r: Result<Request, String>,
)
    requires
        call_ensures(get_user_subscriptions, (access, user_id), r),
    ensures
        *access is Granted ==> (r matches Ok(Request::ListNames { list, user_id: id })
            && list is Subscriptions && id == user_id),
        !(*access is Granted) ==> (r matches Err(e) && says_no_access(*access, e@)),
{
}

/// Adding to the subscriptions asks for that list and the very account and community.
pub proof fn subscriptions_of_the_account_are_added_to(
    access: &Access,
    user_id: i64,
    subreddit: &str,
    r: Result<Request, String>,
)
    requires
        call_ensures(add_subscription, (access, user_id, subreddit), r),
    ensures
        *access is Granted ==> (r matches Ok(Request::AddName { list, user_id: id, subreddit: name })
            && list is Subscriptions && id == user_id && name@ == subreddit@),
        !(*access is Granted) ==> (r matches Err(e) && says_no_access(*access, e@)),
{
}

/// Removing from the subscriptions asks for that list and the very account and community.
pub proof fn subscriptions_of_the_account_are_removed_from(
    access: &Access,
    user_id: i64,
    subreddit: &str,
    r: Result<Request, String>,
)
    requires
        call_ensures(remove_subscription, (access, user_id, subreddit), r),
    ensures
        *access is Granted ==> (r matches Ok(Request::RemoveName { list, user_id: id, subreddit: name })
            && list is Subscriptions && id == user_id && name@ == subreddit@),
        !(*access is Granted) ==> (r matches Err(e) && says_no_access(*access, e@)),
{
}

/// Listing the filters asks for that list and the very account.
pub proof fn filters_of_the_account_are_listed(
    access: &Access,
    user_id: i64,
    r: Result<Request, String>,
)
    requires
        call_ensures(get_user_filters, (access, user_id), r),
    ensures
        *access is Granted ==> (r matches Ok(Request::ListNames { list, user_id: id })
            && list is Filters && id == user_id),
        !(*access is Granted) ==> (r matches Err(e) && says_no_access(*access, e@)),
{
}

/// Adding to the filters asks for that list and the very account and community.
pub proof fn filters_of_the_account_are_added_to(
    access: &Access,
    user_id: i64,
    subreddit: &str,
    r: Result<Request, String>,
)
    requires
        call_ensures(add_filter, (access, user_id, subreddit), r),
    ensures
        *access is Granted ==> (r matches Ok(Request::AddName { list, user_id: id, subreddit: name })
            && list is Filters && id == user_id && name@ == subreddit@),
        !(*access is Granted) ==> (r matches Err(e) && says_no_access(*access, e@)),
{
}

/// Removing from the filters asks for that list and the very account and community.
pub proof fn filters_of_the_account_are_removed_from(
    access: &Access,
    user_id: i64,
    subreddit: &str,
    r: Result<Request, String>,
)
    requires
        call_ensures(remove_filter, (access, user_id, subreddit), r),
    ensures
        *access is Granted ==> (r matches Ok(Request::RemoveName { list, user_id: id, subreddit: name })
            && list is Filters && id == user_id && name@ == subreddit@),
        !(*access is Granted) ==> (r matches Err(e) && says_no_access(*access, e@)),
{
}

/// Whether a row begins with a text.
pub open spec fn row_of_text(row: Seq<Value>, text: Seq<char>) -> bool {
    &&& row.len() >= 1
    &&& row[0] matches Value::Text(t) && t@ == text
}

proof fn lemma_all_names(rows: Seq<Vec<Value>>, names: Seq<Seq<char>>)
    requires
        rows.len() == names.len(),
        forall|i: int| 0 <= i < rows.len() ==> row_of_text((#[trigger] rows[i])@, names[i]),
    ensures
        names_in(rows_view(rows)) == names,
    decreases rows.len(),
{
    if rows.len() == 0 {
        assert(names =~= Seq::empty());
    } else {
        let all = rows_view(rows);
        let last = rows.last();
        assert(all.drop_last() =~= rows_view(rows.drop_last()));
        assert(row_of_text(rows[rows.len() - 1]@, names[rows.len() - 1]));
        assert(all.last() == crate::sql::cells(last@));
        assert(all.last()[0] == last@[0]@);
        lemma_all_names(rows.drop_last(), names.drop_last());
        assert(names =~= names.drop_last().push(names.last()));
    }
}

proof fn lemma_names_of_both(a: Seq<Seq<Cell>>, b: Seq<Seq<Cell>>)
    ensures
        names_in(a + b) == names_in(a) + names_in(b),
    decreases b.len(),
{
    if b.len() == 0 {
        assert(a + b =~= a);
        assert(names_in(a) + names_in(b) =~= names_in(a));
    } else {
        lemma_names_of_both(a, b.drop_last());
        assert((a + b).drop_last() =~= a + b.drop_last());
        assert((a + b).last() == b.last());
        assert(names_in(a + b) =~= names_in(a) + names_in(b));
    }
}

/// A row that does not begin with a text adds nothing to a listing, wherever it stands.
pub proof fn a_row_without_a_name_is_passed_over(
    rows: &Vec<Vec<Value>>,
    without: &Vec<Vec<Value>>,
    k: int,
    r: Vec<String>,
    other: Vec<String>,
)
    requires
        call_ensures(read_names, (rows,), r),
        call_ensures(read_names, (without,), other),
        0 <= k < rows@.len(),
        !text_in(rows@[k]@, 0),
        without@ == rows@.take(k) + rows@.skip(k + 1),
    ensures
        r@.len() == other@.len(),
        forall|i: int| 0 <= i < r@.len() ==> (#[trigger] r@[i])@ == other@[i]@,
{
    let all = rows_view(rows@);
    let a = rows_view(rows@.take(k));
    let b = rows_view(rows@.skip(k + 1));
    let bad = seq![crate::sql::cells(rows@[k]@)];
    lemma_columns(rows@[k]@);
    assert(all =~= a + bad + b);
    assert(rows_view(without@) =~= a + b);
    lemma_names_of_both(a + bad, b);
    lemma_names_of_both(a, bad);
    lemma_names_of_both(a, b);
    assert(bad.drop_last() =~= Seq::empty());
    assert(names_in(bad) =~= Seq::empty()) by {
        reveal_with_fuel(names_in, 2);
    }
    assert(names_in(a) + names_in(bad) =~= names_in(a));
    assert(texts(r@) == texts(other@));
    assert(texts(r@).len() == r@.len() && texts(other@).len() == other@.len());
    assert forall|i: int| 0 <= i < r@.len() implies (#[trigger] r@[i])@ == other@[i]@ by {
        assert(texts(r@)[i] == texts(other@)[i]);
    }
}

/// A listing gives the text of every row, in the order of the rows and no other, however many there
/// are.
pub proof fn every_row_is_listed(rows: &Vec<Vec<Value>>, names: Seq<Seq<char>>, r: Vec<String>)
    requires
        call_ensures(read_names, (rows,), r),
        rows@.len() == names.len(),
        forall|i: int| 0 <= i < rows@.len() ==> row_of_text((#[trigger] rows@[i])@, names[i]),
    ensures
        r@.len() == names.len(),
        forall|i: int| 0 <= i < names.len() ==> (#[trigger] r@[i])@ == names[i],
{
    lemma_all_names(rows@, names);
    assert(texts(r@).len() == names.len());
    assert forall|i: int| 0 <= i < names.len() implies (#[trigger] r@[i])@ == names[i] by {
        assert(texts(r@)[i] == names[i]);
    }
}

/// A listing that succeeds gives the text of every row, in order; one that fails says why.
pub proof fn a_listing_gives_every_row(
    reply: Result<Vec<Vec<Value>>, String>,
    names: Seq<Seq<char>>,
    r: Result<Vec<String>, String>,
)
    requires
        call_ensures(listed_names, (reply,), r),
        reply matches Ok(rows) ==> rows@.len() == names.len() && forall|i: int|
            0 <= i < rows@.len() ==> row_of_text((#[trigger] rows@[i])@, names[i]),
    ensures
        reply is Ok ==> (r matches Ok(listed) && listed@.len() == names.len() && forall|i: int|
            0 <= i < names.len() ==> (#[trigger] listed@[i])@ == names[i]),
        reply matches Err(e) ==> (r matches Err(text) && text@ == "Query error: "@ + e@),
{
    if let Ok(rows) = reply {
        lemma_all_names(rows@, names);
        let listed = r->Ok_0;
        assert(texts(listed@).len() == names.len());
        assert forall|i: int| 0 <= i < names.len() implies (#[trigger] listed@[i])@
            == names[i] by {
            assert(texts(listed@)[i] == names[i]);
        }
    }
}

} // verus!
