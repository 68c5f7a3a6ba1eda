//! What the calls give when they follow one another, with a database between them that does what
//! the statements say.

use vstd::prelude::*;

use crate::auth::{get_current_user_at, logout, Reply};
use crate::clock::clock_reading;
use crate::db::{
    add_filter, add_subscription, authenticate_user, check_credential, create_session, create_user,
    credential_verdict, disable_totp, enable_totp_checked, follows_verdict, get_user_filters,
    get_user_subscriptions, listed_names, remove_filter, remove_subscription, resume_create_user,
    row_text, rows_text, validated_user, verify_totp_and_login, Access, AuthResult, LoginStep,
    NewUserStep, UserAccount, UserAccountView, VerdictView,
};
use crate::guarantees::accounts::machine_failed;
use crate::guarantees::parts::lemma_time_of;
use crate::laws::{
    changed, code_decides, created_account_logs_in, default_preferences, found, listed,
    listing_is_exact, names_unique, password_decides, stored_session_decides,
    unknown_name_is_answered_as_wrong_password, Tables,
};
use crate::password::argon2_verdict;
use crate::request::{NameList, Op, Request};
use crate::session::{drawn, fresh_bytes, token_of_draw, Fault, TOKEN_BYTES};
use crate::sql::Value;
use crate::totp::{code_clock, verify_totp_code_at};

verus! {

// ---------------------------------------------------------------------------------------------
// Registering and logging in
// ---------------------------------------------------------------------------------------------
/// Whether a login ended in a session for an account: one is stored for its number, or the machine
/// failed.
pub open spec fn opens(step: LoginStep, id: i64, username: Seq<char>, totp_enabled: bool) -> bool {
    ||| step matches LoginStep::Fault(fault) && machine_failed(fault)
    ||| step matches LoginStep::Store(Request::InsertSession { user_id, token, .. }, pending)
        && user_id == id && pending.account.id == id && pending.account.username@ == username
        && pending.account.totp_enabled == totp_enabled && pending.token@ == token@
}

proof fn lemma_accepted_opens(account: UserAccountView, step: LoginStep)
    requires
        follows_verdict(VerdictView::Accepted(account), step@),
    ensures
        opens(step, account.id, account.username, account.totp_enabled),
{
    let (token, opened) = choose|token: Result<Seq<char>, Fault>, opened: Option<u64>|
        drawn(token) && clock_reading(opened) && step@ == #[trigger] crate::db::session_start(
            account,
            token,
            opened,
        );
    assert(clock_reading(opened));
    lemma_time_of(opened);
    let d = choose|d: Result<Seq<u8>, Fault>|
        fresh_bytes(d) && token == #[trigger] token_of_draw(d) && match d {
            Ok(bytes) => bytes.len() == TOKEN_BYTES,
            Err(fault) => fault == Fault::NoRandomBytes,
        };
}

/// Whoever registered logs in with the same name and the same password, whatever they are, and gets
/// a session.
pub proof fn a_registered_account_logs_in(
    access: &Access,
    username: &str,
    password: &str,
    created: NewUserStep,
    before: Tables,
    after: Tables,
    id: i64,
    login: LoginStep,
    reply: Result<Option<Vec<Value>>, String>,
    step: LoginStep,
)
    requires
        *access is Granted,
        call_ensures(create_user, (access, username, password), created),
        created is Run,
        changed(created->Run_0@, before, after, Ok(id)),
        call_ensures(authenticate_user, (access, username, password), login),
        login is Lookup ==> found(login->Lookup_0@, after, row_text(reply)) && reply is Ok
            && call_ensures(check_credential, (&login->Lookup_1, reply), step),
    ensures
        login is Lookup,
        opens(step, id, username@, false),
        after.users.contains_key(id),
        after.users[id].username == username@,
{
    let op = created->Run_0@;
    let row = row_text(reply)->Ok_0;
    let clock = choose|clock: Option<u64>| #[trigger]
        clock_reading(clock) && follows_verdict(
            credential_verdict((&login->Lookup_1)@, row_text(reply), clock),
            step@,
        );
    created_account_logs_in(
        username@,
        password@,
        op->InsertUser_password_hash,
        before,
        after,
        id,
        row,
        clock,
    );
    lemma_accepted_opens(
        UserAccountView { id, username: username@, totp_enabled: false },
        step,
    );
}

/// A new account is given back under the number that the database gave it, with its own row and the
/// default preferences.
pub proof fn a_registered_account_is_kept(
    access: &Access,
    username: &str,
    password: &str,
    created: NewUserStep,
    before: Tables,
    between: Tables,
    after: Tables,
    first: Result<i64, String>,
    second: Result<i64, String>,
    next: NewUserStep,
    last: NewUserStep,
)
    requires
        call_ensures(create_user, (access, username, password), created),
        created is Run,
        first is Ok,
        changed(created->Run_0@, before, between, Ok(first->Ok_0)),
        call_ensures(resume_create_user, (created->Run_1, first), next),
        next is Run ==> second is Ok && changed(next->Run_0@, between, after, Ok(second->Ok_0))
            && call_ensures(resume_create_user, (next->Run_1, second), last),
    ensures
        next is Run,
        last matches NewUserStep::Done(Ok(id)) && id == first->Ok_0,
        !before.users.contains_key(first->Ok_0),
        after.users.contains_key(first->Ok_0),
        after.users[first->Ok_0].username == username@,
        argon2_verdict(password@, after.users[first->Ok_0].password_hash) == Some(true),
        after.users[first->Ok_0].totp_secret is None,
        !after.users[first->Ok_0].totp_enabled,
        after.preferences.contains_key(first->Ok_0),
        after.preferences[first->Ok_0] == default_preferences(),
{
}

/// A login with a password of a known account: a password that Argon2 does not accept is refused; one
/// that it accepts opens a session, or is asked for a code where the account needs one.
pub proof fn a_password_login_is_decided_by_the_account(
    access: &Access,
    username: &str,
    password: &str,
    t: Tables,
    id: i64,
    login: LoginStep,
    reply: Result<Option<Vec<Value>>, String>,
    step: LoginStep,
)
    requires
        *access is Granted,
        names_unique(t),
        t.users.contains_key(id),
        t.users[id].username == username@,
        call_ensures(authenticate_user, (access, username, password), login),
        login is Lookup ==> found(login->Lookup_0@, t, row_text(reply)) && reply is Ok
            && call_ensures(check_credential, (&login->Lookup_1, reply), step),
    ensures
        login is Lookup,
        argon2_verdict(password@, t.users[id].password_hash) != Some(true) ==> (
        step matches LoginStep::Done(AuthResult::InvalidCredentials)),
        argon2_verdict(password@, t.users[id].password_hash) == Some(true)
            && !crate::password::too_many_lanes(t.users[id].password_hash)
            && t.users[id].totp_enabled ==> (step matches LoginStep::Done(
            AuthResult::RequiresTwoFactor(n),
        ) && n == id),
        argon2_verdict(password@, t.users[id].password_hash) == Some(true)
            && !crate::password::too_many_lanes(t.users[id].password_hash)
            && !t.users[id].totp_enabled ==> opens(step, id, username@, false),
{
    let row = row_text(reply)->Ok_0;
    let clock = choose|clock: Option<u64>| #[trigger]
        clock_reading(clock) && follows_verdict(
            credential_verdict((&login->Lookup_1)@, row_text(reply), clock),
            step@,
        );
    password_decides(id, password@, t, row, clock);
    if crate::password::password_matches(password@, t.users[id].password_hash)
        && !t.users[id].totp_enabled {
        lemma_accepted_opens(
            UserAccountView { id, username: username@, totp_enabled: false },
            step,
        );
    }
}

/// A login with a name that no account has is refused.
pub proof fn an_unknown_name_is_refused(
    access: &Access,
    username: &str,
    password: &str,
    t: Tables,
    login: LoginStep,
    reply: Result<Option<Vec<Value>>, String>,
    step: LoginStep,
)
    requires
        *access is Granted,
        forall|id: i64| #[trigger]
            t.users.contains_key(id) ==> t.users[id].username != username@,
        call_ensures(authenticate_user, (access, username, password), login),
        login is Lookup ==> found(login->Lookup_0@, t, row_text(reply)) && reply is Ok
            && call_ensures(check_credential, (&login->Lookup_1, reply), step),
    ensures
        login is Lookup,
        step matches LoginStep::Done(AuthResult::InvalidCredentials),
{
    let row = row_text(reply)->Ok_0;
    let clock = choose|clock: Option<u64>| #[trigger]
        clock_reading(clock) && follows_verdict(
            credential_verdict((&login->Lookup_1)@, row_text(reply), clock),
            step@,
        );
    unknown_name_is_answered_as_wrong_password(username@, password@, t, row, clock);
}

/// A login with a code of a known account with a secret: it opens a session exactly where the secret
/// accepts the code at a reading of the clock.
pub proof fn a_code_login_is_decided_by_the_secret(
    access: &Access,
    id: i64,
    code: &str,
    t: Tables,
    login: LoginStep,
    reply: Result<Option<Vec<Value>>, String>,
    step: LoginStep,
    secret: &str,
)
    requires
        *access is Granted,
        t.users.contains_key(id),
        t.users[id].totp_secret == Some(secret@),
        call_ensures(verify_totp_and_login, (access, id, code), login),
        login is Lookup ==> found(login->Lookup_0@, t, row_text(reply)) && reply is Ok
            && call_ensures(check_credential, (&login->Lookup_1, reply), step),
    ensures
        login is Lookup,
        exists|clock: Option<u64>| #[trigger]
            clock_reading(clock) && forall|usable: Option<u64>, checked: Result<bool, String>|
                #![trigger call_ensures(code_clock, (clock,), usable), call_ensures(
                    verify_totp_code_at,
                    (secret, code, usable),
                    checked,
                )]
                call_ensures(code_clock, (clock,), usable) && call_requires(
                    verify_totp_code_at,
                    (secret, code, usable),
                ) && call_ensures(verify_totp_code_at, (secret, code, usable), checked) ==> (
                checked matches Ok(true) ==> opens(step, id, t.users[id].username, true)) && (
                checked matches Ok(false) ==> (step matches LoginStep::Done(
                    AuthResult::InvalidCredentials,
                ))) && (checked matches Err(e) ==> (step matches LoginStep::Done(
                    AuthResult::DatabaseError(text),
                ) && text@ == e@)),
{
    let row = row_text(reply)->Ok_0;
    let clock = choose|clock: Option<u64>| #[trigger]
        clock_reading(clock) && follows_verdict(
            credential_verdict((&login->Lookup_1)@, row_text(reply), clock),
            step@,
        );
    assert(clock_reading(clock));
    code_decides(id, code@, t, row, clock);
    assert forall|usable: Option<u64>, checked: Result<bool, String>|
        #![trigger call_ensures(code_clock, (clock,), usable), call_ensures(
            verify_totp_code_at,
            (secret, code, usable),
            checked,
        )]
        call_ensures(code_clock, (clock,), usable) && call_requires(
            verify_totp_code_at,
            (secret, code, usable),
        ) && call_ensures(verify_totp_code_at, (secret, code, usable), checked) implies (
    checked matches Ok(true) ==> opens(step, id, t.users[id].username, true)) && (
    checked matches Ok(false) ==> (step matches LoginStep::Done(AuthResult::InvalidCredentials)))
        && (checked matches Err(e) ==> (step matches LoginStep::Done(
        AuthResult::DatabaseError(text),
    ) && text@ == e@)) by {
        if checked == Ok::<bool, String>(true) {
            lemma_accepted_opens(
                UserAccountView { id, username: t.users[id].username, totp_enabled: true },
                step,
            );
        }
    }
}

// ---------------------------------------------------------------------------------------------
// Sessions
// ---------------------------------------------------------------------------------------------
/// The token of a session that was stored, sent back as the cookie, is recognized exactly until
/// seven days have passed since the session was opened, and gives its account.
pub proof fn a_cookie_is_recognized_for_seven_days(
    access: &Access,
    account: UserAccount,
    token: String,
    opened: u64,
    stored: LoginStep,
    before: Tables,
    after: Tables,
    row: i64,
    cookie: &str,
    seen: u64,
    lookup: Option<Request>,
    reply: Result<Option<Vec<Value>>, String>,
    r: Option<UserAccount>,
)
    requires
        *access is Granted,
        opened <= i64::MAX - 604800,
        seen <= i64::MAX,
        call_ensures(
            create_session,
            (account, Ok::<String, Fault>(token), Some(opened)),
            stored,
        ),
        stored is Store ==> changed(stored->Store_0@, before, after, Ok(row)),
        after.users.contains_key(account.id),
        cookie@ == token@,
        call_ensures(get_current_user_at, (access, Some(cookie), Some(seen)), lookup),
        lookup is Some ==> found(lookup->0@, after, row_text(reply)),
        reply is Ok,
        call_ensures(validated_user, (reply,), r),
    ensures
        stored is Store,
        lookup is Some,
        seen < opened + 604800 ==> (r matches Some(user) && user.id == account.id && user.username@
            == after.users[account.id].username && user.totp_enabled
            == after.users[account.id].totp_enabled),
        seen >= opened + 604800 ==> r is None,
{
    stored_session_decides(token@, seen, after, row_text(reply));
}

/// After logging out with a cookie, that cookie is not recognized.
pub proof fn a_cookie_is_not_recognized_after_logout(
    access: &Access,
    cookie: &str,
    ended: (Option<Request>, Reply),
    before: Tables,
    after: Tables,
    row: i64,
    clock: Option<u64>,
    lookup: Option<Request>,
    reply: Result<Option<Vec<Value>>, String>,
    r: Option<UserAccount>,
)
    requires
        *access is Granted,
        call_ensures(logout, (access, Some(cookie)), ended),
        ended.0 is Some ==> changed(ended.0->0@, before, after, Ok(row)),
        call_ensures(get_current_user_at, (access, Some(cookie), clock), lookup),
        lookup is Some ==> found(lookup->0@, after, row_text(reply)),
        call_ensures(validated_user, (reply,), r),
    ensures
        ended.0 is Some,
        lookup is Some,
        r is None,
        forall|token: Seq<char>|
            token != cookie@ ==> after.sessions.contains_key(token)
                == #[trigger] before.sessions.contains_key(token) && (
            before.sessions.contains_key(token) ==> after.sessions[token]
                == before.sessions[token]),
{
}

// ---------------------------------------------------------------------------------------------
// One-time passwords
// ---------------------------------------------------------------------------------------------
/// After an account has turned one-time passwords on, it needs a code and has the very secret it
/// gave; every other account is as it was.
pub proof fn the_account_that_asks_needs_a_code(
    access: &Access,
    user_id: i64,
    secret: &str,
    checked: Result<bool, String>,
    asked: Result<Request, String>,
    before: Tables,
    after: Tables,
    row: i64,
)
    requires
        call_ensures(enable_totp_checked, (access, user_id, secret, checked), asked),
        asked is Ok,
        before.users.contains_key(user_id),
        changed(asked->Ok_0@, before, after, Ok(row)),
    ensures
        checked matches Ok(true),
        after.users.contains_key(user_id),
        after.users[user_id].totp_enabled,
        after.users[user_id].totp_secret == Some(secret@),
        after.users[user_id].username == before.users[user_id].username,
        after.users[user_id].password_hash == before.users[user_id].password_hash,
        forall|other: i64|
            other != user_id ==> after.users.contains_key(other)
                == #[trigger] before.users.contains_key(other) && (before.users.contains_key(other)
                ==> after.users[other] == before.users[other]),
{
}

/// After an account has turned one-time passwords off, it needs no code and has no secret; every
/// other account is as it was.
pub proof fn the_account_that_asks_needs_no_code(
    access: &Access,
    user_id: i64,
    asked: Result<Request, String>,
    before: Tables,
    after: Tables,
    row: i64,
)
    requires
        call_ensures(disable_totp, (access, user_id), asked),
        asked is Ok,
        before.users.contains_key(user_id),
        changed(asked->Ok_0@, before, after, Ok(row)),
    ensures
        after.users.contains_key(user_id),
        !after.users[user_id].totp_enabled,
        after.users[user_id].totp_secret is None,
        after.users[user_id].username == before.users[user_id].username,
        after.users[user_id].password_hash == before.users[user_id].password_hash,
        forall|other: i64|
            other != user_id ==> after.users.contains_key(other)
                == #[trigger] before.users.contains_key(other) && (before.users.contains_key(other)
                ==> after.users[other] == before.users[other]),
{
}

// ---------------------------------------------------------------------------------------------
// Subscriptions and filters
// ---------------------------------------------------------------------------------------------
/// Whether names are exactly those that stand beside an account in pairs, each once.
pub open spec fn exactly(names: Seq<String>, pairs: Set<(i64, Seq<char>)>, user_id: i64) -> bool {
    &&& forall|i: int, j: int|
        0 <= i < j < names.len() ==> (#[trigger] names[i])@ != (#[trigger] names[j])@
    &&& forall|i: int| 0 <= i < names.len() ==> pairs.contains((user_id, (#[trigger] names[i])@))
    &&& forall|n: Seq<char>| #[trigger]
        pairs.contains((user_id, n)) ==> exists|i: int| 0 <= i < names.len() && names[i]@ == n
}

proof fn lemma_exactly(
    list: NameList,
    user_id: i64,
    t: Tables,
    reply: Result<Vec<Vec<Value>>, String>,
    r: Result<Vec<String>, String>,
)
    requires
        reply is Ok,
        listed(list, user_id, t, rows_text(reply)),
        call_ensures(listed_names, (reply,), r),
    ensures
        r is Ok,
        exactly(r->Ok_0@, crate::laws::pairs_in(t, list), user_id),
{
    let rows = rows_text(reply)->Ok_0;
    listing_is_exact(list, user_id, t, rows);
    let names = r->Ok_0@;
    let seen = crate::db::texts(names);
    let pairs = crate::laws::pairs_in(t, list);
    assert(crate::laws::names_of(t, list, user_id, seen));
    assert forall|i: int, j: int| 0 <= i < j < names.len() implies (#[trigger] names[i])@ != (
    #[trigger] names[j])@ by {
        assert(seen[i] != seen[j]);
    }
    assert forall|i: int| 0 <= i < names.len() implies pairs.contains(
        (user_id, (#[trigger] names[i])@),
    ) by {
        assert(seen.contains(seen[i]));
    }
    assert forall|n: Seq<char>| #[trigger] pairs.contains((user_id, n)) implies exists|i: int|
        0 <= i < names.len() && names[i]@ == n by {
        assert(seen.contains(n));
        let i = choose|i: int| 0 <= i < seen.len() && seen[i] == n;
        assert(names[i]@ == n);
    }
}

/// Listing the subscriptions gives exactly those of the account, each once.
pub proof fn all_subscriptions_are_shown(
    access: &Access,
    user_id: i64,
    asked: Result<Request, String>,
    t: Tables,
    reply: Result<Vec<Vec<Value>>, String>,
    r: Result<Vec<String>, String>,
)
    requires
        *access is Granted,
        call_ensures(get_user_subscriptions, (access, user_id), asked),
        asked matches Ok(Request::ListNames { list, user_id: id }) ==> listed(
            list,
            id,
            t,
            rows_text(reply),
        ),
        reply is Ok,
        call_ensures(listed_names, (reply,), r),
    ensures
        asked is Ok,
        r is Ok,
        exactly(r->Ok_0@, t.subscriptions, user_id),
{
    assert(asked->Ok_0@ == (Op::ListNames { list: NameList::Subscriptions, user_id }));
    lemma_exactly(NameList::Subscriptions, user_id, t, reply, r);
}

/// Adding a subscription adds that pair and changes nothing else.
pub proof fn one_subscription_is_added(
    access: &Access,
    user_id: i64,
    subreddit: &str,
    asked: Result<Request, String>,
    before: Tables,
    after: Tables,
    row: i64,
)
    requires
        *access is Granted,
        call_ensures(add_subscription, (access, user_id, subreddit), asked),
        asked is Ok ==> changed(asked->Ok_0@, before, after, Ok(row)),
    ensures
        asked is Ok,
        after == (Tables { subscriptions: before.subscriptions.insert((user_id, subreddit@)), ..before }),
{
}

/// Removing a subscription removes that pair and changes nothing else.
pub proof fn one_subscription_is_removed(
    access: &Access,
    user_id: i64,
    subreddit: &str,
    asked: Result<Request, String>,
    before: Tables,
    after: Tables,
    row: i64,
)
    requires
        *access is Granted,
        call_ensures(remove_subscription, (access, user_id, subreddit), asked),
        asked is Ok ==> changed(asked->Ok_0@, before, after, Ok(row)),
    ensures
        asked is Ok,
        after == (Tables { subscriptions: before.subscriptions.remove((user_id, subreddit@)), ..before }),
{
}

/// Listing the filters gives exactly those of the account, each once.
pub proof fn all_filters_are_shown(
    access: &Access,
    user_id: i64,
    asked: Result<Request, String>,
    t: Tables,
    reply: Result<Vec<Vec<Value>>, String>,
    r: Result<Vec<String>, String>,
)
    requires
        *access is Granted,
        call_ensures(get_user_filters, (access, user_id), asked),
        asked matches Ok(Request::ListNames { list, user_id: id }) ==> listed(
            list,
            id,
            t,
            rows_text(reply),
        ),
        reply is Ok,
        call_ensures(listed_names, (reply,), r),
    ensures
        asked is Ok,
        r is Ok,
        exactly(r->Ok_0@, t.filters, user_id),
{
    assert(asked->Ok_0@ == (Op::ListNames { list: NameList::Filters, user_id }));
    lemma_exactly(NameList::Filters, user_id, t, reply, r);
}

/// Adding a filter adds that pair and changes nothing else.
pub proof fn one_filter_is_added(
    access: &Access,
    user_id: i64,
    subreddit: &str,
    asked: Result<Request, String>,
    before: Tables,
    after: Tables,
    row: i64,
)
    requires
        *access is Granted,
        call_ensures(add_filter, (access, user_id, subreddit), asked),
        asked is Ok ==> changed(asked->Ok_0@, before, after, Ok(row)),
    ensures
        asked is Ok,
        after == (Tables { filters: before.filters.insert((user_id, subreddit@)), ..before }),
{
}

/// Removing a filter removes that pair and changes nothing else.
pub proof fn one_filter_is_removed(
    access: &Access,
    user_id: i64,
    subreddit: &str,
    asked: Result<Request, String>,
    before: Tables,
    after: Tables,
    row: i64,
)
    requires
        *access is Granted,
        call_ensures(remove_filter, (access, user_id, subreddit), asked),
        asked is Ok ==> changed(asked->Ok_0@, before, after, Ok(row)),
    ensures
        asked is Ok,
        after == (Tables { filters: before.filters.remove((user_id, subreddit@)), ..before }),
{
}

} // verus!
