//! What the pages answer and what their forms ask for.

use vstd::prelude::*;

use crate::auth::{
    account_page, answer_code, answer_failed_setup, answer_password, answer_registration,
    answer_totp_setup, get_current_user, get_current_user_at, is_authenticated, login_page,
    login_submit, logout, needs_session, read_login_form, read_register_form, read_totp_form,
    register_page, register_submit, show_enrollment, totp_disable, totp_setup_page,
    totp_setup_submit, turn_away, LoginSubmit, Prefs, RegisterSubmit, Reply, TotpSetupSubmit,
};
use crate::clock::clock_reading;
use crate::db::{Access, AuthResult, UserAccount};
use crate::encoding::{base32, base32_bytes};
use crate::form::{form_pairs, pairs_view, written_number};
use crate::guarantees::parts::{
    gives, lemma_enrollment, lemma_gives, lemma_time_of, pairs_of, says_colon, setup_link, time_of,
};
use crate::request::Request;
use crate::totp::fresh_secret;

verus! {

/// Whether an answer is a redirect to a place.
pub open spec fn leads_to(reply: Reply, place: Seq<char>) -> bool {
    reply matches Reply::Redirect { location } && location@ == place
}

/// Whether an answer is the login page with these contents.
pub open spec fn shows_login(
    reply: Reply,
    prefs: Prefs,
    message: Seq<char>,
    require_2fa: bool,
    user_id: i64,
) -> bool {
    reply matches Reply::Login(t) && t.prefs == prefs && t.error_msg@ == message && t.require_2fa
        == require_2fa && t.user_id == user_id
}

/// Whether an answer is the registration page with these contents.
pub open spec fn shows_registration(
    reply: Reply,
    prefs: Prefs,
    error: Seq<char>,
    success: Seq<char>,
) -> bool {
    reply matches Reply::Register(t) && t.prefs == prefs && t.error_msg@ == error && t.success_msg@
        == success
}

/// Whether an answer opens a session with a token and leads to the account page.
pub open spec fn hands_out(reply: Reply, token: Seq<char>) -> bool {
    reply matches Reply::OpenSession { location, token: given } && location@ == "/account"@
        && given@ == token
}

// ---------------------------------------------------------------------------------------------
// Who makes a request
// ---------------------------------------------------------------------------------------------
/// The account that makes a request is looked up by the very text of its cookie, whatever its
/// length, and the clock's time; without a cookie or a database it is not looked up.
pub proof fn the_cookie_is_looked_up(
    access: &Access,
    cookie: Option<&str>,
    clock: Option<u64>,
    r: Option<Request>,
)
    requires
        call_ensures(get_current_user_at, (access, cookie, clock), r),
    ensures
        cookie is None || !(*access is Granted) ==> r is None,
        cookie is Some && *access is Granted ==> (r matches Some(
            Request::FindSession { token, now },
        ) && token@ == cookie->0@ && now == time_of(clock)),
{
    lemma_time_of(clock);
}

/// The account that makes a request is looked up at a reading of the clock.
pub proof fn the_cookie_is_looked_up_now(
    access: &Access,
    cookie: Option<&str>,
    r: Option<Request>,
)
    requires
        call_ensures(get_current_user, (access, cookie), r),
    ensures
        cookie is None || !(*access is Granted) ==> r is None,
        cookie is Some && *access is Granted ==> (r matches Some(
            Request::FindSession { token, now },
        ) && token@ == cookie->0@ && exists|clock: Option<u64>| #[trigger]
            clock_reading(clock) && now == time_of(clock)),
{
    if cookie is Some && *access is Granted {
        let clock = choose|clock: Option<u64>| #[trigger]
            clock_reading(clock) && crate::db::request_view(r) == crate::auth::current_user_lookup(
                *access,
                crate::auth::cookie_text(cookie),
                clock,
            );
        lemma_time_of(clock);
        assert(clock_reading(clock));
    }
}

/// Who makes a request matters exactly where there are accounts and a login is required.
pub proof fn a_session_is_needed_where_it_counts(db_enabled: bool, auth_required: bool, r: bool)
    requires
        call_ensures(needs_session, (db_enabled, auth_required), r),
    ensures
        r <==> db_enabled && auth_required,
{
}

/// A request is kept out exactly where it matters who makes it and nobody does.
pub proof fn only_strangers_are_kept_out(
    db_enabled: bool,
    auth_required: bool,
    user: Option<&UserAccount>,
    r: bool,
)
    requires
        call_ensures(is_authenticated, (db_enabled, auth_required, user), r),
    ensures
        !r <==> db_enabled && auth_required && user is None,
{
}

/// Without accounts a request leads home; a stranger's leads to the login; an account's is let in.
pub proof fn strangers_are_turned_away(
    db_enabled: bool,
    user: Option<&UserAccount>,
    r: Option<Reply>,
)
    requires
        call_ensures(turn_away, (db_enabled, user), r),
    ensures
        !db_enabled ==> r is Some && leads_to(r->0, "/"@),
        db_enabled && user is None ==> r is Some && leads_to(r->0, "/login"@),
        db_enabled && user is Some ==> r is None,
{
}

// ---------------------------------------------------------------------------------------------
// Logging in and out
// ---------------------------------------------------------------------------------------------
/// The login page is shown to strangers only.
pub proof fn strangers_see_the_login_page(db_enabled: bool, user: Option<&UserAccount>, r: Reply)
    requires
        call_ensures(login_page, (db_enabled, user), r),
    ensures
        !db_enabled ==> leads_to(r, "/"@),
        db_enabled && user is Some ==> leads_to(r, "/account"@),
        db_enabled && user is None ==> shows_login(r, Prefs::OfRequest, Seq::empty(), false, 0),
{
}

/// Whether a login form with these fields asks for what it should: for a check of its code, where it
/// has one and the number of an account; for a check of its name and password otherwise.
pub open spec fn login_asks(
    r: LoginSubmit,
    username: Seq<char>,
    password: Seq<char>,
    code: Seq<char>,
    number: Seq<char>,
) -> bool {
    if code.len() > 0 && written_number(number) is Some && written_number(number)->0 > 0 {
        r matches LoginSubmit::Code { user_id, code: given } && user_id == written_number(number)->0
            && given@ == code
    } else {
        r matches LoginSubmit::Password { username: name, password: given } && name@ == username
            && given@ == password
    }
}

/// A login form asks for what its fields say.
pub proof fn a_login_form_asks_for_its_fields(
    pairs: &Vec<(String, String)>,
    r: LoginSubmit,
    username: Seq<char>,
    password: Seq<char>,
    code: Seq<char>,
    number: Seq<char>,
)
    requires
        call_ensures(read_login_form, (true, pairs), r),
        gives(pairs_of(pairs@), "username"@, ""@, username),
        gives(pairs_of(pairs@), "password"@, ""@, password),
        gives(pairs_of(pairs@), "totp_code"@, ""@, code),
        gives(pairs_of(pairs@), "user_id"@, "0"@, number),
    ensures
        login_asks(r, username, password, code, number),
{
    let p = pairs_of(pairs@);
    assert(p =~= pairs_view(pairs@));
    lemma_gives(p, "username"@, ""@);
    lemma_gives(p, "password"@, ""@);
    lemma_gives(p, "totp_code"@, ""@);
    lemma_gives(p, "user_id"@, "0"@);
}

/// A submitted login form asks for what its fields say.
pub proof fn a_submitted_login_asks_for_its_fields(
    body: &[u8],
    r: LoginSubmit,
    username: Seq<char>,
    password: Seq<char>,
    code: Seq<char>,
    number: Seq<char>,
)
    requires
        call_ensures(login_submit, (true, body), r),
        gives(form_pairs(body@), "username"@, ""@, username),
        gives(form_pairs(body@), "password"@, ""@, password),
        gives(form_pairs(body@), "totp_code"@, ""@, code),
        gives(form_pairs(body@), "user_id"@, "0"@, number),
    ensures
        login_asks(r, username, password, code, number),
{
    let p = form_pairs(body@);
    lemma_gives(p, "username"@, ""@);
    lemma_gives(p, "password"@, ""@);
    lemma_gives(p, "totp_code"@, ""@);
    lemma_gives(p, "user_id"@, "0"@);
}

/// Without accounts every form leads home.
pub proof fn without_accounts_forms_lead_home(
    user: Option<&UserAccount>,
    body: &[u8],
    login: LoginSubmit,
    registration: RegisterSubmit,
    setup: TotpSetupSubmit,
)
    requires
        call_ensures(login_submit, (false, body), login),
        call_ensures(register_submit, (false, body), registration),
        call_ensures(totp_setup_submit, (false, user, body), setup),
    ensures
        login matches LoginSubmit::Answer(reply) && leads_to(reply, "/"@),
        registration matches RegisterSubmit::Answer(reply) && leads_to(reply, "/"@),
        setup matches TotpSetupSubmit::Answer(reply) && leads_to(reply, "/"@),
{
}

/// Without accounts the fields of a form lead home too.
pub proof fn without_accounts_fields_lead_home(
    user: Option<&UserAccount>,
    pairs: &Vec<(String, String)>,
    login: LoginSubmit,
    registration: RegisterSubmit,
    setup: TotpSetupSubmit,
)
    requires
        call_ensures(read_login_form, (false, pairs), login),
        call_ensures(read_register_form, (false, pairs), registration),
        call_ensures(read_totp_form, (false, user, pairs), setup),
    ensures
        login matches LoginSubmit::Answer(reply) && leads_to(reply, "/"@),
        registration matches RegisterSubmit::Answer(reply) && leads_to(reply, "/"@),
        setup matches TotpSetupSubmit::Answer(reply) && leads_to(reply, "/"@),
{
}

/// A login with a code hands out the session it opened; every other outcome asks for the code again,
/// for the same account.
pub proof fn a_code_login_is_answered(user_id: i64, result: AuthResult, r: Reply)
    requires
        call_ensures(answer_code, (user_id, result), r),
    ensures
        result matches AuthResult::Success(_, token) ==> hands_out(r, token@),
        !(result is Success) ==> shows_login(
            r,
            Prefs::Default,
            "Invalid 2FA code"@,
            true,
            user_id,
        ),
{
}

/// A login with a password hands out the session it opened, asks for the code of the account that
/// needs one, or says why it failed.
pub proof fn a_password_login_is_answered(result: AuthResult, r: Reply)
    requires
        call_ensures(answer_password, (result,), r),
    ensures
        result matches AuthResult::Success(_, token) ==> hands_out(r, token@),
        result matches AuthResult::RequiresTwoFactor(id) ==> shows_login(
            r,
            Prefs::Default,
            Seq::empty(),
            true,
            id,
        ),
        result is InvalidCredentials ==> shows_login(
            r,
            Prefs::Default,
            "Invalid username or password"@,
            false,
            0,
        ),
        result matches AuthResult::DatabaseError(e) ==> shows_login(
            r,
            Prefs::Default,
            "Database error: "@ + e@,
            false,
            0,
        ),
        result is AccountLocked ==> shows_login(r, Prefs::Default, "Login failed"@, false, 0),
{
}

/// Logging out ends the session whose token the cookie carries, where it can be asked for, and
/// always removes the cookie and leads home.
pub proof fn logging_out_ends_the_session(
    access: &Access,
    cookie: Option<&str>,
    r: (Option<Request>, Reply),
)
    requires
        call_ensures(logout, (access, cookie), r),
    ensures
        cookie is Some && *access is Granted ==> (r.0 matches Some(
            Request::DeleteSession { token },
        ) && token@ == cookie->0@),
        cookie is None || !(*access is Granted) ==> r.0 is None,
        r.1 matches Reply::CloseSession { location } && location@ == "/"@,
{
}

// ---------------------------------------------------------------------------------------------
// Registering
// ---------------------------------------------------------------------------------------------
/// The registration page is shown, empty.
pub proof fn the_registration_page_is_shown(db_enabled: bool, r: Reply)
    requires
        call_ensures(register_page, (db_enabled,), r),
    ensures
        !db_enabled ==> leads_to(r, "/"@),
        db_enabled ==> shows_registration(r, Prefs::OfRequest, Seq::empty(), Seq::empty()),
{
}

/// Whether a registration form with these fields asks for what it should: for an account with its
/// name and password, where the password was repeated as the same text, and for none otherwise.
pub open spec fn registration_asks(
    r: RegisterSubmit,
    username: Seq<char>,
    password: Seq<char>,
    confirmed: Seq<char>,
) -> bool {
    if password == confirmed {
        r matches RegisterSubmit::Create { username: name, password: given } && name@ == username
            && given@ == password
    } else {
        r matches RegisterSubmit::Answer(reply) && shows_registration(
            reply,
            Prefs::Default,
            "Passwords do not match"@,
            Seq::empty(),
        )
    }
}

/// A registration form asks for an account exactly where its two passwords are the same text.
pub proof fn a_registration_needs_equal_passwords(
    pairs: &Vec<(String, String)>,
    r: RegisterSubmit,
    username: Seq<char>,
    password: Seq<char>,
    confirmed: Seq<char>,
)
    requires
        call_ensures(read_register_form, (true, pairs), r),
        gives(pairs_of(pairs@), "username"@, ""@, username),
        gives(pairs_of(pairs@), "password"@, ""@, password),
        gives(pairs_of(pairs@), "confirm_password"@, ""@, confirmed),
    ensures
        registration_asks(r, username, password, confirmed),
{
    let p = pairs_of(pairs@);
    assert(p =~= pairs_view(pairs@));
    lemma_gives(p, "username"@, ""@);
    lemma_gives(p, "password"@, ""@);
    lemma_gives(p, "confirm_password"@, ""@);
}

/// A submitted registration asks for an account exactly where its two passwords are the same text.
pub proof fn a_submitted_registration_needs_equal_passwords(
    body: &[u8],
    r: RegisterSubmit,
    username: Seq<char>,
    password: Seq<char>,
    confirmed: Seq<char>,
)
    requires
        call_ensures(register_submit, (true, body), r),
        gives(form_pairs(body@), "username"@, ""@, username),
        gives(form_pairs(body@), "password"@, ""@, password),
        gives(form_pairs(body@), "confirm_password"@, ""@, confirmed),
    ensures
        registration_asks(r, username, password, confirmed),
{
    let p = form_pairs(body@);
    lemma_gives(p, "username"@, ""@);
    lemma_gives(p, "password"@, ""@);
    lemma_gives(p, "confirm_password"@, ""@);
}

/// A registration is answered with success exactly where it succeeded, and else with the reason.
pub proof fn a_registration_is_answered(result: Result<i64, String>, r: Reply)
    requires
        call_ensures(answer_registration, (result,), r),
    ensures
        result is Ok ==> shows_registration(
            r,
            Prefs::Default,
            Seq::empty(),
            "Account created successfully! You can now log in."@,
        ),
        result matches Err(e) ==> shows_registration(r, Prefs::Default, e@, Seq::empty()),
{
}

// ---------------------------------------------------------------------------------------------
// The account
// ---------------------------------------------------------------------------------------------
/// Whether these are the names that a list was read as, or none where it could not be read.
pub open spec fn shows_names(names: Seq<String>, read: Result<Vec<String>, String>) -> bool {
    match read {
        Ok(listed) => names.len() == listed@.len() && forall|i: int|
            0 <= i < names.len() ==> (#[trigger] names[i])@ == listed@[i]@,
        Err(_) => names.len() == 0,
    }
}

/// The account page shows the account that asks, with all names that were read of its lists.
pub proof fn the_account_page_shows_its_account(
    db_enabled: bool,
    user: Option<UserAccount>,
    subscriptions: Result<Vec<String>, String>,
    filters: Result<Vec<String>, String>,
    r: Reply,
)
    requires
        call_ensures(account_page, (db_enabled, user, subscriptions, filters), r),
    ensures
        !db_enabled ==> leads_to(r, "/"@),
        db_enabled && user is None ==> leads_to(r, "/login"@),
        db_enabled && user is Some ==> (r matches Reply::Account(t) && t.prefs == Prefs::OfRequest
            && t.user.id == user->0.id && t.user.username@ == user->0.username@
            && t.user.totp_enabled == user->0.totp_enabled && shows_names(
            t.subscriptions@,
            subscriptions,
        ) && shows_names(t.filters@, filters) && t.message@.len() == 0),
{
    if db_enabled && user is Some {
        let t = r->Account_0;
        lemma_shown_names(t.subscriptions@, subscriptions);
        lemma_shown_names(t.filters@, filters);
    }
}

proof fn lemma_shown_names(names: Seq<String>, read: Result<Vec<String>, String>)
    requires
        crate::db::texts(names) == crate::auth::names_or_none(crate::db::names_text(read)),
    ensures
        shows_names(names, read),
{
    let seen = crate::db::texts(names);
    assert(seen.len() == names.len());
    if let Ok(listed) = read {
        let other = crate::db::texts(listed@);
        assert(other.len() == listed@.len());
        assert forall|i: int| 0 <= i < names.len() implies (#[trigger] names[i])@
            == listed@[i]@ by {
            assert(seen[i] == other[i]);
        }
    }
}

/// Whether an answer is the set-up page with these contents.
pub open spec fn shows_setup(
    reply: Reply,
    prefs: Prefs,
    secret: Seq<char>,
    link: Seq<char>,
    message: Seq<char>,
) -> bool {
    reply matches Reply::TotpSetup(t) && t.prefs == prefs && t.secret@ == secret && t.otpauth_url@
        == link && t.error_msg@ == message
}

/// An enrollment is shown as it was made; without one the reason is passed on.
pub proof fn an_enrollment_is_shown(
    enrolled: Result<(String, String), String>,
    r: Result<Reply, String>,
)
    requires
        call_ensures(show_enrollment, (enrolled,), r),
    ensures
        enrolled matches Ok((secret, link)) ==> r is Ok && shows_setup(
            r->Ok_0,
            Prefs::OfRequest,
            secret@,
            link@,
            Seq::empty(),
        ),
        enrolled matches Err(e) ==> r is Err && r->Err_0@ == e@,
{
}

/// The set-up page shows a fresh secret and its link to an account that has none turned on.
pub proof fn the_setup_page_shows_a_fresh_secret(
    db_enabled: bool,
    user: Option<&UserAccount>,
    r: Result<Reply, String>,
)
    requires
        call_ensures(totp_setup_page, (db_enabled, user), r),
    ensures
        !db_enabled ==> r is Ok && leads_to(r->Ok_0, "/"@),
        db_enabled && user is None ==> r is Ok && leads_to(r->Ok_0, "/login"@),
        db_enabled && user is Some && user->0.totp_enabled ==> r is Ok && leads_to(
            r->Ok_0,
            "/account"@,
        ),
        db_enabled && user is Some && !user->0.totp_enabled && !user->0.username@.contains(':') ==> (
        r matches Ok(Reply::TotpSetup(t)) && t.prefs == Prefs::OfRequest && t.error_msg@.len() == 0
            && t.secret@.len() == 32 && base32_bytes(t.secret@) is Some
            && base32_bytes(t.secret@)->0.len() == 20 && fresh_secret(base32_bytes(t.secret@)->0)
            && t.otpauth_url@ == setup_link(user->0.username@, t.secret@)),
        db_enabled && user is Some && !user->0.totp_enabled && user->0.username@.contains(':') ==> r
            is Err && r->Err_0@ == says_colon(user->0.username@),
{
    if db_enabled && user is Some && !user->0.totp_enabled {
        let name = user->0.username@;
        let secret = choose|secret: Seq<u8>|
            fresh_secret(secret) && secret.len() == 20 && crate::auth::reply_text(r)
                == crate::auth::enrollment_page(#[trigger] crate::totp::enrollment(secret, name));
        lemma_enrollment(secret, name);
    }
}

/// A set-up form asks, for the account that submits it, for the secret and the code it holds.
pub proof fn a_setup_form_asks_for_its_fields(
    user: Option<&UserAccount>,
    pairs: &Vec<(String, String)>,
    r: TotpSetupSubmit,
    secret: Seq<char>,
    code: Seq<char>,
)
    requires
        call_ensures(read_totp_form, (true, user, pairs), r),
        gives(pairs_of(pairs@), "secret"@, ""@, secret),
        gives(pairs_of(pairs@), "code"@, ""@, code),
    ensures
        user is None ==> (r matches TotpSetupSubmit::Answer(reply) && leads_to(reply, "/login"@)),
        user is Some ==> (r matches TotpSetupSubmit::Enable { user_id, secret: s, code: c }
            && user_id == user->0.id && s@ == secret && c@ == code),
{
    let p = pairs_of(pairs@);
    assert(p =~= pairs_view(pairs@));
    lemma_gives(p, "secret"@, ""@);
    lemma_gives(p, "code"@, ""@);
}

/// A submitted set-up asks, for the account that submits it, for the secret and the code it holds.
pub proof fn a_submitted_setup_asks_for_its_fields(
    user: Option<&UserAccount>,
    body: &[u8],
    r: TotpSetupSubmit,
    secret: Seq<char>,
    code: Seq<char>,
)
    requires
        call_ensures(totp_setup_submit, (true, user, body), r),
        gives(form_pairs(body@), "secret"@, ""@, secret),
        gives(form_pairs(body@), "code"@, ""@, code),
    ensures
        user is None ==> (r matches TotpSetupSubmit::Answer(reply) && leads_to(reply, "/login"@)),
        user is Some ==> (r matches TotpSetupSubmit::Enable { user_id, secret: s, code: c }
            && user_id == user->0.id && s@ == secret && c@ == code),
{
    let p = form_pairs(body@);
    lemma_gives(p, "secret"@, ""@);
    lemma_gives(p, "code"@, ""@);
}

/// A failed set-up is shown again with the secret that was submitted, the reason, and the link of the
/// enrollment at hand.
pub proof fn a_failed_setup_is_shown_again(
    secret: &str,
    error: String,
    enrolled: Result<(String, String), String>,
    r: Result<Reply, String>,
)
    requires
        call_ensures(answer_failed_setup, (secret, error, enrolled), r),
    ensures
        enrolled matches Ok((_, link)) ==> r is Ok && shows_setup(
            r->Ok_0,
            Prefs::Default,
            secret@,
            link@,
            error@,
        ),
        enrolled matches Err(e) ==> r is Err && r->Err_0@ == e@,
{
}

/// A set-up that succeeded leads to the account page; one that failed is shown again with the secret
/// that was submitted and the reason.
pub proof fn a_setup_is_answered(
    username: &str,
    secret: &str,
    result: Result<(), String>,
    r: Result<Reply, String>,
)
    requires
        call_ensures(answer_totp_setup, (username, secret, result), r),
    ensures
        result is Ok ==> r is Ok && leads_to(r->Ok_0, "/account"@),
        result is Err && !username@.contains(':') ==> (r matches Ok(Reply::TotpSetup(t)) && t.prefs
            == Prefs::Default && t.secret@ == secret@ && t.error_msg@ == result->Err_0@
            && exists|fresh: Seq<u8>|
            fresh_secret(fresh) && fresh.len() == 20 && t.otpauth_url@ == setup_link(
                username@,
                #[trigger] base32(fresh),
            )),
        result is Err && username@.contains(':') ==> r is Err && r->Err_0@ == says_colon(username@),
{
    if result is Err {
        let fresh = choose|fresh: Seq<u8>|
            fresh_secret(fresh) && fresh.len() == 20 && crate::auth::reply_text(r)
                == crate::auth::setup_failed(
                secret@,
                result->Err_0@,
                #[trigger] crate::totp::enrollment(fresh, username@),
            );
        lemma_enrollment(fresh, username@);
    }
}

/// One-time passwords are turned off for the account that asks, where it can be asked for, and the
/// answer always leads back to its page.
pub proof fn codes_are_turned_off_for_the_account_that_asks(
    db_enabled: bool,
    user: Option<&UserAccount>,
    access: &Access,
    r: (Option<Request>, Reply),
)
    requires
        call_ensures(totp_disable, (db_enabled, user, access), r),
    ensures
        db_enabled && user is Some && *access is Granted ==> (r.0 matches Some(
            Request::DisableTotp { user_id },
        ) && user_id == user->0.id),
        !db_enabled || user is None || !(*access is Granted) ==> r.0 is None,
        !db_enabled ==> leads_to(r.1, "/"@),
        db_enabled && user is None ==> leads_to(r.1, "/login"@),
        db_enabled && user is Some ==> leads_to(r.1, "/account"@),
{
}

} // verus!
