//! What the pages for logging in, registering and managing an account answer.
//!
//! Requests are read and answers are sent by the caller. Each page here takes what the request
//! holds and gives the answer, or what has to be done first.

use vstd::prelude::*;

use crate::clock::{clock_reading, read_clock};
use crate::db::{
    access_refusal, account_view, delete_session, disable_totp, names_text, request_view,
    session_lookup, texts, validate_session_at, Access, AuthResult, AuthResultView, UserAccount,
    UserAccountView,
};
use crate::form::{
    field, form_pairs, pairs_view, parse_form, parse_number, value_or, written_number,
};
use crate::request::{change_text, unit_text, Op, Request};
use crate::text::{join, text_eq};
use crate::totp::{enrollment, enrollment_text, fresh_secret, generate_totp_secret};

verus! {

/// Whose preferences a page is shown with.
#[derive(Debug, Clone, Copy, PartialEq, Eq, Structural)]
pub enum Prefs {
    /// Those that the request carries.
    OfRequest,
    /// The default ones.
    Default,
}

/// The login page.
#[derive(Debug, Clone)]
pub struct LoginTemplate {
    pub prefs: Prefs,
    pub error_msg: String,
    pub require_2fa: bool,
    pub user_id: i64,
}

/// The registration page.
#[derive(Debug, Clone)]
pub struct RegisterTemplate {
    pub prefs: Prefs,
    pub error_msg: String,
    pub success_msg: String,
}

/// The page that sets one-time passwords up.
#[derive(Debug, Clone)]
pub struct TotpSetupTemplate {
    pub prefs: Prefs,
    pub secret: String,
    pub otpauth_url: String,
    pub error_msg: String,
}

/// The account page.
#[derive(Debug, Clone)]
pub struct AccountTemplate {
    pub prefs: Prefs,
    pub user: UserAccount,
    pub subscriptions: Vec<String>,
    pub filters: Vec<String>,
    pub message: String,
}

/// An answer to a request.
#[derive(Debug, Clone)]
pub enum Reply {
    Redirect { location: String },
    /// A redirect that sets the session cookie to a token.
    OpenSession { location: String, token: String },
    /// A redirect that removes the session cookie.
    CloseSession { location: String },
    Login(LoginTemplate),
    Register(RegisterTemplate),
    TotpSetup(TotpSetupTemplate),
    Account(AccountTemplate),
}

/// An answer to a request as characters and numbers.
pub enum ReplyView {
    Redirect { location: Seq<char> },
    OpenSession { location: Seq<char>, token: Seq<char> },
    CloseSession { location: Seq<char> },
    Login { prefs: Prefs, error_msg: Seq<char>, require_2fa: bool, user_id: i64 },
    Register { prefs: Prefs, error_msg: Seq<char>, success_msg: Seq<char> },
    TotpSetup {
        prefs: Prefs,
        secret: Seq<char>,
        otpauth_url: Seq<char>,
        error_msg: Seq<char>,
    },
    Account {
        prefs: Prefs,
        user: UserAccountView,
        subscriptions: Seq<Seq<char>>,
        filters: Seq<Seq<char>>,
        message: Seq<char>,
    },
}

impl View for Reply {
    type V = ReplyView;

    open spec fn view(&self) -> ReplyView {
        match self {
            Reply::Redirect { location } => ReplyView::Redirect { location: location@ },
            Reply::OpenSession { location, token } => ReplyView::OpenSession {
                location: location@,
                token: token@,
            },
            Reply::CloseSession { location } => ReplyView::CloseSession { location: location@ },
            Reply::Login(t) => ReplyView::Login {
                prefs: t.prefs,
                error_msg: t.error_msg@,
                require_2fa: t.require_2fa,
                user_id: t.user_id,
            },
            Reply::Register(t) => ReplyView::Register {
                prefs: t.prefs,
                error_msg: t.error_msg@,
                success_msg: t.success_msg@,
            },
            Reply::TotpSetup(t) => ReplyView::TotpSetup {
                prefs: t.prefs,
                secret: t.secret@,
                otpauth_url: t.otpauth_url@,
                error_msg: t.error_msg@,
            },
            Reply::Account(t) => ReplyView::Account {
                prefs: t.prefs,
                user: t.user@,
                subscriptions: texts(t.subscriptions@),
                filters: texts(t.filters@),
                message: t.message@,
            },
        }
    }
}

/// An answer, or the text of an error, as characters and numbers.
pub open spec fn reply_text(r: Result<Reply, String>) -> Result<ReplyView, Seq<char>> {
    match r {
        Ok(reply) => Ok(reply@),
        Err(e) => Err(e@),
    }
}

/// An answer that may be missing, as characters and numbers.
pub open spec fn reply_view(r: Option<Reply>) -> Option<ReplyView> {
    match r {
        Some(reply) => Some(reply@),
        None => None,
    }
}

/// A reference to an account that may be missing, as characters and numbers.
pub open spec fn user_view(user: Option<&UserAccount>) -> Option<UserAccountView> {
    match user {
        Some(u) => Some(u@),
        None => None,
    }
}

/// A redirect.
pub open spec fn redirect(location: Seq<char>) -> ReplyView {
    ReplyView::Redirect { location }
}

/// Makes a redirect.
fn redirect_to(location: &str) -> (r: Reply)
    ensures
        r@ == redirect(location@),
{
    Reply::Redirect { location: location.to_owned() }
}

// ---------------------------------------------------------------------------------------------
// Who makes a request
// ---------------------------------------------------------------------------------------------
/// The lookup of the account whose session token a request's cookie carries.
pub open spec fn current_user_lookup(
    access: Access,
    cookie: Option<Seq<char>>,
    clock: Option<u64>,
) -> Option<Op> {
    match cookie {
        Some(token) => session_lookup(access, token, clock),
        None => None,
    }
}

/// A text that may be missing, as characters.
pub open spec fn cookie_text(cookie: Option<&str>) -> Option<Seq<char>> {
    match cookie {
        Some(c) => Some(c@),
        None => None,
    }
}

/// Begins to look for the account that makes a request, by the value of its session cookie, at a
/// reading of the clock.
pub fn get_current_user_at(access: &Access, cookie: Option<&str>, clock: Option<u64>) -> (r: Option<
    Request,
>)
    ensures
        request_view(r) == current_user_lookup(*access, cookie_text(cookie), clock),
{
    match cookie {
        Some(token) => validate_session_at(access, token, clock),
        None => None,
    }
}

/// Begins to look for the account that makes a request, by the value of its session cookie.
pub fn get_current_user(access: &Access, cookie: Option<&str>) -> (r: Option<Request>)
    ensures
        exists|clock: Option<u64>| #[trigger]
            clock_reading(clock) && request_view(r) == current_user_lookup(
                *access,
                cookie_text(cookie),
                clock,
            ),
{
    let clock: Option<u64> = read_clock();
    get_current_user_at(access, cookie, clock)
}

/// Whether it matters who makes a request.
pub fn needs_session(db_enabled: bool, auth_required: bool) -> (r: bool)
    ensures
        r == (db_enabled && auth_required),
{
    db_enabled && auth_required
}

/// Whether a request may pass: without accounts, or where no login is required, every request may;
/// otherwise one of an account.
pub fn is_authenticated(
    db_enabled: bool,
    auth_required: bool,
    user: Option<&UserAccount>,
) -> (r: bool)
    ensures
        r == (!db_enabled || !auth_required || user is Some),
{
    if !db_enabled {
        return true;
    }
    if !auth_required {
        return true;
    }
    user.is_some()
}

/// The answer to a request that only an account may make, where none makes it.
pub open spec fn outsider_answer(db_enabled: bool, user: Option<UserAccountView>) -> Option<
    ReplyView,
> {
    if !db_enabled {
        Some(redirect("/"@))
    } else if user is None {
        Some(redirect("/login"@))
    } else {
        None
    }
}

/// Answers a request that only an account may make, where none makes it.
pub fn turn_away(db_enabled: bool, user: Option<&UserAccount>) -> (r: Option<Reply>)
    ensures
        reply_view(r) == outsider_answer(db_enabled, user_view(user)),
{
    if !db_enabled {
        return Some(redirect_to("/"));
    }
    match user {
        Some(_) => None,
        None => Some(redirect_to("/login")),
    }
}

// ---------------------------------------------------------------------------------------------
// Logging in and out
// ---------------------------------------------------------------------------------------------
/// Answers a request for the login page.
pub fn login_page(db_enabled: bool, user: Option<&UserAccount>) -> (r: Reply)
    ensures
        r@ == (if !db_enabled {
            redirect("/"@)
        } else if user is Some {
            redirect("/account"@)
        } else {
            ReplyView::Login {
                prefs: Prefs::OfRequest,
                error_msg: Seq::empty(),
                require_2fa: false,
                user_id: 0,
            }
        }),
{
    if !db_enabled {
        return redirect_to("/");
    }
    if user.is_some() {
        return redirect_to("/account");
    }
    Reply::Login(
        LoginTemplate {
            prefs: Prefs::OfRequest,
            error_msg: String::new(),
            require_2fa: false,
            user_id: 0,
        },
    )
}

/// What a submitted login form asks for.
#[derive(Debug, Clone)]
pub enum LoginSubmit {
    Answer(Reply),
    /// Check a code of an account whose password was right.
    Code { user_id: i64, code: String },
    /// Check a name and a password.
    Password { username: String, password: String },
}

/// What a submitted login form asks for, as characters and numbers.
pub enum LoginSubmitView {
    Answer(ReplyView),
    Code { user_id: i64, code: Seq<char> },
    Password { username: Seq<char>, password: Seq<char> },
}

impl View for LoginSubmit {
    type V = LoginSubmitView;

    open spec fn view(&self) -> LoginSubmitView {
        match self {
            LoginSubmit::Answer(reply) => LoginSubmitView::Answer(reply@),
            LoginSubmit::Code { user_id, code } => LoginSubmitView::Code {
                user_id: *user_id,
                code: code@,
            },
            LoginSubmit::Password { username, password } => LoginSubmitView::Password {
                username: username@,
                password: password@,
            },
        }
    }
}

/// The number of the account in a login form; 0 where the form writes none.
pub open spec fn form_user_id(pairs: Seq<(Seq<char>, Seq<char>)>) -> i64 {
    match written_number(value_or(pairs, "user_id"@, "0"@)) {
        Some(id) => id,
        None => 0,
    }
}

/// What a login form asks for: to check a code, where it has one and the number of an account; to
/// check a name and a password otherwise.
pub open spec fn login_decision(
    db_enabled: bool,
    pairs: Seq<(Seq<char>, Seq<char>)>,
) -> LoginSubmitView {
    let code = value_or(pairs, "totp_code"@, ""@);
    if !db_enabled {
        LoginSubmitView::Answer(redirect("/"@))
    } else if code.len() > 0 && form_user_id(pairs) > 0 {
        LoginSubmitView::Code { user_id: form_user_id(pairs), code }
    } else {
        LoginSubmitView::Password {
            username: value_or(pairs, "username"@, ""@),
            password: value_or(pairs, "password"@, ""@),
        }
    }
}

/// Decides what a login form asks for.
pub fn read_login_form(db_enabled: bool, pairs: &Vec<(String, String)>) -> (r: LoginSubmit)
    ensures
        r@ == login_decision(db_enabled, pairs_view(pairs@)),
{
    if !db_enabled {
        return LoginSubmit::Answer(redirect_to("/"));
    }
    let code = field(pairs, "totp_code", "");
    if !code.as_str().is_empty() {
        let user_id: i64 = match parse_number(field(pairs, "user_id", "0").as_str()) {
            Some(id) => id,
            None => 0,
        };
        if user_id > 0 {
            return LoginSubmit::Code { user_id, code };
        }
    }
    LoginSubmit::Password {
        username: field(pairs, "username", ""),
        password: field(pairs, "password", ""),
    }
}

/// Decides what a submitted login form asks for.
pub fn login_submit(db_enabled: bool, body: &[u8]) -> (r: LoginSubmit)
    ensures
        r@ == login_decision(db_enabled, form_pairs(body@)),
{
    let pairs = parse_form(body);
    read_login_form(db_enabled, &pairs)
}

/// The login page with a message.
pub open spec fn login_again(
    error_msg: Seq<char>,
    require_2fa: bool,
    user_id: i64,
) -> ReplyView {
    ReplyView::Login { prefs: Prefs::Default, error_msg, require_2fa, user_id }
}

/// Makes the login page with a message.
fn ask_again(error_msg: String, require_2fa: bool, user_id: i64) -> (r: Reply)
    ensures
        r@ == login_again(error_msg@, require_2fa, user_id),
{
    Reply::Login(LoginTemplate { prefs: Prefs::Default, error_msg, require_2fa, user_id })
}

/// The answer to a login with a code.
pub open spec fn code_answer(user_id: i64, result: AuthResultView) -> ReplyView {
    match result {
        AuthResultView::Success(_, token) => ReplyView::OpenSession {
            location: "/account"@,
            token,
        },
        _ => login_again("Invalid 2FA code"@, true, user_id),
    }
}

/// Answers a login with a code.
pub fn answer_code(user_id: i64, result: AuthResult) -> (r: Reply)
    ensures
        r@ == code_answer(user_id, result@),
{
    match result {
        AuthResult::Success(_, token) => Reply::OpenSession {
            location: "/account".to_owned(),
            token,
        },
        _ => ask_again("Invalid 2FA code".to_owned(), true, user_id),
    }
}

/// The answer to a login with a name and a password.
pub open spec fn password_answer(result: AuthResultView) -> ReplyView {
    match result {
        AuthResultView::Success(_, token) => ReplyView::OpenSession {
            location: "/account"@,
            token,
        },
        AuthResultView::RequiresTwoFactor(user_id) => login_again(Seq::empty(), true, user_id),
        AuthResultView::InvalidCredentials => login_again(
            "Invalid username or password"@,
            false,
            0,
        ),
        AuthResultView::DatabaseError(e) => login_again("Database error: "@ + e, false, 0),
        AuthResultView::AccountLocked => login_again("Login failed"@, false, 0),
    }
}

/// Answers a login with a name and a password.
pub fn answer_password(result: AuthResult) -> (r: Reply)
    ensures
        r@ == password_answer(result@),
{
    match result {
        AuthResult::Success(_, token) => Reply::OpenSession {
            location: "/account".to_owned(),
            token,
        },
        AuthResult::RequiresTwoFactor(user_id) => ask_again(String::new(), true, user_id),
        AuthResult::InvalidCredentials => ask_again(
            "Invalid username or password".to_owned(),
            false,
            0,
        ),
        AuthResult::DatabaseError(e) => ask_again(
            join("Database error: ", e.as_str()),
            false,
            0,
        ),
        AuthResult::AccountLocked => ask_again("Login failed".to_owned(), false, 0),
    }
}

/// What logging out asks of the database: to end the session whose token the cookie carries. That
/// it cannot be asked is passed over.
pub open spec fn logout_request(access: Access, cookie: Option<Seq<char>>) -> Option<Op> {
    match cookie {
        Some(token) => match access_refusal(access) {
            Some(_) => None,
            None => Some(Op::DeleteSession { token }),
        },
        None => None,
    }
}

/// Logs out: gives what to ask of the database, whatever comes of it, and the answer.
pub fn logout(access: &Access, cookie: Option<&str>) -> (r: (Option<Request>, Reply))
    ensures
        request_view(r.0) == logout_request(*access, cookie_text(cookie)),
        r.1@ == (ReplyView::CloseSession { location: "/"@ }),
{
    let request: Option<Request> = match cookie {
        Some(token) => match delete_session(access, token) {
            Ok(request) => Some(request),
            Err(_) => None,
        },
        None => None,
    };
    (request, Reply::CloseSession { location: "/".to_owned() })
}

// ---------------------------------------------------------------------------------------------
// Registering
// ---------------------------------------------------------------------------------------------
/// Answers a request for the registration page.
pub fn register_page(db_enabled: bool) -> (r: Reply)
    ensures
        r@ == (if !db_enabled {
            redirect("/"@)
        } else {
            ReplyView::Register {
                prefs: Prefs::OfRequest,
                error_msg: Seq::empty(),
                success_msg: Seq::empty(),
            }
        }),
{
    if !db_enabled {
        return redirect_to("/");
    }
    Reply::Register(
        RegisterTemplate {
            prefs: Prefs::OfRequest,
            error_msg: String::new(),
            success_msg: String::new(),
        },
    )
}

/// What a submitted registration form asks for.
#[derive(Debug, Clone)]
pub enum RegisterSubmit {
    Answer(Reply),
    /// Create an account.
    Create { username: String, password: String },
}

/// What a submitted registration form asks for, as characters.
pub enum RegisterSubmitView {
    Answer(ReplyView),
    Create { username: Seq<char>, password: Seq<char> },
}

impl View for RegisterSubmit {
    type V = RegisterSubmitView;

    open spec fn view(&self) -> RegisterSubmitView {
        match self {
            RegisterSubmit::Answer(reply) => RegisterSubmitView::Answer(reply@),
            RegisterSubmit::Create { username, password } => RegisterSubmitView::Create {
                username: username@,
                password: password@,
            },
        }
    }
}

/// The registration page with a message.
pub open spec fn register_again(error_msg: Seq<char>, success_msg: Seq<char>) -> ReplyView {
    ReplyView::Register { prefs: Prefs::Default, error_msg, success_msg }
}

/// What a registration form asks for: an account, where its password was repeated without a slip.
pub open spec fn register_decision(
    db_enabled: bool,
    pairs: Seq<(Seq<char>, Seq<char>)>,
) -> RegisterSubmitView {
    let password = value_or(pairs, "password"@, ""@);
    if !db_enabled {
        RegisterSubmitView::Answer(redirect("/"@))
    } else if password != value_or(pairs, "confirm_password"@, ""@) {
        RegisterSubmitView::Answer(register_again("Passwords do not match"@, Seq::empty()))
    } else {
        RegisterSubmitView::Create { username: value_or(pairs, "username"@, ""@), password }
    }
}

/// Decides what a registration form asks for.
pub fn read_register_form(db_enabled: bool, pairs: &Vec<(String, String)>) -> (r: RegisterSubmit)
    ensures
        r@ == register_decision(db_enabled, pairs_view(pairs@)),
{
    if !db_enabled {
        return RegisterSubmit::Answer(redirect_to("/"));
    }
    let password = field(pairs, "password", "");
    let confirmed = field(pairs, "confirm_password", "");
    if !text_eq(password.as_str(), confirmed.as_str()) {
        return RegisterSubmit::Answer(
            Reply::Register(
                RegisterTemplate {
                    prefs: Prefs::Default,
                    error_msg: "Passwords do not match".to_owned(),
                    success_msg: String::new(),
                },
            ),
        );
    }
    RegisterSubmit::Create { username: field(pairs, "username", ""), password }
}

/// Decides what a submitted registration form asks for.
pub fn register_submit(db_enabled: bool, body: &[u8]) -> (r: RegisterSubmit)
    ensures
        r@ == register_decision(db_enabled, form_pairs(body@)),
{
    let pairs = parse_form(body);
    read_register_form(db_enabled, &pairs)
}

/// The answer to a registration.
pub open spec fn register_answer(result: Result<i64, Seq<char>>) -> ReplyView {
    match result {
        Ok(_) => register_again(
            Seq::empty(),
            "Account created successfully! You can now log in."@,
        ),
        Err(e) => register_again(e, Seq::empty()),
    }
}

/// Answers a registration.
pub fn answer_registration(result: Result<i64, String>) -> (r: Reply)
    ensures
        r@ == register_answer(change_text(result)),
{
    match result {
        Ok(_) => Reply::Register(
            RegisterTemplate {
                prefs: Prefs::Default,
                error_msg: String::new(),
                success_msg: "Account created successfully! You can now log in.".to_owned(),
            },
        ),
        Err(e) => Reply::Register(
            RegisterTemplate {
                prefs: Prefs::Default,
                error_msg: e,
                success_msg: String::new(),
            },
        ),
    }
}

// ---------------------------------------------------------------------------------------------
// The account
// ---------------------------------------------------------------------------------------------
/// The names of a list, or none where they could not be read.
pub open spec fn names_or_none(r: Result<Seq<Seq<char>>, Seq<char>>) -> Seq<Seq<char>> {
    match r {
        Ok(names) => names,
        Err(_) => Seq::empty(),
    }
}

/// Gives the names of a list, or none where they could not be read.
fn or_none(r: Result<Vec<String>, String>) -> (names: Vec<String>)
    ensures
        texts(names@) == names_or_none(names_text(r)),
{
    match r {
        Ok(names) => names,
        Err(_) => {
            let names: Vec<String> = Vec::new();
            assert(texts(names@) =~= Seq::empty());
            names
        },
    }
}

/// Answers a request for the account page, with the lists that were read for the account.
pub fn account_page(
    db_enabled: bool,
    user: Option<UserAccount>,
    subscriptions: Result<Vec<String>, String>,
    filters: Result<Vec<String>, String>,
) -> (r: Reply)
    ensures
        r@ == (match outsider_answer(db_enabled, account_view(user)) {
            Some(reply) => reply,
            None => ReplyView::Account {
                prefs: Prefs::OfRequest,
                user: user->0@,
                subscriptions: names_or_none(names_text(subscriptions)),
                filters: names_or_none(names_text(filters)),
                message: Seq::empty(),
            },
        }),
{
    if !db_enabled {
        return redirect_to("/");
    }
    match user {
        Some(user) => Reply::Account(
            AccountTemplate {
                prefs: Prefs::OfRequest,
                user,
                subscriptions: or_none(subscriptions),
                filters: or_none(filters),
                message: String::new(),
            },
        ),
        None => redirect_to("/login"),
    }
}

/// The page that shows an enrollment, or why there is none.
pub open spec fn enrollment_page(enrolled: Result<(Seq<char>, Seq<char>), Seq<char>>) -> Result<
    ReplyView,
    Seq<char>,
> {
    match enrolled {
        Ok((secret, otpauth_url)) => Ok(
            ReplyView::TotpSetup {
                prefs: Prefs::OfRequest,
                secret,
                otpauth_url,
                error_msg: Seq::empty(),
            },
        ),
        Err(e) => Err(e),
    }
}

/// Shows an enrollment.
pub fn show_enrollment(enrolled: Result<(String, String), String>) -> (r: Result<Reply, String>)
    ensures
        reply_text(r) == enrollment_page(enrollment_text(enrolled)),
{
    match enrolled {
        Ok((secret, otpauth_url)) => Ok(
            Reply::TotpSetup(
                TotpSetupTemplate {
                    prefs: Prefs::OfRequest,
                    secret,
                    otpauth_url,
                    error_msg: String::new(),
                },
            ),
        ),
        Err(e) => Err(e),
    }
}

/// Answers a request for the page that sets one-time passwords up: an account that has them is sent
/// back, any other is shown an enrollment.
pub fn totp_setup_page(db_enabled: bool, user: Option<&UserAccount>) -> (r: Result<Reply, String>)
    ensures
        match outsider_answer(db_enabled, user_view(user)) {
            Some(reply) => reply_text(r) == Ok::<ReplyView, Seq<char>>(reply),
            None => if user->0.totp_enabled {
                reply_text(r) == Ok::<ReplyView, Seq<char>>(redirect("/account"@))
            } else {
                exists|secret: Seq<u8>|
                    fresh_secret(secret) && secret.len() == 20 && reply_text(r) == enrollment_page(
                        #[trigger] enrollment(secret, user->0.username@),
                    )
            },
        },
{
    if !db_enabled {
        return Ok(redirect_to("/"));
    }
    match user {
        None => Ok(redirect_to("/login")),
        Some(user) => {
            if user.totp_enabled {
                Ok(redirect_to("/account"))
            } else {
                show_enrollment(generate_totp_secret(user.username.as_str()))
            }
        },
    }
}

/// What a submitted form to set one-time passwords up asks for.
#[derive(Debug, Clone)]
pub enum TotpSetupSubmit {
    Answer(Reply),
    /// Turn one-time passwords on for an account that gives a code of the secret.
    Enable { user_id: i64, secret: String, code: String },
}

/// What a submitted form to set one-time passwords up asks for, as characters and numbers.
pub enum TotpSetupSubmitView {
    Answer(ReplyView),
    Enable { user_id: i64, secret: Seq<char>, code: Seq<char> },
}

impl View for TotpSetupSubmit {
    type V = TotpSetupSubmitView;

    open spec fn view(&self) -> TotpSetupSubmitView {
        match self {
            TotpSetupSubmit::Answer(reply) => TotpSetupSubmitView::Answer(reply@),
            TotpSetupSubmit::Enable { user_id, secret, code } => TotpSetupSubmitView::Enable {
                user_id: *user_id,
                secret: secret@,
                code: code@,
            },
        }
    }
}

/// What a form to set one-time passwords up asks for.
pub open spec fn totp_setup_decision(
    db_enabled: bool,
    user: Option<UserAccountView>,
    pairs: Seq<(Seq<char>, Seq<char>)>,
) -> TotpSetupSubmitView {
    match outsider_answer(db_enabled, user) {
        Some(reply) => TotpSetupSubmitView::Answer(reply),
        None => TotpSetupSubmitView::Enable {
            user_id: user->0.id,
            secret: value_or(pairs, "secret"@, ""@),
            code: value_or(pairs, "code"@, ""@),
        },
    }
}

/// Decides what a form to set one-time passwords up asks for.
pub fn read_totp_form(
    db_enabled: bool,
    user: Option<&UserAccount>,
    pairs: &Vec<(String, String)>,
) -> (r: TotpSetupSubmit)
    ensures
        r@ == totp_setup_decision(db_enabled, user_view(user), pairs_view(pairs@)),
{
    if !db_enabled {
        return TotpSetupSubmit::Answer(redirect_to("/"));
    }
    match user {
        None => TotpSetupSubmit::Answer(redirect_to("/login")),
        Some(user) => TotpSetupSubmit::Enable {
            user_id: user.id,
            secret: field(pairs, "secret", ""),
            code: field(pairs, "code", ""),
        },
    }
}

/// Decides what a submitted form to set one-time passwords up asks for.
pub fn totp_setup_submit(db_enabled: bool, user: Option<&UserAccount>, body: &[u8]) -> (r:
    TotpSetupSubmit)
    ensures
        r@ == totp_setup_decision(db_enabled, user_view(user), form_pairs(body@)),
{
    let pairs = parse_form(body);
    read_totp_form(db_enabled, user, &pairs)
}

/// The answer to a failed attempt to turn one-time passwords on: the secret as it was submitted,
/// with the reason and the URL of a new enrollment.
pub open spec fn setup_failed(
    secret: Seq<char>,
    error: Seq<char>,
    enrolled: Result<(Seq<char>, Seq<char>), Seq<char>>,
) -> Result<ReplyView, Seq<char>> {
    match enrolled {
        Ok((_, otpauth_url)) => Ok(
            ReplyView::TotpSetup { prefs: Prefs::Default, secret, otpauth_url, error_msg: error },
        ),
        Err(e) => Err(e),
    }
}

/// Answers a failed attempt to turn one-time passwords on.
pub fn answer_failed_setup(
    secret: &str,
    error: String,
    enrolled: Result<(String, String), String>,
) -> (r: Result<Reply, String>)
    ensures
        reply_text(r) == setup_failed(secret@, error@, enrollment_text(enrolled)),
{
    match enrolled {
        Ok((_, otpauth_url)) => Ok(
            Reply::TotpSetup(
                TotpSetupTemplate {
                    prefs: Prefs::Default,
                    secret: secret.to_owned(),
                    otpauth_url,
                    error_msg: error,
                },
            ),
        ),
        Err(e) => Err(e),
    }
}

/// Answers an attempt of an account to turn one-time passwords on.
pub fn answer_totp_setup(username: &str, secret: &str, result: Result<(), String>) -> (r: Result<
    Reply,
    String,
>)
    ensures
        match unit_text(result) {
            Ok(()) => reply_text(r) == Ok::<ReplyView, Seq<char>>(redirect("/account"@)),
            Err(e) => exists|fresh: Seq<u8>|
                fresh_secret(fresh) && fresh.len() == 20 && reply_text(r) == setup_failed(
                    secret@,
                    e,
                    #[trigger] enrollment(fresh, username@),
                ),
        },
{
    match result {
        Ok(()) => Ok(redirect_to("/account")),
        Err(e) => answer_failed_setup(secret, e, generate_totp_secret(username)),
    }
}

/// What turning one-time passwords off asks of the database. That it cannot be asked is passed over.
pub open spec fn totp_disable_request(
    db_enabled: bool,
    user: Option<UserAccountView>,
    access: Access,
) -> Option<Op> {
    if outsider_answer(db_enabled, user) is None && access_refusal(access) is None {
        Some(Op::DisableTotp { user_id: user->0.id })
    } else {
        None
    }
}

/// Turns one-time passwords off: gives what to ask of the database, whatever comes of it, and the
/// answer.
pub fn totp_disable(db_enabled: bool, user: Option<&UserAccount>, access: &Access) -> (r: (
    Option<Request>,
    Reply,
))
    ensures
        request_view(r.0) == totp_disable_request(db_enabled, user_view(user), *access),
        r.1@ == (match outsider_answer(db_enabled, user_view(user)) {
            Some(reply) => reply,
            None => redirect("/account"@),
        }),
{
    if !db_enabled {
        return (None, redirect_to("/"));
    }
    match user {
        None => (None, redirect_to("/login")),
        Some(user) => {
            let request: Option<Request> = match disable_totp(access, user.id) {
                Ok(request) => Some(request),
                Err(_) => None,
            };
            (request, redirect_to("/account"))
        },
    }
}

} // verus!
