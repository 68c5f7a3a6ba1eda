//! Accounts, sessions and preferences kept in a database.
//!
//! The database itself is worked by the caller. Each operation here takes what is known so far and
//! gives either its result or the next request; the caller carries the request out and hands the
//! reply back.

use vstd::prelude::*;
use vstd::utf8::{encode_utf8, is_ascii_chars, is_ascii_chars_encode_utf8};

use crate::clock::{clock_reading, read_clock};
use crate::password::{freshly_hashed, hashable, password_matches};
use crate::request::{
    change_text, creation_failure, describe_creation_failure, describe_failure, failure_text,
    unit_text, NameList, Op, Request,
};
use crate::session::{
    drawn, seconds_of, session_end, session_end_at, token_text, unix_time, Fault,
};
use crate::sql::{
    cells, flag_at, integer_at, read_flag, read_integer, read_text, schema, schema_statement,
    text_at, Cell, Value,
};
use crate::text::{join, text_eq, text_result};
use crate::totp::{
    code_clock, code_form, totp_verdict, usable_clock, verdict_text, verify_totp_code_at, DIGITS,
};

pub use crate::password::{hash_password, verify_password};
pub use crate::session::generate_session_token;
pub use crate::totp::{generate_totp_secret, verify_totp_code};

verus! {

/// The setting that names the database's file.
pub const DB_PATH_SETTING: &'static str = "REDLIB_DB_PATH";

/// The setting that says whether every page needs a login.
pub const REQUIRE_AUTH_SETTING: &'static str = "REDLIB_REQUIRE_AUTH";

/// An account.
#[derive(Debug, Clone)]
pub struct UserAccount {
    pub id: i64,
    pub username: String,
    pub totp_enabled: bool,
}

/// An account as characters and numbers.
pub struct UserAccountView {
    pub id: i64,
    pub username: Seq<char>,
    pub totp_enabled: bool,
}

impl View for UserAccount {
    type V = UserAccountView;

    open spec fn view(&self) -> UserAccountView {
        UserAccountView {
            id: self.id,
            username: self.username@,
            totp_enabled: self.totp_enabled,
        }
    }
}

/// An account that may be missing, as characters and numbers.
pub open spec fn account_view(user: Option<UserAccount>) -> Option<UserAccountView> {
    match user {
        Some(u) => Some(u@),
        None => None,
    }
}

/// The result of an attempt to log in.
#[derive(Debug)]
pub enum AuthResult {
    /// The account and the token of its new session.
    Success(UserAccount, String),
    /// The number of the account that still has to give a code.
    RequiresTwoFactor(i64),
    InvalidCredentials,
    AccountLocked,
    DatabaseError(String),
}

/// The result of an attempt to log in as characters and numbers.
pub enum AuthResultView {
    Success(UserAccountView, Seq<char>),
    RequiresTwoFactor(i64),
    InvalidCredentials,
    AccountLocked,
    DatabaseError(Seq<char>),
}

impl View for AuthResult {
    type V = AuthResultView;

    open spec fn view(&self) -> AuthResultView {
        match self {
            AuthResult::Success(user, token) => AuthResultView::Success(user@, token@),
            AuthResult::RequiresTwoFactor(id) => AuthResultView::RequiresTwoFactor(*id),
            AuthResult::InvalidCredentials => AuthResultView::InvalidCredentials,
            AuthResult::AccountLocked => AuthResultView::AccountLocked,
            AuthResult::DatabaseError(e) => AuthResultView::DatabaseError(e@),
        }
    }
}

// ---------------------------------------------------------------------------------------------
// Opening the database
// ---------------------------------------------------------------------------------------------
/// The database as it was opened when the service started.
#[derive(Debug, Clone)]
pub enum Pool {
    /// No file is configured: the service runs without accounts.
    Unconfigured,
    /// The file could not be opened or set up.
    Failed(String),
    Ready,
}

/// The next thing to do to open the database.
#[derive(Debug, Clone)]
pub enum OpenStep {
    /// Open this file.
    Open(String),
    /// Run this statement, which takes no parameters; it is the `done`-th that ran once it has.
    Run { sql: &'static str, done: usize },
    /// Nothing more.
    Done(Pool),
}

/// The database as it was opened, as characters.
pub enum PoolView {
    Unconfigured,
    Failed(Seq<char>),
    Ready,
}

/// The next thing to do to open the database, as characters and numbers.
pub enum OpenStepView {
    Open(Seq<char>),
    Run { sql: Seq<char>, done: nat },
    Done(PoolView),
}

impl View for Pool {
    type V = PoolView;

    open spec fn view(&self) -> PoolView {
        match self {
            Pool::Unconfigured => PoolView::Unconfigured,
            Pool::Failed(e) => PoolView::Failed(e@),
            Pool::Ready => PoolView::Ready,
        }
    }
}

impl View for OpenStep {
    type V = OpenStepView;

    open spec fn view(&self) -> OpenStepView {
        match self {
            OpenStep::Open(file) => OpenStepView::Open(file@),
            OpenStep::Run { sql, done } => OpenStepView::Run { sql: sql@, done: *done as nat },
            OpenStep::Done(pool) => OpenStepView::Done(pool@),
        }
    }
}

/// Whether accounts can be used.
pub fn is_db_enabled(pool: &Pool) -> (r: bool)
    ensures
        r == (pool@ is Ready),
{
    match pool {
        Pool::Ready => true,
        _ => false,
    }
}

/// The first step of opening the database that the setting names, if it names one.
pub open spec fn open_start(path: Option<Seq<char>>) -> OpenStepView {
    match path {
        Some(p) => OpenStepView::Open(p),
        None => OpenStepView::Done(PoolView::Unconfigured),
    }
}

/// The step of opening the database after `done` statements ran and the last thing went as `last`
/// says.
pub open spec fn open_next(done: nat, last: Result<(), Seq<char>>) -> OpenStepView {
    match last {
        Err(e) => OpenStepView::Done(PoolView::Failed(e)),
        Ok(()) => if done < schema().len() {
            OpenStepView::Run { sql: schema()[done as int], done: done + 1 }
        } else {
            OpenStepView::Done(PoolView::Ready)
        },
    }
}

/// Starts to open the database that the setting names, if it names one.
pub fn open_pool(path: Option<&str>) -> (r: OpenStep)
    ensures
        r@ == open_start(
            match path {
                Some(p) => Some(p@),
                None => None,
            },
        ),
{
    match path {
        Some(p) => OpenStep::Open(p.to_owned()),
        None => OpenStep::Done(Pool::Unconfigured),
    }
}

/// Sets the tables up, one statement after the other, and stops at the first failure. `done` counts
/// the statements that ran; `last` is how the last of them went, or how opening the file went.
pub fn initialize_database(done: usize, last: Result<(), String>) -> (r: OpenStep)
    ensures
        r@ == open_next(done as nat, unit_text(last)),
{
    match last {
        Err(e) => OpenStep::Done(Pool::Failed(e)),
        Ok(()) => match schema_statement(done) {
            Some(sql) => OpenStep::Run { sql, done: done + 1 },
            None => OpenStep::Done(Pool::Ready),
        },
    }
}

/// Whether every page needs a login, by the value of the setting.
pub open spec fn auth_required(setting: Option<Seq<char>>) -> bool {
    setting matches Some(v) && (v == "on"@ || v == "true"@ || v == "1"@)
}

/// Whether every page needs a login.
pub fn is_auth_required(setting: Option<&str>) -> (r: bool)
    ensures
        r == auth_required(
            match setting {
                Some(v) => Some(v@),
                None => None,
            },
        ),
{
    match setting {
        Some(v) => text_eq(v, "on") || text_eq(v, "true") || text_eq(v, "1"),
        None => false,
    }
}

// ---------------------------------------------------------------------------------------------
// Reaching the database
// ---------------------------------------------------------------------------------------------
/// Whether the database can be worked right now.
#[derive(Debug, Clone)]
pub enum Access {
    /// It was not opened.
    Unavailable,
    /// Its lock could not be taken.
    LockFailed(String),
    Granted,
}

/// Why the database cannot be worked, if it cannot.
pub open spec fn access_refusal(access: Access) -> Option<Seq<char>> {
    match access {
        Access::Unavailable => Some("Database not available"@),
        Access::LockFailed(e) => Some("DB lock error: "@ + e@),
        Access::Granted => None,
    }
}

/// Says why the database cannot be worked, if it cannot.
pub fn refuse_access(access: &Access) -> (r: Option<String>)
    ensures
        r is Some <==> access_refusal(*access) is Some,
        r matches Some(e) ==> access_refusal(*access) == Some(e@),
{
    match access {
        Access::Unavailable => Some("Database not available".to_owned()),
        Access::LockFailed(e) => Some(join("DB lock error: ", e.as_str())),
        Access::Granted => None,
    }
}

/// A request, or the text of an error, as characters and numbers.
pub open spec fn ask_text(r: Result<Request, String>) -> Result<Op, Seq<char>> {
    match r {
        Ok(request) => Ok(request@),
        Err(e) => Err(e@),
    }
}

/// A request that may be missing, as characters and numbers.
pub open spec fn request_view(r: Option<Request>) -> Option<Op> {
    match r {
        Some(request) => Some(request@),
        None => None,
    }
}

/// Asks for something where the database can be worked.
pub open spec fn ask(access: Access, op: Op) -> Result<Op, Seq<char>> {
    match access_refusal(access) {
        Some(e) => Err(e),
        None => Ok(op),
    }
}

/// Asks for something where the database can be worked.
fn ask_database(access: &Access, request: Request) -> (r: Result<Request, String>)
    ensures
        ask_text(r) == ask(*access, request@),
{
    match refuse_access(access) {
        Some(e) => Err(e),
        None => Ok(request),
    }
}

/// A row, no row, or the text of an error, as characters and numbers.
pub open spec fn row_text(reply: Result<Option<Vec<Value>>, String>) -> Result<
    Option<Seq<Cell>>,
    Seq<char>,
> {
    match reply {
        Ok(Some(row)) => Ok(Some(cells(row@))),
        Ok(None) => Ok(None),
        Err(e) => Err(e@),
    }
}

/// The row that was found, if one was.
pub open spec fn found_row(reply: Result<Option<Seq<Cell>>, Seq<char>>) -> Option<Seq<Cell>> {
    match reply {
        Ok(row) => row,
        Err(_) => None,
    }
}

// ---------------------------------------------------------------------------------------------
// Creating an account
// ---------------------------------------------------------------------------------------------
/// Whether a character counts as a letter or a digit in Unicode: what `char::is_alphanumeric` of
/// the standard library says.
pub uninterp spec fn unicode_alphanumeric(c: char) -> bool;

/// Whether a character is an ASCII letter or digit.
pub open spec fn ascii_alphanumeric(c: char) -> bool {
    'a' <= c <= 'z' || 'A' <= c <= 'Z' || '0' <= c <= '9'
}

/// `char::is_alphanumeric` of the standard library says of a character whether it is alphabetic or
/// numeric in Unicode; of an ASCII character, whether it is a letter or a digit.
pub assume_specification[ char::is_alphanumeric ](c: char) -> (r: bool)
    ensures
        r == unicode_alphanumeric(c),
        c as int <= 127 ==> r == ascii_alphanumeric(c),
;

/// Whether every character is a letter, a digit or an underscore.
pub open spec fn username_spelling(username: Seq<char>) -> bool {
    forall|i: int|
        0 <= i < username.len() ==> unicode_alphanumeric(#[trigger] username[i]) || username[i]
            == '_'
}

/// Whether every ASCII character is a letter, a digit or an underscore.
pub open spec fn ascii_spelling(username: Seq<char>) -> bool {
    forall|i: int|
        0 <= i < username.len() && #[trigger] username[i] as int <= 127 ==> ascii_alphanumeric(
            username[i],
        ) || username[i] == '_'
}

/// Why an account cannot have this name and password, if it cannot. Lengths count bytes of UTF-8.
pub open spec fn registration_refusal(username: Seq<char>, password: Seq<char>) -> Option<
    Seq<char>,
> {
    if encode_utf8(username).len() < 3 || encode_utf8(username).len() > 32 {
        Some("Username must be 3-32 characters"@)
    } else if !username_spelling(username) {
        Some("Username can only contain letters, numbers, and underscores"@)
    } else if encode_utf8(password).len() < 8 {
        Some("Password must be at least 8 characters"@)
    } else {
        None
    }
}

/// Why an account cannot be created before its password is even hashed, if it cannot.
pub open spec fn creation_refusal(
    access: Access,
    username: Seq<char>,
    password: Seq<char>,
) -> Option<Seq<char>> {
    match access_refusal(access) {
        Some(e) => Some(e),
        None => registration_refusal(username, password),
    }
}

/// Whether a name is one of three to 32 ASCII letters, digits and underscores.
pub open spec fn plain_name(username: Seq<char>) -> bool {
    is_ascii_chars(username) && ascii_spelling(username) && 3 <= username.len() <= 32
}

/// Whether the database can be worked and an account is asked for with a plain name and a password
/// of eight bytes or more.
pub open spec fn plainly_acceptable(
    access: Access,
    username: Seq<char>,
    password: Seq<char>,
) -> bool {
    access_refusal(access) is None && plain_name(username) && encode_utf8(password).len() >= 8
}

/// Whether every character of a name is a letter, a digit or an underscore.
pub fn is_spelled_well(username: &str) -> (r: bool)
    ensures
        r == username_spelling(username@),
        r ==> ascii_spelling(username@),
        is_ascii_chars(username@) && ascii_spelling(username@) ==> r,
{
    for c in it: username.chars()
        invariant
            it.seq() == username@,
            username_spelling(username@.take(it.index())),
            ascii_spelling(username@.take(it.index())),
    {
        let ghost before = username@.take(it.index());
        assert(username@.take(it.index() + 1) =~= before.push(c));
        if !(c.is_alphanumeric() || c == '_') {
            assert(username@[it.index()] == c);
            assert(is_ascii_chars(username@) ==> c as int <= 127);
            return false;
        }
    }
    assert(username@.take(username@.len() as int) =~= username@);
    true
}

/// Says why an account cannot be created before its password is even hashed, if it cannot.
pub fn refuse_creation(access: &Access, username: &str, password: &str) -> (r: Option<String>)
    ensures
        r is Some <==> creation_refusal(*access, username@, password@) is Some,
        r matches Some(e) ==> creation_refusal(*access, username@, password@) == Some(e@),
        r is None ==> ascii_spelling(username@),
        plainly_acceptable(*access, username@, password@) ==> r is None,
{
    proof {
        if is_ascii_chars(username@) {
            is_ascii_chars_encode_utf8(username@);
        }
    }
    match refuse_access(access) {
        Some(e) => return Some(e),
        None => {},
    }
    let name_bytes: usize = username.as_bytes().len();
    if name_bytes < 3 || name_bytes > 32 {
        return Some("Username must be 3-32 characters".to_owned());
    }
    if !is_spelled_well(username) {
        return Some("Username can only contain letters, numbers, and underscores".to_owned());
    }
    if password.as_bytes().len() < 8 {
        return Some("Password must be at least 8 characters".to_owned());
    }
    None
}

/// An account that is being created.
#[derive(Debug, Clone)]
pub enum NewUser {
    /// The account itself is being added.
    AddingAccount,
    /// The account is there; its preferences are being added.
    AddingPreferences { user_id: i64 },
}

/// The next thing to do to create an account.
#[derive(Debug)]
pub enum NewUserStep {
    Run(Request, NewUser),
    Done(Result<i64, String>),
}

/// An account that is being created, as characters and numbers.
pub enum NewUserView {
    AddingAccount,
    AddingPreferences { user_id: i64 },
}

/// The next thing to do to create an account, as characters and numbers.
pub enum NewUserStepView {
    Run(Op, NewUserView),
    Done(Result<i64, Seq<char>>),
}

impl View for NewUser {
    type V = NewUserView;

    open spec fn view(&self) -> NewUserView {
        match self {
            NewUser::AddingAccount => NewUserView::AddingAccount,
            NewUser::AddingPreferences { user_id } => NewUserView::AddingPreferences {
                user_id: *user_id,
            },
        }
    }
}

impl View for NewUserStep {
    type V = NewUserStepView;

    open spec fn view(&self) -> NewUserStepView {
        match self {
            NewUserStep::Run(request, state) => NewUserStepView::Run(request@, state@),
            NewUserStep::Done(r) => NewUserStepView::Done(change_text(*r)),
        }
    }
}

/// The first step of creating an account, once it is known how hashing its password went.
pub open spec fn creation_start(
    username: Seq<char>,
    hashed: Result<Seq<char>, Seq<char>>,
) -> NewUserStepView {
    match hashed {
        Err(e) => NewUserStepView::Done(Err(e)),
        Ok(hash) => NewUserStepView::Run(
            Op::InsertUser { username, password_hash: hash },
            NewUserView::AddingAccount,
        ),
    }
}

/// Begins to add an account, once it is known how hashing its password went.
pub fn add_account(username: &str, hashed: Result<String, String>) -> (r: NewUserStep)
    ensures
        r@ == creation_start(username@, text_result(hashed)),
{
    match hashed {
        Err(e) => NewUserStep::Done(Err(e)),
        Ok(hash) => NewUserStep::Run(
            Request::InsertUser { username: username.to_owned(), password_hash: hash },
            NewUser::AddingAccount,
        ),
    }
}

/// Begins to create an account. Where the name or the password is refused, that is the result;
/// otherwise the account is added with a hash that accepts the password.
pub fn create_user(access: &Access, username: &str, password: &str) -> (r: NewUserStep)
    ensures
        match creation_refusal(*access, username@, password@) {
            Some(e) => r@ == NewUserStepView::Done(Err(e)),
            None => exists|hashed: Result<Seq<char>, Seq<char>>| #[trigger]
                freshly_hashed(password@, hashed) && (hashable(password@) ==> hashed is Ok) && r@
                    == creation_start(username@, hashed),
        },
        creation_refusal(*access, username@, password@) is None && hashable(password@) ==> r@
            is Run,
        plainly_acceptable(*access, username@, password@) && hashable(password@) ==> r@ is Run,
        r@ matches NewUserStepView::Run(op, _) ==> password_matches(
            password@,
            op->InsertUser_password_hash,
        ),
        r@ is Run ==> ascii_spelling(username@),
{
    match refuse_creation(access, username, password) {
        Some(e) => NewUserStep::Done(Err(e)),
        None => {
            let hashed = hash_password(password);
            assert(freshly_hashed(password@, text_result(hashed)));
            add_account(username, hashed)
        },
    }
}

/// What comes of creating an account after the database's reply.
pub open spec fn creation_next(
    state: NewUserView,
    reply: Result<i64, Seq<char>>,
) -> NewUserStepView {
    match state {
        NewUserView::AddingAccount => match reply {
            Err(e) => NewUserStepView::Done(Err(creation_failure(e))),
            Ok(id) => NewUserStepView::Run(
                Op::InsertPreferences { user_id: id },
                NewUserView::AddingPreferences { user_id: id },
            ),
        },
        NewUserView::AddingPreferences { user_id } => match reply {
            Err(e) => NewUserStepView::Done(
                Err(failure_text(Op::InsertPreferences { user_id }, e)),
            ),
            Ok(_) => NewUserStepView::Done(Ok(user_id)),
        },
    }
}

/// Goes on creating an account after the database's reply: the number of the row it added last, or
/// an error.
pub fn resume_create_user(state: NewUser, reply: Result<i64, String>) -> (r: NewUserStep)
    ensures
        r@ == creation_next(state@, change_text(reply)),
{
    match state {
        NewUser::AddingAccount => match reply {
            Err(e) => NewUserStep::Done(Err(describe_creation_failure(e.as_str()))),
            Ok(id) => NewUserStep::Run(
                Request::InsertPreferences { user_id: id },
                NewUser::AddingPreferences { user_id: id },
            ),
        },
        NewUser::AddingPreferences { user_id } => match reply {
            Err(e) => NewUserStep::Done(
                Err(describe_failure(&Request::InsertPreferences { user_id }, e.as_str())),
            ),
            Ok(_) => NewUserStep::Done(Ok(user_id)),
        },
    }
}

// ---------------------------------------------------------------------------------------------
// Logging in
// ---------------------------------------------------------------------------------------------
/// What an account holder gives to log in.
#[derive(Debug, Clone)]
pub enum Credential {
    Password(String),
    Code { user_id: i64, code: String },
}

/// What an account holder gives to log in, as characters and numbers.
pub enum CredentialView {
    Password(Seq<char>),
    Code { user_id: i64, code: Seq<char> },
}

impl View for Credential {
    type V = CredentialView;

    open spec fn view(&self) -> CredentialView {
        match self {
            Credential::Password(p) => CredentialView::Password(p@),
            Credential::Code { user_id, code } => CredentialView::Code {
                user_id: *user_id,
                code: code@,
            },
        }
    }
}

/// Whether a credential has the form of one that can open an account: a code is six digits.
pub open spec fn well_formed(credential: CredentialView) -> bool {
    credential matches CredentialView::Code { code, .. } ==> code_form(DIGITS as nat, code)
}

/// A session that is being stored.
#[derive(Debug, Clone)]
pub struct PendingSession {
    pub account: UserAccount,
    pub token: String,
}

/// The next thing to do to log in.
#[derive(Debug)]
pub enum LoginStep {
    /// Look an account up.
    Lookup(Request, Credential),
    /// Store a session.
    Store(Request, PendingSession),
    Done(AuthResult),
    /// The machine fails.
    Fault(Fault),
}

/// The next thing to do to log in, as characters and numbers.
pub enum LoginStepView {
    Lookup(Op, CredentialView),
    Store(Op, UserAccountView, Seq<char>),
    Done(AuthResultView),
    Fault(Fault),
}

impl View for LoginStep {
    type V = LoginStepView;

    open spec fn view(&self) -> LoginStepView {
        match self {
            LoginStep::Lookup(request, credential) => LoginStepView::Lookup(
                request@,
                credential@,
            ),
            LoginStep::Store(request, pending) => LoginStepView::Store(
                request@,
                pending.account@,
                pending.token@,
            ),
            LoginStep::Done(r) => LoginStepView::Done(r@),
            LoginStep::Fault(f) => LoginStepView::Fault(*f),
        }
    }
}

/// The first step of a login.
pub open spec fn login_start(access: Access, op: Op, credential: CredentialView) -> LoginStepView {
    match access_refusal(access) {
        Some(e) => LoginStepView::Done(AuthResultView::DatabaseError(e)),
        None => LoginStepView::Lookup(op, credential),
    }
}

/// Begins to log in with a name and a password.
pub fn authenticate_user(access: &Access, username: &str, password: &str) -> (r: LoginStep)
    ensures
        r@ == login_start(
            *access,
            Op::FindUserByName { username: username@ },
            CredentialView::Password(password@),
        ),
{
    match refuse_access(access) {
        Some(e) => LoginStep::Done(AuthResult::DatabaseError(e)),
        None => LoginStep::Lookup(
            Request::FindUserByName { username: username.to_owned() },
            Credential::Password(password.to_owned()),
        ),
    }
}

/// Begins to log in with a code, after the password of the account was right.
pub fn verify_totp_and_login(access: &Access, user_id: i64, code: &str) -> (r: LoginStep)
    ensures
        r@ == login_start(
            *access,
            Op::FindUserById { user_id },
            CredentialView::Code { user_id, code: code@ },
        ),
{
    match refuse_access(access) {
        Some(e) => LoginStep::Done(AuthResult::DatabaseError(e)),
        None => LoginStep::Lookup(
            Request::FindUserById { user_id },
            Credential::Code { user_id, code: code.to_owned() },
        ),
    }
}

/// What the database knows of an account that was looked up by its name.
#[derive(Debug, Clone)]
pub struct NamedUser {
    pub id: i64,
    pub username: String,
    pub password_hash: String,
    pub totp_enabled: bool,
}

/// What the database knows of an account that was looked up by its name, as characters and numbers.
pub struct NamedUserView {
    pub id: i64,
    pub username: Seq<char>,
    pub password_hash: Seq<char>,
    pub totp_enabled: bool,
}

impl View for NamedUser {
    type V = NamedUserView;

    open spec fn view(&self) -> NamedUserView {
        NamedUserView {
            id: self.id,
            username: self.username@,
            password_hash: self.password_hash@,
            totp_enabled: self.totp_enabled,
        }
    }
}

/// The account in a row of `FIND_USER_BY_NAME`.
pub open spec fn named_user(row: Seq<Cell>) -> Option<NamedUserView> {
    match (integer_at(row, 0), text_at(row, 1), text_at(row, 2), flag_at(row, 3)) {
        (Some(id), Some(username), Some(password_hash), Some(totp_enabled)) => Some(
            NamedUserView { id, username, password_hash, totp_enabled },
        ),
        _ => None,
    }
}

/// Reads an account from a row of `FIND_USER_BY_NAME`.
pub fn read_named_user(row: &Vec<Value>) -> (r: Option<NamedUser>)
    ensures
        r is Some <==> named_user(cells(row@)) is Some,
        r matches Some(u) ==> named_user(cells(row@)) == Some(u@),
{
    match (read_integer(row, 0), read_text(row, 1), read_text(row, 2), read_flag(row, 3)) {
        (Some(id), Some(username), Some(password_hash), Some(totp_enabled)) => Some(
            NamedUser { id, username, password_hash, totp_enabled },
        ),
        _ => None,
    }
}

/// The name and the secret in a row of `FIND_USER_BY_ID`.
pub open spec fn coded_user(row: Seq<Cell>) -> Option<(Seq<char>, Seq<char>)> {
    match (text_at(row, 0), text_at(row, 1), text_at(row, 2)) {
        (Some(username), Some(secret), Some(_)) => Some((username, secret)),
        _ => None,
    }
}

/// Reads the name and the secret from a row of `FIND_USER_BY_ID`.
pub fn read_coded_user(row: &Vec<Value>) -> (r: Option<(String, String)>)
    ensures
        r is Some <==> coded_user(cells(row@)) is Some,
        r matches Some((username, secret)) ==> coded_user(cells(row@)) == Some(
            (username@, secret@),
        ),
{
    match (read_text(row, 0), read_text(row, 1), read_text(row, 2)) {
        (Some(username), Some(secret), Some(_)) => Some((username, secret)),
        _ => None,
    }
}

/// Whether a credential opens an account.
#[derive(Debug)]
pub enum Verdict {
    Accepted(UserAccount),
    Refused(AuthResult),
}

/// Whether a credential opens an account, as characters and numbers.
pub enum VerdictView {
    Accepted(UserAccountView),
    Refused(AuthResultView),
}

impl View for Verdict {
    type V = VerdictView;

    open spec fn view(&self) -> VerdictView {
        match self {
            Verdict::Accepted(u) => VerdictView::Accepted(u@),
            Verdict::Refused(r) => VerdictView::Refused(r@),
        }
    }
}

/// What a password does for an account: a wrong one is refused, a right one opens the account
/// unless it also needs a code.
pub open spec fn password_verdict(user: NamedUserView, right: bool) -> VerdictView {
    if !right {
        VerdictView::Refused(AuthResultView::InvalidCredentials)
    } else if user.totp_enabled {
        VerdictView::Refused(AuthResultView::RequiresTwoFactor(user.id))
    } else {
        VerdictView::Accepted(
            UserAccountView { id: user.id, username: user.username, totp_enabled: false },
        )
    }
}

/// Decides on a password of which it is known whether it is right.
pub fn judge_password(user: NamedUser, right: bool) -> (r: Verdict)
    ensures
        r@ == password_verdict(user@, right),
{
    if !right {
        Verdict::Refused(AuthResult::InvalidCredentials)
    } else if user.totp_enabled {
        Verdict::Refused(AuthResult::RequiresTwoFactor(user.id))
    } else {
        Verdict::Accepted(
            UserAccount {
                id: user.id,
                username: user.username,
                totp_enabled: user.totp_enabled,
            },
        )
    }
}

/// What a code does for an account.
pub open spec fn code_verdict(
    user_id: i64,
    username: Seq<char>,
    checked: Result<bool, Seq<char>>,
) -> VerdictView {
    match checked {
        Ok(true) => VerdictView::Accepted(
            UserAccountView { id: user_id, username, totp_enabled: true },
        ),
        Ok(false) => VerdictView::Refused(AuthResultView::InvalidCredentials),
        Err(e) => VerdictView::Refused(AuthResultView::DatabaseError(e)),
    }
}

/// Decides on a code that was checked.
pub fn judge_code(user_id: i64, username: String, checked: Result<bool, String>) -> (r: Verdict)
    ensures
        r@ == code_verdict(user_id, username@, verdict_text(checked)),
{
    match checked {
        Ok(true) => Verdict::Accepted(UserAccount { id: user_id, username, totp_enabled: true }),
        Ok(false) => Verdict::Refused(AuthResult::InvalidCredentials),
        Err(e) => Verdict::Refused(AuthResult::DatabaseError(e)),
    }
}

/// Whether a credential opens the account that was looked up. An account that was not found, or
/// whose data cannot be read, is answered as a wrong credential is.
pub open spec fn credential_verdict(
    credential: CredentialView,
    reply: Result<Option<Seq<Cell>>, Seq<char>>,
    clock: Option<u64>,
) -> VerdictView {
    let refused = VerdictView::Refused(AuthResultView::InvalidCredentials);
    match found_row(reply) {
        None => refused,
        Some(row) => match credential {
            CredentialView::Password(password) => match named_user(row) {
                Some(user) => password_verdict(
                    user,
                    password_matches(password, user.password_hash),
                ),
                None => refused,
            },
            CredentialView::Code { user_id, code } => match coded_user(row) {
                Some((username, secret)) => code_verdict(
                    user_id,
                    username,
                    totp_verdict(secret, code, usable_clock(clock)),
                ),
                None => refused,
            },
        },
    }
}

/// Decides whether a credential opens the account that was looked up, at a reading of the clock.
pub fn judge_credential(
    credential: &Credential,
    reply: Result<Option<Vec<Value>>, String>,
    clock: Option<u64>,
) -> (r: Verdict)
    ensures
        r@ == credential_verdict(credential@, row_text(reply), clock),
        r@ is Accepted ==> well_formed(credential@),
{
    let row: Vec<Value> = match reply {
        Ok(Some(row)) => row,
        _ => return Verdict::Refused(AuthResult::InvalidCredentials),
    };
    match credential {
        Credential::Password(password) => match read_named_user(&row) {
            Some(user) => {
                let right = verify_password(password.as_str(), user.password_hash.as_str());
                judge_password(user, right)
            },
            None => Verdict::Refused(AuthResult::InvalidCredentials),
        },
        Credential::Code { user_id, code } => match read_coded_user(&row) {
            Some((username, secret)) => {
                let checked = verify_totp_code_at(
                    secret.as_str(),
                    code.as_str(),
                    code_clock(clock),
                );
                judge_code(*user_id, username, checked)
            },
            None => Verdict::Refused(AuthResult::InvalidCredentials),
        },
    }
}

/// The step that opens a session for an account, with the token that was drawn and at a reading of
/// the clock.
pub open spec fn session_start(
    account: UserAccountView,
    token: Result<Seq<char>, Fault>,
    clock: Option<u64>,
) -> LoginStepView {
    match token {
        Err(fault) => LoginStepView::Fault(fault),
        Ok(t) => match session_end(clock) {
            None => LoginStepView::Fault(Fault::ClockOutOfRange),
            Some(end) => LoginStepView::Store(
                Op::InsertSession { user_id: account.id, token: t, expires_at: end },
                account,
                t,
            ),
        },
    }
}

/// Opens a session for an account, with the token that was drawn and at a reading of the clock.
pub fn create_session(
    account: UserAccount,
    token: Result<String, Fault>,
    clock: Option<u64>,
) -> (r: LoginStep)
    ensures
        r@ == session_start(account@, token_text(token), clock),
{
    match token {
        Err(fault) => LoginStep::Fault(fault),
        Ok(t) => match session_end_at(clock) {
            None => LoginStep::Fault(Fault::ClockOutOfRange),
            Some(end) => {
                let copy = t.clone();
                LoginStep::Store(
                    Request::InsertSession { user_id: account.id, token: t, expires_at: end },
                    PendingSession { account, token: copy },
                )
            },
        },
    }
}

/// Whether a step is what a decision on a credential leads to, for some token that was drawn and
/// some reading of the clock.
pub open spec fn follows_verdict(verdict: VerdictView, step: LoginStepView) -> bool {
    match verdict {
        VerdictView::Refused(r) => step == LoginStepView::Done(r),
        VerdictView::Accepted(account) => exists|
            token: Result<Seq<char>, Fault>,
            clock: Option<u64>,
        |
            drawn(token) && clock_reading(clock) && step == #[trigger] session_start(
                account,
                token,
                clock,
            ),
    }
}

/// Goes on to log in after the account was looked up: checks the credential and, where it opens the
/// account, opens a session.
pub fn check_credential(
    credential: &Credential,
    reply: Result<Option<Vec<Value>>, String>,
) -> (r: LoginStep)
    ensures
        exists|clock: Option<u64>| #[trigger]
            clock_reading(clock) && follows_verdict(
                credential_verdict(credential@, row_text(reply), clock),
                r@,
            ),
        r@ is Store ==> well_formed(credential@),
{
    let clock: Option<u64> = read_clock();
    match judge_credential(credential, reply, clock) {
        Verdict::Refused(result) => {
            let r = LoginStep::Done(result);
            assert(follows_verdict(credential_verdict(credential@, row_text(reply), clock), r@));
            r
        },
        Verdict::Accepted(account) => {
            let token = generate_session_token();
            assert(drawn(token_text(token)));
            let opened: Option<u64> = read_clock();
            let r = create_session(account, token, opened);
            assert(follows_verdict(credential_verdict(credential@, row_text(reply), clock), r@));
            r
        },
    }
}

/// What comes of a login after the database's reply on the session.
pub open spec fn login_end(
    account: UserAccountView,
    token: Seq<char>,
    reply: Result<i64, Seq<char>>,
) -> AuthResultView {
    match reply {
        Ok(_) => AuthResultView::Success(account, token),
        Err(e) => AuthResultView::DatabaseError("Failed to create session: "@ + e),
    }
}

/// Ends a login after the database's reply on the session.
pub fn finish_login(pending: PendingSession, reply: Result<i64, String>) -> (r: AuthResult)
    ensures
        r@ == login_end(pending.account@, pending.token@, change_text(reply)),
{
    match reply {
        Ok(_) => AuthResult::Success(pending.account, pending.token),
        Err(e) => AuthResult::DatabaseError(join("Failed to create session: ", e.as_str())),
    }
}

// ---------------------------------------------------------------------------------------------
// Sessions
// ---------------------------------------------------------------------------------------------
/// The lookup of a session at a reading of the clock, where the database can be worked.
pub open spec fn session_lookup(access: Access, token: Seq<char>, clock: Option<u64>) -> Option<
    Op,
> {
    match access_refusal(access) {
        Some(_) => None,
        None => Some(Op::FindSession { token, now: unix_time(clock) }),
    }
}

/// Begins to look for the account of a session, at a reading of the clock.
pub fn validate_session_at(access: &Access, token: &str, clock: Option<u64>) -> (r: Option<
    Request,
>)
    ensures
        request_view(r) == session_lookup(*access, token@, clock),
{
    match refuse_access(access) {
        Some(_) => None,
        None => Some(Request::FindSession { token: token.to_owned(), now: seconds_of(clock) }),
    }
}

/// Begins to look for the account of a session.
pub fn validate_session(access: &Access, token: &str) -> (r: Option<Request>)
    ensures
        exists|clock: Option<u64>| #[trigger]
            clock_reading(clock) && request_view(r) == session_lookup(*access, token@, clock),
{
    let clock: Option<u64> = read_clock();
    validate_session_at(access, token, clock)
}

/// The account in a row of `FIND_SESSION`.
pub open spec fn session_user(row: Seq<Cell>) -> Option<UserAccountView> {
    match (integer_at(row, 0), text_at(row, 1), flag_at(row, 2)) {
        (Some(id), Some(username), Some(totp_enabled)) => Some(
            UserAccountView { id, username, totp_enabled },
        ),
        _ => None,
    }
}

/// The account of a session that was looked up.
pub open spec fn session_answer(reply: Result<Option<Seq<Cell>>, Seq<char>>) -> Option<
    UserAccountView,
> {
    match found_row(reply) {
        Some(row) => session_user(row),
        None => None,
    }
}

/// Gives the account of a session that was looked up.
pub fn validated_user(reply: Result<Option<Vec<Value>>, String>) -> (r: Option<UserAccount>)
    ensures
        account_view(r) == session_answer(row_text(reply)),
{
    match reply {
        Ok(Some(row)) => match (read_integer(&row, 0), read_text(&row, 1), read_flag(&row, 2)) {
            (Some(id), Some(username), Some(totp_enabled)) => Some(
                UserAccount { id, username, totp_enabled },
            ),
            _ => None,
        },
        _ => None,
    }
}

/// Begins to end a session.
pub fn delete_session(access: &Access, token: &str) -> (r: Result<Request, String>)
    ensures
        ask_text(r) == ask(*access, Op::DeleteSession { token: token@ }),
{
    ask_database(access, Request::DeleteSession { token: token.to_owned() })
}

// ---------------------------------------------------------------------------------------------
// One-time passwords
// ---------------------------------------------------------------------------------------------
/// Turning one-time passwords on: the code is checked before the database is asked for.
pub open spec fn totp_enabling(
    access: Access,
    user_id: i64,
    secret: Seq<char>,
    checked: Result<bool, Seq<char>>,
) -> Result<Op, Seq<char>> {
    match checked {
        Err(e) => Err(e),
        Ok(false) => Err("Invalid verification code"@),
        Ok(true) => ask(access, Op::EnableTotp { user_id, secret }),
    }
}

/// Begins to turn one-time passwords on, once the code was checked.
pub fn enable_totp_checked(
    access: &Access,
    user_id: i64,
    secret: &str,
    checked: Result<bool, String>,
) -> (r: Result<Request, String>)
    ensures
        ask_text(r) == totp_enabling(*access, user_id, secret@, verdict_text(checked)),
{
    match checked {
        Err(e) => Err(e),
        Ok(false) => Err("Invalid verification code".to_owned()),
        Ok(true) => ask_database(
            access,
            Request::EnableTotp { user_id, secret: secret.to_owned() },
        ),
    }
}

/// Begins to turn one-time passwords on for an account that gives a code of the secret.
pub fn enable_totp(access: &Access, user_id: i64, secret: &str, code: &str) -> (r: Result<
    Request,
    String,
>)
    ensures
        exists|clock: Option<u64>| #[trigger]
            clock_reading(clock) && ask_text(r) == totp_enabling(
                *access,
                user_id,
                secret@,
                totp_verdict(secret@, code@, usable_clock(clock)),
            ),
        r is Ok ==> code_form(DIGITS as nat, code@),
{
    let checked = verify_totp_code(secret, code);
    enable_totp_checked(access, user_id, secret, checked)
}

/// Begins to turn one-time passwords off.
pub fn disable_totp(access: &Access, user_id: i64) -> (r: Result<Request, String>)
    ensures
        ask_text(r) == ask(*access, Op::DisableTotp { user_id }),
{
    ask_database(access, Request::DisableTotp { user_id })
}

// ---------------------------------------------------------------------------------------------
// Subscriptions and filters
// ---------------------------------------------------------------------------------------------
/// Begins to list the subscriptions of an account.
pub fn get_user_subscriptions(access: &Access, user_id: i64) -> (r: Result<Request, String>)
    ensures
        ask_text(r) == ask(*access, Op::ListNames { list: NameList::Subscriptions, user_id }),
{
    ask_database(access, Request::ListNames { list: NameList::Subscriptions, user_id })
}

/// Begins to add a subscription.
pub fn add_subscription(access: &Access, user_id: i64, subreddit: &str) -> (r: Result<
    Request,
    String,
>)
    ensures
        ask_text(r) == ask(
            *access,
            Op::AddName { list: NameList::Subscriptions, user_id, subreddit: subreddit@ },
        ),
{
    ask_database(
        access,
        Request::AddName {
            list: NameList::Subscriptions,
            user_id,
            subreddit: subreddit.to_owned(),
        },
    )
}

/// Begins to remove a subscription.
pub fn remove_subscription(access: &Access, user_id: i64, subreddit: &str) -> (r: Result<
    Request,
    String,
>)
    ensures
        ask_text(r) == ask(
            *access,
            Op::RemoveName { list: NameList::Subscriptions, user_id, subreddit: subreddit@ },
        ),
{
    ask_database(
        access,
        Request::RemoveName {
            list: NameList::Subscriptions,
            user_id,
            subreddit: subreddit.to_owned(),
        },
    )
}

/// Begins to list the filters of an account.
pub fn get_user_filters(access: &Access, user_id: i64) -> (r: Result<Request, String>)
    ensures
        ask_text(r) == ask(*access, Op::ListNames { list: NameList::Filters, user_id }),
{
    ask_database(access, Request::ListNames { list: NameList::Filters, user_id })
}

/// Begins to add a filter.
pub fn add_filter(access: &Access, user_id: i64, subreddit: &str) -> (r: Result<Request, String>)
    ensures
        ask_text(r) == ask(
            *access,
            Op::AddName { list: NameList::Filters, user_id, subreddit: subreddit@ },
        ),
{
    ask_database(
        access,
        Request::AddName { list: NameList::Filters, user_id, subreddit: subreddit.to_owned() },
    )
}

/// Begins to remove a filter.
pub fn remove_filter(access: &Access, user_id: i64, subreddit: &str) -> (r: Result<
    Request,
    String,
>)
    ensures
        ask_text(r) == ask(
            *access,
            Op::RemoveName { list: NameList::Filters, user_id, subreddit: subreddit@ },
        ),
{
    ask_database(
        access,
        Request::RemoveName { list: NameList::Filters, user_id, subreddit: subreddit.to_owned() },
    )
}

/// Rows as characters and numbers.
pub open spec fn rows_view(rows: Seq<Vec<Value>>) -> Seq<Seq<Cell>> {
    Seq::new(rows.len(), |i: int| cells(rows[i]@))
}

/// The names in rows of a list, in order. A row that holds no name is passed over.
pub open spec fn names_in(rows: Seq<Seq<Cell>>) -> Seq<Seq<char>>
    decreases rows.len(),
{
    if rows.len() == 0 {
        seq![]
    } else {
        match text_at(rows.last(), 0) {
            Some(name) => names_in(rows.drop_last()).push(name),
            None => names_in(rows.drop_last()),
        }
    }
}

/// Texts as characters.
pub open spec fn texts(v: Seq<String>) -> Seq<Seq<char>> {
    Seq::new(v.len(), |i: int| v[i]@)
}

/// Gives the names in rows of a list.
pub fn read_names(rows: &Vec<Vec<Value>>) -> (r: Vec<String>)
    ensures
        texts(r@) == names_in(rows_view(rows@)),
{
    let mut names: Vec<String> = Vec::new();
    let mut i: usize = 0;
    assert(texts(names@) =~= names_in(rows_view(rows@).take(0)));
    while i < rows.len()
        invariant
            i <= rows@.len(),
            texts(names@) == names_in(rows_view(rows@).take(i as int)),
        decreases rows@.len() - i,
    {
        let ghost before = names@;
        let ghost all = rows_view(rows@);
        assert(all.take(i + 1).drop_last() =~= all.take(i as int));
        assert(all.take(i + 1).last() == cells(rows@[i as int]@));
        match read_text(&rows[i], 0) {
            Some(name) => {
                names.push(name);
                assert(texts(names@) =~= texts(before).push(name@));
            },
            None => {},
        }
        i += 1;
    }
    assert(rows_view(rows@).take(rows@.len() as int) =~= rows_view(rows@));
    names
}

/// Names, or the text of an error, as characters.
pub open spec fn names_text(r: Result<Vec<String>, String>) -> Result<Seq<Seq<char>>, Seq<char>> {
    match r {
        Ok(names) => Ok(texts(names@)),
        Err(e) => Err(e@),
    }
}

/// What comes of listing names after the database's reply.
pub open spec fn list_answer(reply: Result<Seq<Seq<Cell>>, Seq<char>>) -> Result<
    Seq<Seq<char>>,
    Seq<char>,
> {
    match reply {
        Ok(rows) => Ok(names_in(rows)),
        Err(e) => Err("Query error: "@ + e),
    }
}

/// Rows, or the text of an error, as characters and numbers.
pub open spec fn rows_text(reply: Result<Vec<Vec<Value>>, String>) -> Result<
    Seq<Seq<Cell>>,
    Seq<char>,
> {
    match reply {
        Ok(rows) => Ok(rows_view(rows@)),
        Err(e) => Err(e@),
    }
}

/// Ends a listing after the database's reply.
pub fn listed_names(reply: Result<Vec<Vec<Value>>, String>) -> (r: Result<Vec<String>, String>)
    ensures
        names_text(r) == list_answer(rows_text(reply)),
{
    match reply {
        Ok(rows) => Ok(read_names(&rows)),
        Err(e) => Err(join("Query error: ", e.as_str())),
    }
}

} // verus!
