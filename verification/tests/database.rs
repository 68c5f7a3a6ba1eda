//! The operations run against a real database.

use accounts::db::{
    add_account, add_filter, add_subscription, authenticate_user, check_credential, create_session,
    create_user, delete_session, disable_totp, enable_totp, enable_totp_checked, finish_login,
    get_user_filters, get_user_subscriptions, initialize_database, is_auth_required, is_db_enabled,
    judge_code, judge_credential, judge_password, listed_names, open_pool, refuse_access,
    refuse_creation, remove_filter, remove_subscription, resume_create_user, validate_session,
    validate_session_at, validated_user, verify_totp_and_login, Access, AuthResult, Credential,
    LoginStep, NamedUser, NewUser, NewUserStep, OpenStep, Pool, UserAccount, Verdict,
};
use accounts::request::{describe_failure, finish, statement, NameList, Request};
use accounts::session::Fault;
use accounts::sql::{read_flag, read_integer, read_text, schema_statement, Value};
use rusqlite::types::{Value as Stored, ValueRef};
use rusqlite::Connection;

const SECRET: &str = "GEZDGNBVGY3TQOJQGEZDGNBVGY3TQOJQ";

fn bound(value: &Value) -> Stored {
    match value {
        Value::Null | Value::Other => Stored::Null,
        Value::Integer(n) => Stored::Integer(*n),
        Value::Text(t) => Stored::Text(t.clone()),
    }
}

fn read(value: ValueRef<'_>) -> Value {
    match value {
        ValueRef::Null => Value::Null,
        ValueRef::Integer(n) => Value::Integer(n),
        ValueRef::Text(t) => Value::Text(String::from_utf8(t.to_vec()).unwrap()),
        _ => Value::Other,
    }
}

fn change(conn: &Connection, request: &Request) -> Result<i64, String> {
    let s = statement(request);
    conn.execute(s.sql, rusqlite::params_from_iter(s.params.iter().map(bound)))
        .map(|_| conn.last_insert_rowid())
        .map_err(|e| e.to_string())
}

fn rows(conn: &Connection, request: &Request) -> Result<Vec<Vec<Value>>, String> {
    let s = statement(request);
    let mut prepared = conn.prepare(s.sql).map_err(|e| e.to_string())?;
    let columns = prepared.column_count();
    let found = prepared
        .query_map(rusqlite::params_from_iter(s.params.iter().map(bound)), |row| {
            (0..columns).map(|i| row.get_ref(i).map(read)).collect::<rusqlite::Result<Vec<Value>>>()
        })
        .map_err(|e| e.to_string())?;
    found.collect::<rusqlite::Result<Vec<Vec<Value>>>>().map_err(|e| e.to_string())
}

fn lookup(conn: &Connection, request: &Request) -> Result<Option<Vec<Value>>, String> {
    rows(conn, request).map(|found| found.into_iter().next())
}

fn opened() -> Connection {
    let conn = Connection::open_in_memory().unwrap();
    let mut step = initialize_database(0, Ok(()));
    let mut ran = 0;
    loop {
        match step {
            OpenStep::Run { sql, done } => {
                ran += 1;
                let went = conn.execute(sql, []).map(|_| ()).map_err(|e| e.to_string());
                step = initialize_database(done, went);
            }
            OpenStep::Done(pool) => {
                assert!(matches!(pool, Pool::Ready));
                break;
            }
            OpenStep::Open(_) => panic!("already open"),
        }
    }
    assert_eq!(ran, 9);
    conn
}

fn register(conn: &Connection, username: &str, password: &str) -> Result<i64, String> {
    let mut step = create_user(&Access::Granted, username, password);
    loop {
        match step {
            NewUserStep::Run(request, state) => {
                step = resume_create_user(state, change(conn, &request));
            }
            NewUserStep::Done(r) => return r,
        }
    }
}

fn run_login(conn: &Connection, mut step: LoginStep) -> AuthResult {
    loop {
        match step {
            LoginStep::Lookup(request, credential) => {
                step = check_credential(&credential, lookup(conn, &request));
            }
            LoginStep::Store(request, pending) => {
                return finish_login(pending, change(conn, &request));
            }
            LoginStep::Done(r) => return r,
            LoginStep::Fault(f) => panic!("{:?}", f),
        }
    }
}

fn log_in(conn: &Connection, username: &str, password: &str) -> AuthResult {
    run_login(conn, authenticate_user(&Access::Granted, username, password))
}

fn seen(conn: &Connection, token: &str) -> Option<UserAccount> {
    let request = validate_session(&Access::Granted, token).unwrap();
    validated_user(lookup(conn, &request))
}

fn names(conn: &Connection, request: Result<Request, String>) -> Vec<String> {
    listed_names(rows(conn, &request.unwrap())).unwrap()
}

fn apply(conn: &Connection, request: Result<Request, String>) {
    let request = request.unwrap();
    finish(&request, change(conn, &request)).unwrap();
}

fn current_code() -> String {
    let secret = totp_rs::Secret::Encoded(SECRET.to_string()).to_bytes().unwrap();
    totp_rs::TOTP::new(totp_rs::Algorithm::SHA1, 6, 1, 30, secret, None, String::new())
        .unwrap()
        .generate_current()
        .unwrap()
}

// -------------------------------------------------------------------------------------- opening

#[test]
fn opening_follows_the_setting() {
    assert!(matches!(open_pool(Some("a.db")), OpenStep::Open(path) if path == "a.db"));
    match open_pool(None) {
        OpenStep::Done(pool) => {
            assert!(matches!(pool, Pool::Unconfigured));
            assert!(!is_db_enabled(&pool));
        }
        other => panic!("{:?}", other),
    }
    assert!(is_db_enabled(&Pool::Ready));
    assert!(!is_db_enabled(&Pool::Failed("x".to_string())));
}

#[test]
fn opening_stops_at_the_first_failure() {
    match initialize_database(2, Err("disk full".to_string())) {
        OpenStep::Done(Pool::Failed(e)) => assert_eq!(e, "disk full"),
        other => panic!("{:?}", other),
    }
    assert!(matches!(initialize_database(8, Ok(())), OpenStep::Run { done: 9, .. }));
    assert!(matches!(initialize_database(9, Ok(())), OpenStep::Done(Pool::Ready)));
    assert!(schema_statement(0).unwrap().starts_with("CREATE TABLE IF NOT EXISTS users"));
    assert!(schema_statement(9).is_none());
}

#[test]
fn opening_again_keeps_every_row() {
    let conn = opened();
    let id = register(&conn, "alice", "correct horse").unwrap();
    apply(&conn, add_filter(&Access::Granted, id, "news"));
    for at in 0..9 {
        conn.execute(schema_statement(at).unwrap(), []).unwrap();
    }
    assert!(matches!(log_in(&conn, "alice", "correct horse"), AuthResult::Success(..)));
    assert_eq!(names(&conn, get_user_filters(&Access::Granted, id)), vec!["news"]);
}

#[test]
fn accounts_are_enabled_where_every_statement_went_well() {
    for failing in 0..=10 {
        let reply = |i: usize| if i == failing { Err(format!("no {}", i)) } else { Ok(()) };
        let mut step = initialize_database(0, reply(0));
        let pool = loop {
            match step {
                OpenStep::Run { done, .. } => step = initialize_database(done, reply(done)),
                OpenStep::Done(pool) => break pool,
                OpenStep::Open(_) => panic!("already open"),
            }
        };
        assert_eq!(is_db_enabled(&pool), failing == 10);
        if failing < 10 {
            assert!(matches!(pool, Pool::Failed(e) if e == format!("no {}", failing)));
        }
    }
}

#[test]
fn three_settings_require_a_login() {
    for v in ["on", "true", "1"] {
        assert!(is_auth_required(Some(v)));
    }
    for v in ["", "off", "ON", "True", "yes", "11", "on "] {
        assert!(!is_auth_required(Some(v)));
    }
    assert!(!is_auth_required(None));
}

#[test]
fn without_access_nothing_is_asked() {
    let locked = Access::LockFailed("poisoned".to_string());
    assert_eq!(refuse_access(&Access::Unavailable).unwrap(), "Database not available");
    assert_eq!(refuse_access(&locked).unwrap(), "DB lock error: poisoned");
    assert!(refuse_access(&Access::Granted).is_none());
    assert_eq!(delete_session(&locked, "t").unwrap_err(), "DB lock error: poisoned");
    assert_eq!(disable_totp(&Access::Unavailable, 1).unwrap_err(), "Database not available");
    assert_eq!(get_user_filters(&locked, 1).unwrap_err(), "DB lock error: poisoned");
    assert!(validate_session(&locked, "t").is_none());
    assert!(matches!(
        authenticate_user(&Access::Unavailable, "bob", "12345678"),
        LoginStep::Done(AuthResult::DatabaseError(e)) if e == "Database not available"
    ));
    assert!(matches!(
        verify_totp_and_login(&locked, 1, "123456"),
        LoginStep::Done(AuthResult::DatabaseError(e)) if e == "DB lock error: poisoned"
    ));
    assert!(matches!(
        create_user(&Access::Unavailable, "x", ""),
        NewUserStep::Done(Err(e)) if e == "Database not available"
    ));
}

// ------------------------------------------------------------------------------------- accounts

#[test]
fn names_and_passwords_that_are_refused() {
    let length = "Username must be 3-32 characters";
    let spelling = "Username can only contain letters, numbers, and underscores";
    let password = "Password must be at least 8 characters";
    let long = "a".repeat(33);
    let cases = [
        ("", "12345678", length),
        ("ab", "12345678", length),
        (long.as_str(), "12345678", length),
        ("a b", "12345678", spelling),
        ("a-b_c", "", spelling),
        ("a:b", "12345678", spelling),
        ("bob", "1234567", password),
        ("bob", "", password),
        ("ab", "", length),
    ];
    for (name, pw, message) in cases {
        assert_eq!(refuse_creation(&Access::Granted, name, pw).unwrap(), message);
        assert!(matches!(
            create_user(&Access::Granted, name, pw),
            NewUserStep::Done(Err(e)) if e == message
        ));
    }
    let longest = "a".repeat(32);
    for (name, pw) in [("bob", "12345678"), (longest.as_str(), "12345678"), ("A_9", "ëëëë"), ("éß", "12345678")] {
        assert!(refuse_creation(&Access::Granted, name, pw).is_none());
    }
}

#[test]
fn an_account_that_cannot_be_hashed_is_not_added() {
    assert!(matches!(
        add_account("bob", Err("Password hashing failed: x".to_string())),
        NewUserStep::Done(Err(e)) if e == "Password hashing failed: x"
    ));
    assert!(matches!(
        add_account("bob", Ok("h".to_string())),
        NewUserStep::Run(Request::InsertUser { username, password_hash }, NewUser::AddingAccount)
            if username == "bob" && password_hash == "h"
    ));
}

#[test]
fn failures_to_create_an_account_are_told() {
    let told = |state: NewUser, e: &str| match resume_create_user(state, Err(e.to_string())) {
        NewUserStep::Done(Err(e)) => e,
        other => panic!("{:?}", other),
    };
    assert_eq!(
        told(NewUser::AddingAccount, "UNIQUE constraint failed: users.username"),
        "Username already exists"
    );
    assert_eq!(told(NewUser::AddingAccount, "disk full"), "Database error: disk full");
    assert_eq!(
        told(NewUser::AddingPreferences { user_id: 3 }, "UNIQUE constraint failed"),
        "Failed to create user preferences: UNIQUE constraint failed"
    );
}

#[test]
fn a_created_account_logs_in() {
    let conn = opened();
    let id = register(&conn, "alice", "correct horse").unwrap();
    match log_in(&conn, "alice", "correct horse") {
        AuthResult::Success(user, token) => {
            assert_eq!(user.id, id);
            assert_eq!(user.username, "alice");
            assert!(!user.totp_enabled);
            let again = seen(&conn, &token).unwrap();
            assert_eq!(again.id, id);
            assert_eq!(again.username, "alice");
            assert!(!again.totp_enabled);
        }
        other => panic!("{:?}", other),
    }
    let preferences: i64 =
        conn.query_row("SELECT COUNT(*) FROM user_prefs WHERE user_id = ?1", [id], |r| r.get(0)).unwrap();
    assert_eq!(preferences, 1);
}

#[test]
fn a_created_account_has_the_default_preferences() {
    let conn = opened();
    let id = register(&conn, "alice", "correct horse").unwrap();
    let columns = [
        "theme",
        "front_page",
        "layout",
        "wide",
        "blur_spoiler",
        "show_nsfw",
        "blur_nsfw",
        "hide_hls_notification",
        "video_quality",
        "hide_sidebar_and_summary",
        "use_hls",
        "autoplay_videos",
        "fixed_navbar",
        "comment_sort",
        "post_sort",
        "hide_awards",
        "hide_score",
        "remove_default_feeds",
    ];
    for column in columns {
        let sql = format!("SELECT {} FROM user_prefs WHERE user_id = ?1", column);
        let value: String = conn.query_row(&sql, [id], |row| row.get(0)).unwrap();
        assert_eq!(value, if column == "fixed_navbar" { "on" } else { "" });
    }
}

#[test]
fn a_created_account_can_enroll() {
    for name in ["bob", "A_9", "zoë_1"] {
        assert!(matches!(
            create_user(&Access::Granted, name, "12345678"),
            NewUserStep::Run(Request::InsertUser { .. }, NewUser::AddingAccount)
        ));
        assert!(accounts::db::generate_totp_secret(name).is_ok());
    }
}

#[test]
fn a_taken_name_is_refused_and_changes_nothing() {
    let conn = opened();
    register(&conn, "alice", "correct horse").unwrap();
    assert_eq!(register(&conn, "alice", "other horse"), Err("Username already exists".to_string()));
    let accounts: i64 = conn.query_row("SELECT COUNT(*) FROM users", [], |r| r.get(0)).unwrap();
    assert_eq!(accounts, 1);
    assert!(matches!(log_in(&conn, "alice", "correct horse"), AuthResult::Success(..)));
    assert!(matches!(log_in(&conn, "alice", "other horse"), AuthResult::InvalidCredentials));
}

#[test]
fn an_unknown_name_is_answered_as_a_wrong_password() {
    let conn = opened();
    register(&conn, "alice", "correct horse").unwrap();
    assert!(matches!(log_in(&conn, "alice", "wrong"), AuthResult::InvalidCredentials));
    assert!(matches!(log_in(&conn, "bob", "wrong"), AuthResult::InvalidCredentials));
    assert!(matches!(
        check_credential(&Credential::Password("x".to_string()), Err("gone".to_string())),
        LoginStep::Done(AuthResult::InvalidCredentials)
    ));
    let sessions: i64 = conn.query_row("SELECT COUNT(*) FROM sessions", [], |r| r.get(0)).unwrap();
    assert_eq!(sessions, 0);
}

#[test]
fn decisions_on_credentials() {
    let user = |totp_enabled: bool| NamedUser {
        id: 4,
        username: "eve".to_string(),
        password_hash: "h".to_string(),
        totp_enabled,
    };
    assert!(matches!(judge_password(user(true), false), Verdict::Refused(AuthResult::InvalidCredentials)));
    assert!(matches!(judge_password(user(true), true), Verdict::Refused(AuthResult::RequiresTwoFactor(4))));
    assert!(matches!(
        judge_password(user(false), true),
        Verdict::Accepted(a) if a.id == 4 && a.username == "eve" && !a.totp_enabled
    ));
    assert!(matches!(
        judge_code(4, "eve".to_string(), Ok(true)),
        Verdict::Accepted(a) if a.id == 4 && a.username == "eve" && a.totp_enabled
    ));
    assert!(matches!(
        judge_code(4, "eve".to_string(), Ok(false)),
        Verdict::Refused(AuthResult::InvalidCredentials)
    ));
    assert!(matches!(
        judge_code(4, "eve".to_string(), Err("bad".to_string())),
        Verdict::Refused(AuthResult::DatabaseError(e)) if e == "bad"
    ));
}

#[test]
fn codes_are_judged_at_a_time() {
    let row = vec![
        Value::Text("eve".to_string()),
        Value::Text(SECRET.to_string()),
        Value::Text("h".to_string()),
    ];
    let code = |c: &str| Credential::Code { user_id: 4, code: c.to_string() };
    assert!(matches!(
        judge_credential(&code("287082"), Ok(Some(row.clone())), Some(59)),
        Verdict::Accepted(a) if a.id == 4 && a.username == "eve"
    ));
    for clock in [None, Some(0), Some(u64::MAX), Some(120)] {
        assert!(matches!(
            judge_credential(&code("287082"), Ok(Some(row.clone())), clock),
            Verdict::Refused(AuthResult::InvalidCredentials)
        ));
    }
    let mut broken = row.clone();
    broken[1] = Value::Text("?".to_string());
    assert!(matches!(
        judge_credential(&code("287082"), Ok(Some(broken)), Some(59)),
        Verdict::Refused(AuthResult::DatabaseError(e))
            if e == "Invalid secret: Could not decode base32 secret."
    ));
    let mut none = row;
    none[1] = Value::Null;
    assert!(matches!(
        judge_credential(&code("287082"), Ok(Some(none)), Some(59)),
        Verdict::Refused(AuthResult::InvalidCredentials)
    ));
}

// ------------------------------------------------------------------------------------- sessions

#[test]
fn a_session_is_recognized_for_seven_days() {
    let conn = opened();
    let id = register(&conn, "alice", "correct horse").unwrap();
    let account = UserAccount { id, username: "alice".to_string(), totp_enabled: false };
    match create_session(account, Ok("tok".to_string()), Some(1_000_000)) {
        LoginStep::Store(request, pending) => {
            assert!(matches!(request, Request::InsertSession { expires_at: 1_604_800, .. }));
            assert!(matches!(
                finish_login(pending, change(&conn, &request)),
                AuthResult::Success(_, token) if token == "tok"
            ));
        }
        other => panic!("{:?}", other),
    }
    let at = |clock: Option<u64>| {
        let request = validate_session_at(&Access::Granted, "tok", clock).unwrap();
        validated_user(lookup(&conn, &request)).map(|u| u.id)
    };
    assert_eq!(at(Some(1_000_000)), Some(id));
    assert_eq!(at(Some(1_604_799)), Some(id));
    assert_eq!(at(Some(1_604_800)), None);
    assert_eq!(at(None), Some(id));
    assert!(seen(&conn, "tok").is_none());
}

#[test]
fn faults_stop_a_login() {
    let account = UserAccount { id: 1, username: "a".to_string(), totp_enabled: false };
    assert!(matches!(
        create_session(account.clone(), Err(Fault::NoRandomBytes), Some(5)),
        LoginStep::Fault(Fault::NoRandomBytes)
    ));
    assert!(matches!(
        create_session(account.clone(), Ok("t".to_string()), Some(i64::MAX as u64)),
        LoginStep::Fault(Fault::ClockOutOfRange)
    ));
    let pending = accounts::db::PendingSession { account, token: "t".to_string() };
    assert!(matches!(
        finish_login(pending, Err("disk full".to_string())),
        AuthResult::DatabaseError(e) if e == "Failed to create session: disk full"
    ));
}

#[test]
fn an_ended_session_is_not_recognized_and_others_are() {
    let conn = opened();
    register(&conn, "alice", "correct horse").unwrap();
    let mut tokens: Vec<String> = Vec::new();
    for _ in 0..2 {
        match log_in(&conn, "alice", "correct horse") {
            AuthResult::Success(_, token) => tokens.push(token),
            other => panic!("{:?}", other),
        }
    }
    assert_ne!(tokens[0], tokens[1]);
    apply(&conn, delete_session(&Access::Granted, &tokens[0]));
    assert!(seen(&conn, &tokens[0]).is_none());
    assert!(seen(&conn, &tokens[1]).is_some());
    assert!(seen(&conn, "unknown").is_none());
    apply(&conn, delete_session(&Access::Granted, "unknown"));
    assert!(seen(&conn, &tokens[1]).is_some());
}

// --------------------------------------------------------------------------- one-time passwords

#[test]
fn one_time_passwords_are_needed_once_enabled() {
    let conn = opened();
    let id = register(&conn, "alice", "correct horse").unwrap();
    apply(&conn, enable_totp(&Access::Granted, id, SECRET, &current_code()));
    assert!(matches!(
        log_in(&conn, "alice", "correct horse"),
        AuthResult::RequiresTwoFactor(n) if n == id
    ));
    assert!(matches!(log_in(&conn, "alice", "wrong"), AuthResult::InvalidCredentials));
    let with_code = |code: &str| {
        run_login(&conn, verify_totp_and_login(&Access::Granted, id, code))
    };
    assert!(matches!(with_code("no code"), AuthResult::InvalidCredentials));
    match with_code(&current_code()) {
        AuthResult::Success(user, token) => {
            assert!(user.totp_enabled);
            assert_eq!(user.id, id);
            assert!(seen(&conn, &token).unwrap().totp_enabled);
        }
        other => panic!("{:?}", other),
    }
    apply(&conn, disable_totp(&Access::Granted, id));
    assert!(matches!(log_in(&conn, "alice", "correct horse"), AuthResult::Success(..)));
    assert!(matches!(with_code(&current_code()), AuthResult::InvalidCredentials));
    assert!(matches!(
        run_login(&conn, verify_totp_and_login(&Access::Granted, id + 1, "123456")),
        AuthResult::InvalidCredentials
    ));
}

#[test]
fn a_wrong_code_enables_nothing() {
    assert_eq!(
        enable_totp(&Access::Unavailable, 1, SECRET, "no code").unwrap_err(),
        "Invalid verification code"
    );
    assert_eq!(
        enable_totp(&Access::Granted, 1, "?", "123456").unwrap_err(),
        "Invalid secret: Could not decode base32 secret."
    );
    assert_eq!(
        enable_totp(&Access::Unavailable, 1, SECRET, &current_code()).unwrap_err(),
        "Database not available"
    );
    assert!(matches!(
        enable_totp_checked(&Access::Granted, 1, SECRET, Ok(true)),
        Ok(Request::EnableTotp { user_id: 1, secret }) if secret == SECRET
    ));
}

// ------------------------------------------------------------------- subscriptions and filters

#[test]
fn lists_are_sorted_and_kept_apart() {
    let conn = opened();
    let a = register(&conn, "alice", "correct horse").unwrap();
    let b = register(&conn, "bob", "correct horse").unwrap();
    let granted = Access::Granted;
    for name in ["rust", "Zig", "ada", "rust"] {
        apply(&conn, add_subscription(&granted, a, name));
    }
    apply(&conn, add_filter(&granted, a, "news"));
    apply(&conn, add_subscription(&granted, b, "go"));
    assert_eq!(names(&conn, get_user_subscriptions(&granted, a)), vec!["Zig", "ada", "rust"]);
    assert_eq!(names(&conn, get_user_filters(&granted, a)), vec!["news"]);
    assert_eq!(names(&conn, get_user_subscriptions(&granted, b)), vec!["go"]);
    assert!(names(&conn, get_user_filters(&granted, b)).is_empty());
    apply(&conn, remove_subscription(&granted, a, "ada"));
    apply(&conn, remove_subscription(&granted, a, "go"));
    apply(&conn, remove_filter(&granted, a, "news"));
    assert_eq!(names(&conn, get_user_subscriptions(&granted, a)), vec!["Zig", "rust"]);
    assert!(names(&conn, get_user_filters(&granted, a)).is_empty());
    assert_eq!(names(&conn, get_user_subscriptions(&granted, b)), vec!["go"]);
}

#[test]
fn removing_undoes_adding() {
    let conn = opened();
    let id = register(&conn, "alice", "correct horse").unwrap();
    apply(&conn, add_filter(&Access::Granted, id, "news"));
    apply(&conn, add_filter(&Access::Granted, id, "sport"));
    apply(&conn, remove_filter(&Access::Granted, id, "sport"));
    assert_eq!(names(&conn, get_user_filters(&Access::Granted, id)), vec!["news"]);
}

#[test]
fn the_order_of_additions_is_not_listed() {
    let conn = opened();
    let a = register(&conn, "alice", "correct horse").unwrap();
    let b = register(&conn, "bob", "correct horse").unwrap();
    for name in ["zig", "ada", "zig"] {
        apply(&conn, add_subscription(&Access::Granted, a, name));
    }
    for name in ["ada", "zig"] {
        apply(&conn, add_subscription(&Access::Granted, b, name));
    }
    let of_a = names(&conn, get_user_subscriptions(&Access::Granted, a));
    assert_eq!(of_a, names(&conn, get_user_subscriptions(&Access::Granted, b)));
    assert_eq!(of_a, vec!["ada", "zig"]);
    apply(&conn, remove_subscription(&Access::Granted, a, "ZIG"));
    assert_eq!(of_a, names(&conn, get_user_subscriptions(&Access::Granted, a)));
}

#[test]
fn rows_without_a_name_are_passed_over() {
    let reply = Ok(vec![
        vec![Value::Text("a".to_string())],
        vec![Value::Null],
        vec![],
        vec![Value::Integer(3)],
        vec![Value::Other],
        vec![Value::Text("b".to_string())],
    ]);
    assert_eq!(listed_names(reply), Ok(vec!["a".to_string(), "b".to_string()]));
    assert_eq!(listed_names(Err("gone".to_string())), Err("Query error: gone".to_string()));
}

// ------------------------------------------------------------------------- statements and rows

#[test]
fn failures_are_worded_by_request() {
    let s = |t: &str| t.to_string();
    let named = |list: NameList, add: bool| {
        if add {
            Request::AddName { list, user_id: 1, subreddit: s("x") }
        } else {
            Request::RemoveName { list, user_id: 1, subreddit: s("x") }
        }
    };
    let cases = [
        (Request::InsertUser { username: s("u"), password_hash: s("h") }, "Database error: E"),
        (Request::InsertPreferences { user_id: 1 }, "Failed to create user preferences: E"),
        (
            Request::InsertSession { user_id: 1, token: s("t"), expires_at: 2 },
            "Failed to create session: E",
        ),
        (Request::DeleteSession { token: s("t") }, "Failed to delete session: E"),
        (Request::EnableTotp { user_id: 1, secret: s("x") }, "Failed to enable 2FA: E"),
        (Request::DisableTotp { user_id: 1 }, "Failed to disable 2FA: E"),
        (named(NameList::Subscriptions, true), "Failed to add subscription: E"),
        (named(NameList::Filters, true), "Failed to add filter: E"),
        (named(NameList::Subscriptions, false), "Failed to remove subscription: E"),
        (named(NameList::Filters, false), "Failed to remove filter: E"),
        (Request::ListNames { list: NameList::Filters, user_id: 1 }, "Query error: E"),
    ];
    for (request, text) in cases {
        assert_eq!(describe_failure(&request, "E"), text);
        assert_eq!(finish(&request, Err(s("E"))), Err(s(text)));
        assert_eq!(finish(&request, Ok(1)), Ok(()));
    }
}

#[test]
fn columns_are_read_by_their_kind() {
    let row = vec![
        Value::Integer(1),
        Value::Text("x".to_string()),
        Value::Integer(0),
        Value::Integer(1 << 40),
        Value::Null,
    ];
    assert_eq!(read_integer(&row, 0), Some(1));
    assert_eq!(read_integer(&row, 1), None);
    assert_eq!(read_text(&row, 1), Some("x".to_string()));
    assert_eq!(read_text(&row, 0), None);
    assert_eq!(read_text(&row, 9), None);
    assert_eq!(read_flag(&row, 0), Some(true));
    assert_eq!(read_flag(&row, 2), Some(false));
    assert_eq!(read_flag(&row, 3), None);
    assert_eq!(read_flag(&row, 4), None);
}

#[test]
fn a_row_that_cannot_be_read_is_no_account() {
    assert!(validated_user(Ok(Some(vec![Value::Integer(1)]))).is_none());
    assert!(validated_user(Ok(None)).is_none());
    assert!(validated_user(Err("gone".to_string())).is_none());
    let row = vec![Value::Integer(1), Value::Text("a".to_string()), Value::Integer(1)];
    let user = validated_user(Ok(Some(row))).unwrap();
    assert_eq!(user.id, 1);
    assert_eq!(user.username, "a");
    assert!(user.totp_enabled);
}
