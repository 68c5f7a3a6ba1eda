//! What the pages answer.

use accounts::auth::{
    account_page, answer_code, answer_failed_setup, answer_password, answer_registration,
    answer_totp_setup, get_current_user, get_current_user_at, is_authenticated, login_page,
    login_submit, logout, needs_session, read_login_form, read_register_form, read_totp_form,
    register_page, register_submit, show_enrollment, totp_disable, totp_setup_page,
    totp_setup_submit, turn_away, LoginSubmit, LoginTemplate, Prefs, RegisterSubmit, Reply,
    TotpSetupSubmit,
};
use accounts::db::{Access, AuthResult, UserAccount};
use accounts::request::Request;

fn alice(totp_enabled: bool) -> UserAccount {
    UserAccount { id: 7, username: "alice".to_string(), totp_enabled }
}

fn location(reply: Reply) -> String {
    match reply {
        Reply::Redirect { location } => location,
        other => panic!("no redirect: {:?}", other),
    }
}

fn login(reply: Reply) -> LoginTemplate {
    match reply {
        Reply::Login(t) => t,
        other => panic!("no login page: {:?}", other),
    }
}

fn pairs(fields: &[(&str, &str)]) -> Vec<(String, String)> {
    fields.iter().map(|(k, v)| (k.to_string(), v.to_string())).collect()
}

#[test]
fn who_may_pass() {
    let user = alice(false);
    assert!(is_authenticated(false, true, None));
    assert!(is_authenticated(true, false, None));
    assert!(!is_authenticated(true, true, None));
    assert!(is_authenticated(true, true, Some(&user)));
    assert!(needs_session(true, true));
    assert!(!needs_session(true, false));
    assert!(!needs_session(false, true));
}

#[test]
fn strangers_are_turned_away() {
    let user = alice(false);
    assert_eq!(location(turn_away(false, Some(&user)).unwrap()), "/");
    assert_eq!(location(turn_away(true, None).unwrap()), "/login");
    assert!(turn_away(true, Some(&user)).is_none());
}

#[test]
fn the_current_user_is_looked_up_by_the_cookie() {
    match get_current_user_at(&Access::Granted, Some("tok"), Some(55)) {
        Some(Request::FindSession { token, now }) => {
            assert_eq!(token, "tok");
            assert_eq!(now, 55);
        }
        other => panic!("{:?}", other),
    }
    assert!(get_current_user(&Access::Granted, None).is_none());
    assert!(get_current_user(&Access::Unavailable, Some("tok")).is_none());
    match get_current_user(&Access::Granted, Some("tok")) {
        Some(Request::FindSession { token, now }) => {
            assert_eq!(token, "tok");
            assert!(now > 1_600_000_000);
        }
        other => panic!("{:?}", other),
    }
}

#[test]
fn the_login_page() {
    let user = alice(false);
    assert_eq!(location(login_page(false, None)), "/");
    assert_eq!(location(login_page(true, Some(&user))), "/account");
    let page = login(login_page(true, None));
    assert_eq!(page.prefs, Prefs::OfRequest);
    assert_eq!(page.error_msg, "");
    assert!(!page.require_2fa);
    assert_eq!(page.user_id, 0);
}

#[test]
fn a_login_form_is_read() {
    match login_submit(true, b"username=al+ice&password=a%26b%C3%AB") {
        LoginSubmit::Password { username, password } => {
            assert_eq!(username, "al ice");
            assert_eq!(password, "a&bë");
        }
        other => panic!("{:?}", other),
    }
    match login_submit(true, b"username=bob&totp_code=123456&user_id=7") {
        LoginSubmit::Code { user_id, code } => {
            assert_eq!(user_id, 7);
            assert_eq!(code, "123456");
        }
        other => panic!("{:?}", other),
    }
    assert!(matches!(login_submit(false, b"username=bob"), LoginSubmit::Answer(Reply::Redirect { .. })));
}

#[test]
fn a_code_without_an_account_is_a_password_login() {
    for id in ["", "0", "-3", "seven", "9223372036854775808", "+", " 7"] {
        let form = pairs(&[("totp_code", "123456"), ("user_id", id), ("username", "bob")]);
        match read_login_form(true, &form) {
            LoginSubmit::Password { username, password } => {
                assert_eq!(username, "bob");
                assert_eq!(password, "");
            }
            other => panic!("{}: {:?}", id, other),
        }
    }
    let missing = pairs(&[("totp_code", "123456")]);
    assert!(matches!(read_login_form(true, &missing), LoginSubmit::Password { .. }));
    for (text, number) in [("+7", 7), ("007", 7), ("9223372036854775807", i64::MAX)] {
        let form = pairs(&[("totp_code", "1"), ("user_id", text)]);
        match read_login_form(true, &form) {
            LoginSubmit::Code { user_id, code } => {
                assert_eq!(user_id, number);
                assert_eq!(code, "1");
            }
            other => panic!("{}: {:?}", text, other),
        }
    }
}

#[test]
fn password_logins_are_answered() {
    match answer_password(AuthResult::Success(alice(false), "tok".to_string())) {
        Reply::OpenSession { location, token } => {
            assert_eq!(location, "/account");
            assert_eq!(token, "tok");
        }
        other => panic!("{:?}", other),
    }
    let cases = [
        (AuthResult::RequiresTwoFactor(7), "", true, 7),
        (AuthResult::InvalidCredentials, "Invalid username or password", false, 0),
        (AuthResult::DatabaseError("gone".to_string()), "Database error: gone", false, 0),
        (AuthResult::AccountLocked, "Login failed", false, 0),
    ];
    for (result, message, require_2fa, user_id) in cases {
        let page = login(answer_password(result));
        assert_eq!(page.prefs, Prefs::Default);
        assert_eq!(page.error_msg, message);
        assert_eq!(page.require_2fa, require_2fa);
        assert_eq!(page.user_id, user_id);
    }
}

#[test]
fn code_logins_are_answered() {
    assert!(matches!(
        answer_code(7, AuthResult::Success(alice(true), "tok".to_string())),
        Reply::OpenSession { token, .. } if token == "tok"
    ));
    let refused = [
        AuthResult::InvalidCredentials,
        AuthResult::RequiresTwoFactor(9),
        AuthResult::AccountLocked,
        AuthResult::DatabaseError("gone".to_string()),
    ];
    for result in refused {
        let page = login(answer_code(7, result));
        assert_eq!(page.error_msg, "Invalid 2FA code");
        assert!(page.require_2fa);
        assert_eq!(page.user_id, 7);
    }
}

#[test]
fn logging_out_ends_the_session_and_drops_the_cookie() {
    let (request, reply) = logout(&Access::Granted, Some("tok"));
    assert!(matches!(request, Some(Request::DeleteSession { token }) if token == "tok"));
    assert!(matches!(reply, Reply::CloseSession { location } if location == "/"));
    let (request, reply) = logout(&Access::Granted, None);
    assert!(request.is_none());
    assert!(matches!(reply, Reply::CloseSession { .. }));
    let (request, reply) = logout(&Access::LockFailed("poisoned".to_string()), Some("tok"));
    assert!(request.is_none());
    assert!(matches!(reply, Reply::CloseSession { .. }));
}

#[test]
fn the_registration_page() {
    assert_eq!(location(register_page(false)), "/");
    match register_page(true) {
        Reply::Register(t) => {
            assert_eq!(t.prefs, Prefs::OfRequest);
            assert_eq!(t.error_msg, "");
            assert_eq!(t.success_msg, "");
        }
        other => panic!("{:?}", other),
    }
}

#[test]
fn a_registration_form_is_read() {
    match register_submit(true, b"username=bob&password=12345678&confirm_password=12345678") {
        RegisterSubmit::Create { username, password } => {
            assert_eq!(username, "bob");
            assert_eq!(password, "12345678");
        }
        other => panic!("{:?}", other),
    }
    match read_register_form(true, &pairs(&[("username", "bob"), ("password", "12345678")])) {
        RegisterSubmit::Answer(Reply::Register(t)) => {
            assert_eq!(t.prefs, Prefs::Default);
            assert_eq!(t.error_msg, "Passwords do not match");
            assert_eq!(t.success_msg, "");
        }
        other => panic!("{:?}", other),
    }
    assert!(matches!(
        register_submit(true, b""),
        RegisterSubmit::Create { username, password } if username.is_empty() && password.is_empty()
    ));
    assert!(matches!(register_submit(false, b""), RegisterSubmit::Answer(Reply::Redirect { .. })));
}

#[test]
fn registrations_are_answered() {
    match answer_registration(Ok(3)) {
        Reply::Register(t) => {
            assert_eq!(t.success_msg, "Account created successfully! You can now log in.");
            assert_eq!(t.error_msg, "");
        }
        other => panic!("{:?}", other),
    }
    match answer_registration(Err("Username already exists".to_string())) {
        Reply::Register(t) => {
            assert_eq!(t.success_msg, "");
            assert_eq!(t.error_msg, "Username already exists");
        }
        other => panic!("{:?}", other),
    }
}

#[test]
fn the_account_page_shows_what_could_be_read() {
    let names = vec!["rust".to_string(), "zig".to_string()];
    match account_page(true, Some(alice(true)), Ok(names.clone()), Err("gone".to_string())) {
        Reply::Account(t) => {
            assert_eq!(t.prefs, Prefs::OfRequest);
            assert_eq!(t.user.id, 7);
            assert_eq!(t.user.username, "alice");
            assert!(t.user.totp_enabled);
            assert_eq!(t.subscriptions, names);
            assert!(t.filters.is_empty());
            assert_eq!(t.message, "");
        }
        other => panic!("{:?}", other),
    }
    assert_eq!(location(account_page(true, None, Ok(vec![]), Ok(vec![]))), "/login");
    assert_eq!(location(account_page(false, Some(alice(false)), Ok(vec![]), Ok(vec![]))), "/");
}

#[test]
fn the_setup_page_shows_a_fresh_secret() {
    let user = alice(false);
    match totp_setup_page(true, Some(&user)) {
        Ok(Reply::TotpSetup(t)) => {
            assert_eq!(t.prefs, Prefs::OfRequest);
            assert_eq!(t.secret.len(), 32);
            assert_eq!(
                t.otpauth_url,
                format!("otpauth://totp/Redlib:alice?secret={}&issuer=Redlib", t.secret)
            );
            assert_eq!(t.error_msg, "");
        }
        other => panic!("{:?}", other),
    }
    assert_eq!(location(totp_setup_page(true, Some(&alice(true))).unwrap()), "/account");
    assert_eq!(location(totp_setup_page(true, None).unwrap()), "/login");
    assert_eq!(location(totp_setup_page(false, Some(&user)).unwrap()), "/");
    assert_eq!(show_enrollment(Err("no".to_string())).unwrap_err(), "no");
}

#[test]
fn a_setup_form_is_read() {
    let user = alice(false);
    match totp_setup_submit(true, Some(&user), b"secret=ABC&code=123+456") {
        TotpSetupSubmit::Enable { user_id, secret, code } => {
            assert_eq!(user_id, 7);
            assert_eq!(secret, "ABC");
            assert_eq!(code, "123 456");
        }
        other => panic!("{:?}", other),
    }
    match read_totp_form(true, Some(&user), &Vec::new()) {
        TotpSetupSubmit::Enable { secret, code, .. } => {
            assert_eq!(secret, "");
            assert_eq!(code, "");
        }
        other => panic!("{:?}", other),
    }
    match totp_setup_submit(true, None, b"") {
        TotpSetupSubmit::Answer(reply) => assert_eq!(location(reply), "/login"),
        other => panic!("{:?}", other),
    }
    match totp_setup_submit(false, Some(&user), b"") {
        TotpSetupSubmit::Answer(reply) => assert_eq!(location(reply), "/"),
        other => panic!("{:?}", other),
    }
}

#[test]
fn setups_are_answered() {
    assert_eq!(location(answer_totp_setup("alice", "ABC", Ok(())).unwrap()), "/account");
    match answer_totp_setup("alice", "ABC", Err("Invalid verification code".to_string())) {
        Ok(Reply::TotpSetup(t)) => {
            assert_eq!(t.prefs, Prefs::Default);
            assert_eq!(t.secret, "ABC");
            assert!(t.otpauth_url.starts_with("otpauth://totp/Redlib:alice?secret="));
            assert_eq!(t.error_msg, "Invalid verification code");
        }
        other => panic!("{:?}", other),
    }
    assert!(answer_totp_setup("a:b", "ABC", Err("bad".to_string()))
        .unwrap_err()
        .starts_with("TOTP creation failed: Account Name can't contain a colon."));
    let enrolled = Ok(("NEW".to_string(), "url".to_string()));
    match answer_failed_setup("OLD", "bad".to_string(), enrolled) {
        Ok(Reply::TotpSetup(t)) => {
            assert_eq!(t.secret, "OLD");
            assert_eq!(t.otpauth_url, "url");
            assert_eq!(t.error_msg, "bad");
        }
        other => panic!("{:?}", other),
    }
}

#[test]
fn turning_one_time_passwords_off_always_leads_back() {
    let user = alice(true);
    let (request, reply) = totp_disable(true, Some(&user), &Access::Granted);
    assert!(matches!(request, Some(Request::DisableTotp { user_id: 7 })));
    assert_eq!(location(reply), "/account");
    let (request, reply) = totp_disable(true, Some(&user), &Access::LockFailed("x".to_string()));
    assert!(request.is_none());
    assert_eq!(location(reply), "/account");
    let (request, reply) = totp_disable(true, None, &Access::Granted);
    assert!(request.is_none());
    assert_eq!(location(reply), "/login");
    let (request, reply) = totp_disable(false, Some(&user), &Access::Granted);
    assert!(request.is_none());
    assert_eq!(location(reply), "/");
}
