//! Passwords, tokens, cookies, one-time passwords and forms on concrete values.

use std::time::{Duration, SystemTime};

use accounts::clock::whole_seconds;
use accounts::form::field;
use accounts::password::{accepts, asks_too_many_lanes, hash_password_with_salt, report_hash};
use accounts::session::{
    generate_session_token, seconds_of, session_cookie_at, session_end_at, set_session_cookie,
    set_session_cookie_at, token_of, SameSite, LAST_COOKIE_TIME, SESSION_COOKIE_NAME,
    SESSION_SECONDS,
};
use accounts::text::{characters, contains, join, text_eq};
use accounts::totp::{
    code_clock, generate_totp_secret, totp_enrollment, verify_totp_code, verify_totp_code_at,
};
use accounts::db::{hash_password, verify_password};

const SECRET: &str = "GEZDGNBVGY3TQOJQGEZDGNBVGY3TQOJQ";

// ------------------------------------------------------------------------------------ passwords

#[test]
fn test_password_hashing() {
    let password = "test_password_123";
    let hash = hash_password(password).expect("Hashing should succeed");

    assert!(verify_password(password, &hash));
    assert!(!verify_password("wrong_password", &hash));
}

#[test]
fn hashing_twice_gives_two_hashes_that_both_accept() {
    let a = hash_password("correct horse").unwrap();
    let b = hash_password("correct horse").unwrap();
    assert_ne!(a, b);
    assert!(verify_password("correct horse", &a));
    assert!(verify_password("correct horse", &b));
}

#[test]
fn hashing_with_a_salt_is_repeatable() {
    let a = hash_password_with_salt("correct horse", "c29tZXNhbHQ").unwrap();
    let b = hash_password_with_salt("correct horse", "c29tZXNhbHQ").unwrap();
    assert_eq!(a, b);
    assert!(a.starts_with("$argon2id$v=19$m=19456,t=2,p=1$c29tZXNhbHQ$"));
    assert!(verify_password("correct horse", &a));
}

#[test]
fn a_known_hash_accepts_its_password_only() {
    let hash = "$argon2id$v=19$m=256,t=2,p=1$c29tZXNhbHQ$nf65EOgLrQMR/uIPnA4rEsF5h7TKyQwu9U1bMCHGi/4";
    assert!(verify_password("password", hash));
    assert!(!verify_password("Password", hash));
}

#[test]
fn an_unreadable_hash_accepts_nothing() {
    assert!(!verify_password("password", "password"));
    assert!(!verify_password("", ""));
}

#[test]
fn a_hash_with_too_many_lanes_accepts_nothing() {
    let digest = "$c29tZXNhbHQ$nf65EOgLrQMR/uIPnA4rEsF5h7TKyQwu9U1bMCHGi/4";
    for lanes in ["100000000", "536870912", "4294967295", "99999999999999999999"] {
        let hash = format!("$argon2id$v=19$m=19456,t=2,p={}{}", lanes, digest);
        assert!(asks_too_many_lanes(&hash));
        assert!(!verify_password("password", &hash));
    }
    for lanes in ["0", "16777216", "99999999"] {
        let hash = format!("$argon2id$v=19$m=19456,t=2,p={}{}", lanes, digest);
        assert!(!asks_too_many_lanes(&hash));
        assert!(!verify_password("password", &hash));
    }
    // The number that is given last counts.
    let hash = format!("$argon2id$v=19$m=256,t=2,p=536870912,p=1{}", digest);
    assert!(!asks_too_many_lanes(&hash));
    assert!(verify_password("password", &hash));
    let hash = format!("$argon2id$v=19$m=256,t=2,p=1,p=536870912{}", digest);
    assert!(asks_too_many_lanes(&hash));
    assert!(!verify_password("password", &hash));
    for text in ["", "p", "p=", "=", "p=12345678", "m=123456789"] {
        assert!(!asks_too_many_lanes(text));
    }
    assert!(asks_too_many_lanes("p=123456789"));
}

#[test]
fn every_hash_shows_its_parameters_and_a_salt_of_sixteen_bytes() {
    for password in ["", "correct horse", "zoë"] {
        let hash = hash_password(password).unwrap();
        assert!(hash.starts_with("$argon2id$v=19$m=19456,t=2,p=1$"));
        assert_eq!(hash.split('$').nth(4).unwrap().len(), 22);
        assert!(!asks_too_many_lanes(&hash));
        assert!(verify_password(password, &hash));
    }
}

#[test]
fn hashes_with_different_salts_differ() {
    let a = hash_password_with_salt("correct horse", "AAAAAAAAAAAAAAAAAAAAAA").unwrap();
    let b = hash_password_with_salt("correct horse", "AAAAAAAAAAAAAAAAAAAAAQ").unwrap();
    assert_ne!(a, b);
    assert!(a.starts_with("$argon2id$v=19$m=19456,t=2,p=1$AAAAAAAAAAAAAAAAAAAAAA$"));
    assert!(hash_password_with_salt("correct horse", "").is_err());
}

#[test]
fn a_bad_salt_is_reported() {
    let e = hash_password_with_salt("password", "!").unwrap_err();
    assert!(e.starts_with("Password hashing failed: "));
    assert_ne!(e, "Password hashing failed: ");
}

#[test]
fn hashing_outcomes_are_told() {
    assert_eq!(report_hash(Ok("h".to_string())), Ok("h".to_string()));
    assert_eq!(
        report_hash(Err("boom".to_string())),
        Err("Password hashing failed: boom".to_string())
    );
    assert!(accepts(Some(true)));
    assert!(!accepts(Some(false)));
    assert!(!accepts(None));
}

// --------------------------------------------------------------------------------------- tokens

#[test]
fn test_session_token_generation() {
    let token1 = generate_session_token().expect("Failed to generate random bytes");
    let token2 = generate_session_token().expect("Failed to generate random bytes");

    assert_ne!(token1, token2);
    assert!(token1.len() >= 32);
}

#[test]
fn tokens_are_url_safe_base64() {
    let counting: Vec<u8> = (0..32).collect();
    assert_eq!(token_of(&counting), "AAECAwQFBgcICQoLDA0ODxAREhMUFRYXGBkaGxwdHh8");
    assert_eq!(token_of(&[0xff; 32]), format!("{}8", "_".repeat(42)));
    assert_eq!(token_of(&[0; 32]), "A".repeat(43));
}

#[test]
fn tokens_hold_plain_characters_only() {
    let token = generate_session_token().unwrap();
    assert_eq!(token.len(), 43);
    assert!(token.chars().all(|c| c.is_ascii_alphanumeric() || c == '-' || c == '_'));
}

#[test]
fn different_bytes_make_different_tokens() {
    let mut seen: Vec<String> = Vec::new();
    for i in 0..32 {
        let mut bytes = [7u8; 32];
        bytes[i] = 8;
        let token = token_of(&bytes);
        assert!(!seen.contains(&token));
        seen.push(token);
    }
}

#[test]
fn sessions_last_seven_days() {
    assert_eq!(SESSION_SECONDS, 604800);
    assert_eq!(session_end_at(Some(1_700_000_000)), Some(1_700_604_800));
    assert_eq!(session_end_at(None), Some(604800));
    assert_eq!(session_end_at(Some(i64::MAX as u64)), None);
    assert_eq!(session_end_at(Some((i64::MAX - 604800) as u64)), Some(i64::MAX));
    assert_eq!(seconds_of(None), 0);
    assert_eq!(seconds_of(Some(12)), 12);
}

#[test]
fn a_reading_of_the_clock_is_whole_seconds() {
    assert_eq!(whole_seconds(Ok(Duration::new(59, 999_999_999))), Some(59));
    assert_eq!(whole_seconds(Ok(Duration::from_secs(u64::MAX))), Some(u64::MAX));
    let later = SystemTime::UNIX_EPOCH + Duration::from_secs(1);
    assert_eq!(whole_seconds(later.duration_since(SystemTime::UNIX_EPOCH)), Some(1));
    assert_eq!(whole_seconds(SystemTime::UNIX_EPOCH.duration_since(later)), None);
}

// -------------------------------------------------------------------------------------- cookies

#[test]
fn the_cookie_header_is_written_out() {
    assert_eq!(
        set_session_cookie_at("tok-1_2", 0).unwrap(),
        "redlib_session=tok-1_2; HttpOnly; SameSite=Lax; Secure; Path=/; Expires=Thu, 08 Jan 1970 00:00:00 GMT"
    );
    assert_eq!(
        set_session_cookie_at("t", 1_700_000_000).unwrap(),
        "redlib_session=t; HttpOnly; SameSite=Lax; Secure; Path=/; Expires=Tue, 21 Nov 2023 22:13:20 GMT"
    );
}

#[test]
fn the_cookie_ends_with_the_session() {
    let c = session_cookie_at("t", 1_700_000_000).unwrap();
    assert_eq!(Some(c.expires), session_end_at(Some(1_700_000_000)));
    assert_eq!(c.name, SESSION_COOKIE_NAME);
    assert_eq!(c.value, "t");
    assert_eq!(c.path, "/");
    assert!(c.http_only && c.secure);
    assert_eq!(c.same_site, SameSite::Lax);
}

#[test]
fn a_cookie_has_no_date_past_the_last_year() {
    assert!(set_session_cookie_at("t", LAST_COOKIE_TIME).is_none());
    assert!(set_session_cookie_at("t", i64::MAX).is_none());
    assert!(set_session_cookie_at("t", i64::MIN).is_none());
    assert_eq!(
        set_session_cookie_at("t", LAST_COOKIE_TIME - SESSION_SECONDS).unwrap(),
        "redlib_session=t; HttpOnly; SameSite=Lax; Secure; Path=/; Expires=Fri, 31 Dec 9999 23:59:59 GMT"
    );
}

#[test]
fn a_cookie_can_be_set_now() {
    let header = set_session_cookie("abc").unwrap();
    assert!(header
        .starts_with("redlib_session=abc; HttpOnly; SameSite=Lax; Secure; Path=/; Expires="));
    assert!(header.ends_with(" GMT"));
    assert!(!header.contains("1970"));
}

// --------------------------------------------------------------------------- one-time passwords

#[test]
fn known_codes_are_accepted_at_their_times() {
    assert_eq!(verify_totp_code_at(SECRET, "287082", Some(59)), Ok(true));
    assert_eq!(verify_totp_code_at(SECRET, "081804", Some(1_111_111_109)), Ok(true));
    assert_eq!(verify_totp_code_at(SECRET, "081805", Some(1_111_111_109)), Ok(false));
    assert_eq!(verify_totp_code_at(SECRET, "", Some(1_111_111_109)), Ok(false));
}

#[test]
fn a_text_that_is_no_code_is_never_accepted() {
    for text in ["", "28708", "2870820", " 287082", "287082 ", "28708a", "+87082", "２８７０８２"] {
        assert_eq!(verify_totp_code_at(SECRET, text, Some(59)), Ok(false));
    }
}

#[test]
fn a_code_is_good_for_one_step_on_each_side() {
    // The code of the step from 60 to 89.
    assert_eq!(verify_totp_code_at(SECRET, "359152", Some(59)), Ok(true));
    assert_eq!(verify_totp_code_at(SECRET, "359152", Some(30)), Ok(true));
    assert_eq!(verify_totp_code_at(SECRET, "359152", Some(75)), Ok(true));
    assert_eq!(verify_totp_code_at(SECRET, "359152", Some(119)), Ok(true));
    assert_eq!(verify_totp_code_at(SECRET, "359152", Some(120)), Ok(false));
    // The first code of all, and one that comes too early.
    assert_eq!(verify_totp_code_at(SECRET, "755224", Some(30)), Ok(true));
    assert_eq!(verify_totp_code_at(SECRET, "969429", Some(59)), Ok(false));
}

#[test]
fn without_a_clock_no_code_is_accepted() {
    assert_eq!(verify_totp_code_at(SECRET, "287082", None), Ok(false));
    assert_eq!(code_clock(Some(29)), None);
    assert_eq!(code_clock(Some(30)), Some(30));
    assert_eq!(code_clock(Some(u64::MAX)), None);
    assert_eq!(code_clock(Some(u64::MAX - 16)), Some(u64::MAX - 16));
    assert_eq!(code_clock(Some(u64::MAX - 15)), None);
    assert_eq!(verify_totp_code_at(SECRET, "no code", Some(u64::MAX - 16)), Ok(false));
    assert_eq!(code_clock(None), None);
}

#[test]
fn a_secret_that_is_no_base32_is_refused() {
    let refusal = Err("Invalid secret: Could not decode base32 secret.".to_string());
    assert_eq!(verify_totp_code_at("not base32!", "287082", Some(59)), refusal);
    assert_eq!(verify_totp_code_at("gezdgnbvgy3tqojqgezdgnbvgy3tqojq", "287082", Some(59)), refusal);
    assert_eq!(verify_totp_code("0189", "287082"), refusal);
}

#[test]
fn a_short_secret_is_refused_with_or_without_a_clock() {
    let refusal = Err(
        "TOTP error: The length of the shared secret MUST be at least 128 bits. 80 bits is not enough"
            .to_string(),
    );
    assert_eq!(verify_totp_code_at("GEZDGNBVGY3TQOJQ", "287082", Some(59)), refusal);
    assert_eq!(verify_totp_code_at("GEZDGNBVGY3TQOJQ", "287082", None), refusal);
    assert_eq!(
        verify_totp_code("", "287082"),
        Err("TOTP error: The length of the shared secret MUST be at least 128 bits. 0 bits is not enough"
            .to_string())
    );
}

#[test]
fn an_enrollment_shows_the_secret_and_the_url() {
    assert_eq!(
        totp_enrollment(b"12345678901234567890", "alice"),
        Ok((
            SECRET.to_string(),
            format!("otpauth://totp/Redlib:alice?secret={}&issuer=Redlib", SECRET)
        ))
    );
    let (_, url) = totp_enrollment(b"12345678901234567890", "zoë_1").unwrap();
    assert_eq!(
        url,
        format!("otpauth://totp/Redlib:zo%C3%AB_1?secret={}&issuer=Redlib", SECRET)
    );
}

#[test]
fn an_enrolled_secret_accepts_its_codes() {
    let (secret, url) = totp_enrollment(b"12345678901234567890", "alice").unwrap();
    assert!(url.contains(&secret));
    assert_eq!(verify_totp_code_at(&secret, "287082", Some(59)), Ok(true));
}

#[test]
fn enrollments_that_cannot_be_are_refused() {
    assert_eq!(
        totp_enrollment(b"12345678901234567890", "a:b"),
        Err("TOTP creation failed: Account Name can't contain a colon. \"a:b\" contains a colon"
            .to_string())
    );
    assert_eq!(
        totp_enrollment(b"1234567890", "alice"),
        Err("TOTP creation failed: The length of the shared secret MUST be at least 128 bits. 80 bits is not enough"
            .to_string())
    );
}

#[test]
fn drawn_secrets_are_fresh_and_usable() {
    let (a, url) = generate_totp_secret("alice").unwrap();
    let (b, _) = generate_totp_secret("alice").unwrap();
    assert_ne!(a, b);
    assert_eq!(a.len(), 32);
    assert_eq!(url, format!("otpauth://totp/Redlib:alice?secret={}&issuer=Redlib", a));
    assert_eq!(verify_totp_code(&a, "no code"), Ok(false));
}

#[test]
fn the_current_code_is_accepted_now() {
    let secret = totp_rs::Secret::Encoded(SECRET.to_string()).to_bytes().unwrap();
    let totp =
        totp_rs::TOTP::new(totp_rs::Algorithm::SHA1, 6, 1, 30, secret, None, String::new()).unwrap();
    let code = totp.generate_current().unwrap();
    assert_eq!(verify_totp_code(SECRET, &code), Ok(true));
}

// -------------------------------------------------------------------------------- text and forms

#[test]
fn text_operations() {
    assert!(text_eq("zoë", "zoë"));
    assert!(!text_eq("zoë", "zoe"));
    assert_eq!(join("ab", "ć"), "abć");
    assert_eq!(characters("aëc"), vec!['a', 'ë', 'c']);
    assert!(contains("UNIQUE constraint failed: users.username", "UNIQUE constraint"));
    assert!(!contains("UNIQUE", "UNIQUE constraint"));
    assert!(contains("abc", ""));
    assert!(contains("", ""));
    assert!(contains("aab", "ab"));
    assert!(!contains("aba", "bb"));
}

#[test]
fn the_last_value_of_a_field_counts() {
    let pairs = vec![
        ("a".to_string(), "1".to_string()),
        ("b".to_string(), "2".to_string()),
        ("a".to_string(), "3".to_string()),
    ];
    assert_eq!(field(&pairs, "a", "x"), "3");
    assert_eq!(field(&pairs, "b", "x"), "2");
    assert_eq!(field(&pairs, "c", "x"), "x");
    assert_eq!(field(&Vec::new(), "a", ""), "");
}
