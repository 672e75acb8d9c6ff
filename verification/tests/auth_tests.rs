use lomba_core::auth::{
    bearer_token, login_response, password_accepted, password_change_outcome, replacement_hash,
    AuthResponse, ChangePasswordRequest, Claims, LoginAdminRequest, PasswordChange,
    TOKEN_LIFETIME_SECONDS,
};
use lomba_core::clock::Timestamp;

#[test]
fn bearer_token_is_what_follows_the_scheme() {
    assert_eq!(bearer_token("Bearer abc.def.ghi"), Some("abc.def.ghi"));
    assert_eq!(bearer_token("Bearer "), Some(""));
    assert_eq!(bearer_token("Bearer  two"), Some(" two"));
    assert_eq!(bearer_token("Bearer t\u{00e9}l\u{00e9}"), Some("t\u{00e9}l\u{00e9}"));
}

#[test]
fn header_without_the_scheme_carries_no_token() {
    assert_eq!(bearer_token(""), None);
    assert_eq!(bearer_token("Bearer"), None);
    assert_eq!(bearer_token("bearer abc"), None);
    assert_eq!(bearer_token("Basic abc"), None);
    assert_eq!(bearer_token(" Bearer abc"), None);
    assert_eq!(bearer_token("\u{00e9}earer abc"), None);
}

#[test]
fn password_is_accepted_against_its_own_hash() {
    let hash = bcrypt::hash("rahasia", 4).unwrap();
    assert!(password_accepted("rahasia", Some(&hash)));
    assert!(!password_accepted("Rahasia", Some(&hash)));
    assert!(!password_accepted("", Some(&hash)));
}

#[test]
fn password_is_accepted_against_a_known_hash() {
    let known = "$2a$04$UuTkLRZZ6QofpDOlMz32MuuxEHA43WOemOYHPz6.SjsVsyO1tDU96";
    assert!(password_accepted("password", Some(known)));
    assert!(!password_accepted("passwore", Some(known)));
}

#[test]
fn password_is_refused_without_a_readable_hash() {
    assert!(!password_accepted("rahasia", None));
    assert!(!password_accepted("rahasia", Some("")));
    assert!(!password_accepted("rahasia", Some("rahasia")));
    assert!(!password_accepted("rahasia", Some("$2b$04$short")));
}

#[test]
fn claims_are_good_for_one_day() {
    let claims = Claims::issue("admin", "admin", Timestamp { secs: 1_700_000_000, nanos: 999 });
    assert_eq!(claims.sub, "admin");
    assert_eq!(claims.role, "admin");
    assert_eq!(claims.exp, 1_700_086_400);
    assert_eq!(TOKEN_LIFETIME_SECONDS, 24 * 60 * 60);
}

#[test]
fn only_the_admin_role_is_admin() {
    let now = Timestamp { secs: 1_700_000_000, nanos: 0 };
    assert!(Claims::issue("x", "admin", now).is_admin());
    assert!(!Claims::issue("admin", "peserta", now).is_admin());
    assert!(!Claims::issue("admin", "Admin", now).is_admin());
    assert!(!Claims::issue("admin", "", now).is_admin());
}

#[test]
fn login_goes_through_with_password_and_token() {
    assert_eq!(
        login_response(true, Some("tok".to_string())),
        AuthResponse { success: true, token: Some("tok".to_string()), error: None }
    );
    assert_eq!(AuthResponse::granted("tok".to_string()), login_response(true, Some("tok".to_string())));
}

#[test]
fn login_is_denied_without_password_or_token() {
    let denied = AuthResponse {
        success: false,
        token: None,
        error: Some("Username atau password salah".to_string()),
    };
    assert_eq!(login_response(false, Some("tok".to_string())), denied);
    assert_eq!(login_response(true, None), denied);
    assert_eq!(login_response(false, None), denied);
    assert_eq!(AuthResponse::denied(), denied);
}

#[test]
fn change_of_password_ends_by_the_first_thing_that_went_wrong() {
    assert_eq!(password_change_outcome(false, true, true, true), PasswordChange::Unauthorized);
    assert_eq!(password_change_outcome(false, false, false, false), PasswordChange::Unauthorized);
    assert_eq!(password_change_outcome(true, false, true, true), PasswordChange::StoreUnreadable);
    assert_eq!(password_change_outcome(true, true, false, true), PasswordChange::Refused);
    assert_eq!(password_change_outcome(true, true, true, false), PasswordChange::Refused);
    assert_eq!(password_change_outcome(true, true, true, true), PasswordChange::Changed);
}

#[test]
fn login_bodies_hold_what_was_sent() {
    let login = LoginAdminRequest { username: "admin".to_string(), password: "admin123".to_string() };
    assert_eq!(login.username, "admin");
    assert_eq!(login.password, "admin123");
    let change = ChangePasswordRequest {
        old_password: "a".to_string(),
        new_password: "b".to_string(),
    };
    assert_eq!(change.old_password, "a");
    assert_eq!(change.new_password, "b");
}

#[test]
fn new_password_is_hashed_only_after_the_old_one_was_accepted() {
    assert_eq!(replacement_hash(false, "baru"), None);
    let hash = replacement_hash(true, "baru").unwrap();
    assert!(password_accepted("baru", Some(&hash)));
    assert!(!password_accepted("lama", Some(&hash)));
    assert_ne!(hash, "baru");
    assert_ne!(replacement_hash(true, "baru").unwrap(), hash);
}

#[test]
fn claims_issued_at_a_time_end_one_day_on() {
    let claims =
        Claims::issue_at("budi", "admin", Timestamp { secs: 1_700_000_000, nanos: 999_999_999 })
            .unwrap();
    assert_eq!(
        claims,
        Claims { sub: "budi".to_string(), exp: 1_700_086_400, role: "admin".to_string() }
    );
    let first = Claims::issue_at("a", "b", Timestamp { secs: -86_400, nanos: 0 }).unwrap();
    assert_eq!(first.exp, 0);
    let last = Claims::issue_at("a", "b", Timestamp { secs: 8_210_266_790_399, nanos: 0 }).unwrap();
    assert_eq!(last.exp as i64, 8_210_266_876_799);
}

#[test]
fn claims_are_not_issued_for_a_day_that_ends_outside_the_calendar() {
    assert_eq!(Claims::issue_at("a", "b", Timestamp { secs: -86_401, nanos: 0 }), None);
    assert_eq!(Claims::issue_at("a", "b", Timestamp { secs: 8_210_266_790_400, nanos: 0 }), None);
    assert_eq!(Claims::issue_at("a", "b", Timestamp { secs: i64::MAX, nanos: 0 }), None);
    assert_eq!(Claims::issue_at("a", "b", Timestamp { secs: i64::MIN, nanos: 0 }), None);
}

#[test]
fn claims_issued_now_are_those_issued_at_the_time_of_the_clock() {
    let before = Timestamp::now();
    let claims = Claims::issue_now("budi", "peserta").unwrap();
    let after = Timestamp::now();
    let lower = Claims::issue_at("budi", "peserta", before).unwrap();
    let upper = Claims::issue_at("budi", "peserta", after).unwrap();
    assert_eq!(claims.sub, "budi");
    assert_eq!(claims.role, "peserta");
    assert!(lower.exp <= claims.exp && claims.exp <= upper.exp);
}

#[test]
fn clock_never_shows_a_leap_second() {
    for _ in 0..1000 {
        assert!(Timestamp::now().nanos < 1_000_000_000);
    }
}
