use game_admin::events::{EventError, EventManager};
use game_admin::jwt::JwtService;
use game_admin::models::{OtpVerificationResult, ServiceError};
use game_admin::service::{DataService, VerifyOutcome};
use game_admin::validation::{
    JsonKind, LanguagePayload, LoginPayload, OtpPayload, ProfilePayload, ValidationCode,
};

const T0: i64 = 1_700_000_000_000;

fn service() -> DataService {
    DataService::new(JwtService::new("test-secret".to_string()))
}

fn login(mobile: &str, device: &str) -> LoginPayload {
    LoginPayload {
        kind: JsonKind::Object,
        mobile_no: Some(mobile.to_string()),
        device_id: Some(device.to_string()),
        fcm_token: Some("f".repeat(120)),
        email: None,
        timestamp: None,
    }
}

fn otp_request(mobile: &str, token: &str, code: &str) -> OtpPayload {
    OtpPayload {
        kind: JsonKind::Object,
        mobile_no: Some(mobile.to_string()),
        otp: Some(code.to_string()),
        session_token: Some(token.to_string()),
        timestamp: None,
        device_id: Some("dev-1".to_string()),
        fcm_token: Some("f".repeat(120)),
        email: None,
    }
}

fn profile_request(mobile: &str, token: &str, code: Option<&str>) -> ProfilePayload {
    ProfilePayload {
        kind: JsonKind::Object,
        mobile_no: Some(mobile.to_string()),
        session_token: Some(token.to_string()),
        full_name: Some("Asha Rao".to_string()),
        state: Some("Goa".to_string()),
        referral_code: code.map(|c| c.to_string()),
        referred_by: None,
        profile_data: None,
        timestamp: None,
        device_id: None,
        fcm_token: None,
        email: None,
    }
}

fn rejected(r: Result<VerifyOutcome, EventError>) -> OtpVerificationResult {
    match r {
        Ok(VerifyOutcome::Rejected(x)) => x,
        other => panic!("expected a rejection, got {:?}", other),
    }
}

#[test]
fn login_then_five_wrong_codes_then_rate_limited() {
    let mut ds = service();
    let resp = EventManager::handle_login(&mut ds, "sock", &login("9876543210", "dev-1"), T0).unwrap();
    assert_eq!(resp.otp.len(), 6);
    assert!(resp.otp.chars().all(|c| c.is_ascii_digit()));
    assert_eq!(resp.session_token.len(), 9);
    assert!(resp.is_new_user);
    for _ in 0..5 {
        let r = EventManager::handle_verify_otp(&mut ds, "sock", &otp_request("9876543210", &resp.session_token, "000000"), T0 + 1000);
        assert_eq!(rejected(r), OtpVerificationResult::Invalid);
    }
    let r = EventManager::handle_verify_otp(&mut ds, "sock", &otp_request("9876543210", &resp.session_token, &resp.otp), T0 + 2000);
    assert_eq!(rejected(r), OtpVerificationResult::RateLimited);
    assert_eq!(ds.ledger().get_verification_attempts_count("9876543210", &resp.session_token), 5);
}

#[test]
fn correct_code_after_window_is_expired() {
    let mut ds = service();
    let resp = EventManager::handle_login(&mut ds, "sock", &login("9876543210", "dev-1"), T0).unwrap();
    let late = T0 + 30 * 60 * 1000 + 1;
    let r = EventManager::handle_verify_otp(&mut ds, "sock", &otp_request("9876543210", &resp.session_token, &resp.otp), late);
    assert_eq!(rejected(r), OtpVerificationResult::Expired);
    assert_eq!(ds.ledger().get_verification_attempts_count("9876543210", &resp.session_token), 1);
}

#[test]
fn correct_code_at_window_edge_verifies() {
    let mut ds = service();
    let resp = EventManager::handle_login(&mut ds, "sock", &login("9876543210", "dev-1"), T0).unwrap();
    let edge = T0 + 30 * 60 * 1000;
    let r = EventManager::handle_verify_otp(&mut ds, "sock", &otp_request("9876543210", &resp.session_token, &resp.otp), edge);
    assert!(matches!(r, Ok(VerifyOutcome::Verified(_))));
}

#[test]
fn unknown_session_is_not_found_and_not_recorded() {
    let mut ds = service();
    let _ = EventManager::handle_login(&mut ds, "sock", &login("9876543210", "dev-1"), T0).unwrap();
    let r = EventManager::handle_verify_otp(&mut ds, "sock", &otp_request("9876543210", "123456789000", "123456"), T0 + 10);
    assert_eq!(rejected(r), OtpVerificationResult::NotFound);
    assert_eq!(ds.ledger().get_verification_attempts_count("9876543210", "123456789000"), 0);
}

#[test]
fn verified_login_mints_a_bound_credential() {
    let mut ds = service();
    let resp = EventManager::handle_login(&mut ds, "sock", &login("9876543210", "dev-1"), T0).unwrap();
    let r = EventManager::handle_verify_otp(&mut ds, "sock", &otp_request("9876543210", &resp.session_token, &resp.otp), T0 + 5000);
    let v = match r {
        Ok(VerifyOutcome::Verified(v)) => v,
        other => panic!("expected success, got {:?}", other),
    };
    assert_eq!(v.user_number, 1);
    assert!(!v.existing_user);
    assert_eq!(v.expires_in, 7 * 24 * 3600);
    let claims = ds.jwt().verify_token_with_device_check_at(&v.jwt_token, "dev-1", "9876543210", T0 / 1000 + 10).unwrap();
    assert_eq!(claims.sub, v.user_id);
    assert_eq!(claims.user_number, 1);
    assert_eq!(claims.iat, (T0 + 5000) / 1000);
    assert_eq!(claims.exp, claims.iat + 7 * 24 * 3600);
    assert!(ds.ledger().is_verified_session("9876543210", &resp.session_token));
    assert_eq!(ds.ledger().get_verification_attempts_count("9876543210", &resp.session_token), 1);
}

#[test]
fn second_login_counts_and_is_not_new() {
    let mut ds = service();
    let a = EventManager::handle_login(&mut ds, "sock", &login("9876543210", "dev-1"), T0).unwrap();
    let b = EventManager::handle_login(&mut ds, "sock", &login("9876543210", "dev-1"), T0 + 60_000).unwrap();
    assert!(a.is_new_user);
    assert!(!b.is_new_user);
    assert_ne!(a.session_token, b.session_token);
    let u = ds.get_user_by_mobile("9876543210").unwrap();
    assert_eq!(u.total_logins, 1);
    assert_eq!(u.last_login_at, Some(T0 + 60_000));
    assert_eq!(ds.users().len(), 1);
}

#[test]
fn invalid_login_payload_changes_nothing() {
    let mut ds = service();
    let r = EventManager::handle_login(&mut ds, "sock", &login("98765", "dev-1"), T0);
    match r {
        Err(EventError::Invalid(e)) => {
            assert_eq!(e.code, ValidationCode::InvalidLength);
            assert_eq!(e.field, "mobile_no");
        }
        other => panic!("expected a validation error, got {:?}", other),
    }
    assert_eq!(ds.users().len(), 0);
}

#[test]
fn profile_needs_a_verified_session() {
    let mut ds = service();
    let resp = EventManager::handle_login(&mut ds, "sock", &login("9876543210", "dev-1"), T0).unwrap();
    let r = EventManager::handle_set_profile(&mut ds, &profile_request("9876543210", &resp.session_token, None), T0 + 1);
    assert!(matches!(r, Err(EventError::InvalidSession)));
    assert_eq!(r.unwrap_err().error_code(), "INVALID_SESSION");
}

#[test]
fn profile_generates_and_then_protects_a_referral_code() {
    let mut ds = service();
    let a = EventManager::handle_login(&mut ds, "sock", &login("9876543210", "dev-1"), T0).unwrap();
    let _ = EventManager::handle_verify_otp(&mut ds, "sock", &otp_request("9876543210", &a.session_token, &a.otp), T0 + 1).unwrap();
    let p = EventManager::handle_set_profile(&mut ds, &profile_request("9876543210", &a.session_token, None), T0 + 2).unwrap();
    assert_eq!(p.referral_code.len(), 6);
    assert!(p.referral_code.chars().all(|c| c.is_ascii_uppercase() || c.is_ascii_digit()));
    let u = ds.get_user_by_mobile("9876543210").unwrap();
    assert_eq!(u.referral_code.as_deref(), Some(p.referral_code.as_str()));
    assert_eq!(u.full_name.as_deref(), Some("Asha Rao"));
    assert_eq!(u.state.as_deref(), Some("Goa"));

    let b = EventManager::handle_login(&mut ds, "sock", &login("9123456780", "dev-2"), T0).unwrap();
    let mut req = otp_request("9123456780", &b.session_token, &b.otp);
    req.device_id = Some("dev-2".to_string());
    let _ = EventManager::handle_verify_otp(&mut ds, "sock", &req, T0 + 1).unwrap();
    let taken = EventManager::handle_set_profile(&mut ds, &profile_request("9123456780", &b.session_token, Some(&p.referral_code)), T0 + 3);
    match taken {
        Err(e) => assert_eq!(e.error_code(), "REFERRAL_CODE_EXISTS"),
        Ok(_) => panic!("a held referral code was accepted"),
    }
    let own = EventManager::handle_set_profile(&mut ds, &profile_request("9123456780", &b.session_token, Some("MYCODE1")), T0 + 4).unwrap();
    assert_eq!(own.referral_code, "MYCODE1");
}

#[test]
fn language_setting_answers_in_that_language() {
    let mut ds = service();
    let a = EventManager::handle_login(&mut ds, "sock", &login("9876543210", "dev-1"), T0).unwrap();
    let _ = EventManager::handle_verify_otp(&mut ds, "sock", &otp_request("9876543210", &a.session_token, &a.otp), T0 + 1).unwrap();
    let req = LanguagePayload {
        kind: JsonKind::Object,
        mobile_no: Some("9876543210".to_string()),
        session_token: Some(a.session_token.clone()),
        language_code: Some("es".to_string()),
        language_name: Some("Spanish".to_string()),
        region_code: Some("ES".to_string()),
        timezone: None,
        user_preferences: None,
        timestamp: None,
        device_id: None,
        fcm_token: None,
        email: None,
    };
    let r = EventManager::handle_set_language(&mut ds, &req, T0 + 2).unwrap();
    assert_eq!(r.messages.welcome_message, "¡Bienvenido a Game Admin! 🎮");
    assert_eq!(r.user_preferences, "{}");
    let u = ds.get_user_by_mobile("9876543210").unwrap();
    assert_eq!(u.language_code.as_deref(), Some("es"));
    assert_eq!(u.region_code.as_deref(), Some("ES"));
    assert_eq!(u.user_preferences.as_deref(), Some("{}"));
}

#[test]
fn expired_challenges_are_swept() {
    let mut ds = service();
    let a = EventManager::handle_login(&mut ds, "sock", &login("9876543210", "dev-1"), T0).unwrap();
    let _b = EventManager::handle_login(&mut ds, "sock", &login("9123456780", "dev-2"), T0 + 20 * 60 * 1000).unwrap();
    let removed = ds.cleanup_expired_otp_sessions(T0 + 31 * 60 * 1000);
    assert_eq!(removed, 1);
    assert!(!ds.verify_session_and_mobile("9876543210", &a.session_token));
    assert_eq!(ds.cleanup_expired_otp_sessions(T0 + 31 * 60 * 1000), 0);
}

#[test]
fn registration_refuses_a_taken_mobile() {
    let mut ds = service();
    let first = ds.register_new_user("9876543210", "dev-1", "tok", None, T0).unwrap();
    assert_eq!(first.1, 1);
    assert_eq!(ds.register_new_user("9876543210", "dev-9", "tok", None, T0), Err(ServiceError::MobileTaken));
    let second = ds.register_new_user("9123456780", "dev-2", "tok", None, T0).unwrap();
    assert_eq!(second.1, 2);
    assert_ne!(first.0, second.0);
}

#[test]
fn restored_users_keep_their_numbers() {
    let mut d = game_admin::directory::UserDirectory::new();
    d.register_new_user("9000000001", "dev-a", "tok", None, "id-1".to_string(), 1).unwrap();
    let mut ds = DataService::with_users(JwtService::new("k".to_string()), d);
    let (_, n) = ds.register_new_user("9000000002", "dev-b", "tok", None, T0).unwrap();
    assert_eq!(n, 2);
    let resp = EventManager::handle_login(&mut ds, "sock", &login("9000000001", "dev-a"), T0).unwrap();
    assert!(!resp.is_new_user);
}

#[test]
fn login_overflowing_the_clock_changes_nothing() {
    let mut ds = service();
    let r = EventManager::handle_login(&mut ds, "sock", &login("9876543210", "dev-1"), i64::MAX - 10);
    match r {
        Err(e) => assert_eq!(e.error_code(), "SYSTEM_ERROR"),
        Ok(_) => panic!("an expiry past i64 was accepted"),
    }
    assert_eq!(ds.users().len(), 0);
}

#[test]
fn invalid_otp_payload_answers_length_error() {
    let mut ds = service();
    let r = EventManager::handle_verify_otp(&mut ds, "sock", &otp_request("9876543210", "T", "12345"), T0);
    match r {
        Err(e) => {
            assert_eq!(e.error_code(), "INVALID_LENGTH");
            assert_eq!(e.error_type(), "LENGTH_ERROR");
        }
        Ok(_) => panic!("a five-digit code was accepted"),
    }
}

#[test]
fn profile_and_language_store_every_supplied_field() {
    let mut ds = service();
    let a = EventManager::handle_login(&mut ds, "sock", &login("9876543210", "dev-1"), T0).unwrap();
    let _ = EventManager::handle_verify_otp(&mut ds, "sock", &otp_request("9876543210", &a.session_token, &a.otp), T0 + 1).unwrap();
    let mut req = profile_request("9876543210", &a.session_token, Some("OWN123"));
    req.profile_data = Some("{\"team\":\"red\"}".to_string());
    let _ = EventManager::handle_set_profile(&mut ds, &req, T0 + 2).unwrap();
    let u = ds.get_user_by_mobile("9876543210").unwrap();
    assert_eq!(u.state.as_deref(), Some("Goa"));
    assert_eq!(u.profile_data.as_deref(), Some("{\"team\":\"red\"}"));
    assert_eq!(u.updated_at, T0 + 2);

    let lang = LanguagePayload {
        kind: JsonKind::Object,
        mobile_no: Some("9876543210".to_string()),
        session_token: Some(a.session_token.clone()),
        language_code: Some("hi".to_string()),
        language_name: Some("Hindi".to_string()),
        region_code: Some("IN".to_string()),
        timezone: Some("Asia/Kolkata".to_string()),
        user_preferences: Some("{\"dark\":true}".to_string()),
        timestamp: None,
        device_id: None,
        fcm_token: None,
        email: None,
    };
    let r = EventManager::handle_set_language(&mut ds, &lang, T0 + 3).unwrap();
    assert_eq!(r.timezone.as_deref(), Some("Asia/Kolkata"));
    let u = ds.get_user_by_mobile("9876543210").unwrap();
    assert_eq!(u.region_code.as_deref(), Some("IN"));
    assert_eq!(u.timezone.as_deref(), Some("Asia/Kolkata"));
    assert_eq!(u.user_preferences.as_deref(), Some("{\"dark\":true}"));
    assert_eq!(u.referral_code.as_deref(), Some("OWN123"));
}
