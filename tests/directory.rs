use game_admin::directory::UserDirectory;
use game_admin::ledger::SessionLedger;
use game_admin::models::{OtpVerificationEvent, OtpVerificationResult, ServiceError};

fn filled() -> UserDirectory {
    let mut d = UserDirectory::new();
    d.register_new_user("9000000001", "dev-a", "tok-a", None, "id-1".to_string(), 100).unwrap();
    d.register_new_user("9000000002", "dev-b", "tok-b", Some("b@x.io".to_string()), "id-2".to_string(), 200).unwrap();
    d.register_new_user("9000000003", "dev-c", "tok-c", None, "id-3".to_string(), 300).unwrap();
    d
}

#[test]
fn numbers_run_from_one_without_gaps() {
    let d = filled();
    let numbers: Vec<u64> = d.get_all_users().iter().map(|u| u.user_number).collect();
    assert_eq!(numbers, vec![1, 2, 3]);
}

#[test]
fn duplicates_are_refused() {
    let mut d = filled();
    assert_eq!(d.register_new_user("9000000001", "x", "y", None, "id-9".to_string(), 1), Err(ServiceError::MobileTaken));
    assert_eq!(d.register_new_user("9000000009", "x", "y", None, "id-2".to_string(), 1), Err(ServiceError::IdentityTaken));
    assert_eq!(d.len(), 3);
}

#[test]
fn name_only_update_keeps_other_fields() {
    let mut d = filled();
    d.update_user_profile("9000000002", None, Some("Goa".to_string()), Some("CODE22".to_string()), None, None, 400).unwrap();
    d.update_user_profile("9000000002", Some("Ravi".to_string()), None, None, None, None, 500).unwrap();
    let u = d.get_user_by_mobile("9000000002").unwrap();
    assert_eq!(u.full_name.as_deref(), Some("Ravi"));
    assert_eq!(u.referral_code.as_deref(), Some("CODE22"));
    assert_eq!(u.state.as_deref(), Some("Goa"));
    assert_eq!(u.email.as_deref(), Some("b@x.io"));
    assert_eq!(u.updated_at, 500);
    assert_eq!(u.created_at, 200);
}

#[test]
fn referral_rules() {
    let mut d = filled();
    d.update_user_profile("9000000001", None, None, Some("CODE11".to_string()), None, None, 1).unwrap();
    assert!(d.check_referral_code_exists("CODE11"));
    assert_eq!(d.update_user_profile("9000000002", None, None, Some("CODE11".to_string()), None, None, 2), Err(ServiceError::ReferralCodeTaken));
    assert_eq!(d.update_user_profile("9000000002", None, None, None, Some("NOPE99".to_string()), None, 2), Err(ServiceError::ReferrerUnknown));
    d.update_user_profile("9000000002", None, None, None, Some("CODE11".to_string()), None, 2).unwrap();
    assert_eq!(d.update_user_profile("9111111111", Some("X".to_string()), None, None, None, None, 2), Err(ServiceError::UserNotFound));
    let c = d.generate_unique_referral_code().unwrap();
    assert_eq!(c.len(), 6);
    assert!(!d.check_referral_code_exists(&c));
}

#[test]
fn logins_and_tokens_and_languages() {
    let mut d = filled();
    d.update_user_login_info("9000000003", 900);
    d.update_user_login_info("9999999999", 900);
    let u = d.get_user_by_mobile("9000000003").unwrap();
    assert_eq!(u.total_logins, 1);
    assert_eq!(u.last_login_at, Some(900));
    d.update_user_fcm_token("9000000003", "tok-new".to_string(), 950);
    assert_eq!(d.get_user_by_mobile("9000000003").unwrap().fcm_token, "tok-new");
    d.update_user_language_settings("9000000003", Some("fr".to_string()), None, None, None, None, 960).unwrap();
    assert_eq!(d.get_user_by_mobile("9000000003").unwrap().language_code.as_deref(), Some("fr"));
    assert_eq!(d.update_user_language_settings("9999999999", None, None, None, None, None, 1), Err(ServiceError::UserNotFound));
}

#[test]
fn statistics_count_new_and_active() {
    let d = filled();
    let s = d.get_user_statistics(150);
    assert_eq!(s.total_users, 3);
    assert_eq!(s.new_users, 2);
    assert_eq!(s.active_users, 3);
}

fn attempt(mobile: &str, token: &str) -> OtpVerificationEvent {
    OtpVerificationEvent {
        socket_id: "s".to_string(),
        mobile_no: mobile.to_string(),
        session_token: token.to_string(),
        otp: "000000".to_string(),
        is_success: false,
        user_id: None,
        user_number: None,
        jwt_token: None,
        timestamp: 0,
    }
}

#[test]
fn ledger_lookup_expiry_and_ceiling() {
    let mut l = SessionLedger::with_limits(1000, 2);
    l.issue("s", "9000000001", "d", "111".to_string(), "424242".to_string(), 0).unwrap();
    assert_eq!(l.issue("s", "9000000002", "d", "111".to_string(), "1".to_string(), 0), Err(ServiceError::SessionTokenTaken));
    assert_eq!(l.issue("s", "9000000002", "d", "222".to_string(), "1".to_string(), i64::MAX), Err(ServiceError::ClockOverflow));
    assert_eq!(l.find_login_success_by_mobile_and_session("9000000001", "111").unwrap().expires_at, 1000);
    assert!(l.find_login_success_by_mobile_and_session("9000000002", "111").is_none());
    assert_eq!(l.check_otp("9000000001", "111", "424242", 1000), OtpVerificationResult::Success);
    assert_eq!(l.check_otp("9000000001", "111", "424242", 1001), OtpVerificationResult::Expired);
    assert_eq!(l.check_otp("9000000001", "111", "424241", 10), OtpVerificationResult::Invalid);
    assert_eq!(l.check_otp("9000000001", "112", "424242", 10), OtpVerificationResult::NotFound);
    assert!(l.store_otp_verification_event(attempt("9000000001", "111")));
    assert!(l.store_otp_verification_event(attempt("9000000001", "111")));
    assert!(!l.store_otp_verification_event(attempt("9000000001", "111")));
    assert_eq!(l.get_verification_attempts_count("9000000001", "111"), 2);
    assert!(!l.check_otp_attempts("9000000001", "111"));
    assert_eq!(l.check_otp("9000000001", "111", "424242", 10), OtpVerificationResult::RateLimited);
    assert_eq!(l.max_attempts(), 2);
}

#[test]
fn generation_succeeds_when_no_code_is_held() {
    let d = filled();
    let c = d.generate_unique_referral_code().unwrap();
    assert!(c.chars().all(|x| x.is_ascii_uppercase() || x.is_ascii_digit()));
    let held = vec!["AAAAAA".to_string(), "BBBBBB".to_string()];
    assert_eq!(d.pick_unused_code(&held), Some(0));
}

#[test]
fn restoring_checks_the_rules() {
    let d = filled();
    let users: Vec<_> = d.get_all_users().iter().map(|u| {
        let mut v = game_admin::models::UserRegister::new(u.mobile_no.clone(), u.device_id.clone(), u.fcm_token.clone(), u.email.clone(), u.user_number, u.user_id.clone(), u.created_at);
        v.referral_code = u.referral_code.clone();
        v
    }).collect();
    let restored = UserDirectory::from_users(users).unwrap();
    assert_eq!(restored.len(), 3);
    assert!(restored.user_exists("9000000002"));

    let dup = vec![
        game_admin::models::UserRegister::new("9000000001".into(), "d".into(), "t".into(), None, 1, "a".into(), 0),
        game_admin::models::UserRegister::new("9000000001".into(), "d".into(), "t".into(), None, 2, "b".into(), 0),
    ];
    assert!(UserDirectory::from_users(dup).is_none());
    let gap = vec![game_admin::models::UserRegister::new("9000000001".into(), "d".into(), "t".into(), None, 2, "a".into(), 0)];
    assert!(UserDirectory::from_users(gap).is_none());
}
