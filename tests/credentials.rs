use game_admin::jwt::{JwtService, TokenError};

const NOW: i64 = 1_700_000_000;

fn svc() -> JwtService {
    JwtService::new("secret-one".to_string())
}

fn mint(s: &JwtService, at: i64) -> String {
    s.generate_token_at("user-1", 7, "9876543210", "dev-1", "push-1", at, "jti-1".to_string()).unwrap()
}

#[test]
fn minted_claims_come_back_until_expiry() {
    let s = svc();
    let t = mint(&s, NOW);
    assert_ne!(t, "user-1");
    assert_eq!(t.split('.').count(), 3);
    let c = s.verify_token_at(&t, NOW + 10).unwrap();
    assert_eq!(c.sub, "user-1");
    assert_eq!(c.user_number, 7);
    assert_eq!(c.mobile_no, "9876543210");
    assert_eq!(c.device_id, "dev-1");
    assert_eq!(c.fcm_token, "push-1");
    assert_eq!(c.iat, NOW);
    assert_eq!(c.exp, NOW + 7 * 24 * 3600);
    assert_eq!(c.jti, "jti-1");
    assert!(s.verify_token_at(&t, NOW + 7 * 24 * 3600).is_ok());
    assert_eq!(s.verify_token_at(&t, NOW + 7 * 24 * 3600 + 1).unwrap_err(), TokenError::Expired);
}

#[test]
fn same_inputs_sign_alike() {
    let s = svc();
    assert_eq!(mint(&s, NOW), mint(&s, NOW));
    assert_ne!(mint(&s, NOW), mint(&s, NOW + 1));
}

#[test]
fn foreign_or_broken_tokens_are_invalid() {
    let t = mint(&svc(), NOW);
    let other = JwtService::new("secret-two".to_string());
    assert_eq!(other.verify_token_at(&t, NOW).unwrap_err(), TokenError::Invalid);
    assert_eq!(svc().verify_token_at("not.a.token", NOW).unwrap_err(), TokenError::Invalid);
    assert_eq!(svc().is_token_expired_at("garbage", NOW).unwrap_err(), TokenError::Invalid);
}

#[test]
fn device_binding() {
    let s = svc();
    let t = mint(&s, NOW);
    assert!(s.verify_token_with_device_check_at(&t, "dev-1", "9876543210", NOW).is_ok());
    assert_eq!(s.verify_token_with_device_check_at(&t, "dev-2", "9876543210", NOW).unwrap_err(), TokenError::DeviceMismatch);
    assert_eq!(s.verify_token_with_device_check_at(&t, "dev-1", "9999999999", NOW).unwrap_err(), TokenError::MobileMismatch);
}

#[test]
fn custom_lifetime_and_overflow() {
    let s = JwtService::new_with_expiry("k".to_string(), 1);
    let t = s.generate_token_at("u", 1, "m", "d", "f", NOW, "j".to_string()).unwrap();
    assert_eq!(s.verify_token_at(&t, NOW + 3601).unwrap_err(), TokenError::Expired);
    assert_eq!(s.is_token_expired_at(&t, NOW + 3601), Ok(true));
    assert_eq!(s.is_token_expired_at(&t, NOW), Ok(false));
    let huge = JwtService::new_with_expiry("k".to_string(), i64::MAX);
    assert_eq!(huge.generate_token_at("u", 1, "m", "d", "f", NOW, "j".to_string()), Err(TokenError::Overflow));
}

#[test]
fn refresh_keeps_identity() {
    let s = svc();
    let t = mint(&s, NOW);
    let r = s.refresh_token_at(&t, NOW + 100, "jti-2".to_string()).unwrap();
    let c = s.verify_token_at(&r, NOW + 100).unwrap();
    assert_eq!(c.sub, "user-1");
    assert_eq!(c.user_number, 7);
    assert_eq!(c.iat, NOW + 100);
    assert_eq!(c.jti, "jti-2");
    assert_eq!(s.refresh_token_at(&t, NOW + 8 * 24 * 3600, "j".to_string()).unwrap_err(), TokenError::Expired);
}

#[test]
fn payload_reports_time_left() {
    let s = svc();
    let t = mint(&s, NOW);
    let p = s.get_token_payload_at(&t, NOW + 4).unwrap();
    assert_eq!(p.user_id, "user-1");
    assert_eq!(p.token_type, "Bearer");
    assert_eq!(p.expires_in, 7 * 24 * 3600 - 4);
}

#[test]
fn clock_based_calls_accept_a_fresh_token() {
    let s = svc();
    let t = s.generate_token("user-1", 7, "9876543210", "dev-1", "push-1").unwrap();
    assert_eq!(s.verify_token(&t).unwrap().sub, "user-1");
    assert!(s.verify_token_with_device_check(&t, "dev-1", "9876543210").is_ok());
    assert_eq!(s.is_token_expired(&t), Ok(false));
    assert!(s.refresh_token(&t).is_ok());
    assert_eq!(s.get_token_payload(&t).unwrap().user_number, 7);
}
