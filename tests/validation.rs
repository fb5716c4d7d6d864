use game_admin::validation::{
    DeviceInfoPayload, JsonKind, LanguagePayload, LoginPayload, OtpPayload, ProfilePayload,
    ValidationCode, ValidationError, ValidationManager,
};

fn s(x: &str) -> Option<String> {
    Some(x.to_string())
}

fn login() -> LoginPayload {
    LoginPayload {
        kind: JsonKind::Object,
        mobile_no: s("9876543210"),
        device_id: s("dev-1"),
        fcm_token: Some("t".repeat(150)),
        email: None,
        timestamp: s("2024-01-15T10:30:00Z"),
    }
}

fn otp() -> OtpPayload {
    OtpPayload {
        kind: JsonKind::Object,
        mobile_no: s("9876543210"),
        otp: s("123456"),
        session_token: s("123456789"),
        timestamp: None,
        device_id: None,
        fcm_token: None,
        email: None,
    }
}

fn language() -> LanguagePayload {
    LanguagePayload {
        kind: JsonKind::Object,
        mobile_no: s("9876543210"),
        session_token: s("123456789"),
        language_code: s("en"),
        language_name: s("English"),
        region_code: s("IN"),
        timezone: s("Asia/Kolkata"),
        user_preferences: None,
        timestamp: None,
        device_id: None,
        fcm_token: None,
        email: None,
    }
}

fn profile() -> ProfilePayload {
    ProfilePayload {
        kind: JsonKind::Object,
        mobile_no: s("9876543210"),
        session_token: s("123456789"),
        full_name: s("Asha Rao"),
        state: s("Goa"),
        referral_code: s("ABCD12"),
        referred_by: None,
        profile_data: None,
        timestamp: None,
        device_id: None,
        fcm_token: None,
        email: None,
    }
}

fn device() -> DeviceInfoPayload {
    DeviceInfoPayload {
        kind: JsonKind::Object,
        device_id: s("dev-1"),
        device_type: s("phone"),
        timestamp: s("2024-01-15T10:30:00Z"),
        manufacturer: None,
        model: None,
        firmware_version: None,
        capabilities: Some(vec![JsonKind::Text, JsonKind::Text]),
    }
}

fn fails(r: Result<(), ValidationError>, code: ValidationCode, field: &str) {
    match r {
        Err(e) => {
            assert_eq!(e.code, code);
            assert_eq!(e.field, field);
        }
        Ok(()) => panic!("expected {:?} on {}", code, field),
    }
}

#[test]
fn valid_payloads_pass() {
    assert!(ValidationManager::validate_login_data(&login()).is_ok());
    assert!(ValidationManager::validate_otp_data(&otp()).is_ok());
    assert!(ValidationManager::validate_language_setting_data(&language()).is_ok());
    assert!(ValidationManager::validate_user_profile_data(&profile()).is_ok());
    assert!(ValidationManager::validate_device_info(&device()).is_ok());
}

#[test]
fn login_rules_in_order() {
    let mut p = login();
    p.kind = JsonKind::Array;
    fails(ValidationManager::validate_login_data(&p), ValidationCode::InvalidFormat, "root");
    let mut p = login();
    p.mobile_no = None;
    p.device_id = None;
    fails(ValidationManager::validate_login_data(&p), ValidationCode::MissingField, "mobile_no");
    let mut p = login();
    p.fcm_token = None;
    fails(ValidationManager::validate_login_data(&p), ValidationCode::MissingField, "fcm_token");
    let mut p = login();
    p.device_id = s("");
    fails(ValidationManager::validate_login_data(&p), ValidationCode::EmptyField, "device_id");
    let mut p = login();
    p.mobile_no = s("98765x3210");
    fails(ValidationManager::validate_login_data(&p), ValidationCode::InvalidFormat, "mobile_no");
    let mut p = login();
    p.mobile_no = s("1234567890123456");
    fails(ValidationManager::validate_login_data(&p), ValidationCode::InvalidLength, "mobile_no");
    let mut p = login();
    p.device_id = s("dev 1");
    fails(ValidationManager::validate_login_data(&p), ValidationCode::InvalidFormat, "device_id");
    let mut p = login();
    p.device_id = s("d1");
    fails(ValidationManager::validate_login_data(&p), ValidationCode::InvalidLength, "device_id");
    let mut p = login();
    p.fcm_token = Some("t".repeat(99));
    fails(ValidationManager::validate_login_data(&p), ValidationCode::InvalidLength, "fcm_token");
    let mut p = login();
    p.fcm_token = Some("t".repeat(500));
    assert!(ValidationManager::validate_login_data(&p).is_ok());
    let mut p = login();
    p.timestamp = s("2024-01-15 10:30:00");
    fails(ValidationManager::validate_login_data(&p), ValidationCode::InvalidFormat, "timestamp");
}

#[test]
fn otp_rules() {
    let mut p = otp();
    p.otp = s("12345");
    fails(ValidationManager::validate_otp_data(&p), ValidationCode::InvalidLength, "otp");
    let mut p = otp();
    p.otp = s("12a456");
    fails(ValidationManager::validate_otp_data(&p), ValidationCode::InvalidFormat, "otp");
    let mut p = otp();
    p.otp = s("");
    fails(ValidationManager::validate_otp_data(&p), ValidationCode::EmptyField, "otp");
    let mut p = otp();
    p.session_token = s("");
    fails(ValidationManager::validate_otp_data(&p), ValidationCode::InvalidValue, "session_token");
    let mut p = otp();
    p.session_token = None;
    fails(ValidationManager::validate_otp_data(&p), ValidationCode::MissingField, "session_token");
}

#[test]
fn language_rules() {
    let mut p = language();
    p.language_code = s("EN");
    fails(ValidationManager::validate_language_setting_data(&p), ValidationCode::InvalidFormat, "language_code");
    let mut p = language();
    p.language_code = s("eng");
    fails(ValidationManager::validate_language_setting_data(&p), ValidationCode::InvalidLength, "language_code");
    let mut p = language();
    p.language_name = s("E");
    fails(ValidationManager::validate_language_setting_data(&p), ValidationCode::InvalidLength, "language_name");
    let mut p = language();
    p.region_code = s("in");
    fails(ValidationManager::validate_language_setting_data(&p), ValidationCode::InvalidFormat, "region_code");
    let mut p = language();
    p.region_code = s("IND");
    fails(ValidationManager::validate_language_setting_data(&p), ValidationCode::InvalidLength, "region_code");
    let mut p = language();
    p.timezone = s("");
    fails(ValidationManager::validate_language_setting_data(&p), ValidationCode::EmptyField, "timezone");
    let mut p = language();
    p.timezone = s("UT");
    fails(ValidationManager::validate_language_setting_data(&p), ValidationCode::InvalidLength, "timezone");
}

#[test]
fn profile_rules() {
    let mut p = profile();
    p.full_name = s("12");
    fails(ValidationManager::validate_user_profile_data(&p), ValidationCode::InvalidFormat, "full_name");
    let mut p = profile();
    p.full_name = s("A");
    fails(ValidationManager::validate_user_profile_data(&p), ValidationCode::InvalidLength, "full_name");
    let mut p = profile();
    p.state = s("G");
    fails(ValidationManager::validate_user_profile_data(&p), ValidationCode::InvalidLength, "state");
    let mut p = profile();
    p.referral_code = s("AB1");
    fails(ValidationManager::validate_user_profile_data(&p), ValidationCode::InvalidLength, "referral_code");
    let mut p = profile();
    p.referral_code = s("AB-12");
    fails(ValidationManager::validate_user_profile_data(&p), ValidationCode::InvalidFormat, "referral_code");
    let mut p = profile();
    p.referral_code = s("   ");
    assert!(ValidationManager::validate_user_profile_data(&p).is_ok());
    let mut p = profile();
    p.referred_by = s("x");
    fails(ValidationManager::validate_user_profile_data(&p), ValidationCode::InvalidLength, "referred_by");
}

#[test]
fn device_info_rules() {
    let mut p = device();
    p.capabilities = Some(vec![JsonKind::Text, JsonKind::Number]);
    fails(ValidationManager::validate_device_info(&p), ValidationCode::InvalidType, "capabilities[1]");
    let mut p = device();
    p.capabilities = Some(vec![]);
    fails(ValidationManager::validate_device_info(&p), ValidationCode::EmptyField, "capabilities");
    let mut p = device();
    p.timestamp = s("yesterday");
    fails(ValidationManager::validate_device_info(&p), ValidationCode::InvalidFormat, "timestamp");
    let mut p = device();
    p.timestamp = None;
    fails(ValidationManager::validate_device_info(&p), ValidationCode::MissingField, "timestamp");
    let mut p = device();
    p.model = s("");
    fails(ValidationManager::validate_device_info(&p), ValidationCode::EmptyField, "model");
}

#[test]
fn codes_and_categories() {
    assert_eq!(ValidationCode::MissingField.as_str(), "MISSING_FIELD");
    assert_eq!(ValidationCode::MissingField.error_type(), "FIELD_ERROR");
    assert_eq!(ValidationCode::InvalidLength.error_type(), "LENGTH_ERROR");
    assert_eq!(ValidationCode::InvalidType.as_str(), "INVALID_TYPE");
}
