use vstd::prelude::*;

verus! {

/// A registered user, as the directory stores it. Timestamps are Unix milliseconds.
pub struct UserRegister {
    pub user_id: String,
    pub user_number: u64,
    pub mobile_no: String,
    pub device_id: String,
    pub fcm_token: String,
    pub email: Option<String>,
    pub full_name: Option<String>,
    pub state: Option<String>,
    pub referral_code: Option<String>,
    pub referred_by: Option<String>,
    pub language_code: Option<String>,
    pub language_name: Option<String>,
    pub region_code: Option<String>,
    pub timezone: Option<String>,
    /// Free-form profile data, as JSON text.
    pub profile_data: Option<String>,
    /// Free-form preferences, as JSON text.
    pub user_preferences: Option<String>,
    pub created_at: i64,
    pub updated_at: i64,
    pub last_login_at: Option<i64>,
    pub total_logins: u64,
    pub is_active: bool,
}

/// The record a fresh registration creates.
pub open spec fn fresh_user(
    mobile_no: String,
    device_id: String,
    fcm_token: String,
    email: Option<String>,
    user_number: u64,
    user_id: String,
    now: i64,
) -> UserRegister {
    UserRegister {
        user_id,
        user_number,
        mobile_no,
        device_id,
        fcm_token,
        email,
        full_name: None,
        state: None,
        referral_code: None,
        referred_by: None,
        language_code: None,
        language_name: None,
        region_code: None,
        timezone: None,
        profile_data: None,
        user_preferences: None,
        created_at: now,
        updated_at: now,
        last_login_at: Some(now),
        total_logins: 0,
        is_active: true,
    }
}

impl UserRegister {
    /// A new active user with the given identity and sequence number, registered at `now`.
    pub fn new(
        mobile_no: String,
        device_id: String,
        fcm_token: String,
        email: Option<String>,
        user_number: u64,
        user_id: String,
        now: i64,
    ) -> (r: Self)
        ensures
            r == fresh_user(mobile_no, device_id, fcm_token, email, user_number, user_id, now),
    {
        UserRegister {
            user_id,
            user_number,
            mobile_no,
            device_id,
            fcm_token,
            email,
            full_name: None,
            state: None,
            referral_code: None,
            referred_by: None,
            language_code: None,
            language_name: None,
            region_code: None,
            timezone: None,
            profile_data: None,
            user_preferences: None,
            created_at: now,
            updated_at: now,
            last_login_at: Some(now),
            total_logins: 0,
            is_active: true,
        }
    }

    /// Records a login from a device with push token `fcm_token` at `now`.
    pub fn update_login_info(&mut self, fcm_token: String, now: i64)
        ensures
            *final(self) == (UserRegister {
                fcm_token,
                last_login_at: Some(now),
                updated_at: now,
                ..*old(self)
            }),
    {
        self.fcm_token = fcm_token;
        self.last_login_at = Some(now);
        self.updated_at = now;
    }
}

/// A login challenge: the one-time passcode issued for a login, under its session token.
/// Timestamps are Unix milliseconds.
pub struct LoginSuccessEvent {
    pub socket_id: String,
    pub mobile_no: String,
    pub device_id: String,
    pub session_token: String,
    pub otp: String,
    pub timestamp: i64,
    pub expires_at: i64,
    pub verified_at: Option<i64>,
    pub jwt_token: Option<String>,
}

impl LoginSuccessEvent {
    /// Whether the challenge is the one for this mobile number and session token.
    pub open spec fn is_for(&self, mobile_no: Seq<char>, session_token: Seq<char>) -> bool {
        self.mobile_no@ == mobile_no && self.session_token@ == session_token
    }

    /// Marks the challenge as consumed by a successful verification at `now`.
    pub fn mark_verified(&mut self, jwt_token: Option<String>, now: i64)
        ensures
            *final(self) == (LoginSuccessEvent {
                verified_at: Some(now),
                jwt_token,
                ..*old(self)
            }),
    {
        self.verified_at = Some(now);
        self.jwt_token = jwt_token;
    }
}

/// One verification attempt against a login challenge.
pub struct OtpVerificationEvent {
    pub socket_id: String,
    pub mobile_no: String,
    pub session_token: String,
    pub otp: String,
    pub is_success: bool,
    pub user_id: Option<String>,
    pub user_number: Option<u64>,
    pub jwt_token: Option<String>,
    pub timestamp: i64,
}

/// How a verification request was resolved.
#[derive(Debug, Clone, Copy, PartialEq, Eq, Structural)]
pub enum OtpVerificationResult {
    /// The code matched an unexpired challenge.
    Success,
    /// The code did not match.
    Invalid,
    /// The challenge expired before the request.
    Expired,
    /// No challenge exists for this mobile number and session token.
    NotFound,
    /// The challenge has used up its attempts; the code was not compared.
    RateLimited,
}

/// Failures of the directory, the ledger and the credential issuer.
#[derive(Debug, Clone, Copy, PartialEq, Eq, Structural)]
pub enum ServiceError {
    /// A user with this mobile number already exists.
    MobileTaken,
    /// The identity handed to a registration is already in use.
    IdentityTaken,
    /// Sequence numbers are exhausted.
    NumbersExhausted,
    /// No user has this mobile number.
    UserNotFound,
    /// The referral code is already held by a user.
    ReferralCodeTaken,
    /// The referring code is held by no user.
    ReferrerUnknown,
    /// No unused referral code was found within the allowed draws.
    ReferralCodeExhausted,
    /// The session token is already in use.
    SessionTokenTaken,
    /// No unused session token was found within the allowed draws.
    SessionTokenExhausted,
    /// A timestamp would leave the range of `i64`.
    ClockOverflow,
}

} // verus!
