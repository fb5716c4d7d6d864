use vstd::prelude::*;

use crate::directory::{
    has_mobile, has_referral, is_generated_code, language_applied, login_counted, profile_applied,
};
use crate::models::fresh_user;
use crate::random::random_digits;
use crate::ledger::{challenge_for, has_challenge};
use crate::messages::{get_localized_success_messages, texts_for, LocalizedMessages};
use crate::models::ServiceError;
use crate::service::{verify_post, DataService, VerifyOutcome};
use crate::validation::{
    category_text, code_text, login_failure, otp_failure, present, present_text, profile_failure, language_failure,
    LanguagePayload, LoginPayload, OtpPayload, ProfilePayload, ValidationError, ValidationManager,
};

verus! {

/// Digits in a session token.
pub const SESSION_TOKEN_DIGITS: usize = 9;

/// Digits in a one-time passcode.
pub const OTP_DIGITS: usize = 6;

/// Why a request was refused.
#[derive(Debug)]
pub enum EventError {
    /// The payload broke a rule.
    Invalid(ValidationError),
    /// The session token names no verified login for this mobile number.
    InvalidSession,
    /// The directory, the ledger or the issuer refused.
    Service(ServiceError),
}

/// The stable code of a refusal.
pub open spec fn event_code_text(e: EventError) -> Seq<char> {
    match e {
        EventError::Invalid(v) => code_text(v.code),
        EventError::InvalidSession => "INVALID_SESSION"@,
        EventError::Service(ServiceError::ReferralCodeTaken) => "REFERRAL_CODE_EXISTS"@,
        EventError::Service(ServiceError::ReferrerUnknown) => "REFERRER_NOT_FOUND"@,
        EventError::Service(ServiceError::ReferralCodeExhausted) => "REFERRAL_CODE_GENERATION_ERROR"@,
        EventError::Service(_) => "SYSTEM_ERROR"@,
    }
}

/// The category of a refusal.
pub open spec fn event_category_text(e: EventError) -> Seq<char> {
    match e {
        EventError::Invalid(v) => category_text(v.code),
        EventError::InvalidSession => "AUTHENTICATION_ERROR"@,
        EventError::Service(ServiceError::ReferralCodeTaken) => "VALIDATION_ERROR"@,
        EventError::Service(ServiceError::ReferrerUnknown) => "VALIDATION_ERROR"@,
        EventError::Service(_) => "SYSTEM_ERROR"@,
    }
}

impl EventError {
    /// The stable code sent to the caller.
    pub fn error_code(&self) -> (r: &'static str)
        ensures
            r@ == event_code_text(*self),
    {
        match self {
            EventError::Invalid(v) => v.code.as_str(),
            EventError::InvalidSession => "INVALID_SESSION",
            EventError::Service(ServiceError::ReferralCodeTaken) => "REFERRAL_CODE_EXISTS",
            EventError::Service(ServiceError::ReferrerUnknown) => "REFERRER_NOT_FOUND",
            EventError::Service(ServiceError::ReferralCodeExhausted) => "REFERRAL_CODE_GENERATION_ERROR",
            EventError::Service(_) => "SYSTEM_ERROR",
        }
    }

    /// The category of the failure.
    pub fn error_type(&self) -> (r: &'static str)
        ensures
            r@ == event_category_text(*self),
    {
        match self {
            EventError::Invalid(v) => v.code.error_type(),
            EventError::InvalidSession => "AUTHENTICATION_ERROR",
            EventError::Service(ServiceError::ReferralCodeTaken) => "VALIDATION_ERROR",
            EventError::Service(ServiceError::ReferrerUnknown) => "VALIDATION_ERROR",
            EventError::Service(_) => "SYSTEM_ERROR",
        }
    }
}

/// The answer to a login: the challenge issued.
#[derive(Debug)]
pub struct LoginResponse {
    pub mobile_no: String,
    pub device_id: String,
    pub session_token: String,
    pub otp: String,
    pub is_new_user: bool,
}

/// The answer to a profile request: what was stored.
#[derive(Debug)]
pub struct ProfileResponse {
    pub mobile_no: String,
    pub session_token: String,
    pub full_name: String,
    pub state: String,
    pub referral_code: String,
    pub referred_by: Option<String>,
    pub profile_data: Option<String>,
}

/// The answer to a language request: what was stored, and texts in that language.
#[derive(Debug)]
pub struct LanguageResponse {
    pub mobile_no: String,
    pub session_token: String,
    pub language_code: String,
    pub language_name: String,
    pub region_code: Option<String>,
    pub timezone: Option<String>,
    pub user_preferences: String,
    pub messages: LocalizedMessages,
}

/// The text of an optional field, or `unknown`.
pub open spec fn text_or_unknown(v: Option<String>) -> Seq<char> {
    if v is Some {
        v->0@
    } else {
        "unknown"@
    }
}

/// The service error a handler answered with, if any.
pub open spec fn service_error<T>(r: Result<T, EventError>) -> Option<ServiceError> {
    match r {
        Err(EventError::Service(e)) => Some(e),
        _ => None,
    }
}

/// A challenge issued at `now` with this lifetime expires within the range of `i64`.
pub open spec fn challenge_fits(now: i64, lifetime: i64) -> bool {
    i64::MIN <= now + lifetime <= i64::MAX
}

/// `s` is `n` decimal digits, the first of them not `0`.
pub open spec fn passcode_shape(s: Seq<char>, n: usize) -> bool {
    &&& s.len() == n
    &&& s[0] != '0'
    &&& forall|i: int| 0 <= i < s.len() ==> '0' <= #[trigger] s[i] && s[i] <= '9'
}

/// The session named by `m` and `t` was issued and then verified.
pub open spec fn verified_session(l: crate::ledger::SessionLedger, m: Option<String>, t: Option<String>) -> bool {
    has_challenge(l.sessions(), m->0@, t->0@) && challenge_for(l.sessions(), m->0@, t->0@).verified_at is Some
}

/// A handler's answer to a verification, as the authority gave it.
pub open spec fn as_service(r: Result<VerifyOutcome, EventError>) -> Result<VerifyOutcome, ServiceError> {
    match r {
        Ok(o) => Ok(o),
        Err(EventError::Service(e)) => Err(e),
        Err(_) => Err(ServiceError::UserNotFound),
    }
}

/// A copy of an optional text.
fn copy_text(v: &Option<String>) -> (r: Option<String>)
    ensures
        r == *v,
{
    match v {
        Some(s) => Some(s.clone()),
        None => None,
    }
}

/// The text of an optional field, or `unknown`.
fn or_unknown(v: &Option<String>) -> (r: String)
    ensures
        r@ == text_or_unknown(*v),
{
    match v {
        Some(s) => s.clone(),
        None => "unknown".to_owned(),
    }
}

/// Turns requests into decisions on the authority.
pub struct EventManager;

impl EventManager {
    /// A login: checks the payload, checks that the challenge's expiry fits in `i64` and
    /// that a freshly drawn session token is unused, counts the login of a known user or
    /// registers a new one, and issues a challenge with that token and a fresh passcode,
    /// valid from `now` (Unix milliseconds) for one lifetime. Every failure leaves
    /// everything as it was.
    pub fn handle_login(ds: &mut DataService, socket_id: &str, p: &LoginPayload, now: i64) -> (r:
        Result<LoginResponse, EventError>)
        requires
            old(ds).wf(),
        ensures
            final(ds).wf(),
            final(ds).issuer() == old(ds).issuer(),
            final(ds).book().attempts() == old(ds).book().attempts(),
            final(ds).book().lifetime() == old(ds).book().lifetime(),
            final(ds).book().ceiling() == old(ds).book().ceiling(),
            login_failure(*p) is Some <==> r matches Err(EventError::Invalid(_)),
            r matches Err(EventError::Invalid(e)) ==> login_failure(*p) == Some((e.code, e.field@)),
            !(r matches Err(EventError::InvalidSession)),
            r is Err ==> final(ds).dir() == old(ds).dir() && final(ds).book() == old(ds).book(),
            r matches Err(EventError::Service(e)) ==> e == ServiceError::ClockOverflow || e
                == ServiceError::SessionTokenTaken || ((e == ServiceError::IdentityTaken || e
                == ServiceError::NumbersExhausted) && !has_mobile(old(ds).dir()@, p.mobile_no->0@)),
            login_failure(*p) is None ==> (service_error(r) == Some(ServiceError::ClockOverflow)
                <==> !challenge_fits(now, old(ds).book().lifetime())),
            login_failure(*p) is None && challenge_fits(now, old(ds).book().lifetime())
                && old(ds).book().sessions().len() == 0 && has_mobile(
                old(ds).dir()@,
                p.mobile_no->0@,
            ) ==> r is Ok,
            login_failure(*p) is None && challenge_fits(now, old(ds).book().lifetime())
                && old(ds).book().sessions().len() == 0 && !has_mobile(
                old(ds).dir()@,
                p.mobile_no->0@,
            ) && old(ds).dir()@.len() < u64::MAX ==> r is Ok || service_error(r) == Some(
                ServiceError::IdentityTaken,
            ),
            login_failure(*p) is None && challenge_fits(now, old(ds).book().lifetime())
                && old(ds).book().sessions().len() == 0 && old(ds).dir()@.len() == 0 ==> r is Ok,
            r matches Ok(resp) ==> {
                &&& resp.mobile_no@ == p.mobile_no->0@
                &&& resp.device_id@ == p.device_id->0@
                &&& resp.is_new_user == !has_mobile(old(ds).dir()@, p.mobile_no->0@)
                &&& passcode_shape(resp.otp@, OTP_DIGITS)
                &&& passcode_shape(resp.session_token@, SESSION_TOKEN_DIGITS)
                &&& !(exists|i: int|
                    0 <= i < old(ds).book().sessions().len()
                        && (#[trigger] old(ds).book().sessions()[i]).session_token@
                        == resp.session_token@)
                &&& final(ds).book().sessions().len() == old(ds).book().sessions().len() + 1
                &&& final(ds).book().sessions().drop_last() == old(ds).book().sessions()
                &&& final(ds).book().sessions().last().mobile_no@ == resp.mobile_no@
                &&& final(ds).book().sessions().last().device_id@ == resp.device_id@
                &&& final(ds).book().sessions().last().socket_id@ == socket_id@
                &&& final(ds).book().sessions().last().session_token@ == resp.session_token@
                &&& final(ds).book().sessions().last().otp@ == resp.otp@
                &&& final(ds).book().sessions().last().timestamp == now
                &&& final(ds).book().sessions().last().expires_at == now + old(ds).book().lifetime()
                &&& final(ds).book().sessions().last().verified_at is None
                &&& has_challenge(final(ds).book().sessions(), resp.mobile_no@, resp.session_token@)
                &&& challenge_for(final(ds).book().sessions(), resp.mobile_no@, resp.session_token@)
                    == final(ds).book().sessions().last()
                &&& has_mobile(old(ds).dir()@, p.mobile_no->0@) ==> forall|i: int|
                    0 <= i < old(ds).dir()@.len() && old(ds).dir()@[i].mobile_no@ == p.mobile_no->0@
                        ==> final(ds).dir()@ == old(ds).dir()@.update(
                        i,
                        login_counted(old(ds).dir()@[i], now),
                    )
                &&& !has_mobile(old(ds).dir()@, p.mobile_no->0@) ==> final(ds).dir()@.drop_last()
                    == old(ds).dir()@ && final(ds).dir()@.len() == old(ds).dir()@.len() + 1
                    && final(ds).dir()@.last().mobile_no@ == p.mobile_no->0@
                    && final(ds).dir()@.last().device_id@ == p.device_id->0@
                    && final(ds).dir()@.last().fcm_token@ == p.fcm_token->0@
                &&& has_mobile(final(ds).dir()@, p.mobile_no->0@)
            },
    {
        match ValidationManager::validate_login_data(p) {
            Err(e) => {
                return Err(EventError::Invalid(e));
            },
            Ok(_) => {},
        }
        let mobile_no = or_unknown(&p.mobile_no);
        let device_id = or_unknown(&p.device_id);
        let fcm_token = or_unknown(&p.fcm_token);
        if now.checked_add(ds.ledger().lifetime_ms()).is_none() {
            return Err(EventError::Service(ServiceError::ClockOverflow));
        }
        let session_token = random_digits(SESSION_TOKEN_DIGITS);
        if ds.ledger().token_in_use(session_token.as_str()) {
            return Err(EventError::Service(ServiceError::SessionTokenTaken));
        }
        assert(!(exists|i: int|
            0 <= i < old(ds).book().sessions().len()
                && (#[trigger] old(ds).book().sessions()[i]).session_token@ == session_token@));
        let otp = random_digits(OTP_DIGITS);
        let existed = ds.user_exists(mobile_no.as_str());
        if existed {
            ds.update_user_login_info(mobile_no.as_str(), now);
            proof {
                let i = choose|i: int| 0 <= i < old(ds).dir()@.len() && (#[trigger] old(ds).dir()@[i]).mobile_no@ == mobile_no@;
                assert(ds.dir()@[i].mobile_no@ == mobile_no@);
            }
        } else {
            match ds.register_new_user(
                mobile_no.as_str(),
                device_id.as_str(),
                fcm_token.as_str(),
                p.email.clone(),
                now,
            ) {
                Err(e) => {
                    return Err(EventError::Service(e));
                },
                Ok(_) => {
                    proof {
                        let k = ds.dir()@.len() - 1;
                        assert(ds.dir()@[k] == ds.dir()@.last());
                    }
                },
            }
        }
        assert(has_mobile(ds.dir()@, mobile_no@));
        match ds.store_login_success_event(
            socket_id,
            mobile_no.as_str(),
            device_id.as_str(),
            session_token.clone(),
            otp.clone(),
            now,
        ) {
            Err(e) => {
                // The token was found unused and the expiry to fit above.
                return Err(EventError::Service(e));
            },
            Ok(_) => {},
        }
        proof {
            let s = ds.book().sessions();
            assert(s.drop_last() == old(ds).book().sessions());
            crate::ledger::lemma_challenge_at(s, mobile_no@, session_token@, s.len() - 1);
        }
        Ok(LoginResponse { mobile_no, device_id, session_token, otp, is_new_user: !existed })
    }

    /// A verification: checks the payload, then resolves it as
    /// [`DataService::verify_otp`] does, minting the credential for the device and push
    /// token the payload names (`unknown` where it names none).
    pub fn handle_verify_otp(ds: &mut DataService, socket_id: &str, p: &OtpPayload, now: i64) -> (r:
        Result<VerifyOutcome, EventError>)
        requires
            old(ds).wf(),
        ensures
            final(ds).wf(),
            otp_failure(*p) is Some <==> r matches Err(EventError::Invalid(_)),
            r matches Err(EventError::Invalid(e)) ==> otp_failure(*p) == Some((e.code, e.field@))
                && *final(ds) == *old(ds),
            !(r matches Err(EventError::InvalidSession)),
            otp_failure(*p) is None ==> verify_post(
                *old(ds),
                *final(ds),
                socket_id@,
                p.mobile_no->0@,
                p.session_token->0@,
                p.otp->0@,
                text_or_unknown(p.device_id),
                text_or_unknown(p.fcm_token),
                now,
                as_service(r),
            ),
    {
        match ValidationManager::validate_otp_data(p) {
            Err(e) => {
                return Err(EventError::Invalid(e));
            },
            Ok(_) => {},
        }
        let mobile_no = or_unknown(&p.mobile_no);
        let session_token = or_unknown(&p.session_token);
        let otp = or_unknown(&p.otp);
        let device_id = or_unknown(&p.device_id);
        let fcm_token = or_unknown(&p.fcm_token);
        match ds.verify_otp(
            socket_id,
            mobile_no.as_str(),
            session_token.as_str(),
            otp.as_str(),
            device_id.as_str(),
            fcm_token.as_str(),
            p.email.clone(),
            now,
        ) {
            Ok(o) => Ok(o),
            Err(e) => Err(EventError::Service(e)),
        }
    }

    /// A profile request: checks the payload and that the session was verified, refuses a
    /// supplied referral code that a user holds and a referring code that no user holds,
    /// generates a code when none is supplied, resolves or registers the user, and stores
    /// the profile. Every failure leaves everything as it was.
    pub fn handle_set_profile(ds: &mut DataService, p: &ProfilePayload, now: i64) -> (r: Result<
        ProfileResponse,
        EventError,
    >)
        requires
            old(ds).wf(),
        ensures
            final(ds).wf(),
            final(ds).book() == old(ds).book(),
            final(ds).issuer() == old(ds).issuer(),
            profile_failure(*p) is Some <==> r matches Err(EventError::Invalid(_)),
            r matches Err(EventError::Invalid(e)) ==> profile_failure(*p) == Some((e.code, e.field@)),
            profile_failure(*p) is None ==> (r matches Err(EventError::InvalidSession) <==> !(
            has_challenge(old(ds).book().sessions(), p.mobile_no->0@, p.session_token->0@)
                && challenge_for(
                old(ds).book().sessions(),
                p.mobile_no->0@,
                p.session_token->0@,
            ).verified_at is Some)),
            r is Err ==> final(ds).dir() == old(ds).dir(),
            profile_failure(*p) is None && verified_session(old(ds).book(), p.mobile_no, p.session_token)
                && present(p.referral_code) is Some && has_referral(
                old(ds).dir()@,
                present(p.referral_code)->0@,
            ) ==> service_error(r) == Some(ServiceError::ReferralCodeTaken),
            profile_failure(*p) is None && verified_session(old(ds).book(), p.mobile_no, p.session_token)
                && !(present(p.referral_code) is Some && has_referral(
                old(ds).dir()@,
                present(p.referral_code)->0@,
            )) && present(p.referred_by) is Some && !has_referral(
                old(ds).dir()@,
                present(p.referred_by)->0@,
            ) ==> service_error(r) == Some(ServiceError::ReferrerUnknown),
            profile_failure(*p) is None && verified_session(old(ds).book(), p.mobile_no, p.session_token)
                && has_mobile(old(ds).dir()@, p.mobile_no->0@) && present(p.referral_code) is Some
                && !has_referral(old(ds).dir()@, present(p.referral_code)->0@) && (present(
                p.referred_by,
            ) is None || has_referral(old(ds).dir()@, present(p.referred_by)->0@)) ==> r is Ok,
            service_error(r) matches Some(e) ==> e == ServiceError::ReferralCodeTaken || e
                == ServiceError::ReferrerUnknown || e == ServiceError::ReferralCodeExhausted || (
            !has_mobile(old(ds).dir()@, p.mobile_no->0@) && (e == ServiceError::IdentityTaken || e
                == ServiceError::NumbersExhausted)),
            r matches Ok(resp) ==> {
                &&& resp.mobile_no@ == p.mobile_no->0@
                &&& resp.full_name@ == p.full_name->0@
                &&& resp.state@ == p.state->0@
                &&& resp.referred_by == present(p.referred_by)
                &&& !has_referral(old(ds).dir()@, resp.referral_code@)
                &&& present(p.referral_code) is Some ==> resp.referral_code@ == present(
                    p.referral_code,
                )->0@
                &&& present(p.referral_code) is None ==> is_generated_code(resp.referral_code@)
                &&& exists|i: int|
                    0 <= i < final(ds).dir()@.len() && (#[trigger] final(ds).dir()@[i]).mobile_no@
                        == p.mobile_no->0@ && final(ds).dir()@[i].referral_code is Some
                        && final(ds).dir()@[i].referral_code->0@ == resp.referral_code@
                        && final(ds).dir()@[i].full_name is Some
                        && final(ds).dir()@[i].full_name->0@ == resp.full_name@
                        && (resp.referred_by is Some ==> final(ds).dir()@[i].referred_by
                        == resp.referred_by)
                &&& resp.profile_data == p.profile_data
                &&& has_mobile(old(ds).dir()@, p.mobile_no->0@) ==> (forall|i: int|
                    0 <= i < old(ds).dir()@.len() && old(ds).dir()@[i].mobile_no@ == p.mobile_no->0@
                        ==> final(ds).dir()@ == old(ds).dir()@.update(
                        i,
                        profile_applied(
                            old(ds).dir()@[i],
                            Some(resp.full_name),
                            Some(resp.state),
                            Some(resp.referral_code),
                            resp.referred_by,
                            p.profile_data,
                            now,
                        ),
                    ))
                &&& !has_mobile(old(ds).dir()@, p.mobile_no->0@) ==> final(ds).dir()@.len()
                    == old(ds).dir()@.len() + 1 && final(ds).dir()@.drop_last() == old(ds).dir()@
                    && final(ds).dir()@.last().mobile_no@ == p.mobile_no->0@
                    && final(ds).dir()@.last().user_number == old(ds).dir()@.len() + 1
                    && final(ds).dir()@.last() == profile_applied(
                    fresh_user(
                        final(ds).dir()@.last().mobile_no,
                        final(ds).dir()@.last().device_id,
                        final(ds).dir()@.last().fcm_token,
                        p.email,
                        final(ds).dir()@.last().user_number,
                        final(ds).dir()@.last().user_id,
                        now,
                    ),
                    Some(resp.full_name),
                    Some(resp.state),
                    Some(resp.referral_code),
                    resp.referred_by,
                    p.profile_data,
                    now,
                )
            },
    {
        match ValidationManager::validate_user_profile_data(p) {
            Err(e) => {
                return Err(EventError::Invalid(e));
            },
            Ok(_) => {},
        }
        let mobile_no = or_unknown(&p.mobile_no);
        let session_token = or_unknown(&p.session_token);
        let full_name = or_unknown(&p.full_name);
        let state = or_unknown(&p.state);
        if !ds.ledger().is_verified_session(mobile_no.as_str(), session_token.as_str()) {
            return Err(EventError::InvalidSession);
        }
        let supplied = present_text(&p.referral_code);
        match &supplied {
            Some(c) => {
                if ds.check_referral_code_exists(c.as_str()) {
                    return Err(EventError::Service(ServiceError::ReferralCodeTaken));
                }
            },
            None => {},
        }
        let referred_by = present_text(&p.referred_by);
        match &referred_by {
            Some(c) => {
                if !ds.check_referral_code_exists(c.as_str()) {
                    return Err(EventError::Service(ServiceError::ReferrerUnknown));
                }
            },
            None => {},
        }
        let referral_code = match supplied {
            Some(c) => c,
            None => match ds.generate_unique_referral_code() {
                Ok(c) => c,
                Err(e) => {
                    return Err(EventError::Service(e));
                },
            },
        };
        let ghost code_view = referral_code@;
        let device_id = or_unknown(&p.device_id);
        let fcm_token = or_unknown(&p.fcm_token);
        let ghost before = ds.dir()@;
        match ds.resolve_or_register(
            mobile_no.as_str(),
            device_id.as_str(),
            fcm_token.as_str(),
            copy_text(&p.email),
            now,
        ) {
            Err(e) => {
                return Err(EventError::Service(e));
            },
            Ok(_) => {},
        }
        let ghost mid = ds.dir()@;
        proof {
            if !has_mobile(before, mobile_no@) {
                assert(mid.drop_last() == before);
                if has_referral(mid, code_view) {
                    let k = choose|k: int|
                        0 <= k < mid.len() && (#[trigger] mid[k]).referral_code is Some
                            && mid[k].referral_code->0@ == code_view;
                    if k < before.len() {
                        assert(before[k] == mid[k]);
                        assert(has_referral(before, code_view));
                    } else {
                        assert(mid[k] == mid.last());
                    }
                }
                if referred_by is Some {
                    let k = choose|k: int|
                        0 <= k < before.len() && (#[trigger] before[k]).referral_code is Some
                            && before[k].referral_code->0@ == referred_by->0@;
                    assert(mid[k] == before[k]);
                    assert(has_referral(mid, referred_by->0@));
                }
            }
            assert(!has_referral(mid, code_view));
            assert(has_mobile(mid, mobile_no@));
        }
        match ds.update_user_profile_in_register(
            mobile_no.as_str(),
            Some(full_name.clone()),
            Some(state.clone()),
            Some(referral_code.clone()),
            copy_text(&referred_by),
            copy_text(&p.profile_data),
            now,
        ) {
            Err(e) => {
                // The user exists and both codes were checked above.
                return Err(EventError::Service(e));
            },
            Ok(_) => {},
        }
        proof {
            let i = choose|i: int| 0 <= i < mid.len() && (#[trigger] mid[i]).mobile_no@ == mobile_no@;
            assert(ds.dir()@[i].mobile_no@ == mobile_no@);
            if !has_mobile(before, mobile_no@) {
                let k = mid.len() - 1;
                assert(mid[k] == mid.last());
                assert(mid[k].mobile_no@ == mobile_no@);
                assert(ds.dir()@.drop_last() =~= before);
                assert(ds.dir()@.last() == ds.dir()@[k]);
            }
        }
        Ok(
            ProfileResponse {
                mobile_no,
                session_token,
                full_name,
                state,
                referral_code,
                referred_by,
                profile_data: copy_text(&p.profile_data),
            },
        )
    }

    /// A language request: checks the payload and that the session was verified, resolves
    /// or registers the user, stores the language settings (preferences default to `{}`)
    /// and answers with texts in that language.
    pub fn handle_set_language(ds: &mut DataService, p: &LanguagePayload, now: i64) -> (r: Result<
        LanguageResponse,
        EventError,
    >)
        requires
            old(ds).wf(),
        ensures
            final(ds).wf(),
            final(ds).book() == old(ds).book(),
            language_failure(*p) is Some <==> r matches Err(EventError::Invalid(_)),
            r matches Err(EventError::Invalid(e)) ==> language_failure(*p) == Some((e.code, e.field@))
                && final(ds).dir() == old(ds).dir(),
            language_failure(*p) is None ==> (r matches Err(EventError::InvalidSession) <==> !(
            has_challenge(old(ds).book().sessions(), p.mobile_no->0@, p.session_token->0@)
                && challenge_for(
                old(ds).book().sessions(),
                p.mobile_no->0@,
                p.session_token->0@,
            ).verified_at is Some)),
            r is Err ==> final(ds).dir() == old(ds).dir(),
            language_failure(*p) is None && verified_session(old(ds).book(), p.mobile_no, p.session_token)
                && has_mobile(old(ds).dir()@, p.mobile_no->0@) ==> r is Ok,
            service_error(r) matches Some(e) ==> !has_mobile(old(ds).dir()@, p.mobile_no->0@) && (e
                == ServiceError::IdentityTaken || e == ServiceError::NumbersExhausted),
            r matches Ok(resp) ==> {
                &&& resp.language_code@ == p.language_code->0@
                &&& (resp.messages.welcome_message@, resp.messages.setup_complete@,
                    resp.messages.ready_to_play@, resp.messages.next_steps@) == texts_for(
                    p.language_code->0@,
                )
                &&& exists|i: int|
                    0 <= i < final(ds).dir()@.len() && (#[trigger] final(ds).dir()@[i]).mobile_no@
                        == p.mobile_no->0@ && final(ds).dir()@[i].language_code is Some
                        && final(ds).dir()@[i].language_code->0@ == p.language_code->0@
                        && final(ds).dir()@[i].language_name is Some
                        && final(ds).dir()@[i].language_name->0@ == p.language_name->0@
                &&& resp.region_code == p.region_code
                &&& resp.timezone == p.timezone
                &&& p.user_preferences is Some ==> resp.user_preferences@ == p.user_preferences->0@
                &&& p.user_preferences is None ==> resp.user_preferences@ == "{}"@
                &&& has_mobile(old(ds).dir()@, p.mobile_no->0@) ==> (forall|i: int|
                    0 <= i < old(ds).dir()@.len() && old(ds).dir()@[i].mobile_no@ == p.mobile_no->0@
                        ==> final(ds).dir()@ == old(ds).dir()@.update(
                        i,
                        language_applied(
                            old(ds).dir()@[i],
                            Some(resp.language_code),
                            Some(resp.language_name),
                            resp.region_code,
                            resp.timezone,
                            Some(resp.user_preferences),
                            now,
                        ),
                    ))
                &&& !has_mobile(old(ds).dir()@, p.mobile_no->0@) ==> final(ds).dir()@.len()
                    == old(ds).dir()@.len() + 1 && final(ds).dir()@.drop_last() == old(ds).dir()@
                    && final(ds).dir()@.last().mobile_no@ == p.mobile_no->0@
                    && final(ds).dir()@.last().user_number == old(ds).dir()@.len() + 1
                    && final(ds).dir()@.last() == language_applied(
                    fresh_user(
                        final(ds).dir()@.last().mobile_no,
                        final(ds).dir()@.last().device_id,
                        final(ds).dir()@.last().fcm_token,
                        p.email,
                        final(ds).dir()@.last().user_number,
                        final(ds).dir()@.last().user_id,
                        now,
                    ),
                    Some(resp.language_code),
                    Some(resp.language_name),
                    resp.region_code,
                    resp.timezone,
                    Some(resp.user_preferences),
                    now,
                )
            },
    {
        match ValidationManager::validate_language_setting_data(p) {
            Err(e) => {
                return Err(EventError::Invalid(e));
            },
            Ok(_) => {},
        }
        let mobile_no = or_unknown(&p.mobile_no);
        let session_token = or_unknown(&p.session_token);
        let language_code = or_unknown(&p.language_code);
        let language_name = or_unknown(&p.language_name);
        if !ds.ledger().is_verified_session(mobile_no.as_str(), session_token.as_str()) {
            return Err(EventError::InvalidSession);
        }
        let device_id = or_unknown(&p.device_id);
        let fcm_token = or_unknown(&p.fcm_token);
        match ds.resolve_or_register(
            mobile_no.as_str(),
            device_id.as_str(),
            fcm_token.as_str(),
            copy_text(&p.email),
            now,
        ) {
            Err(e) => {
                return Err(EventError::Service(e));
            },
            Ok(_) => {},
        }
        let ghost before = old(ds).dir()@;
        let ghost mid = ds.dir()@;
        let user_preferences = match &p.user_preferences {
            Some(s) => s.clone(),
            None => "{}".to_owned(),
        };
        match ds.update_user_language_in_register(
            mobile_no.as_str(),
            Some(language_code.clone()),
            Some(language_name.clone()),
            copy_text(&p.region_code),
            copy_text(&p.timezone),
            Some(user_preferences.clone()),
            now,
        ) {
            Err(e) => {
                // The user was resolved above.
                return Err(EventError::Service(e));
            },
            Ok(_) => {},
        }
        proof {
            let i = choose|i: int| 0 <= i < mid.len() && (#[trigger] mid[i]).mobile_no@ == mobile_no@;
            assert(ds.dir()@[i].mobile_no@ == mobile_no@);
            if !has_mobile(before, mobile_no@) {
                let k = mid.len() - 1;
                assert(mid[k] == mid.last());
                assert(mid[k].mobile_no@ == mobile_no@);
                assert(ds.dir()@.drop_last() =~= before);
                assert(ds.dir()@.last() == ds.dir()@[k]);
            }
        }
        let messages = get_localized_success_messages(language_code.as_str());
        Ok(
            LanguageResponse {
                mobile_no,
                session_token,
                language_code,
                language_name,
                region_code: copy_text(&p.region_code),
                timezone: copy_text(&p.timezone),
                user_preferences,
                messages,
            },
        )
    }
}

} // verus!
