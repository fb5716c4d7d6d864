use vstd::prelude::*;

use crate::directory::{has_referral, profile_applied, UserDirectory};
use crate::jwt::{minted_claims, token_check, token_claims, ClaimsView, TokenError};
use crate::ledger::{
    attempts_for, challenge_for, has_challenge, lemma_attempts_push, verification_outcome,
    SessionLedger,
};
use crate::models::{
    LoginSuccessEvent, OtpVerificationEvent, OtpVerificationResult, ServiceError, UserRegister,
};
use crate::service::{verify_post, DataService, VerifyOutcome};

verus! {

/// Some user in `s` has sequence number `k`.
pub open spec fn number_assigned(s: Seq<UserRegister>, k: int) -> bool {
    exists|i: int| 0 <= i < s.len() && (#[trigger] s[i]).user_number == k
}

/// In a directory that every operation has kept well-formed, no two users share a mobile
/// number, an identity or a sequence number, and the sequence numbers are exactly
/// `1..=N`, in order of registration.
pub proof fn lemma_registrations_unique(d: UserDirectory)
    requires
        d.wf(),
    ensures
        forall|i: int, j: int|
            0 <= i < j < d@.len() ==> (#[trigger] d@[i]).mobile_no@ != (#[trigger] d@[j]).mobile_no@
                && d@[i].user_id@ != d@[j].user_id@ && d@[i].user_number != d@[j].user_number,
        forall|k: int| 1 <= k <= d@.len() ==> #[trigger] number_assigned(d@, k),
        forall|i: int| 0 <= i < d@.len() ==> 1 <= (#[trigger] d@[i]).user_number <= d@.len(),
{
    assert forall|k: int| 1 <= k <= d@.len() implies #[trigger] number_assigned(d@, k) by {
        assert(d@[k - 1].user_number == k);
    }
}

/// A verification made after its challenge expired yields `Expired`, even with the right
/// code, provided the attempt ceiling had not been reached (that check comes first).
pub proof fn lemma_expired_code_rejected(
    sessions: Seq<LoginSuccessEvent>,
    attempts: Seq<OtpVerificationEvent>,
    max_attempts: u64,
    m: Seq<char>,
    t: Seq<char>,
    code: Seq<char>,
    now: i64,
)
    requires
        attempts_for(attempts, m, t) < max_attempts,
        has_challenge(sessions, m, t),
        now > challenge_for(sessions, m, t).expires_at,
    ensures
        verification_outcome(sessions, attempts, max_attempts, m, t, code, now)
            == OtpVerificationResult::Expired,
{
}

/// Once a mobile number and session token have used up their attempts, every further
/// verification yields `RateLimited` whatever the code, and a well-formed ledger never
/// holds more attempts for them than the ceiling.
pub proof fn lemma_rate_limited(l: SessionLedger, m: Seq<char>, t: Seq<char>, code: Seq<char>, now: i64)
    requires
        l.wf(),
        attempts_for(l.attempts(), m, t) >= l.ceiling(),
    ensures
        verification_outcome(l.sessions(), l.attempts(), l.ceiling(), m, t, code, now)
            == OtpVerificationResult::RateLimited,
        attempts_for(l.attempts(), m, t) == l.ceiling(),
{
}

/// Each recorded attempt for a mobile number and session token counts once towards their
/// ceiling, so with the default ceiling five recorded rejections leave no sixth attempt.
pub proof fn lemma_attempt_counts(
    attempts: Seq<OtpVerificationEvent>,
    e: OtpVerificationEvent,
    m: Seq<char>,
    t: Seq<char>,
)
    requires
        e.mobile_no@ == m,
        e.session_token@ == t,
    ensures
        attempts_for(attempts.push(e), m, t) == attempts_for(attempts, m, t) + 1,
{
    lemma_attempts_push(attempts, e, m, t);
}

/// A profile update that carries only a full name changes that name and the modification
/// time, and leaves the referral code and every other stored field as it was.
pub proof fn lemma_name_only_update(u: UserRegister, full_name: String, now: i64)
    ensures
        profile_applied(u, Some(full_name), None, None, None, None, now) == (UserRegister {
            full_name: Some(full_name),
            updated_at: now,
            ..u
        }),
        profile_applied(u, Some(full_name), None, None, None, None, now).referral_code
            == u.referral_code,
{
}

/// Referral codes in a well-formed directory are pairwise distinct, and a code assigned by
/// a profile update is held afterwards, so no later generation can hand it out again.
pub proof fn lemma_referral_codes_unique(
    d: UserDirectory,
    i: int,
    full_name: Option<String>,
    state: Option<String>,
    code: String,
    referred_by: Option<String>,
    profile_data: Option<String>,
    now: i64,
)
    requires
        d.wf(),
        0 <= i < d@.len(),
    ensures
        forall|a: int, b: int|
            0 <= a < b < d@.len() && (#[trigger] d@[a]).referral_code is Some
                && (#[trigger] d@[b]).referral_code is Some ==> d@[a].referral_code->0@
                != d@[b].referral_code->0@,
        has_referral(
            d@.update(
                i,
                profile_applied(d@[i], full_name, state, Some(code), referred_by, profile_data, now),
            ),
            code@,
        ),
{
    let s = d@.update(
        i,
        profile_applied(d@[i], full_name, state, Some(code), referred_by, profile_data, now),
    );
    assert(s[i].referral_code == Some(code));
}

/// A credential minted for some inputs passes the check with exactly those claims until
/// one lifetime after it was issued, and fails as expired after that.
pub proof fn lemma_credential_round_trip(
    hours: i64,
    key: Seq<char>,
    sub: Seq<char>,
    user_number: u64,
    mobile_no: Seq<char>,
    device_id: Seq<char>,
    fcm_token: Seq<char>,
    issued: i64,
    jti: Seq<char>,
    token: Seq<char>,
    now: i64,
)
    requires
        minted_claims(hours, sub, user_number, mobile_no, device_id, fcm_token, issued, jti) is Some,
        token_claims(token, key) == minted_claims(
            hours,
            sub,
            user_number,
            mobile_no,
            device_id,
            fcm_token,
            issued,
            jti,
        ),
    ensures
        now > issued + hours * 3600 ==> token_check(key, token, now) == Err::<ClaimsView, TokenError>(
            TokenError::Expired,
        ),
        now <= issued + hours * 3600 ==> token_check(key, token, now) == Ok::<ClaimsView, TokenError>(
            ClaimsView {
                sub,
                user_number,
                mobile_no,
                device_id,
                fcm_token,
                iat: issued,
                exp: (issued + hours * 3600) as i64,
                jti,
            },
        ),
{
}

/// A verification request for a mobile number and session token that have used up their
/// attempts is answered `RateLimited` whatever the code, and records no attempt, creates no
/// user and mints no credential.
pub proof fn lemma_rate_limited_request(
    pre: DataService,
    post: DataService,
    socket_id: Seq<char>,
    m: Seq<char>,
    t: Seq<char>,
    code: Seq<char>,
    device_id: Seq<char>,
    fcm_token: Seq<char>,
    now: i64,
    r: Result<VerifyOutcome, ServiceError>,
)
    requires
        pre.wf(),
        verify_post(pre, post, socket_id, m, t, code, device_id, fcm_token, now, r),
        attempts_for(pre.book().attempts(), m, t) >= pre.book().ceiling(),
    ensures
        r == Ok::<VerifyOutcome, ServiceError>(
            VerifyOutcome::Rejected(OtpVerificationResult::RateLimited),
        ),
        post.book() == pre.book(),
        post.dir() == pre.dir(),
{
}

/// A verification request naming a session that was never issued is answered `NotFound`
/// (unless its attempts are used up, which is checked first), and records no attempt,
/// creates no user and mints no credential.
pub proof fn lemma_unknown_session_request(
    pre: DataService,
    post: DataService,
    socket_id: Seq<char>,
    m: Seq<char>,
    t: Seq<char>,
    code: Seq<char>,
    device_id: Seq<char>,
    fcm_token: Seq<char>,
    now: i64,
    r: Result<VerifyOutcome, ServiceError>,
)
    requires
        pre.wf(),
        verify_post(pre, post, socket_id, m, t, code, device_id, fcm_token, now, r),
        attempts_for(pre.book().attempts(), m, t) < pre.book().ceiling(),
        !has_challenge(pre.book().sessions(), m, t),
    ensures
        r == Ok::<VerifyOutcome, ServiceError>(
            VerifyOutcome::Rejected(OtpVerificationResult::NotFound),
        ),
        post.book() == pre.book(),
        post.dir() == pre.dir(),
{
}

} // verus!
