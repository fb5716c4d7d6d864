use vstd::prelude::*;

use crate::directory::{has_mobile, has_referral, is_generated_code, UserDirectory};
use crate::random::new_identity;
use crate::jwt::{expiry_fits, minted_claims, token_claims, JwtService};
use crate::ledger::{attempts_for, challenge_for, has_challenge, verification_outcome, SessionLedger};
use crate::models::{
    fresh_user, LoginSuccessEvent, OtpVerificationEvent, OtpVerificationResult, ServiceError,
    UserRegister,
};

verus! {

/// A successful verification: the user it resolved to and the credential minted.
#[derive(Debug)]
pub struct VerifiedLogin {
    pub user_id: String,
    pub user_number: u64,
    /// Whether the user had set a profile before.
    pub existing_user: bool,
    pub jwt_token: String,
    /// The credential lifetime, in seconds.
    pub expires_in: i64,
}

/// How a verification request ended.
#[derive(Debug)]
pub enum VerifyOutcome {
    Verified(VerifiedLogin),
    Rejected(OtpVerificationResult),
}

/// The failed attempt recorded for a rejected code.
pub open spec fn failed_attempt(
    socket_id: Seq<char>,
    mobile_no: Seq<char>,
    session_token: Seq<char>,
    otp: Seq<char>,
    now: i64,
    e: OtpVerificationEvent,
) -> bool {
    &&& e.socket_id@ == socket_id
    &&& e.mobile_no@ == mobile_no
    &&& e.session_token@ == session_token
    &&& e.otp@ == otp
    &&& !e.is_success
    &&& e.user_id is None
    &&& e.user_number is None
    &&& e.jwt_token is None
    &&& e.timestamp == now
}

/// What a successful verification leaves behind: the user it resolved to (registered when
/// there was none), a credential for that user minted at `now`, a successful attempt and
/// the challenge marked verified.
pub open spec fn verified_post(
    pre: DataService,
    post: DataService,
    m: Seq<char>,
    t: Seq<char>,
    device_id: Seq<char>,
    fcm_token: Seq<char>,
    now: i64,
    v: VerifiedLogin,
) -> bool {
    let secs = (now / 1000) as i64;
    let hours = pre.issuer().hours();
    &&& exists|i: int|
        0 <= i < post.dir()@.len() && (#[trigger] post.dir()@[i]).mobile_no@ == m
            && post.dir()@[i].user_id@ == v.user_id@ && post.dir()@[i].user_number == v.user_number
            && v.existing_user == post.dir()@[i].full_name is Some
    &&& has_mobile(pre.dir()@, m) ==> post.dir() == pre.dir()
    &&& !has_mobile(pre.dir()@, m) ==> post.dir()@.len() == pre.dir()@.len() + 1
        && post.dir()@.drop_last() == pre.dir()@ && v.user_number == post.dir()@.len()
    &&& token_claims(v.jwt_token@, pre.issuer().key()) is Some
    &&& token_claims(v.jwt_token@, pre.issuer().key()) == minted_claims(
        hours,
        v.user_id@,
        v.user_number,
        m,
        device_id,
        fcm_token,
        secs,
        token_claims(v.jwt_token@, pre.issuer().key())->0.jti,
    )
    &&& v.expires_in == hours * 3600
    &&& post.book().attempts().len() == pre.book().attempts().len() + 1
    &&& post.book().attempts().drop_last() == pre.book().attempts()
    &&& post.book().attempts().last().is_success
    &&& post.book().attempts().last().mobile_no@ == m
    &&& post.book().attempts().last().session_token@ == t
    &&& has_challenge(post.book().sessions(), m, t)
    &&& challenge_for(post.book().sessions(), m, t).verified_at == Some(now)
    &&& post.book().sessions().len() == pre.book().sessions().len()
}

/// The outcome of a verification request with `code` at `now` (Unix milliseconds) and the
/// state it leaves, from the state `pre` it met.
pub open spec fn verify_post(
    pre: DataService,
    post: DataService,
    socket_id: Seq<char>,
    m: Seq<char>,
    t: Seq<char>,
    code: Seq<char>,
    device_id: Seq<char>,
    fcm_token: Seq<char>,
    now: i64,
    r: Result<VerifyOutcome, ServiceError>,
) -> bool {
    let o = pre.outcome_of(m, t, code, now);
    let fits = expiry_fits(pre.issuer().hours(), (now / 1000) as i64);
    let known = has_mobile(pre.dir()@, m);
    &&& post.wf()
    &&& post.issuer() == pre.issuer()
    &&& post.book().ceiling() == pre.book().ceiling()
    &&& post.book().lifetime() == pre.book().lifetime()
    &&& (o == OtpVerificationResult::RateLimited || o == OtpVerificationResult::NotFound) ==> r
        == Ok::<VerifyOutcome, ServiceError>(VerifyOutcome::Rejected(o)) && post.dir() == pre.dir()
        && post.book() == pre.book()
    &&& (o == OtpVerificationResult::Expired || o == OtpVerificationResult::Invalid) ==> r
        == Ok::<VerifyOutcome, ServiceError>(VerifyOutcome::Rejected(o)) && post.dir() == pre.dir()
        && post.book().sessions() == pre.book().sessions() && post.book().attempts().len()
        == pre.book().attempts().len() + 1 && post.book().attempts().drop_last()
        == pre.book().attempts() && failed_attempt(
        socket_id,
        m,
        t,
        code,
        now,
        post.book().attempts().last(),
    )
    &&& o == OtpVerificationResult::Success && fits && known ==> is_verified(r)
    &&& o == OtpVerificationResult::Success && fits && !known && pre.dir()@.len() < u64::MAX ==> (
    is_verified(r) || r == Err::<VerifyOutcome, ServiceError>(
        ServiceError::IdentityTaken,
    ))
    &&& (r == Err::<VerifyOutcome, ServiceError>(ServiceError::ClockOverflow) <==> (o
        == OtpVerificationResult::Success && !fits))
    &&& (r == Err::<VerifyOutcome, ServiceError>(ServiceError::NumbersExhausted) <==> (o
        == OtpVerificationResult::Success && fits && !known && pre.dir()@.len() >= u64::MAX))
    &&& r == Err::<VerifyOutcome, ServiceError>(ServiceError::IdentityTaken) ==> o
        == OtpVerificationResult::Success && fits && !known
    &&& r is Err ==> post.dir() == pre.dir() && post.book() == pre.book() && (r == Err::<
        VerifyOutcome,
        ServiceError,
    >(ServiceError::ClockOverflow) || r == Err::<VerifyOutcome, ServiceError>(
        ServiceError::NumbersExhausted,
    ) || r == Err::<VerifyOutcome, ServiceError>(ServiceError::IdentityTaken))
    &&& match r {
        Ok(VerifyOutcome::Verified(v)) => o == OtpVerificationResult::Success && verified_post(
            pre,
            post,
            m,
            t,
            device_id,
            fcm_token,
            now,
            v,
        ),
        _ => true,
    }
}

/// The request ended in a verified login.
pub open spec fn is_verified(r: Result<VerifyOutcome, ServiceError>) -> bool {
    r matches Ok(VerifyOutcome::Verified(_))
}

/// The user directory, the session ledger and the credential issuer, as one authority.
pub struct DataService {
    users: UserDirectory,
    ledger: SessionLedger,
    jwt: JwtService,
}

impl DataService {
    pub closed spec fn dir(&self) -> UserDirectory {
        self.users
    }

    pub closed spec fn book(&self) -> SessionLedger {
        self.ledger
    }

    pub closed spec fn issuer(&self) -> JwtService {
        self.jwt
    }

    pub open spec fn wf(&self) -> bool {
        self.dir().wf() && self.book().wf()
    }

    /// How a verification with `code` at `now` would be resolved in this state.
    pub open spec fn outcome_of(&self, m: Seq<char>, t: Seq<char>, code: Seq<char>, now: i64) -> OtpVerificationResult {
        verification_outcome(self.book().sessions(), self.book().attempts(), self.book().ceiling(), m, t, code, now)
    }

    /// An empty authority minting credentials with `jwt`, with the default passcode lifetime
    /// and attempt ceiling.
    pub fn new(jwt: JwtService) -> (r: Self)
        ensures
            r.wf(),
            r.dir()@ == Seq::<UserRegister>::empty(),
            r.book().sessions() == Seq::<LoginSuccessEvent>::empty(),
            r.book().attempts() == Seq::<OtpVerificationEvent>::empty(),
            r.book().lifetime() == crate::ledger::OTP_LIFETIME_MS,
            r.book().ceiling() == crate::ledger::MAX_OTP_ATTEMPTS,
            r.issuer() == jwt,
    {
        DataService { users: UserDirectory::new(), ledger: SessionLedger::new(), jwt }
    }

    /// An authority holding the users of `users`, with no challenges yet, the default
    /// passcode lifetime and attempt ceiling, minting credentials with `jwt`.
    pub fn with_users(jwt: JwtService, users: UserDirectory) -> (r: Self)
        requires
            users.wf(),
        ensures
            r.wf(),
            r.dir() == users,
            r.book().sessions() == Seq::<LoginSuccessEvent>::empty(),
            r.book().attempts() == Seq::<OtpVerificationEvent>::empty(),
            r.book().lifetime() == crate::ledger::OTP_LIFETIME_MS,
            r.book().ceiling() == crate::ledger::MAX_OTP_ATTEMPTS,
            r.issuer() == jwt,
    {
        DataService { users, ledger: SessionLedger::new(), jwt }
    }

    /// An empty authority with the given passcode lifetime (milliseconds) and attempt ceiling.
    pub fn with_limits(jwt: JwtService, otp_lifetime_ms: i64, max_attempts: u64) -> (r: Self)
        ensures
            r.wf(),
            r.dir()@ == Seq::<UserRegister>::empty(),
            r.book().sessions() == Seq::<LoginSuccessEvent>::empty(),
            r.book().attempts() == Seq::<OtpVerificationEvent>::empty(),
            r.book().lifetime() == otp_lifetime_ms,
            r.book().ceiling() == max_attempts,
            r.issuer() == jwt,
    {
        DataService {
            users: UserDirectory::new(),
            ledger: SessionLedger::with_limits(otp_lifetime_ms, max_attempts),
            jwt,
        }
    }

    /// The user directory.
    pub fn users(&self) -> (r: &UserDirectory)
        ensures
            *r == self.dir(),
    {
        &self.users
    }

    /// The session ledger.
    pub fn ledger(&self) -> (r: &SessionLedger)
        ensures
            *r == self.book(),
    {
        &self.ledger
    }

    /// The credential issuer.
    pub fn jwt(&self) -> (r: &JwtService)
        ensures
            *r == self.issuer(),
    {
        &self.jwt
    }

    /// Whether a user with this mobile number exists.
    pub fn user_exists(&self, mobile_no: &str) -> (r: bool)
        ensures
            r == has_mobile(self.dir()@, mobile_no@),
    {
        self.users.user_exists(mobile_no)
    }

    /// The user with this mobile number, if any.
    pub fn get_user_by_mobile(&self, mobile_no: &str) -> (r: Option<&UserRegister>)
        requires
            self.wf(),
        ensures
            match r {
                Some(u) => exists|i: int|
                    0 <= i < self.dir()@.len() && self.dir()@[i] == *u && u.mobile_no@ == mobile_no@,
                None => !has_mobile(self.dir()@, mobile_no@),
            },
    {
        self.users.get_user_by_mobile(mobile_no)
    }

    /// Registers a user under a fresh identity with the next sequence number.
    pub fn register_new_user(
        &mut self,
        mobile_no: &str,
        device_id: &str,
        fcm_token: &str,
        email: Option<String>,
        now: i64,
    ) -> (r: Result<(String, u64), ServiceError>)
        requires
            old(self).wf(),
        ensures
            final(self).wf(),
            final(self).book() == old(self).book(),
            final(self).issuer() == old(self).issuer(),
            r is Err ==> final(self).dir() == old(self).dir(),
            r == Err::<(String, u64), _>(ServiceError::MobileTaken) <==> has_mobile(
                old(self).dir()@,
                mobile_no@,
            ),
            r == Err::<(String, u64), _>(ServiceError::NumbersExhausted) <==> !has_mobile(
                old(self).dir()@,
                mobile_no@,
            ) && old(self).dir()@.len() >= u64::MAX,
            r == Err::<(String, u64), _>(ServiceError::IdentityTaken) ==> !has_mobile(
                old(self).dir()@,
                mobile_no@,
            ) && old(self).dir()@.len() < u64::MAX,
            r is Err ==> r == Err::<(String, u64), _>(ServiceError::MobileTaken) || r == Err::<
                (String, u64),
                _,
            >(ServiceError::NumbersExhausted) || r == Err::<(String, u64), _>(
                ServiceError::IdentityTaken,
            ),
            old(self).dir()@.len() == 0 ==> r is Ok,
            r matches Ok((id, n)) ==> {
                &&& n == old(self).dir()@.len() + 1
                &&& final(self).dir()@.len() == old(self).dir()@.len() + 1
                &&& final(self).dir()@.drop_last() == old(self).dir()@
                &&& final(self).dir()@.last().user_id@ == id@
                &&& final(self).dir()@.last().mobile_no@ == mobile_no@
                &&& final(self).dir()@.last().device_id@ == device_id@
                &&& final(self).dir()@.last().fcm_token@ == fcm_token@
                &&& final(self).dir()@.last() == fresh_user(
                    final(self).dir()@.last().mobile_no,
                    final(self).dir()@.last().device_id,
                    final(self).dir()@.last().fcm_token,
                    email,
                    n,
                    final(self).dir()@.last().user_id,
                    now,
                )
            },
    {
        let id = new_identity();
        self.users.register_new_user(mobile_no, device_id, fcm_token, email, id, now)
    }

    /// The user with this mobile number, registered first when there is none.
    pub fn resolve_or_register(
        &mut self,
        mobile_no: &str,
        device_id: &str,
        fcm_token: &str,
        email: Option<String>,
        now: i64,
    ) -> (r: Result<(String, u64), ServiceError>)
        requires
            old(self).wf(),
        ensures
            final(self).wf(),
            final(self).book() == old(self).book(),
            final(self).issuer() == old(self).issuer(),
            has_mobile(old(self).dir()@, mobile_no@) ==> final(self).dir() == old(self).dir()
                && r is Ok,
            r is Err ==> final(self).dir() == old(self).dir(),
            r is Ok ==> has_mobile(final(self).dir()@, mobile_no@),
            r matches Ok((id, n)) ==> exists|i: int|
                0 <= i < final(self).dir()@.len() && (#[trigger] final(self).dir()@[i]).mobile_no@
                    == mobile_no@ && final(self).dir()@[i].user_id@ == id@
                    && final(self).dir()@[i].user_number == n,
            !has_mobile(old(self).dir()@, mobile_no@) && r is Ok ==> final(self).dir()@.drop_last()
                == old(self).dir()@ && final(self).dir()@.len() == old(self).dir()@.len() + 1
                && final(self).dir()@.last().referral_code is None,
            !has_mobile(old(self).dir()@, mobile_no@) && r is Ok ==> final(self).dir()@.last()
                == fresh_user(
                final(self).dir()@.last().mobile_no,
                final(self).dir()@.last().device_id,
                final(self).dir()@.last().fcm_token,
                email,
                final(self).dir()@.last().user_number,
                final(self).dir()@.last().user_id,
                now,
            ) && final(self).dir()@.last().mobile_no@ == mobile_no@
                && final(self).dir()@.last().device_id@ == device_id@
                && final(self).dir()@.last().fcm_token@ == fcm_token@,
            !has_mobile(old(self).dir()@, mobile_no@) ==> (r matches Ok((_, n)) ==> n
                == final(self).dir()@.len()),
            r is Err ==> !has_mobile(old(self).dir()@, mobile_no@) && (r == Err::<(String, u64), _>(
                ServiceError::IdentityTaken,
            ) || r == Err::<(String, u64), _>(ServiceError::NumbersExhausted)),
            r == Err::<(String, u64), _>(ServiceError::NumbersExhausted) <==> !has_mobile(
                old(self).dir()@,
                mobile_no@,
            ) && old(self).dir()@.len() >= u64::MAX,
            old(self).dir()@.len() == 0 ==> r is Ok,
    {
        match self.users.get_user_by_mobile(mobile_no) {
            Some(u) => Ok((u.user_id.clone(), u.user_number)),
            None => {
                let r = self.register_new_user(mobile_no, device_id, fcm_token, email, now);
                proof {
                    if r is Ok {
                        let k = self.dir()@.len() - 1;
                        assert(self.dir()@[k] == self.dir()@.last());
                        assert(has_mobile(self.dir()@, mobile_no@));
                    }
                }
                r
            },
        }
    }

    /// Counts a login for the user with this mobile number; does nothing when there is none.
    pub fn update_user_login_info(&mut self, mobile_no: &str, now: i64)
        requires
            old(self).wf(),
        ensures
            final(self).wf(),
            final(self).book() == old(self).book(),
            final(self).issuer() == old(self).issuer(),
            !has_mobile(old(self).dir()@, mobile_no@) ==> final(self).dir()@ == old(self).dir()@,
            forall|i: int|
                0 <= i < old(self).dir()@.len() && old(self).dir()@[i].mobile_no@ == mobile_no@
                    ==> final(self).dir()@ == old(self).dir()@.update(
                    i,
                    crate::directory::login_counted(old(self).dir()@[i], now),
                ),
    {
        self.users.update_user_login_info(mobile_no, now)
    }

    /// Whether some user holds this referral code.
    pub fn check_referral_code_exists(&self, referral_code: &str) -> (r: bool)
        ensures
            r == has_referral(self.dir()@, referral_code@),
    {
        self.users.check_referral_code_exists(referral_code)
    }

    /// A random referral code held by no user.
    pub fn generate_unique_referral_code(&self) -> (r: Result<String, ServiceError>)
        ensures
            match r {
                Ok(c) => is_generated_code(c@) && !has_referral(self.dir()@, c@),
                Err(e) => e == ServiceError::ReferralCodeExhausted,
            },
            (forall|i: int|
                0 <= i < self.dir()@.len() ==> (#[trigger] self.dir()@[i]).referral_code is None)
                ==> r is Ok,
    {
        proof {
            assert(self.dir()@ == self.users@);
        }
        self.users.generate_unique_referral_code()
    }

    /// Applies a partial profile update; see [`UserDirectory::update_user_profile`].
    pub fn update_user_profile_in_register(
        &mut self,
        mobile_no: &str,
        full_name: Option<String>,
        state: Option<String>,
        referral_code: Option<String>,
        referred_by: Option<String>,
        profile_data: Option<String>,
        now: i64,
    ) -> (r: Result<(), ServiceError>)
        requires
            old(self).wf(),
        ensures
            final(self).wf(),
            final(self).book() == old(self).book(),
            final(self).issuer() == old(self).issuer(),
            r is Err ==> final(self).dir()@ == old(self).dir()@,
            r is Ok <==> has_mobile(old(self).dir()@, mobile_no@) && !(referral_code is Some
                && has_referral(old(self).dir()@, referral_code->0@)) && !(referred_by is Some
                && !has_referral(old(self).dir()@, referred_by->0@)),
            r is Ok ==> forall|i: int|
                0 <= i < old(self).dir()@.len() && old(self).dir()@[i].mobile_no@ == mobile_no@
                    ==> final(self).dir()@ == old(self).dir()@.update(
                    i,
                    crate::directory::profile_applied(
                        old(self).dir()@[i],
                        full_name,
                        state,
                        referral_code,
                        referred_by,
                        profile_data,
                        now,
                    ),
                ),
    {
        self.users.update_user_profile(
            mobile_no,
            full_name,
            state,
            referral_code,
            referred_by,
            profile_data,
            now,
        )
    }

    /// Sets the full name of the user with this mobile number, leaving the rest as it is.
    pub fn update_user_profile(&mut self, mobile_no: &str, full_name: &str, now: i64) -> (r: Result<
        (),
        ServiceError,
    >)
        requires
            old(self).wf(),
        ensures
            final(self).wf(),
            final(self).book() == old(self).book(),
            r is Ok <==> has_mobile(old(self).dir()@, mobile_no@),
            r is Err ==> final(self).dir()@ == old(self).dir()@,
            r is Ok ==> forall|i: int|
                0 <= i < old(self).dir()@.len() && old(self).dir()@[i].mobile_no@ == mobile_no@
                    ==> final(self).dir()@ == old(self).dir()@.update(
                    i,
                    UserRegister {
                        full_name: final(self).dir()@[i].full_name,
                        updated_at: now,
                        ..old(self).dir()@[i]
                    },
                ) && (final(self).dir()@[i].full_name matches Some(n) && n@ == full_name@),
    {
        let name = full_name.to_owned();
        let ghost g = name;
        let r = self.update_user_profile_in_register(mobile_no, Some(name), None, None, None, None, now);
        proof {
            if r is Ok {
                assert forall|i: int|
                    0 <= i < old(self).dir()@.len() && old(self).dir()@[i].mobile_no@ == mobile_no@
                    implies final(self).dir()@ == old(self).dir()@.update(
                    i,
                    UserRegister {
                        full_name: final(self).dir()@[i].full_name,
                        updated_at: now,
                        ..old(self).dir()@[i]
                    },
                ) && (final(self).dir()@[i].full_name matches Some(n) && n@ == full_name@) by {
                    assert(final(self).dir()@[i].full_name == Some(g));
                }
            }
        }
        r
    }

    /// Applies a partial language update; see
    /// [`UserDirectory::update_user_language_settings`].
    pub fn update_user_language_in_register(
        &mut self,
        mobile_no: &str,
        language_code: Option<String>,
        language_name: Option<String>,
        region_code: Option<String>,
        timezone: Option<String>,
        user_preferences: Option<String>,
        now: i64,
    ) -> (r: Result<(), ServiceError>)
        requires
            old(self).wf(),
        ensures
            final(self).wf(),
            final(self).book() == old(self).book(),
            final(self).issuer() == old(self).issuer(),
            r is Err ==> final(self).dir()@ == old(self).dir()@,
            r is Ok <==> has_mobile(old(self).dir()@, mobile_no@),
            r is Ok ==> forall|i: int|
                0 <= i < old(self).dir()@.len() && old(self).dir()@[i].mobile_no@ == mobile_no@
                    ==> final(self).dir()@ == old(self).dir()@.update(
                    i,
                    crate::directory::language_applied(
                        old(self).dir()@[i],
                        language_code,
                        language_name,
                        region_code,
                        timezone,
                        user_preferences,
                        now,
                    ),
                ),
    {
        self.users.update_user_language_settings(
            mobile_no,
            language_code,
            language_name,
            region_code,
            timezone,
            user_preferences,
            now,
        )
    }

    /// Stores a login challenge; see [`SessionLedger::issue`].
    pub fn store_login_success_event(
        &mut self,
        socket_id: &str,
        mobile_no: &str,
        device_id: &str,
        session_token: String,
        otp: String,
        now: i64,
    ) -> (r: Result<(), ServiceError>)
        requires
            old(self).wf(),
        ensures
            final(self).wf(),
            final(self).dir() == old(self).dir(),
            final(self).issuer() == old(self).issuer(),
            final(self).book().attempts() == old(self).book().attempts(),
            final(self).book().lifetime() == old(self).book().lifetime(),
            final(self).book().ceiling() == old(self).book().ceiling(),
            r is Err ==> final(self).book().sessions() == old(self).book().sessions(),
            r is Ok ==> final(self).book().sessions() == old(self).book().sessions().push(
                LoginSuccessEvent {
                    socket_id: final(self).book().sessions().last().socket_id,
                    mobile_no: final(self).book().sessions().last().mobile_no,
                    device_id: final(self).book().sessions().last().device_id,
                    session_token,
                    otp,
                    timestamp: now,
                    expires_at: (now + old(self).book().lifetime()) as i64,
                    verified_at: None,
                    jwt_token: None,
                },
            ) && final(self).book().sessions().last().mobile_no@ == mobile_no@
                && final(self).book().sessions().last().device_id@ == device_id@
                && final(self).book().sessions().last().socket_id@ == socket_id@,
            r is Ok <==> !(exists|i: int|
                0 <= i < old(self).book().sessions().len()
                    && (#[trigger] old(self).book().sessions()[i]).session_token@ == session_token@)
                && now + old(self).book().lifetime() <= i64::MAX && now + old(self).book().lifetime()
                >= i64::MIN,
    {
        self.ledger.issue(socket_id, mobile_no, device_id, session_token, otp, now)
    }

    /// Whether a challenge was issued for this mobile number and session token.
    pub fn verify_session_and_mobile(&self, mobile_no: &str, session_token: &str) -> (r: bool)
        requires
            self.wf(),
        ensures
            r == has_challenge(self.book().sessions(), mobile_no@, session_token@),
    {
        self.ledger.verify_session_and_mobile(mobile_no, session_token)
    }

    /// Whether another verification attempt is allowed for this pair.
    pub fn check_otp_attempts(&self, mobile_no: &str, session_token: &str) -> (r: bool)
        requires
            self.wf(),
        ensures
            r == (attempts_for(self.book().attempts(), mobile_no@, session_token@)
                < self.book().ceiling()),
    {
        self.ledger.check_otp_attempts(mobile_no, session_token)
    }

    /// Deletes the challenges that expired before `now`; returns how many it deleted.
    pub fn cleanup_expired_otp_sessions(&mut self, now: i64) -> (r: u64)
        requires
            old(self).wf(),
        ensures
            final(self).wf(),
            final(self).dir() == old(self).dir(),
            final(self).book().sessions() == old(self).book().sessions().filter(
                crate::ledger::unexpired(now),
            ),
            final(self).book().attempts() == old(self).book().attempts(),
            r == old(self).book().sessions().len() - final(self).book().sessions().len(),
    {
        self.ledger.cleanup_expired_otp_sessions(now)
    }

    /// Replaces the push token of the user with this mobile number; does nothing when no
    /// such user exists.
    pub fn update_user_fcm_token(&mut self, mobile_no: &str, fcm_token: String, now: i64)
        requires
            old(self).wf(),
        ensures
            final(self).wf(),
            final(self).book() == old(self).book(),
            !has_mobile(old(self).dir()@, mobile_no@) ==> final(self).dir()@ == old(self).dir()@,
            forall|i: int|
                0 <= i < old(self).dir()@.len() && old(self).dir()@[i].mobile_no@ == mobile_no@
                    ==> final(self).dir()@ == old(self).dir()@.update(
                    i,
                    UserRegister { fcm_token, updated_at: now, ..old(self).dir()@[i] },
                ),
    {
        self.users.update_user_fcm_token(mobile_no, fcm_token, now)
    }

    /// Counts over the directory at `now` (Unix milliseconds): all users, those registered
    /// since the start of the current UTC day, and the active ones.
    pub fn get_user_statistics(&self, now: i64) -> (r: crate::directory::UserStatistics)
        ensures
            r.total_users == self.dir()@.len(),
            r.new_users == crate::directory::created_since(
                self.dir()@,
                crate::clock::day_start_of(now),
            ),
            r.active_users == crate::directory::active_count(self.dir()@),
    {
        self.users.get_user_statistics(crate::clock::day_start(now))
    }

    /// Resolves a verification request with `otp` at `now` (Unix milliseconds): the attempt
    /// ceiling, the lookup, the expiry and the comparison, in that order. A rate-limited or
    /// unknown session leaves everything as it was; an expired or wrong code is recorded as
    /// a failed attempt; a matching code resolves or registers the user, mints a credential
    /// for `device_id` and `fcm_token`, records a successful attempt and marks the challenge
    /// verified. Every failure leaves everything as it was.
    #[verifier::rlimit(60)]
    pub fn verify_otp(
        &mut self,
        socket_id: &str,
        mobile_no: &str,
        session_token: &str,
        otp: &str,
        device_id: &str,
        fcm_token: &str,
        email: Option<String>,
        now: i64,
    ) -> (r: Result<VerifyOutcome, ServiceError>)
        requires
            old(self).wf(),
        ensures
            verify_post(
                *old(self),
                *final(self),
                socket_id@,
                mobile_no@,
                session_token@,
                otp@,
                device_id@,
                fcm_token@,
                now,
                r,
            ),
    {
        let outcome = self.ledger.check_otp(mobile_no, session_token, otp, now);
        match outcome {
            OtpVerificationResult::RateLimited => {
                return Ok(VerifyOutcome::Rejected(outcome));
            },
            OtpVerificationResult::NotFound => {
                return Ok(VerifyOutcome::Rejected(outcome));
            },
            OtpVerificationResult::Expired | OtpVerificationResult::Invalid => {
                self.ledger.store_otp_verification_event(
                    failed_attempt_record(socket_id, mobile_no, session_token, otp, now),
                );
                assert(self.book().attempts().drop_last() == old(self).book().attempts());
                return Ok(VerifyOutcome::Rejected(outcome));
            },
            OtpVerificationResult::Success => {},
        }
        let seconds = crate::clock::unix_seconds(now);
        let lifetime = match self.jwt.expiry_hours().checked_mul(3600) {
            Some(l) => l,
            None => {
                return Err(ServiceError::ClockOverflow);
            },
        };
        if seconds.checked_add(lifetime).is_none() {
            return Err(ServiceError::ClockOverflow);
        }
        let ghost before = self.dir()@;
        let (user_id, user_number) = match self.resolve_or_register(
            mobile_no,
            device_id,
            fcm_token,
            email,
            now,
        ) {
            Ok(x) => x,
            Err(e) => {
                assert(expiry_fits(old(self).issuer().hours(), (now / 1000) as i64));
                assert(self.book() == old(self).book());
                return Err(e);
            },
        };
        let ghost users = self.dir()@;
        let existing_user = match self.users.get_user_by_mobile(mobile_no) {
            Some(u) => u.full_name.is_some(),
            None => false,
        };
        proof {
            let i = choose|i: int|
                0 <= i < users.len() && (#[trigger] users[i]).mobile_no@ == mobile_no@
                    && users[i].user_id@ == user_id@ && users[i].user_number == user_number;
            assert forall|j: int| 0 <= j < users.len() && users[j].mobile_no@ == mobile_no@ implies j == i by {
                if j < i {
                    assert(users[j].mobile_no@ != users[i].mobile_no@);
                } else if i < j {
                    assert(users[i].mobile_no@ != users[j].mobile_no@);
                }
            }
            assert(existing_user == users[i].full_name is Some);
        }
        let jti = new_identity();
        let token = match self.jwt.generate_token_at(
            user_id.as_str(),
            user_number,
            mobile_no,
            device_id,
            fcm_token,
            seconds,
            jti,
        ) {
            Ok(t) => t,
            Err(_) => {
                // The expiry was found to fit above.
                return Err(ServiceError::ClockOverflow);
            },
        };
        let record = OtpVerificationEvent {
            socket_id: socket_id.to_owned(),
            mobile_no: mobile_no.to_owned(),
            session_token: session_token.to_owned(),
            otp: otp.to_owned(),
            is_success: true,
            user_id: Some(user_id.clone()),
            user_number: Some(user_number),
            jwt_token: Some(token.clone()),
            timestamp: now,
        };
        self.ledger.store_otp_verification_event(record);
        assert(self.book().attempts().drop_last() == old(self).book().attempts());
        let ghost mid = self.ledger.sessions();
        self.ledger.mark_verified(mobile_no, session_token, Some(token.clone()), now);
        proof {
            let k = choose|k: int| 0 <= k < mid.len() && (#[trigger] mid[k]).is_for(mobile_no@, session_token@);
            crate::ledger::lemma_challenge_at(self.ledger.sessions(), mobile_no@, session_token@, k);
        }
        Ok(
            VerifyOutcome::Verified(
                VerifiedLogin { user_id, user_number, existing_user, jwt_token: token, expires_in: lifetime },
            ),
        )
    }
}

/// The record of a failed attempt.
fn failed_attempt_record(
    socket_id: &str,
    mobile_no: &str,
    session_token: &str,
    otp: &str,
    now: i64,
) -> (r: OtpVerificationEvent)
    ensures
        failed_attempt(socket_id@, mobile_no@, session_token@, otp@, now, r),
{
    OtpVerificationEvent {
        socket_id: socket_id.to_owned(),
        mobile_no: mobile_no.to_owned(),
        session_token: session_token.to_owned(),
        otp: otp.to_owned(),
        is_success: false,
        user_id: None,
        user_number: None,
        jwt_token: None,
        timestamp: now,
    }
}

} // verus!
