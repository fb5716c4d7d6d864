use vstd::prelude::*;

use crate::models::{LoginSuccessEvent, OtpVerificationEvent, OtpVerificationResult, ServiceError};

verus! {

/// How long a one-time passcode stays valid by default: thirty minutes, in milliseconds.
pub const OTP_LIFETIME_MS: i64 = 1_800_000;

/// How many verification attempts a challenge allows by default.
pub const MAX_OTP_ATTEMPTS: u64 = 5;

/// The number of attempts in `s` made against mobile number `m` and session token `t`.
pub open spec fn attempts_for(s: Seq<OtpVerificationEvent>, m: Seq<char>, t: Seq<char>) -> nat
    decreases s.len(),
{
    if s.len() == 0 {
        0
    } else {
        attempts_for(s.drop_last(), m, t) + if s.last().mobile_no@ == m && s.last().session_token@
            == t {
            1nat
        } else {
            0nat
        }
    }
}

/// Some challenge in `s` is for mobile number `m` and session token `t`.
pub open spec fn has_challenge(s: Seq<LoginSuccessEvent>, m: Seq<char>, t: Seq<char>) -> bool {
    exists|i: int| 0 <= i < s.len() && (#[trigger] s[i]).is_for(m, t)
}

/// The challenge in `s` for mobile number `m` and session token `t`.
pub open spec fn challenge_for(
    s: Seq<LoginSuccessEvent>,
    m: Seq<char>,
    t: Seq<char>,
) -> LoginSuccessEvent
    recommends
        has_challenge(s, m, t),
{
    s[choose|i: int| 0 <= i < s.len() && (#[trigger] s[i]).is_for(m, t)]
}

/// No two challenges in `s` share a session token.
pub open spec fn tokens_unique(s: Seq<LoginSuccessEvent>) -> bool {
    forall|i: int, j: int|
        0 <= i < j < s.len() ==> (#[trigger] s[i]).session_token@ != (#[trigger] s[j]).session_token@
}

/// Whether a challenge is still stored after a sweep at `now`.
pub open spec fn unexpired(now: i64) -> spec_fn(LoginSuccessEvent) -> bool {
    |c: LoginSuccessEvent| c.expires_at >= now
}

/// How a verification with `code` at `now` is resolved against the challenges `sessions`
/// and the recorded `attempts`: the attempt ceiling first, then the lookup, the expiry and
/// the comparison.
pub open spec fn verification_outcome(
    sessions: Seq<LoginSuccessEvent>,
    attempts: Seq<OtpVerificationEvent>,
    max_attempts: u64,
    m: Seq<char>,
    t: Seq<char>,
    code: Seq<char>,
    now: i64,
) -> OtpVerificationResult {
    if attempts_for(attempts, m, t) >= max_attempts {
        OtpVerificationResult::RateLimited
    } else if !has_challenge(sessions, m, t) {
        OtpVerificationResult::NotFound
    } else if now > challenge_for(sessions, m, t).expires_at {
        OtpVerificationResult::Expired
    } else if code == challenge_for(sessions, m, t).otp@ {
        OtpVerificationResult::Success
    } else {
        OtpVerificationResult::Invalid
    }
}

/// Appending one attempt adds one to the count of its own pair and leaves the others.
pub proof fn lemma_attempts_push(
    s: Seq<OtpVerificationEvent>,
    e: OtpVerificationEvent,
    m: Seq<char>,
    t: Seq<char>,
)
    ensures
        attempts_for(s.push(e), m, t) == attempts_for(s, m, t) + if e.mobile_no@ == m
            && e.session_token@ == t {
            1nat
        } else {
            0nat
        },
{
    assert(s.push(e).drop_last() =~= s);
}

/// A filter keeps only challenges of the sequence it filters, and keeps tokens unique.
pub proof fn lemma_filter_sessions(s: Seq<LoginSuccessEvent>, p: spec_fn(LoginSuccessEvent) -> bool)
    requires
        tokens_unique(s),
    ensures
        tokens_unique(s.filter(p)),
        forall|k: int| 0 <= k < s.filter(p).len() ==> s.contains(#[trigger] s.filter(p)[k]),
    decreases s.len(),
{
    reveal(Seq::filter);
    if s.len() > 0 {
        let rest = s.drop_last();
        assert(tokens_unique(rest));
        lemma_filter_sessions(rest, p);
        let fr = rest.filter(p);
        assert forall|k: int| 0 <= k < fr.len() implies (#[trigger] fr[k]).session_token@
            != s.last().session_token@ by {
            assert(rest.contains(fr[k]));
            let j = choose|j: int| 0 <= j < rest.len() && rest[j] == fr[k];
            assert(s[j] == fr[k]);
        }
        if p(s.last()) {
            let out = fr.push(s.last());
            assert(s.filter(p) == out);
            assert forall|k: int| 0 <= k < out.len() implies s.contains(#[trigger] out[k]) by {
                if k < fr.len() {
                    assert(rest.contains(fr[k]));
                    let j = choose|j: int| 0 <= j < rest.len() && rest[j] == fr[k];
                    assert(s[j] == out[k]);
                } else {
                    assert(s[s.len() - 1] == out[k]);
                }
            }
        } else {
            assert(s.filter(p) == fr);
            assert forall|k: int| 0 <= k < fr.len() implies s.contains(#[trigger] fr[k]) by {
                assert(rest.contains(fr[k]));
                let j = choose|j: int| 0 <= j < rest.len() && rest[j] == fr[k];
                assert(s[j] == fr[k]);
            }
        }
    }
}

/// A filter never lengthens a sequence.
pub proof fn lemma_filter_len_le(s: Seq<LoginSuccessEvent>, p: spec_fn(LoginSuccessEvent) -> bool)
    ensures
        s.filter(p).len() <= s.len(),
{
    s.lemma_filter_len(p);
}

/// With unique tokens, the challenge at a matching position is the challenge for the pair.
pub proof fn lemma_challenge_at(s: Seq<LoginSuccessEvent>, m: Seq<char>, t: Seq<char>, i: int)
    requires
        tokens_unique(s),
        0 <= i < s.len(),
        s[i].is_for(m, t),
    ensures
        has_challenge(s, m, t),
        challenge_for(s, m, t) == s[i],
{
    let j = choose|j: int| 0 <= j < s.len() && (#[trigger] s[j]).is_for(m, t);
    if j < i {
        assert(s[j].session_token@ != s[i].session_token@);
    } else if i < j {
        assert(s[i].session_token@ != s[j].session_token@);
    }
}

/// The login challenges and the verification attempts made against them.
pub struct SessionLedger {
    sessions: Vec<LoginSuccessEvent>,
    attempts: Vec<OtpVerificationEvent>,
    otp_lifetime_ms: i64,
    max_attempts: u64,
}

impl SessionLedger {
    /// The stored challenges.
    pub closed spec fn sessions(&self) -> Seq<LoginSuccessEvent> {
        self.sessions@
    }

    /// The recorded attempts.
    pub closed spec fn attempts(&self) -> Seq<OtpVerificationEvent> {
        self.attempts@
    }

    /// How long a challenge stays valid, in milliseconds.
    pub closed spec fn lifetime(&self) -> i64 {
        self.otp_lifetime_ms
    }

    /// How many attempts a challenge allows.
    pub closed spec fn ceiling(&self) -> u64 {
        self.max_attempts
    }

    /// Every challenge expires one lifetime after it was issued, session tokens are unique,
    /// and no pair has more attempts than the ceiling.
    pub open spec fn wf(&self) -> bool {
        &&& forall|i: int|
            0 <= i < self.sessions().len() ==> (#[trigger] self.sessions()[i]).expires_at
                == self.sessions()[i].timestamp + self.lifetime()
        &&& tokens_unique(self.sessions())
        &&& forall|m: Seq<char>, t: Seq<char>|
            #[trigger] attempts_for(self.attempts(), m, t) <= self.ceiling()
    }

    /// An empty ledger with the default lifetime and attempt ceiling.
    pub fn new() -> (r: Self)
        ensures
            r.wf(),
            r.sessions() == Seq::<LoginSuccessEvent>::empty(),
            r.attempts() == Seq::<OtpVerificationEvent>::empty(),
            r.lifetime() == OTP_LIFETIME_MS,
            r.ceiling() == MAX_OTP_ATTEMPTS,
    {
        Self::with_limits(OTP_LIFETIME_MS, MAX_OTP_ATTEMPTS)
    }

    /// An empty ledger with the given lifetime (milliseconds) and attempt ceiling.
    pub fn with_limits(otp_lifetime_ms: i64, max_attempts: u64) -> (r: Self)
        ensures
            r.wf(),
            r.sessions() == Seq::<LoginSuccessEvent>::empty(),
            r.attempts() == Seq::<OtpVerificationEvent>::empty(),
            r.lifetime() == otp_lifetime_ms,
            r.ceiling() == max_attempts,
    {
        SessionLedger { sessions: Vec::new(), attempts: Vec::new(), otp_lifetime_ms, max_attempts }
    }

    /// How long a challenge stays valid, in milliseconds.
    pub fn lifetime_ms(&self) -> (r: i64)
        ensures
            r == self.lifetime(),
    {
        self.otp_lifetime_ms
    }

    /// The attempt ceiling.
    pub fn max_attempts(&self) -> (r: u64)
        ensures
            r == self.ceiling(),
    {
        self.max_attempts
    }

    /// The position of the challenge for this mobile number and session token, if any.
    fn index_of(&self, mobile_no: &str, session_token: &str) -> (r: Option<usize>)
        requires
            self.wf(),
        ensures
            match r {
                Some(i) => i < self.sessions().len() && self.sessions()[i as int].is_for(
                    mobile_no@,
                    session_token@,
                ) && challenge_for(self.sessions(), mobile_no@, session_token@)
                    == self.sessions()[i as int] && has_challenge(
                    self.sessions(),
                    mobile_no@,
                    session_token@,
                ),
                None => !has_challenge(self.sessions(), mobile_no@, session_token@),
            },
    {
        let mut i: usize = 0;
        while i < self.sessions.len()
            invariant
                i <= self.sessions@.len(),
                tokens_unique(self.sessions@),
                forall|j: int|
                    0 <= j < i ==> !(#[trigger] self.sessions@[j]).is_for(mobile_no@, session_token@),
            decreases self.sessions@.len() - i,
        {
            let c = &self.sessions[i];
            if crate::text::same_text(c.session_token.as_str(), session_token)
                && crate::text::same_text(c.mobile_no.as_str(), mobile_no) {
                proof {
                    lemma_challenge_at(self.sessions@, mobile_no@, session_token@, i as int);
                }
                return Some(i);
            }
            i = i + 1;
        }
        None
    }

    /// Whether some challenge uses this session token.
    pub fn token_in_use(&self, session_token: &str) -> (r: bool)
        ensures
            r == exists|i: int|
                0 <= i < self.sessions().len() && (#[trigger] self.sessions()[i]).session_token@
                    == session_token@,
    {
        let mut i: usize = 0;
        while i < self.sessions.len()
            invariant
                i <= self.sessions@.len(),
                forall|j: int|
                    0 <= j < i ==> (#[trigger] self.sessions@[j]).session_token@ != session_token@,
            decreases self.sessions@.len() - i,
        {
            if crate::text::same_text(self.sessions[i].session_token.as_str(), session_token) {
                return true;
            }
            i = i + 1;
        }
        false
    }

    /// The challenge for this mobile number and session token, if any.
    pub fn find_login_success_by_mobile_and_session(
        &self,
        mobile_no: &str,
        session_token: &str,
    ) -> (r: Option<&LoginSuccessEvent>)
        requires
            self.wf(),
        ensures
            match r {
                Some(c) => has_challenge(self.sessions(), mobile_no@, session_token@) && *c
                    == challenge_for(self.sessions(), mobile_no@, session_token@),
                None => !has_challenge(self.sessions(), mobile_no@, session_token@),
            },
    {
        match self.index_of(mobile_no, session_token) {
            Some(i) => Some(&self.sessions[i]),
            None => None,
        }
    }

    /// Whether a challenge was issued for this mobile number and session token.
    pub fn verify_session_and_mobile(&self, mobile_no: &str, session_token: &str) -> (r: bool)
        requires
            self.wf(),
        ensures
            r == has_challenge(self.sessions(), mobile_no@, session_token@),
    {
        self.index_of(mobile_no, session_token).is_some()
    }

    /// Whether the challenge for this mobile number and session token exists and was
    /// consumed by a successful verification.
    pub fn is_verified_session(&self, mobile_no: &str, session_token: &str) -> (r: bool)
        requires
            self.wf(),
        ensures
            r == (has_challenge(self.sessions(), mobile_no@, session_token@) && challenge_for(
                self.sessions(),
                mobile_no@,
                session_token@,
            ).verified_at is Some),
    {
        match self.index_of(mobile_no, session_token) {
            Some(i) => self.sessions[i].verified_at.is_some(),
            None => false,
        }
    }

    /// Stores a challenge for `otp` under `session_token`, issued at `now` and expiring one
    /// lifetime later. Fails when the token is in use or the expiry leaves the range of `i64`.
    pub fn issue(
        &mut self,
        socket_id: &str,
        mobile_no: &str,
        device_id: &str,
        session_token: String,
        otp: String,
        now: i64,
    ) -> (r: Result<(), ServiceError>)
        requires
            old(self).wf(),
        ensures
            final(self).wf(),
            final(self).attempts() == old(self).attempts(),
            final(self).lifetime() == old(self).lifetime(),
            final(self).ceiling() == old(self).ceiling(),
            r is Err ==> final(self).sessions() == old(self).sessions(),
            (exists|i: int|
                0 <= i < old(self).sessions().len()
                    && (#[trigger] old(self).sessions()[i]).session_token@ == session_token@)
                ==> r == Err::<(), _>(ServiceError::SessionTokenTaken),
            r is Ok <==> !(exists|i: int|
                0 <= i < old(self).sessions().len()
                    && (#[trigger] old(self).sessions()[i]).session_token@ == session_token@)
                && now + old(self).lifetime() <= i64::MAX && now + old(self).lifetime()
                >= i64::MIN,
            r is Ok ==> final(self).sessions() == old(self).sessions().push(
                LoginSuccessEvent {
                    socket_id: final(self).sessions().last().socket_id,
                    mobile_no: final(self).sessions().last().mobile_no,
                    device_id: final(self).sessions().last().device_id,
                    session_token,
                    otp,
                    timestamp: now,
                    expires_at: (now + old(self).lifetime()) as i64,
                    verified_at: None,
                    jwt_token: None,
                },
            ) && final(self).sessions().last().socket_id@ == socket_id@
                && final(self).sessions().last().mobile_no@ == mobile_no@
                && final(self).sessions().last().device_id@ == device_id@,
    {
        if self.token_in_use(session_token.as_str()) {
            return Err(ServiceError::SessionTokenTaken);
        }
        let expires_at = match now.checked_add(self.otp_lifetime_ms) {
            Some(e) => e,
            None => {
                return Err(ServiceError::ClockOverflow);
            },
        };
        let c = LoginSuccessEvent {
            socket_id: socket_id.to_owned(),
            mobile_no: mobile_no.to_owned(),
            device_id: device_id.to_owned(),
            session_token,
            otp,
            timestamp: now,
            expires_at,
            verified_at: None,
            jwt_token: None,
        };
        let ghost before = self.sessions@;
        self.sessions.push(c);
        proof {
            assert forall|i: int, j: int|
                0 <= i < j < self.sessions@.len() implies (#[trigger] self.sessions@[i]).session_token@
                != (#[trigger] self.sessions@[j]).session_token@ by {
                if j == before.len() {
                    assert(before[i] == self.sessions@[i]);
                } else {
                    assert(before[i] == self.sessions@[i] && before[j] == self.sessions@[j]);
                }
            }
            assert forall|i: int|
                0 <= i < self.sessions@.len() implies (#[trigger] self.sessions@[i]).expires_at
                == self.sessions@[i].timestamp + self.otp_lifetime_ms by {
                if i < before.len() {
                    assert(before[i] == self.sessions@[i]);
                }
            }
            assert(tokens_unique(self.sessions()));
            assert(self.attempts() == old(self).attempts());
            assert(forall|m: Seq<char>, t: Seq<char>|
                #[trigger] attempts_for(self.attempts(), m, t) <= self.ceiling());
        }
        Ok(())
    }

    /// The number of attempts recorded against this mobile number and session token.
    pub fn get_verification_attempts_count(&self, mobile_no: &str, session_token: &str) -> (r:
        u64)
        requires
            self.wf(),
        ensures
            r == attempts_for(self.attempts(), mobile_no@, session_token@),
    {
        let mut count: usize = 0;
        let mut i: usize = 0;
        while i < self.attempts.len()
            invariant
                i <= self.attempts@.len(),
                count <= i,
                count == attempts_for(self.attempts@.subrange(0, i as int), mobile_no@, session_token@),
            decreases self.attempts@.len() - i,
        {
            let a = &self.attempts[i];
            assert(self.attempts@.subrange(0, i + 1).drop_last() =~= self.attempts@.subrange(0, i as int));
            if crate::text::same_text(a.mobile_no.as_str(), mobile_no) && crate::text::same_text(
                a.session_token.as_str(),
                session_token,
            ) {
                count = count + 1;
            }
            i = i + 1;
        }
        assert(self.attempts@.subrange(0, i as int) =~= self.attempts@);
        count as u64
    }

    /// Whether another attempt is allowed for this mobile number and session token.
    pub fn check_otp_attempts(&self, mobile_no: &str, session_token: &str) -> (r: bool)
        requires
            self.wf(),
        ensures
            r == (attempts_for(self.attempts(), mobile_no@, session_token@) < self.ceiling()),
    {
        self.get_verification_attempts_count(mobile_no, session_token) < self.max_attempts
    }

    /// Resolves a verification with `code` at `now`, without recording it: the attempt
    /// ceiling first, then the lookup, the expiry and the comparison.
    pub fn check_otp(&self, mobile_no: &str, session_token: &str, code: &str, now: i64) -> (r:
        OtpVerificationResult)
        requires
            self.wf(),
        ensures
            r == verification_outcome(
                self.sessions(),
                self.attempts(),
                self.ceiling(),
                mobile_no@,
                session_token@,
                code@,
                now,
            ),
    {
        if !self.check_otp_attempts(mobile_no, session_token) {
            return OtpVerificationResult::RateLimited;
        }
        match self.index_of(mobile_no, session_token) {
            None => OtpVerificationResult::NotFound,
            Some(i) => {
                let c = &self.sessions[i];
                if now > c.expires_at {
                    OtpVerificationResult::Expired
                } else if crate::text::same_text(c.otp.as_str(), code) {
                    OtpVerificationResult::Success
                } else {
                    OtpVerificationResult::Invalid
                }
            },
        }
    }

    /// Records an attempt, unless its pair has reached the ceiling; says whether it did.
    pub fn store_otp_verification_event(&mut self, event: OtpVerificationEvent) -> (r: bool)
        requires
            old(self).wf(),
        ensures
            final(self).wf(),
            final(self).sessions() == old(self).sessions(),
            final(self).lifetime() == old(self).lifetime(),
            final(self).ceiling() == old(self).ceiling(),
            r == (attempts_for(old(self).attempts(), event.mobile_no@, event.session_token@)
                < old(self).ceiling()),
            r ==> final(self).attempts() == old(self).attempts().push(event),
            !r ==> final(self).attempts() == old(self).attempts(),
    {
        if !self.check_otp_attempts(event.mobile_no.as_str(), event.session_token.as_str()) {
            return false;
        }
        let ghost before = self.attempts@;
        let ghost e = event;
        self.attempts.push(event);
        proof {
            assert forall|m: Seq<char>, t: Seq<char>|
                #[trigger] attempts_for(self.attempts(), m, t) <= self.ceiling() by {
                lemma_attempts_push(before, e, m, t);
                assert(attempts_for(before, m, t) <= self.ceiling());
            }
        }
        true
    }

    /// Marks the challenge for this mobile number and session token as verified at `now`,
    /// linking `jwt_token`; does nothing when there is none.
    pub fn mark_verified(
        &mut self,
        mobile_no: &str,
        session_token: &str,
        jwt_token: Option<String>,
        now: i64,
    )
        requires
            old(self).wf(),
        ensures
            final(self).wf(),
            final(self).attempts() == old(self).attempts(),
            final(self).lifetime() == old(self).lifetime(),
            final(self).ceiling() == old(self).ceiling(),
            final(self).sessions().len() == old(self).sessions().len(),
            !has_challenge(old(self).sessions(), mobile_no@, session_token@) ==> final(self).sessions()
                == old(self).sessions(),
            forall|i: int|
                0 <= i < old(self).sessions().len() && old(self).sessions()[i].is_for(
                    mobile_no@,
                    session_token@,
                ) ==> final(self).sessions() == old(self).sessions().update(
                    i,
                    LoginSuccessEvent {
                        verified_at: Some(now),
                        jwt_token,
                        ..old(self).sessions()[i]
                    },
                ),
    {
        match self.index_of(mobile_no, session_token) {
            Some(i) => {
                self.sessions[i].mark_verified(jwt_token, now);
                proof {
                    assert forall|j: int|
                        0 <= j < old(self).sessions().len() && old(self).sessions()[j].is_for(
                            mobile_no@,
                            session_token@,
                        ) implies j == i by {
                        if j != i {
                            let a = if j < i { j } else { i as int };
                            let b = if j < i { i as int } else { j };
                            assert(old(self).sessions()[a].session_token@
                                != old(self).sessions()[b].session_token@);
                        }
                    }
                    let ghost o = old(self).sessions();
                    assert forall|a: int, b: int|
                        0 <= a < b < self.sessions@.len() implies (#[trigger] self.sessions@[a]).session_token@
                        != (#[trigger] self.sessions@[b]).session_token@ by {
                        assert(o[a].session_token@ != o[b].session_token@);
                    }
                    assert forall|a: int|
                        0 <= a < self.sessions@.len() implies (#[trigger] self.sessions@[a]).expires_at
                        == self.sessions@[a].timestamp + self.otp_lifetime_ms by {
                        assert(o[a].expires_at == o[a].timestamp + self.otp_lifetime_ms);
                    }
                    assert(self.sessions@ =~= old(self).sessions().update(
                        i as int,
                        LoginSuccessEvent {
                            verified_at: Some(now),
                            jwt_token,
                            ..old(self).sessions()[i as int]
                        },
                    ));
                }
            },
            None => {},
        }
        proof {
            assert(self.attempts() == old(self).attempts());
            assert(forall|m: Seq<char>, t: Seq<char>|
                #[trigger] attempts_for(self.attempts(), m, t) <= self.ceiling());
        }
    }

    /// Deletes the challenges that expired before `now` and returns how many it deleted.
    pub fn cleanup_expired_otp_sessions(&mut self, now: i64) -> (r: u64)
        requires
            old(self).wf(),
        ensures
            final(self).wf(),
            final(self).sessions() == old(self).sessions().filter(unexpired(now)),
            final(self).attempts() == old(self).attempts(),
            final(self).lifetime() == old(self).lifetime(),
            final(self).ceiling() == old(self).ceiling(),
            r == old(self).sessions().len() - final(self).sessions().len(),
    {
        let mut all: Vec<LoginSuccessEvent> = Vec::new();
        std::mem::swap(&mut all, &mut self.sessions);
        let ghost src = all@;
        let mut kept: Vec<LoginSuccessEvent> = Vec::new();
        let mut removed: u64 = 0;
        let mut i: usize = 0;
        let n = all.len();
        assert(src.subrange(0, 0).filter(unexpired(now)) =~= Seq::<LoginSuccessEvent>::empty()) by {
            reveal(Seq::filter);
        }
        while i < n
            invariant
                n == src.len(),
                all@ == src.subrange(i as int, n as int),
                src == old(self).sessions(),
                i <= n,
                kept@ == src.subrange(0, i as int).filter(unexpired(now)),
                removed + kept@.len() == i,
            decreases n - i,
        {
            let c = all.remove(0);
            proof {
                assert(c == src[i as int]);
                assert(src.subrange(0, i + 1).drop_last() =~= src.subrange(0, i as int));
                assert(src.subrange(0, i + 1).last() == c);
                assert(all@ =~= src.subrange(i + 1, n as int));
                reveal(Seq::filter);
                lemma_filter_len_le(src.subrange(0, i as int), unexpired(now));
            }
            if c.expires_at >= now {
                kept.push(c);
            } else {
                removed = removed + 1;
            }
            i = i + 1;
        }
        assert(src.subrange(0, n as int) =~= src);
        proof {
            lemma_filter_sessions(src, unexpired(now));
            assert forall|k: int| 0 <= k < kept@.len() implies (#[trigger] kept@[k]).expires_at
                == kept@[k].timestamp + old(self).lifetime() by {
                assert(src.contains(kept@[k]));
            }
        }
        self.sessions = kept;
        proof {
            assert(self.attempts() == old(self).attempts());
            assert(forall|m: Seq<char>, t: Seq<char>|
                #[trigger] attempts_for(self.attempts(), m, t) <= self.ceiling());
        }
        removed
    }
}

} // verus!
