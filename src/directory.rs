use vstd::prelude::*;

use crate::random::{code_char, random_below};
use crate::text::push_char;
use crate::models::{fresh_user, ServiceError, UserRegister};

verus! {

/// Length of a generated referral code.
pub const REFERRAL_CODE_LEN: usize = 6;

/// How many codes a referral-code generation draws before giving up.
pub const REFERRAL_CODE_DRAWS: usize = 10;

/// Some user in `s` has mobile number `m`.
pub open spec fn has_mobile(s: Seq<UserRegister>, m: Seq<char>) -> bool {
    exists|i: int| 0 <= i < s.len() && (#[trigger] s[i]).mobile_no@ == m
}

/// Some user in `s` has identity `id`.
pub open spec fn has_identity(s: Seq<UserRegister>, id: Seq<char>) -> bool {
    exists|i: int| 0 <= i < s.len() && (#[trigger] s[i]).user_id@ == id
}

/// Some user in `s` holds referral code `c`.
pub open spec fn has_referral(s: Seq<UserRegister>, c: Seq<char>) -> bool {
    exists|i: int|
        0 <= i < s.len() && (#[trigger] s[i]).referral_code is Some
            && s[i].referral_code->0@ == c
}

/// `c` may appear in a generated referral code: an upper-case ASCII letter or a digit.
pub open spec fn is_code_char(c: char) -> bool {
    ('A' <= c && c <= 'Z') || ('0' <= c && c <= '9')
}

/// The shape of a generated referral code.
pub open spec fn is_generated_code(s: Seq<char>) -> bool {
    s.len() == REFERRAL_CODE_LEN && forall|i: int| 0 <= i < s.len() ==> is_code_char(#[trigger] s[i])
}

/// The directory's well-formedness: one user per mobile number, one per identity, one
/// per referral code, and sequence numbers `1..=N` in order of registration.
pub open spec fn users_wf(s: Seq<UserRegister>) -> bool {
    &&& forall|i: int| 0 <= i < s.len() ==> (#[trigger] s[i]).user_number == i + 1
    &&& forall|i: int, j: int|
        0 <= i < j < s.len() ==> distinct_users(#[trigger] s[i], #[trigger] s[j])
}

/// Two users share no mobile number, no identity and no referral code.
pub open spec fn distinct_users(a: UserRegister, b: UserRegister) -> bool {
    &&& a.mobile_no@ != b.mobile_no@
    &&& a.user_id@ != b.user_id@
    &&& a.referral_code is Some && b.referral_code is Some ==> a.referral_code->0@
        != b.referral_code->0@
}

/// `u` after a partial profile update: each supplied field replaces the stored one.
pub open spec fn profile_applied(
    u: UserRegister,
    full_name: Option<String>,
    state: Option<String>,
    referral_code: Option<String>,
    referred_by: Option<String>,
    profile_data: Option<String>,
    now: i64,
) -> UserRegister {
    UserRegister {
        full_name: if full_name is Some { full_name } else { u.full_name },
        state: if state is Some { state } else { u.state },
        referral_code: if referral_code is Some { referral_code } else { u.referral_code },
        referred_by: if referred_by is Some { referred_by } else { u.referred_by },
        profile_data: if profile_data is Some { profile_data } else { u.profile_data },
        updated_at: now,
        ..u
    }
}

/// `u` after a partial language update: each supplied field replaces the stored one.
pub open spec fn language_applied(
    u: UserRegister,
    language_code: Option<String>,
    language_name: Option<String>,
    region_code: Option<String>,
    timezone: Option<String>,
    user_preferences: Option<String>,
    now: i64,
) -> UserRegister {
    UserRegister {
        language_code: if language_code is Some { language_code } else { u.language_code },
        language_name: if language_name is Some { language_name } else { u.language_name },
        region_code: if region_code is Some { region_code } else { u.region_code },
        timezone: if timezone is Some { timezone } else { u.timezone },
        user_preferences: if user_preferences is Some { user_preferences } else { u.user_preferences },
        updated_at: now,
        ..u
    }
}

/// `u` after a login at `now`.
pub open spec fn login_counted(u: UserRegister, now: i64) -> UserRegister {
    UserRegister {
        total_logins: if u.total_logins < u64::MAX { (u.total_logins + 1) as u64 } else { u64::MAX },
        last_login_at: Some(now),
        is_active: true,
        ..u
    }
}

/// A random candidate referral code.
pub fn random_referral_code() -> (r: String)
    ensures
        is_generated_code(r@),
{
    let mut code = String::new();
    let mut i: usize = 0;
    while i < REFERRAL_CODE_LEN
        invariant
            i <= REFERRAL_CODE_LEN,
            code@.len() == i,
            forall|j: int| 0 <= j < i ==> is_code_char(#[trigger] code@[j]),
        decreases REFERRAL_CODE_LEN - i,
    {
        push_char(&mut code, code_char(random_below(0, 36)));
        i = i + 1;
    }
    code
}

/// The number of users in `s` registered at or after `since`.
pub open spec fn created_since(s: Seq<UserRegister>, since: i64) -> nat
    decreases s.len(),
{
    if s.len() == 0 {
        0
    } else {
        created_since(s.drop_last(), since) + if s.last().created_at >= since {
            1nat
        } else {
            0nat
        }
    }
}

/// The number of active users in `s`.
pub open spec fn active_count(s: Seq<UserRegister>) -> nat
    decreases s.len(),
{
    if s.len() == 0 {
        0
    } else {
        active_count(s.drop_last()) + if s.last().is_active {
            1nat
        } else {
            0nat
        }
    }
}

/// Counts over the directory.
#[derive(Debug, Clone, Copy, PartialEq, Eq, Structural)]
pub struct UserStatistics {
    pub total_users: u64,
    pub new_users: u64,
    pub active_users: u64,
}

/// The users, keyed by mobile number.
pub struct UserDirectory {
    users: Vec<UserRegister>,
}

impl View for UserDirectory {
    type V = Seq<UserRegister>;

    closed spec fn view(&self) -> Seq<UserRegister> {
        self.users@
    }
}

impl UserDirectory {
    pub open spec fn wf(&self) -> bool {
        users_wf(self@)
    }

    /// An empty directory.
    pub fn new() -> (r: Self)
        ensures
            r.wf(),
            r@ == Seq::<UserRegister>::empty(),
    {
        UserDirectory { users: Vec::new() }
    }

    /// A directory holding `users`, in that order, when they are well-formed: one user per
    /// mobile number, per identity and per referral code, numbered `1..=N` in order.
    pub fn from_users(users: Vec<UserRegister>) -> (r: Option<Self>)
        ensures
            match r {
                Some(d) => d.wf() && d@ == users@,
                None => !users_wf(users@),
            },
    {
        let n = users.len();
        let mut i: usize = 0;
        while i < n
            invariant
                n == users@.len(),
                i <= n,
                users_wf(users@.subrange(0, i as int)),
            decreases n - i,
        {
            let ghost pre = users@.subrange(0, i as int);
            let ghost cur = users@.subrange(0, i + 1);
            if users[i].user_number != (i as u64) + 1 {
                assert(!users_wf(users@)) by {
                    assert(users@[i as int].user_number != i + 1);
                }
                return None;
            }
            let mut j: usize = 0;
            while j < i
                invariant
                    n == users@.len(),
                    j <= i,
                    i < n,
                    forall|k: int| 0 <= k < j ==> distinct_users(#[trigger] users@[k], users@[i as int]),
                decreases i - j,
            {
                let a = &users[j];
                let b = &users[i];
                let clash_code = match (&a.referral_code, &b.referral_code) {
                    (Some(x), Some(y)) => *x == *y,
                    _ => false,
                };
                if crate::text::same_text(a.mobile_no.as_str(), b.mobile_no.as_str()) || a.user_id
                    == b.user_id || clash_code {
                    assert(!users_wf(users@)) by {
                        assert(!distinct_users(users@[j as int], users@[i as int]));
                    }
                    return None;
                }
                j = j + 1;
            }
            proof {
                assert forall|a: int, b: int| 0 <= a < b < cur.len() implies distinct_users(
                    #[trigger] cur[a],
                    #[trigger] cur[b],
                ) by {
                    if b < i {
                        assert(cur[a] == pre[a] && cur[b] == pre[b]);
                        assert(distinct_users(pre[a], pre[b]));
                    } else {
                        assert(cur[a] == users@[a] && cur[b] == users@[i as int]);
                    }
                }
                assert forall|k: int| 0 <= k < cur.len() implies (#[trigger] cur[k]).user_number == k + 1 by {
                    if k < i {
                        assert(cur[k] == pre[k]);
                    }
                }
            }
            i = i + 1;
        }
        assert(users@.subrange(0, n as int) =~= users@);
        Some(UserDirectory { users })
    }

    /// The number of registered users.
    pub fn len(&self) -> (r: usize)
        ensures
            r == self@.len(),
    {
        self.users.len()
    }

    /// The position of the user with mobile number `mobile_no`, if any.
    pub fn index_of(&self, mobile_no: &str) -> (r: Option<usize>)
        ensures
            match r {
                Some(i) => i < self@.len() && self@[i as int].mobile_no@ == mobile_no@,
                None => !has_mobile(self@, mobile_no@),
            },
    {
        let mut i: usize = 0;
        while i < self.users.len()
            invariant
                i <= self.users@.len(),
                forall|j: int| 0 <= j < i ==> (#[trigger] self.users@[j]).mobile_no@ != mobile_no@,
            decreases self.users@.len() - i,
        {
            if crate::text::same_text(self.users[i].mobile_no.as_str(), mobile_no) {
                return Some(i);
            }
            i = i + 1;
        }
        None
    }

    /// Whether a user with this mobile number exists.
    pub fn user_exists(&self, mobile_no: &str) -> (r: bool)
        ensures
            r == has_mobile(self@, mobile_no@),
    {
        self.index_of(mobile_no).is_some()
    }

    /// The user with this mobile number, if any.
    pub fn get_user_by_mobile(&self, mobile_no: &str) -> (r: Option<&UserRegister>)
        requires
            self.wf(),
        ensures
            match r {
                Some(u) => exists|i: int|
                    0 <= i < self@.len() && self@[i] == *u && u.mobile_no@ == mobile_no@,
                None => !has_mobile(self@, mobile_no@),
            },
    {
        match self.index_of(mobile_no) {
            Some(i) => Some(&self.users[i]),
            None => None,
        }
    }

    /// Whether some user holds this referral code.
    pub fn check_referral_code_exists(&self, referral_code: &str) -> (r: bool)
        ensures
            r == has_referral(self@, referral_code@),
    {
        let mut i: usize = 0;
        while i < self.users.len()
            invariant
                i <= self.users@.len(),
                forall|j: int|
                    0 <= j < i ==> !((#[trigger] self.users@[j]).referral_code is Some
                        && self.users@[j].referral_code->0@ == referral_code@),
            decreases self.users@.len() - i,
        {
            match &self.users[i].referral_code {
                Some(c) => {
                    if crate::text::same_text(c.as_str(), referral_code) {
                        return true;
                    }
                },
                None => {},
            }
            i = i + 1;
        }
        false
    }

    /// Whether some user has identity `user_id`.
    pub fn identity_exists(&self, user_id: &String) -> (r: bool)
        ensures
            r == has_identity(self@, user_id@),
    {
        let mut i: usize = 0;
        while i < self.users.len()
            invariant
                i <= self.users@.len(),
                forall|j: int| 0 <= j < i ==> (#[trigger] self.users@[j]).user_id@ != user_id@,
            decreases self.users@.len() - i,
        {
            if self.users[i].user_id == *user_id {
                return true;
            }
            i = i + 1;
        }
        false
    }

    /// Registers a new user under identity `user_id` with the next sequence number.
    /// Fails when the mobile number or the identity is already present.
    pub fn register_new_user(
        &mut self,
        mobile_no: &str,
        device_id: &str,
        fcm_token: &str,
        email: Option<String>,
        user_id: String,
        now: i64,
    ) -> (r: Result<(String, u64), ServiceError>)
        requires
            old(self).wf(),
        ensures
            final(self).wf(),
            has_mobile(old(self)@, mobile_no@) ==> r == Err::<(String, u64), _>(ServiceError::MobileTaken),
            !has_mobile(old(self)@, mobile_no@) && old(self)@.len() >= u64::MAX ==> r == Err::<
                (String, u64),
                _,
            >(ServiceError::NumbersExhausted),
            !has_mobile(old(self)@, mobile_no@) && old(self)@.len() < u64::MAX && has_identity(
                old(self)@,
                user_id@,
            ) ==> r == Err::<(String, u64), _>(ServiceError::IdentityTaken),
            r is Err ==> *final(self) == *old(self),
            r is Err ==> final(self)@ == old(self)@,
            r is Ok <==> !has_mobile(old(self)@, mobile_no@) && !has_identity(old(self)@, user_id@)
                && old(self)@.len() < u64::MAX,
            r matches Ok((id, n)) ==> {
                &&& id@ == user_id@
                &&& n == old(self)@.len() + 1
                &&& final(self)@.len() == old(self)@.len() + 1
                &&& final(self)@.drop_last() == old(self)@
                &&& final(self)@.last().user_id@ == user_id@
                &&& final(self)@.last().mobile_no@ == mobile_no@
                &&& final(self)@.last().device_id@ == device_id@
                &&& final(self)@.last().fcm_token@ == fcm_token@
                &&& final(self)@.last() == fresh_user(
                    final(self)@.last().mobile_no,
                    final(self)@.last().device_id,
                    final(self)@.last().fcm_token,
                    email,
                    n,
                    final(self)@.last().user_id,
                    now,
                )
            },
    {
        if self.user_exists(mobile_no) {
            return Err(ServiceError::MobileTaken);
        }
        let count = self.users.len() as u64;
        if count == u64::MAX {
            return Err(ServiceError::NumbersExhausted);
        }
        if self.identity_exists(&user_id) {
            return Err(ServiceError::IdentityTaken);
        }
        let user_number = count + 1;
        let id = user_id.clone();
        let user = UserRegister::new(
            mobile_no.to_owned(),
            device_id.to_owned(),
            fcm_token.to_owned(),
            email,
            user_number,
            user_id,
            now,
        );
        self.users.push(user);
        assert(self@.drop_last() =~= old(self)@);
        Ok((id, user_number))
    }

    /// Counts a login for the user with this mobile number at `now`; does nothing when no
    /// such user exists.
    pub fn update_user_login_info(&mut self, mobile_no: &str, now: i64)
        requires
            old(self).wf(),
        ensures
            final(self).wf(),
            !has_mobile(old(self)@, mobile_no@) ==> final(self)@ == old(self)@,
            forall|i: int|
                0 <= i < old(self)@.len() && old(self)@[i].mobile_no@ == mobile_no@ ==> final(self)@
                    == old(self)@.update(i, login_counted(old(self)@[i], now)),
    {
        match self.index_of(mobile_no) {
            Some(i) => {
                let n = self.users[i].total_logins;
                self.users[i].total_logins = n.saturating_add(1);
                self.users[i].last_login_at = Some(now);
                self.users[i].is_active = true;
                assert(self@ =~= old(self)@.update(i as int, login_counted(old(self)@[i as int], now)));
            },
            None => {},
        }
    }

    /// Applies a partial profile update to the user with this mobile number: each supplied
    /// field replaces the stored one and the rest stay as they are. Fails when no such user
    /// exists, when the new referral code is already held, or when the referring code is
    /// held by no user.
    pub fn update_user_profile(
        &mut self,
        mobile_no: &str,
        full_name: Option<String>,
        state: Option<String>,
        referral_code: Option<String>,
        referred_by: Option<String>,
        profile_data: Option<String>,
        now: i64,
    ) -> (r: Result<(), ServiceError>)
        requires
            old(self).wf(),
        ensures
            final(self).wf(),
            r is Err ==> final(self)@ == old(self)@,
            !has_mobile(old(self)@, mobile_no@) ==> r == Err::<(), _>(ServiceError::UserNotFound),
            has_mobile(old(self)@, mobile_no@) && referral_code is Some && has_referral(
                old(self)@,
                referral_code->0@,
            ) ==> r == Err::<(), _>(ServiceError::ReferralCodeTaken),
            has_mobile(old(self)@, mobile_no@) && !(referral_code is Some && has_referral(
                old(self)@,
                referral_code->0@,
            )) && referred_by is Some && !has_referral(old(self)@, referred_by->0@) ==> r == Err::<
                (),
                _,
            >(ServiceError::ReferrerUnknown),
            r is Ok <==> has_mobile(old(self)@, mobile_no@) && !(referral_code is Some
                && has_referral(old(self)@, referral_code->0@)) && !(referred_by is Some
                && !has_referral(old(self)@, referred_by->0@)),
            r is Ok ==> forall|i: int|
                0 <= i < old(self)@.len() && old(self)@[i].mobile_no@ == mobile_no@ ==> final(self)@
                    == old(self)@.update(
                    i,
                    profile_applied(
                        old(self)@[i],
                        full_name,
                        state,
                        referral_code,
                        referred_by,
                        profile_data,
                        now,
                    ),
                ),
    {
        let i = match self.index_of(mobile_no) {
            Some(i) => i,
            None => {
                return Err(ServiceError::UserNotFound);
            },
        };
        match &referral_code {
            Some(c) => {
                if self.check_referral_code_exists(c.as_str()) {
                    return Err(ServiceError::ReferralCodeTaken);
                }
            },
            None => {},
        }
        match &referred_by {
            Some(c) => {
                if !self.check_referral_code_exists(c.as_str()) {
                    return Err(ServiceError::ReferrerUnknown);
                }
            },
            None => {},
        }
        let ghost target = profile_applied(
            old(self)@[i as int],
            full_name,
            state,
            referral_code,
            referred_by,
            profile_data,
            now,
        );
        if full_name.is_some() {
            self.users[i].full_name = full_name;
        }
        if state.is_some() {
            self.users[i].state = state;
        }
        if referral_code.is_some() {
            self.users[i].referral_code = referral_code;
        }
        if referred_by.is_some() {
            self.users[i].referred_by = referred_by;
        }
        if profile_data.is_some() {
            self.users[i].profile_data = profile_data;
        }
        self.users[i].updated_at = now;
        assert(self@ =~= old(self)@.update(i as int, target));
        Ok(())
    }

    /// Applies a partial language update to the user with this mobile number: each supplied
    /// field replaces the stored one and the rest stay as they are. Fails when no such user
    /// exists.
    pub fn update_user_language_settings(
        &mut self,
        mobile_no: &str,
        language_code: Option<String>,
        language_name: Option<String>,
        region_code: Option<String>,
        timezone: Option<String>,
        user_preferences: Option<String>,
        now: i64,
    ) -> (r: Result<(), ServiceError>)
        requires
            old(self).wf(),
        ensures
            final(self).wf(),
            r is Err ==> final(self)@ == old(self)@,
            r is Ok <==> has_mobile(old(self)@, mobile_no@),
            r is Err ==> r == Err::<(), _>(ServiceError::UserNotFound),
            r is Ok ==> forall|i: int|
                0 <= i < old(self)@.len() && old(self)@[i].mobile_no@ == mobile_no@ ==> final(self)@
                    == old(self)@.update(
                    i,
                    language_applied(
                        old(self)@[i],
                        language_code,
                        language_name,
                        region_code,
                        timezone,
                        user_preferences,
                        now,
                    ),
                ),
    {
        let i = match self.index_of(mobile_no) {
            Some(i) => i,
            None => {
                return Err(ServiceError::UserNotFound);
            },
        };
        let ghost target = language_applied(
            old(self)@[i as int],
            language_code,
            language_name,
            region_code,
            timezone,
            user_preferences,
            now,
        );
        if language_code.is_some() {
            self.users[i].language_code = language_code;
        }
        if language_name.is_some() {
            self.users[i].language_name = language_name;
        }
        if region_code.is_some() {
            self.users[i].region_code = region_code;
        }
        if timezone.is_some() {
            self.users[i].timezone = timezone;
        }
        if user_preferences.is_some() {
            self.users[i].user_preferences = user_preferences;
        }
        self.users[i].updated_at = now;
        assert(self@ =~= old(self)@.update(i as int, target));
        Ok(())
    }

    /// The position of the first of `candidates` that no user holds, if any.
    pub fn pick_unused_code(&self, candidates: &Vec<String>) -> (r: Option<usize>)
        ensures
            match r {
                Some(k) => k < candidates@.len() && !has_referral(self@, candidates@[k as int]@)
                    && forall|j: int| 0 <= j < k ==> has_referral(self@, (#[trigger] candidates@[j])@),
                None => forall|j: int|
                    0 <= j < candidates@.len() ==> has_referral(self@, (#[trigger] candidates@[j])@),
            },
    {
        let mut k: usize = 0;
        while k < candidates.len()
            invariant
                k <= candidates@.len(),
                forall|j: int| 0 <= j < k ==> has_referral(self@, (#[trigger] candidates@[j])@),
            decreases candidates@.len() - k,
        {
            if !self.check_referral_code_exists(candidates[k].as_str()) {
                return Some(k);
            }
            k = k + 1;
        }
        None
    }

    /// Draws ten random referral codes of six upper-case letters and digits and returns the
    /// first that no user holds; fails only when every draw is held, which needs some user
    /// to hold a code.
    pub fn generate_unique_referral_code(&self) -> (r: Result<String, ServiceError>)
        ensures
            match r {
                Ok(c) => is_generated_code(c@) && !has_referral(self@, c@),
                Err(e) => e == ServiceError::ReferralCodeExhausted,
            },
            (forall|i: int| 0 <= i < self@.len() ==> (#[trigger] self@[i]).referral_code is None)
                ==> r is Ok,
    {
        let mut candidates: Vec<String> = Vec::new();
        let mut n: usize = 0;
        while n < REFERRAL_CODE_DRAWS
            invariant
                n <= REFERRAL_CODE_DRAWS,
                candidates@.len() == n,
                forall|j: int| 0 <= j < n ==> is_generated_code((#[trigger] candidates@[j])@),
            decreases REFERRAL_CODE_DRAWS - n,
        {
            candidates.push(random_referral_code());
            n = n + 1;
        }
        match self.pick_unused_code(&candidates) {
            Some(k) => Ok(candidates[k].clone()),
            None => {
                proof {
                    assert(has_referral(self@, candidates@[0]@));
                }
                Err(ServiceError::ReferralCodeExhausted)
            },
        }
    }

    /// Replaces the push token of the user with this mobile number; does nothing when no
    /// such user exists.
    pub fn update_user_fcm_token(&mut self, mobile_no: &str, fcm_token: String, now: i64)
        requires
            old(self).wf(),
        ensures
            final(self).wf(),
            !has_mobile(old(self)@, mobile_no@) ==> final(self)@ == old(self)@,
            forall|i: int|
                0 <= i < old(self)@.len() && old(self)@[i].mobile_no@ == mobile_no@ ==> final(self)@
                    == old(self)@.update(i, UserRegister { fcm_token, updated_at: now, ..old(self)@[i] }),
    {
        match self.index_of(mobile_no) {
            Some(i) => {
                let ghost target = UserRegister { fcm_token, updated_at: now, ..old(self)@[i as int] };
                self.users[i].fcm_token = fcm_token;
                self.users[i].updated_at = now;
                assert(self@ =~= old(self)@.update(i as int, target));
            },
            None => {},
        }
    }

    /// All users, in order of registration.
    pub fn get_all_users(&self) -> (r: &Vec<UserRegister>)
        ensures
            r@ == self@,
    {
        &self.users
    }

    /// How many users there are, how many registered at or after `since` (Unix
    /// milliseconds), and how many are active.
    pub fn get_user_statistics(&self, since: i64) -> (r: UserStatistics)
        ensures
            r.total_users == self@.len(),
            r.new_users == created_since(self@, since),
            r.active_users == active_count(self@),
    {
        let mut fresh: u64 = 0;
        let mut active: u64 = 0;
        let mut i: usize = 0;
        while i < self.users.len()
            invariant
                i <= self.users@.len(),
                fresh <= i,
                active <= i,
                fresh == created_since(self.users@.subrange(0, i as int), since),
                active == active_count(self.users@.subrange(0, i as int)),
            decreases self.users@.len() - i,
        {
            assert(self.users@.subrange(0, i + 1).drop_last() =~= self.users@.subrange(0, i as int));
            if self.users[i].created_at >= since {
                fresh = fresh + 1;
            }
            if self.users[i].is_active {
                active = active + 1;
            }
            i = i + 1;
        }
        assert(self.users@.subrange(0, i as int) =~= self.users@);
        UserStatistics { total_users: self.users.len() as u64, new_users: fresh, active_users: active }
    }
}

} // verus!
