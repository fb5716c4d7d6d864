use vstd::prelude::*;

use crate::clock::{now_millis, unix_seconds};
use crate::random::new_identity;
use crate::text::same_text;

use jsonwebtoken::{decode, encode, DecodingKey, EncodingKey, Header, Validation};
use serde_json::{from_value, Map as JsonMap, Value as JsonValue};

verus! {

/// Default credential lifetime: seven days, in hours.
pub const DEFAULT_EXPIRY_HOURS: i64 = 168;

/// The claims a bearer credential carries. `iat` and `exp` are Unix seconds.
#[derive(Debug)]
pub struct Claims {
    /// The user's identity.
    pub sub: String,
    pub user_number: u64,
    pub mobile_no: String,
    pub device_id: String,
    pub fcm_token: String,
    pub iat: i64,
    pub exp: i64,
    /// A unique identifier of this credential.
    pub jti: String,
}

/// The claims as mathematical values.
pub struct ClaimsView {
    pub sub: Seq<char>,
    pub user_number: u64,
    pub mobile_no: Seq<char>,
    pub device_id: Seq<char>,
    pub fcm_token: Seq<char>,
    pub iat: i64,
    pub exp: i64,
    pub jti: Seq<char>,
}

impl View for Claims {
    type V = ClaimsView;

    open spec fn view(&self) -> ClaimsView {
        ClaimsView {
            sub: self.sub@,
            user_number: self.user_number,
            mobile_no: self.mobile_no@,
            device_id: self.device_id@,
            fcm_token: self.fcm_token@,
            iat: self.iat,
            exp: self.exp,
            jti: self.jti@,
        }
    }
}

/// What a verified credential tells its holder.
#[derive(Debug)]
pub struct TokenPayload {
    pub user_id: String,
    pub user_number: u64,
    pub mobile_no: String,
    pub device_id: String,
    pub fcm_token: String,
    pub token_type: String,
    /// Seconds left before the credential expires.
    pub expires_in: i64,
}

/// Why a credential was not issued or not accepted.
#[derive(Debug, Clone, Copy, PartialEq, Eq, Structural)]
pub enum TokenError {
    /// Malformed, signed with another key, or carrying claims of another shape.
    Invalid,
    /// Past its expiry.
    Expired,
    /// Issued for another device.
    DeviceMismatch,
    /// Issued for another mobile number.
    MobileMismatch,
    /// The expiry would leave the range of `i64`.
    Overflow,
}

#[verifier::external_type_specification]
#[verifier::external_body]
pub struct ExJwtError(jsonwebtoken::errors::Error);

/// The credential that signing `claims` with `key` gives.
pub uninterp spec fn signed_token(claims: ClaimsView, key: Seq<char>) -> Seq<char>;

/// The claims that a signature check of `token` under `key` gives, if it passes.
pub uninterp spec fn token_claims(token: Seq<char>, key: Seq<char>) -> Option<ClaimsView>;

/// Relies on `jsonwebtoken::encode` with the default header (HS256) and an HMAC key made
/// from the secret's bytes, the claims given as a JSON object field by field. With an HMAC
/// key and that header it does not fail; its result depends on the claims and the key
/// alone, and `jsonwebtoken::decode` with that key gives the same claims back.
#[verifier::external_body]
fn sign_claims(c: &Claims, secret: &str) -> (r: Result<String, jsonwebtoken::errors::Error>)
    ensures
        r is Ok,
        r matches Ok(t) ==> t@ == signed_token(c@, secret@) && token_claims(t@, secret@) == Some(
            c@,
        ),
{
    let mut m = JsonMap::new();
    m.insert("sub".into(), c.sub.clone().into());
    m.insert("user_number".into(), c.user_number.into());
    m.insert("mobile_no".into(), c.mobile_no.clone().into());
    m.insert("device_id".into(), c.device_id.clone().into());
    m.insert("fcm_token".into(), c.fcm_token.clone().into());
    m.insert("iat".into(), c.iat.into());
    m.insert("exp".into(), c.exp.into());
    m.insert("jti".into(), c.jti.clone().into());
    encode(&Header::default(), &m, &EncodingKey::from_secret(secret.as_bytes()))
}

/// Relies on `jsonwebtoken::decode` with the default rules (HS256, signature checked) less
/// the expiry check and the required claims, so that its result depends on the token and
/// the key alone; the JSON object it yields is read field by field with `serde_json`.
#[verifier::external_body]
fn open_claims(token: &str, secret: &str) -> (r: Result<Claims, jsonwebtoken::errors::Error>)
    ensures
        match r {
            Ok(c) => token_claims(token@, secret@) == Some(c@),
            Err(_) => token_claims(token@, secret@) is None,
        },
{
    let mut rules = Validation::default();
    (rules.validate_exp, rules.required_spec_claims) = (false, Default::default());
    let key = DecodingKey::from_secret(secret.as_bytes());
    let mut m: JsonMap<String, JsonValue> = decode(token, &key, &rules)?.claims;
    let mut take = |k: &str| m.remove(k).unwrap_or_default();
    Ok(Claims {
        sub: from_value(take("sub"))?,
        user_number: from_value(take("user_number"))?,
        mobile_no: from_value(take("mobile_no"))?,
        device_id: from_value(take("device_id"))?,
        fcm_token: from_value(take("fcm_token"))?,
        iat: from_value(take("iat"))?,
        exp: from_value(take("exp"))?,
        jti: from_value(take("jti"))?,
    })
}

/// A lifetime of `hours` from `now` (Unix seconds) ends within the range of `i64`.
pub open spec fn expiry_fits(hours: i64, now: i64) -> bool {
    i64::MIN <= hours * 3600 <= i64::MAX && i64::MIN <= now + hours * 3600 <= i64::MAX
}

/// The claims minted for these inputs at `now` with lifetime `hours`, unless the expiry
/// leaves the range of `i64`.
pub open spec fn minted_claims(
    hours: i64,
    sub: Seq<char>,
    user_number: u64,
    mobile_no: Seq<char>,
    device_id: Seq<char>,
    fcm_token: Seq<char>,
    now: i64,
    jti: Seq<char>,
) -> Option<ClaimsView> {
    if !expiry_fits(hours, now) {
        None
    } else {
        Some(
            ClaimsView {
                sub,
                user_number,
                mobile_no,
                device_id,
                fcm_token,
                iat: now,
                exp: (now + hours * 3600) as i64,
                jti,
            },
        )
    }
}

/// How a credential is judged at `now` under `key`: its signature and shape, then its expiry.
pub open spec fn token_check(key: Seq<char>, token: Seq<char>, now: i64) -> Result<
    ClaimsView,
    TokenError,
> {
    match token_claims(token, key) {
        None => Err(TokenError::Invalid),
        Some(c) => if now > c.exp {
            Err(TokenError::Expired)
        } else {
            Ok(c)
        },
    }
}

/// The check with the device binding: the claims must name `device_id` and `mobile_no`.
pub open spec fn bound_token_check(
    key: Seq<char>,
    token: Seq<char>,
    device_id: Seq<char>,
    mobile_no: Seq<char>,
    now: i64,
) -> Result<ClaimsView, TokenError> {
    match token_check(key, token, now) {
        Err(e) => Err(e),
        Ok(c) => if c.device_id != device_id {
            Err(TokenError::DeviceMismatch)
        } else if c.mobile_no != mobile_no {
            Err(TokenError::MobileMismatch)
        } else {
            Ok(c)
        },
    }
}

/// The same result, with the claims seen as values.
pub open spec fn claims_result_view(r: Result<Claims, TokenError>) -> Result<ClaimsView, TokenError> {
    match r {
        Ok(c) => Ok(c@),
        Err(e) => Err(e),
    }
}

/// Mints and checks signed, time-bounded bearer credentials.
pub struct JwtService {
    secret_key: String,
    token_expiry_hours: i64,
}

impl JwtService {
    /// The signing secret.
    pub closed spec fn key(&self) -> Seq<char> {
        self.secret_key@
    }

    /// The credential lifetime, in hours.
    pub closed spec fn hours(&self) -> i64 {
        self.token_expiry_hours
    }

    /// A service signing with `secret_key`, whose credentials last seven days.
    pub fn new(secret_key: String) -> (r: Self)
        ensures
            r.key() == secret_key@,
            r.hours() == DEFAULT_EXPIRY_HOURS,
    {
        JwtService { secret_key, token_expiry_hours: DEFAULT_EXPIRY_HOURS }
    }

    /// A service signing with `secret_key`, whose credentials last `expiry_hours`.
    pub fn new_with_expiry(secret_key: String, expiry_hours: i64) -> (r: Self)
        ensures
            r.key() == secret_key@,
            r.hours() == expiry_hours,
    {
        JwtService { secret_key, token_expiry_hours: expiry_hours }
    }

    /// The credential lifetime, in hours.
    pub fn expiry_hours(&self) -> (r: i64)
        ensures
            r == self.hours(),
    {
        self.token_expiry_hours
    }

    /// Mints a credential for these inputs, issued at `now` (Unix seconds) with identifier
    /// `jti`: it carries exactly these claims and expires one lifetime after `now`.
    pub fn generate_token_at(
        &self,
        user_id: &str,
        user_number: u64,
        mobile_no: &str,
        device_id: &str,
        fcm_token: &str,
        now: i64,
        jti: String,
    ) -> (r: Result<String, TokenError>)
        ensures
            r is Ok <==> expiry_fits(self.hours(), now),
            r is Err ==> r == Err::<String, TokenError>(TokenError::Overflow),
            r matches Ok(t) ==> minted_claims(
                self.hours(),
                user_id@,
                user_number,
                mobile_no@,
                device_id@,
                fcm_token@,
                now,
                jti@,
            ) matches Some(c) && t@ == signed_token(c, self.key()) && token_claims(t@, self.key())
                == Some(c),
    {
        let lifetime = match self.token_expiry_hours.checked_mul(3600) {
            Some(l) => l,
            None => {
                return Err(TokenError::Overflow);
            },
        };
        let exp = match now.checked_add(lifetime) {
            Some(e) => e,
            None => {
                return Err(TokenError::Overflow);
            },
        };
        let claims = Claims {
            sub: user_id.to_owned(),
            user_number,
            mobile_no: mobile_no.to_owned(),
            device_id: device_id.to_owned(),
            fcm_token: fcm_token.to_owned(),
            iat: now,
            exp,
            jti,
        };
        match sign_claims(&claims, self.secret_key.as_str()) {
            Ok(t) => Ok(t),
            // Signing with an HMAC key does not fail.
            Err(_) => Err(TokenError::Overflow),
        }
    }

    /// Mints a credential for these inputs at the current time with a fresh identifier.
    pub fn generate_token(
        &self,
        user_id: &str,
        user_number: u64,
        mobile_no: &str,
        device_id: &str,
        fcm_token: &str,
    ) -> (r: Result<String, TokenError>)
        ensures
            r is Err ==> r == Err::<String, TokenError>(TokenError::Overflow) && exists|now: i64|
                !#[trigger] expiry_fits(self.hours(), now),
            r matches Ok(t) ==> exists|iat: i64, jti: Seq<char>|
                #[trigger] minted_claims(
                    self.hours(),
                    user_id@,
                    user_number,
                    mobile_no@,
                    device_id@,
                    fcm_token@,
                    iat,
                    jti,
                ) matches Some(c) && token_claims(t@, self.key()) == Some(c),
    {
        let now = unix_seconds(now_millis());
        let jti = new_identity();
        self.generate_token_at(user_id, user_number, mobile_no, device_id, fcm_token, now, jti)
    }

    /// Checks a credential at `now` (Unix seconds): its signature and shape, then its expiry.
    pub fn verify_token_at(&self, token: &str, now: i64) -> (r: Result<Claims, TokenError>)
        ensures
            claims_result_view(r) == token_check(self.key(), token@, now),
    {
        match open_claims(token, self.secret_key.as_str()) {
            Err(_) => Err(TokenError::Invalid),
            Ok(c) => if now > c.exp {
                Err(TokenError::Expired)
            } else {
                Ok(c)
            },
        }
    }

    /// Checks a credential at the current time.
    pub fn verify_token(&self, token: &str) -> (r: Result<Claims, TokenError>)
        ensures
            exists|now: i64| claims_result_view(r) == #[trigger] token_check(self.key(), token@, now),
    {
        self.verify_token_at(token, unix_seconds(now_millis()))
    }

    /// Checks a credential at `now` and that it was issued for this device and mobile number.
    pub fn verify_token_with_device_check_at(
        &self,
        token: &str,
        expected_device_id: &str,
        expected_mobile_no: &str,
        now: i64,
    ) -> (r: Result<Claims, TokenError>)
        ensures
            claims_result_view(r) == bound_token_check(
                self.key(),
                token@,
                expected_device_id@,
                expected_mobile_no@,
                now,
            ),
    {
        let claims = match self.verify_token_at(token, now) {
            Ok(c) => c,
            Err(e) => {
                return Err(e);
            },
        };
        if !same_text(claims.device_id.as_str(), expected_device_id) {
            return Err(TokenError::DeviceMismatch);
        }
        if !same_text(claims.mobile_no.as_str(), expected_mobile_no) {
            return Err(TokenError::MobileMismatch);
        }
        Ok(claims)
    }

    /// Checks a credential at the current time and that it was issued for this device and
    /// mobile number.
    pub fn verify_token_with_device_check(
        &self,
        token: &str,
        expected_device_id: &str,
        expected_mobile_no: &str,
    ) -> (r: Result<Claims, TokenError>)
        ensures
            exists|now: i64|
                claims_result_view(r) == #[trigger] bound_token_check(
                    self.key(),
                    token@,
                    expected_device_id@,
                    expected_mobile_no@,
                    now,
                ),
    {
        let now = unix_seconds(now_millis());
        self.verify_token_with_device_check_at(token, expected_device_id, expected_mobile_no, now)
    }

    /// Checks `old_token` at `now` and mints a credential with the same identity claims,
    /// issued at `now` with identifier `jti`.
    pub fn refresh_token_at(&self, old_token: &str, now: i64, jti: String) -> (r: Result<
        String,
        TokenError,
    >)
        ensures
            token_check(self.key(), old_token@, now) matches Err(e) ==> r == Err::<String, TokenError>(
                e,
            ),
            r matches Ok(t) ==> token_check(self.key(), old_token@, now) matches Ok(o)
                && minted_claims(
                self.hours(),
                o.sub,
                o.user_number,
                o.mobile_no,
                o.device_id,
                o.fcm_token,
                now,
                jti@,
            ) matches Some(c) && token_claims(t@, self.key()) == Some(c),
            token_check(self.key(), old_token@, now) is Ok ==> (r is Ok <==> expiry_fits(
                self.hours(),
                now,
            )),
    {
        let claims = match self.verify_token_at(old_token, now) {
            Ok(c) => c,
            Err(e) => {
                return Err(e);
            },
        };
        self.generate_token_at(
            claims.sub.as_str(),
            claims.user_number,
            claims.mobile_no.as_str(),
            claims.device_id.as_str(),
            claims.fcm_token.as_str(),
            now,
            jti,
        )
    }

    /// Checks `old_token` at the current time and mints a credential with the same identity
    /// claims.
    pub fn refresh_token(&self, old_token: &str) -> (r: Result<String, TokenError>)
        ensures
            r matches Ok(t) ==> token_claims(t@, self.key()) matches Some(c) && exists|now: i64|
                #[trigger] token_check(self.key(), old_token@, now) matches Ok(o) && c.sub == o.sub
                    && c.user_number == o.user_number && c.mobile_no == o.mobile_no && c.device_id
                    == o.device_id && c.fcm_token == o.fcm_token && c.iat == now,
    {
        let now = unix_seconds(now_millis());
        let jti = new_identity();
        self.refresh_token_at(old_token, now, jti)
    }

    /// Checks a credential at `now` and describes it to its holder.
    pub fn get_token_payload_at(&self, token: &str, now: i64) -> (r: Result<TokenPayload, TokenError>)
        ensures
            token_check(self.key(), token@, now) matches Err(e) ==> r == Err::<TokenPayload, TokenError>(e),
            r matches Ok(p) ==> token_check(self.key(), token@, now) matches Ok(c) && p.user_id@
                == c.sub && p.user_number == c.user_number && p.mobile_no@ == c.mobile_no
                && p.device_id@ == c.device_id && p.fcm_token@ == c.fcm_token && p.expires_in
                == c.exp - now && p.token_type@ == "Bearer"@,
            token_check(self.key(), token@, now) matches Ok(c) ==> (r is Ok <==> c.exp - now
                <= i64::MAX),
    {
        let claims = match self.verify_token_at(token, now) {
            Ok(c) => c,
            Err(e) => {
                return Err(e);
            },
        };
        let expires_in = match claims.exp.checked_sub(now) {
            Some(x) => x,
            None => {
                return Err(TokenError::Overflow);
            },
        };
        Ok(
            TokenPayload {
                user_id: claims.sub,
                user_number: claims.user_number,
                mobile_no: claims.mobile_no,
                device_id: claims.device_id,
                fcm_token: claims.fcm_token,
                token_type: "Bearer".to_owned(),
                expires_in,
            },
        )
    }

    /// Checks a credential at the current time and describes it to its holder.
    pub fn get_token_payload(&self, token: &str) -> (r: Result<TokenPayload, TokenError>)
        ensures
            r matches Ok(p) ==> exists|now: i64|
                #[trigger] token_check(self.key(), token@, now) matches Ok(c) && p.user_id@ == c.sub
                    && p.expires_in == c.exp - now,
    {
        self.get_token_payload_at(token, unix_seconds(now_millis()))
    }

    /// Whether a correctly signed credential is past its expiry at `now`.
    pub fn is_token_expired_at(&self, token: &str, now: i64) -> (r: Result<bool, TokenError>)
        ensures
            match token_claims(token@, self.key()) {
                None => r == Err::<bool, TokenError>(TokenError::Invalid),
                Some(c) => r == Ok::<bool, TokenError>(now > c.exp),
            },
    {
        match open_claims(token, self.secret_key.as_str()) {
            Err(_) => Err(TokenError::Invalid),
            Ok(c) => Ok(now > c.exp),
        }
    }

    /// Whether a correctly signed credential is past its expiry now.
    pub fn is_token_expired(&self, token: &str) -> (r: Result<bool, TokenError>)
        ensures
            token_claims(token@, self.key()) is None ==> r == Err::<bool, TokenError>(
                TokenError::Invalid,
            ),
            token_claims(token@, self.key()) is Some ==> r is Ok,
    {
        self.is_token_expired_at(token, unix_seconds(now_millis()))
    }
}

} // verus!
