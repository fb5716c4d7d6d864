use vstd::prelude::*;

use crate::text::{
    all_alphanumeric, all_device_chars, all_digits, all_within, alphabetic, alphanumeric_only,
    any_alphabetic, blank, byte_len, contains_char, decimal, decimal_text, digits_only, is_blank,
    is_device_char, text_len, within,
};

verus! {

/// The kind of a JSON value, as a payload arrived.
#[derive(Debug, Clone, Copy, PartialEq, Eq, Structural)]
pub enum JsonKind {
    Object,
    Array,
    Text,
    Number,
    Boolean,
    Null,
}

/// What a payload failed on.
#[derive(Debug, Clone, Copy, PartialEq, Eq, Structural)]
pub enum ValidationCode {
    InvalidFormat,
    MissingField,
    EmptyField,
    InvalidLength,
    InvalidValue,
    InvalidType,
}

/// The stable code of a validation failure.
pub open spec fn code_text(c: ValidationCode) -> Seq<char> {
    match c {
        ValidationCode::InvalidFormat => "INVALID_FORMAT"@,
        ValidationCode::MissingField => "MISSING_FIELD"@,
        ValidationCode::EmptyField => "EMPTY_FIELD"@,
        ValidationCode::InvalidLength => "INVALID_LENGTH"@,
        ValidationCode::InvalidValue => "INVALID_VALUE"@,
        ValidationCode::InvalidType => "INVALID_TYPE"@,
    }
}

/// The category of a validation failure.
pub open spec fn category_text(c: ValidationCode) -> Seq<char> {
    match c {
        ValidationCode::InvalidFormat => "FORMAT_ERROR"@,
        ValidationCode::MissingField => "FIELD_ERROR"@,
        ValidationCode::EmptyField => "VALUE_ERROR"@,
        ValidationCode::InvalidLength => "LENGTH_ERROR"@,
        ValidationCode::InvalidValue => "VALUE_ERROR"@,
        ValidationCode::InvalidType => "TYPE_ERROR"@,
    }
}

impl ValidationCode {
    /// The stable code sent to the caller.
    pub fn as_str(&self) -> (r: &'static str)
        ensures
            r@ == code_text(*self),
    {
        match self {
            ValidationCode::InvalidFormat => "INVALID_FORMAT",
            ValidationCode::MissingField => "MISSING_FIELD",
            ValidationCode::EmptyField => "EMPTY_FIELD",
            ValidationCode::InvalidLength => "INVALID_LENGTH",
            ValidationCode::InvalidValue => "INVALID_VALUE",
            ValidationCode::InvalidType => "INVALID_TYPE",
        }
    }

    /// The category the code belongs to.
    pub fn error_type(&self) -> (r: &'static str)
        ensures
            r@ == category_text(*self),
    {
        match self {
            ValidationCode::InvalidFormat => "FORMAT_ERROR",
            ValidationCode::MissingField => "FIELD_ERROR",
            ValidationCode::EmptyField => "VALUE_ERROR",
            ValidationCode::InvalidLength => "LENGTH_ERROR",
            ValidationCode::InvalidValue => "VALUE_ERROR",
            ValidationCode::InvalidType => "TYPE_ERROR",
        }
    }
}

/// A payload's first failed rule: its code, the field it concerns and a message.
#[derive(Debug)]
pub struct ValidationError {
    pub code: ValidationCode,
    pub field: String,
    pub message: String,
}

impl ValidationError {
    /// The category of the failure.
    pub fn error_type(&self) -> (r: &'static str)
        ensures
            r@ == category_text(self.code),
    {
        self.code.error_type()
    }
}

/// A failure as values: the code and the field.
pub type Failure = (ValidationCode, Seq<char>);

/// The earlier of two checks' failures.
pub open spec fn first(a: Option<Failure>, b: Option<Failure>) -> Option<Failure> {
    if a is Some {
        a
    } else {
        b
    }
}

/// The result of a validation agrees with the failure the rules give.
pub open spec fn outcome_is(r: Result<(), ValidationError>, f: Option<Failure>) -> bool {
    match r {
        Ok(_) => f is None,
        Err(e) => f == Some((e.code, e.field@)),
    }
}

/// A required text field: missing when absent or not a string.
pub open spec fn missing(v: Option<String>, name: Seq<char>) -> Option<Failure> {
    if v is None {
        Some((ValidationCode::MissingField, name))
    } else {
        None
    }
}

/// A required text field that must not be empty.
pub open spec fn empty(v: Option<String>, name: Seq<char>) -> Option<Failure> {
    if v->0@.len() == 0 {
        Some((ValidationCode::EmptyField, name))
    } else {
        None
    }
}

/// A byte length outside `lo..=hi`.
pub open spec fn length_out(s: Seq<char>, lo: usize, hi: usize, name: Seq<char>) -> Option<Failure> {
    if byte_len(s) < lo || byte_len(s) > hi {
        Some((ValidationCode::InvalidLength, name))
    } else {
        None
    }
}

/// A mobile number: ten to fifteen digits.
pub open spec fn mobile_rule(m: Seq<char>) -> Option<Failure> {
    if !digits_only(m) {
        Some((ValidationCode::InvalidFormat, "mobile_no"@))
    } else {
        length_out(m, 10, 15, "mobile_no"@)
    }
}

/// An optional timestamp must look like ISO 8601: hold a `T` and a `Z`.
pub open spec fn timestamp_rule(t: Option<String>) -> Option<Failure> {
    if t is Some && !(t->0@.contains('T') && t->0@.contains('Z')) {
        Some((ValidationCode::InvalidFormat, "timestamp"@))
    } else {
        None
    }
}

/// An optional code of four to twenty alphanumeric characters.
pub open spec fn code_rule(c: Option<String>, name: Seq<char>) -> Option<Failure> {
    if c is None {
        None
    } else if c->0@.len() == 0 {
        Some((ValidationCode::EmptyField, name))
    } else if byte_len(c->0@) < 4 || byte_len(c->0@) > 20 {
        Some((ValidationCode::InvalidLength, name))
    } else if !alphanumeric_only(c->0@) {
        Some((ValidationCode::InvalidFormat, name))
    } else {
        None
    }
}

/// A text that is present and not blank.
pub open spec fn present(v: Option<String>) -> Option<String> {
    if v is Some && !blank(v->0@) {
        v
    } else {
        None
    }
}

/// A login request.
pub struct LoginPayload {
    pub kind: JsonKind,
    pub mobile_no: Option<String>,
    pub device_id: Option<String>,
    pub fcm_token: Option<String>,
    pub email: Option<String>,
    pub timestamp: Option<String>,
}

/// A passcode verification request.
pub struct OtpPayload {
    pub kind: JsonKind,
    pub mobile_no: Option<String>,
    pub otp: Option<String>,
    pub session_token: Option<String>,
    pub timestamp: Option<String>,
    pub device_id: Option<String>,
    pub fcm_token: Option<String>,
    pub email: Option<String>,
}

/// A language setting request. `user_preferences` is JSON text.
pub struct LanguagePayload {
    pub kind: JsonKind,
    pub mobile_no: Option<String>,
    pub session_token: Option<String>,
    pub language_code: Option<String>,
    pub language_name: Option<String>,
    pub region_code: Option<String>,
    pub timezone: Option<String>,
    pub user_preferences: Option<String>,
    pub timestamp: Option<String>,
    pub device_id: Option<String>,
    pub fcm_token: Option<String>,
    pub email: Option<String>,
}

/// A profile request. `profile_data` is JSON text.
pub struct ProfilePayload {
    pub kind: JsonKind,
    pub mobile_no: Option<String>,
    pub session_token: Option<String>,
    pub full_name: Option<String>,
    pub state: Option<String>,
    pub referral_code: Option<String>,
    pub referred_by: Option<String>,
    pub profile_data: Option<String>,
    pub timestamp: Option<String>,
    pub device_id: Option<String>,
    pub fcm_token: Option<String>,
    pub email: Option<String>,
}

/// A device description. `capabilities` gives the kind of each element of the array.
pub struct DeviceInfoPayload {
    pub kind: JsonKind,
    pub device_id: Option<String>,
    pub device_type: Option<String>,
    pub timestamp: Option<String>,
    pub manufacturer: Option<String>,
    pub model: Option<String>,
    pub firmware_version: Option<String>,
    pub capabilities: Option<Vec<JsonKind>>,
}

/// The first rule a login request breaks.
pub open spec fn login_failure(p: LoginPayload) -> Option<Failure> {
    if p.kind != JsonKind::Object {
        Some((ValidationCode::InvalidFormat, "root"@))
    } else {
        first(missing(p.mobile_no, "mobile_no"@),
        first(missing(p.device_id, "device_id"@),
        first(missing(p.fcm_token, "fcm_token"@),
        first(empty(p.mobile_no, "mobile_no"@),
        first(empty(p.device_id, "device_id"@),
        first(empty(p.fcm_token, "fcm_token"@),
        first(mobile_rule(p.mobile_no->0@),
        first(if !(forall|i: int| 0 <= i < p.device_id->0@.len() ==> is_device_char(#[trigger] p.device_id->0@[i])) {
            Some((ValidationCode::InvalidFormat, "device_id"@))
        } else {
            None
        },
        first(length_out(p.device_id->0@, 3, 50, "device_id"@),
        first(length_out(p.fcm_token->0@, 100, 500, "fcm_token"@),
        timestamp_rule(p.timestamp)))))))))))
    }
}

/// The first rule a verification request breaks.
pub open spec fn otp_failure(p: OtpPayload) -> Option<Failure> {
    if p.kind != JsonKind::Object {
        Some((ValidationCode::InvalidFormat, "root"@))
    } else {
        first(missing(p.mobile_no, "mobile_no"@),
        first(missing(p.otp, "otp"@),
        first(missing(p.session_token, "session_token"@),
        first(empty(p.mobile_no, "mobile_no"@),
        first(empty(p.otp, "otp"@),
        first(mobile_rule(p.mobile_no->0@),
        first(if !digits_only(p.otp->0@) {
            Some((ValidationCode::InvalidFormat, "otp"@))
        } else if byte_len(p.otp->0@) != 6 {
            Some((ValidationCode::InvalidLength, "otp"@))
        } else {
            None
        },
        first(if p.session_token->0@.len() == 0 {
            Some((ValidationCode::InvalidValue, "session_token"@))
        } else {
            None
        },
        timestamp_rule(p.timestamp)))))))))
    }
}

/// The first rule a language setting request breaks.
pub open spec fn language_failure(p: LanguagePayload) -> Option<Failure> {
    if p.kind != JsonKind::Object {
        Some((ValidationCode::InvalidFormat, "root"@))
    } else {
        first(missing(p.mobile_no, "mobile_no"@),
        first(missing(p.session_token, "session_token"@),
        first(missing(p.language_code, "language_code"@),
        first(missing(p.language_name, "language_name"@),
        first(empty(p.mobile_no, "mobile_no"@),
        first(empty(p.session_token, "session_token"@),
        first(empty(p.language_code, "language_code"@),
        first(empty(p.language_name, "language_name"@),
        first(mobile_rule(p.mobile_no->0@),
        first(if !within(p.language_code->0@, 'a', 'z') {
            Some((ValidationCode::InvalidFormat, "language_code"@))
        } else if byte_len(p.language_code->0@) != 2 {
            Some((ValidationCode::InvalidLength, "language_code"@))
        } else {
            None
        },
        first(length_out(p.language_name->0@, 2, 50, "language_name"@),
        first(if p.region_code is None {
            None
        } else if !within(p.region_code->0@, 'A', 'Z') {
            Some((ValidationCode::InvalidFormat, "region_code"@))
        } else if byte_len(p.region_code->0@) != 2 {
            Some((ValidationCode::InvalidLength, "region_code"@))
        } else {
            None
        },
        first(if p.timezone is None {
            None
        } else if p.timezone->0@.len() == 0 {
            Some((ValidationCode::EmptyField, "timezone"@))
        } else {
            length_out(p.timezone->0@, 3, 50, "timezone"@)
        },
        timestamp_rule(p.timestamp))))))))))))))
    }
}

/// The first rule a profile request breaks.
pub open spec fn profile_failure(p: ProfilePayload) -> Option<Failure> {
    if p.kind != JsonKind::Object {
        Some((ValidationCode::InvalidFormat, "root"@))
    } else {
        first(missing(p.mobile_no, "mobile_no"@),
        first(missing(p.session_token, "session_token"@),
        first(missing(p.full_name, "full_name"@),
        first(missing(p.state, "state"@),
        first(empty(p.mobile_no, "mobile_no"@),
        first(empty(p.session_token, "session_token"@),
        first(empty(p.full_name, "full_name"@),
        first(empty(p.state, "state"@),
        first(mobile_rule(p.mobile_no->0@),
        first(length_out(p.full_name->0@, 2, 100, "full_name"@),
        first(if !(exists|i: int| 0 <= i < p.full_name->0@.len() && alphabetic(#[trigger] p.full_name->0@[i])) {
            Some((ValidationCode::InvalidFormat, "full_name"@))
        } else {
            None
        },
        first(length_out(p.state->0@, 2, 50, "state"@),
        first(code_rule(present(p.referral_code), "referral_code"@),
        first(code_rule(present(p.referred_by), "referred_by"@),
        timestamp_rule(p.timestamp)))))))))))))))
    }
}

/// The first element of `caps` that is not a string, at or after `from`, as a failure.
pub open spec fn capability_failure(caps: Seq<JsonKind>, from: int) -> Option<Failure>
    decreases caps.len() - from,
{
    if from < 0 || from >= caps.len() {
        None
    } else if caps[from] != JsonKind::Text {
        Some((ValidationCode::InvalidType, "capabilities["@ + decimal(from as nat) + "]"@))
    } else {
        capability_failure(caps, from + 1)
    }
}

/// An optional text that must not be empty when present.
pub open spec fn empty_if_present(v: Option<String>, name: Seq<char>) -> Option<Failure> {
    if v is Some && v->0@.len() == 0 {
        Some((ValidationCode::EmptyField, name))
    } else {
        None
    }
}

/// The first rule a device description breaks.
pub open spec fn device_info_failure(p: DeviceInfoPayload) -> Option<Failure> {
    if p.kind != JsonKind::Object {
        Some((ValidationCode::InvalidFormat, "root"@))
    } else {
        first(missing(p.device_id, "device_id"@),
        first(missing(p.device_type, "device_type"@),
        first(missing(p.timestamp, "timestamp"@),
        first(empty(p.device_id, "device_id"@),
        first(empty(p.device_type, "device_type"@),
        first(empty_if_present(p.manufacturer, "manufacturer"@),
        first(empty_if_present(p.model, "model"@),
        first(empty_if_present(p.firmware_version, "firmware_version"@),
        first(if p.capabilities is None {
            None
        } else if p.capabilities->0@.len() == 0 {
            Some((ValidationCode::EmptyField, "capabilities"@))
        } else {
            capability_failure(p.capabilities->0@, 0)
        },
        timestamp_rule(p.timestamp))))))))))
    }
}

fn failure(code: ValidationCode, field: &str, message: &str) -> (r: ValidationError)
    ensures
        r.code == code,
        r.field@ == field@,
{
    ValidationError { code, field: field.to_owned(), message: message.to_owned() }
}

fn check_mobile(m: &str) -> (r: Result<(), ValidationError>)
    ensures
        outcome_is(r, mobile_rule(m@)),
{
    if !all_digits(m) {
        return Err(failure(ValidationCode::InvalidFormat, "mobile_no", "mobile_no must contain only digits"));
    }
    let n = text_len(m);
    if n < 10 || n > 15 {
        return Err(failure(ValidationCode::InvalidLength, "mobile_no", "mobile_no must be between 10 and 15 digits"));
    }
    Ok(())
}

fn check_timestamp(t: &Option<String>) -> (r: Result<(), ValidationError>)
    ensures
        outcome_is(r, timestamp_rule(*t)),
{
    match t {
        Some(s) => {
            if !(contains_char(s.as_str(), 'T') && contains_char(s.as_str(), 'Z')) {
                return Err(failure(ValidationCode::InvalidFormat, "timestamp", "timestamp must be in ISO format (e.g., 2024-01-15T10:30:00Z)"));
            }
            Ok(())
        },
        None => Ok(()),
    }
}

fn check_code(c: &Option<String>, name: &str) -> (r: Result<(), ValidationError>)
    ensures
        outcome_is(r, code_rule(*c, name@)),
{
    match c {
        None => Ok(()),
        Some(s) => {
            if s.as_str().is_empty() {
                return Err(failure(ValidationCode::EmptyField, name, "code cannot be empty if provided"));
            }
            let n = text_len(s.as_str());
            if n < 4 || n > 20 {
                return Err(failure(ValidationCode::InvalidLength, name, "code must be between 4 and 20 characters"));
            }
            if !all_alphanumeric(s.as_str()) {
                return Err(failure(ValidationCode::InvalidFormat, name, "code must contain only alphanumeric characters"));
            }
            Ok(())
        },
    }
}

/// The text when it is present and not blank.
pub fn present_text(v: &Option<String>) -> (r: Option<String>)
    ensures
        r == present(*v),
{
    match v {
        Some(s) => {
            if is_blank(s.as_str()) {
                None
            } else {
                Some(s.clone())
            }
        },
        None => None,
    }
}

/// Checks the rules on requests; each validator reports the first rule broken.
pub struct ValidationManager;

impl ValidationManager {
    /// Checks a login request: a mobile number of ten to fifteen digits, a device
    /// identifier of three to fifty alphanumeric, `_` or `-` characters, a push token of
    /// 100 to 500 bytes and an optional ISO timestamp.
    pub fn validate_login_data(p: &LoginPayload) -> (r: Result<(), ValidationError>)
        ensures
            outcome_is(r, login_failure(*p)),
    {
        if p.kind != JsonKind::Object {
            return Err(failure(ValidationCode::InvalidFormat, "root", "Login data must be a JSON object"));
        }
        let mobile_no = match &p.mobile_no {
            Some(s) => s,
            None => { return Err(failure(ValidationCode::MissingField, "mobile_no", "mobile_no is required and must be a string")); },
        };
        let device_id = match &p.device_id {
            Some(s) => s,
            None => { return Err(failure(ValidationCode::MissingField, "device_id", "device_id is required and must be a string")); },
        };
        let fcm_token = match &p.fcm_token {
            Some(s) => s,
            None => { return Err(failure(ValidationCode::MissingField, "fcm_token", "fcm_token is required and must be a string")); },
        };
        if mobile_no.as_str().is_empty() {
            return Err(failure(ValidationCode::EmptyField, "mobile_no", "mobile_no cannot be empty"));
        }
        if device_id.as_str().is_empty() {
            return Err(failure(ValidationCode::EmptyField, "device_id", "device_id cannot be empty"));
        }
        if fcm_token.as_str().is_empty() {
            return Err(failure(ValidationCode::EmptyField, "fcm_token", "fcm_token cannot be empty"));
        }
        match check_mobile(mobile_no.as_str()) {
            Err(e) => { return Err(e); },
            Ok(_) => {},
        }
        if !all_device_chars(device_id.as_str()) {
            return Err(failure(ValidationCode::InvalidFormat, "device_id", "device_id must contain only alphanumeric characters, underscores, and hyphens"));
        }
        let n = text_len(device_id.as_str());
        if n < 3 || n > 50 {
            return Err(failure(ValidationCode::InvalidLength, "device_id", "device_id must be between 3 and 50 characters"));
        }
        let n = text_len(fcm_token.as_str());
        if n < 100 || n > 500 {
            return Err(failure(ValidationCode::InvalidLength, "fcm_token", "fcm_token must be between 100 and 500 characters"));
        }
        check_timestamp(&p.timestamp)
    }

    /// Checks a verification request: a mobile number of ten to fifteen digits, a passcode
    /// of exactly six digits, a non-empty session token and an optional ISO timestamp.
    pub fn validate_otp_data(p: &OtpPayload) -> (r: Result<(), ValidationError>)
        ensures
            outcome_is(r, otp_failure(*p)),
    {
        if p.kind != JsonKind::Object {
            return Err(failure(ValidationCode::InvalidFormat, "root", "OTP data must be a JSON object"));
        }
        let mobile_no = match &p.mobile_no {
            Some(s) => s,
            None => { return Err(failure(ValidationCode::MissingField, "mobile_no", "mobile_no is required and must be a string")); },
        };
        let otp = match &p.otp {
            Some(s) => s,
            None => { return Err(failure(ValidationCode::MissingField, "otp", "otp is required and must be a string")); },
        };
        let session_token = match &p.session_token {
            Some(s) => s,
            None => { return Err(failure(ValidationCode::MissingField, "session_token", "session_token is required and must be a string")); },
        };
        if mobile_no.as_str().is_empty() {
            return Err(failure(ValidationCode::EmptyField, "mobile_no", "mobile_no cannot be empty"));
        }
        if otp.as_str().is_empty() {
            return Err(failure(ValidationCode::EmptyField, "otp", "otp cannot be empty"));
        }
        match check_mobile(mobile_no.as_str()) {
            Err(e) => { return Err(e); },
            Ok(_) => {},
        }
        if !all_digits(otp.as_str()) {
            return Err(failure(ValidationCode::InvalidFormat, "otp", "otp must contain only digits"));
        }
        if text_len(otp.as_str()) != 6 {
            return Err(failure(ValidationCode::InvalidLength, "otp", "otp must be exactly 6 digits"));
        }
        if session_token.as_str().is_empty() {
            return Err(failure(ValidationCode::InvalidValue, "session_token", "session_token cannot be empty"));
        }
        check_timestamp(&p.timestamp)
    }

    /// Checks a language setting request: a mobile number of ten to fifteen digits, a
    /// session token, a two-letter lower-case language code, a language name of two to fifty
    /// bytes, an optional two-letter upper-case region code, an optional time zone of three
    /// to fifty bytes and an optional ISO timestamp.
    pub fn validate_language_setting_data(p: &LanguagePayload) -> (r: Result<(), ValidationError>)
        ensures
            outcome_is(r, language_failure(*p)),
    {
        if p.kind != JsonKind::Object {
            return Err(failure(ValidationCode::InvalidFormat, "root", "Language setting data must be a JSON object"));
        }
        let mobile_no = match &p.mobile_no {
            Some(s) => s,
            None => { return Err(failure(ValidationCode::MissingField, "mobile_no", "mobile_no is required and must be a string")); },
        };
        let session_token = match &p.session_token {
            Some(s) => s,
            None => { return Err(failure(ValidationCode::MissingField, "session_token", "session_token is required and must be a string")); },
        };
        let language_code = match &p.language_code {
            Some(s) => s,
            None => { return Err(failure(ValidationCode::MissingField, "language_code", "language_code is required and must be a string")); },
        };
        let language_name = match &p.language_name {
            Some(s) => s,
            None => { return Err(failure(ValidationCode::MissingField, "language_name", "language_name is required and must be a string")); },
        };
        if mobile_no.as_str().is_empty() {
            return Err(failure(ValidationCode::EmptyField, "mobile_no", "mobile_no cannot be empty"));
        }
        if session_token.as_str().is_empty() {
            return Err(failure(ValidationCode::EmptyField, "session_token", "session_token cannot be empty"));
        }
        if language_code.as_str().is_empty() {
            return Err(failure(ValidationCode::EmptyField, "language_code", "language_code cannot be empty"));
        }
        if language_name.as_str().is_empty() {
            return Err(failure(ValidationCode::EmptyField, "language_name", "language_name cannot be empty"));
        }
        match check_mobile(mobile_no.as_str()) {
            Err(e) => { return Err(e); },
            Ok(_) => {},
        }
        if !all_within(language_code.as_str(), 'a', 'z') {
            return Err(failure(ValidationCode::InvalidFormat, "language_code", "language_code must contain only lowercase letters"));
        }
        if text_len(language_code.as_str()) != 2 {
            return Err(failure(ValidationCode::InvalidLength, "language_code", "language_code must be exactly 2 characters"));
        }
        let n = text_len(language_name.as_str());
        if n < 2 || n > 50 {
            return Err(failure(ValidationCode::InvalidLength, "language_name", "language_name must be between 2 and 50 characters"));
        }
        match &p.region_code {
            Some(s) => {
                if !all_within(s.as_str(), 'A', 'Z') {
                    return Err(failure(ValidationCode::InvalidFormat, "region_code", "region_code must contain only uppercase letters"));
                }
                if text_len(s.as_str()) != 2 {
                    return Err(failure(ValidationCode::InvalidLength, "region_code", "region_code must be exactly 2 characters"));
                }
            },
            None => {},
        }
        match &p.timezone {
            Some(s) => {
                if s.as_str().is_empty() {
                    return Err(failure(ValidationCode::EmptyField, "timezone", "timezone cannot be empty if provided"));
                }
                let n = text_len(s.as_str());
                if n < 3 || n > 50 {
                    return Err(failure(ValidationCode::InvalidLength, "timezone", "timezone must be between 3 and 50 characters"));
                }
            },
            None => {},
        }
        check_timestamp(&p.timestamp)
    }

    /// Checks a profile request: a mobile number of ten to fifteen digits, a session token,
    /// a full name of two to a hundred bytes holding a letter, a state of two to fifty bytes,
    /// optional referral and referring codes of four to twenty alphanumeric characters (a
    /// blank one counts as absent) and an optional ISO timestamp.
    pub fn validate_user_profile_data(p: &ProfilePayload) -> (r: Result<(), ValidationError>)
        ensures
            outcome_is(r, profile_failure(*p)),
    {
        if p.kind != JsonKind::Object {
            return Err(failure(ValidationCode::InvalidFormat, "root", "User profile data must be a JSON object"));
        }
        let mobile_no = match &p.mobile_no {
            Some(s) => s,
            None => { return Err(failure(ValidationCode::MissingField, "mobile_no", "mobile_no is required and must be a string")); },
        };
        let session_token = match &p.session_token {
            Some(s) => s,
            None => { return Err(failure(ValidationCode::MissingField, "session_token", "session_token is required and must be a string")); },
        };
        let full_name = match &p.full_name {
            Some(s) => s,
            None => { return Err(failure(ValidationCode::MissingField, "full_name", "full_name is required and must be a string")); },
        };
        let state = match &p.state {
            Some(s) => s,
            None => { return Err(failure(ValidationCode::MissingField, "state", "state is required and must be a string")); },
        };
        if mobile_no.as_str().is_empty() {
            return Err(failure(ValidationCode::EmptyField, "mobile_no", "mobile_no cannot be empty"));
        }
        if session_token.as_str().is_empty() {
            return Err(failure(ValidationCode::EmptyField, "session_token", "session_token cannot be empty"));
        }
        if full_name.as_str().is_empty() {
            return Err(failure(ValidationCode::EmptyField, "full_name", "full_name cannot be empty"));
        }
        if state.as_str().is_empty() {
            return Err(failure(ValidationCode::EmptyField, "state", "state cannot be empty"));
        }
        match check_mobile(mobile_no.as_str()) {
            Err(e) => { return Err(e); },
            Ok(_) => {},
        }
        let n = text_len(full_name.as_str());
        if n < 2 || n > 100 {
            return Err(failure(ValidationCode::InvalidLength, "full_name", "full_name must be between 2 and 100 characters"));
        }
        if !any_alphabetic(full_name.as_str()) {
            return Err(failure(ValidationCode::InvalidFormat, "full_name", "full_name must contain at least one letter"));
        }
        let n = text_len(state.as_str());
        if n < 2 || n > 50 {
            return Err(failure(ValidationCode::InvalidLength, "state", "state must be between 2 and 50 characters"));
        }
        match check_code(&present_text(&p.referral_code), "referral_code") {
            Err(e) => { return Err(e); },
            Ok(_) => {},
        }
        match check_code(&present_text(&p.referred_by), "referred_by") {
            Err(e) => { return Err(e); },
            Ok(_) => {},
        }
        check_timestamp(&p.timestamp)
    }

    /// Checks a device description: a device identifier, a device type and an ISO timestamp
    /// are required and non-empty; the optional texts are non-empty when present; the
    /// capabilities, when present, are a non-empty array of strings.
    pub fn validate_device_info(p: &DeviceInfoPayload) -> (r: Result<(), ValidationError>)
        ensures
            outcome_is(r, device_info_failure(*p)),
    {
        if p.kind != JsonKind::Object {
            return Err(failure(ValidationCode::InvalidFormat, "root", "Device info must be a JSON object"));
        }
        let device_id = match &p.device_id {
            Some(s) => s,
            None => { return Err(failure(ValidationCode::MissingField, "device_id", "device_id is required and must be a string")); },
        };
        let device_type = match &p.device_type {
            Some(s) => s,
            None => { return Err(failure(ValidationCode::MissingField, "device_type", "device_type is required and must be a string")); },
        };
        if p.timestamp.is_none() {
            return Err(failure(ValidationCode::MissingField, "timestamp", "timestamp is required and must be a string"));
        }
        if device_id.as_str().is_empty() {
            return Err(failure(ValidationCode::EmptyField, "device_id", "device_id cannot be empty"));
        }
        if device_type.as_str().is_empty() {
            return Err(failure(ValidationCode::EmptyField, "device_type", "device_type cannot be empty"));
        }
        match &p.manufacturer {
            Some(s) => if s.as_str().is_empty() {
                return Err(failure(ValidationCode::EmptyField, "manufacturer", "manufacturer cannot be empty if provided"));
            },
            None => {},
        }
        match &p.model {
            Some(s) => if s.as_str().is_empty() {
                return Err(failure(ValidationCode::EmptyField, "model", "model cannot be empty if provided"));
            },
            None => {},
        }
        match &p.firmware_version {
            Some(s) => if s.as_str().is_empty() {
                return Err(failure(ValidationCode::EmptyField, "firmware_version", "firmware_version cannot be empty if provided"));
            },
            None => {},
        }
        match &p.capabilities {
            Some(caps) => {
                if caps.len() == 0 {
                    return Err(failure(ValidationCode::EmptyField, "capabilities", "capabilities cannot be empty if provided"));
                }
                match check_capabilities(caps) {
                    Err(e) => { return Err(e); },
                    Ok(_) => {},
                }
            },
            None => {},
        }
        check_timestamp(&p.timestamp)
    }
}

fn check_capabilities(caps: &Vec<JsonKind>) -> (r: Result<(), ValidationError>)
    ensures
        outcome_is(r, capability_failure(caps@, 0)),
{
    let mut i: usize = 0;
    while i < caps.len()
        invariant
            i <= caps@.len(),
            capability_failure(caps@, 0) == capability_failure(caps@, i as int),
        decreases caps@.len() - i,
    {
        if caps[i] != JsonKind::Text {
            let mut field = "capabilities[".to_owned();
            field.append(decimal_text(i).as_str());
            field.append("]");
            assert(field@ =~= "capabilities["@ + decimal(i as nat) + "]"@);
            return Err(ValidationError {
                code: ValidationCode::InvalidType,
                field,
                message: "all capabilities must be strings".to_owned(),
            });
        }
        i = i + 1;
    }
    Ok(())
}

} // verus!
