//! Request validation: the field rules for registration and login, and
//! the pattern checks for phone numbers and passwords.
//!
//! The pattern checks call into the `regex` crate; what a pattern matches
//! is named, not restated, so the rules here are proved relative to the
//! regex engine's verdict.

use vstd::prelude::*;
use vstd::string::StrSliceExecFns;

use crate::response::ErrorBody;
use crate::user::Gender;

verus! {

/// The least characters a user name may have.
pub const MIN_USERNAME_LENGTH: usize = 6;

/// The most characters a user name or nickname may have.
pub const MAX_USERNAME_LENGTH: usize = 20;

/// Whether this pattern is a regular expression the engine accepts.
pub uninterp spec fn regex_pattern_ok(pattern: Seq<char>) -> bool;

/// Whether the pattern matches anywhere in the text; meaningful when the
/// pattern is one the engine accepts.
pub uninterp spec fn regex_match(pattern: Seq<char>, text: Seq<char>) -> bool;

/// Relies on regex::Regex::new (compiling succeeds or fails on the
/// pattern alone) and regex::Regex::is_match (whether a match exists
/// anywhere in the haystack is a function of pattern and haystack alone).
#[verifier::external_body]
fn regex_is_match(pattern: &str, text: &str) -> (r: Option<bool>)
    ensures
        r is Some <==> regex_pattern_ok(pattern@),
        r is Some ==> r->Some_0 == regex_match(pattern@, text@),
{
    match regex::Regex::new(pattern) {
        Ok(re) => Some(re.is_match(text)),
        Err(_) => None,
    }
}

/// Match `value` against `pattern`; a pattern the engine rejects matches
/// nothing.
fn is_string_match(pattern: &str, value: &str) -> (r: bool)
    ensures
        regex_pattern_ok(pattern@) ==> r == regex_match(pattern@, value@),
        !regex_pattern_ok(pattern@) ==> r == false,
{
    match regex_is_match(pattern, value) {
        Some(b) => b,
        None => false,
    }
}

/// The mobile-phone pattern.
pub open spec fn phone_pattern() -> Seq<char> {
    "/^1(3[0-9]|4[01456879]|5[0-35-9]|6[2567]|7[0-8]|8[0-9]|9[0-35-9])\\d{8}$/"@
}

/// The password pattern: at least eight characters, with at least one
/// letter and one digit.
pub open spec fn password_pattern() -> Seq<char> {
    "^(?=.*[A-Za-z])(?=.*\\d)[A-Za-z\\d@$!%*#?&]{8,}$"@
}

/// Whether this is a well-formed mobile number, by the phone pattern.
pub fn is_mobile_valid(mobile: &str) -> (r: bool)
    ensures
        regex_pattern_ok(phone_pattern()) ==> r == regex_match(phone_pattern(), mobile@),
        !regex_pattern_ok(phone_pattern()) ==> r == false,
{
    is_string_match(
        "/^1(3[0-9]|4[01456879]|5[0-35-9]|6[2567]|7[0-8]|8[0-9]|9[0-35-9])\\d{8}$/",
        mobile,
    )
}

/// Whether this is an acceptable password, by the password pattern.
pub fn is_password_valid(password: &str) -> (r: bool)
    ensures
        regex_pattern_ok(password_pattern()) ==> r == regex_match(password_pattern(), password@),
        !regex_pattern_ok(password_pattern()) ==> r == false,
{
    is_string_match("^(?=.*[A-Za-z])(?=.*\\d)[A-Za-z\\d@$!%*#?&]{8,}$", password)
}

pub fn login_type_empty() -> (r: ErrorBody)
    ensures
        r.code == crate::response::CODE_BAD_REQUEST,
        r.msg@ == "LOGIN_TYPE_EMPTY"@,
        r.reason@ == "choose password or verification-code login"@,
{
    ErrorBody::new(
        crate::response::CODE_BAD_REQUEST,
        "LOGIN_TYPE_EMPTY",
        "choose password or verification-code login",
    )
}

pub fn user_name_empty() -> (r: ErrorBody)
    ensures
        r.code == crate::response::CODE_BAD_REQUEST,
        r.msg@ == "USER_NAME_EMPTY"@,
        r.reason@ == "the user name must not be empty"@,
{
    ErrorBody::new(
        crate::response::CODE_BAD_REQUEST,
        "USER_NAME_EMPTY",
        "the user name must not be empty",
    )
}

pub fn user_name_too_long() -> (r: ErrorBody)
    ensures
        r.code == crate::response::CODE_BAD_REQUEST,
        r.msg@ == "USER_NAME_TOO_LONG"@,
        r.reason@ == "the user name must not exceed 20 characters"@,
{
    ErrorBody::new(
        crate::response::CODE_BAD_REQUEST,
        "USER_NAME_TOO_LONG",
        "the user name must not exceed 20 characters",
    )
}

pub fn nickname_empty() -> (r: ErrorBody)
    ensures
        r.code == crate::response::CODE_BAD_REQUEST,
        r.msg@ == "NICKNAME_EMPTY"@,
        r.reason@ == "the nickname must not be empty"@,
{
    ErrorBody::new(
        crate::response::CODE_BAD_REQUEST,
        "NICKNAME_EMPTY",
        "the nickname must not be empty",
    )
}

pub fn nickname_too_long() -> (r: ErrorBody)
    ensures
        r.code == crate::response::CODE_BAD_REQUEST,
        r.msg@ == "NICKNAME_TOO_LONG"@,
        r.reason@ == "the nickname must not exceed 20 characters"@,
{
    ErrorBody::new(
        crate::response::CODE_BAD_REQUEST,
        "NICKNAME_TOO_LONG",
        "the nickname must not exceed 20 characters",
    )
}

pub fn mobile_empty() -> (r: ErrorBody)
    ensures
        r.code == crate::response::CODE_BAD_REQUEST,
        r.msg@ == "MOBILE_EMPTY"@,
        r.reason@ == "the mobile number must not be empty"@,
{
    ErrorBody::new(
        crate::response::CODE_BAD_REQUEST,
        "MOBILE_EMPTY",
        "the mobile number must not be empty",
    )
}

pub fn mobile_invalid() -> (r: ErrorBody)
    ensures
        r.code == crate::response::CODE_BAD_REQUEST,
        r.msg@ == "MOBILE_INVALID"@,
        r.reason@ == "the mobile number is not well-formed"@,
{
    ErrorBody::new(
        crate::response::CODE_BAD_REQUEST,
        "MOBILE_INVALID",
        "the mobile number is not well-formed",
    )
}

pub fn password_empty() -> (r: ErrorBody)
    ensures
        r.code == crate::response::CODE_BAD_REQUEST,
        r.msg@ == "PASSWORD_EMPTY"@,
        r.reason@ == "the password must not be empty"@,
{
    ErrorBody::new(
        crate::response::CODE_BAD_REQUEST,
        "PASSWORD_EMPTY",
        "the password must not be empty",
    )
}

pub fn password_invalid() -> (r: ErrorBody)
    ensures
        r.code == crate::response::CODE_BAD_REQUEST,
        r.msg@ == "PASSWORD_INVALID"@,
        r.reason@ == "the password needs at least one letter and one digit and eight characters"@,
{
    ErrorBody::new(
        crate::response::CODE_BAD_REQUEST,
        "PASSWORD_INVALID",
        "the password needs at least one letter and one digit and eight characters",
    )
}

/// A registration request as it arrives off the wire.
pub struct RegisterRequest {
    pub username: String,
    pub nickname: String,
    pub password: String,
    pub mobile: String,
    pub gender: Gender,
}

/// Which credentials a login request carries.
pub enum LoginType {
    Custom { username: String, password: String },
    Mobile { mobile: String },
}

/// A login request as it arrives off the wire.
pub struct LoginRequest {
    pub login_type: Option<LoginType>,
}

impl RegisterRequest {
    /// The registration field rules, checked in order: user name present
    /// and short enough, nickname present and short enough (reported with
    /// the user-name errors), mobile present and well-formed, password
    /// present and acceptable.
    pub fn validate(&self) -> (r: Result<(), ErrorBody>)
        ensures
            self.username@.len() == 0 ==> is_user_name_empty_err(r),
            self.username@.len() > 0 && self.username@.len() > MAX_USERNAME_LENGTH
                ==> is_user_name_too_long_err(r),
            self.basics_ok() && self.nickname@.len() == 0 ==> is_user_name_empty_err(r),
            self.basics_ok() && self.nickname@.len() > 0 && self.nickname@.len()
                > MAX_USERNAME_LENGTH ==> is_user_name_too_long_err(r),
            self.names_ok() && self.mobile@.len() == 0 ==> is_mobile_empty_err(r),
            self.names_ok() && self.mobile@.len() > 0 && !spec_mobile_valid(self.mobile@)
                ==> is_mobile_invalid_err(r),
            self.names_ok() && self.mobile_ok() && self.password@.len() == 0
                ==> is_password_empty_err(r),
            self.names_ok() && self.mobile_ok() && self.password@.len() > 0 && !spec_password_valid(
                self.password@,
            ) ==> is_password_invalid_err(r),
            self.names_ok() && self.mobile_ok() && self.password@.len() > 0 && spec_password_valid(
                self.password@,
            ) ==> r == Ok::<(), ErrorBody>(()),
    {
        if self.username.as_str().is_empty() {
            return Err(user_name_empty());
        }
        if self.username.as_str().unicode_len() > MAX_USERNAME_LENGTH {
            return Err(user_name_too_long());
        }
        if self.nickname.as_str().is_empty() {
            return Err(user_name_empty());
        }
        if self.nickname.as_str().unicode_len() > MAX_USERNAME_LENGTH {
            return Err(user_name_too_long());
        }
        if self.mobile.as_str().is_empty() {
            return Err(mobile_empty());
        }
        if !is_mobile_valid(self.mobile.as_str()) {
            return Err(mobile_invalid());
        }
        if self.password.as_str().is_empty() {
            return Err(password_empty());
        }
        if !is_password_valid(self.password.as_str()) {
            return Err(password_invalid());
        }
        Ok(())
    }

    /// The user name passed its checks.
    pub open spec fn basics_ok(&self) -> bool {
        0 < self.username@.len() <= MAX_USERNAME_LENGTH
    }

    /// Both names passed their checks.
    pub open spec fn names_ok(&self) -> bool {
        self.basics_ok() && 0 < self.nickname@.len() <= MAX_USERNAME_LENGTH
    }

    /// The mobile number passed its checks.
    pub open spec fn mobile_ok(&self) -> bool {
        self.mobile@.len() > 0 && spec_mobile_valid(self.mobile@)
    }
}

impl LoginRequest {
    /// The login field rules: some login type must be present; password
    /// logins need a short-enough user name and a password, mobile logins
    /// a mobile number.
    pub fn validate(&self) -> (r: Result<(), ErrorBody>)
        ensures
            self.login_type is None ==> is_login_type_empty_err(r),
            self.login_type matches Some(t) ==> (match t {
                LoginType::Custom { username, password } => {
                    &&& username@.len() == 0 ==> is_user_name_empty_err(r)
                    &&& username@.len() > MAX_USERNAME_LENGTH ==> is_user_name_too_long_err(r)
                    &&& 0 < username@.len() <= MAX_USERNAME_LENGTH && password@.len() == 0
                        ==> is_password_empty_err(r)
                    &&& 0 < username@.len() <= MAX_USERNAME_LENGTH && password@.len() > 0 ==> (
                    if spec_password_valid(password@) {
                        is_password_invalid_err(r)
                    } else {
                        r == Ok::<(), ErrorBody>(())
                    })
                },
                LoginType::Mobile { mobile } => {
                    &&& mobile@.len() == 0 ==> is_mobile_empty_err(r)
                    &&& mobile@.len() > 0 ==> (if spec_mobile_valid(mobile@) {
                        is_mobile_invalid_err(r)
                    } else {
                        r == Ok::<(), ErrorBody>(())
                    })
                },
            }),
    {
        match &self.login_type {
            None => Err(login_type_empty()),
            Some(LoginType::Custom { username, password }) => {
                if username.as_str().is_empty() {
                    return Err(user_name_empty());
                }
                if username.as_str().unicode_len() > MAX_USERNAME_LENGTH {
                    return Err(user_name_too_long());
                }
                if password.as_str().is_empty() {
                    return Err(password_empty());
                }
                if is_password_valid(password.as_str()) {
                    return Err(password_invalid());
                }
                Ok(())
            },
            Some(LoginType::Mobile { mobile }) => {
                if mobile.as_str().is_empty() {
                    return Err(mobile_empty());
                }
                if is_mobile_valid(mobile.as_str()) {
                    return Err(mobile_invalid());
                }
                Ok(())
            },
        }
    }
}

impl RegisterRequest {
    /// The stored record a registration inserts: no identifier yet, the
    /// password kept, the detail fields empty, the registration time not
    /// yet stamped.
    pub fn into_user(self) -> (r: crate::biz::User)
        ensures
            r.user_id@ == Seq::<char>::empty(),
            r.user_name == self.username,
            r.nick_name == self.nickname,
            r.password == Some(self.password),
            r.gender == self.gender,
            r.phone == self.mobile,
            r.birthday is None,
            r.email is None,
            r.address is None,
            r.signature is None,
            r.facetype is None,
            r.customface is None,
            r.customfacefmt is None,
            r.group_info is None,
            r.register_time == 0i64,
    {
        crate::biz::User {
            user_id: String::new(),
            user_name: self.username,
            nick_name: self.nickname,
            password: Some(self.password),
            gender: self.gender,
            phone: self.mobile,
            birthday: None,
            email: None,
            address: None,
            signature: None,
            facetype: None,
            customface: None,
            customfacefmt: None,
            group_info: None,
            register_time: 0,
        }
    }
}

/// What the mobile check accepts.
pub open spec fn spec_mobile_valid(mobile: Seq<char>) -> bool {
    regex_pattern_ok(phone_pattern()) && regex_match(phone_pattern(), mobile)
}

/// What the password check accepts.
pub open spec fn spec_password_valid(password: Seq<char>) -> bool {
    regex_pattern_ok(password_pattern()) && regex_match(password_pattern(), password)
}

/// The result is the given error payload, by code, tag and reason.
pub open spec fn is_err_with(r: Result<(), ErrorBody>, code: u16, msg: Seq<char>, reason: Seq<
    char,
>) -> bool {
    &&& r is Err
    &&& r->Err_0.code == code
    &&& r->Err_0.msg@ == msg
    &&& r->Err_0.reason@ == reason
}

pub open spec fn is_login_type_empty_err(r: Result<(), ErrorBody>) -> bool {
    is_err_with(
        r,
        crate::response::CODE_BAD_REQUEST,
        "LOGIN_TYPE_EMPTY"@,
        "choose password or verification-code login"@,
    )
}

pub open spec fn is_user_name_empty_err(r: Result<(), ErrorBody>) -> bool {
    is_err_with(
        r,
        crate::response::CODE_BAD_REQUEST,
        "USER_NAME_EMPTY"@,
        "the user name must not be empty"@,
    )
}

pub open spec fn is_user_name_too_long_err(r: Result<(), ErrorBody>) -> bool {
    is_err_with(
        r,
        crate::response::CODE_BAD_REQUEST,
        "USER_NAME_TOO_LONG"@,
        "the user name must not exceed 20 characters"@,
    )
}

pub open spec fn is_mobile_empty_err(r: Result<(), ErrorBody>) -> bool {
    is_err_with(
        r,
        crate::response::CODE_BAD_REQUEST,
        "MOBILE_EMPTY"@,
        "the mobile number must not be empty"@,
    )
}

pub open spec fn is_mobile_invalid_err(r: Result<(), ErrorBody>) -> bool {
    is_err_with(
        r,
        crate::response::CODE_BAD_REQUEST,
        "MOBILE_INVALID"@,
        "the mobile number is not well-formed"@,
    )
}

pub open spec fn is_password_empty_err(r: Result<(), ErrorBody>) -> bool {
    is_err_with(
        r,
        crate::response::CODE_BAD_REQUEST,
        "PASSWORD_EMPTY"@,
        "the password must not be empty"@,
    )
}

pub open spec fn is_password_invalid_err(r: Result<(), ErrorBody>) -> bool {
    is_err_with(
        r,
        crate::response::CODE_BAD_REQUEST,
        "PASSWORD_INVALID"@,
        "the password needs at least one letter and one digit and eight characters"@,
    )
}

} // verus!
