//! API replies and error payloads.
//!
//! `Response<T>` is the uniform reply envelope; `Error` is the service
//! error taxonomy with its wire and HTTP codes; `ErrorBody` is the
//! structured payload variant with a code, a short tag and a reason, built
//! by the constructors below.  Serialization to the wire happens outside
//! the verified core.

use vstd::prelude::*;

verus! {

pub const CODE_OK: u16 = 200;

pub const CODE_BAD_REQUEST: u16 = 400;

pub const CODE_UNAUTHORIZED: u16 = 401;

pub const CODE_INTERNAL_SERVER_ERROR: u16 = 500;

/// The code `ok` replies carry in the envelope.
pub const CODE_REPLY_OK: u16 = 1000;

/// The uniform reply envelope.
pub struct Response<T> {
    pub code: u16,
    pub data: Option<T>,
    pub msg: Option<String>,
}

impl<T> Response<T> {
    /// An OK-coded reply with the given payload and message.
    pub fn new(data: Option<T>, msg: Option<String>) -> (r: Response<T>)
        ensures
            r.code == CODE_OK,
            r.data == data,
            r.msg == msg,
    {
        Response { code: CODE_OK, data, msg }
    }

    /// A successful reply carrying `data`.
    pub fn ok(data: T) -> (r: Response<T>)
        ensures
            r.code == CODE_REPLY_OK,
            r.data == Some(data),
            r.msg is None,
    {
        Response { code: CODE_REPLY_OK, data: Some(data), msg: None }
    }

    /// A failed reply carrying only a code and a message.
    pub fn error(code: u16, msg: Option<String>) -> (r: Response<T>)
        ensures
            r.code == code,
            r.data is None,
            r.msg == msg,
    {
        Response { code, data: None, msg }
    }
}

impl<T> Default for Response<T> {
    /// An empty OK reply.
    fn default() -> (r: Response<T>)
        ensures
            r.code == CODE_OK,
            r.data is None,
            r.msg is None,
    {
        Response { code: CODE_OK, data: None, msg: None }
    }
}

/// The service error taxonomy surfaced to API callers.
#[derive(Debug, PartialEq, Eq)]
pub enum Error {
    InternalServerError,
    ParamInvalid(String),
    UserNotRegistered,
    UsernameDuplicate,
    UserNameOrPasswordMismatch,
}

impl Error {
    /// The wire code of each error.
    pub fn error_code(&self) -> (r: u16)
        ensures
            r == (match self {
                Error::InternalServerError => 500u16,
                Error::ParamInvalid(_) => 1001u16,
                Error::UserNotRegistered => 1002u16,
                Error::UsernameDuplicate => 1003u16,
                Error::UserNameOrPasswordMismatch => 1004u16,
            }),
    {
        match self {
            Error::InternalServerError => 500,
            Error::ParamInvalid(_) => 1001,
            Error::UserNotRegistered => 1002,
            Error::UsernameDuplicate => 1003,
            Error::UserNameOrPasswordMismatch => 1004,
        }
    }

    /// The HTTP status each error is answered with.
    pub fn status_code(&self) -> (r: u16)
        ensures
            r == (match self {
                Error::InternalServerError => CODE_INTERNAL_SERVER_ERROR,
                Error::UserNotRegistered => CODE_UNAUTHORIZED,
                Error::ParamInvalid(_) => CODE_BAD_REQUEST,
                Error::UsernameDuplicate => CODE_BAD_REQUEST,
                Error::UserNameOrPasswordMismatch => CODE_BAD_REQUEST,
            }),
    {
        match self {
            Error::InternalServerError => CODE_INTERNAL_SERVER_ERROR,
            Error::UserNotRegistered => CODE_UNAUTHORIZED,
            Error::ParamInvalid(_) => CODE_BAD_REQUEST,
            Error::UsernameDuplicate => CODE_BAD_REQUEST,
            Error::UserNameOrPasswordMismatch => CODE_BAD_REQUEST,
        }
    }
}

/// A structured error payload: wire code, short tag, human reason.
#[derive(Debug, PartialEq, Eq)]
pub struct ErrorBody {
    pub code: u16,
    pub msg: String,
    pub reason: String,
}

impl ErrorBody {
    pub fn new(code: u16, msg: &str, reason: &str) -> (r: ErrorBody)
        ensures
            r.code == code,
            r.msg@ == msg@,
            r.reason@ == reason@,
    {
        ErrorBody { code, msg: String::from_str(msg), reason: String::from_str(reason) }
    }

    pub fn bad_request() -> (r: ErrorBody)
        ensures
            r.code == CODE_BAD_REQUEST,
            r.msg@ == "BAD_REQUEST"@,
            r.reason@ == "bad request"@,
    {
        ErrorBody::new(CODE_BAD_REQUEST, "BAD_REQUEST", "bad request")
    }

    pub fn internal_server_error(err: &str) -> (r: ErrorBody)
        ensures
            r.code == CODE_INTERNAL_SERVER_ERROR,
            r.msg@ == "INTERNAL_SERVER_ERROR"@,
            r.reason@ == err@,
    {
        ErrorBody::new(CODE_INTERNAL_SERVER_ERROR, "INTERNAL_SERVER_ERROR", err)
    }

    pub fn param_invalid(reason: &str) -> (r: ErrorBody)
        ensures
            r.code == CODE_BAD_REQUEST,
            r.msg@ == "PARAM_INVALID"@,
            r.reason@ == reason@,
    {
        ErrorBody::new(CODE_BAD_REQUEST, "PARAM_INVALID", reason)
    }

    pub fn user_not_exist(user: String) -> (r: ErrorBody)
        ensures
            r.code == CODE_BAD_REQUEST,
            r.msg@ == "USER_NOT_EXIST"@,
            r.reason@ == "user "@ + user@ + " does not exist"@,
    {
        let mut reason = String::from_str("user ");
        reason.append(user.as_str());
        reason.append(" does not exist");
        ErrorBody { code: CODE_BAD_REQUEST, msg: String::from_str("USER_NOT_EXIST"), reason }
    }

    pub fn username_duplicate() -> (r: ErrorBody)
        ensures
            r.code == CODE_BAD_REQUEST,
            r.msg@ == "USERNAME_DUPLICATE"@,
            r.reason@ == "the user name is already registered"@,
    {
        ErrorBody::new(CODE_BAD_REQUEST, "USERNAME_DUPLICATE", "the user name is already registered")
    }

    pub fn phone_duplicate() -> (r: ErrorBody)
        ensures
            r.code == CODE_BAD_REQUEST,
            r.msg@ == "PHONE_DUPLICATE"@,
            r.reason@ == "the phone number is already registered"@,
    {
        ErrorBody::new(CODE_BAD_REQUEST, "PHONE_DUPLICATE", "the phone number is already registered")
    }

    pub fn email_duplicate() -> (r: ErrorBody)
        ensures
            r.code == CODE_BAD_REQUEST,
            r.msg@ == "EMAIL_DUPLICATE"@,
            r.reason@ == "the email address is already registered"@,
    {
        ErrorBody::new(
            CODE_BAD_REQUEST,
            "EMAIL_DUPLICATE",
            "the email address is already registered",
        )
    }
}

impl Default for ErrorBody {
    /// The catch-all server error payload.
    fn default() -> (r: ErrorBody)
        ensures
            r.code == CODE_INTERNAL_SERVER_ERROR,
            r.msg@ == "service error, please retry"@,
            r.reason@ == "UNKNOWN"@,
    {
        ErrorBody {
            code: CODE_INTERNAL_SERVER_ERROR,
            msg: String::from_str("service error, please retry"),
            reason: String::from_str("UNKNOWN"),
        }
    }
}

} // verus!
