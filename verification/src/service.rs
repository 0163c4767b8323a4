//! Service-level decisions: credential checking, error mapping, reply
//! assembly, the duplicate check's verdict, and access to the wired
//! components.

use std::sync::Arc;

use vstd::prelude::*;

use crate::biz;
use crate::components::{get_service_factory, Modules, Registry};
use crate::config::Config;
use crate::response;
use crate::response::ErrorBody;
use crate::user::{SignInRequest, UserBaseInfo, UserRegisterReply};

verus! {

/// The user-facing service manager.
pub struct UserManager {
    pub cfg: Arc<Config>,
    pub uc: Arc<biz::UserUsecase>,
}

impl UserManager {
    pub fn new(cfg: Arc<Config>, uc: Arc<biz::UserUsecase>) -> (r: Arc<UserManager>)
        ensures
            r.cfg == cfg,
            r.uc == uc,
    {
        Arc::new(UserManager { cfg, uc })
    }
}

/// The wired components, with a missing registration reported as the
/// internal server error.
pub fn service_factory(reg: &Registry) -> (r: Result<&Modules, response::Error>)
    ensures
        reg.is_initialized() ==> (r matches Ok(m) && reg.spec_modules()->Some_0 == *m),
        !reg.is_initialized() ==> r == Err::<&Modules, response::Error>(
            response::Error::InternalServerError,
        ),
{
    match get_service_factory(reg) {
        Ok(m) => Ok(m),
        Err(_) => Err(response::Error::InternalServerError),
    }
}

/// Check a sign-in request against the looked-up user: an unknown user is
/// rejected outright; a known one passes exactly when the stored user
/// name equals the requested one (a stored password can confirm, but its
/// absence or mismatch never revokes a user-name match).
pub fn check_sign_in(user: Option<biz::User>, req: &SignInRequest) -> (r: Result<
    (),
    response::Error,
>)
    ensures
        user is None ==> r == Err::<(), response::Error>(response::Error::UserNotRegistered),
        user matches Some(u) && u.user_name@ == req.username@ ==> r == Ok::<(), response::Error>(
            (),
        ),
        user matches Some(u) && u.user_name@ != req.username@ ==> r == Err::<(), response::Error>(
            response::Error::UserNameOrPasswordMismatch,
        ),
{
    let u = match user {
        None => {
            return Err(response::Error::UserNotRegistered);
        },
        Some(u) => u,
    };
    let mut valid = false;
    if u.user_name == req.username {
        valid = true;
    }
    if let Some(pwd) = &u.password {
        if *pwd == req.password {
            valid = valid && true;
        }
    }
    if !valid {
        return Err(response::Error::UserNameOrPasswordMismatch);
    }
    Ok(())
}

/// Map a business error to the structured payload the API answers with.
pub fn map_biz_error(e: biz::Error) -> (r: ErrorBody)
    ensures
        e matches biz::Error::UserNotExist(v) ==> {
            &&& r.code == response::CODE_BAD_REQUEST
            &&& r.msg@ == "USER_NOT_EXIST"@
            &&& r.reason@ == "user "@ + v@ + " does not exist"@
        },
        e is UsernameDuplicate ==> {
            &&& r.code == response::CODE_BAD_REQUEST
            &&& r.msg@ == "USERNAME_DUPLICATE"@
        },
        e is PhoneDuplicate ==> {
            &&& r.code == response::CODE_BAD_REQUEST
            &&& r.msg@ == "PHONE_DUPLICATE"@
        },
        e is EmailDuplicate ==> {
            &&& r.code == response::CODE_BAD_REQUEST
            &&& r.msg@ == "EMAIL_DUPLICATE"@
        },
        e matches biz::Error::Database(d) ==> {
            &&& r.code == response::CODE_INTERNAL_SERVER_ERROR
            &&& r.msg@ == "INTERNAL_SERVER_ERROR"@
            &&& r.reason@ == (match d {
                crate::db::DbError::PoolExhausted =>
                    "no connection became free before the acquire deadline"@,
                crate::db::DbError::BeginFailed => "the transaction could not be opened"@,
                crate::db::DbError::CommitFailed => "the commit failed"@,
                crate::db::DbError::RollbackFailed => "the rollback failed"@,
                crate::db::DbError::HandleAlreadyFinalized =>
                    "the transaction was already finalized"@,
            })
        },
{
    match e {
        biz::Error::UserNotExist(v) => ErrorBody::user_not_exist(v),
        biz::Error::UsernameDuplicate => ErrorBody::username_duplicate(),
        biz::Error::PhoneDuplicate => ErrorBody::phone_duplicate(),
        biz::Error::EmailDuplicate => ErrorBody::email_duplicate(),
        biz::Error::Database(d) => {
            let msg = d.message();
            ErrorBody::internal_server_error(msg.as_str())
        },
    }
}

/// Assemble the registration reply from the inserted user's public
/// profile.
pub fn register_reply(user: biz::User) -> (r: UserRegisterReply)
    ensures
        r.user.user_id == user.user_id,
        r.user.user_name == user.user_name,
        r.user.nick_name == user.nick_name,
        r.user.gender == user.gender,
        r.user.phone == user.phone,
{
    UserRegisterReply {
        user: UserBaseInfo {
            user_id: user.user_id,
            user_name: user.user_name,
            nick_name: user.nick_name,
            gender: user.gender,
            phone: user.phone,
        },
    }
}

/// The duplicate check's verdict from the cache lookup: a served lookup
/// means the field is taken, a failed one means it is free and the pair
/// should be recorded.
pub fn duplicate_verdict(lookup: Result<u32, String>) -> (r: (bool, bool))
    ensures
        lookup is Ok ==> r == (true, false),
        lookup is Err ==> r == (false, true),
{
    match lookup {
        Ok(_) => (true, false),
        Err(_) => (false, true),
    }
}

} // verus!
