//! Business-level error taxonomy and the user use-case decisions.
//!
//! These are the errors a workload itself can produce; the unit of work
//! propagates them unchanged (never masked by a finalization outcome).

use vstd::prelude::*;

use crate::db::DbError;

verus! {

/// What a workload can fail with.
#[derive(Debug, PartialEq, Eq)]
pub enum Error {
    /// The named user does not exist.
    UserNotExist(String),
    /// The user name is already registered.
    UsernameDuplicate,
    /// The phone number is already registered.
    PhoneDuplicate,
    /// The email address is already registered.
    EmailDuplicate,
    /// The database layer failed.
    Database(DbError),
}


/// The flat user record the business layer works with.  Times are unix
/// timestamps in milliseconds.
#[derive(Debug)]
pub struct User {
    pub user_id: String,
    pub user_name: String,
    pub nick_name: String,
    pub password: Option<String>,
    pub gender: crate::user::Gender,
    pub phone: String,
    pub birthday: Option<i64>,
    pub email: Option<String>,
    pub address: Option<String>,
    pub signature: Option<String>,
    pub facetype: Option<i32>,
    pub customface: Option<String>,
    pub customfacefmt: Option<String>,
    pub group_info: Option<Vec<u8>>,
    pub register_time: i64,
}

/// The user use-cases over the repository.
pub struct UserUsecase {
    pub cfg: std::sync::Arc<crate::config::Config>,
}

impl UserUsecase {
    pub fn new(cfg: std::sync::Arc<crate::config::Config>) -> (r: UserUsecase)
        ensures
            r.cfg == cfg,
    {
        UserUsecase { cfg }
    }

    /// The duplicate-registration rule of user insertion: an existing user
    /// name wins over an existing phone, which wins over an existing email
    /// (`None` means the request carries no email to check).
    pub fn insert_user_guard(name_taken: bool, phone_taken: bool, email_taken: Option<bool>) -> (r:
        Result<(), Error>)
        ensures
            name_taken ==> r == Err::<(), Error>(Error::UsernameDuplicate),
            !name_taken && phone_taken ==> r == Err::<(), Error>(Error::PhoneDuplicate),
            !name_taken && !phone_taken && email_taken == Some(true) ==> r == Err::<(), Error>(
                Error::EmailDuplicate,
            ),
            !name_taken && !phone_taken && email_taken != Some(true) ==> r == Ok::<(), Error>(()),
    {
        if name_taken {
            Err(Error::UsernameDuplicate)
        } else if phone_taken {
            Err(Error::PhoneDuplicate)
        } else {
            match email_taken {
                Some(true) => Err(Error::EmailDuplicate),
                _ => Ok(()),
            }
        }
    }

    /// Stamp a fresh unique identifier on a user about to be inserted;
    /// every other field is left alone.
    pub fn assign_user_id(user: &mut User)
        ensures
            final(user).user_id@.len() == 36,
            final(user).user_name == old(user).user_name,
            final(user).nick_name == old(user).nick_name,
            final(user).password == old(user).password,
            final(user).gender == old(user).gender,
            final(user).phone == old(user).phone,
            final(user).birthday == old(user).birthday,
            final(user).email == old(user).email,
            final(user).address == old(user).address,
            final(user).signature == old(user).signature,
            final(user).facetype == old(user).facetype,
            final(user).customface == old(user).customface,
            final(user).customfacefmt == old(user).customfacefmt,
            final(user).group_info == old(user).group_info,
            final(user).register_time == old(user).register_time,
    {
        user.user_id = new_user_id();
    }
}

/// Relies on uuid::Uuid::new_v4 and its Display impl: a fresh random
/// identifier rendered in the hyphenated form, which is always 36
/// characters.  The value itself is random, so nothing more is promised.
#[verifier::external_body]
fn new_user_id() -> (r: String)
    ensures
        r@.len() == 36,
{
    uuid::Uuid::new_v4().to_string()
}

} // verus!

