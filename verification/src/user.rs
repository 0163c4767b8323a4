//! User-facing request, reply and profile types, and their conversions.

use vstd::prelude::*;

use crate::biz;
use vstd::std_specs::convert::FromSpec;

verus! {

/// A user's gender; `Unknown` is the default and the catch-all for
/// unrecognized numeric codes.
#[derive(Clone, Copy, Debug, PartialEq, Eq, Structural)]
pub enum Gender {
    Male,
    Female,
    Unknown,
}

impl From<i32> for Gender {
    /// Decode the stored numeric gender: 1 is male, 2 is female, anything
    /// else is unknown.
    fn from(value: i32) -> (r: Gender) {
        match value {
            1i32 => Gender::Male,
            2i32 => Gender::Female,
            _ => Gender::Unknown,
        }
    }
}

impl vstd::std_specs::convert::FromSpecImpl<i32> for Gender {
    open spec fn obeys_from_spec() -> bool {
        true
    }

    open spec fn from_spec(t: i32) -> Gender {
        if t == 1 {
            Gender::Male
        } else if t == 2 {
            Gender::Female
        } else {
            Gender::Unknown
        }
    }
}

impl Gender {
    /// The numeric code a gender is stored as.
    pub fn to_i32(&self) -> (r: i32)
        ensures
            r == (match self {
                Gender::Male => 1i32,
                Gender::Female => 2i32,
                Gender::Unknown => 0i32,
            }),
    {
        match self {
            Gender::Male => 1,
            Gender::Female => 2,
            Gender::Unknown => 0,
        }
    }

    /// Decode an optional stored code; a missing value is unknown.
    pub fn from_opt_i32(value: Option<i32>) -> (r: Gender)
        ensures
            r == (match value {
                Some(v) => Gender::from_spec(v),
                None => Gender::Unknown,
            }),
    {
        match value {
            Some(v) => Gender::from(v),
            None => Gender::Unknown,
        }
    }
}

impl Default for Gender {
    fn default() -> (r: Gender)
        ensures
            r == Gender::Unknown,
    {
        Gender::Unknown
    }
}

/// A sign-up request, validated before it reaches the service.
pub struct SignUpRequest {
    pub username: String,
    pub nickname: String,
    pub password: String,
    pub mobile: String,
    pub email: String,
    pub gender: Gender,
}

/// The kind of client signing in.
#[derive(Clone, Copy, Debug, PartialEq, Eq, Structural)]
pub enum ClientType {
    Windows,
    Linux,
    Mac,
    Android,
    Ios,
    Ipad,
}

/// The presence the client asks for after signing in.
#[derive(Clone, Copy, Debug, PartialEq, Eq, Structural)]
pub enum OnlineStatus {
    Offline,
    Invisible,
    Wifi,
    AndroidCellular,
    IosCellular,
    MacCellular,
}

/// A sign-in request.
pub struct SignInRequest {
    pub username: String,
    pub password: String,
    pub client_type: ClientType,
    pub online_status: OnlineStatus,
}

/// The public core of a user's profile.
pub struct UserBaseInfo {
    pub user_id: String,
    pub user_name: String,
    pub nick_name: String,
    pub gender: Gender,
    pub phone: String,
}

/// The rest of a user's profile.  Times are unix timestamps in
/// milliseconds.
pub struct UserDetailInfo {
    pub birthday: Option<i64>,
    pub email: Option<String>,
    pub address: Option<String>,
    pub signature: Option<String>,
    pub face_type: Option<i32>,
    pub custom_face: Option<String>,
    pub custom_face_fmt: Option<String>,
    pub group_info: Option<Vec<u8>>,
    pub register_time: i64,
}

/// A full user profile as the API returns it.
pub struct UserInfo {
    pub base_info: UserBaseInfo,
    pub detail_info: UserDetailInfo,
}

impl From<biz::User> for UserInfo {
    /// Split the flat stored record into the base/detail profile shape,
    /// field for field.
    fn from(value: biz::User) -> (r: UserInfo) {
        UserInfo {
            base_info: UserBaseInfo {
                user_id: value.user_id,
                user_name: value.user_name,
                nick_name: value.nick_name,
                gender: value.gender,
                phone: value.phone,
            },
            detail_info: UserDetailInfo {
                birthday: value.birthday,
                email: value.email,
                address: value.address,
                signature: value.signature,
                face_type: value.facetype,
                custom_face: value.customface,
                custom_face_fmt: value.customfacefmt,
                group_info: value.group_info,
                register_time: value.register_time,
            },
        }
    }
}

impl vstd::std_specs::convert::FromSpecImpl<biz::User> for UserInfo {
    open spec fn obeys_from_spec() -> bool {
        true
    }

    open spec fn from_spec(value: biz::User) -> UserInfo {
        UserInfo {
            base_info: UserBaseInfo {
                user_id: value.user_id,
                user_name: value.user_name,
                nick_name: value.nick_name,
                gender: value.gender,
                phone: value.phone,
            },
            detail_info: UserDetailInfo {
                birthday: value.birthday,
                email: value.email,
                address: value.address,
                signature: value.signature,
                face_type: value.facetype,
                custom_face: value.customface,
                custom_face_fmt: value.customfacefmt,
                group_info: value.group_info,
                register_time: value.register_time,
            },
        }
    }
}

impl SignUpRequest {
    /// The stored record a sign-up request inserts: no identifier yet, the
    /// gender encoded numerically, and the detail fields empty.
    pub fn into_user(self, register_time: i64) -> (r: biz::User)
        ensures
            r.user_id@ == Seq::<char>::empty(),
            r.user_name == self.username,
            r.nick_name == self.nickname,
            r.password == Some(self.password),
            r.gender == self.gender,
            r.phone == self.mobile,
            r.email == Some(self.email),
            r.birthday is None,
            r.address is None,
            r.signature is None,
            r.facetype is None,
            r.customface is None,
            r.customfacefmt is None,
            r.group_info is None,
            r.register_time == register_time,
    {
        let user = biz::User {
            user_id: String::new(),
            user_name: self.username,
            nick_name: self.nickname,
            password: Some(self.password),
            gender: self.gender,
            phone: self.mobile,
            email: Some(self.email),
            birthday: None,
            address: None,
            signature: None,
            facetype: None,
            customface: None,
            customfacefmt: None,
            group_info: None,
            register_time,
        };
        user
    }
}

/// The reply to a successful sign-up.
pub struct SignUpReply {
    pub user: UserInfo,
}

/// The reply to a successful sign-in.
pub struct SignInReply;

/// The reply to a successful sign-out.
pub struct SignOutReply;

/// The reply to a successful registration.
pub struct UserRegisterReply {
    pub user: UserBaseInfo,
}

/// The reply to a successful login.
pub struct UserLoginReply;

/// The reply to a successful logout.
pub struct UserLogoutReply;

} // verus!
