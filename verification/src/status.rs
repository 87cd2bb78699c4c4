//! The numeric status bodies the endpoints answer with, and the shared
//! request secrets of the wire protocol.

use vstd::prelude::*;

verus! {

/// The secret every ordinary game request carries.
pub const COMMON_SECRET: &'static str = "Wmfd2893gb7";

/// The secret of the account endpoints.
pub const ACCOUNT_SECRET: &'static str = "Wmfv3899gc9";

/// The secret of the level-deletion endpoint.
pub const LEVEL_SECRET: &'static str = "Wmfv2898gc9";

/// The secret of the moderator endpoints.
pub const MOD_SECRET: &'static str = "Wmfp3879gc3";

#[derive(Clone, Copy, PartialEq, Eq, Structural, Debug)]
pub enum CommonResponse {
    Success,
    InvalidRequest,
}

pub open spec fn spec_common_body(r: CommonResponse) -> Seq<char> {
    match r {
        CommonResponse::Success => "1"@,
        CommonResponse::InvalidRequest => "-1"@,
    }
}

impl CommonResponse {
    /// The response body of this status.
    pub fn body(&self) -> (r: &'static str)
        ensures
            r@ == spec_common_body(*self),
    {
        match self {
            CommonResponse::Success => "1",
            CommonResponse::InvalidRequest => "-1",
        }
    }
}

#[derive(Clone, Copy, PartialEq, Eq, Structural, Debug)]
pub enum RegisterResponse {
    Success,
    InvalidRequest,
    AccountExists,
    EmailOccupied,
    InvalidUsername,
    InvalidPassword,
    InvalidEmail,
    PasswordIsTooShort,
    UsernameIsTooShort,
    PasswordMismatch,
    EmailMismatch,
}

pub open spec fn spec_register_body(r: RegisterResponse) -> Seq<char> {
    match r {
        RegisterResponse::Success => "1"@,
        RegisterResponse::InvalidRequest => "-1"@,
        RegisterResponse::AccountExists => "-2"@,
        RegisterResponse::EmailOccupied => "-3"@,
        RegisterResponse::InvalidUsername => "-4"@,
        RegisterResponse::InvalidPassword => "-5"@,
        RegisterResponse::InvalidEmail => "-6"@,
        RegisterResponse::PasswordMismatch => "-7"@,
        RegisterResponse::PasswordIsTooShort => "-8"@,
        RegisterResponse::UsernameIsTooShort => "-9"@,
        RegisterResponse::EmailMismatch => "-99"@,
    }
}

impl RegisterResponse {
    /// The response body of this status.
    pub fn body(&self) -> (r: &'static str)
        ensures
            r@ == spec_register_body(*self),
    {
        match self {
            RegisterResponse::Success => "1",
            RegisterResponse::InvalidRequest => "-1",
            RegisterResponse::AccountExists => "-2",
            RegisterResponse::EmailOccupied => "-3",
            RegisterResponse::InvalidUsername => "-4",
            RegisterResponse::InvalidPassword => "-5",
            RegisterResponse::InvalidEmail => "-6",
            RegisterResponse::PasswordMismatch => "-7",
            RegisterResponse::PasswordIsTooShort => "-8",
            RegisterResponse::UsernameIsTooShort => "-9",
            RegisterResponse::EmailMismatch => "-99",
        }
    }
}

#[derive(Clone, Copy, PartialEq, Eq, Structural, Debug)]
pub enum LoginResponse {
    InvalidRequest,
    WrongCredentials,
    AlreadyLinkedToDifferentAccount,
    PasswordIsTooShort,
    UsernameIsTooShort,
    AccountIsBanned,
    AccountIsNotActivated,
}

pub open spec fn spec_login_body(r: LoginResponse) -> Seq<char> {
    match r {
        LoginResponse::InvalidRequest => "-1"@,
        LoginResponse::WrongCredentials => "-11"@,
        LoginResponse::AlreadyLinkedToDifferentAccount => "-10"@,
        LoginResponse::PasswordIsTooShort => "-8"@,
        LoginResponse::UsernameIsTooShort => "-9"@,
        LoginResponse::AccountIsBanned => "-12"@,
        LoginResponse::AccountIsNotActivated => "-13"@,
    }
}

impl LoginResponse {
    /// The response body of this status.
    pub fn body(&self) -> (r: &'static str)
        ensures
            r@ == spec_login_body(*self),
    {
        match self {
            LoginResponse::InvalidRequest => "-1",
            LoginResponse::WrongCredentials => "-11",
            LoginResponse::AlreadyLinkedToDifferentAccount => "-10",
            LoginResponse::PasswordIsTooShort => "-8",
            LoginResponse::UsernameIsTooShort => "-9",
            LoginResponse::AccountIsBanned => "-12",
            LoginResponse::AccountIsNotActivated => "-13",
        }
    }
}

#[derive(Clone, Copy, PartialEq, Eq, Structural, Debug)]
pub enum BackupResponse {
    InvalidRequest,
    WrongCredentials,
    BadLoginInfo,
    TooLarge,
    SomethingWentWrong,
}

pub open spec fn spec_backup_body(r: BackupResponse) -> Seq<char> {
    match r {
        BackupResponse::InvalidRequest => "-1"@,
        BackupResponse::WrongCredentials => "-2"@,
        BackupResponse::BadLoginInfo => "-3"@,
        BackupResponse::TooLarge => "-4"@,
        BackupResponse::SomethingWentWrong => "-5"@,
    }
}

impl BackupResponse {
    /// The response body of this status.
    pub fn body(&self) -> (r: &'static str)
        ensures
            r@ == spec_backup_body(*self),
    {
        match self {
            BackupResponse::InvalidRequest => "-1",
            BackupResponse::WrongCredentials => "-2",
            BackupResponse::BadLoginInfo => "-3",
            BackupResponse::TooLarge => "-4",
            BackupResponse::SomethingWentWrong => "-5",
        }
    }
}

#[derive(Clone, Copy, PartialEq, Eq, Structural, Debug)]
pub enum LevelUploadResponse {
    Success,
    UploadingDisabled,
    TooFast,
    FailedToWriteLevel,
}

pub open spec fn spec_level_upload_body(r: LevelUploadResponse) -> Seq<char> {
    match r {
        LevelUploadResponse::Success => "1"@,
        LevelUploadResponse::UploadingDisabled => "-1"@,
        LevelUploadResponse::TooFast => "-2"@,
        LevelUploadResponse::FailedToWriteLevel => "-3"@,
    }
}

impl LevelUploadResponse {
    /// The response body of this status.
    pub fn body(&self) -> (r: &'static str)
        ensures
            r@ == spec_level_upload_body(*self),
    {
        match self {
            LevelUploadResponse::Success => "1",
            LevelUploadResponse::UploadingDisabled => "-1",
            LevelUploadResponse::TooFast => "-2",
            LevelUploadResponse::FailedToWriteLevel => "-3",
        }
    }
}

#[derive(Clone, Copy, PartialEq, Eq, Structural, Debug)]
pub enum CommentsResponse {
    NothingFound,
}

pub open spec fn spec_comments_body(r: CommentsResponse) -> Seq<char> {
    match r {
        CommentsResponse::NothingFound => "-1"@,
    }
}

impl CommentsResponse {
    /// The response body of this status.
    pub fn body(&self) -> (r: &'static str)
        ensures
            r@ == spec_comments_body(*self),
    {
        match self {
            CommentsResponse::NothingFound => "-1",
        }
    }
}

} // verus!
