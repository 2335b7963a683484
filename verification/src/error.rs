//! Error kinds of the two modules.

use vstd::prelude::*;

verus! {

/// First number the host runtime gives to a program's own errors.
pub const ERROR_CODE_OFFSET: u32 = 6000;

/// Errors of the wallet-link registry.
#[derive(Clone, Copy, Debug, PartialEq, Eq, Structural)]
pub enum ErrorCode {
    /// The signer is not the wallet the link belongs to.
    UnauthorizedAccess,
    /// The school wallet offered cannot be linked. The registry turns no
    /// wallet away; the kind keeps its place in the numbering.
    InvalidSchoolWallet,
    /// A link is already stored for this user.
    UserLinkAlreadyExists,
    /// No link is stored for this user.
    UserLinkNotFound,
}

impl ErrorCode {
    /// Position of the variant in the enum.
    pub open spec fn index(self) -> int {
        match self {
            ErrorCode::UnauthorizedAccess => 0,
            ErrorCode::InvalidSchoolWallet => 1,
            ErrorCode::UserLinkAlreadyExists => 2,
            ErrorCode::UserLinkNotFound => 3,
        }
    }

    /// The message shown to the user, as characters.
    pub open spec fn message_text(self) -> Seq<char> {
        match self {
            ErrorCode::UnauthorizedAccess => "Unauthorized access to user link"@,
            ErrorCode::InvalidSchoolWallet => "Invalid school wallet provided"@,
            ErrorCode::UserLinkAlreadyExists => "User link already exists"@,
            ErrorCode::UserLinkNotFound => "User link does not exist"@,
        }
    }

    /// The number under which the host runtime reports this error.
    pub fn code(&self) -> (code: u32)
        ensures
            code == ERROR_CODE_OFFSET + self.index(),
    {
        match self {
            ErrorCode::UnauthorizedAccess => 6000,
            ErrorCode::InvalidSchoolWallet => 6001,
            ErrorCode::UserLinkAlreadyExists => 6002,
            ErrorCode::UserLinkNotFound => 6003,
        }
    }

    /// The message shown to the user.
    pub fn message(&self) -> (text: &'static str)
        ensures
            text@ == self.message_text(),
    {
        match self {
            ErrorCode::UnauthorizedAccess => "Unauthorized access to user link",
            ErrorCode::InvalidSchoolWallet => "Invalid school wallet provided",
            ErrorCode::UserLinkAlreadyExists => "User link already exists",
            ErrorCode::UserLinkNotFound => "User link does not exist",
        }
    }
}

/// Errors of the token module: its setup procedures and its transfer hook.
/// Each aborts the whole transaction; nothing is retried.
#[derive(Clone, Copy, Debug, PartialEq, Eq, Structural)]
pub enum HookError {
    /// The signer does not match the record's owning address.
    UnauthorizedAccess,
    /// The hook needs the institution config and none is stored.
    MissingConfig,
    /// A fee multiplication left the range of the amount type.
    ArithmeticOverflow,
    /// The token program rejected a transfer or a burn.
    SubInvocationFailure,
    /// The record to be created is already stored.
    AlreadyInitialized,
}

impl HookError {
    /// Position of the variant in the enum.
    pub open spec fn index(self) -> int {
        match self {
            HookError::UnauthorizedAccess => 0,
            HookError::MissingConfig => 1,
            HookError::ArithmeticOverflow => 2,
            HookError::SubInvocationFailure => 3,
            HookError::AlreadyInitialized => 4,
        }
    }

    /// The number under which the host runtime reports this error.
    pub fn code(&self) -> (code: u32)
        ensures
            code == ERROR_CODE_OFFSET + self.index(),
    {
        match self {
            HookError::UnauthorizedAccess => 6000,
            HookError::MissingConfig => 6001,
            HookError::ArithmeticOverflow => 6002,
            HookError::SubInvocationFailure => 6003,
            HookError::AlreadyInitialized => 6004,
        }
    }
}

} // verus!
