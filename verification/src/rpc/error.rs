//! The errors the RPC surface reports, with their wire codes and their
//! user-visible messages.

use vstd::prelude::*;

verus! {

/// One error of the RPC surface.
#[derive(Clone, Copy, PartialEq, Eq, Structural, Debug)]
pub enum RpcError {
    UnknownError,
    IncorrectLoginInfo,
    Unimplemented,
    AlreadyRegistered,
    RegistrationTokenUsed,
    UnknownDepartment,
    UnknownClient,
}

impl RpcError {
    /// The server-error code this error travels as.
    pub open spec fn spec_code(self) -> i64 {
        match self {
            RpcError::UnknownError => 0,
            RpcError::IncorrectLoginInfo => 1,
            RpcError::Unimplemented => 2,
            RpcError::AlreadyRegistered => 3,
            RpcError::RegistrationTokenUsed => 4,
            RpcError::UnknownDepartment => 5,
            RpcError::UnknownClient => 6,
        }
    }

    pub fn code(self) -> (n: i64)
        ensures
            n == self.spec_code(),
    {
        match self {
            RpcError::UnknownError => 0,
            RpcError::IncorrectLoginInfo => 1,
            RpcError::Unimplemented => 2,
            RpcError::AlreadyRegistered => 3,
            RpcError::RegistrationTokenUsed => 4,
            RpcError::UnknownDepartment => 5,
            RpcError::UnknownClient => 6,
        }
    }

    /// The user-visible message of this error.
    pub open spec fn spec_message(self) -> Seq<char> {
        match self {
            RpcError::UnknownError => "unknown error"@,
            RpcError::IncorrectLoginInfo => "incorrect login information"@,
            RpcError::Unimplemented => "unimplemented"@,
            RpcError::AlreadyRegistered => "already registered"@,
            RpcError::RegistrationTokenUsed => "the token was already used"@,
            RpcError::UnknownDepartment => "unknown department"@,
            RpcError::UnknownClient => "unknown client"@,
        }
    }

    pub fn message(self) -> (m: String)
        ensures
            m@ == self.spec_message(),
    {
        match self {
            RpcError::UnknownError => "unknown error".to_owned(),
            RpcError::IncorrectLoginInfo => "incorrect login information".to_owned(),
            RpcError::Unimplemented => "unimplemented".to_owned(),
            RpcError::AlreadyRegistered => "already registered".to_owned(),
            RpcError::RegistrationTokenUsed => "the token was already used".to_owned(),
            RpcError::UnknownDepartment => "unknown department".to_owned(),
            RpcError::UnknownClient => "unknown client".to_owned(),
        }
    }
}

} // verus!
