//! The status that the operating system returns from every call, and the
//! error that a failed call leaves.

use vstd::prelude::*;
use core_foundation::base::OSStatus;

verus! {

/// The status of a call that succeeded.
pub const ERR_SEC_SUCCESS: OSStatus = 0;

/// The status of a validity check on code that is not signed at all.
pub const ERR_SEC_CS_UNSIGNED: OSStatus = -67062;

/// A failed call. It carries the status that the operating system gave,
/// unchanged, and that status is never the one of success.
#[derive(Clone, Copy, Debug, PartialEq, Eq, Structural, Hash)]
pub struct Error {
    code: OSStatus,
}

impl Error {
    /// The status that this error carries.
    pub closed spec fn view(self) -> i32 {
        self.code
    }

    #[verifier::type_invariant]
    spec fn is_failure(self) -> bool {
        self.code != ERR_SEC_SUCCESS
    }

    /// The error for a status other than success.
    pub fn from_code(code: OSStatus) -> (r: Error)
        requires
            code != ERR_SEC_SUCCESS,
        ensures
            r@ == code,
    {
        Error { code }
    }

    /// The status that the operating system gave. It is never zero.
    pub fn code(&self) -> (r: OSStatus)
        ensures
            r == self@,
            r != ERR_SEC_SUCCESS,
    {
        proof {
            use_type_invariant(self);
        }
        self.code
    }
}

/// Turns the status of a call into a result: success for zero, and for
/// every other status the error that carries it unchanged.
pub fn cvt(status: OSStatus) -> (r: Result<(), Error>)
    ensures
        r.is_ok() <==> status == ERR_SEC_SUCCESS,
        r.is_err() ==> r.unwrap_err()@ == status,
{
    if status == ERR_SEC_SUCCESS {
        Ok(())
    } else {
        Err(Error::from_code(status))
    }
}

} // verus!
