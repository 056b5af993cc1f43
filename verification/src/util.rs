//! Small helpers: shell selection and the conversion of C-style return values.

use vstd::prelude::*;

verus! {

/// A C library call reported failure through its return value.
#[derive(Clone, Copy, Debug, PartialEq, Eq, Structural)]
pub enum LibcError {
    /// The call returned its failure sentinel.
    Failed,
}

/// Converts a value returned by a C library function to a result: the
/// implementing type says which values mean failure and what the success
/// value is.
pub trait FromLibcResult: Sized {
    type Target;

    /// Whether this return value is the failure sentinel.
    spec fn is_failure(self) -> bool;

    /// The success value carried by this return value.
    spec fn target_spec(self) -> Self::Target;

    fn to_result(self) -> (r: Result<Self::Target, LibcError>)
        ensures
            self.is_failure() ==> r == Result::<Self::Target, LibcError>::Err(LibcError::Failed),
            !self.is_failure() ==> (r matches Ok(t) && t == self.target_spec()),
    ;
}

impl FromLibcResult for i32 {
    type Target = i32;

    open spec fn is_failure(self) -> bool {
        self == -1
    }

    open spec fn target_spec(self) -> i32 {
        self
    }

    /// A return value of -1 is the C convention for failure; any other
    /// value is handed back unchanged.
    fn to_result(self) -> (r: Result<i32, LibcError>)
        ensures
            self == -1 ==> r == Result::<i32, LibcError>::Err(LibcError::Failed),
            self != -1 ==> r == Result::<i32, LibcError>::Ok(self),
    {
        if self == -1 {
            Err(LibcError::Failed)
        } else {
            Ok(self)
        }
    }
}

/// Picks the shell executable for a new session: the environment's choice
/// when one is set, else the one recorded for the user in the password
/// database, else `/bin/sh`.
pub fn choose_shell(env_shell: Option<String>, passwd_shell: Option<String>) -> (r: String)
    ensures
        env_shell matches Some(s) ==> r@ == s@,
        env_shell is None ==> (passwd_shell matches Some(s) ==> r@ == s@),
        env_shell is None && passwd_shell is None ==> r@ == "/bin/sh"@,
{
    match env_shell {
        Some(s) => s,
        None => match passwd_shell {
            Some(s) => s,
            None => "/bin/sh".to_owned(),
        },
    }
}

} // verus!
