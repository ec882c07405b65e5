//! The error type of the library.
use vstd::prelude::*;

use crate::enums::{report, PamReturnCode};

verus! {

/// An error of the native library, with the return code inside it.
#[derive(Clone, Copy, Debug, PartialEq, Eq, Structural)]
pub struct PamError(pub PamReturnCode);

/// The result of an operation that may fail with a `PamError`.
pub type PamResult<T> = Result<T, PamError>;

impl PamError {
    /// A short description of the kind of error.
    pub fn description(&self) -> (r: &'static str)
        ensures
            r@ == "PAM returned an error code"@,
    {
        "PAM returned an error code"
    }

    /// The report text of the error: that of its code, `name (code)`.
    pub fn to_string(&self) -> (r: String)
        ensures
            r@ == report(self.0.spec_name(), self.0.spec_code()),
    {
        self.0.to_string()
    }

    /// The return code that this error carries.
    pub fn code(&self) -> (r: PamReturnCode)
        ensures
            r == self.0,
    {
        self.0
    }
}

impl From<PamReturnCode> for PamError {
    fn from(err: PamReturnCode) -> PamError {
        PamError(err)
    }
}

impl vstd::std_specs::convert::FromSpecImpl<PamReturnCode> for PamError {
    open spec fn obeys_from_spec() -> bool {
        true
    }

    open spec fn from_spec(err: PamReturnCode) -> PamError {
        PamError(err)
    }
}

/// The error for a string that cannot be handed to the native library because
/// it holds a nul character.
pub fn buffer_error<T>() -> (r: PamResult<T>)
    ensures
        r == Err::<T, PamError>(PamError(PamReturnCode::Buf_Err)),
{
    Err(PamError(PamReturnCode::Buf_Err))
}

/// `s` holds a nul character, so that no native null-terminated string can
/// carry it.
pub open spec fn has_nul(s: Seq<char>) -> bool {
    s.contains('\0')
}

/// Tests whether `s` holds a nul character.
pub fn contains_nul(s: &str) -> (r: bool)
    ensures
        r == has_nul(s@),
{
    let n = s.unicode_len();
    let mut i: usize = 0;
    while i < n
        invariant
            n == s@.len(),
            i <= n,
            forall|j: int| 0 <= j < i ==> s@[j] != '\0',
        decreases n - i,
    {
        if s.get_char(i) == '\0' {
            assert(s@[i as int] == '\0');
            return true;
        }
        i += 1;
    }
    false
}

} // verus!
