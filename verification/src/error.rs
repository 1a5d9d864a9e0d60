//! Error numbers and the result type shared by the whole crate.

use vstd::prelude::*;

verus! {

/// POSIX-style error numbers.
#[derive(Clone, Copy, Debug, PartialEq, Eq, Structural)]
pub enum HvErrorNum {
    /// The hardware needed is absent or disabled.
    EIO,
    /// The heap or the frame allocator is exhausted.
    ENOMEM,
    /// Another CPU failed its initialization.
    EBUSY,
    /// A format mismatch or a violated invariant.
    EINVAL,
    /// A value lies outside the range that can be represented.
    ERANGE,
}

impl HvErrorNum {
    /// The positive POSIX number of the error.
    pub open spec fn errno(self) -> int {
        match self {
            HvErrorNum::EIO => 5,
            HvErrorNum::ENOMEM => 12,
            HvErrorNum::EBUSY => 16,
            HvErrorNum::EINVAL => 22,
            HvErrorNum::ERANGE => 34,
        }
    }
}

/// An error raised during bring-up.
#[derive(Clone, Copy, Debug, PartialEq, Eq, Structural)]
pub struct HvError {
    pub num: HvErrorNum,
}

pub type HvResult<T = ()> = Result<T, HvError>;

impl HvError {
    pub fn new(num: HvErrorNum) -> (e: HvError)
        ensures
            e.num == num,
    {
        HvError { num }
    }

    /// The code handed to the host driver: the negated error number, never zero.
    pub open spec fn spec_code(&self) -> i32 {
        (-self.num.errno()) as i32
    }

    #[verifier::when_used_as_spec(spec_code)]
    pub fn code(&self) -> (code: i32)
        ensures
            code == self.spec_code(),
            code < 0,
    {
        match self.num {
            HvErrorNum::EIO => -5,
            HvErrorNum::ENOMEM => -12,
            HvErrorNum::EBUSY => -16,
            HvErrorNum::EINVAL => -22,
            HvErrorNum::ERANGE => -34,
        }
    }
}

/// The error result for `num`, for any success type.
pub fn hv_result_err<T>(num: HvErrorNum) -> (r: HvResult<T>)
    ensures
        r == Err::<T, HvError>(HvError { num }),
{
    Err(HvError { num })
}

} // verus!
