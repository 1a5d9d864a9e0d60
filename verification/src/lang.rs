//! What a CPU does when it cannot go on.
//!
//! A CPU that cannot go on records why and halts. The record makes the CPUs that
//! wait for it give up. The halting is left to the caller.

use vstd::prelude::*;
use crate::error::{HvError, HvErrorNum};
use crate::globals::Globals;

verus! {

/// Records that the calling CPU has found the hypervisor in a state that it
/// must never be in: an invalid argument.
pub fn panic(globals: &mut Globals)
    ensures
        *final(globals) == (Globals {
            error_num: (HvError { num: HvErrorNum::EINVAL }).code(),
            ..*old(globals)
        }),
        final(globals).failed(),
{
    globals.latch_error(HvError::new(HvErrorNum::EINVAL));
}

/// Records that the calling CPU has run out of memory.
pub fn oom(globals: &mut Globals)
    ensures
        *final(globals) == (Globals {
            error_num: (HvError { num: HvErrorNum::ENOMEM }).code(),
            ..*old(globals)
        }),
        final(globals).failed(),
{
    globals.latch_error(HvError::new(HvErrorNum::ENOMEM));
}

} // verus!
