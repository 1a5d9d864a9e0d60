//! What depends on the x86_64 architecture: the local APIC, the time-stamp
//! counter and the start of the application processors.

use vstd::prelude::*;
use crate::error::HvResult;

pub mod apic;
pub mod boot_rt;
pub mod cpu;

verus! {

/// The early initialization of the architecture, run once by the primary CPU:
/// finds out from the value `apic_base` of the `IA32_APIC_BASE` register how the
/// local APIC is driven.
pub fn init_early(apic_base: apic::ApicBase) -> (r: HvResult<apic::LocalApic>)
    ensures
        r == apic::LocalApic::detect(apic_base),
{
    apic::init(apic_base)
}

} // verus!
