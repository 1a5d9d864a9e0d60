//! The time base of a CPU, and the bring-up of the real-time CPUs at the start
//! of the hypervisor.

use vstd::prelude::*;
use crate::arch::boot_rt::{staged, RtBoot, U64_PER_PAGE};
use crate::error::{HvErrorNum, HvResult};
use crate::memory::VirtAddr;
use crate::percpu::PerCpuArray;

verus! {

/// Number of start pages that the bring-up at the start of the hypervisor uses.
pub const START_PAGE_COUNT: usize = 3;

/// The frequency that the time-stamp counter is taken to run at where the CPU
/// reports none, or a lower one: 4000 cycles a microsecond.
pub const DEFAULT_FREQUENCY: u16 = 4000;

/// The base frequency in MHz that the CPU reports, if it reports one.
///
/// Calls `CpuId::get_processor_frequency_info` of the crate `x86`, which reads
/// the frequency leaf of the `cpuid` instruction where the CPU has it, and
/// `ProcessorFrequencyInfo::processor_base_frequency` on what it gives. Nothing
/// is claimed of the result: it depends on the CPU.
#[verifier::external_body]
fn reported_base_frequency() -> (reported: Option<u16>) {
    match x86::cpuid::CpuId::new().get_processor_frequency_info() {
        Some(info) => Some(info.processor_base_frequency()),
        None => None,
    }
}

/// The frequency of the time-stamp counter of this CPU in cycles a microsecond:
/// what `frequency_of` makes of the base frequency that the CPU reports.
pub fn frequency() -> (f: u16)
    ensures
        f >= DEFAULT_FREQUENCY,
{
    frequency_of(reported_base_frequency())
}

/// The frequency of the time-stamp counter in cycles a microsecond, given the
/// base frequency `reported` by the CPU, if it reports one: the reported
/// frequency, but never less than `DEFAULT_FREQUENCY`, so that no pause is cut
/// short by a frequency reported too low.
pub open spec fn spec_frequency_of(reported: Option<u16>) -> u16 {
    match reported {
        Some(f) if f > DEFAULT_FREQUENCY => f,
        _ => DEFAULT_FREQUENCY,
    }
}

#[verifier::when_used_as_spec(spec_frequency_of)]
pub fn frequency_of(reported: Option<u16>) -> (f: u16)
    ensures
        f == frequency_of(reported),
        f >= DEFAULT_FREQUENCY,
        reported matches Some(r) ==> f >= r,
{
    match reported {
        Some(f) => if f > DEFAULT_FREQUENCY {
            f
        } else {
            DEFAULT_FREQUENCY
        },
        None => DEFAULT_FREQUENCY,
    }
}

/// The time in nanoseconds at which the time-stamp counter reads `cycle`, on a
/// counter that runs at `frequency` cycles a microsecond.
pub fn current_time_nanos(cycle: u64, frequency: u16) -> (nanos: u64)
    requires
        frequency >= DEFAULT_FREQUENCY,
    ensures
        nanos == cycle * 1000 / (frequency as int),
{
    let scaled: u128 = cycle as u128 * 1000;
    let nanos: u128 = scaled / frequency as u128;
    assert(nanos <= cycle) by (nonlinear_arith)
        requires
            nanos == scaled / (frequency as u128),
            scaled == cycle * 1000,
            frequency >= 4000,
    ;
    nanos as u64
}

/// Begins the bring-up of the real-time CPUs at the start of the hypervisor.
/// The CPUs start at `entry`, in the address space with the root `cr3`. Three
/// start pages are used, which have to be mapped first: `mapped` is the outcome
/// of mapping them, and its failure ends the bring-up before a page is touched.
pub fn start_rt_cpus(
    mapped: HvResult,
    page: &mut [u64],
    stub: &[u64],
    entry: VirtAddr,
    cr3: u64,
    array: &PerCpuArray,
    entered_cpus: u32,
) -> (r: HvResult<RtBoot>)
    ensures
        r is Ok <==> mapped is Ok && old(page).len() == START_PAGE_COUNT * U64_PER_PAGE
            && stub.len() <= old(page).len(),
        r matches Err(e) ==> {
            &&& final(page)@ == old(page)@
            &&& mapped matches Err(m) ==> e == m
            &&& mapped is Ok ==> e.num == HvErrorNum::EINVAL
        },
        r matches Ok(boot) ==> {
            &&& boot.saved() == old(page)@
            &&& final(page)@ == staged(old(page)@, stub@, entry as u64, Some(cr3))
            &&& boot.array() == *array
            &&& boot.cursor() == 0
            &&& boot.new_cpu_id() == entered_cpus
        },
{
    match mapped {
        Err(e) => {
            return Err(e);
        },
        Ok(()) => {},
    }
    RtBoot::begin(page, START_PAGE_COUNT, stub, entry as u64, Some(cr3), array, entered_cpus)
}

} // verus!
