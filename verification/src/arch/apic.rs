//! The local APIC: how it is driven, which id a CPU reads from it, which CPU
//! answers to which APIC id, and the interrupts that start or stop a CPU.

use vstd::prelude::*;
use crate::consts::PAGE_SIZE;
use crate::error::{hv_result_err, HvError, HvErrorNum, HvResult};
use crate::memory::{MemFlags, MemoryRegion, PhysAddr, VirtAddr, MEM_IO, MEM_READ, MEM_WRITE};

verus! {

/// Physical address of the registers of a local APIC in xAPIC mode.
pub const APIC_BASE: PhysAddr = 0xFEE0_0000;

/// The largest APIC id that the map from APIC ids to CPU ids holds.
pub const MAX_APIC_ID: u32 = 254;

/// What a slot of the map holds until the CPU with that APIC id has entered.
pub const NO_CPU: u32 = u32::MAX;

/// Bit of `IA32_APIC_BASE`: the processor is the bootstrap processor.
pub const APIC_BASE_BSP: u64 = 0x100;

/// Bit of `IA32_APIC_BASE`: the local APIC is in x2APIC mode.
pub const APIC_BASE_EXTD: u64 = 0x400;

/// Bit of `IA32_APIC_BASE`: the local APIC is enabled.
pub const APIC_BASE_EN: u64 = 0x800;

/// Time between the INIT interrupt and the first STARTUP interrupt, in
/// microseconds.
pub const INIT_DELAY_US: u64 = 10_000;

/// Time between the two STARTUP interrupts, in microseconds.
pub const STARTUP_DELAY_US: u64 = 200;

/// A value of the `IA32_APIC_BASE` register.
#[derive(Clone, Copy, Debug, PartialEq, Eq, Structural)]
pub struct ApicBase {
    pub bits: u64,
}

impl ApicBase {
    /// The register value `raw`, with all its bits.
    pub fn read(raw: u64) -> (base: ApicBase)
        ensures
            base.bits == raw,
    {
        ApicBase { bits: raw }
    }

    /// Whether every bit of `flags` is set.
    pub open spec fn spec_contains(&self, flags: u64) -> bool {
        self.bits & flags == flags
    }

    #[verifier::when_used_as_spec(spec_contains)]
    pub fn contains(&self, flags: u64) -> (b: bool)
        ensures
            b == self.contains(flags),
    {
        self.bits & flags == flags
    }
}

/// How the local APIC of this machine is driven.
#[derive(Clone, Copy, Debug, PartialEq, Eq, Structural)]
pub struct LocalApic {
    pub is_x2apic: bool,
}

/// The id of a CPU as the destination of an interrupt.
#[derive(Clone, Copy, Debug, PartialEq, Eq, Structural)]
pub enum ApicId {
    /// A destination in xAPIC mode.
    XApic(u8),
    /// A destination in x2APIC mode.
    X2Apic(u32),
}

/// One step of the sequence that starts or stops a CPU.
#[derive(Clone, Copy, Debug, PartialEq, Eq, Structural)]
pub enum IpiStep {
    /// Send an INIT interrupt to the CPU.
    Init(ApicId),
    /// Send a STARTUP interrupt to the CPU, which then starts in real mode at the
    /// page with the given index.
    Startup(ApicId, u8),
    /// Let the given number of microseconds pass.
    Delay(u64),
}

impl LocalApic {
    /// The mode that the register value `base` stands for: x2APIC where the
    /// unit is in that mode, else xAPIC where it is enabled, else an I/O error.
    pub open spec fn detect(base: ApicBase) -> HvResult<LocalApic> {
        if base.contains(APIC_BASE_EXTD) {
            Ok(LocalApic { is_x2apic: true })
        } else if base.contains(APIC_BASE_EN) {
            Ok(LocalApic { is_x2apic: false })
        } else {
            Err(HvError { num: HvErrorNum::EIO })
        }
    }

    /// Finds out from the register value `base` how the local APIC is driven.
    pub fn new(base: ApicBase) -> (r: HvResult<LocalApic>)
        ensures
            r == Self::detect(base),
    {
        if base.contains(APIC_BASE_EXTD) {
            Ok(LocalApic { is_x2apic: true })
        } else if base.contains(APIC_BASE_EN) {
            Ok(LocalApic { is_x2apic: false })
        } else {
            hv_result_err(HvErrorNum::EIO)
        }
    }

    /// The memory that has to be mapped before the unit can be driven: in xAPIC
    /// mode the page of its registers, readable and writable as device memory,
    /// at `base_vaddr`; in x2APIC mode none.
    pub fn mmio_region(&self, base_vaddr: VirtAddr) -> (region: Option<MemoryRegion>)
        ensures
            region is None <==> self.is_x2apic,
            region matches Some(m) ==> {
                &&& m.start == base_vaddr
                &&& m.phys_start == APIC_BASE
                &&& m.size == PAGE_SIZE
                &&& m.flags@ == MEM_READ | MEM_WRITE | MEM_IO
            },
    {
        if self.is_x2apic {
            None
        } else {
            let flags = MemFlags::read().union(MemFlags::write()).union(MemFlags::io());
            Some(MemoryRegion::new_with_offset_mapper(base_vaddr, APIC_BASE, PAGE_SIZE, flags))
        }
    }

    /// The APIC id that the raw value `raw` of the id register stands for: the
    /// value itself in x2APIC mode, its highest byte in xAPIC mode.
    pub open spec fn spec_id(&self, raw: u32) -> u32 {
        if self.is_x2apic {
            raw
        } else {
            raw >> 24
        }
    }

    #[verifier::when_used_as_spec(spec_id)]
    pub fn id(&self, raw: u32) -> (id: u32)
        ensures
            id == self.id(raw),
            !self.is_x2apic ==> id == raw / 0x100_0000 && id <= 255,
    {
        if self.is_x2apic {
            raw
        } else {
            assert(raw >> 24 == raw / 0x100_0000 && raw >> 24 <= 255) by (bit_vector);
            raw >> 24
        }
    }

    /// The destination of an interrupt for the CPU with the id `apic_id`: the
    /// id itself in x2APIC mode, its lowest byte in xAPIC mode.
    pub open spec fn spec_destination(&self, apic_id: u32) -> ApicId {
        if self.is_x2apic {
            ApicId::X2Apic(apic_id)
        } else {
            ApicId::XApic((apic_id % 0x100) as u8)
        }
    }

    #[verifier::when_used_as_spec(spec_destination)]
    pub fn destination(&self, apic_id: u32) -> (dest: ApicId)
        ensures
            dest == self.destination(apic_id),
    {
        if self.is_x2apic {
            ApicId::X2Apic(apic_id)
        } else {
            let low: u32 = apic_id % 0x100;
            ApicId::XApic(low as u8)
        }
    }
}

/// The map from APIC ids to CPU ids: one slot for each APIC id up to
/// `MAX_APIC_ID`, which holds `NO_CPU` until the CPU with that APIC id records
/// its CPU id.
#[derive(Clone, Copy, Debug, PartialEq, Eq)]
pub struct ApicMap {
    slots: [u32; 255],
}

impl View for ApicMap {
    type V = Seq<u32>;

    closed spec fn view(&self) -> Seq<u32> {
        self.slots@
    }
}

impl ApicMap {
    /// The map in which no CPU has recorded its id.
    pub fn new() -> (map: ApicMap)
        ensures
            map@.len() == MAX_APIC_ID + 1,
            forall|i: int| 0 <= i < map@.len() ==> map@[i] == NO_CPU,
            map@ == recorded(Seq::empty()),
    {
        let map = ApicMap { slots: [NO_CPU; 255] };
        assert(map@ =~= recorded(Seq::empty()));
        map
    }

    /// The map has a slot for each APIC id up to `MAX_APIC_ID`.
    pub proof fn lemma_len(&self)
        ensures
            self@.len() == MAX_APIC_ID + 1,
    {
    }

    /// The CPU id that the map gives for `apic_id`.
    pub open spec fn cpu_id(&self, apic_id: u32) -> u32 {
        if apic_id <= MAX_APIC_ID {
            self@[apic_id as int]
        } else {
            NO_CPU
        }
    }

    /// Whether no two slots hold the same CPU id.
    pub open spec fn injective(&self) -> bool {
        forall|i: int, j: int|
            0 <= i < self@.len() && 0 <= j < self@.len() && i != j && self@[i] != NO_CPU
                ==> self@[i] != self@[j]
    }
}

/// The id of the CPU with the APIC id `apic_id`, or `NO_CPU` where no such CPU
/// has entered or the id is beyond `MAX_APIC_ID`.
pub fn apic_to_cpu_id(map: &ApicMap, apic_id: u32) -> (cpu_id: u32)
    ensures
        cpu_id == map.cpu_id(apic_id),
{
    if apic_id <= MAX_APIC_ID {
        map.slots[apic_id as usize]
    } else {
        NO_CPU
    }
}

/// Finds out from the register value `apic_base` how the local APIC is driven.
pub fn init(apic_base: ApicBase) -> (r: HvResult<LocalApic>)
    ensures
        r == LocalApic::detect(apic_base),
{
    LocalApic::new(apic_base)
}

/// Records that the CPU `cpu_id`, whose id register holds `raw_id`, answers to
/// the APIC id that the register gives. An APIC id beyond `MAX_APIC_ID` is out
/// of range and leaves the map as it is.
pub fn init_percpu(map: &mut ApicMap, lapic: &LocalApic, raw_id: u32, cpu_id: u32) -> (r: HvResult)
    ensures
        r is Ok <==> lapic.id(raw_id) <= MAX_APIC_ID,
        r is Ok ==> final(map)@ == old(map)@.update(lapic.id(raw_id) as int, cpu_id),
        r matches Err(e) ==> e.num == HvErrorNum::ERANGE && final(map)@ == old(map)@,
{
    let apic_id = lapic.id(raw_id);
    if apic_id > MAX_APIC_ID {
        return hv_result_err(HvErrorNum::ERANGE);
    }
    map.slots[apic_id as usize] = cpu_id;
    Ok(())
}

/// A CPU that records its id for the first time is found at its own APIC id
/// and nowhere else: the map `before` the recording, which holds `cpu_id` in no
/// slot, differs from the map after it in the slot `apic_id` alone, and a map in
/// which no two slots held the same CPU id is such a map afterwards.
pub proof fn lemma_recorded_once(before: ApicMap, after: ApicMap, apic_id: u32, cpu_id: u32)
    requires
        apic_id <= MAX_APIC_ID,
        cpu_id != NO_CPU,
        forall|i: int| 0 <= i < before@.len() ==> before@[i] != cpu_id,
        after@ == before@.update(apic_id as int, cpu_id),
    ensures
        after.cpu_id(apic_id) == cpu_id,
        forall|i: int| 0 <= i < after@.len() && i != apic_id ==> after@[i] != cpu_id,
        before.injective() ==> after.injective(),
{
    before.lemma_len();
    after.lemma_len();
}

/// The map after the CPUs of `cpus`, each a pair of an APIC id and a CPU id, have
/// recorded their ids one after the other in a map that knew no CPU.
pub open spec fn recorded(cpus: Seq<(u32, u32)>) -> Seq<u32>
    decreases cpus.len(),
{
    if cpus.len() == 0 {
        Seq::new((MAX_APIC_ID + 1) as nat, |i: int| NO_CPU)
    } else {
        recorded(cpus.drop_last()).update(cpus.last().0 as int, cpus.last().1)
    }
}

/// A map in which the CPUs of `cpus` have recorded their ids is, after one more
/// CPU has recorded its id with `init_percpu`, the map in which that CPU has
/// recorded its id too.
pub proof fn lemma_recording_extends(cpus: Seq<(u32, u32)>, apic_id: u32, cpu_id: u32)
    ensures
        recorded(cpus.push((apic_id, cpu_id))) == recorded(cpus).update(apic_id as int, cpu_id),
{
    let longer = cpus.push((apic_id, cpu_id));
    assert(longer.drop_last() =~= cpus);
    assert(longer.last() == (apic_id, cpu_id));
}

/// Whether the CPUs of `cpus` can be told apart: each has an APIC id that the map
/// holds and a CPU id of its own, and no two share an APIC id or a CPU id.
pub open spec fn told_apart(cpus: Seq<(u32, u32)>) -> bool {
    &&& forall|i: int| 0 <= i < cpus.len() ==> (#[trigger] cpus[i]).0 <= MAX_APIC_ID && cpus[i].1 != NO_CPU
    &&& forall|i: int, j: int|
        0 <= i < j < cpus.len() ==> (#[trigger] cpus[i]).0 != (#[trigger] cpus[j]).0 && cpus[i].1
            != cpus[j].1
}

/// After any number of CPUs that can be told apart have recorded their ids, each
/// of them is found at its own APIC id, and a slot that holds a CPU id is the
/// slot of the CPU with that id: no other slot equals it.
pub proof fn lemma_map_tells_cpus_apart(cpus: Seq<(u32, u32)>)
    requires
        told_apart(cpus),
    ensures
        recorded(cpus).len() == MAX_APIC_ID + 1,
        forall|i: int| 0 <= i < cpus.len() ==> recorded(cpus)[(#[trigger] cpus[i]).0 as int] == cpus[i].1,
        forall|i: int, slot: int|
            0 <= i < cpus.len() && 0 <= slot <= MAX_APIC_ID && #[trigger] recorded(cpus)[slot]
                == (#[trigger] cpus[i]).1 ==> slot == cpus[i].0,
        forall|slot: int|
            0 <= slot <= MAX_APIC_ID && #[trigger] recorded(cpus)[slot] != NO_CPU ==> exists|i: int|
                0 <= i < cpus.len() && (#[trigger] cpus[i]).0 == slot,
    decreases cpus.len(),
{
    if cpus.len() > 0 {
        let before = cpus.drop_last();
        let last = cpus.last();
        let map = recorded(cpus);
        assert forall|i: int| 0 <= i < before.len() implies (#[trigger] before[i]) == cpus[i] by {}
        lemma_map_tells_cpus_apart(before);
        assert forall|i: int| 0 <= i < cpus.len() implies map[(#[trigger] cpus[i]).0 as int]
            == cpus[i].1 by {
            if i < cpus.len() - 1 {
                assert(before[i] == cpus[i]);
                assert(cpus[i].0 != cpus[cpus.len() - 1].0);
            }
        }
        assert forall|slot: int| 0 <= slot <= MAX_APIC_ID && #[trigger] map[slot] != NO_CPU implies exists|
            i: int,
        | 0 <= i < cpus.len() && (#[trigger] cpus[i]).0 == slot by {
            if slot == last.0 {
                assert(cpus[cpus.len() - 1].0 == slot);
            } else {
                let k = choose|k: int| 0 <= k < before.len() && (#[trigger] before[k]).0 == slot;
                assert(before[k] == cpus[k]);
            }
        }
        assert forall|i: int, slot: int|
            0 <= i < cpus.len() && 0 <= slot <= MAX_APIC_ID && #[trigger] map[slot]
                == (#[trigger] cpus[i]).1 implies slot == cpus[i].0 by {
            let k = choose|k: int| 0 <= k < cpus.len() && (#[trigger] cpus[k]).0 == slot;
            assert(map[cpus[k].0 as int] == cpus[k].1);
        }
    }
}

/// The sequence that starts the CPU with the id `apic_id` at the page
/// `start_page_idx`: an INIT interrupt, a pause of `INIT_DELAY_US`, a STARTUP
/// interrupt, a pause of `STARTUP_DELAY_US`, and the STARTUP interrupt again.
pub fn start_ap(lapic: &LocalApic, apic_id: u32, start_page_idx: u8) -> (steps: [IpiStep; 5])
    ensures
        steps@ == seq![
            IpiStep::Init(lapic.destination(apic_id)),
            IpiStep::Delay(INIT_DELAY_US),
            IpiStep::Startup(lapic.destination(apic_id), start_page_idx),
            IpiStep::Delay(STARTUP_DELAY_US),
            IpiStep::Startup(lapic.destination(apic_id), start_page_idx),
        ],
{
    let dest = lapic.destination(apic_id);
    let steps = [
        IpiStep::Init(dest),
        IpiStep::Delay(INIT_DELAY_US),
        IpiStep::Startup(dest, start_page_idx),
        IpiStep::Delay(STARTUP_DELAY_US),
        IpiStep::Startup(dest, start_page_idx),
    ];
    assert(steps@ =~= seq![
        IpiStep::Init(dest),
        IpiStep::Delay(INIT_DELAY_US),
        IpiStep::Startup(dest, start_page_idx),
        IpiStep::Delay(STARTUP_DELAY_US),
        IpiStep::Startup(dest, start_page_idx),
    ]);
    steps
}

/// The step that stops the CPU with the id `apic_id`: an INIT interrupt that no
/// STARTUP interrupt follows.
pub fn shutdown_ap(lapic: &LocalApic, apic_id: u32) -> (step: IpiStep)
    ensures
        step == IpiStep::Init(lapic.destination(apic_id)),
{
    IpiStep::Init(lapic.destination(apic_id))
}

/// A pause that is measured on the time-stamp counter: it began when the counter
/// read `start` and lasts `cycles` cycles.
#[derive(Clone, Copy, Debug, PartialEq, Eq, Structural)]
pub struct Delay {
    pub start: u64,
    pub cycles: u128,
}

impl Delay {
    /// Whether the pause is over when the counter reads `now`.
    pub open spec fn spec_expired(&self, now: u64) -> bool {
        now >= self.start + self.cycles
    }

    #[verifier::when_used_as_spec(spec_expired)]
    pub fn expired(&self, now: u64) -> (b: bool)
        ensures
            b == self.expired(now),
    {
        now >= self.start && (now - self.start) as u128 >= self.cycles
    }
}

/// The pause of `us` microseconds that begins when the time-stamp counter reads
/// `now`, on a CPU whose counter runs at `frequency` cycles a microsecond. The
/// caller spins until the pause has expired.
pub fn delay_us(us: u64, now: u64, frequency: u16) -> (delay: Delay)
    ensures
        delay.start == now,
        delay.cycles == us * frequency,
{
    assert(us * frequency <= 0xffff_ffff_ffff_ffff * 0xffff) by (nonlinear_arith)
        requires
            us <= 0xffff_ffff_ffff_ffff,
            frequency <= 0xffff,
    ;
    Delay { start: now, cycles: us as u128 * frequency as u128 }
}

/// A pause lasts as long as it says: when a pause of `us` microseconds that began
/// at the reading `start` has expired at the reading `now`, the counter has
/// advanced by `us * frequency` cycles or more, which take `us` microseconds or
/// more on a counter that runs at `actual` cycles a microsecond, no faster than
/// the `frequency` that the pause was made for.
pub proof fn lemma_delay_lasts(delay: Delay, us: u64, start: u64, frequency: u16, now: u64, actual: int)
    requires
        delay.start == start,
        delay.cycles == us * frequency,
        delay.expired(now),
        0 < actual <= frequency,
    ensures
        now - start >= us * frequency,
        (now - start) / actual >= us,
{
    let elapsed = now - start;
    assert(us * actual <= us * frequency) by (nonlinear_arith)
        requires
            0 < actual <= frequency,
            us >= 0,
    ;
    assert(elapsed / actual >= us) by (nonlinear_arith)
        requires
            elapsed >= us * actual,
            actual > 0,
    ;
}

} // verus!
