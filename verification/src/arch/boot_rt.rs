//! The trampoline that starts the real-time CPUs.
//!
//! A CPU that is started by a STARTUP interrupt begins in real mode at a page of
//! low memory. For the time of the bring-up that page holds a stub that takes
//! the CPU to 64-bit mode and reads, from the last words of the page, where to
//! jump, which address space to use and where its stack lies. What the page held
//! before is saved first and put back at the end.

use vstd::prelude::*;
use crate::arch::apic::{apic_to_cpu_id, delay_us, shutdown_ap, ApicMap, Delay, IpiStep, LocalApic, NO_CPU};
use crate::consts::PAGE_SIZE;
use crate::error::{hv_result_err, HvErrorNum, HvResult};
use crate::header::HvHeader;
use crate::memory::{MemFlags, MemoryRegion, PhysAddr, VirtAddr, MEM_EXECUTE, MEM_READ, MEM_WRITE};
use crate::percpu::{block_vaddr, stack_top_of, PerCpuArray};

verus! {

/// Index of the page at which a started CPU begins.
pub const START_PAGE_IDX: u8 = 6;

/// Physical address of the page at which a started CPU begins.
pub const START_PAGE_PADDR: PhysAddr = 0x6000;

/// Number of 64-bit words in a page.
pub const U64_PER_PAGE: usize = 512;

/// The word of the start page that holds the address to jump to: the last one.
pub const ENTRY_SLOT: usize = 511;

/// The word of the start page that holds the root of the address space.
pub const CR3_SLOT: usize = 510;

/// The word of the start page that holds the top of the stack.
pub const STACK_SLOT: usize = 509;

/// How long the starting CPU waits for a started CPU to enter, in microseconds.
pub const ARRIVAL_TIMEOUT_US: u64 = 100_000;

/// The start pages as they are staged for the bring-up: the stub at their
/// beginning, then, written over whatever lies there, the entry and, where one is
/// given, the root of the address space.
pub open spec fn staged(page: Seq<u64>, stub: Seq<u64>, entry: u64, cr3: Option<u64>) -> Seq<u64> {
    let copied = Seq::new(
        page.len(),
        |i: int|
            if i < stub.len() {
                stub[i]
            } else {
                page[i]
            },
    );
    let with_entry = copied.update(ENTRY_SLOT as int, entry);
    match cr3 {
        Some(root) => with_entry.update(CR3_SLOT as int, root),
        None => with_entry,
    }
}

/// Whether every APIC id from `from` up to, not including, `to` is taken: the
/// map holds the id of a CPU for it.
pub open spec fn all_taken(map: ApicMap, from: int, to: int) -> bool {
    forall|id: int| from <= id < to ==> #[trigger] map.cpu_id(id as u32) != NO_CPU
}

/// A bring-up of real-time CPUs in progress. It ends with `finish`, which puts
/// back what the start pages held.
#[must_use]
pub struct RtBoot {
    backup: Vec<u64>,
    array: PerCpuArray,
    next_apic_id: u32,
    new_cpu_id: u32,
}

/// A CPU to start: the APIC id to wake, the CPU id and the stack that the CPU
/// will take, and the number of CPUs that had entered before it was woken.
#[derive(Clone, Copy, Debug, PartialEq, Eq, Structural)]
pub struct Launch {
    pub apic_id: u32,
    pub cpu_id: u32,
    pub stack_top: VirtAddr,
    pub entered_cpus: u32,
}

/// The wait for a started CPU to enter.
#[derive(Clone, Copy, Debug, PartialEq, Eq, Structural)]
pub struct Arrival {
    pub entered_cpus: u32,
    pub timeout: Delay,
}

impl Launch {
    /// The wait for the CPU to enter, which begins when the time-stamp counter
    /// reads `now` and is given up after `ARRIVAL_TIMEOUT_US`.
    pub fn await_arrival(&self, now: u64, frequency: u16) -> (arrival: Arrival)
        ensures
            arrival.entered_cpus == self.entered_cpus,
            arrival.timeout.start == now,
            arrival.timeout.cycles == ARRIVAL_TIMEOUT_US * frequency,
    {
        Arrival { entered_cpus: self.entered_cpus, timeout: delay_us(ARRIVAL_TIMEOUT_US, now, frequency) }
    }
}

impl Arrival {
    /// Whether the wait goes on when `entered_cpus` CPUs have entered and the
    /// time-stamp counter reads `now`: no further CPU has entered and the time is
    /// not up. A wait that ends because the time is up is no failure.
    pub open spec fn spec_pending(&self, entered_cpus: u32, now: u64) -> bool {
        entered_cpus <= self.entered_cpus && !self.timeout.expired(now)
    }

    #[verifier::when_used_as_spec(spec_pending)]
    pub fn pending(&self, entered_cpus: u32, now: u64) -> (b: bool)
        ensures
            b == self.pending(entered_cpus, now),
    {
        entered_cpus <= self.entered_cpus && !self.timeout.expired(now)
    }
}

impl RtBoot {
    #[verifier::type_invariant]
    spec fn inv(self) -> bool {
        &&& self.backup@.len() >= U64_PER_PAGE
        &&& self.next_apic_id <= self.array.max_cpus()
    }

    /// What the start pages held before the bring-up.
    pub closed spec fn saved(self) -> Seq<u64> {
        self.backup@
    }

    /// The per-CPU array whose blocks the started CPUs take.
    pub closed spec fn array(self) -> PerCpuArray {
        self.array
    }

    /// The APIC id at which the search for the next CPU to start goes on.
    pub closed spec fn cursor(self) -> u32 {
        self.next_apic_id
    }

    /// The CPU id that the next started CPU will take.
    pub closed spec fn new_cpu_id(self) -> u32 {
        self.new_cpu_id
    }

    /// Number of words of the start pages.
    pub fn page_len(&self) -> (len: usize)
        ensures
            len == self.saved().len(),
    {
        self.backup.len()
    }

    /// Begins a bring-up on the `pages` start pages `page`: saves them, copies
    /// `stub` to their beginning and writes `entry` and, where it is given, `cr3`
    /// to their slots. The CPUs that are started take the blocks of `array` from
    /// the one of CPU `entered_cpus` on. Pages of another length, or too short
    /// for the stub, are an invalid argument and are left as they are.
    pub(crate) fn begin(
        page: &mut [u64],
        pages: usize,
        stub: &[u64],
        entry: u64,
        cr3: Option<u64>,
        array: &PerCpuArray,
        entered_cpus: u32,
    ) -> (r: HvResult<RtBoot>)
        requires
            1 <= pages <= 3,
        ensures
            r is Ok <==> old(page).len() == pages * U64_PER_PAGE && stub.len() <= old(page).len(),
            r matches Err(e) ==> e.num == HvErrorNum::EINVAL && final(page)@ == old(page)@,
            r matches Ok(boot) ==> {
                &&& boot.saved() == old(page)@
                &&& final(page)@ == staged(old(page)@, stub@, entry, cr3)
                &&& boot.array() == *array
                &&& boot.cursor() == 0
                &&& boot.new_cpu_id() == entered_cpus
            },
    {
        let len = page.len();
        if len != pages * U64_PER_PAGE || stub.len() > len {
            return hv_result_err(HvErrorNum::EINVAL);
        }
        let ghost before = page@;
        let mut backup: Vec<u64> = Vec::new();
        let mut i: usize = 0;
        while i < len
            invariant
                i <= len,
                len == page.len(),
                backup.len() == i,
                page@ == before,
                forall|j: int| 0 <= j < i ==> backup@[j] == page@[j],
            decreases len - i,
        {
            backup.push(page[i]);
            i += 1;
        }
        assert(backup@ =~= before);
        let stub_len = stub.len();
        let mut k: usize = 0;
        while k < stub_len
            invariant
                k <= stub_len,
                stub_len == stub.len(),
                stub_len <= len,
                len == page.len(),
                forall|j: int| 0 <= j < k ==> page@[j] == stub@[j],
                forall|j: int| k <= j < len ==> page@[j] == before[j],
            decreases stub_len - k,
        {
            page[k] = stub[k];
            k += 1;
        }
        page[ENTRY_SLOT] = entry;
        match cr3 {
            Some(root) => {
                page[CR3_SLOT] = root;
            },
            None => {},
        }
        assert(page@ =~= staged(before, stub@, entry, cr3));
        Ok(RtBoot { backup, array: *array, next_apic_id: 0, new_cpu_id: entered_cpus })
    }

    /// Picks the next CPU to start and writes the top of its stack to the start
    /// pages. The CPU is the one with the lowest APIC id, from where the search
    /// stands, that no entered CPU has recorded in `map`; it takes the next CPU
    /// id. There is none when every such APIC id up to the number of CPUs is
    /// taken, or when no CPU id is left: then the search is over for good and the
    /// pages stay as they are. `entered_cpus` is the number of CPUs that have
    /// entered by now.
    pub fn next_launch(&mut self, page: &mut [u64], map: &ApicMap, entered_cpus: u32) -> (r: Option<
        Launch,
    >)
        requires
            old(page).len() == old(self).saved().len(),
        ensures
            final(self).saved() == old(self).saved(),
            final(self).array() == old(self).array(),
            final(page).len() == old(page).len(),
            r is None <==> old(self).new_cpu_id() >= old(self).array().max_cpus() || all_taken(
                *map,
                old(self).cursor() as int,
                old(self).array().max_cpus() as int,
            ),
            r is None ==> {
                &&& final(page)@ == old(page)@
                &&& final(self).cursor() == old(self).array().max_cpus()
                &&& final(self).new_cpu_id() == old(self).new_cpu_id()
            },
            r matches Some(launch) ==> {
                &&& old(self).cursor() <= launch.apic_id < old(self).array().max_cpus()
                &&& map.cpu_id(launch.apic_id) == NO_CPU
                &&& all_taken(*map, old(self).cursor() as int, launch.apic_id as int)
                &&& launch.cpu_id == old(self).new_cpu_id()
                &&& launch.stack_top == stack_top_of(
                    block_vaddr(old(self).array().base() as int, launch.cpu_id as int),
                )
                &&& launch.entered_cpus == entered_cpus
                &&& final(page)@ == old(page)@.update(STACK_SLOT as int, launch.stack_top as u64)
                &&& final(self).cursor() == launch.apic_id + 1
                &&& final(self).new_cpu_id() == launch.cpu_id + 1
            },
    {
        proof {
            use_type_invariant(&*self);
        }
        let max_cpus = self.array.max_cpus();
        let ghost from = self.next_apic_id;
        let mut apic_id = self.next_apic_id;
        while apic_id < max_cpus && apic_to_cpu_id(map, apic_id) != NO_CPU
            invariant
                from <= apic_id <= max_cpus,
                all_taken(*map, from as int, apic_id as int),
            decreases max_cpus - apic_id,
        {
            apic_id += 1;
        }
        if apic_id >= max_cpus || self.new_cpu_id >= max_cpus {
            self.next_apic_id = max_cpus;
            return None;
        }
        assert(map.cpu_id((apic_id as int) as u32) == NO_CPU);
        let cpu_id = self.new_cpu_id;
        let stack_top = self.array.stack_top_of(cpu_id);
        page[STACK_SLOT] = stack_top as u64;
        self.next_apic_id = apic_id + 1;
        self.new_cpu_id = cpu_id + 1;
        Some(Launch { apic_id, cpu_id, stack_top, entered_cpus })
    }

    /// Ends the bring-up: puts back what the start pages held before it.
    pub fn finish(self, page: &mut [u64])
        requires
            old(page).len() == self.saved().len(),
        ensures
            final(page)@ == self.saved(),
    {
        let len = page.len();
        let mut i: usize = 0;
        while i < len
            invariant
                i <= len,
                len == page.len(),
                len == self.backup@.len(),
                forall|j: int| 0 <= j < i ==> page@[j] == self.backup@[j],
            decreases len - i,
        {
            page[i] = self.backup[i];
            i += 1;
        }
        assert(page@ =~= self.backup@);
    }
}

/// The start pages end as they began, whatever is launched in between and
/// whether or not the launched CPUs arrive: `before` is what the pages held when
/// the bring-up began, which it saved; `boots` is the bring-up after its start and
/// after each call of `next_launch`, which keeps what was saved; and `after` is
/// what `finish` leaves in the pages, which is what the last of them had saved.
pub proof fn lemma_start_pages_restored(before: Seq<u64>, boots: Seq<RtBoot>, after: Seq<u64>)
    requires
        boots.len() > 0,
        boots[0].saved() == before,
        forall|k: int| 0 <= k < boots.len() - 1 ==> (#[trigger] boots[k + 1]).saved() == boots[k].saved(),
        after == boots.last().saved(),
    ensures
        after == before,
    decreases boots.len(),
{
    if boots.len() > 1 {
        let earlier = boots.drop_last();
        assert(earlier[0] == boots[0]);
        assert forall|k: int| 0 <= k < earlier.len() - 1 implies (#[trigger] earlier[k + 1]).saved()
            == earlier[k].saved() by {
            assert(earlier[k + 1] == boots[k + 1] && earlier[k] == boots[k]);
        }
        assert(boots[boots.len() - 2 + 1].saved() == boots[boots.len() - 2].saved());
        lemma_start_pages_restored(before, earlier, earlier.last().saved());
    }
}

/// Begins the bring-up of further real-time CPUs, which start at `entry_paddr`
/// in the address space that the stub sets up itself. One start page is used.
pub fn start_rt_cpus(
    page: &mut [u64],
    stub: &[u64],
    entry_paddr: PhysAddr,
    array: &PerCpuArray,
    entered_cpus: u32,
) -> (r: HvResult<RtBoot>)
    ensures
        r is Ok <==> old(page).len() == U64_PER_PAGE && stub.len() <= U64_PER_PAGE,
        r matches Err(e) ==> e.num == HvErrorNum::EINVAL && final(page)@ == old(page)@,
        r matches Ok(boot) ==> {
            &&& boot.saved() == old(page)@
            &&& final(page)@ == staged(old(page)@, stub@, entry_paddr as u64, None)
            &&& boot.array() == *array
            &&& boot.cursor() == 0
            &&& boot.new_cpu_id() == entered_cpus
        },
{
    RtBoot::begin(page, 1, stub, entry_paddr as u64, None, array, entered_cpus)
}

/// The steps that stop the real-time CPUs: an INIT interrupt to each APIC id
/// from the number of guest CPUs up to the number of CPUs.
pub fn shutdown_rt_cpus(header: &HvHeader, lapic: &LocalApic) -> (steps: Vec<IpiStep>)
    ensures
        steps.len() == header.max_cpus - header.vm_cpus(),
        forall|i: int|
            0 <= i < steps.len() ==> #[trigger] steps[i] == IpiStep::Init(
                lapic.destination((header.vm_cpus() + i) as u32),
            ),
{
    let first = header.vm_cpus();
    let mut steps: Vec<IpiStep> = Vec::new();
    let mut apic_id = first;
    while apic_id < header.max_cpus
        invariant
            first == header.vm_cpus(),
            first <= apic_id <= header.max_cpus,
            steps.len() == apic_id - first,
            forall|i: int|
                0 <= i < steps.len() ==> #[trigger] steps[i] == IpiStep::Init(
                    lapic.destination((first + i) as u32),
                ),
        decreases header.max_cpus - apic_id,
    {
        steps.push(shutdown_ap(lapic, apic_id));
        apic_id += 1;
    }
    steps
}

/// The mapping that makes the start page usable: the page at its own address,
/// readable, writable and executable, since the stub runs from it.
pub fn start_page_region() -> (region: MemoryRegion)
    ensures
        region.start == START_PAGE_PADDR,
        region.phys_start == START_PAGE_PADDR,
        region.size == PAGE_SIZE,
        region.flags@ == MEM_READ | MEM_WRITE | MEM_EXECUTE,
{
    let flags = MemFlags::read().union(MemFlags::write()).union(MemFlags::execute());
    MemoryRegion::new_with_offset_mapper(START_PAGE_PADDR, START_PAGE_PADDR, PAGE_SIZE, flags)
}

} // verus!
