//! The per-CPU store: one block per CPU at a fixed stride, each carrying the
//! CPU's id, its role and, above them, its stack.

use vstd::prelude::*;
use crate::consts::{PAGE_SIZE, PER_CPU_SIZE};
use crate::error::{hv_result_err, HvError, HvErrorNum, HvResult};
use crate::globals::{wrapping_dec, wrapping_inc, Globals};
use crate::memory::VirtAddr;

verus! {

/// Where the array of per-CPU blocks lies, and how many blocks it holds.
#[derive(Clone, Copy, Debug, PartialEq, Eq)]
pub struct PerCpuArray {
    base: VirtAddr,
    max_cpus: u32,
}

/// What a real-time CPU keeps in its block: nothing but the role itself.
#[derive(Debug)]
pub struct RtPerCpuData;

/// What a guest CPU keeps in its block: the saved context of the host, of type
/// `L`, and the virtualization state, of type `V`.
#[derive(Debug)]
pub struct VmPerCpuData<L, V> {
    pub linux: L,
    pub vcpu: V,
}

/// The role of a CPU together with what the role keeps.
#[derive(Debug)]
pub enum PerCpuData<L, V> {
    Uninit,
    Rt(RtPerCpuData),
    Vm(VmPerCpuData<L, V>),
}

/// The role of a CPU.
#[derive(Clone, Copy, Debug, PartialEq, Eq, Structural)]
pub enum Role {
    Uninit,
    Rt,
    Vm,
}

/// A step of the initialization of a CPU that is taken outside this crate.
#[derive(Clone, Copy, Debug, PartialEq, Eq, Structural)]
pub enum InitStep {
    /// Load the context of the host from the stack pointer that the host driver
    /// passed in.
    LoadContext,
    /// Activate the page table of the hypervisor on the CPU.
    ActivatePageTable,
    /// Run the per-CPU initialization of the architecture, which records the
    /// APIC id of the CPU.
    ArchInit,
    /// Construct the virtualization state over the host context and the root
    /// cell.
    CreateVcpu,
}

/// What the initialization of a CPU does next.
#[derive(Clone, Copy, Debug, PartialEq, Eq)]
pub enum PerCpuInit {
    /// Take this step, then report its outcome.
    Run(InitStep),
    /// Give the CPU its role, with `init_vm_cpu` or `init_rt_cpu`.
    Assign,
    /// The initialization has failed with this error.
    Failed(HvError),
}

/// The block of one CPU.
#[derive(Debug)]
pub struct PerCpu<L, V> {
    /// The address of the block itself, which the thread pointer holds.
    self_vaddr: VirtAddr,
    id: u32,
    inner: PerCpuData<L, V>,
}

/// The address of block `k` of an array of blocks that starts at `base`.
pub open spec fn block_vaddr(base: int, k: int) -> int {
    base + k * PER_CPU_SIZE
}

/// The top of the stack of the block at `vaddr`: the stack grows down from
/// eight bytes below the end of the block.
pub open spec fn stack_top_of(vaddr: int) -> int {
    vaddr + PER_CPU_SIZE - 8
}

/// What follows the step `step` in the initialization of a CPU that is to take
/// the role `target`. A guest CPU loads the host context, activates the page
/// table, runs the initialization of the architecture and constructs its
/// virtualization state; a real-time CPU neither loads a context nor constructs
/// such a state.
pub open spec fn init_successor(target: Role, step: InitStep) -> PerCpuInit {
    match step {
        InitStep::LoadContext => PerCpuInit::Run(InitStep::ActivatePageTable),
        InitStep::ActivatePageTable => PerCpuInit::Run(InitStep::ArchInit),
        InitStep::ArchInit => if target == Role::Vm {
            PerCpuInit::Run(InitStep::CreateVcpu)
        } else {
            PerCpuInit::Assign
        },
        InitStep::CreateVcpu => PerCpuInit::Assign,
    }
}

/// What the initialization of a CPU in the role `role`, which is to take the
/// role `target`, does after the step `done` has ended with `outcome`, or at its
/// start where `done` is none. It fails at once as an invalid argument unless the
/// CPU has no role yet and is to take one; it fails with the error of a step that
/// failed; else it goes on to the next step, and in the end to the role.
pub open spec fn init_next(role: Role, target: Role, done: Option<InitStep>, outcome: HvResult)
    -> PerCpuInit {
    match done {
        None => if role != Role::Uninit || target == Role::Uninit {
            PerCpuInit::Failed(HvError { num: HvErrorNum::EINVAL })
        } else if target == Role::Vm {
            PerCpuInit::Run(InitStep::LoadContext)
        } else {
            PerCpuInit::Run(InitStep::ActivatePageTable)
        },
        Some(step) => match outcome {
            Err(e) => PerCpuInit::Failed(e),
            Ok(()) => init_successor(target, step),
        },
    }
}

/// Whether a CPU may pass from role `from` to role `to`: it stays as it is, or
/// it leaves `Uninit`.
pub open spec fn role_advances(from: Role, to: Role) -> bool {
    from == to || from == Role::Uninit
}

impl PerCpuArray {
    #[verifier::type_invariant]
    spec fn inv(self) -> bool {
        &&& self.base % PAGE_SIZE == 0
        &&& self.base + self.max_cpus * PER_CPU_SIZE <= usize::MAX
    }

    pub closed spec fn base(self) -> VirtAddr {
        self.base
    }

    pub closed spec fn spec_max_cpus(&self) -> u32 {
        self.max_cpus
    }

    /// Whether `max_cpus` blocks that start at `base` are page-aligned and end
    /// inside the address space.
    pub open spec fn fits(base: VirtAddr, max_cpus: u32) -> bool {
        &&& base % PAGE_SIZE == 0
        &&& base + max_cpus * PER_CPU_SIZE <= usize::MAX
    }

    /// The array of `max_cpus` blocks at `base`, if such an array can exist.
    pub fn new(base: VirtAddr, max_cpus: u32) -> (array: Option<PerCpuArray>)
        ensures
            array is Some <==> Self::fits(base, max_cpus),
            array matches Some(a) ==> a.base() == base && a.max_cpus() == max_cpus,
    {
        if base % PAGE_SIZE != 0 {
            return None;
        }
        let room: u128 = usize::MAX as u128 - base as u128;
        assert(max_cpus * PER_CPU_SIZE <= 0xffff_ffff * 0x8_0000) by (nonlinear_arith)
            requires
                max_cpus <= 0xffff_ffff,
                PER_CPU_SIZE == 0x8_0000,
        ;
        if max_cpus as u128 * PER_CPU_SIZE as u128 > room {
            return None;
        }
        Some(PerCpuArray { base, max_cpus })
    }

    #[verifier::when_used_as_spec(spec_max_cpus)]
    pub fn max_cpus(&self) -> (n: u32)
        ensures
            n == self.max_cpus(),
    {
        self.max_cpus
    }

    /// The address of the block of CPU `cpu_id`.
    pub fn vaddr_of(&self, cpu_id: u32) -> (vaddr: VirtAddr)
        requires
            cpu_id < self.max_cpus(),
        ensures
            vaddr == block_vaddr(self.base() as int, cpu_id as int),
            vaddr % PAGE_SIZE == 0,
            stack_top_of(vaddr as int) <= usize::MAX,
    {
        proof {
            use_type_invariant(self);
            lemma_block_in_array(self.base as int, self.max_cpus as int, cpu_id as int);
        }
        self.base + cpu_id as usize * PER_CPU_SIZE
    }

    /// The top of the stack of CPU `cpu_id`.
    pub fn stack_top_of(&self, cpu_id: u32) -> (top: VirtAddr)
        requires
            cpu_id < self.max_cpus(),
        ensures
            top == stack_top_of(block_vaddr(self.base() as int, cpu_id as int)),
    {
        self.vaddr_of(cpu_id) + (PER_CPU_SIZE - 8)
    }
}

/// Block `k` of an array of `n` blocks starts at a page boundary and ends where
/// block `k + 1` starts, at or before the end of the array.
pub proof fn lemma_block_in_array(base: int, n: int, k: int)
    requires
        0 <= k < n,
        base % (PAGE_SIZE as int) == 0,
    ensures
        base <= block_vaddr(base, k),
        block_vaddr(base, k) + PER_CPU_SIZE == block_vaddr(base, k + 1),
        block_vaddr(base, k + 1) <= block_vaddr(base, n),
        block_vaddr(base, k) % (PAGE_SIZE as int) == 0,
{
    assert(0 <= k * 0x8_0000 && (k + 1) * 0x8_0000 <= n * 0x8_0000 && (k + 1) * 0x8_0000 == k
        * 0x8_0000 + 0x8_0000) by (nonlinear_arith)
        requires
            0 <= k < n,
    ;
    assert((base + k * 0x8_0000) % 0x1000 == 0) by (nonlinear_arith)
        requires
            base % 0x1000 == 0,
    ;
}

/// Distinct CPUs have distinct blocks, as far apart as a block is long.
pub proof fn lemma_blocks_disjoint(base: int, j: int, k: int)
    requires
        0 <= j < k,
    ensures
        block_vaddr(base, j) + PER_CPU_SIZE <= block_vaddr(base, k),
{
    assert((j + 1) * 0x8_0000 <= k * 0x8_0000 && (j + 1) * 0x8_0000 == j * 0x8_0000 + 0x8_0000)
        by (nonlinear_arith)
        requires
            0 <= j < k,
    ;
}

impl<L, V> PerCpuData<L, V> {
    pub open spec fn role(self) -> Role {
        match self {
            PerCpuData::Uninit => Role::Uninit,
            PerCpuData::Rt(_) => Role::Rt,
            PerCpuData::Vm(_) => Role::Vm,
        }
    }
}

fn vm_of<L, V>(inner: &mut PerCpuData<L, V>) -> (r: Option<&mut VmPerCpuData<L, V>>)
    ensures
        r is Some <==> *old(inner) is Vm,
        r is None ==> *final(inner) == *old(inner),
        r matches Some(vm) ==> *vm == old(inner)->Vm_0 && *final(inner) == PerCpuData::Vm(
            *final(vm),
        ),
    no_unwind
{
    match inner {
        PerCpuData::Vm(vm) => Some(vm),
        _ => None,
    }
}

fn rt_of<L, V>(inner: &mut PerCpuData<L, V>) -> (r: Option<&mut RtPerCpuData>)
    ensures
        r is Some <==> *old(inner) is Rt,
        r is None ==> *final(inner) == *old(inner),
        r matches Some(rt) ==> *rt == old(inner)->Rt_0 && *final(inner) == PerCpuData::<
            L,
            V,
        >::Rt(*final(rt)),
    no_unwind
{
    match inner {
        PerCpuData::Rt(rt) => Some(rt),
        _ => None,
    }
}

impl<L, V> PerCpu<L, V> {
    #[verifier::type_invariant]
    spec fn inv(self) -> bool {
        stack_top_of(self.self_vaddr as int) <= usize::MAX
    }

    pub closed spec fn spec_self_vaddr(&self) -> VirtAddr {
        self.self_vaddr
    }

    pub closed spec fn spec_id(&self) -> u32 {
        self.id
    }

    /// What the block keeps for the role of its CPU.
    pub closed spec fn data(self) -> PerCpuData<L, V> {
        self.inner
    }

    /// The role of the CPU.
    pub open spec fn role(self) -> Role {
        self.data().role()
    }

    /// Whether the block is the one of CPU `cpu_id` in `array`, not yet given a
    /// role.
    pub open spec fn fresh_in(self, array: PerCpuArray, cpu_id: u32) -> bool {
        &&& self.id() == cpu_id
        &&& self.self_vaddr() == block_vaddr(array.base() as int, cpu_id as int)
        &&& self.data() is Uninit
    }

    /// Enters the calling CPU: takes the next CPU id from `globals` and sets up
    /// the block of that CPU in `array`, with no role yet. A CPU that enters
    /// when `array` has no block left is refused as an invalid argument, and is
    /// still counted.
    pub fn new(globals: &mut Globals, array: &PerCpuArray) -> (r: HvResult<PerCpu<L, V>>)
        ensures
            *final(globals) == (Globals {
                entered_cpus: wrapping_inc(old(globals).entered_cpus),
                ..*old(globals)
            }),
            old(globals).keeps_failure(*final(globals)),
            r is Ok <==> old(globals).entered_cpus < array.max_cpus(),
            r matches Ok(cpu) ==> cpu.fresh_in(*array, old(globals).entered_cpus),
            r matches Err(e) ==> e.num == HvErrorNum::EINVAL,
    {
        let cpu_id = globals.enter();
        if cpu_id >= array.max_cpus() {
            return hv_result_err(HvErrorNum::EINVAL);
        }
        Ok(Self::from_id_mut(array, cpu_id))
    }

    /// The block of CPU `cpu_id` in `array`, as it is before the CPU has a role.
    pub fn from_id_mut(array: &PerCpuArray, cpu_id: u32) -> (cpu: PerCpu<L, V>)
        requires
            cpu_id < array.max_cpus(),
        ensures
            cpu.fresh_in(*array, cpu_id),
    {
        PerCpu { self_vaddr: array.vaddr_of(cpu_id), id: cpu_id, inner: PerCpuData::Uninit }
    }

    #[verifier::when_used_as_spec(spec_id)]
    pub fn id(&self) -> (id: u32)
        ensures
            id == self.id(),
    {
        self.id
    }

    /// The address of the block, to which the thread pointer of the CPU is set.
    #[verifier::when_used_as_spec(spec_self_vaddr)]
    pub fn self_vaddr(&self) -> (vaddr: VirtAddr)
        ensures
            vaddr == self.self_vaddr(),
    {
        self.self_vaddr
    }

    /// The top of the stack of the CPU.
    pub fn stack_top(&self) -> (top: VirtAddr)
        ensures
            top == stack_top_of(self.self_vaddr() as int),
    {
        proof {
            use_type_invariant(self);
        }
        self.self_vaddr + (PER_CPU_SIZE - 8)
    }

    /// The role of the CPU.
    pub fn current_role(&self) -> (role: Role)
        ensures
            role == self.role(),
    {
        match self.inner {
            PerCpuData::Uninit => Role::Uninit,
            PerCpuData::Rt(_) => Role::Rt,
            PerCpuData::Vm(_) => Role::Vm,
        }
    }

    /// Drives the initialization of the CPU, which is to take the role `target`:
    /// says what to do at the start, where `done` is none, and after the step
    /// `done` has ended with `outcome`.
    pub fn init_step(&self, target: Role, done: Option<InitStep>, outcome: HvResult) -> (next:
        PerCpuInit)
        ensures
            next == init_next(self.role(), target, done, outcome),
    {
        let step = match done {
            None => {
                let role = self.current_role();
                return match (role, target) {
                    (Role::Uninit, Role::Vm) => PerCpuInit::Run(InitStep::LoadContext),
                    (Role::Uninit, Role::Rt) => PerCpuInit::Run(InitStep::ActivatePageTable),
                    _ => PerCpuInit::Failed(HvError::new(HvErrorNum::EINVAL)),
                };
            },
            Some(step) => step,
        };
        match outcome {
            Err(e) => {
                return PerCpuInit::Failed(e);
            },
            Ok(()) => {},
        }
        match step {
            InitStep::LoadContext => PerCpuInit::Run(InitStep::ActivatePageTable),
            InitStep::ActivatePageTable => PerCpuInit::Run(InitStep::ArchInit),
            InitStep::ArchInit => match target {
                Role::Vm => PerCpuInit::Run(InitStep::CreateVcpu),
                _ => PerCpuInit::Assign,
            },
            InitStep::CreateVcpu => PerCpuInit::Assign,
        }
    }

    /// Makes the CPU a guest CPU that keeps the host context `linux` and the
    /// virtualization state `vcpu`. A CPU that has a role already keeps it, and
    /// the call is refused as an invalid argument.
    pub fn init_vm_cpu(&mut self, linux: L, vcpu: V) -> (r: HvResult<&mut VmPerCpuData<L, V>>)
        ensures
            r is Ok <==> old(self).role() == Role::Uninit,
            r matches Err(e) ==> e.num == HvErrorNum::EINVAL && *final(self) == *old(self),
            r matches Ok(vm) ==> {
                &&& *vm == (VmPerCpuData { linux, vcpu })
                &&& final(self).data() == PerCpuData::Vm(*final(vm))
            },
            final(self).id() == old(self).id(),
            final(self).self_vaddr() == old(self).self_vaddr(),
            role_advances(old(self).role(), final(self).role()),
    {
        proof {
            use_type_invariant(&*self);
        }
        match self.inner {
            PerCpuData::Uninit => {},
            _ => {
                return hv_result_err(HvErrorNum::EINVAL);
            },
        }
        self.inner = PerCpuData::Vm(VmPerCpuData { linux, vcpu });
        match vm_of(&mut self.inner) {
            Some(vm) => Ok(vm),
            None => hv_result_err(HvErrorNum::EINVAL),
        }
    }

    /// Makes the CPU a real-time CPU. A CPU that has a role already keeps it,
    /// and the call is refused as an invalid argument.
    pub fn init_rt_cpu(&mut self) -> (r: HvResult<&mut RtPerCpuData>)
        ensures
            r is Ok <==> old(self).role() == Role::Uninit,
            r matches Err(e) ==> e.num == HvErrorNum::EINVAL && *final(self) == *old(self),
            r matches Ok(rt) ==> final(self).data() == PerCpuData::<L, V>::Rt(*final(rt)),
            final(self).id() == old(self).id(),
            final(self).self_vaddr() == old(self).self_vaddr(),
            role_advances(old(self).role(), final(self).role()),
    {
        proof {
            use_type_invariant(&*self);
        }
        match self.inner {
            PerCpuData::Uninit => {},
            _ => {
                return hv_result_err(HvErrorNum::EINVAL);
            },
        }
        self.inner = PerCpuData::Rt(RtPerCpuData);
        match rt_of(&mut self.inner) {
            Some(rt) => Ok(rt),
            None => hv_result_err(HvErrorNum::EINVAL),
        }
    }

    /// What the CPU keeps as a guest CPU, if it is one.
    pub fn vm_cpu(&mut self) -> (r: Option<&mut VmPerCpuData<L, V>>)
        ensures
            r is Some <==> old(self).role() == Role::Vm,
            r is None ==> *final(self) == *old(self),
            r matches Some(vm) ==> *vm == old(self).data()->Vm_0 && final(self).data()
                == PerCpuData::Vm(*final(vm)),
            final(self).role() == old(self).role(),
            final(self).id() == old(self).id(),
            final(self).self_vaddr() == old(self).self_vaddr(),
    {
        proof {
            use_type_invariant(&*self);
        }
        vm_of(&mut self.inner)
    }

    /// What the CPU keeps as a real-time CPU, if it is one.
    pub fn rt_cpu(&mut self) -> (r: Option<&mut RtPerCpuData>)
        ensures
            r is Some <==> old(self).role() == Role::Rt,
            r is None ==> *final(self) == *old(self),
            r matches Some(rt) ==> final(self).data() == PerCpuData::<L, V>::Rt(*final(rt)),
            final(self).role() == old(self).role(),
            final(self).id() == old(self).id(),
            final(self).self_vaddr() == old(self).self_vaddr(),
    {
        proof {
            use_type_invariant(&*self);
        }
        rt_of(&mut self.inner)
    }
}

/// A CPU takes a role once: whatever two steps it makes, one after the other,
/// they advance its role as one step does, and once it has left `Uninit` no
/// step changes its role.
pub proof fn lemma_role_advances_once(a: Role, b: Role, c: Role)
    requires
        role_advances(a, b),
        role_advances(b, c),
    ensures
        role_advances(a, c),
        a != Role::Uninit ==> c == a,
        b != a ==> c == b,
{
}

/// Whatever steps a CPU makes, it takes a role at most once: in a history of its
/// roles in which each role follows the one before by one step, a role other
/// than `Uninit` stays for good.
pub proof fn lemma_role_history(roles: Seq<Role>, i: int, j: int)
    requires
        forall|k: int| 0 <= k < roles.len() - 1 ==> role_advances(#[trigger] roles[k], roles[k + 1]),
        0 <= i <= j < roles.len(),
    ensures
        role_advances(roles[i], roles[j]),
        roles[i] != Role::Uninit ==> roles[j] == roles[i],
    decreases j - i,
{
    if i < j {
        lemma_role_history(roles, i, j - 1);
        assert(role_advances(roles[j - 1], roles[j - 1 + 1]));
    }
}

impl<L, V> VmPerCpuData<L, V> {
    /// Counts the CPU among those that run the guest, and hands out what
    /// entering the guest takes: the virtualization state and the host context.
    pub fn activate_vmm(&mut self, globals: &mut Globals) -> (r: (&mut V, &L))
        ensures
            *final(globals) == (Globals {
                activated_cpus: wrapping_inc(old(globals).activated_cpus),
                ..*old(globals)
            }),
            old(globals).keeps_failure(*final(globals)),
            *r.0 == old(self).vcpu,
            *r.1 == old(self).linux,
            *final(self) == (VmPerCpuData { linux: old(self).linux, vcpu: *final(r.0) }),
    {
        globals.mark_activated();
        (&mut self.vcpu, &self.linux)
    }

    /// Takes the CPU out of those that run the guest, and hands out what leaving
    /// the guest takes: the virtualization state and the host context.
    pub fn deactivate_vmm(&mut self, globals: &mut Globals) -> (r: (&mut V, &mut L))
        ensures
            *final(globals) == (Globals {
                activated_cpus: wrapping_dec(old(globals).activated_cpus),
                ..*old(globals)
            }),
            old(globals).keeps_failure(*final(globals)),
            *r.0 == old(self).vcpu,
            *r.1 == old(self).linux,
            *final(self) == (VmPerCpuData { linux: *final(r.1), vcpu: *final(r.0) }),
    {
        globals.mark_deactivated();
        (&mut self.vcpu, &mut self.linux)
    }

    /// Reports whether the fault was injected into the guest: the outcome
    /// `injected` of the injection is the outcome of the fault handling.
    pub fn fault(&mut self, injected: HvResult) -> (r: HvResult)
        ensures
            r == injected,
            *final(self) == *old(self),
    {
        injected
    }
}

/// The number of CPUs that have entered the hypervisor.
pub fn entered_cpus(globals: &Globals) -> (n: u32)
    ensures
        n == globals.entered_cpus,
{
    globals.entered_cpus
}

/// The number of CPUs that run the guest.
pub fn activated_vm_cpus(globals: &Globals) -> (n: u32)
    ensures
        n == globals.activated_cpus,
{
    globals.activated_cpus
}

/// What the current CPU keeps as a guest CPU, if it is one.
pub fn current_vm_cpu<L, V>(current: &mut PerCpu<L, V>) -> (r: Option<&mut VmPerCpuData<L, V>>)
    ensures
        r is Some <==> old(current).role() == Role::Vm,
        r is None ==> *final(current) == *old(current),
        r matches Some(vm) ==> *vm == old(current).data()->Vm_0 && final(current).data()
            == PerCpuData::Vm(*final(vm)),
        final(current).role() == old(current).role(),
{
    current.vm_cpu()
}

/// What the current CPU keeps as a real-time CPU, if it is one.
pub fn current_rt_cpu<L, V>(current: &mut PerCpu<L, V>) -> (r: Option<&mut RtPerCpuData>)
    ensures
        r is Some <==> old(current).role() == Role::Rt,
        r is None ==> *final(current) == *old(current),
        r matches Some(rt) ==> final(current).data() == PerCpuData::<L, V>::Rt(*final(rt)),
        final(current).role() == old(current).role(),
{
    current.rt_cpu()
}

} // verus!
