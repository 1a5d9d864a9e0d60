//! The bring-up protocol: the barriers on which the CPUs wait for one another,
//! the order of the early initialization, and the steps that take a guest CPU
//! from its entry to the guest.
//!
//! A CPU that waits spins on `wait_for` or `wait_for_counter` until it gets an
//! outcome. A CPU that runs the protocol asks `VmMain::step` what to do next,
//! does it, and reports the outcome to the next call.

use vstd::prelude::*;
use crate::error::{hv_result_err, HvError, HvErrorNum, HvResult};
use crate::globals::{wrapping_inc, Counter, Globals};
use crate::header::HvHeader;

verus! {

/// Whether some CPU has reported a failure.
pub fn has_err(globals: &Globals) -> (b: bool)
    ensures
        b == globals.failed(),
{
    globals.error_num != 0
}

/// The outcome of a wait, given whether some CPU has `failed` and whether the
/// `condition` to wait for still holds: none while the wait goes on, the busy
/// error as soon as a CPU has failed, and success otherwise.
pub open spec fn wait_outcome(failed: bool, condition: bool) -> Option<HvResult> {
    if failed {
        Some(Err(HvError { num: HvErrorNum::EBUSY }))
    } else if condition {
        None
    } else {
        Some(Ok(()))
    }
}

/// One round of a wait while `condition` holds: `None` asks the caller to spin
/// and to call again, and an outcome ends the wait.
pub fn wait_for(globals: &Globals, condition: bool) -> (r: Option<HvResult>)
    ensures
        r == wait_outcome(globals.failed(), condition),
{
    if has_err(globals) {
        Some(hv_result_err(HvErrorNum::EBUSY))
    } else if condition {
        None
    } else {
        Some(Ok(()))
    }
}

/// One round of a wait until `counter` has reached `max_value`.
pub fn wait_for_counter(globals: &Globals, counter: Counter, max_value: u32) -> (r: Option<HvResult>)
    ensures
        r == wait_outcome(globals.failed(), globals.counter(counter) < max_value),
        r is Some <==> globals.counter(counter) >= max_value || globals.failed(),
{
    wait_for(globals, globals.counter(counter) < max_value)
}

/// A step of the early initialization, which the primary CPU runs alone.
#[derive(Clone, Copy, Debug, PartialEq, Eq, Structural)]
pub enum EarlyStep {
    /// Set up the logging.
    Logging,
    /// Read the system configuration and check its signature and revision.
    Config,
    /// Set up the heap.
    Heap,
    /// Set up the frame allocator.
    FrameAllocator,
    /// Build the page table of the hypervisor.
    HvPageTable,
    /// Set up the cells.
    Cells,
    /// Run the early initialization of the architecture.
    Arch,
}

/// What the early initialization does next.
#[derive(Clone, Copy, Debug, PartialEq, Eq)]
pub enum EarlyInit {
    /// Run this step, then report its outcome.
    Run(EarlyStep),
    /// The early initialization has ended with this result.
    Done(HvResult),
}

/// The step that follows `step`, if any.
pub open spec fn early_successor(step: EarlyStep) -> Option<EarlyStep> {
    match step {
        EarlyStep::Logging => Some(EarlyStep::Config),
        EarlyStep::Config => Some(EarlyStep::Heap),
        EarlyStep::Heap => Some(EarlyStep::FrameAllocator),
        EarlyStep::FrameAllocator => Some(EarlyStep::HvPageTable),
        EarlyStep::HvPageTable => Some(EarlyStep::Cells),
        EarlyStep::Cells => Some(EarlyStep::Arch),
        EarlyStep::Arch => None,
    }
}

/// What the early initialization does after the step `done` has ended with
/// `outcome`, or at its start where `done` is none: it begins with the first
/// step, ends with the error of a step that failed, and goes on to the next step
/// otherwise, until none is left.
pub open spec fn early_next(done: Option<EarlyStep>, outcome: HvResult) -> EarlyInit {
    match done {
        None => EarlyInit::Run(EarlyStep::Logging),
        Some(step) => match outcome {
            Err(e) => EarlyInit::Done(Err(e)),
            Ok(()) => match early_successor(step) {
                Some(next) => EarlyInit::Run(next),
                None => EarlyInit::Done(Ok(())),
            },
        },
    }
}

/// Drives the early initialization of the primary CPU. When the last step has
/// succeeded, the flag that the secondary CPUs wait for is set.
pub fn primary_init_early(globals: &mut Globals, done: Option<EarlyStep>, outcome: HvResult) -> (r:
    EarlyInit)
    ensures
        r == early_next(done, outcome),
        old(globals).keeps_failure(*final(globals)),
        r == EarlyInit::Done(Ok(())) ==> *final(globals) == (Globals {
            init_early_ok: 1,
            ..*old(globals)
        }),
        r != EarlyInit::Done(Ok(())) ==> *final(globals) == *old(globals),
{
    let step = match done {
        None => {
            return EarlyInit::Run(EarlyStep::Logging);
        },
        Some(step) => step,
    };
    match outcome {
        Err(e) => {
            return EarlyInit::Done(Err(e));
        },
        Ok(()) => {},
    }
    match step {
        EarlyStep::Logging => EarlyInit::Run(EarlyStep::Config),
        EarlyStep::Config => EarlyInit::Run(EarlyStep::Heap),
        EarlyStep::Heap => EarlyInit::Run(EarlyStep::FrameAllocator),
        EarlyStep::FrameAllocator => EarlyInit::Run(EarlyStep::HvPageTable),
        EarlyStep::HvPageTable => EarlyInit::Run(EarlyStep::Cells),
        EarlyStep::Cells => EarlyInit::Run(EarlyStep::Arch),
        EarlyStep::Arch => {
            globals.release_init_early();
            EarlyInit::Done(Ok(()))
        },
    }
}

/// Ends the late initialization of the primary CPU, in which the real-time CPUs
/// were started with the outcome `started`: on success the flag that the
/// secondary CPUs wait for is set, and the outcome is handed on.
pub fn primary_init_late(globals: &mut Globals, started: HvResult) -> (r: HvResult)
    ensures
        r == started,
        old(globals).keeps_failure(*final(globals)),
        started is Ok ==> *final(globals) == (Globals { init_late_ok: 1, ..*old(globals) }),
        started is Err ==> *final(globals) == *old(globals),
{
    match started {
        Ok(()) => {
            globals.release_init_late();
        },
        Err(_) => {},
    }
    started
}

/// Where a guest CPU stands in its bring-up.
#[derive(Clone, Copy, Debug, PartialEq, Eq)]
pub enum VmStage {
    /// The CPU has entered and has not taken a step yet.
    Entered,
    /// The CPU waits until all guest CPUs have entered.
    AwaitEntered,
    /// The primary CPU runs the early initialization; a secondary CPU waits for
    /// it.
    Early,
    /// The CPU runs its per-CPU initialization.
    PerCpu,
    /// The CPU waits until all guest CPUs have run their per-CPU initialization.
    AwaitInited,
    /// The primary CPU runs the late initialization; a secondary CPU waits for
    /// it.
    Late,
    /// The CPU enters the guest.
    Activate,
    /// The bring-up of the CPU has ended with this result.
    Finished(HvResult),
}

/// What a guest CPU does next.
#[derive(Clone, Copy, Debug, PartialEq, Eq)]
pub enum VmAction {
    /// Wait until `counter` has reached `target`.
    Wait { counter: Counter, target: u32 },
    /// Run the early initialization.
    PrimaryInitEarly,
    /// Run the per-CPU initialization, which makes the CPU a guest CPU.
    InitVmCpu,
    /// Run the late initialization.
    PrimaryInitLate,
    /// Enter the guest.
    ActivateVmm,
    /// Return to the host driver with this result.
    Return(HvResult),
}

/// The bring-up of one guest CPU.
#[derive(Clone, Copy, Debug, PartialEq, Eq)]
pub struct VmMain {
    pub cpu_id: u32,
    pub vm_cpus: u32,
    pub stage: VmStage,
}

impl VmMain {
    /// The bring-up of the CPU `cpu_id` of an image with the header `header`.
    pub fn new(cpu_id: u32, header: &HvHeader) -> (vm: VmMain)
        ensures
            vm == (VmMain { cpu_id, vm_cpus: header.vm_cpus(), stage: VmStage::Entered }),
    {
        VmMain { cpu_id, vm_cpus: header.vm_cpus(), stage: VmStage::Entered }
    }

    /// Whether the CPU is the primary one: the CPU with the id 0.
    pub open spec fn spec_is_primary(&self) -> bool {
        self.cpu_id == 0
    }

    #[verifier::when_used_as_spec(spec_is_primary)]
    pub fn is_primary(&self) -> (b: bool)
        ensures
            b == self.is_primary(),
    {
        self.cpu_id == 0
    }

    /// The stage that follows `self.stage` when the action of that stage has
    /// succeeded.
    pub open spec fn successor(&self) -> VmStage {
        match self.stage {
            VmStage::Entered => VmStage::AwaitEntered,
            VmStage::AwaitEntered => VmStage::Early,
            VmStage::Early => VmStage::PerCpu,
            VmStage::PerCpu => VmStage::AwaitInited,
            VmStage::AwaitInited => VmStage::Late,
            VmStage::Late => VmStage::Activate,
            VmStage::Activate => VmStage::Finished(Ok(())),
            VmStage::Finished(r) => VmStage::Finished(r),
        }
    }

    /// The stage that the CPU is in after the action of `self.stage` has ended
    /// with `outcome`: the successor on success, and the end of the bring-up on a
    /// failure. The first step reports no action, and a bring-up that has ended
    /// stays as it is.
    pub open spec fn next_stage(&self, outcome: HvResult) -> VmStage {
        match self.stage {
            VmStage::Entered => VmStage::AwaitEntered,
            VmStage::Finished(r) => VmStage::Finished(r),
            _ => match outcome {
                Ok(()) => self.successor(),
                Err(e) => VmStage::Finished(Err(e)),
            },
        }
    }

    /// What a CPU does when it has come to `stage`.
    pub open spec fn action_at(&self, stage: VmStage) -> VmAction {
        match stage {
            VmStage::Entered | VmStage::AwaitEntered => VmAction::Wait {
                counter: Counter::EnteredCpus,
                target: self.vm_cpus,
            },
            VmStage::Early => if self.is_primary() {
                VmAction::PrimaryInitEarly
            } else {
                VmAction::Wait { counter: Counter::InitEarlyOk, target: 1 }
            },
            VmStage::PerCpu => VmAction::InitVmCpu,
            VmStage::AwaitInited => VmAction::Wait {
                counter: Counter::InitedCpus,
                target: self.vm_cpus,
            },
            VmStage::Late => if self.is_primary() {
                VmAction::PrimaryInitLate
            } else {
                VmAction::Wait { counter: Counter::InitLateOk, target: 1 }
            },
            VmStage::Activate => VmAction::ActivateVmm,
            VmStage::Finished(r) => VmAction::Return(r),
        }
    }

    /// Whether the step from the stage `self.stage` on the success of its action
    /// counts the CPU as initialized.
    pub open spec fn counts_inited(&self, outcome: HvResult) -> bool {
        self.stage == VmStage::PerCpu && outcome is Ok
    }

    /// Takes the CPU one step further. `outcome` is the outcome of the action
    /// that the step before asked for; the first step ignores it. The step that
    /// follows the per-CPU initialization counts the CPU as initialized.
    pub fn step(&mut self, globals: &mut Globals, outcome: HvResult) -> (action: VmAction)
        ensures
            final(self).cpu_id == old(self).cpu_id,
            final(self).vm_cpus == old(self).vm_cpus,
            final(self).stage == old(self).next_stage(outcome),
            action == final(self).action_at(final(self).stage),
            old(globals).keeps_failure(*final(globals)),
            old(self).counts_inited(outcome) ==> *final(globals) == (Globals {
                inited_cpus: wrapping_inc(old(globals).inited_cpus),
                ..*old(globals)
            }),
            !old(self).counts_inited(outcome) ==> *final(globals) == *old(globals),
    {
        let next = match self.stage {
            VmStage::Entered => VmStage::AwaitEntered,
            VmStage::Finished(r) => VmStage::Finished(r),
            stage => match outcome {
                Err(e) => VmStage::Finished(Err(e)),
                Ok(()) => match stage {
                    VmStage::AwaitEntered => VmStage::Early,
                    VmStage::Early => VmStage::PerCpu,
                    VmStage::PerCpu => {
                        globals.mark_inited();
                        VmStage::AwaitInited
                    },
                    VmStage::AwaitInited => VmStage::Late,
                    VmStage::Late => VmStage::Activate,
                    _ => VmStage::Finished(Ok(())),
                },
            },
        };
        self.stage = next;
        let primary = self.is_primary();
        match next {
            VmStage::Entered | VmStage::AwaitEntered => VmAction::Wait {
                counter: Counter::EnteredCpus,
                target: self.vm_cpus,
            },
            VmStage::Early => if primary {
                VmAction::PrimaryInitEarly
            } else {
                VmAction::Wait { counter: Counter::InitEarlyOk, target: 1 }
            },
            VmStage::PerCpu => VmAction::InitVmCpu,
            VmStage::AwaitInited => VmAction::Wait {
                counter: Counter::InitedCpus,
                target: self.vm_cpus,
            },
            VmStage::Late => if primary {
                VmAction::PrimaryInitLate
            } else {
                VmAction::Wait { counter: Counter::InitLateOk, target: 1 }
            },
            VmStage::Activate => VmAction::ActivateVmm,
            VmStage::Finished(r) => VmAction::Return(r),
        }
    }
}

/// The code that a CPU returns to the host driver when it ends its bring-up
/// with `result` in the state `globals`: the code of its own failure, or else
/// the code that was recorded before.
pub open spec fn exit_code(globals: Globals, result: HvResult) -> i32 {
    match result {
        Err(e) => e.code(),
        Ok(()) => globals.error_num,
    }
}

/// Ends the bring-up of a guest CPU that came to `result`: a failure is
/// recorded for the other CPUs to see, and the code to return to the host driver
/// is the recorded one, which is zero only if no CPU has failed.
pub fn vm_cpu_entry(globals: &mut Globals, result: HvResult) -> (code: i32)
    ensures
        result matches Err(e) ==> *final(globals) == (Globals {
            error_num: e.code(),
            ..*old(globals)
        }),
        result is Ok ==> *final(globals) == *old(globals),
        code == final(globals).error_num,
        code == exit_code(*old(globals), result),
        code == 0 <==> result is Ok && !old(globals).failed(),
        old(globals).keeps_failure(*final(globals)),
{
    match result {
        Err(e) => {
            globals.latch_error(e);
        },
        Ok(()) => {},
    }
    globals.error_num
}

/// What a real-time CPU does after its initialization.
#[derive(Clone, Copy, Debug, PartialEq, Eq, Structural)]
pub enum RtAction {
    /// Spin: the CPU is a real-time CPU from now on.
    Idle,
    /// Halt the CPU: it cannot go on.
    Halt,
}

/// Ends the bring-up of a real-time CPU whose initialization came to `inited`.
/// A failure is recorded for the other CPUs to see, and the CPU halts; after a
/// success the CPU spins. In neither case does the CPU return.
pub fn rt_main(globals: &mut Globals, inited: HvResult) -> (action: RtAction)
    ensures
        inited is Ok ==> action == RtAction::Idle && *final(globals) == *old(globals),
        inited matches Err(e) ==> action == RtAction::Halt && *final(globals) == (Globals {
            error_num: e.code(),
            ..*old(globals)
        }),
        old(globals).keeps_failure(*final(globals)),
{
    match inited {
        Ok(()) => RtAction::Idle,
        Err(e) => {
            globals.latch_error(e);
            RtAction::Halt
        },
    }
}

/// The barrier at the entry releases a guest CPU exactly when as many CPUs have
/// entered as the image has guest CPUs, or when a CPU has failed; the barrier
/// after the per-CPU initialization does so when as many CPUs are initialized.
/// A barrier lets a CPU go on with success only if no CPU has failed.
pub proof fn lemma_barriers_release(vm: VmMain, globals: Globals)
    ensures
        forall|condition: bool|
            wait_outcome(globals.failed(), condition) == Some(Ok::<(), HvError>(())) <==> !condition
                && !globals.failed(),
        vm.action_at(VmStage::AwaitEntered) == (VmAction::Wait {
            counter: Counter::EnteredCpus,
            target: vm.vm_cpus,
        }),
        wait_outcome(globals.failed(), globals.counter(Counter::EnteredCpus) < vm.vm_cpus)
            is Some <==> globals.entered_cpus >= vm.vm_cpus || globals.error_num != 0,
        vm.action_at(VmStage::AwaitInited) == (VmAction::Wait {
            counter: Counter::InitedCpus,
            target: vm.vm_cpus,
        }),
        wait_outcome(globals.failed(), globals.counter(Counter::InitedCpus) < vm.vm_cpus)
            is Some <==> globals.inited_cpus >= vm.vm_cpus || globals.error_num != 0,
{
}

/// Once a CPU has failed, every wait ends in its next round with the busy
/// error, whatever it waits for, and a CPU that ends its bring-up returns a code
/// other than zero, whatever its own result.
pub proof fn lemma_failure_is_sticky(globals: Globals, condition: bool, result: HvResult)
    requires
        globals.failed(),
    ensures
        wait_outcome(globals.failed(), condition) == Some(
            Err::<(), HvError>(HvError { num: HvErrorNum::EBUSY }),
        ),
        exit_code(globals, result) != 0,
{
}

/// A guest CPU passes the stages in their order, each on the success of the one
/// before: a step leads to a stage from its predecessor alone, and only on
/// success. So the primary CPU starts the real-time CPUs only after its own
/// per-CPU initialization, and no CPU enters the guest before the late
/// initialization. A failure at any stage ends the bring-up with that failure.
pub proof fn lemma_stages_in_order(vm: VmMain, outcome: HvResult)
    ensures
        vm.next_stage(outcome) == VmStage::AwaitEntered <==> vm.stage == VmStage::Entered,
        vm.next_stage(outcome) == VmStage::Early <==> vm.stage == VmStage::AwaitEntered
            && outcome is Ok,
        vm.next_stage(outcome) == VmStage::PerCpu <==> vm.stage == VmStage::Early && outcome is Ok,
        vm.next_stage(outcome) == VmStage::AwaitInited <==> vm.stage == VmStage::PerCpu
            && outcome is Ok,
        vm.next_stage(outcome) == VmStage::Late <==> vm.stage == VmStage::AwaitInited
            && outcome is Ok,
        vm.next_stage(outcome) == VmStage::Activate <==> vm.stage == VmStage::Late && outcome is Ok,
        vm.next_stage(outcome) != VmStage::Entered,
        (vm.stage != VmStage::Entered && !(vm.stage is Finished) && outcome is Err)
            ==> vm.next_stage(outcome) == VmStage::Finished(outcome),
{
}

} // verus!
