//! The state that all CPUs share during bring-up.
//!
//! Every CPU sees one `Globals`. The embedding program keeps it where all CPUs
//! reach it and lets one CPU at a time read or change it, so each function here
//! acts on it as one indivisible step.

use vstd::prelude::*;
use crate::error::HvError;

verus! {

/// The counters, the two flags and the error latch of the bring-up.
#[derive(Clone, Copy, Debug, PartialEq, Eq, Structural)]
pub struct Globals {
    /// Number of CPUs that have entered the hypervisor.
    pub entered_cpus: u32,
    /// Number of CPUs that run the guest.
    pub activated_cpus: u32,
    /// Number of CPUs that have completed their per-CPU initialization.
    pub inited_cpus: u32,
    /// Non-zero once the primary CPU has completed the early initialization.
    pub init_early_ok: u32,
    /// Non-zero once the primary CPU has completed the late initialization.
    pub init_late_ok: u32,
    /// Zero while the bring-up is healthy, else the code of the latest failure.
    pub error_num: i32,
}

/// A counter of the shared state that a CPU can wait on.
#[derive(Clone, Copy, Debug, PartialEq, Eq, Structural)]
pub enum Counter {
    EnteredCpus,
    InitedCpus,
    InitEarlyOk,
    InitLateOk,
}

/// `n + 1`, wrapping to zero past the largest value.
pub open spec fn wrapping_inc(n: u32) -> u32 {
    if n == u32::MAX {
        0
    } else {
        (n + 1) as u32
    }
}

/// `n - 1`, wrapping to the largest value below zero.
pub open spec fn wrapping_dec(n: u32) -> u32 {
    if n == 0 {
        u32::MAX
    } else {
        (n - 1) as u32
    }
}

impl Globals {
    /// Whether `next` can follow `self` in a bring-up as far as the error latch
    /// goes: a failure that was recorded stays recorded.
    pub open spec fn keeps_failure(&self, next: Globals) -> bool {
        self.failed() ==> next.failed()
    }

    /// The state before any CPU has entered.
    pub fn new() -> (g: Globals)
        ensures
            g == (Globals {
                entered_cpus: 0,
                activated_cpus: 0,
                inited_cpus: 0,
                init_early_ok: 0,
                init_late_ok: 0,
                error_num: 0,
            }),
    {
        Globals {
            entered_cpus: 0,
            activated_cpus: 0,
            inited_cpus: 0,
            init_early_ok: 0,
            init_late_ok: 0,
            error_num: 0,
        }
    }

    /// Whether some CPU has reported a failure.
    pub open spec fn failed(&self) -> bool {
        self.error_num != 0
    }

    /// The value of `counter`.
    pub open spec fn spec_counter(&self, counter: Counter) -> u32 {
        match counter {
            Counter::EnteredCpus => self.entered_cpus,
            Counter::InitedCpus => self.inited_cpus,
            Counter::InitEarlyOk => self.init_early_ok,
            Counter::InitLateOk => self.init_late_ok,
        }
    }

    #[verifier::when_used_as_spec(spec_counter)]
    pub fn counter(&self, counter: Counter) -> (n: u32)
        ensures
            n == self.spec_counter(counter),
    {
        match counter {
            Counter::EnteredCpus => self.entered_cpus,
            Counter::InitedCpus => self.inited_cpus,
            Counter::InitEarlyOk => self.init_early_ok,
            Counter::InitLateOk => self.init_late_ok,
        }
    }

    /// Takes the next CPU id: returns the number of CPUs entered so far and
    /// counts one more.
    pub fn enter(&mut self) -> (cpu_id: u32)
        ensures
            cpu_id == old(self).entered_cpus,
            *final(self) == (Globals { entered_cpus: wrapping_inc(cpu_id), ..*old(self) }),
            old(self).keeps_failure(*final(self)),
    {
        let cpu_id = self.entered_cpus;
        self.entered_cpus = if cpu_id == u32::MAX {
            0
        } else {
            cpu_id + 1
        };
        cpu_id
    }

    /// Counts one more CPU that has completed its per-CPU initialization.
    pub fn mark_inited(&mut self)
        ensures
            *final(self) == (Globals {
                inited_cpus: wrapping_inc(old(self).inited_cpus),
                ..*old(self)
            }),
            old(self).keeps_failure(*final(self)),
    {
        self.inited_cpus = if self.inited_cpus == u32::MAX {
            0
        } else {
            self.inited_cpus + 1
        };
    }

    /// Counts one more CPU that runs the guest.
    pub fn mark_activated(&mut self)
        ensures
            *final(self) == (Globals {
                activated_cpus: wrapping_inc(old(self).activated_cpus),
                ..*old(self)
            }),
            old(self).keeps_failure(*final(self)),
    {
        self.activated_cpus = if self.activated_cpus == u32::MAX {
            0
        } else {
            self.activated_cpus + 1
        };
    }

    /// Counts one CPU less that runs the guest.
    pub fn mark_deactivated(&mut self)
        ensures
            *final(self) == (Globals {
                activated_cpus: wrapping_dec(old(self).activated_cpus),
                ..*old(self)
            }),
            old(self).keeps_failure(*final(self)),
    {
        self.activated_cpus = if self.activated_cpus == 0 {
            u32::MAX
        } else {
            self.activated_cpus - 1
        };
    }

    /// Sets the flag that the secondary CPUs wait for before their per-CPU
    /// initialization.
    pub fn release_init_early(&mut self)
        ensures
            *final(self) == (Globals { init_early_ok: 1, ..*old(self) }),
            old(self).keeps_failure(*final(self)),
    {
        self.init_early_ok = 1;
    }

    /// Sets the flag that the secondary CPUs wait for before they activate.
    pub fn release_init_late(&mut self)
        ensures
            *final(self) == (Globals { init_late_ok: 1, ..*old(self) }),
            old(self).keeps_failure(*final(self)),
    {
        self.init_late_ok = 1;
    }

    /// Records the failure `e`. The latch is never cleared: the code of an error
    /// is not zero.
    pub fn latch_error(&mut self, e: HvError)
        ensures
            *final(self) == (Globals { error_num: e.code(), ..*old(self) }),
            final(self).failed(),
    {
        self.error_num = e.code();
    }
}

/// A failure is never cleared: in a history of the shared state in which each
/// state follows the one before by a step that keeps a recorded failure, a state
/// that has failed is followed by failed states only.
pub proof fn lemma_failure_stays(history: Seq<Globals>, i: int, j: int)
    requires
        forall|k: int|
            0 <= k < history.len() - 1 ==> (#[trigger] history[k]).keeps_failure(history[k + 1]),
        0 <= i <= j < history.len(),
        history[i].failed(),
    ensures
        history[j].failed(),
    decreases j - i,
{
    if i < j {
        lemma_failure_stays(history, i, j - 1);
        assert(history[j - 1].keeps_failure(history[j - 1 + 1]));
    }
}

} // verus!
