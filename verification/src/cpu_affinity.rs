//! The CPU-affinity configurator.
//!
//! Before any packet reaches the classifier, every online CPU must be a
//! valid redirection target and each CPU needs its base transmit-queue
//! configuration entry, with the OS's automatic transmit-queue steering
//! disabled so the explicit assignment stays authoritative.  The plan and
//! the step order are decided here; the kernel-map writes and the steering
//! toggle are performed by the unverified shell.  There is no safe
//! partially-configured state: any failed step is fatal.

use vstd::prelude::*;

verus! {

/// Why CPU-affinity configuration failed.
#[derive(Clone, Copy, Debug, PartialEq, Eq, Structural)]
pub enum ConfigError {
    /// The conflicting automatic steering mechanism could not be disabled.
    SteeringDisableFailed,
    /// Some CPU could not be marked as a redirection target.
    MarkCpuFailed,
    /// Some CPU's base transmit-queue entry could not be written.
    QueueEntryFailed,
}

/// The ordered CPU-to-queue assignment pushed into the kernel-resident
/// configuration map: entry `i` is the transmit queue of logical CPU `i`.
/// Computed once per attachment and never mutated after the program is
/// live.
pub struct CpuAssignment {
    pub queues: Vec<u32>,
}

/// The base assignment: one entry per online CPU, each CPU steered to the
/// queue of its own index.
pub fn plan_assignment(num_cpus: u32) -> (a: CpuAssignment)
    ensures
        a.queues@.len() == num_cpus,
        forall|i: int| 0 <= i < num_cpus ==> a.queues@[i] == i,
{
    let mut queues: Vec<u32> = Vec::new();
    let mut i: u32 = 0;
    while i < num_cpus
        invariant
            0 <= i <= num_cpus,
            queues@.len() == i,
            forall|j: int| 0 <= j < i ==> queues@[j] == j,
        decreases num_cpus - i,
    {
        queues.push(i);
        i += 1;
    }
    CpuAssignment { queues }
}

/// The step the shell must perform next while configuring, or a terminal
/// state.
#[derive(Clone, Copy, Debug, PartialEq, Eq, Structural)]
pub enum CpuConfigPhase {
    /// Disable the OS's automatic transmit-queue steering on the
    /// interface.
    DisableSteering,
    /// Mark the CPU with this index as a valid redirection target.
    MarkCpu(u32),
    /// Write the base transmit-queue entry of the CPU with this index.
    WriteQueueEntry(u32),
    /// Configuration ran to completion.
    Done,
    /// Configuration failed; the partial state is not safe and the
    /// attachment must treat it as fatal.
    Failed(ConfigError),
}

/// The CPU-affinity configuration state machine.
pub struct CpuConfigMachine {
    /// The number of online CPUs discovered at process start.
    pub num_cpus: u32,
    /// The next step, or a terminal state.
    pub phase: CpuConfigPhase,
}

/// The transition function: steering is disabled first, then every CPU is
/// marked, then every CPU's queue entry is written; the first failure of
/// any step is fatal.
pub open spec fn spec_config_advance(m: CpuConfigMachine, ok: bool) -> CpuConfigMachine {
    match m.phase {
        CpuConfigPhase::DisableSteering => if !ok {
            CpuConfigMachine {
                phase: CpuConfigPhase::Failed(ConfigError::SteeringDisableFailed),
                ..m
            }
        } else if m.num_cpus == 0 {
            CpuConfigMachine { phase: CpuConfigPhase::Done, ..m }
        } else {
            CpuConfigMachine { phase: CpuConfigPhase::MarkCpu(0), ..m }
        },
        CpuConfigPhase::MarkCpu(i) => if !ok {
            CpuConfigMachine { phase: CpuConfigPhase::Failed(ConfigError::MarkCpuFailed), ..m }
        } else if i + 1 < m.num_cpus {
            CpuConfigMachine { phase: CpuConfigPhase::MarkCpu((i + 1) as u32), ..m }
        } else {
            CpuConfigMachine { phase: CpuConfigPhase::WriteQueueEntry(0), ..m }
        },
        CpuConfigPhase::WriteQueueEntry(i) => if !ok {
            CpuConfigMachine { phase: CpuConfigPhase::Failed(ConfigError::QueueEntryFailed), ..m }
        } else if i + 1 < m.num_cpus {
            CpuConfigMachine { phase: CpuConfigPhase::WriteQueueEntry((i + 1) as u32), ..m }
        } else {
            CpuConfigMachine { phase: CpuConfigPhase::Done, ..m }
        },
        CpuConfigPhase::Done => m,
        CpuConfigPhase::Failed(_) => m,
    }
}

impl CpuConfigMachine {
    /// Starts configuration for an interface with `num_cpus` online CPUs.
    pub fn start(num_cpus: u32) -> (m: CpuConfigMachine)
        ensures
            m.num_cpus == num_cpus,
            m.phase == CpuConfigPhase::DisableSteering,
    {
        CpuConfigMachine { num_cpus, phase: CpuConfigPhase::DisableSteering }
    }

    /// Feeds the outcome of the current step to the machine.
    pub fn advance(self, ok: bool) -> (r: CpuConfigMachine)
        ensures
            r == spec_config_advance(self, ok),
    {
        let mut m = self;
        match m.phase {
            CpuConfigPhase::DisableSteering => {
                if !ok {
                    m.phase = CpuConfigPhase::Failed(ConfigError::SteeringDisableFailed);
                } else if m.num_cpus == 0 {
                    m.phase = CpuConfigPhase::Done;
                } else {
                    m.phase = CpuConfigPhase::MarkCpu(0);
                }
            },
            CpuConfigPhase::MarkCpu(i) => {
                if !ok {
                    m.phase = CpuConfigPhase::Failed(ConfigError::MarkCpuFailed);
                } else if (i as u64) + 1 < (m.num_cpus as u64) {
                    m.phase = CpuConfigPhase::MarkCpu(i + 1);
                } else {
                    m.phase = CpuConfigPhase::WriteQueueEntry(0);
                }
            },
            CpuConfigPhase::WriteQueueEntry(i) => {
                if !ok {
                    m.phase = CpuConfigPhase::Failed(ConfigError::QueueEntryFailed);
                } else if (i as u64) + 1 < (m.num_cpus as u64) {
                    m.phase = CpuConfigPhase::WriteQueueEntry(i + 1);
                } else {
                    m.phase = CpuConfigPhase::Done;
                }
            },
            CpuConfigPhase::Done => {},
            CpuConfigPhase::Failed(_) => {},
        }
        m
    }
}

/// Completion requires every step: configuration only reaches `Done`
/// through a successful step, and any failed step lands in the fatal
/// `Failed` state — there is no transition that skips a CPU or tolerates
/// a partial configuration.
pub proof fn lemma_any_failure_is_fatal(m: CpuConfigMachine)
    requires
        !(m.phase is Done) && !(m.phase is Failed),
    ensures
        spec_config_advance(m, false).phase is Failed,
{
}

} // verus!
