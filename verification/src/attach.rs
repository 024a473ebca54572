//! The interface-attachment state machine.
//!
//! Attaching the packet program to an interface is a fixed sequence of
//! privileged, partially-transactional steps: privilege check, interface
//! resolution, strict-mode program load, a capability fallback ladder for
//! the ingress filter, CPU-affinity configuration, classifier hooks, the
//! sampled-event channel, and an optional bridging stage.  The sequence
//! itself is decided here; each outside operation (a system call, a
//! subprocess, a program load) is performed by an unverified driver that
//! reports its outcome back and asks for the next step.
//!
//! The machine is linear: every transition either moves forward, walks one
//! rung down the fallback ladder, or fails with the error that the failed
//! step demands.  Terminal states never move again.

use vstd::prelude::*;
use crate::config_region::{
    ConfigRegion, InterfaceDirection, spec_encode_region, spec_decode_region, encode_region,
    lemma_config_region_roundtrip,
};

verus! {

/// Why an attachment attempt failed.  Each variant names a different
/// operator action: privilege, configuration, and build-compatibility
/// problems must stay distinguishable.
#[derive(Clone, Copy, Debug, PartialEq, Eq, Structural)]
pub enum AttachError {
    /// Not running with root-equivalent privilege; nothing was touched.
    PermissionDenied,
    /// The interface name does not resolve to a live interface.
    UnknownInterface,
    /// Strict program verification could not be enabled; loading with
    /// relaxed verification is never permitted.
    StrictModeUnavailable,
    /// The compiled program image failed to open or load: a build or
    /// version mismatch, never retried automatically.
    KernelProgramRejected,
    /// Every rung of the capability fallback ladder failed.
    AttachTiersExhausted,
    /// CPU-affinity configuration failed; there is no safe partially
    /// configured state.
    CpuConfigFailed,
    /// The egress classifier hook could not be installed or attached.
    ClassifierAttachFailed,
    /// The sampled-event channel is missing or failed to open; sampling is
    /// a required capability.
    EventChannelUnavailable,
    /// A bridging step failed; the interface is left egress-only.
    BridgingFailed,
}

/// Why a detachment attempt failed.
#[derive(Clone, Copy, Debug, PartialEq, Eq, Structural)]
pub enum DetachError {
    /// Not running with root-equivalent privilege.
    PermissionDenied,
    /// The interface name does not resolve to a live interface.
    UnknownInterface,
    /// The ingress filter was present but could not be removed.
    IngressDetachFailed,
}

/// The capability tiers for attaching the ingress filter, from the most
/// performant to the most compatible.
#[derive(Clone, Copy, Debug, PartialEq, Eq, Structural)]
pub enum XdpMode {
    /// Hardware-offloaded execution.
    Hardware,
    /// Driver-native execution.
    Driver,
    /// Generic software ("SKB") execution.
    Skb,
    /// A final attempt with no mode flag at all.
    Unflagged,
}

/// The tier tried after `m` fails, or `None` once the ladder is exhausted.
pub open spec fn spec_next_mode(m: XdpMode) -> Option<XdpMode> {
    match m {
        XdpMode::Hardware => Some(XdpMode::Driver),
        XdpMode::Driver => Some(XdpMode::Skb),
        XdpMode::Skb => Some(XdpMode::Unflagged),
        XdpMode::Unflagged => None,
    }
}

/// The tier tried after `m` fails.
pub fn next_mode(m: XdpMode) -> (r: Option<XdpMode>)
    ensures
        r == spec_next_mode(m),
{
    match m {
        XdpMode::Hardware => Some(XdpMode::Driver),
        XdpMode::Driver => Some(XdpMode::Skb),
        XdpMode::Skb => Some(XdpMode::Unflagged),
        XdpMode::Unflagged => None,
    }
}

/// The full fallback ladder in the order it is walked.
pub open spec fn spec_fallback_ladder() -> Seq<XdpMode> {
    seq![XdpMode::Hardware, XdpMode::Driver, XdpMode::Skb, XdpMode::Unflagged]
}

/// The fallback ladder as data, in the order it is walked.
pub fn fallback_ladder() -> (v: Vec<XdpMode>)
    ensures
        v@ =~= spec_fallback_ladder(),
{
    let mut v: Vec<XdpMode> = Vec::new();
    v.push(XdpMode::Hardware);
    v.push(XdpMode::Driver);
    v.push(XdpMode::Skb);
    v.push(XdpMode::Unflagged);
    v
}

/// The ladder starts at the hardware tier and each failure moves exactly
/// one rung down, ending after the unflagged attempt.
pub proof fn lemma_ladder_is_the_mode_order()
    ensures
        spec_fallback_ladder().len() == 4,
        spec_fallback_ladder()[0] == XdpMode::Hardware,
        forall|i: int|
            0 <= i < 3 ==> spec_next_mode(spec_fallback_ladder()[i])
                == Some(spec_fallback_ladder()[i + 1]),
        spec_next_mode(spec_fallback_ladder()[3]) is None,
{
    assert(spec_next_mode(spec_fallback_ladder()[0]) == Some(spec_fallback_ladder()[1]));
    assert(spec_next_mode(spec_fallback_ladder()[1]) == Some(spec_fallback_ladder()[2]));
    assert(spec_next_mode(spec_fallback_ladder()[2]) == Some(spec_fallback_ladder()[3]));
}

/// The step the driver must perform next, or a terminal state.
#[derive(Clone, Copy, Debug, PartialEq, Eq, Structural)]
pub enum AttachPhase {
    /// Confirm root-equivalent privilege (read-only).
    CheckPrivilege,
    /// Resolve the interface name to its index (read-only).
    ResolveInterface,
    /// Enable strict program verification, globally.
    EnableStrictMode,
    /// Open the compiled program image.
    OpenProgram,
    /// Record direction and VLAN tags in the shared configuration region,
    /// before the program can go live.
    WriteConfigRegion,
    /// Load the opened program.
    LoadProgram,
    /// Best-effort removal of any stale prior attachment.
    CleanStaleAttachment,
    /// Attach the ingress filter at the given capability tier.
    AttachIngressFilter(XdpMode),
    /// Run the CPU-affinity configurator, before any classifier exists.
    ConfigureCpuAffinity,
    /// Best-effort removal of a stale egress classifier.
    RemoveStaleEgress,
    /// Remove the OS-level classifier hook; absence is tolerated.
    RemoveClassifierHook,
    /// Register the OS-level classifier hook.
    InstallClassifierHook,
    /// Attach the egress classifier itself.
    AttachEgressClassifier,
    /// Find and open the named sampled-event channel in the loaded program.
    LocateEventChannel,
    /// Hand the channel to the background poller, fire-and-forget.
    StartEventPoller,
    /// Read whether the configuration requests bridging (read-only).
    ReadBridgingConfig,
    /// Enable promiscuous mode on every bridged interface.
    EnablePromiscuousMode,
    /// Clear, then repopulate, the bridging interface and VLAN maps.
    RebuildBridgeMaps,
    /// Attach the ingress classifier.
    AttachIngressClassifier,
    /// The attachment is complete.
    Done,
    /// The attachment failed; no further step is taken.
    Failed(AttachError),
}

/// What the driver reports after performing a step.
#[derive(Clone, Copy, Debug, PartialEq, Eq, Structural)]
pub enum StepOutcome {
    /// The operation succeeded.
    Succeeded,
    /// The operation failed.
    Failed,
    /// Interface resolution succeeded with this (nonzero) index.
    Resolved(u32),
    /// The bridging configuration was read; `true` when bridging is on.
    BridgingEnabled(bool),
    /// A removal found nothing to remove.
    NothingToRemove,
}

/// The attachment state machine: the direction being attached, the
/// configuration region that must be recorded before the program goes
/// live, and which program handles are held so far.
pub struct AttachMachine {
    /// The interface name the attachment is for.
    pub name: String,
    /// The operating direction.
    pub direction: InterfaceDirection,
    /// The configuration region to record at `WriteConfigRegion`.
    pub config: ConfigRegion,
    /// The resolved interface index; zero until resolution succeeds.
    pub if_index: u32,
    /// The next step, or a terminal state.
    pub phase: AttachPhase,
    /// The ingress filter handle is held.
    pub ingress_filter_attached: bool,
    /// The egress classifier handle is held.
    pub egress_classifier_attached: bool,
    /// The ingress classifier handle is held.
    pub ingress_classifier_attached: bool,
}

/// A completed attachment: the binding invariant that no more than one
/// handle of each kind is ever held is carried by the three dedicated
/// slots.  The capability tier that succeeded is deliberately absent: it
/// affects performance, not behavior.
pub struct InterfaceBinding {
    pub name: String,
    pub if_index: u32,
    pub direction: InterfaceDirection,
    pub ingress_filter: bool,
    pub egress_classifier: bool,
    pub ingress_classifier: bool,
}

/// Phases in their fixed order; the ladder's tiers share one position.
pub open spec fn spec_phase_rank(p: AttachPhase) -> int {
    match p {
        AttachPhase::CheckPrivilege => 0,
        AttachPhase::ResolveInterface => 1,
        AttachPhase::EnableStrictMode => 2,
        AttachPhase::OpenProgram => 3,
        AttachPhase::WriteConfigRegion => 4,
        AttachPhase::LoadProgram => 5,
        AttachPhase::CleanStaleAttachment => 6,
        AttachPhase::AttachIngressFilter(_) => 7,
        AttachPhase::ConfigureCpuAffinity => 8,
        AttachPhase::RemoveStaleEgress => 9,
        AttachPhase::RemoveClassifierHook => 10,
        AttachPhase::InstallClassifierHook => 11,
        AttachPhase::AttachEgressClassifier => 12,
        AttachPhase::LocateEventChannel => 13,
        AttachPhase::StartEventPoller => 14,
        AttachPhase::ReadBridgingConfig => 15,
        AttachPhase::EnablePromiscuousMode => 16,
        AttachPhase::RebuildBridgeMaps => 17,
        AttachPhase::AttachIngressClassifier => 18,
        AttachPhase::Done => 19,
        AttachPhase::Failed(_) => 20,
    }
}

/// Whether performing the step of phase `p` changes kernel packet-path or
/// map state.  Privilege and resolution only read; opening the program
/// image and enabling strict mode act on the process, not the kernel.
pub open spec fn spec_step_changes_kernel(p: AttachPhase) -> bool {
    match p {
        AttachPhase::CheckPrivilege => false,
        AttachPhase::ResolveInterface => false,
        AttachPhase::EnableStrictMode => false,
        AttachPhase::OpenProgram => false,
        AttachPhase::WriteConfigRegion => false,
        AttachPhase::LoadProgram => true,
        AttachPhase::CleanStaleAttachment => true,
        AttachPhase::AttachIngressFilter(_) => true,
        AttachPhase::ConfigureCpuAffinity => true,
        AttachPhase::RemoveStaleEgress => true,
        AttachPhase::RemoveClassifierHook => true,
        AttachPhase::InstallClassifierHook => true,
        AttachPhase::AttachEgressClassifier => true,
        AttachPhase::LocateEventChannel => false,
        AttachPhase::StartEventPoller => false,
        AttachPhase::ReadBridgingConfig => false,
        AttachPhase::EnablePromiscuousMode => true,
        AttachPhase::RebuildBridgeMaps => true,
        AttachPhase::AttachIngressClassifier => true,
        AttachPhase::Done => false,
        AttachPhase::Failed(_) => false,
    }
}

/// `m` with only the phase replaced.
pub open spec fn spec_with_phase(m: AttachMachine, p: AttachPhase) -> AttachMachine {
    AttachMachine { phase: p, ..m }
}

/// `m` failed with `e`.
pub open spec fn spec_fail(m: AttachMachine, e: AttachError) -> AttachMachine {
    AttachMachine { phase: AttachPhase::Failed(e), ..m }
}

/// The transition function: given the outcome the driver reports for the
/// current phase's step, the machine's next state.  Terminal states are
/// fixed points.
pub open spec fn spec_advance(m: AttachMachine, o: StepOutcome) -> AttachMachine {
    match m.phase {
        AttachPhase::CheckPrivilege => if o is Succeeded {
            spec_with_phase(m, AttachPhase::ResolveInterface)
        } else {
            spec_fail(m, AttachError::PermissionDenied)
        },
        AttachPhase::ResolveInterface => match o {
            StepOutcome::Resolved(i) => AttachMachine {
                if_index: i,
                phase: AttachPhase::EnableStrictMode,
                ..m
            },
            _ => spec_fail(m, AttachError::UnknownInterface),
        },
        AttachPhase::EnableStrictMode => if o is Succeeded {
            spec_with_phase(m, AttachPhase::OpenProgram)
        } else {
            spec_fail(m, AttachError::StrictModeUnavailable)
        },
        AttachPhase::OpenProgram => if o is Succeeded {
            spec_with_phase(m, AttachPhase::WriteConfigRegion)
        } else {
            spec_fail(m, AttachError::KernelProgramRejected)
        },
        // Recording the configuration is a plain memory write; it cannot
        // fail, and the program must not go live without it.
        AttachPhase::WriteConfigRegion => spec_with_phase(m, AttachPhase::LoadProgram),
        AttachPhase::LoadProgram => if o is Succeeded {
            spec_with_phase(m, AttachPhase::CleanStaleAttachment)
        } else {
            spec_fail(m, AttachError::KernelProgramRejected)
        },
        // Best-effort: "nothing to detach" is not an error, and neither is
        // a failed removal; the ladder is entered either way, at the top.
        AttachPhase::CleanStaleAttachment => spec_with_phase(
            m,
            AttachPhase::AttachIngressFilter(XdpMode::Hardware),
        ),
        AttachPhase::AttachIngressFilter(mode) => if o is Succeeded {
            AttachMachine {
                ingress_filter_attached: true,
                phase: AttachPhase::ConfigureCpuAffinity,
                ..m
            }
        } else {
            match spec_next_mode(mode) {
                Some(next) => spec_with_phase(m, AttachPhase::AttachIngressFilter(next)),
                None => spec_fail(m, AttachError::AttachTiersExhausted),
            }
        },
        AttachPhase::ConfigureCpuAffinity => if o is Succeeded {
            spec_with_phase(m, AttachPhase::RemoveStaleEgress)
        } else {
            spec_fail(m, AttachError::CpuConfigFailed)
        },
        // Best-effort: it is fine to have nothing to detach.
        AttachPhase::RemoveStaleEgress => spec_with_phase(m, AttachPhase::RemoveClassifierHook),
        // Tolerated: the hook may not exist yet.
        AttachPhase::RemoveClassifierHook => spec_with_phase(m, AttachPhase::InstallClassifierHook),
        AttachPhase::InstallClassifierHook => if o is Succeeded {
            spec_with_phase(m, AttachPhase::AttachEgressClassifier)
        } else {
            spec_fail(m, AttachError::ClassifierAttachFailed)
        },
        AttachPhase::AttachEgressClassifier => if o is Succeeded {
            AttachMachine {
                egress_classifier_attached: true,
                phase: AttachPhase::LocateEventChannel,
                ..m
            }
        } else {
            spec_fail(m, AttachError::ClassifierAttachFailed)
        },
        AttachPhase::LocateEventChannel => if o is Succeeded {
            spec_with_phase(m, AttachPhase::StartEventPoller)
        } else {
            spec_fail(m, AttachError::EventChannelUnavailable)
        },
        // Fire-and-forget: starting the poller does not block or fail the
        // attachment.
        AttachPhase::StartEventPoller => spec_with_phase(m, AttachPhase::ReadBridgingConfig),
        // A configuration that cannot be read, or does not request
        // bridging, ends the attachment without an ingress classifier.
        AttachPhase::ReadBridgingConfig => match o {
            StepOutcome::BridgingEnabled(true) => spec_with_phase(
                m,
                AttachPhase::EnablePromiscuousMode,
            ),
            _ => spec_with_phase(m, AttachPhase::Done),
        },
        AttachPhase::EnablePromiscuousMode => if o is Succeeded {
            spec_with_phase(m, AttachPhase::RebuildBridgeMaps)
        } else {
            spec_fail(m, AttachError::BridgingFailed)
        },
        AttachPhase::RebuildBridgeMaps => if o is Succeeded {
            spec_with_phase(m, AttachPhase::AttachIngressClassifier)
        } else {
            spec_fail(m, AttachError::BridgingFailed)
        },
        AttachPhase::AttachIngressClassifier => if o is Succeeded {
            AttachMachine { ingress_classifier_attached: true, phase: AttachPhase::Done, ..m }
        } else {
            spec_fail(m, AttachError::BridgingFailed)
        },
        AttachPhase::Done => m,
        AttachPhase::Failed(_) => m,
    }
}

/// The machine a fresh attachment starts in.
pub open spec fn spec_start(name: String, direction: InterfaceDirection) -> AttachMachine {
    AttachMachine {
        name,
        direction,
        config: spec_encode_region(direction),
        if_index: 0,
        phase: AttachPhase::CheckPrivilege,
        ingress_filter_attached: false,
        egress_classifier_attached: false,
        ingress_classifier_attached: false,
    }
}

impl AttachMachine {
    /// The configuration region to record is always exactly the encoding
    /// of the direction being attached, and handles are held exactly when
    /// the phase that acquires them is behind; failure states keep
    /// whatever was acquired, which is how a failed bridging stage
    /// observably leaves the interface egress-only.
    pub open spec fn wf(self) -> bool {
        &&& self.config == spec_encode_region(self.direction)
        &&& match self.phase {
            AttachPhase::Failed(_) => true,
            _ => {
                &&& self.ingress_filter_attached == (spec_phase_rank(self.phase)
                    >= spec_phase_rank(AttachPhase::ConfigureCpuAffinity))
                &&& self.egress_classifier_attached == (spec_phase_rank(self.phase)
                    >= spec_phase_rank(AttachPhase::LocateEventChannel))
                &&& self.phase != AttachPhase::Done ==> !self.ingress_classifier_attached
            },
        }
    }

    /// Starts an attachment of `name` in `direction`.  The first step only
    /// reads the process's privilege; nothing is touched before it
    /// succeeds.
    pub fn start(name: String, direction: InterfaceDirection) -> (m: AttachMachine)
        ensures
            m == spec_start(name, direction),
            m.wf(),
    {
        AttachMachine {
            name,
            direction,
            config: encode_region(direction),
            if_index: 0,
            phase: AttachPhase::CheckPrivilege,
            ingress_filter_attached: false,
            egress_classifier_attached: false,
            ingress_classifier_attached: false,
        }
    }

    /// Feeds the outcome of the current phase's step to the machine.
    pub fn advance(self, outcome: StepOutcome) -> (r: AttachMachine)
        ensures
            r == spec_advance(self, outcome),
    {
        let mut m = self;
        match m.phase {
            AttachPhase::CheckPrivilege => {
                match outcome {
                    StepOutcome::Succeeded => m.phase = AttachPhase::ResolveInterface,
                    _ => m.phase = AttachPhase::Failed(AttachError::PermissionDenied),
                }
            },
            AttachPhase::ResolveInterface => {
                match outcome {
                    StepOutcome::Resolved(i) => {
                        m.if_index = i;
                        m.phase = AttachPhase::EnableStrictMode;
                    },
                    _ => m.phase = AttachPhase::Failed(AttachError::UnknownInterface),
                }
            },
            AttachPhase::EnableStrictMode => {
                match outcome {
                    StepOutcome::Succeeded => m.phase = AttachPhase::OpenProgram,
                    _ => m.phase = AttachPhase::Failed(AttachError::StrictModeUnavailable),
                }
            },
            AttachPhase::OpenProgram => {
                match outcome {
                    StepOutcome::Succeeded => m.phase = AttachPhase::WriteConfigRegion,
                    _ => m.phase = AttachPhase::Failed(AttachError::KernelProgramRejected),
                }
            },
            AttachPhase::WriteConfigRegion => {
                m.phase = AttachPhase::LoadProgram;
            },
            AttachPhase::LoadProgram => {
                match outcome {
                    StepOutcome::Succeeded => m.phase = AttachPhase::CleanStaleAttachment,
                    _ => m.phase = AttachPhase::Failed(AttachError::KernelProgramRejected),
                }
            },
            AttachPhase::CleanStaleAttachment => {
                m.phase = AttachPhase::AttachIngressFilter(XdpMode::Hardware);
            },
            AttachPhase::AttachIngressFilter(mode) => {
                match outcome {
                    StepOutcome::Succeeded => {
                        m.ingress_filter_attached = true;
                        m.phase = AttachPhase::ConfigureCpuAffinity;
                    },
                    _ => {
                        match next_mode(mode) {
                            Some(next) => m.phase = AttachPhase::AttachIngressFilter(next),
                            None => m.phase = AttachPhase::Failed(AttachError::AttachTiersExhausted),
                        }
                    },
                }
            },
            AttachPhase::ConfigureCpuAffinity => {
                match outcome {
                    StepOutcome::Succeeded => m.phase = AttachPhase::RemoveStaleEgress,
                    _ => m.phase = AttachPhase::Failed(AttachError::CpuConfigFailed),
                }
            },
            AttachPhase::RemoveStaleEgress => {
                m.phase = AttachPhase::RemoveClassifierHook;
            },
            AttachPhase::RemoveClassifierHook => {
                m.phase = AttachPhase::InstallClassifierHook;
            },
            AttachPhase::InstallClassifierHook => {
                match outcome {
                    StepOutcome::Succeeded => m.phase = AttachPhase::AttachEgressClassifier,
                    _ => m.phase = AttachPhase::Failed(AttachError::ClassifierAttachFailed),
                }
            },
            AttachPhase::AttachEgressClassifier => {
                match outcome {
                    StepOutcome::Succeeded => {
                        m.egress_classifier_attached = true;
                        m.phase = AttachPhase::LocateEventChannel;
                    },
                    _ => m.phase = AttachPhase::Failed(AttachError::ClassifierAttachFailed),
                }
            },
            AttachPhase::LocateEventChannel => {
                match outcome {
                    StepOutcome::Succeeded => m.phase = AttachPhase::StartEventPoller,
                    _ => m.phase = AttachPhase::Failed(AttachError::EventChannelUnavailable),
                }
            },
            AttachPhase::StartEventPoller => {
                m.phase = AttachPhase::ReadBridgingConfig;
            },
            AttachPhase::ReadBridgingConfig => {
                match outcome {
                    StepOutcome::BridgingEnabled(true) => {
                        m.phase = AttachPhase::EnablePromiscuousMode;
                    },
                    _ => m.phase = AttachPhase::Done,
                }
            },
            AttachPhase::EnablePromiscuousMode => {
                match outcome {
                    StepOutcome::Succeeded => m.phase = AttachPhase::RebuildBridgeMaps,
                    _ => m.phase = AttachPhase::Failed(AttachError::BridgingFailed),
                }
            },
            AttachPhase::RebuildBridgeMaps => {
                match outcome {
                    StepOutcome::Succeeded => m.phase = AttachPhase::AttachIngressClassifier,
                    _ => m.phase = AttachPhase::Failed(AttachError::BridgingFailed),
                }
            },
            AttachPhase::AttachIngressClassifier => {
                match outcome {
                    StepOutcome::Succeeded => {
                        m.ingress_classifier_attached = true;
                        m.phase = AttachPhase::Done;
                    },
                    _ => m.phase = AttachPhase::Failed(AttachError::BridgingFailed),
                }
            },
            AttachPhase::Done => {},
            AttachPhase::Failed(_) => {},
        }
        m
    }

    /// The completed binding, once the machine is done.
    pub fn into_binding(self) -> (r: Option<InterfaceBinding>)
        ensures
            r is Some <==> self.phase is Done,
            r matches Some(b) ==> {
                &&& b.name == self.name
                &&& b.if_index == self.if_index
                &&& b.direction == self.direction
                &&& b.ingress_filter == self.ingress_filter_attached
                &&& b.egress_classifier == self.egress_classifier_attached
                &&& b.ingress_classifier == self.ingress_classifier_attached
            },
    {
        match self.phase {
            AttachPhase::Done => Some(
                InterfaceBinding {
                    name: self.name,
                    if_index: self.if_index,
                    direction: self.direction,
                    ingress_filter: self.ingress_filter_attached,
                    egress_classifier: self.egress_classifier_attached,
                    ingress_classifier: self.ingress_classifier_attached,
                },
            ),
            _ => None,
        }
    }
}

/// Progress: from any non-terminal state, a step either fails, moves to a
/// strictly later phase, or walks exactly one rung down the fallback
/// ladder — the machine can never loop, and every driver run ends.
pub proof fn lemma_advance_moves_forward(m: AttachMachine, o: StepOutcome)
    requires
        !(m.phase is Done),
        !(m.phase is Failed),
    ensures
        spec_advance(m, o).phase is Failed || spec_phase_rank(spec_advance(m, o).phase)
            > spec_phase_rank(m.phase) || (match (m.phase, spec_advance(m, o).phase) {
            (
                AttachPhase::AttachIngressFilter(a),
                AttachPhase::AttachIngressFilter(b),
            ) => spec_next_mode(a) == Some(b),
            _ => false,
        }),
{
}

/// Every transition preserves the handle bookkeeping invariant.
pub proof fn lemma_advance_preserves_wf(m: AttachMachine, o: StepOutcome)
    requires
        m.wf(),
    ensures
        spec_advance(m, o).wf(),
{
}

/// Terminal states are fixed points: a finished or failed attachment takes
/// no further step.
pub proof fn lemma_terminal_states_stay(m: AttachMachine, o: StepOutcome)
    requires
        m.phase is Done || m.phase is Failed,
    ensures
        spec_advance(m, o) == m,
{
}

/// The capability fallback ladder, locally: a failed tier moves to the
/// next tier in the fixed hardware, driver, software, unflagged order, a
/// tier's success ends the ladder at once (no later tier is attempted, and
/// the ingress filter handle is held), and only exhaustion of the final
/// unflagged attempt is fatal.  The ladder is always entered at the
/// hardware tier.
pub proof fn lemma_fallback_order(m: AttachMachine, mode: XdpMode, o: StepOutcome)
    requires
        m.phase == AttachPhase::AttachIngressFilter(mode),
    ensures
        o is Succeeded ==> spec_advance(m, o).phase == AttachPhase::ConfigureCpuAffinity
            && spec_advance(m, o).ingress_filter_attached,
        !(o is Succeeded) ==> spec_advance(m, o).phase == (match spec_next_mode(mode) {
            Some(next) => AttachPhase::AttachIngressFilter(next),
            None => AttachPhase::Failed(AttachError::AttachTiersExhausted),
        }),
{
}

/// The ladder is entered at the hardware tier, whatever came of the
/// best-effort stale cleanup.
pub proof fn lemma_ladder_starts_at_hardware(m: AttachMachine, o: StepOutcome)
    requires
        m.phase == AttachPhase::CleanStaleAttachment,
    ensures
        spec_advance(m, o).phase == AttachPhase::AttachIngressFilter(XdpMode::Hardware),
{
}

/// Idempotent cleanup on the attach side: the pre-attach stale detachment
/// is best-effort, so an attachment that follows a detachment (which left
/// nothing to remove) advances exactly as one whose cleanup removed
/// something; "already attached" residue cannot fail an attach.
pub proof fn lemma_stale_cleanup_outcome_irrelevant(m: AttachMachine, o1: StepOutcome, o2: StepOutcome)
    requires
        m.phase == AttachPhase::CleanStaleAttachment,
    ensures
        spec_advance(m, o1) == spec_advance(m, o2),
{
}

/// A privilege failure on the very first step fails with exactly
/// `PermissionDenied`, before any step that changes kernel state has been
/// asked for, and the failed machine asks for nothing further: an
/// unprivileged attach makes no kernel state change at all.
pub proof fn lemma_unprivileged_attach_changes_nothing(
    name: String,
    direction: InterfaceDirection,
    o: StepOutcome,
)
    requires
        !(o is Succeeded),
    ensures
        !spec_step_changes_kernel(spec_start(name, direction).phase),
        spec_advance(spec_start(name, direction), o).phase == AttachPhase::Failed(
            AttachError::PermissionDenied,
        ),
        !spec_advance(spec_start(name, direction), o).ingress_filter_attached,
        !spec_advance(spec_start(name, direction), o).egress_classifier_attached,
        !spec_advance(spec_start(name, direction), o).ingress_classifier_attached,
        forall|o2: StepOutcome|
            spec_advance(spec_advance(spec_start(name, direction), o), o2) == spec_advance(
                spec_start(name, direction),
                o,
            ),
{
}

/// For every supported direction: whatever state an attachment is in,
/// the configuration region it records for the packet program reads back
/// as exactly the direction that was attached.
pub proof fn lemma_recorded_region_reads_back(m: AttachMachine)
    requires
        m.wf(),
    ensures
        spec_decode_region(m.config) == Some(m.direction),
{
    lemma_config_region_roundtrip(m.direction);
}

/// The detachment state machine.  Detachment must also serve as the
/// pre-attach cleanup step, so each removal is independently best-effort:
/// finding nothing to remove is never an error.  Only a removal that found
/// the ingress filter and failed to take it off is reported.
pub struct DetachMachine {
    /// The interface name the detachment is for.
    pub name: String,
    /// The resolved interface index; zero until resolution succeeds.
    pub if_index: u32,
    /// The next step, or a terminal state.
    pub phase: DetachPhase,
}

/// The step the driver must perform next while detaching.
#[derive(Clone, Copy, Debug, PartialEq, Eq, Structural)]
pub enum DetachPhase {
    /// Confirm root-equivalent privilege (read-only).
    CheckPrivilege,
    /// Resolve the interface name to its index (read-only).
    ResolveInterface,
    /// Remove the ingress filter.
    RemoveIngressFilter,
    /// Remove the egress classifier; any failure is tolerated.
    RemoveEgressClassifier,
    /// Remove the ingress classifier; any failure is tolerated.
    RemoveIngressClassifier,
    /// The detachment is complete.
    Done,
    /// The detachment failed; no further step is taken.
    Failed(DetachError),
}

/// The detach transition function.
pub open spec fn spec_detach_advance(m: DetachMachine, o: StepOutcome) -> DetachMachine {
    match m.phase {
        DetachPhase::CheckPrivilege => if o is Succeeded {
            DetachMachine { phase: DetachPhase::ResolveInterface, ..m }
        } else {
            DetachMachine { phase: DetachPhase::Failed(DetachError::PermissionDenied), ..m }
        },
        DetachPhase::ResolveInterface => match o {
            StepOutcome::Resolved(i) => DetachMachine {
                if_index: i,
                phase: DetachPhase::RemoveIngressFilter,
                ..m
            },
            _ => DetachMachine { phase: DetachPhase::Failed(DetachError::UnknownInterface), ..m },
        },
        // Absence of a prior attachment is not an error; only a present
        // filter that could not be removed is.
        DetachPhase::RemoveIngressFilter => match o {
            StepOutcome::Failed => DetachMachine {
                phase: DetachPhase::Failed(DetachError::IngressDetachFailed),
                ..m
            },
            _ => DetachMachine { phase: DetachPhase::RemoveEgressClassifier, ..m },
        },
        // Both classifier removals are fire-and-forget.
        DetachPhase::RemoveEgressClassifier => DetachMachine {
            phase: DetachPhase::RemoveIngressClassifier,
            ..m
        },
        DetachPhase::RemoveIngressClassifier => DetachMachine { phase: DetachPhase::Done, ..m },
        DetachPhase::Done => m,
        DetachPhase::Failed(_) => m,
    }
}

impl DetachMachine {
    /// Starts a detachment of `name`.
    pub fn start(name: String) -> (m: DetachMachine)
        ensures
            m.name == name,
            m.if_index == 0,
            m.phase == DetachPhase::CheckPrivilege,
    {
        DetachMachine { name, if_index: 0, phase: DetachPhase::CheckPrivilege }
    }

    /// Feeds the outcome of the current phase's step to the machine.
    pub fn advance(self, outcome: StepOutcome) -> (r: DetachMachine)
        ensures
            r == spec_detach_advance(self, outcome),
    {
        let mut m = self;
        match m.phase {
            DetachPhase::CheckPrivilege => {
                match outcome {
                    StepOutcome::Succeeded => m.phase = DetachPhase::ResolveInterface,
                    _ => m.phase = DetachPhase::Failed(DetachError::PermissionDenied),
                }
            },
            DetachPhase::ResolveInterface => {
                match outcome {
                    StepOutcome::Resolved(i) => {
                        m.if_index = i;
                        m.phase = DetachPhase::RemoveIngressFilter;
                    },
                    _ => m.phase = DetachPhase::Failed(DetachError::UnknownInterface),
                }
            },
            DetachPhase::RemoveIngressFilter => {
                match outcome {
                    StepOutcome::Failed => {
                        m.phase = DetachPhase::Failed(DetachError::IngressDetachFailed);
                    },
                    _ => m.phase = DetachPhase::RemoveEgressClassifier,
                }
            },
            DetachPhase::RemoveEgressClassifier => {
                m.phase = DetachPhase::RemoveIngressClassifier;
            },
            DetachPhase::RemoveIngressClassifier => {
                m.phase = DetachPhase::Done;
            },
            DetachPhase::Done => {},
            DetachPhase::Failed(_) => {},
        }
        m
    }
}

/// Idempotent cleanup on the detach side: at every removal step, finding
/// nothing to remove advances the machine exactly as a successful removal
/// does, so a detach of an untouched interface completes cleanly and a
/// detach followed by another detach is as good as one.
pub proof fn lemma_detach_absence_is_not_an_error(m: DetachMachine)
    requires
        m.phase == DetachPhase::RemoveIngressFilter || m.phase
            == DetachPhase::RemoveEgressClassifier || m.phase
            == DetachPhase::RemoveIngressClassifier,
    ensures
        spec_detach_advance(m, StepOutcome::NothingToRemove) == spec_detach_advance(
            m,
            StepOutcome::Succeeded,
        ),
        !(spec_detach_advance(m, StepOutcome::NothingToRemove).phase is Failed),
{
}

/// A run that reaches the bridging decision holds the ingress filter and
/// the egress classifier and no ingress classifier; when bridging is not
/// requested it completes exactly so.  This is the egress-only shape of a
/// non-bridged binding.
pub proof fn lemma_no_bridging_gives_egress_only_binding(m: AttachMachine, o: StepOutcome)
    requires
        m.wf(),
        m.phase == AttachPhase::ReadBridgingConfig,
        !(o matches StepOutcome::BridgingEnabled(true)),
    ensures
        spec_advance(m, o).phase == AttachPhase::Done,
        spec_advance(m, o).ingress_filter_attached,
        spec_advance(m, o).egress_classifier_attached,
        !spec_advance(m, o).ingress_classifier_attached,
{
}

/// The tiers on which an ingress-filter attempt is performed during a
/// run: one attempt per step spent in a ladder phase, in step order.
pub open spec fn spec_tiers_tried(m: AttachMachine, os: Seq<StepOutcome>) -> Seq<XdpMode>
    decreases os.len(),
{
    if os.len() == 0 {
        Seq::empty()
    } else {
        let rest = spec_tiers_tried(spec_advance(m, os[0]), os.skip(1));
        match m.phase {
            AttachPhase::AttachIngressFilter(t) => seq![t] + rest,
            _ => rest,
        }
    }
}

/// The phases from which the ladder can no longer be re-entered.
pub open spec fn spec_past_ladder(p: AttachPhase) -> bool {
    p is Failed || p is Done || spec_phase_rank(p) >= spec_phase_rank(
        AttachPhase::ConfigureCpuAffinity,
    )
}

/// The rest of the ladder from a given tier on, that tier included.
pub open spec fn spec_ladder_from(t: XdpMode) -> Seq<XdpMode> {
    match t {
        XdpMode::Hardware => seq![XdpMode::Hardware, XdpMode::Driver, XdpMode::Skb, XdpMode::Unflagged],
        XdpMode::Driver => seq![XdpMode::Driver, XdpMode::Skb, XdpMode::Unflagged],
        XdpMode::Skb => seq![XdpMode::Skb, XdpMode::Unflagged],
        XdpMode::Unflagged => seq![XdpMode::Unflagged],
    }
}

/// Once the machine is past the ladder it never attempts another tier,
/// whatever outcomes a run reports.
pub proof fn lemma_no_tiers_past_the_ladder(m: AttachMachine, os: Seq<StepOutcome>)
    requires
        spec_past_ladder(m.phase),
    ensures
        spec_tiers_tried(m, os) == Seq::<XdpMode>::empty(),
    decreases os.len(),
{
    if os.len() > 0 {
        assert(spec_past_ladder(spec_advance(m, os[0]).phase));
        lemma_no_tiers_past_the_ladder(spec_advance(m, os[0]), os.skip(1));
    }
}

/// Strict order with short-circuit, over whole runs: starting from any
/// tier, the tiers a run attempts are a prefix of the remaining ladder —
/// they come in the fixed order, none is skipped, none is repeated, and
/// nothing follows the tier that succeeded.
pub proof fn lemma_run_tries_a_ladder_prefix(m: AttachMachine, t: XdpMode, os: Seq<StepOutcome>)
    requires
        m.phase == AttachPhase::AttachIngressFilter(t),
    ensures
        spec_tiers_tried(m, os) == spec_ladder_from(t).take(spec_tiers_tried(m, os).len() as int),
        spec_tiers_tried(m, os).len() <= spec_ladder_from(t).len(),
    decreases os.len(),
{
    if os.len() == 0 {
        assert(spec_tiers_tried(m, os) =~= spec_ladder_from(t).take(0));
    } else {
        let next = spec_advance(m, os[0]);
        let rest = spec_tiers_tried(next, os.skip(1));
        if os[0] is Succeeded {
            assert(spec_past_ladder(next.phase));
            lemma_no_tiers_past_the_ladder(next, os.skip(1));
            assert(spec_tiers_tried(m, os) =~= seq![t]);
            assert(seq![t] =~= spec_ladder_from(t).take(1));
        } else {
            match spec_next_mode(t) {
                Some(n) => {
                    lemma_run_tries_a_ladder_prefix(next, n, os.skip(1));
                    assert(spec_ladder_from(t) =~= seq![t] + spec_ladder_from(n));
                    assert(spec_tiers_tried(m, os) == seq![t] + rest);
                    assert(seq![t] + spec_ladder_from(n).take(rest.len() as int)
                        =~= spec_ladder_from(t).take(rest.len() as int + 1));
                },
                None => {
                    assert(spec_past_ladder(next.phase));
                    lemma_no_tiers_past_the_ladder(next, os.skip(1));
                    assert(spec_tiers_tried(m, os) =~= seq![t]);
                    assert(seq![t] =~= spec_ladder_from(t).take(1));
                },
            }
        }
    }
}

/// The whole-attachment form: a run of an attachment that has reached the
/// ladder attempts a prefix of hardware, driver, software, unflagged.
pub proof fn lemma_attach_tries_tiers_in_order(m: AttachMachine, os: Seq<StepOutcome>)
    requires
        m.phase == AttachPhase::AttachIngressFilter(XdpMode::Hardware),
    ensures
        spec_tiers_tried(m, os) == spec_fallback_ladder().take(
            spec_tiers_tried(m, os).len() as int,
        ),
        spec_tiers_tried(m, os).len() <= 4,
{
    lemma_run_tries_a_ladder_prefix(m, XdpMode::Hardware, os);
    assert(spec_ladder_from(XdpMode::Hardware) =~= spec_fallback_ladder());
}

/// Relies on nix::unistd::geteuid: returns the calling process's effective
/// user id.  The value depends on the environment, so nothing is promised
/// of it.
#[verifier::external_body]
fn current_effective_uid() -> u32 {
    nix::unistd::geteuid().as_raw()
}

/// Relies on nix::net::if_::if_nametoindex: resolves an interface name to
/// its index, which is nonzero whenever resolution succeeds; every failure,
/// including a name the OS cannot accept, comes back as `None`.
#[verifier::external_body]
fn resolve_interface_index(name: &str) -> (r: Option<u32>)
    ensures
        r matches Some(i) ==> i != 0,
{
    nix::net::if_::if_nametoindex(name).ok()
}

/// Whether an effective user id carries root-equivalent privilege.
pub open spec fn spec_privileged(euid: u32) -> bool {
    euid == 0
}

/// The privilege decision on a given effective user id.
pub fn privileged(euid: u32) -> (r: bool)
    ensures
        r == spec_privileged(euid),
{
    euid == 0
}

/// Confirms root-equivalent privilege, surfacing its absence as a distinct
/// error rather than failing deep inside a later system call.
pub fn check_root() -> (r: Result<(), AttachError>)
    ensures
        r matches Err(e) ==> e == AttachError::PermissionDenied,
{
    let euid = current_effective_uid();
    if privileged(euid) {
        Ok(())
    } else {
        Err(AttachError::PermissionDenied)
    }
}

/// Resolves an interface name to its index, which is nonzero on success;
/// a name that does not resolve is the caller's configuration error.
pub fn interface_name_to_index(interface_name: &str) -> (r: Result<u32, AttachError>)
    ensures
        r matches Ok(i) ==> i != 0,
        r matches Err(e) ==> e == AttachError::UnknownInterface,
{
    match resolve_interface_index(interface_name) {
        Some(i) => Ok(i),
        None => Err(AttachError::UnknownInterface),
    }
}

} // verus!
