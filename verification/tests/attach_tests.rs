use lqos::attach::{
    fallback_ladder, AttachError, AttachMachine, AttachPhase, DetachError, DetachMachine,
    DetachPhase, StepOutcome, XdpMode,
};
use lqos::config_region::InterfaceDirection;

fn machine_at_ladder_entry(direction: InterfaceDirection) -> AttachMachine {
    let m = AttachMachine::start(String::from("eth0"), direction);
    let m = m.advance(StepOutcome::Succeeded); // privilege confirmed
    let m = m.advance(StepOutcome::Resolved(3)); // interface resolved
    let m = m.advance(StepOutcome::Succeeded); // strict mode on
    let m = m.advance(StepOutcome::Succeeded); // program opened
    let m = m.advance(StepOutcome::Succeeded); // configuration recorded
    let m = m.advance(StepOutcome::Succeeded); // program loaded
    m.advance(StepOutcome::NothingToRemove) // stale cleanup found nothing
}

#[test]
fn ladder_data_is_hardware_driver_skb_unflagged() {
    let ladder = fallback_ladder();
    assert_eq!(
        ladder,
        vec![XdpMode::Hardware, XdpMode::Driver, XdpMode::Skb, XdpMode::Unflagged]
    );
}

#[test]
fn ladder_is_walked_in_strict_order_and_exhaustion_is_fatal() {
    let m = machine_at_ladder_entry(InterfaceDirection::Internet);
    assert_eq!(m.phase, AttachPhase::AttachIngressFilter(XdpMode::Hardware));
    let m = m.advance(StepOutcome::Failed);
    assert_eq!(m.phase, AttachPhase::AttachIngressFilter(XdpMode::Driver));
    let m = m.advance(StepOutcome::Failed);
    assert_eq!(m.phase, AttachPhase::AttachIngressFilter(XdpMode::Skb));
    let m = m.advance(StepOutcome::Failed);
    assert_eq!(m.phase, AttachPhase::AttachIngressFilter(XdpMode::Unflagged));
    let m = m.advance(StepOutcome::Failed);
    assert_eq!(m.phase, AttachPhase::Failed(AttachError::AttachTiersExhausted));
    assert!(!m.ingress_filter_attached);
}

#[test]
fn first_successful_tier_short_circuits_the_ladder() {
    let m = machine_at_ladder_entry(InterfaceDirection::Internet);
    let m = m.advance(StepOutcome::Failed); // hardware failed
    assert_eq!(m.phase, AttachPhase::AttachIngressFilter(XdpMode::Driver));
    let m = m.advance(StepOutcome::Succeeded); // driver worked
    assert_eq!(m.phase, AttachPhase::ConfigureCpuAffinity);
    assert!(m.ingress_filter_attached);
}

#[test]
fn unprivileged_attach_fails_at_once_and_changes_nothing() {
    let m = AttachMachine::start(String::from("eth0"), InterfaceDirection::Internet);
    assert_eq!(m.phase, AttachPhase::CheckPrivilege);
    let m = m.advance(StepOutcome::Failed);
    assert_eq!(m.phase, AttachPhase::Failed(AttachError::PermissionDenied));
    assert!(!m.ingress_filter_attached);
    assert!(!m.egress_classifier_attached);
    assert!(!m.ingress_classifier_attached);
    // The failed machine asks for nothing further.
    let m = m.advance(StepOutcome::Succeeded);
    assert_eq!(m.phase, AttachPhase::Failed(AttachError::PermissionDenied));
}

#[test]
fn unknown_interface_is_its_own_error() {
    let m = AttachMachine::start(String::from("does-not-exist"), InterfaceDirection::Internet);
    let m = m.advance(StepOutcome::Succeeded);
    let m = m.advance(StepOutcome::Failed);
    assert_eq!(m.phase, AttachPhase::Failed(AttachError::UnknownInterface));
}

#[test]
fn rejected_program_and_missing_event_channel_are_distinct_errors() {
    let m = AttachMachine::start(String::from("eth0"), InterfaceDirection::Internet);
    let m = m.advance(StepOutcome::Succeeded);
    let m = m.advance(StepOutcome::Resolved(3));
    let m = m.advance(StepOutcome::Succeeded);
    let failed_open = m.advance(StepOutcome::Failed);
    assert_eq!(failed_open.phase, AttachPhase::Failed(AttachError::KernelProgramRejected));

    let mut m = machine_at_ladder_entry(InterfaceDirection::Internet);
    m = m.advance(StepOutcome::Succeeded); // ingress filter
    m = m.advance(StepOutcome::Succeeded); // cpu affinity
    m = m.advance(StepOutcome::NothingToRemove); // stale egress
    m = m.advance(StepOutcome::Failed); // hook removal tolerated
    m = m.advance(StepOutcome::Succeeded); // hook installed
    m = m.advance(StepOutcome::Succeeded); // egress classifier
    assert_eq!(m.phase, AttachPhase::LocateEventChannel);
    let m = m.advance(StepOutcome::Failed);
    assert_eq!(m.phase, AttachPhase::Failed(AttachError::EventChannelUnavailable));
}

#[test]
fn strict_mode_cpu_config_and_classifier_failures_are_distinct() {
    // Strict verification could not be enabled.
    let m = AttachMachine::start(String::from("eth0"), InterfaceDirection::Internet)
        .advance(StepOutcome::Succeeded)
        .advance(StepOutcome::Resolved(3))
        .advance(StepOutcome::Failed);
    assert_eq!(m.phase, AttachPhase::Failed(AttachError::StrictModeUnavailable));

    // CPU-affinity configuration failed after the filter attached.
    let m = machine_at_ladder_entry(InterfaceDirection::Internet)
        .advance(StepOutcome::Succeeded)
        .advance(StepOutcome::Failed);
    assert_eq!(m.phase, AttachPhase::Failed(AttachError::CpuConfigFailed));

    // The egress classifier itself failed to attach.
    let m = machine_at_ladder_entry(InterfaceDirection::Internet)
        .advance(StepOutcome::Succeeded)
        .advance(StepOutcome::Succeeded)
        .advance(StepOutcome::NothingToRemove)
        .advance(StepOutcome::NothingToRemove)
        .advance(StepOutcome::Succeeded)
        .advance(StepOutcome::Failed);
    assert_eq!(m.phase, AttachPhase::Failed(AttachError::ClassifierAttachFailed));
}

fn machine_at_bridging_decision() -> AttachMachine {
    let mut m = machine_at_ladder_entry(InterfaceDirection::Internet);
    m = m.advance(StepOutcome::Succeeded); // ingress filter at hardware tier
    m = m.advance(StepOutcome::Succeeded); // cpu affinity
    m = m.advance(StepOutcome::NothingToRemove); // stale egress
    m = m.advance(StepOutcome::NothingToRemove); // hook removal
    m = m.advance(StepOutcome::Succeeded); // hook installed
    m = m.advance(StepOutcome::Succeeded); // egress classifier
    m = m.advance(StepOutcome::Succeeded); // event channel open
    m.advance(StepOutcome::Succeeded) // poller started
}

#[test]
fn internet_attach_without_bridging_yields_egress_only_binding() {
    let m = machine_at_bridging_decision();
    assert_eq!(m.phase, AttachPhase::ReadBridgingConfig);
    let m = m.advance(StepOutcome::BridgingEnabled(false));
    assert_eq!(m.phase, AttachPhase::Done);
    let binding = m.into_binding().unwrap();
    assert_eq!(binding.name.as_str(), "eth0");
    assert_eq!(binding.if_index, 3);
    assert_eq!(binding.direction, InterfaceDirection::Internet);
    assert!(binding.ingress_filter);
    assert!(binding.egress_classifier);
    assert!(!binding.ingress_classifier);
}

#[test]
fn bridging_attach_also_holds_the_ingress_classifier() {
    let m = machine_at_bridging_decision();
    let m = m.advance(StepOutcome::BridgingEnabled(true));
    assert_eq!(m.phase, AttachPhase::EnablePromiscuousMode);
    let m = m.advance(StepOutcome::Succeeded);
    assert_eq!(m.phase, AttachPhase::RebuildBridgeMaps);
    let m = m.advance(StepOutcome::Succeeded);
    assert_eq!(m.phase, AttachPhase::AttachIngressClassifier);
    let m = m.advance(StepOutcome::Succeeded);
    let binding = m.into_binding().unwrap();
    assert!(binding.ingress_filter);
    assert!(binding.egress_classifier);
    assert!(binding.ingress_classifier);
}

#[test]
fn failed_bridging_leaves_the_interface_egress_only() {
    let m = machine_at_bridging_decision();
    let m = m.advance(StepOutcome::BridgingEnabled(true));
    let m = m.advance(StepOutcome::Succeeded); // promiscuous mode on
    let m = m.advance(StepOutcome::Failed); // map rebuild failed
    assert_eq!(m.phase, AttachPhase::Failed(AttachError::BridgingFailed));
    assert!(m.ingress_filter_attached);
    assert!(m.egress_classifier_attached);
    assert!(!m.ingress_classifier_attached);
    assert!(m.into_binding().is_none());
}

#[test]
fn detach_then_attach_never_errors_on_residue() {
    // A detach of an interface with nothing attached completes cleanly.
    let d = DetachMachine::start(String::from("eth0"));
    let d = d.advance(StepOutcome::Succeeded); // privilege
    let d = d.advance(StepOutcome::Resolved(3)); // resolution
    assert_eq!(d.phase, DetachPhase::RemoveIngressFilter);
    let d = d.advance(StepOutcome::NothingToRemove);
    let d = d.advance(StepOutcome::NothingToRemove);
    let d = d.advance(StepOutcome::NothingToRemove);
    assert_eq!(d.phase, DetachPhase::Done);

    // The attach that follows proceeds identically whether its own stale
    // cleanup removed something or found nothing.
    fn at_stale_cleanup() -> AttachMachine {
        AttachMachine::start(String::from("eth0"), InterfaceDirection::Internet)
            .advance(StepOutcome::Succeeded)
            .advance(StepOutcome::Resolved(3))
            .advance(StepOutcome::Succeeded)
            .advance(StepOutcome::Succeeded)
            .advance(StepOutcome::Succeeded)
            .advance(StepOutcome::Succeeded)
    }
    assert_eq!(at_stale_cleanup().phase, AttachPhase::CleanStaleAttachment);
    let after_nothing = at_stale_cleanup().advance(StepOutcome::NothingToRemove);
    let after_removed = at_stale_cleanup().advance(StepOutcome::Succeeded);
    assert_eq!(after_nothing.phase, after_removed.phase);
    assert_eq!(after_nothing.phase, AttachPhase::AttachIngressFilter(XdpMode::Hardware));
}

#[test]
fn privilege_and_resolution_probe_the_live_system() {
    assert!(lqos::attach::privileged(0));
    assert!(!lqos::attach::privileged(1000));
    // Whatever user runs this, the only possible failure is the distinct
    // privilege error.
    match lqos::attach::check_root() {
        Ok(()) => {}
        Err(e) => assert_eq!(e, AttachError::PermissionDenied),
    }
    // A name no system has never resolves; the loopback interface, where
    // present, resolves to a nonzero index.
    assert!(lqos::attach::interface_name_to_index("no-such-interface-0").is_err());
    match lqos::attach::interface_name_to_index("lo") {
        Ok(i) => assert!(i != 0),
        Err(e) => assert_eq!(e, AttachError::UnknownInterface),
    }
}

#[test]
fn detach_reports_only_a_real_ingress_removal_failure() {
    let d = DetachMachine::start(String::from("eth0"));
    let d = d.advance(StepOutcome::Succeeded);
    let d = d.advance(StepOutcome::Resolved(3));
    let d = d.advance(StepOutcome::Failed);
    assert_eq!(d.phase, DetachPhase::Failed(DetachError::IngressDetachFailed));

    // Classifier removals are tolerated whatever happens.
    let d = DetachMachine::start(String::from("eth0"));
    let d = d.advance(StepOutcome::Succeeded);
    let d = d.advance(StepOutcome::Resolved(3));
    let d = d.advance(StepOutcome::Succeeded);
    let d = d.advance(StepOutcome::Failed);
    let d = d.advance(StepOutcome::Failed);
    assert_eq!(d.phase, DetachPhase::Done);
}
