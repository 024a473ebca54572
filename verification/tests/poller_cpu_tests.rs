use lqos::cpu_affinity::{plan_assignment, ConfigError, CpuConfigMachine, CpuConfigPhase};
use lqos::poller::{poll_step, poll_timeout_ms, PollAction};

#[test]
fn poll_timeout_is_100_ms() {
    assert_eq!(poll_timeout_ms(), 100);
}

#[test]
fn a_poll_failure_is_logged_and_the_loop_survives() {
    // One injected failure: the decision is to log and poll again, and the
    // following poll is reached and proceeds silently.
    let results = [-1, 0];
    let mut polls_made = 0;
    let mut errors_logged = 0;
    for r in results {
        let PollAction::PollAgain { log_error } = poll_step(r);
        polls_made += 1;
        if log_error {
            errors_logged += 1;
        }
    }
    assert_eq!(polls_made, 2);
    assert_eq!(errors_logged, 1);
}

#[test]
fn every_poll_result_leads_to_another_poll() {
    for r in [-100, -1, 0, 1, 100] {
        let PollAction::PollAgain { log_error } = poll_step(r);
        assert_eq!(log_error, r < 0);
    }
}

#[test]
fn the_base_assignment_maps_each_cpu_to_its_own_queue() {
    let a = plan_assignment(4);
    assert_eq!(a.queues, vec![0, 1, 2, 3]);
    assert!(plan_assignment(0).queues.is_empty());
}

#[test]
fn cpu_configuration_walks_every_cpu_then_completes() {
    let m = CpuConfigMachine::start(2);
    assert_eq!(m.phase, CpuConfigPhase::DisableSteering);
    let m = m.advance(true);
    assert_eq!(m.phase, CpuConfigPhase::MarkCpu(0));
    let m = m.advance(true);
    assert_eq!(m.phase, CpuConfigPhase::MarkCpu(1));
    let m = m.advance(true);
    assert_eq!(m.phase, CpuConfigPhase::WriteQueueEntry(0));
    let m = m.advance(true);
    assert_eq!(m.phase, CpuConfigPhase::WriteQueueEntry(1));
    let m = m.advance(true);
    assert_eq!(m.phase, CpuConfigPhase::Done);
}

#[test]
fn any_failed_configuration_step_is_fatal() {
    let m = CpuConfigMachine::start(2).advance(false);
    assert_eq!(m.phase, CpuConfigPhase::Failed(ConfigError::SteeringDisableFailed));

    let m = CpuConfigMachine::start(2).advance(true).advance(false);
    assert_eq!(m.phase, CpuConfigPhase::Failed(ConfigError::MarkCpuFailed));

    let m = CpuConfigMachine::start(2)
        .advance(true)
        .advance(true)
        .advance(true)
        .advance(false);
    assert_eq!(m.phase, CpuConfigPhase::Failed(ConfigError::QueueEntryFailed));

    // A failed machine takes no further step.
    let m = CpuConfigMachine::start(2).advance(false).advance(true);
    assert_eq!(m.phase, CpuConfigPhase::Failed(ConfigError::SteeringDisableFailed));
}
