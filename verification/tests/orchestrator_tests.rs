use solana_k8s_cluster::orchestrator::{
    run, Action, Event, FailureReason, Orchestrator, RunState, ValidatorPhase,
};

#[test]
fn full_run_with_two_validators() {
    let events = vec![
        Event::NamespaceFound(true),
        Event::ArtifactsGenerated,
        Event::DeployOk, // config map
        Event::DeployOk, // bootstrap secret
        Event::DeployOk, // bootstrap replica set
        Event::DeployOk, // bootstrap service
        Event::Status(1, 0),
        Event::Status(1, 1),
        Event::DeployOk, // validator 0 secret
        Event::DeployOk, // validator 0 replica set
        Event::DeployOk, // validator 0 service
        Event::DeployOk, // validator 1 secret
        Event::DeployOk, // validator 1 replica set
        Event::DeployOk, // validator 1 service
    ];
    let (actions, state) = run(2, &events);
    let expected = vec![
        Action::CheckNamespace,
        Action::GenerateArtifacts,
        Action::DeployConfigMap,
        Action::DeployBootstrapSecret,
        Action::DeployBootstrapReplicaSet,
        Action::DeployBootstrapService,
        Action::PollBootstrapStatus,
        Action::PollBootstrapStatus,
        Action::DeployValidatorSecret(0),
        Action::DeployValidatorReplicaSet(0),
        Action::DeployValidatorService(0),
        Action::DeployValidatorSecret(1),
        Action::DeployValidatorReplicaSet(1),
        Action::DeployValidatorService(1),
    ];
    assert_eq!(actions, expected);
    assert_eq!(state, RunState::Done);

    // Bootstrap readiness is observed before any validator resource call.
    let first_validator = actions
        .iter()
        .position(|a| matches!(a, Action::DeployValidatorSecret(_)))
        .unwrap();
    let last_poll = actions
        .iter()
        .rposition(|a| *a == Action::PollBootstrapStatus)
        .unwrap();
    assert!(last_poll < first_validator);
}

#[test]
fn missing_namespace_deploys_nothing() {
    let events = vec![Event::NamespaceFound(false)];
    let (actions, state) = run(2, &events);
    assert_eq!(actions, vec![Action::CheckNamespace]);
    assert_eq!(state, RunState::Failed(FailureReason::NamespaceMissing));
}

#[test]
fn namespace_check_error_is_fatal() {
    let events = vec![Event::NamespaceCheckFailed];
    let (actions, state) = run(1, &events);
    assert_eq!(actions, vec![Action::CheckNamespace]);
    assert_eq!(state, RunState::Failed(FailureReason::ClusterApiError));
}

#[test]
fn genesis_failure_aborts_before_any_deploy() {
    let events = vec![Event::NamespaceFound(true), Event::ArtifactsFailed];
    let (actions, state) = run(1, &events);
    assert_eq!(actions, vec![Action::CheckNamespace, Action::GenerateArtifacts]);
    assert_eq!(state, RunState::Failed(FailureReason::GenesisFailed));
}

#[test]
fn validator_deploy_failure_aborts_remaining_loop() {
    let events = vec![
        Event::NamespaceFound(true),
        Event::ArtifactsGenerated,
        Event::DeployOk,
        Event::DeployOk,
        Event::DeployOk,
        Event::DeployOk,
        Event::Status(1, 1),
        Event::DeployOk,       // validator 0 secret
        Event::DeployFailed,   // validator 0 replica set fails
        Event::DeployOk,       // never consumed
    ];
    let (actions, state) = run(3, &events);
    assert_eq!(state, RunState::Failed(FailureReason::ClusterApiError));
    assert_eq!(*actions.last().unwrap(), Action::DeployValidatorReplicaSet(0));
    assert!(!actions.contains(&Action::DeployValidatorService(0)));
    assert!(!actions.contains(&Action::DeployValidatorSecret(1)));
}

#[test]
fn shortfall_keeps_polling() {
    let events = vec![
        Event::NamespaceFound(true),
        Event::ArtifactsGenerated,
        Event::DeployOk,
        Event::DeployOk,
        Event::DeployOk,
        Event::DeployOk,
        Event::Status(1, 0),
        Event::Status(1, 0),
        Event::Status(1, 0),
    ];
    let (actions, state) = run(1, &events);
    assert_eq!(state, RunState::BootstrapPolling);
    assert_eq!(actions[6..], [
        Action::PollBootstrapStatus,
        Action::PollBootstrapStatus,
        Action::PollBootstrapStatus,
    ]);
    assert!(!actions.iter().any(|a| matches!(a, Action::DeployValidatorSecret(_))));
}

#[test]
fn status_error_terminates_abnormally() {
    let events = vec![
        Event::NamespaceFound(true),
        Event::ArtifactsGenerated,
        Event::DeployOk,
        Event::DeployOk,
        Event::DeployOk,
        Event::DeployOk,
        Event::StatusFailed,
    ];
    let (_, state) = run(1, &events);
    assert_eq!(state, RunState::Failed(FailureReason::ClusterApiError));
}

#[test]
fn stepwise_orchestrator_matches_run() {
    let mut orchestrator = Orchestrator::new(1);
    assert_eq!(orchestrator.next_action(), Some(Action::CheckNamespace));
    orchestrator.step(Event::NamespaceFound(true));
    assert_eq!(orchestrator.next_action(), Some(Action::GenerateArtifacts));
    orchestrator.step(Event::ArtifactsGenerated);
    orchestrator.step(Event::DeployOk);
    orchestrator.step(Event::DeployOk);
    orchestrator.step(Event::DeployOk);
    orchestrator.step(Event::DeployOk);
    assert_eq!(orchestrator.next_action(), Some(Action::PollBootstrapStatus));
    orchestrator.step(Event::Status(1, 1));
    assert_eq!(orchestrator.state, RunState::BootstrapReady);
    orchestrator.step(Event::DeployOk);
    assert_eq!(orchestrator.state, RunState::ValidatorDeploy(0, ValidatorPhase::ReplicaSet));
    orchestrator.step(Event::DeployOk);
    orchestrator.step(Event::DeployOk);
    assert_eq!(orchestrator.state, RunState::Done);
    assert_eq!(orchestrator.next_action(), None);
}

#[test]
fn mismatched_event_is_a_protocol_violation() {
    let mut orchestrator = Orchestrator::new(1);
    orchestrator.step(Event::DeployOk);
    assert_eq!(orchestrator.state, RunState::Failed(FailureReason::ProtocolViolation));
    assert_eq!(orchestrator.next_action(), None);
}
