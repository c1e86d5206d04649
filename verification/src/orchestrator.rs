//! The deployment state machine. States are strictly ordered with no backward
//! transitions and no rollback: namespace check, genesis generation, the
//! bootstrap resources in config-map, secret, replica-set, service order, a
//! readiness poll that blocks until the bootstrap replica set is fully ready,
//! then each standard node's secret, replica set and service in index order.
//! Every fatal event moves to an absorbing failure state from which no
//! further action is issued. The cluster calls themselves happen outside the
//! library: a driver performs each issued `Action` and feeds the observed
//! `Event` back in.
use vstd::prelude::*;

verus! {

/// One cluster-side operation the orchestrator asks its driver to perform.
#[derive(Debug, Clone, Copy, PartialEq, Eq, Structural)]
pub enum Action {
    /// Ask the cluster whether the target namespace exists.
    CheckNamespace,
    /// Run genesis generation end-to-end: faucet, bootstrap accounts,
    /// standard-node accounts, ledger build.
    GenerateArtifacts,
    DeployConfigMap,
    DeployBootstrapSecret,
    DeployBootstrapReplicaSet,
    DeployBootstrapService,
    /// Read the bootstrap replica set's status (sleeping a fixed interval
    /// between consecutive polls is the driver's side).
    PollBootstrapStatus,
    DeployValidatorSecret(i32),
    DeployValidatorReplicaSet(i32),
    DeployValidatorService(i32),
}

/// What the driver observed when performing the pending action.
#[derive(Debug, Clone, Copy, PartialEq, Eq, Structural)]
pub enum Event {
    /// The namespace existence check answered.
    NamespaceFound(bool),
    NamespaceCheckFailed,
    ArtifactsGenerated,
    ArtifactsFailed,
    DeployOk,
    DeployFailed,
    /// A status read answered with (desired, ready) replica counts.
    Status(i32, i32),
    StatusFailed,
}

/// Why a run stopped short of `Done`.
#[derive(Debug, Clone, Copy, PartialEq, Eq, Structural)]
pub enum FailureReason {
    /// The target namespace does not exist: a precondition, not an error.
    NamespaceMissing,
    /// A cluster API call failed (existence check, deploy, or status read).
    ClusterApiError,
    /// Genesis generation failed.
    GenesisFailed,
    /// The driver answered an action with an event of the wrong kind.
    ProtocolViolation,
}

/// Which of a standard node's three resources is deployed next.
#[derive(Debug, Clone, Copy, PartialEq, Eq, Structural)]
pub enum ValidatorPhase {
    Secret,
    ReplicaSet,
    Service,
}

/// The orchestrator's position in the strictly ordered deployment sequence.
#[derive(Debug, Clone, Copy, PartialEq, Eq, Structural)]
pub enum RunState {
    Init,
    NamespaceVerified,
    GenesisReady,
    ConfigMapDeployed,
    BootstrapSecretDeployed,
    BootstrapReplicaSetDeployed,
    BootstrapServiceDeployed,
    /// A status read reported the bootstrap replica set not yet ready.
    BootstrapPolling,
    /// The bootstrap replica set reported every desired replica ready.
    BootstrapReady,
    /// Deploying standard node `index`'s resource of phase `phase`.
    ValidatorDeploy(i32, ValidatorPhase),
    Done,
    Failed(FailureReason),
}

/// The action pending in a state; `None` in the two terminal states.
pub open spec fn spec_action(state: RunState) -> Option<Action> {
    match state {
        RunState::Init => Some(Action::CheckNamespace),
        RunState::NamespaceVerified => Some(Action::GenerateArtifacts),
        RunState::GenesisReady => Some(Action::DeployConfigMap),
        RunState::ConfigMapDeployed => Some(Action::DeployBootstrapSecret),
        RunState::BootstrapSecretDeployed => Some(Action::DeployBootstrapReplicaSet),
        RunState::BootstrapReplicaSetDeployed => Some(Action::DeployBootstrapService),
        RunState::BootstrapServiceDeployed => Some(Action::PollBootstrapStatus),
        RunState::BootstrapPolling => Some(Action::PollBootstrapStatus),
        RunState::BootstrapReady => Some(Action::DeployValidatorSecret(0)),
        RunState::ValidatorDeploy(i, ValidatorPhase::Secret) => Some(
            Action::DeployValidatorSecret(i),
        ),
        RunState::ValidatorDeploy(i, ValidatorPhase::ReplicaSet) => Some(
            Action::DeployValidatorReplicaSet(i),
        ),
        RunState::ValidatorDeploy(i, ValidatorPhase::Service) => Some(
            Action::DeployValidatorService(i),
        ),
        RunState::Done => None,
        RunState::Failed(_) => None,
    }
}

/// The state reached when `event` answers the action pending in `state`, for
/// a topology of `num_validators` standard nodes. Readiness resolves the poll
/// exactly when the ready count equals the desired count; any shortfall keeps
/// polling. Every failure event is absorbing.
pub open spec fn spec_step(num_validators: int, state: RunState, event: Event) -> RunState {
    match (state, event) {
        (RunState::Init, Event::NamespaceFound(true)) => RunState::NamespaceVerified,
        (RunState::Init, Event::NamespaceFound(false)) => RunState::Failed(
            FailureReason::NamespaceMissing,
        ),
        (RunState::Init, Event::NamespaceCheckFailed) => RunState::Failed(
            FailureReason::ClusterApiError,
        ),
        (RunState::NamespaceVerified, Event::ArtifactsGenerated) => RunState::GenesisReady,
        (RunState::NamespaceVerified, Event::ArtifactsFailed) => RunState::Failed(
            FailureReason::GenesisFailed,
        ),
        (RunState::GenesisReady, Event::DeployOk) => RunState::ConfigMapDeployed,
        (RunState::GenesisReady, Event::DeployFailed) => RunState::Failed(
            FailureReason::ClusterApiError,
        ),
        (RunState::ConfigMapDeployed, Event::DeployOk) => RunState::BootstrapSecretDeployed,
        (RunState::ConfigMapDeployed, Event::DeployFailed) => RunState::Failed(
            FailureReason::ClusterApiError,
        ),
        (RunState::BootstrapSecretDeployed, Event::DeployOk) => RunState::BootstrapReplicaSetDeployed,
        (RunState::BootstrapSecretDeployed, Event::DeployFailed) => RunState::Failed(
            FailureReason::ClusterApiError,
        ),
        (RunState::BootstrapReplicaSetDeployed, Event::DeployOk) => RunState::BootstrapServiceDeployed,
        (RunState::BootstrapReplicaSetDeployed, Event::DeployFailed) => RunState::Failed(
            FailureReason::ClusterApiError,
        ),
        (RunState::BootstrapServiceDeployed, Event::Status(desired, ready)) => if ready == desired {
            RunState::BootstrapReady
        } else {
            RunState::BootstrapPolling
        },
        (RunState::BootstrapServiceDeployed, Event::StatusFailed) => RunState::Failed(
            FailureReason::ClusterApiError,
        ),
        (RunState::BootstrapPolling, Event::Status(desired, ready)) => if ready == desired {
            RunState::BootstrapReady
        } else {
            RunState::BootstrapPolling
        },
        (RunState::BootstrapPolling, Event::StatusFailed) => RunState::Failed(
            FailureReason::ClusterApiError,
        ),
        (RunState::BootstrapReady, Event::DeployOk) => RunState::ValidatorDeploy(
            0,
            ValidatorPhase::ReplicaSet,
        ),
        (RunState::BootstrapReady, Event::DeployFailed) => RunState::Failed(
            FailureReason::ClusterApiError,
        ),
        (RunState::ValidatorDeploy(i, ValidatorPhase::Secret), Event::DeployOk) => RunState::ValidatorDeploy(
            i,
            ValidatorPhase::ReplicaSet,
        ),
        (RunState::ValidatorDeploy(i, ValidatorPhase::ReplicaSet), Event::DeployOk) => RunState::ValidatorDeploy(
            i,
            ValidatorPhase::Service,
        ),
        (RunState::ValidatorDeploy(i, ValidatorPhase::Service), Event::DeployOk) => if i + 1
            < num_validators {
            RunState::ValidatorDeploy((i + 1) as i32, ValidatorPhase::Secret)
        } else {
            RunState::Done
        },
        (RunState::ValidatorDeploy(_, _), Event::DeployFailed) => RunState::Failed(
            FailureReason::ClusterApiError,
        ),
        (_, _) => RunState::Failed(FailureReason::ProtocolViolation),
    }
}

/// The actions issued and the state reached when the events of `events`
/// answer the pending actions in order, starting from `state`. The run stops
/// at a terminal state, or when the events run out with an action still
/// pending (as an unready bootstrap set does: polling never resolves it).
pub open spec fn spec_run(num_validators: int, state: RunState, events: Seq<Event>) -> (Seq<
    Action,
>, RunState)
    decreases events.len(),
{
    if spec_action(state) is None || events.len() == 0 {
        (Seq::<Action>::empty(), state)
    } else {
        let a = spec_action(state)->0;
        let rest = spec_run(num_validators, spec_step(num_validators, state, events[0]), events.drop_first());
        (seq![a] + rest.0, rest.1)
    }
}

/// True of the actions that create a cluster resource.
pub open spec fn is_deploy_action(a: Action) -> bool {
    match a {
        Action::DeployConfigMap => true,
        Action::DeployBootstrapSecret => true,
        Action::DeployBootstrapReplicaSet => true,
        Action::DeployBootstrapService => true,
        Action::DeployValidatorSecret(_) => true,
        Action::DeployValidatorReplicaSet(_) => true,
        Action::DeployValidatorService(_) => true,
        Action::CheckNamespace => false,
        Action::GenerateArtifacts => false,
        Action::PollBootstrapStatus => false,
    }
}

/// The deployment orchestrator for a topology of `num_validators` standard
/// nodes behind one bootstrap node.
pub struct Orchestrator {
    pub num_validators: i32,
    pub state: RunState,
}

impl Orchestrator {
    /// A fresh run, positioned before the namespace check.
    pub fn new(num_validators: i32) -> (r: Orchestrator)
        requires
            1 <= num_validators,
        ensures
            r.num_validators == num_validators,
            r.state == RunState::Init,
    {
        Orchestrator { num_validators, state: RunState::Init }
    }

    /// The action the driver must perform next; `None` once the run is done
    /// or failed.
    pub fn next_action(&self) -> (r: Option<Action>)
        ensures
            r == spec_action(self.state),
    {
        action_of(self.state)
    }

    /// Advances by one observed event, exactly as `spec_step` describes.
    pub fn step(&mut self, event: Event)
        ensures
            final(self).num_validators == old(self).num_validators,
            final(self).state == spec_step(
                old(self).num_validators as int,
                old(self).state,
                event,
            ),
    {
        let next = step_state(self.num_validators, self.state, event);
        self.state = next;
    }
}

/// Executable twin of `spec_action`.
pub fn action_of(state: RunState) -> (r: Option<Action>)
    ensures
        r == spec_action(state),
{
        match state {
            RunState::Init => Some(Action::CheckNamespace),
            RunState::NamespaceVerified => Some(Action::GenerateArtifacts),
            RunState::GenesisReady => Some(Action::DeployConfigMap),
            RunState::ConfigMapDeployed => Some(Action::DeployBootstrapSecret),
            RunState::BootstrapSecretDeployed => Some(Action::DeployBootstrapReplicaSet),
            RunState::BootstrapReplicaSetDeployed => Some(Action::DeployBootstrapService),
            RunState::BootstrapServiceDeployed => Some(Action::PollBootstrapStatus),
            RunState::BootstrapPolling => Some(Action::PollBootstrapStatus),
            RunState::BootstrapReady => Some(Action::DeployValidatorSecret(0)),
            RunState::ValidatorDeploy(i, ValidatorPhase::Secret) => Some(
                Action::DeployValidatorSecret(i),
            ),
            RunState::ValidatorDeploy(i, ValidatorPhase::ReplicaSet) => Some(
                Action::DeployValidatorReplicaSet(i),
            ),
            RunState::ValidatorDeploy(i, ValidatorPhase::Service) => Some(
                Action::DeployValidatorService(i),
            ),
            RunState::Done => None,
            RunState::Failed(_) => None,
        }
}

/// Executable twin of `spec_step`.
pub fn step_state(num_validators: i32, state: RunState, event: Event) -> (r: RunState)
    ensures
        r == spec_step(num_validators as int, state, event),
{
    match (state, event) {
        (RunState::Init, Event::NamespaceFound(true)) => RunState::NamespaceVerified,
        (RunState::Init, Event::NamespaceFound(false)) => RunState::Failed(
            FailureReason::NamespaceMissing,
        ),
        (RunState::Init, Event::NamespaceCheckFailed) => RunState::Failed(
            FailureReason::ClusterApiError,
        ),
        (RunState::NamespaceVerified, Event::ArtifactsGenerated) => RunState::GenesisReady,
        (RunState::NamespaceVerified, Event::ArtifactsFailed) => RunState::Failed(
            FailureReason::GenesisFailed,
        ),
        (RunState::GenesisReady, Event::DeployOk) => RunState::ConfigMapDeployed,
        (RunState::GenesisReady, Event::DeployFailed) => RunState::Failed(
            FailureReason::ClusterApiError,
        ),
        (RunState::ConfigMapDeployed, Event::DeployOk) => RunState::BootstrapSecretDeployed,
        (RunState::ConfigMapDeployed, Event::DeployFailed) => RunState::Failed(
            FailureReason::ClusterApiError,
        ),
        (RunState::BootstrapSecretDeployed, Event::DeployOk) => RunState::BootstrapReplicaSetDeployed,
        (RunState::BootstrapSecretDeployed, Event::DeployFailed) => RunState::Failed(
            FailureReason::ClusterApiError,
        ),
        (RunState::BootstrapReplicaSetDeployed, Event::DeployOk) => RunState::BootstrapServiceDeployed,
        (RunState::BootstrapReplicaSetDeployed, Event::DeployFailed) => RunState::Failed(
            FailureReason::ClusterApiError,
        ),
        (RunState::BootstrapServiceDeployed, Event::Status(desired, ready)) => {
            if crate::kubernetes::check_replica_set_ready(desired, ready) {
                RunState::BootstrapReady
            } else {
                RunState::BootstrapPolling
            }
        },
        (RunState::BootstrapServiceDeployed, Event::StatusFailed) => RunState::Failed(
            FailureReason::ClusterApiError,
        ),
        (RunState::BootstrapPolling, Event::Status(desired, ready)) => {
            if crate::kubernetes::check_replica_set_ready(desired, ready) {
                RunState::BootstrapReady
            } else {
                RunState::BootstrapPolling
            }
        },
        (RunState::BootstrapPolling, Event::StatusFailed) => RunState::Failed(
            FailureReason::ClusterApiError,
        ),
        (RunState::BootstrapReady, Event::DeployOk) => RunState::ValidatorDeploy(
            0,
            ValidatorPhase::ReplicaSet,
        ),
        (RunState::BootstrapReady, Event::DeployFailed) => RunState::Failed(
            FailureReason::ClusterApiError,
        ),
        (RunState::ValidatorDeploy(i, ValidatorPhase::Secret), Event::DeployOk) => RunState::ValidatorDeploy(
            i,
            ValidatorPhase::ReplicaSet,
        ),
        (RunState::ValidatorDeploy(i, ValidatorPhase::ReplicaSet), Event::DeployOk) => RunState::ValidatorDeploy(
            i,
            ValidatorPhase::Service,
        ),
        (RunState::ValidatorDeploy(i, ValidatorPhase::Service), Event::DeployOk) => {
            if i < i32::MAX && i + 1 < num_validators {
                RunState::ValidatorDeploy(i + 1, ValidatorPhase::Secret)
            } else {
                RunState::Done
            }
        },
        (RunState::ValidatorDeploy(_, _), Event::DeployFailed) => RunState::Failed(
            FailureReason::ClusterApiError,
        ),
        (_, _) => RunState::Failed(FailureReason::ProtocolViolation),
    }
}

fn run_from(num_validators: i32, state: RunState, events: &Vec<Event>, at: usize) -> (r: (Vec<
    Action,
>, RunState))
    requires
        at <= events@.len(),
    ensures
        r.0@ == spec_run(num_validators as int, state, events@.skip(at as int)).0,
        r.1 == spec_run(num_validators as int, state, events@.skip(at as int)).1,
    decreases events@.len() - at,
{
    let pending = action_of(state);
    match pending {
        None => (Vec::new(), state),
        Some(a) => {
            if at == events.len() {
                proof {
                    assert(events@.skip(at as int).len() == 0);
                }
                (Vec::new(), state)
            } else {
                let next = step_state(num_validators, state, events[at]);
                let rec = run_from(num_validators, next, events, at + 1);
                let mut rest = rec.0;
                let last = rec.1;
                rest.insert(0, a);
                proof {
                    assert(events@.skip(at as int).drop_first() =~= events@.skip(at as int + 1));
                    assert(events@.skip(at as int)[0] == events@[at as int]);
                    assert(rest@ =~= spec_run(
                        num_validators as int,
                        state,
                        events@.skip(at as int),
                    ).0);
                }
                (rest, last)
            }
        },
    }
}

/// Replays a whole run: from `Init`, issues the pending action and consumes
/// the next event, until a terminal state is reached or the events run out.
/// Returns the actions issued, in order, and the final state. The result is
/// `spec_run` of the event sequence exactly.
pub fn run(num_validators: i32, events: &Vec<Event>) -> (r: (Vec<Action>, RunState))
    requires
        1 <= num_validators,
    ensures
        r.0@ == spec_run(num_validators as int, RunState::Init, events@).0,
        r.1 == spec_run(num_validators as int, RunState::Init, events@).1,
{
    let r = run_from(num_validators, RunState::Init, events, 0);
    proof {
        assert(events@.skip(0) =~= events@);
    }
    r
}

/// Law: when the namespace check answers that the namespace does not exist,
/// the run terminates at once in the precondition-failed state, after the
/// namespace check alone — no config map, secret, replica set or service is
/// ever deployed.
pub proof fn lemma_missing_namespace_deploys_nothing(num_validators: int, events: Seq<Event>)
    requires
        events.len() >= 1,
        events[0] == Event::NamespaceFound(false),
    ensures
        spec_run(num_validators, RunState::Init, events).0 == seq![Action::CheckNamespace],
        spec_run(num_validators, RunState::Init, events).1 == RunState::Failed(
            FailureReason::NamespaceMissing,
        ),
        forall|k: int|
            0 <= k < spec_run(num_validators, RunState::Init, events).0.len()
                ==> !is_deploy_action(#[trigger] spec_run(num_validators, RunState::Init, events).0[k]),
{
    let failed = RunState::Failed(FailureReason::NamespaceMissing);
    assert(spec_step(num_validators, RunState::Init, events[0]) == failed);
    assert(spec_run(num_validators, failed, events.drop_first()).0 == Seq::<Action>::empty());
    assert(spec_run(num_validators, RunState::Init, events).0 =~= seq![Action::CheckNamespace]);
}

/// Law: a status read resolves the bootstrap readiness poll exactly when the
/// observed ready count equals the desired count; any shortfall keeps the
/// run polling, and never moves it forward.
pub proof fn lemma_poll_resolves_iff_ready(num_validators: int, desired: i32, ready: i32)
    ensures
        spec_step(num_validators, RunState::BootstrapPolling, Event::Status(desired, ready))
            == RunState::BootstrapReady <==> ready == desired,
        ready != desired ==> spec_step(
            num_validators,
            RunState::BootstrapPolling,
            Event::Status(desired, ready),
        ) == RunState::BootstrapPolling,
        spec_step(num_validators, RunState::BootstrapServiceDeployed, Event::Status(desired, ready))
            == spec_step(num_validators, RunState::BootstrapPolling, Event::Status(desired, ready)),
{
}

/// True of the actions that deploy a standard-node resource.
pub open spec fn is_validator_deploy(a: Action) -> bool {
    match a {
        Action::DeployValidatorSecret(_) => true,
        Action::DeployValidatorReplicaSet(_) => true,
        Action::DeployValidatorService(_) => true,
        _ => false,
    }
}

/// True of the events that report the bootstrap replica set fully ready.
pub open spec fn is_ready_status(e: Event) -> bool {
    match e {
        Event::Status(desired, ready) => ready == desired,
        _ => false,
    }
}

/// True of the states a run passes through before bootstrap readiness was
/// observed.
pub open spec fn pre_ready_state(state: RunState) -> bool {
    match state {
        RunState::Init => true,
        RunState::NamespaceVerified => true,
        RunState::GenesisReady => true,
        RunState::ConfigMapDeployed => true,
        RunState::BootstrapSecretDeployed => true,
        RunState::BootstrapReplicaSetDeployed => true,
        RunState::BootstrapServiceDeployed => true,
        RunState::BootstrapPolling => true,
        _ => false,
    }
}

/// Law: starting from any state before bootstrap readiness (in particular
/// from `Init`), no standard-node resource is ever deployed until a status
/// read has reported the bootstrap replica set fully ready. The bootstrap
/// node's readiness is a hard dependency of the rest of the topology.
pub proof fn lemma_no_validator_deploy_before_ready(
    num_validators: int,
    state: RunState,
    events: Seq<Event>,
)
    requires
        pre_ready_state(state),
    ensures
        forall|k: int|
            0 <= k < spec_run(num_validators, state, events).0.len() && is_validator_deploy(
                #[trigger] spec_run(num_validators, state, events).0[k],
            ) ==> exists|m: int|
                0 <= m < k && m < events.len() && is_ready_status(#[trigger] events[m]),
    decreases events.len(),
{
    let actions = spec_run(num_validators, state, events).0;
    if events.len() == 0 {
        assert(actions.len() <= 1);
        assert(forall|k: int|
            0 <= k < actions.len() ==> !is_validator_deploy(#[trigger] actions[k]));
    } else {
        let next = spec_step(num_validators, state, events[0]);
        let tail = spec_run(num_validators, next, events.drop_first()).0;
        assert(actions == seq![spec_action(state)->0] + tail);
        assert(!is_validator_deploy(actions[0]));
        if pre_ready_state(next) {
            lemma_no_validator_deploy_before_ready(num_validators, next, events.drop_first());
            assert forall|k: int|
                0 <= k < actions.len() && is_validator_deploy(#[trigger] actions[k]) implies exists|
                m: int,
            | 0 <= m < k && m < events.len() && is_ready_status(#[trigger] events[m]) by {
                assert(k >= 1);
                assert(tail[k - 1] == actions[k]);
                let m0 = choose|m0: int|
                    0 <= m0 < k - 1 && m0 < events.drop_first().len() && is_ready_status(
                        events.drop_first()[m0],
                    );
                assert(events.drop_first()[m0] == events[m0 + 1]);
                assert(0 <= m0 + 1 < k && m0 + 1 < events.len() && is_ready_status(
                    events[m0 + 1],
                ));
            }
        } else if next == RunState::BootstrapReady {
            assert(is_ready_status(events[0]));
            assert forall|k: int|
                0 <= k < actions.len() && is_validator_deploy(#[trigger] actions[k]) implies exists|
                m: int,
            | 0 <= m < k && m < events.len() && is_ready_status(#[trigger] events[m]) by {
                assert(k >= 1);
                assert(0 <= 0 < k && 0 < events.len() && is_ready_status(events[0]));
            }
        } else {
            assert(next is Failed);
            assert(tail.len() == 0);
            assert(forall|k: int|
                0 <= k < actions.len() ==> !is_validator_deploy(#[trigger] actions[k]));
        }
    }
}

/// The actions that remain for standard nodes `i..n`: for each index, its
/// secret, then its replica set, then its service.
pub open spec fn remaining_validator_actions(i: int, n: int) -> Seq<Action>
    decreases n - i,
{
    if i < 0 || i >= n {
        Seq::<Action>::empty()
    } else {
        seq![
            Action::DeployValidatorSecret(i as i32),
            Action::DeployValidatorReplicaSet(i as i32),
            Action::DeployValidatorService(i as i32),
        ] + remaining_validator_actions(i + 1, n)
    }
}

proof fn lemma_deploy_state_consumes_ok(n: int, s: RunState, events: Seq<Event>)
    requires
        s is ValidatorDeploy || s == RunState::BootstrapReady,
        spec_run(n, s, events).1 == RunState::Done,
    ensures
        events.len() >= 1,
        events[0] == Event::DeployOk,
        spec_run(n, s, events).1 == spec_run(n, spec_step(n, s, events[0]), events.drop_first()).1,
        spec_run(n, s, events).0 == seq![spec_action(s)->0] + spec_run(
            n,
            spec_step(n, s, events[0]),
            events.drop_first(),
        ).0,
{
    if events.len() == 0 {
        assert(spec_run(n, s, events).1 == s);
        assert(false);
    }
    if events[0] != Event::DeployOk {
        let next = spec_step(n, s, events[0]);
        assert(next is Failed);
        assert(spec_run(n, next, events.drop_first()).1 == next);
        assert(false);
    }
}

proof fn lemma_done_run_from_validator(n: int, i: int, events: Seq<Event>)
    requires
        0 <= i < n <= 0x7fff_ffff,
        spec_run(n, RunState::ValidatorDeploy(i as i32, ValidatorPhase::Secret), events).1
            == RunState::Done,
    ensures
        spec_run(n, RunState::ValidatorDeploy(i as i32, ValidatorPhase::Secret), events).0
            == remaining_validator_actions(i, n),
    decreases events.len(),
{
    let s0 = RunState::ValidatorDeploy(i as i32, ValidatorPhase::Secret);
    let s1 = RunState::ValidatorDeploy(i as i32, ValidatorPhase::ReplicaSet);
    let s2 = RunState::ValidatorDeploy(i as i32, ValidatorPhase::Service);
    lemma_deploy_state_consumes_ok(n, s0, events);
    let e1 = events.drop_first();
    assert(spec_step(n, s0, events[0]) == s1);
    lemma_deploy_state_consumes_ok(n, s1, e1);
    let e2 = e1.drop_first();
    assert(spec_step(n, s1, e1[0]) == s2);
    lemma_deploy_state_consumes_ok(n, s2, e2);
    let e3 = e2.drop_first();
    if i + 1 < n {
        let s3 = RunState::ValidatorDeploy((i + 1) as i32, ValidatorPhase::Secret);
        assert(spec_step(n, s2, e2[0]) == s3);
        lemma_done_run_from_validator(n, i + 1, e3);
        assert(spec_run(n, s2, e2).0 =~= seq![Action::DeployValidatorService(i as i32)]
            + remaining_validator_actions(i + 1, n));
        assert(spec_run(n, s1, e1).0 =~= seq![Action::DeployValidatorReplicaSet(i as i32)]
            + spec_run(n, s2, e2).0);
        assert(spec_run(n, s0, events).0 =~= seq![Action::DeployValidatorSecret(i as i32)]
            + spec_run(n, s1, e1).0);
        assert(remaining_validator_actions(i, n) == seq![
            Action::DeployValidatorSecret(i as i32),
            Action::DeployValidatorReplicaSet(i as i32),
            Action::DeployValidatorService(i as i32),
        ] + remaining_validator_actions(i + 1, n));
        assert(spec_run(n, s1, e1).0 =~= seq![
            Action::DeployValidatorReplicaSet(i as i32),
            Action::DeployValidatorService(i as i32),
        ] + remaining_validator_actions(i + 1, n));
        assert(spec_run(n, s0, events).0 =~= seq![
            Action::DeployValidatorSecret(i as i32),
            Action::DeployValidatorReplicaSet(i as i32),
            Action::DeployValidatorService(i as i32),
        ] + remaining_validator_actions(i + 1, n));
        assert(spec_run(n, s0, events).0 =~= remaining_validator_actions(i, n));
    } else {
        assert(spec_step(n, s2, e2[0]) == RunState::Done);
        assert(spec_run(n, RunState::Done, e3).0 == Seq::<Action>::empty());
        assert(spec_run(n, s0, events).0 =~= remaining_validator_actions(i, n));
    }
}

/// Law: once bootstrap readiness is observed, a run that completes deploys
/// exactly one secret, one replica set and one service per standard node, in
/// index order `0..n`, and within each index in secret, replica-set, service
/// order — and nothing else.
pub proof fn lemma_done_run_deploys_validators_in_order(n: int, events: Seq<Event>)
    requires
        1 <= n <= 0x7fff_ffff,
        spec_run(n, RunState::BootstrapReady, events).1 == RunState::Done,
    ensures
        spec_run(n, RunState::BootstrapReady, events).0 == remaining_validator_actions(0, n),
{
    let s0 = RunState::BootstrapReady;
    let s1 = RunState::ValidatorDeploy(0, ValidatorPhase::ReplicaSet);
    let s2 = RunState::ValidatorDeploy(0, ValidatorPhase::Service);
    lemma_deploy_state_consumes_ok(n, s0, events);
    let e1 = events.drop_first();
    assert(spec_step(n, s0, events[0]) == s1);
    lemma_deploy_state_consumes_ok(n, s1, e1);
    let e2 = e1.drop_first();
    assert(spec_step(n, s1, e1[0]) == s2);
    lemma_deploy_state_consumes_ok(n, s2, e2);
    let e3 = e2.drop_first();
    if 1 < n {
        assert(spec_step(n, s2, e2[0]) == RunState::ValidatorDeploy(1, ValidatorPhase::Secret));
        lemma_done_run_from_validator(n, 1, e3);
        assert(spec_run(n, s2, e2).0 =~= seq![Action::DeployValidatorService(0)]
            + remaining_validator_actions(1, n));
        assert(spec_run(n, s1, e1).0 =~= seq![Action::DeployValidatorReplicaSet(0)]
            + spec_run(n, s2, e2).0);
        assert(spec_run(n, s0, events).0 =~= seq![Action::DeployValidatorSecret(0)]
            + spec_run(n, s1, e1).0);
        assert(remaining_validator_actions(0, n) == seq![
            Action::DeployValidatorSecret(0),
            Action::DeployValidatorReplicaSet(0),
            Action::DeployValidatorService(0),
        ] + remaining_validator_actions(1, n));
        assert(spec_run(n, s1, e1).0 =~= seq![
            Action::DeployValidatorReplicaSet(0),
            Action::DeployValidatorService(0),
        ] + remaining_validator_actions(1, n));
        assert(spec_run(n, s0, events).0 =~= seq![
            Action::DeployValidatorSecret(0),
            Action::DeployValidatorReplicaSet(0),
            Action::DeployValidatorService(0),
        ] + remaining_validator_actions(1, n));
        assert(spec_run(n, s0, events).0 =~= remaining_validator_actions(0, n));
    } else {
        assert(spec_step(n, s2, e2[0]) == RunState::Done);
        assert(spec_run(n, RunState::Done, e3).0 == Seq::<Action>::empty());
        assert(spec_run(n, s0, events).0 =~= remaining_validator_actions(0, n));
    }
}

/// The fixed opening of every successful run: namespace check, genesis
/// generation, then the bootstrap resources in config-map, secret,
/// replica-set, service order.
pub open spec fn bootstrap_prefix_actions() -> Seq<Action> {
    seq![
        Action::CheckNamespace,
        Action::GenerateArtifacts,
        Action::DeployConfigMap,
        Action::DeployBootstrapSecret,
        Action::DeployBootstrapReplicaSet,
        Action::DeployBootstrapService,
    ]
}

/// `p` consecutive status polls.
pub open spec fn poll_actions(p: int) -> Seq<Action> {
    Seq::new(p as nat, |k: int| Action::PollBootstrapStatus)
}

/// The one event that lets a pre-polling bootstrap state advance.
pub open spec fn forced_event(s: RunState) -> Event {
    match s {
        RunState::Init => Event::NamespaceFound(true),
        RunState::NamespaceVerified => Event::ArtifactsGenerated,
        _ => Event::DeployOk,
    }
}

proof fn lemma_bootstrap_step_forced(n: int, s: RunState, events: Seq<Event>)
    requires
        s == RunState::Init || s == RunState::NamespaceVerified || s == RunState::GenesisReady
            || s == RunState::ConfigMapDeployed || s == RunState::BootstrapSecretDeployed || s
            == RunState::BootstrapReplicaSetDeployed,
        spec_run(n, s, events).1 == RunState::Done,
    ensures
        events.len() >= 1,
        events[0] == forced_event(s),
        spec_run(n, s, events).1 == spec_run(n, spec_step(n, s, events[0]), events.drop_first()).1,
        spec_run(n, s, events).0 == seq![spec_action(s)->0] + spec_run(
            n,
            spec_step(n, s, events[0]),
            events.drop_first(),
        ).0,
{
    if events.len() == 0 {
        assert(spec_run(n, s, events).1 == s);
        assert(false);
    }
    if events[0] != forced_event(s) {
        let next = spec_step(n, s, events[0]);
        assert(next is Failed);
        assert(spec_run(n, next, events.drop_first()).1 == next);
        assert(false);
    }
}

proof fn lemma_done_polling(n: int, s: RunState, events: Seq<Event>)
    requires
        1 <= n <= 0x7fff_ffff,
        s == RunState::BootstrapServiceDeployed || s == RunState::BootstrapPolling,
        spec_run(n, s, events).1 == RunState::Done,
    ensures
        exists|p: int|
            1 <= p && #[trigger] poll_actions(p) + remaining_validator_actions(0, n) == spec_run(
                n,
                s,
                events,
            ).0,
    decreases events.len(),
{
    if events.len() == 0 {
        assert(spec_run(n, s, events).1 == s);
        assert(false);
    }
    let e0 = events[0];
    let next = spec_step(n, s, e0);
    let rest = events.drop_first();
    if !(e0 is Status) {
        assert(next is Failed);
        assert(spec_run(n, next, rest).1 == next);
        assert(false);
    }
    assert(spec_run(n, s, events).0 == seq![Action::PollBootstrapStatus] + spec_run(
        n,
        next,
        rest,
    ).0);
    if next == RunState::BootstrapReady {
        lemma_done_run_deploys_validators_in_order(n, rest);
        assert(poll_actions(1) =~= seq![Action::PollBootstrapStatus]);
        assert(poll_actions(1) + remaining_validator_actions(0, n) == spec_run(n, s, events).0);
    } else {
        assert(next == RunState::BootstrapPolling);
        lemma_done_polling(n, next, rest);
        let p0 = choose|p0: int|
            1 <= p0 && #[trigger] poll_actions(p0) + remaining_validator_actions(0, n)
                == spec_run(n, next, rest).0;
        assert(poll_actions(p0 + 1) =~= seq![Action::PollBootstrapStatus] + poll_actions(p0));
        assert(poll_actions(p0 + 1) + remaining_validator_actions(0, n) =~= seq![
            Action::PollBootstrapStatus,
        ] + (poll_actions(p0) + remaining_validator_actions(0, n)));
        assert(poll_actions(p0 + 1) + remaining_validator_actions(0, n) == spec_run(
            n,
            s,
            events,
        ).0);
    }
}

/// Law: a run that completes does exactly this, in this order — the fixed
/// bootstrap prefix, one or more status polls, then every standard node's
/// secret, replica set and service in index order. Nothing else is ever
/// issued in a successful run.
pub proof fn lemma_done_run_shape(n: int, events: Seq<Event>)
    requires
        1 <= n <= 0x7fff_ffff,
        spec_run(n, RunState::Init, events).1 == RunState::Done,
    ensures
        exists|p: int|
            1 <= p && #[trigger] bootstrap_prefix_actions() + poll_actions(p)
                + remaining_validator_actions(0, n) == spec_run(n, RunState::Init, events).0,
{
    let s0 = RunState::Init;
    lemma_bootstrap_step_forced(n, s0, events);
    let s1 = RunState::NamespaceVerified;
    let e1 = events.drop_first();
    assert(spec_step(n, s0, events[0]) == s1);
    lemma_bootstrap_step_forced(n, s1, e1);
    let s2 = RunState::GenesisReady;
    let e2 = e1.drop_first();
    assert(spec_step(n, s1, e1[0]) == s2);
    lemma_bootstrap_step_forced(n, s2, e2);
    let s3 = RunState::ConfigMapDeployed;
    let e3 = e2.drop_first();
    assert(spec_step(n, s2, e2[0]) == s3);
    lemma_bootstrap_step_forced(n, s3, e3);
    let s4 = RunState::BootstrapSecretDeployed;
    let e4 = e3.drop_first();
    assert(spec_step(n, s3, e3[0]) == s4);
    lemma_bootstrap_step_forced(n, s4, e4);
    let s5 = RunState::BootstrapReplicaSetDeployed;
    let e5 = e4.drop_first();
    assert(spec_step(n, s4, e4[0]) == s5);
    lemma_bootstrap_step_forced(n, s5, e5);
    let s6 = RunState::BootstrapServiceDeployed;
    let e6 = e5.drop_first();
    assert(spec_step(n, s5, e5[0]) == s6);
    lemma_done_polling(n, s6, e6);
    let p = choose|p: int|
        1 <= p && #[trigger] poll_actions(p) + remaining_validator_actions(0, n) == spec_run(
            n,
            s6,
            e6,
        ).0;
    assert(bootstrap_prefix_actions() + poll_actions(p) + remaining_validator_actions(0, n) =~= seq![
        Action::CheckNamespace,
    ] + (seq![Action::GenerateArtifacts] + (seq![Action::DeployConfigMap] + (seq![
        Action::DeployBootstrapSecret,
    ] + (seq![Action::DeployBootstrapReplicaSet] + (seq![Action::DeployBootstrapService]
        + (poll_actions(p) + remaining_validator_actions(0, n))))))));
    assert(bootstrap_prefix_actions() + poll_actions(p) + remaining_validator_actions(0, n)
        == spec_run(n, RunState::Init, events).0);
}

} // verus!
