//! Bringing up the settings service environment.
//!
//! The environment is brought up in a fixed sequence of steps: event
//! subscribers, the inspect broker, a proxy for every setting, the
//! switchboard, the agent authority, the FIDL services, the agents, and
//! finally the agents' lifespans. Each step is work outside this library;
//! [`EnvironmentSetup`] decides, from the outcome of each step, which step
//! comes next, and when the sequence ends and how.
use vstd::prelude::*;

use crate::collections::KeySet;
use crate::services::{enabled_services, fidl_services, FidlService};
use crate::setting_types::SettingType;

verus! {

/// How many times a setting proxy tries a request before giving up.
pub const DEFAULT_SETTING_PROXY_MAX_ATTEMPTS: u64 = 3;

/// How long, in milliseconds, a setting proxy waits for a response.
pub const DEFAULT_SETTING_PROXY_RESPONSE_TIMEOUT_MS: i64 = 10_000;

/// The phases of an agent's life in which it is run.
#[derive(Clone, Copy, Debug, PartialEq, Eq, Structural)]
pub enum Lifespan {
    Initialization,
    Service,
}

/// The parameters of a setting proxy.
#[derive(Clone, Copy, Debug, PartialEq, Eq, Structural)]
pub struct ProxyRequest {
    pub setting_type: SettingType,
    pub max_attempts: u64,
    pub response_timeout_ms: Option<i64>,
    pub retry_on_timeout: bool,
}

/// The proxy that the service creates for a setting.
pub open spec fn proxy_request_for(setting_type: SettingType) -> ProxyRequest {
    ProxyRequest {
        setting_type,
        max_attempts: DEFAULT_SETTING_PROXY_MAX_ATTEMPTS,
        response_timeout_ms: Some(DEFAULT_SETTING_PROXY_RESPONSE_TIMEOUT_MS),
        retry_on_timeout: true,
    }
}

/// Failures that stop the service outright.
#[derive(Clone, Copy, Debug, PartialEq, Eq, Structural)]
pub enum SetupAbort {
    InspectBroker,
    Switchboard,
}

impl SetupAbort {
    /// The message the service stops with.
    pub fn message(&self) -> (m: &'static str)
        ensures
            *self == SetupAbort::InspectBroker ==> m@ == "could not create inspect"@,
            *self == SetupAbort::Switchboard ==> m@ == "could not create switchboard"@,
    {
        match self {
            SetupAbort::InspectBroker => "could not create inspect",
            SetupAbort::Switchboard => "could not create switchboard",
        }
    }
}

/// The kinds of failure that end the bring-up with an error.
#[derive(Clone, Copy, Debug, PartialEq, Eq, Structural)]
pub enum SetupFailure {
    /// The proxy of this setting could not be created.
    ProxyCreation(SettingType),
    /// The agent authority could not be created.
    AuthorityCreation,
    /// An agent failed in its initialization lifespan.
    AgentInitialization,
}

/// The error that ends the bring-up, with the error `X` of the step that
/// failed where the bring-up hands it on.
#[derive(Clone, Copy, Debug, PartialEq, Eq)]
pub enum SetupError<X> {
    /// The proxy of this setting could not be created, with this error.
    ProxyCreation(SettingType, X),
    /// The agent authority could not be created, with this error.
    AuthorityCreation(X),
    /// An agent failed in its initialization lifespan.
    AgentInitialization,
}

impl<X> SetupError<X> {
    /// The bring-up's own message for the error; for a failed proxy or
    /// authority the error handed on speaks for itself.
    pub fn message(&self) -> (m: Option<&'static str>)
        ensures
            self is AgentInitialization ==> m is Some && m->0@ == "Agent initialization failed"@,
            !(self is AgentInitialization) ==> m is None,
    {
        match self {
            SetupError::AgentInitialization => Some("Agent initialization failed"),
            _ => None,
        }
    }
}

/// The error that a failure of `kind` ends the bring-up with, given what the
/// failing step returned.
pub open spec fn failure_error<X>(kind: SetupFailure, result: Result<(), X>) -> SetupError<X> {
    match kind {
        SetupFailure::ProxyCreation(t) => SetupError::ProxyCreation(t, result->Err_0),
        SetupFailure::AuthorityCreation => SetupError::AuthorityCreation(result->Err_0),
        SetupFailure::AgentInitialization => SetupError::AgentInitialization,
    }
}

/// Whether a step's result is a success or a failure.
pub open spec fn outcome_of<X>(result: Result<(), X>) -> Outcome {
    match result {
        Ok(_) => Outcome::Success,
        Err(_) => Outcome::Failure,
    }
}

/// What is reported, without stopping, along the way.
#[derive(Clone, Copy, Debug, PartialEq, Eq, Structural)]
pub enum SetupLog {
    AgentRegistrationFailed,
}

impl SetupLog {
    /// The message that is logged.
    pub fn message(&self) -> (m: &'static str)
        ensures
            m@ == "failed to register agent via blueprint"@,
    {
        "failed to register agent via blueprint"
    }
}

/// The outcome of a step.
#[derive(Clone, Copy, Debug, PartialEq, Eq, Structural)]
pub enum Outcome {
    Success,
    Failure,
}

/// Where the bring-up stands: the step under way, or how it ended.
#[derive(Clone, Copy, Debug, PartialEq, Eq, Structural)]
pub enum SetupStep {
    CreatingSubscriber(usize),
    CreatingInspectBroker,
    CreatingProxy(usize),
    BuildingSwitchboard,
    CreatingAuthority,
    RegisteringServices,
    RegisteringAgent(usize),
    InitializingAgents,
    StartingServiceAgents,
    /// The bring-up is over, without error.
    Completed,
    /// The bring-up is over, with this failure.
    Failed(SetupFailure),
    /// The service is stopped with this failure.
    Aborted(SetupAbort),
}

/// The work to perform next; `X` is the error that a failing step returns.
#[derive(Debug, PartialEq, Eq)]
pub enum SetupAction<X> {
    /// Create the event subscriber of this index.
    CreateSubscriber(usize),
    CreateInspectBroker,
    CreateProxy(ProxyRequest),
    /// Build the switchboard over the proxies of these settings.
    BuildSwitchboard(Vec<SettingType>),
    /// Create the agent authority for these settings.
    CreateAuthority(Vec<SettingType>),
    /// Publish these FIDL services, in this order.
    RegisterServices(Vec<FidlService>),
    /// Register the agent of this index with the authority.
    RegisterAgent(usize),
    /// Run the agents' lifespan, one agent after another if `sequential`.
    ExecuteLifespan(Lifespan, bool),
    /// Stop the service with this failure.
    Abort(SetupAbort),
    /// The bring-up is over, with this result.
    Finish(Result<(), SetupError<X>>),
}

/// What a step of the bring-up hands back: the next work, and what to log.
#[derive(Debug, PartialEq, Eq)]
pub struct SetupTransition<X> {
    pub action: SetupAction<X>,
    pub log: Option<SetupLog>,
}

/// Whether the bring-up is over.
pub open spec fn is_terminal(step: SetupStep) -> bool {
    step is Completed || step is Failed || step is Aborted
}

/// The first step.
pub open spec fn first_step(subscribers: nat) -> SetupStep {
    if subscribers > 0 {
        SetupStep::CreatingSubscriber(0)
    } else {
        SetupStep::CreatingInspectBroker
    }
}

/// The step after the subscribers.
pub open spec fn proxies_step(components: nat) -> SetupStep {
    if components > 0 {
        SetupStep::CreatingProxy(0)
    } else {
        SetupStep::BuildingSwitchboard
    }
}

/// The step after the services are published.
pub open spec fn agents_step(agents: nat) -> SetupStep {
    if agents > 0 {
        SetupStep::RegisteringAgent(0)
    } else {
        SetupStep::InitializingAgents
    }
}

/// The step that follows `step` when it ends with `outcome`, for
/// `components` (in proxy order) and the given numbers of event subscribers
/// and agents. Only the inspect broker, the proxies, the switchboard, the
/// authority and the agents' initialization can fail the bring-up.
pub open spec fn next_step(
    step: SetupStep,
    outcome: Outcome,
    components: Seq<SettingType>,
    subscribers: nat,
    agents: nat,
) -> SetupStep {
    match step {
        SetupStep::CreatingSubscriber(i) => if i + 1 < subscribers {
            SetupStep::CreatingSubscriber((i + 1) as usize)
        } else {
            SetupStep::CreatingInspectBroker
        },
        SetupStep::CreatingInspectBroker => match outcome {
            Outcome::Failure => SetupStep::Aborted(SetupAbort::InspectBroker),
            Outcome::Success => proxies_step(components.len()),
        },
        SetupStep::CreatingProxy(i) => match outcome {
            Outcome::Failure => SetupStep::Failed(SetupFailure::ProxyCreation(components[i as int])),
            Outcome::Success => if i + 1 < components.len() {
                SetupStep::CreatingProxy((i + 1) as usize)
            } else {
                SetupStep::BuildingSwitchboard
            },
        },
        SetupStep::BuildingSwitchboard => match outcome {
            Outcome::Failure => SetupStep::Aborted(SetupAbort::Switchboard),
            Outcome::Success => SetupStep::CreatingAuthority,
        },
        SetupStep::CreatingAuthority => match outcome {
            Outcome::Failure => SetupStep::Failed(SetupFailure::AuthorityCreation),
            Outcome::Success => SetupStep::RegisteringServices,
        },
        SetupStep::RegisteringServices => agents_step(agents),
        SetupStep::RegisteringAgent(i) => if i + 1 < agents {
            SetupStep::RegisteringAgent((i + 1) as usize)
        } else {
            SetupStep::InitializingAgents
        },
        SetupStep::InitializingAgents => match outcome {
            Outcome::Failure => SetupStep::Failed(SetupFailure::AgentInitialization),
            Outcome::Success => SetupStep::StartingServiceAgents,
        },
        SetupStep::StartingServiceAgents => SetupStep::Completed,
        SetupStep::Completed | SetupStep::Failed(_) | SetupStep::Aborted(_) => step,
    }
}

/// Whether `action` is the work of `step`.
pub open spec fn action_of<X>(
    action: SetupAction<X>,
    step: SetupStep,
    components: Seq<SettingType>,
    services: Seq<FidlService>,
) -> bool {
    match step {
        SetupStep::CreatingSubscriber(i) => action == SetupAction::<X>::CreateSubscriber(i),
        SetupStep::CreatingInspectBroker => action == SetupAction::<X>::CreateInspectBroker,
        SetupStep::CreatingProxy(i) => action == SetupAction::<X>::CreateProxy(
            proxy_request_for(components[i as int]),
        ),
        SetupStep::BuildingSwitchboard => match action {
            SetupAction::BuildSwitchboard(v) => v@ == components,
            _ => false,
        },
        SetupStep::CreatingAuthority => match action {
            SetupAction::CreateAuthority(v) => v@ == components,
            _ => false,
        },
        SetupStep::RegisteringServices => match action {
            SetupAction::RegisterServices(v) => v@ == services,
            _ => false,
        },
        SetupStep::RegisteringAgent(i) => action == SetupAction::<X>::RegisterAgent(i),
        SetupStep::InitializingAgents => action == SetupAction::<X>::ExecuteLifespan(
            Lifespan::Initialization,
            true,
        ),
        SetupStep::StartingServiceAgents => action == SetupAction::<X>::ExecuteLifespan(
            Lifespan::Service,
            false,
        ),
        SetupStep::Completed => action == SetupAction::<X>::Finish(Ok(())),
        SetupStep::Failed(kind) => match action {
            SetupAction::Finish(Err(e)) => error_kind(e) == kind,
            _ => false,
        },
        SetupStep::Aborted(a) => action == SetupAction::<X>::Abort(a),
    }
}

/// The kind of an error of the bring-up.
pub open spec fn error_kind<X>(e: SetupError<X>) -> SetupFailure {
    match e {
        SetupError::ProxyCreation(t, _) => SetupFailure::ProxyCreation(t),
        SetupError::AuthorityCreation(_) => SetupFailure::AuthorityCreation,
        SetupError::AgentInitialization => SetupFailure::AgentInitialization,
    }
}

/// A copy of `v`.
fn copy_vec<T: Copy>(v: &Vec<T>) -> (r: Vec<T>)
    ensures
        r@ == v@,
{
    let mut r: Vec<T> = Vec::new();
    let n = v.len();
    let mut j: usize = 0;
    while j < n
        invariant
            n == v@.len(),
            j <= n,
            r@ == v@.take(j as int),
        decreases n - j,
    {
        r.push(v[j]);
        assert(v@.take(j + 1) == v@.take(j as int).push(v@[j as int]));
        j = j + 1;
    }
    assert(v@.take(n as int) == v@);
    r
}

/// Whether the indices in `step` are in range.
pub open spec fn step_in_range(step: SetupStep, components: nat, subscribers: nat, agents: nat) -> bool {
    match step {
        SetupStep::CreatingSubscriber(i) => i < subscribers,
        SetupStep::CreatingProxy(i) => i < components,
        SetupStep::RegisteringAgent(i) => i < agents,
        _ => true,
    }
}

/// How many steps are left at most before the bring-up is over.
pub open spec fn steps_left(step: SetupStep, components: nat, subscribers: nat, agents: nat) -> nat {
    match step {
        SetupStep::CreatingSubscriber(i) => ((subscribers - i) + components + agents + 6) as nat,
        SetupStep::CreatingInspectBroker => components + agents + 6,
        SetupStep::CreatingProxy(i) => ((components - i) + agents + 5) as nat,
        SetupStep::BuildingSwitchboard => agents + 5,
        SetupStep::CreatingAuthority => agents + 4,
        SetupStep::RegisteringServices => agents + 3,
        SetupStep::RegisteringAgent(i) => ((agents - i) + 2) as nat,
        SetupStep::InitializingAgents => 2,
        SetupStep::StartingServiceAgents => 1,
        SetupStep::Completed | SetupStep::Failed(_) | SetupStep::Aborted(_) => 0,
    }
}

/// Whether a failure of `step` changes the course of the bring-up.
pub open spec fn can_fail(step: SetupStep) -> bool {
    match step {
        SetupStep::CreatingInspectBroker | SetupStep::CreatingProxy(_)
        | SetupStep::BuildingSwitchboard | SetupStep::CreatingAuthority
        | SetupStep::InitializingAgents => true,
        _ => false,
    }
}

/// The bring-up of the settings service environment.
pub struct EnvironmentSetup {
    components: Vec<SettingType>,
    services: Vec<FidlService>,
    subscribers: usize,
    agents: usize,
    step: SetupStep,
}

impl EnvironmentSetup {
    #[verifier::type_invariant]
    spec fn inv(self) -> bool {
        step_in_range(self.step, self.components@.len(), self.subscribers as nat, self.agents as nat)
    }

    /// The settings, in the order in which their proxies are created.
    pub closed spec fn components(&self) -> Seq<SettingType> {
        self.components@
    }

    /// The FIDL services to publish.
    pub closed spec fn services(&self) -> Seq<FidlService> {
        self.services@
    }

    /// How many event subscribers are created.
    pub closed spec fn subscriber_count(&self) -> nat {
        self.subscribers as nat
    }

    /// How many agents are registered.
    pub closed spec fn agent_count(&self) -> nat {
        self.agents as nat
    }

    /// The step under way, or how the bring-up ended.
    pub closed spec fn current(&self) -> SetupStep {
        self.step
    }

    /// The work of the current step, which has not failed.
    fn action<X>(&self) -> (a: SetupAction<X>)
        requires
            !(self.current() is Failed),
        ensures
            action_of(a, self.current(), self.components(), self.services()),
    {
        proof {
            use_type_invariant(self);
        }
        match self.step {
            SetupStep::CreatingSubscriber(i) => SetupAction::CreateSubscriber(i),
            SetupStep::CreatingInspectBroker => SetupAction::CreateInspectBroker,
            SetupStep::CreatingProxy(i) => SetupAction::CreateProxy(
                ProxyRequest {
                    setting_type: self.components[i],
                    max_attempts: DEFAULT_SETTING_PROXY_MAX_ATTEMPTS,
                    response_timeout_ms: Some(DEFAULT_SETTING_PROXY_RESPONSE_TIMEOUT_MS),
                    retry_on_timeout: true,
                },
            ),
            SetupStep::BuildingSwitchboard => SetupAction::BuildSwitchboard(copy_vec(&self.components)),
            SetupStep::CreatingAuthority => SetupAction::CreateAuthority(copy_vec(&self.components)),
            SetupStep::RegisteringServices => SetupAction::RegisterServices(copy_vec(&self.services)),
            SetupStep::RegisteringAgent(i) => SetupAction::RegisterAgent(i),
            SetupStep::InitializingAgents => SetupAction::ExecuteLifespan(
                Lifespan::Initialization,
                true,
            ),
            SetupStep::StartingServiceAgents => SetupAction::ExecuteLifespan(Lifespan::Service, false),
            SetupStep::Completed => SetupAction::Finish(Ok(())),
            SetupStep::Failed(_) => SetupAction::Finish(Ok(())),
            SetupStep::Aborted(a) => SetupAction::Abort(a),
        }
    }

    /// Starts bringing up `components` with the given numbers of event
    /// subscribers and agents; hands back the first work to perform.
    pub fn start<X>(components: &KeySet<SettingType>, subscribers: usize, agents: usize) -> (r: (
        EnvironmentSetup,
        SetupAction<X>,
    ))
        ensures
            r.0.components() == components.elements_seq(),
            r.0.components().to_set() == components@,
            r.0.components().no_duplicates(),
            r.0.services() == enabled_services(components@),
            r.0.subscriber_count() == subscribers,
            r.0.agent_count() == agents,
            r.0.current() == first_step(subscribers as nat),
            action_of(r.1, r.0.current(), r.0.components(), r.0.services()),
    {
        let step = if subscribers > 0 {
            SetupStep::CreatingSubscriber(0)
        } else {
            SetupStep::CreatingInspectBroker
        };
        let setup = EnvironmentSetup {
            components: components.elements(),
            services: fidl_services(components),
            subscribers,
            agents,
            step,
        };
        let action = setup.action();
        (setup, action)
    }

    /// Records the result of the current step and moves to the next one;
    /// hands back its work, and what to log. A failed proxy or authority
    /// ends the bring-up with the error that step returned.
    pub fn advance<X>(&mut self, result: Result<(), X>) -> (t: SetupTransition<X>)
        requires
            !is_terminal(old(self).current()),
        ensures
            final(self).components() == old(self).components(),
            final(self).services() == old(self).services(),
            final(self).subscriber_count() == old(self).subscriber_count(),
            final(self).agent_count() == old(self).agent_count(),
            final(self).current() == next_step(
                old(self).current(),
                outcome_of(result),
                old(self).components(),
                old(self).subscriber_count(),
                old(self).agent_count(),
            ),
            !(final(self).current() is Failed) ==> action_of(
                t.action,
                final(self).current(),
                final(self).components(),
                final(self).services(),
            ),
            final(self).current() is Failed ==> t.action == SetupAction::Finish(
                Err(failure_error(final(self).current()->Failed_0, result)),
            ),
            t.log == (if old(self).current() is RegisteringAgent && outcome_of(result)
                == Outcome::Failure {
                Some(SetupLog::AgentRegistrationFailed)
            } else {
                None::<SetupLog>
            }),
            steps_left(
                final(self).current(),
                final(self).components().len(),
                final(self).subscriber_count(),
                final(self).agent_count(),
            ) < steps_left(
                old(self).current(),
                old(self).components().len(),
                old(self).subscriber_count(),
                old(self).agent_count(),
            ),
    {
        proof {
            use_type_invariant(&*self);
        }
        let err: Option<X> = match result {
            Ok(()) => None,
            Err(e) => Some(e),
        };
        let failed = err.is_some();
        let mut log: Option<SetupLog> = None;
        let next = match self.step {
            SetupStep::CreatingSubscriber(i) => if i + 1 < self.subscribers {
                SetupStep::CreatingSubscriber(i + 1)
            } else {
                SetupStep::CreatingInspectBroker
            },
            SetupStep::CreatingInspectBroker => if failed {
                SetupStep::Aborted(SetupAbort::InspectBroker)
            } else if self.components.len() > 0 {
                SetupStep::CreatingProxy(0)
            } else {
                SetupStep::BuildingSwitchboard
            },
            SetupStep::CreatingProxy(i) => if failed {
                SetupStep::Failed(SetupFailure::ProxyCreation(self.components[i]))
            } else if i < self.components.len() - 1 {
                SetupStep::CreatingProxy(i + 1)
            } else {
                SetupStep::BuildingSwitchboard
            },
            SetupStep::BuildingSwitchboard => if failed {
                SetupStep::Aborted(SetupAbort::Switchboard)
            } else {
                SetupStep::CreatingAuthority
            },
            SetupStep::CreatingAuthority => if failed {
                SetupStep::Failed(SetupFailure::AuthorityCreation)
            } else {
                SetupStep::RegisteringServices
            },
            SetupStep::RegisteringServices => if self.agents > 0 {
                SetupStep::RegisteringAgent(0)
            } else {
                SetupStep::InitializingAgents
            },
            SetupStep::RegisteringAgent(i) => {
                if failed {
                    log = Some(SetupLog::AgentRegistrationFailed);
                }
                if i + 1 < self.agents {
                    SetupStep::RegisteringAgent(i + 1)
                } else {
                    SetupStep::InitializingAgents
                }
            },
            SetupStep::InitializingAgents => if failed {
                SetupStep::Failed(SetupFailure::AgentInitialization)
            } else {
                SetupStep::StartingServiceAgents
            },
            SetupStep::StartingServiceAgents => SetupStep::Completed,
            SetupStep::Completed => SetupStep::Completed,
            SetupStep::Failed(e) => SetupStep::Failed(e),
            SetupStep::Aborted(a) => SetupStep::Aborted(a),
        };
        self.step = next;
        let action = match next {
            SetupStep::Failed(kind) => match kind {
                SetupFailure::ProxyCreation(setting_type) => match err {
                    Some(e) => SetupAction::Finish(Err(SetupError::ProxyCreation(setting_type, e))),
                    None => SetupAction::Finish(Err(SetupError::AgentInitialization)),
                },
                SetupFailure::AuthorityCreation => match err {
                    Some(e) => SetupAction::Finish(Err(SetupError::AuthorityCreation(e))),
                    None => SetupAction::Finish(Err(SetupError::AgentInitialization)),
                },
                SetupFailure::AgentInitialization => SetupAction::Finish(
                    Err(SetupError::AgentInitialization),
                ),
            },
            _ => self.action(),
        };
        SetupTransition { action, log }
    }
}

/// A failure of a step that cannot fail the bring-up is the same as its
/// success: a subscriber, the services, an agent's registration or the
/// service lifespan never change what comes next.
pub proof fn lemma_harmless_failures(
    step: SetupStep,
    components: Seq<SettingType>,
    subscribers: nat,
    agents: nat,
)
    requires
        !can_fail(step),
    ensures
        next_step(step, Outcome::Failure, components, subscribers, agents) == next_step(
            step,
            Outcome::Success,
            components,
            subscribers,
            agents,
        ),
{
}

/// A failure of a step that can fail the bring-up ends it: with an error
/// for a proxy, the authority or the agents' initialization, and by
/// stopping the service for the inspect broker or the switchboard.
pub proof fn lemma_failures_end_setup(
    step: SetupStep,
    components: Seq<SettingType>,
    subscribers: nat,
    agents: nat,
)
    requires
        can_fail(step),
    ensures
        is_terminal(next_step(step, Outcome::Failure, components, subscribers, agents)),
        next_step(step, Outcome::Failure, components, subscribers, agents) != SetupStep::Completed,
{
}

/// The course of the bring-up from `step` given the outcomes of the steps,
/// one outcome per step.
pub open spec fn run(
    step: SetupStep,
    outcomes: Seq<Outcome>,
    components: Seq<SettingType>,
    subscribers: nat,
    agents: nat,
) -> SetupStep
    decreases outcomes.len(),
{
    if outcomes.len() == 0 || is_terminal(step) {
        step
    } else {
        run(
            next_step(step, outcomes[0], components, subscribers, agents),
            outcomes.drop_first(),
            components,
            subscribers,
            agents,
        )
    }
}

/// Whether, along the course that `outcomes` give from `step`, every step
/// that can fail the bring-up succeeds.
pub open spec fn failing_steps_succeed(
    step: SetupStep,
    outcomes: Seq<Outcome>,
    components: Seq<SettingType>,
    subscribers: nat,
    agents: nat,
) -> bool
    decreases outcomes.len(),
{
    if outcomes.len() == 0 || is_terminal(step) {
        true
    } else {
        &&& (can_fail(step) ==> outcomes[0] == Outcome::Success)
        &&& failing_steps_succeed(
            next_step(step, outcomes[0], components, subscribers, agents),
            outcomes.drop_first(),
            components,
            subscribers,
            agents,
        )
    }
}

/// Once over, the bring-up stays as it ended.
pub proof fn lemma_run_terminal(
    step: SetupStep,
    outcomes: Seq<Outcome>,
    components: Seq<SettingType>,
    subscribers: nat,
    agents: nat,
)
    requires
        is_terminal(step),
    ensures
        run(step, outcomes, components, subscribers, agents) == step,
{
}

/// The bring-up completes without error exactly when every step that can
/// fail it succeeds: given one outcome for each step that is left, the
/// outcomes of the event subscribers, the services, the agents'
/// registrations and the service lifespan do not matter.
pub proof fn lemma_completes_iff_failing_steps_succeed(
    step: SetupStep,
    outcomes: Seq<Outcome>,
    components: Seq<SettingType>,
    subscribers: nat,
    agents: nat,
)
    requires
        !is_terminal(step),
        step_in_range(step, components.len(), subscribers, agents),
        outcomes.len() == steps_left(step, components.len(), subscribers, agents),
        components.len() <= usize::MAX,
        subscribers <= usize::MAX,
        agents <= usize::MAX,
    ensures
        (run(step, outcomes, components, subscribers, agents) == SetupStep::Completed)
            == failing_steps_succeed(step, outcomes, components, subscribers, agents),
    decreases outcomes.len(),
{
    let o = outcomes[0];
    let next = next_step(step, o, components, subscribers, agents);
    let rest = outcomes.drop_first();
    assert(outcomes.len() > 0);
    assert(run(step, outcomes, components, subscribers, agents) == run(
        next,
        rest,
        components,
        subscribers,
        agents,
    ));
    assert(failing_steps_succeed(step, outcomes, components, subscribers, agents) == ((can_fail(
        step,
    ) ==> o == Outcome::Success) && failing_steps_succeed(
        next,
        rest,
        components,
        subscribers,
        agents,
    )));
    if can_fail(step) && o == Outcome::Failure {
        lemma_failures_end_setup(step, components, subscribers, agents);
        lemma_run_terminal(next, rest, components, subscribers, agents);
    } else {
        if !can_fail(step) {
            lemma_harmless_failures(step, components, subscribers, agents);
        }
        assert(next == next_step(step, Outcome::Success, components, subscribers, agents));
        assert(steps_left(next, components.len(), subscribers, agents) == rest.len());
        if is_terminal(next) {
            assert(next == SetupStep::Completed);
            lemma_run_terminal(next, rest, components, subscribers, agents);
        } else {
            lemma_completes_iff_failing_steps_succeed(next, rest, components, subscribers, agents);
        }
    }
}

/// When every step succeeds, the bring-up completes without error.
pub proof fn lemma_all_success_completes(
    step: SetupStep,
    components: Seq<SettingType>,
    subscribers: nat,
    agents: nat,
)
    requires
        !is_terminal(step),
        step_in_range(step, components.len(), subscribers, agents),
        components.len() <= usize::MAX,
        subscribers <= usize::MAX,
        agents <= usize::MAX,
    ensures
        run(
            step,
            Seq::new(steps_left(step, components.len(), subscribers, agents), |i: int| Outcome::Success),
            components,
            subscribers,
            agents,
        ) == SetupStep::Completed,
    decreases steps_left(step, components.len(), subscribers, agents),
{
    let n = steps_left(step, components.len(), subscribers, agents);
    let outcomes = Seq::new(n, |i: int| Outcome::Success);
    let next = next_step(step, Outcome::Success, components, subscribers, agents);
    let m = steps_left(next, components.len(), subscribers, agents);
    assert(m + 1 == n);
    assert(outcomes.drop_first() =~= Seq::new(m, |i: int| Outcome::Success));
    assert(outcomes[0] == Outcome::Success);
    assert(run(step, outcomes, components, subscribers, agents) == run(
        next,
        outcomes.drop_first(),
        components,
        subscribers,
        agents,
    ));
    if !is_terminal(next) {
        lemma_all_success_completes(next, components, subscribers, agents);
    } else {
        assert(next == SetupStep::Completed);
    }
}

/// How each step that can fail ends the bring-up when it fails, whatever
/// the settings and the numbers of subscribers and agents: only the inspect
/// broker and the switchboard stop the service; a proxy, the agent authority
/// and the agents' initialization end it with an error, and a failed proxy or
/// authority hands on the error its step returned.
pub proof fn lemma_failure_endings<X>(
    components: Seq<SettingType>,
    subscribers: nat,
    agents: nat,
    i: usize,
    e: X,
)
    requires
        i < components.len(),
    ensures
        next_step(SetupStep::CreatingInspectBroker, Outcome::Failure, components, subscribers, agents)
            == SetupStep::Aborted(SetupAbort::InspectBroker),
        next_step(SetupStep::CreatingProxy(i), Outcome::Failure, components, subscribers, agents)
            == SetupStep::Failed(SetupFailure::ProxyCreation(components[i as int])),
        next_step(SetupStep::BuildingSwitchboard, Outcome::Failure, components, subscribers, agents)
            == SetupStep::Aborted(SetupAbort::Switchboard),
        next_step(SetupStep::CreatingAuthority, Outcome::Failure, components, subscribers, agents)
            == SetupStep::Failed(SetupFailure::AuthorityCreation),
        next_step(SetupStep::InitializingAgents, Outcome::Failure, components, subscribers, agents)
            == SetupStep::Failed(SetupFailure::AgentInitialization),
        failure_error(SetupFailure::ProxyCreation(components[i as int]), Err::<(), X>(e))
            == SetupError::ProxyCreation(components[i as int], e),
        failure_error(SetupFailure::AuthorityCreation, Err::<(), X>(e)) == SetupError::AuthorityCreation(
            e,
        ),
        failure_error(SetupFailure::AgentInitialization, Err::<(), X>(e))
            == SetupError::<X>::AgentInitialization,
{
}

/// The service is stopped only by a failure of the inspect broker or of the
/// switchboard: no other step, and no success, stops it.
pub proof fn lemma_only_inspect_and_switchboard_abort(
    step: SetupStep,
    outcome: Outcome,
    components: Seq<SettingType>,
    subscribers: nat,
    agents: nat,
)
    requires
        !is_terminal(step),
    ensures
        next_step(step, outcome, components, subscribers, agents) is Aborted ==> outcome
            == Outcome::Failure && (step == SetupStep::CreatingInspectBroker || step
            == SetupStep::BuildingSwitchboard),
        next_step(step, outcome, components, subscribers, agents) is Failed ==> outcome
            == Outcome::Failure && (step is CreatingProxy || step == SetupStep::CreatingAuthority
            || step == SetupStep::InitializingAgents),
{
}
} // verus!
