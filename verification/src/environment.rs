//! The environment of the settings service, and the builder that gathers its
//! parameters.
//!
//! The builder is generic in what it only carries: the storage factory (`S`),
//! the service generator (`G`), the custom handler generators (`H`), and the
//! blueprints of the agents (`A`) and of the event subscribers (`E`).
use vstd::prelude::*;
use vstd::pervasive::cloned;

use crate::collections::{KeyMap, KeySet};
use crate::config::ServiceConfiguration;
use crate::handlers::{external_brightness, handler_registry, handler_table, HandlerSource};
use crate::services::enabled_services;
use crate::setting_types::{ControllerFlag, SettingType};
use crate::setup::{action_of, first_step, EnvironmentSetup, SetupAction, SetupError};

verus! {

/// The environment handed back when an environment is spawned from the
/// [`EnvironmentBuilder`]: the nested environment, if one was created.
pub struct Environment<N> {
    pub nested_environment: Option<N>,
}

impl<N> Environment<N> {
    pub fn new(nested_environment: Option<N>) -> (e: Environment<N>)
        ensures
            e.nested_environment == nested_environment,
    {
        Environment { nested_environment }
    }

    /// The nested environment, which must have been created.
    pub fn into_nested_environment(self) -> (r: Result<N, EnvironmentError>)
        ensures
            match self.nested_environment {
                Some(env) => r == Ok::<N, EnvironmentError>(env),
                None => r == Err::<N, EnvironmentError>(
                    EnvironmentError::NestedEnvironmentNotCreated,
                ),
            },
    {
        match self.nested_environment {
            Some(env) => Ok(env),
            None => Err(EnvironmentError::NestedEnvironmentNotCreated),
        }
    }
}

/// Where the environment will exist: `Service` is meant for production and
/// makes the settings discoverable as an environment service; `Nested`
/// creates a service only usable in the scope of a test.
#[derive(PartialEq, Debug, Clone, Copy)]
pub enum Runtime {
    Service,
    Nested(&'static str),
}

/// The directory in which the FIDL services are published.
#[derive(PartialEq, Eq, Debug, Clone, Copy, Structural)]
pub enum ServiceDirectory {
    /// The `svc` directory of the component's outgoing directory.
    Svc,
    /// The root of the outgoing directory.
    Root,
}

/// Why an environment could not be brought up.
#[derive(PartialEq, Eq, Debug, Clone, Copy, Structural)]
pub enum EnvironmentError {
    CouldNotCreateEnvironment,
    NestedEnvironmentNotCreated,
}

impl EnvironmentError {
    /// The message of the error.
    pub fn message(&self) -> (m: &'static str)
        ensures
            *self == EnvironmentError::CouldNotCreateEnvironment ==> m@
                == "could not create environment"@,
            *self == EnvironmentError::NestedEnvironmentNotCreated ==> m@
                == "nested environment not created"@,
    {
        match self {
            EnvironmentError::CouldNotCreateEnvironment => "could not create environment",
            EnvironmentError::NestedEnvironmentNotCreated => "nested environment not created",
        }
    }
}

/// What bringing up an environment reports, given how the bring-up ended:
/// any failure of the bring-up is reported as the environment not being
/// created.
pub fn environment_result<X>(setup_result: Result<(), SetupError<X>>) -> (r: Result<(), EnvironmentError>)
    ensures
        r == match setup_result {
            Ok(()) => Ok::<(), EnvironmentError>(()),
            Err(_) => Err(EnvironmentError::CouldNotCreateEnvironment),
        },
{
    match setup_result {
        Ok(()) => Ok(()),
        Err(_) => Err(EnvironmentError::CouldNotCreateEnvironment),
    }
}

/// A configuration, as the sets it holds.
pub type ConfigurationView = Option<(Set<SettingType>, Set<ControllerFlag>)>;

/// The settings of a configuration; none without one.
pub open spec fn configured_services(c: ConfigurationView) -> Set<SettingType> {
    match c {
        Some(p) => p.0,
        None => Set::empty(),
    }
}

/// The controller flags of a configuration; none without one.
pub open spec fn configured_flags(c: ConfigurationView) -> Set<ControllerFlag> {
    match c {
        Some(p) => p.1,
        None => Set::empty(),
    }
}

/// The configuration once the participating settings are set to `services`:
/// the flags stay.
pub open spec fn with_settings(c: ConfigurationView, services: Set<SettingType>) -> ConfigurationView {
    Some((services, configured_flags(c)))
}

/// The configuration once the controller flags are set to `flags`: the
/// settings stay.
pub open spec fn with_flags(c: ConfigurationView, flags: Set<ControllerFlag>) -> ConfigurationView {
    Some((configured_services(c), flags))
}

/// The view of a configuration.
pub open spec fn configuration_view_of(c: Option<ServiceConfiguration>) -> ConfigurationView {
    match c {
        Some(conf) => Some((conf.services@, conf.controller_flags@)),
        None => None,
    }
}

/// Everything that bringing up an environment needs, decided from the
/// builder.
pub struct EnvironmentPlan<S, G, H, A, E, X> {
    /// Whether inspect data is served (in production only).
    pub serve_inspect: bool,
    /// Where the FIDL services are published.
    pub directory: ServiceDirectory,
    /// The settings to bring up.
    pub settings: KeySet<SettingType>,
    /// The controller flags.
    pub flags: KeySet<ControllerFlag>,
    /// The handler that serves each setting.
    pub handlers: KeyMap<SettingType, HandlerSource<H>>,
    pub agent_blueprints: Vec<A>,
    pub event_subscriber_blueprints: Vec<E>,
    pub storage_factory: S,
    pub generate_service: Option<G>,
    /// The bring-up of the environment.
    pub setup: EnvironmentSetup,
    /// The first work of the bring-up.
    pub first_action: SetupAction<X>,
}

/// The EnvironmentBuilder aggregates the parameters surrounding an
/// environment and ultimately spawns an environment based on them.
pub struct EnvironmentBuilder<S, G, H, A, E> {
    configuration: Option<ServiceConfiguration>,
    agent_blueprints: Vec<A>,
    event_subscriber_blueprints: Vec<E>,
    storage_factory: S,
    generate_service: Option<G>,
    handlers: KeyMap<SettingType, H>,
}

impl<S, G, H, A, E> EnvironmentBuilder<S, G, H, A, E> {
    /// The configuration, as the sets it holds.
    pub closed spec fn configuration_view(&self) -> ConfigurationView {
        configuration_view_of(self.configuration)
    }

    pub closed spec fn agents_view(&self) -> Seq<A> {
        self.agent_blueprints@
    }

    pub closed spec fn event_subscribers_view(&self) -> Seq<E> {
        self.event_subscriber_blueprints@
    }

    pub closed spec fn storage_factory_view(&self) -> S {
        self.storage_factory
    }

    pub closed spec fn service_view(&self) -> Option<G> {
        self.generate_service
    }

    pub closed spec fn handlers_view(&self) -> Map<SettingType, H> {
        self.handlers@
    }

    pub fn new(storage_factory: S) -> (b: Self)
        ensures
            b.configuration_view() == None::<(Set<SettingType>, Set<ControllerFlag>)>,
            b.agents_view() == Seq::<A>::empty(),
            b.event_subscribers_view() == Seq::<E>::empty(),
            b.storage_factory_view() == storage_factory,
            b.service_view() == None::<G>,
            b.handlers_view() == Map::<SettingType, H>::empty(),
    {
        EnvironmentBuilder {
            configuration: None,
            agent_blueprints: Vec::new(),
            event_subscriber_blueprints: Vec::new(),
            storage_factory,
            generate_service: None,
            handlers: KeyMap::new(),
        }
    }

    /// A custom handler for `setting_type`, in place of any earlier one.
    pub fn handler(self, setting_type: SettingType, generate_handler: H) -> (b: Self)
        ensures
            b.handlers_view() == self.handlers_view().insert(setting_type, generate_handler),
            b.configuration_view() == self.configuration_view(),
            b.agents_view() == self.agents_view(),
            b.event_subscribers_view() == self.event_subscribers_view(),
            b.storage_factory_view() == self.storage_factory_view(),
            b.service_view() == self.service_view(),
    {
        let mut b = self;
        b.handlers.insert(setting_type, generate_handler);
        b
    }

    /// A service generator to be used as an overlay on the service context.
    pub fn service(self, generate_service: G) -> (b: Self)
        ensures
            b.service_view() == Some(generate_service),
            b.handlers_view() == self.handlers_view(),
            b.configuration_view() == self.configuration_view(),
            b.agents_view() == self.agents_view(),
            b.event_subscribers_view() == self.event_subscribers_view(),
            b.storage_factory_view() == self.storage_factory_view(),
    {
        let mut b = self;
        b.generate_service = Some(generate_service);
        b
    }

    /// A preset configuration to load preset parameters as a base.
    pub fn configuration(self, configuration: ServiceConfiguration) -> (b: Self)
        ensures
            b.configuration_view() == Some((configuration.services@, configuration.controller_flags@)),
            b.service_view() == self.service_view(),
            b.handlers_view() == self.handlers_view(),
            b.agents_view() == self.agents_view(),
            b.event_subscribers_view() == self.event_subscribers_view(),
            b.storage_factory_view() == self.storage_factory_view(),
    {
        let mut b = self;
        b.configuration = Some(configuration);
        b
    }

    /// Setting types to participate; the controller flags stay.
    pub fn settings(self, settings: &[SettingType]) -> (b: Self)
        ensures
            b.configuration_view() == with_settings(self.configuration_view(), settings@.to_set()),
            b.service_view() == self.service_view(),
            b.handlers_view() == self.handlers_view(),
            b.agents_view() == self.agents_view(),
            b.event_subscribers_view() == self.event_subscribers_view(),
            b.storage_factory_view() == self.storage_factory_view(),
    {
        let mut b = self;
        let controller_flags = match b.configuration.take() {
            Some(c) => c.controller_flags,
            None => KeySet::new(),
        };
        b.configuration(ServiceConfiguration { services: KeySet::from_slice(settings), controller_flags })
    }

    /// Setting types to participate with customized controllers; the
    /// settings stay.
    pub fn flags(self, controller_flags: &[ControllerFlag]) -> (b: Self)
        ensures
            b.configuration_view() == with_flags(self.configuration_view(), controller_flags@.to_set()),
            b.service_view() == self.service_view(),
            b.handlers_view() == self.handlers_view(),
            b.agents_view() == self.agents_view(),
            b.event_subscribers_view() == self.event_subscribers_view(),
            b.storage_factory_view() == self.storage_factory_view(),
    {
        let mut b = self;
        let services = match b.configuration.take() {
            Some(c) => c.services,
            None => KeySet::new(),
        };
        b.configuration(
            ServiceConfiguration { services, controller_flags: KeySet::from_slice(controller_flags) },
        )
    }

    /// Agents to participate, after those already added.
    pub fn agents(self, blueprints: &[A]) -> (b: Self) where A: Clone
        ensures
            appended_clones(self.agents_view(), blueprints@, b.agents_view()),
            b.configuration_view() == self.configuration_view(),
            b.service_view() == self.service_view(),
            b.handlers_view() == self.handlers_view(),
            b.event_subscribers_view() == self.event_subscribers_view(),
            b.storage_factory_view() == self.storage_factory_view(),
    {
        let mut b = self;
        append_clones(&mut b.agent_blueprints, blueprints);
        b
    }

    /// Event subscribers to participate, after those already added.
    pub fn event_subscribers(self, subscribers: &[E]) -> (b: Self) where E: Clone
        ensures
            appended_clones(self.event_subscribers_view(), subscribers@, b.event_subscribers_view()),
            b.configuration_view() == self.configuration_view(),
            b.service_view() == self.service_view(),
            b.handlers_view() == self.handlers_view(),
            b.agents_view() == self.agents_view(),
            b.storage_factory_view() == self.storage_factory_view(),
    {
        let mut b = self;
        append_clones(&mut b.event_subscriber_blueprints, subscribers);
        b
    }

    /// Decides how the environment is brought up for `runtime`: where the
    /// services are published, which settings and flags apply (none without
    /// a configuration), which handler serves each setting (the built-in
    /// ones, overridden by the custom ones), and the bring-up sequence.
    pub fn prepare<X>(self, runtime: Runtime) -> (p: EnvironmentPlan<S, G, H, A, E, X>)
        ensures
            p.serve_inspect == (runtime == Runtime::Service),
            p.directory == (if runtime == Runtime::Service {
                ServiceDirectory::Svc
            } else {
                ServiceDirectory::Root
            }),
            p.settings@ == configured_services(self.configuration_view()),
            p.flags@ == configured_flags(self.configuration_view()),
            p.handlers@ == handler_table(
                external_brightness(configured_flags(self.configuration_view())),
                self.handlers_view(),
            ),
            p.agent_blueprints@ == self.agents_view(),
            p.event_subscriber_blueprints@ == self.event_subscribers_view(),
            p.storage_factory == self.storage_factory_view(),
            p.generate_service == self.service_view(),
            p.setup.components() == p.settings.elements_seq(),
            p.setup.components().to_set() == configured_services(self.configuration_view()),
            p.setup.components().no_duplicates(),
            p.setup.services() == enabled_services(configured_services(self.configuration_view())),
            p.setup.subscriber_count() == self.event_subscribers_view().len(),
            p.setup.agent_count() == self.agents_view().len(),
            p.setup.current() == first_step(self.event_subscribers_view().len()),
            action_of(p.first_action, p.setup.current(), p.setup.components(), p.setup.services()),
    {
        let is_service = match runtime {
            Runtime::Service => true,
            Runtime::Nested(_) => false,
        };
        let directory = if is_service {
            ServiceDirectory::Svc
        } else {
            ServiceDirectory::Root
        };
        let EnvironmentBuilder {
            configuration,
            agent_blueprints,
            event_subscriber_blueprints,
            storage_factory,
            generate_service,
            handlers,
        } = self;
        let (settings, flags) = match configuration {
            Some(configuration) => (configuration.services, configuration.controller_flags),
            None => (KeySet::new(), KeySet::new()),
        };
        let handlers = handler_registry(&flags, handlers);
        let (setup, first_action) = EnvironmentSetup::start(
            &settings,
            event_subscriber_blueprints.len(),
            agent_blueprints.len(),
        );
        EnvironmentPlan {
            serve_inspect: is_service,
            directory,
            settings,
            flags,
            handlers,
            agent_blueprints,
            event_subscriber_blueprints,
            storage_factory,
            generate_service,
            setup,
            first_action,
        }
    }
}

/// `after` is `before` followed by a clone of each of `items`, in order.
pub open spec fn appended_clones<T: Clone>(before: Seq<T>, items: Seq<T>, after: Seq<T>) -> bool {
    &&& after.len() == before.len() + items.len()
    &&& after.take(before.len() as int) == before
    &&& forall|i: int| 0 <= i < items.len() ==> cloned(items[i], #[trigger] after[before.len() + i])
}

/// Whether cloning a `T` always gives an equal value.
pub open spec fn clone_is_exact<T: Clone>() -> bool {
    forall|a: T, b: T| #[trigger] cloned(a, b) ==> a == b
}

/// Appends a clone of each of `items` to `v`, in order.
fn append_clones<T: Clone>(v: &mut Vec<T>, items: &[T])
    ensures
        appended_clones(old(v)@, items@, final(v)@),
{
    let ghost start = v@;
    let n = items.len();
    let mut i: usize = 0;
    while i < n
        invariant
            n == items@.len(),
            i <= n,
            v@.len() == start.len() + i,
            v@.take(start.len() as int) == start,
            forall|j: int| 0 <= j < i ==> cloned(items@[j], #[trigger] v@[start.len() + j]),
        decreases n - i,
    {
        let item = items[i].clone();
        v.push(item);
        assert(v@.take(start.len() as int) =~= start);
        i = i + 1;
    }
}

/// Setting the participating settings and the controller flags gives the
/// same configuration in either order.
pub proof fn lemma_settings_and_flags_commute(
    c: ConfigurationView,
    services: Set<SettingType>,
    flags: Set<ControllerFlag>,
)
    ensures
        with_flags(with_settings(c, services), flags) == with_settings(with_flags(c, flags), services),
        with_flags(with_settings(c, services), flags) == Some((services, flags)),
{
}

/// Setting the participating settings again replaces them; setting the
/// flags again replaces them.
pub proof fn lemma_last_setting_wins(
    c: ConfigurationView,
    first: Set<SettingType>,
    second: Set<SettingType>,
    first_flags: Set<ControllerFlag>,
    second_flags: Set<ControllerFlag>,
)
    ensures
        with_settings(with_settings(c, first), second) == with_settings(c, second),
        with_flags(with_flags(c, first_flags), second_flags) == with_flags(c, second_flags),
{
}

/// Appending is never replacing: for blueprints whose clone gives an equal
/// value, appending `first` and then `second` gives what was there followed
/// by both, in order, the same as appending them together at once.
pub proof fn lemma_appends_concatenate<T: Clone>(
    start: Seq<T>,
    first: Seq<T>,
    second: Seq<T>,
    after_first: Seq<T>,
    after_both: Seq<T>,
    after_together: Seq<T>,
)
    requires
        clone_is_exact::<T>(),
        appended_clones(start, first, after_first),
        appended_clones(after_first, second, after_both),
        appended_clones(start, first + second, after_together),
    ensures
        after_both == start + first + second,
        after_together == after_both,
{
    assert forall|i: int| 0 <= i < first.len() implies #[trigger] after_first[start.len() + i]
        == first[i] by {
        assert(cloned(first[i], after_first[start.len() + i]));
    }
    assert(after_first =~= start + first) by {
        assert forall|i: int| 0 <= i < after_first.len() implies after_first[i] == (start
            + first)[i] by {
            if i < start.len() {
                assert(after_first.take(start.len() as int)[i] == after_first[i]);
            } else {
                assert(after_first[start.len() + (i - start.len())] == first[i - start.len()]);
            }
        }
    }
    assert forall|i: int| 0 <= i < second.len() implies #[trigger] after_both[after_first.len()
        + i] == second[i] by {
        assert(cloned(second[i], after_both[after_first.len() + i]));
    }
    assert(after_both =~= start + first + second) by {
        assert forall|i: int| 0 <= i < after_both.len() implies after_both[i] == (start + first
            + second)[i] by {
            if i < after_first.len() {
                assert(after_both.take(after_first.len() as int)[i] == after_both[i]);
            } else {
                assert(after_both[after_first.len() + (i - after_first.len())] == second[i
                    - after_first.len()]);
            }
        }
    }
    let both = first + second;
    assert forall|i: int| 0 <= i < both.len() implies #[trigger] after_together[start.len() + i]
        == both[i] by {
        assert(cloned(both[i], after_together[start.len() + i]));
    }
    assert(after_together =~= after_both) by {
        assert forall|i: int| 0 <= i < after_together.len() implies after_together[i] == (start
            + first + second)[i] by {
            if i < start.len() {
                assert(after_together.take(start.len() as int)[i] == after_together[i]);
            } else {
                assert(after_together[start.len() + (i - start.len())] == both[i - start.len()]);
            }
        }
    }
}

/// Configuring without a configuration starts from nothing: setting the
/// participating settings leaves no controller flags, and setting the flags
/// leaves no settings. With a configuration, each keeps what the other set.
pub proof fn lemma_configuration_defaults(
    services: Set<SettingType>,
    flags: Set<ControllerFlag>,
    old_services: Set<SettingType>,
    old_flags: Set<ControllerFlag>,
)
    ensures
        with_settings(None, services) == Some((services, Set::<ControllerFlag>::empty())),
        with_flags(None, flags) == Some((Set::<SettingType>::empty(), flags)),
        with_settings(Some((old_services, old_flags)), services) == Some((services, old_flags)),
        with_flags(Some((old_services, old_flags)), flags) == Some((old_services, flags)),
        !external_brightness(configured_flags(with_settings(None, services))),
{
}
} // verus!
