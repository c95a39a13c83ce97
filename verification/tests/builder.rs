use setui::collections::KeySet;
use setui::config::{EnabledServicesConfiguration, ServiceConfiguration, ServiceFlags};
use setui::environment::{
    environment_result, Environment, EnvironmentBuilder, EnvironmentError, Runtime,
    ServiceDirectory,
};
use setui::handlers::{ControllerKind, HandlerSource};
use setui::setting_types::{ControllerFlag, SettingType};
use setui::setup::{SetupAction, SetupError};

type Builder = EnvironmentBuilder<&'static str, u8, u16, u32, u64>;

fn builder() -> Builder {
    EnvironmentBuilder::new("storage")
}

#[test]
fn with_services_keeps_services() {
    let c = EnabledServicesConfiguration::with_services(KeySet::from_slice(&[SettingType::Audio]));
    assert!(c.services.contains(&SettingType::Audio));
    assert_eq!(c.services.len(), 1);
}

#[test]
fn service_configuration_from_parts() {
    let services = EnabledServicesConfiguration::with_services(KeySet::from_slice(&[
        SettingType::Intl,
        SettingType::Privacy,
    ]));
    let flags = ServiceFlags {
        controller_flags: KeySet::from_slice(&[ControllerFlag::ExternalBrightnessControl]),
    };
    let c = ServiceConfiguration::from(services, flags);
    assert_eq!(c.services, KeySet::from_slice(&[SettingType::Privacy, SettingType::Intl]));
    assert!(c.controller_flags.contains(&ControllerFlag::ExternalBrightnessControl));
}

#[test]
fn default_flags_are_empty() {
    assert_eq!(ServiceFlags::default().controller_flags.len(), 0);
}

#[test]
fn new_builder_has_nothing() {
    let plan = builder().prepare::<u8>(Runtime::Service);
    assert_eq!(plan.settings.len(), 0);
    assert_eq!(plan.flags.len(), 0);
    assert!(plan.agent_blueprints.is_empty());
    assert!(plan.event_subscriber_blueprints.is_empty());
    assert_eq!(plan.storage_factory, "storage");
    assert_eq!(plan.generate_service, None);
    assert!(plan.serve_inspect);
    assert_eq!(plan.directory, ServiceDirectory::Svc);
}

#[test]
fn nested_runtime_uses_root_directory() {
    let plan = builder().prepare::<u8>(Runtime::Nested("env"));
    assert!(!plan.serve_inspect);
    assert_eq!(plan.directory, ServiceDirectory::Root);
}

#[test]
fn settings_keep_flags_and_flags_keep_settings() {
    let a = builder()
        .settings(&[SettingType::Display, SettingType::Audio])
        .flags(&[ControllerFlag::ExternalBrightnessControl])
        .prepare::<u8>(Runtime::Service);
    let b = builder()
        .flags(&[ControllerFlag::ExternalBrightnessControl])
        .settings(&[SettingType::Audio, SettingType::Display])
        .prepare::<u8>(Runtime::Service);
    assert!(a.settings == b.settings);
    assert!(a.flags == b.flags);
    assert_eq!(a.settings.len(), 2);
    assert!(a.flags.contains(&ControllerFlag::ExternalBrightnessControl));
}

#[test]
fn later_settings_replace_earlier() {
    let plan = builder()
        .settings(&[SettingType::Display])
        .settings(&[SettingType::Setup])
        .prepare::<u8>(Runtime::Service);
    assert_eq!(plan.settings.elements(), vec![SettingType::Setup]);
}

#[test]
fn configuration_then_settings_keeps_flags() {
    let configuration = ServiceConfiguration {
        services: KeySet::from_slice(&[SettingType::Light]),
        controller_flags: KeySet::from_slice(&[ControllerFlag::ExternalBrightnessControl]),
    };
    let plan = builder()
        .configuration(configuration)
        .settings(&[SettingType::Input])
        .prepare::<u8>(Runtime::Service);
    assert_eq!(plan.settings.elements(), vec![SettingType::Input]);
    assert!(plan.flags.contains(&ControllerFlag::ExternalBrightnessControl));
}

#[test]
fn agents_and_subscribers_append_in_order() {
    let plan = builder()
        .agents(&[1, 2])
        .agents(&[3])
        .event_subscribers(&[10])
        .event_subscribers(&[20, 30])
        .service(9)
        .prepare::<u8>(Runtime::Service);
    assert_eq!(plan.agent_blueprints, vec![1, 2, 3]);
    assert_eq!(plan.event_subscriber_blueprints, vec![10, 20, 30]);
    assert_eq!(plan.generate_service, Some(9));
}

#[test]
fn custom_handlers_replace_builtin_ones() {
    let plan = builder()
        .handler(SettingType::Display, 5)
        .handler(SettingType::FactoryReset, 6)
        .handler(SettingType::Display, 7)
        .prepare::<u8>(Runtime::Service);
    assert_eq!(plan.handlers.get(&SettingType::Display), Some(&HandlerSource::Custom(7)));
    assert_eq!(plan.handlers.get(&SettingType::FactoryReset), Some(&HandlerSource::Custom(6)));
    assert_eq!(
        plan.handlers.get(&SettingType::Power),
        Some(&HandlerSource::Builtin(ControllerKind::Power))
    );
    assert_eq!(plan.handlers.get(&SettingType::Unknown), None);
    assert_eq!(plan.handlers.len(), 15);
}

#[test]
fn external_brightness_flag_selects_display_controller() {
    let plain = builder().prepare::<u8>(Runtime::Service);
    assert_eq!(
        plain.handlers.get(&SettingType::Display),
        Some(&HandlerSource::Builtin(ControllerKind::Display))
    );
    let external = builder().flags(&[ControllerFlag::ExternalBrightnessControl]).prepare::<u8>(Runtime::Service);
    assert_eq!(
        external.handlers.get(&SettingType::Display),
        Some(&HandlerSource::Builtin(ControllerKind::ExternalBrightnessDisplay))
    );
}

#[test]
fn first_action_creates_first_subscriber() {
    let plan = builder().event_subscribers(&[1]).prepare::<u8>(Runtime::Service);
    assert_eq!(plan.first_action, SetupAction::CreateSubscriber(0));
    let plan = builder().prepare::<u8>(Runtime::Service);
    assert_eq!(plan.first_action, SetupAction::CreateInspectBroker);
}

#[test]
fn bring_up_failure_means_no_environment() {
    assert_eq!(environment_result::<u8>(Ok(())), Ok(()));
    assert_eq!(
        environment_result::<u8>(Err(SetupError::AgentInitialization)),
        Err(EnvironmentError::CouldNotCreateEnvironment)
    );
    assert_eq!(
        environment_result(Err(SetupError::ProxyCreation(SettingType::Audio, 5u8))),
        Err(EnvironmentError::CouldNotCreateEnvironment)
    );
    assert_eq!(
        environment_result(Err(SetupError::AuthorityCreation(6u8))),
        Err(EnvironmentError::CouldNotCreateEnvironment)
    );
}

#[test]
fn nested_environment_must_exist() {
    assert_eq!(Environment::new(Some(4)).into_nested_environment(), Ok(4));
    assert_eq!(
        Environment::<u8>::new(None).into_nested_environment(),
        Err(EnvironmentError::NestedEnvironmentNotCreated)
    );
    assert_eq!(Environment::new(Some(1)).nested_environment, Some(1));
}

#[test]
fn error_messages() {
    assert_eq!(EnvironmentError::CouldNotCreateEnvironment.message(), "could not create environment");
    assert_eq!(
        EnvironmentError::NestedEnvironmentNotCreated.message(),
        "nested environment not created"
    );
}
