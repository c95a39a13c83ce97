use setui::collections::KeySet;
use setui::services::FidlService;
use setui::setting_types::SettingType;
use setui::setup::{
    EnvironmentSetup, Lifespan, ProxyRequest, SetupAbort, SetupAction, SetupError,
    SetupLog, DEFAULT_SETTING_PROXY_MAX_ATTEMPTS, DEFAULT_SETTING_PROXY_RESPONSE_TIMEOUT_MS,
};

type Action = SetupAction<&'static str>;

fn proxy(setting_type: SettingType) -> Action {
    SetupAction::CreateProxy(ProxyRequest {
        setting_type,
        max_attempts: 3,
        response_timeout_ms: Some(10_000),
        retry_on_timeout: true,
    })
}

/// Drives the bring-up, failing the steps whose numbers are in `failures`;
/// returns the actions in order and the logs.
fn drive(
    components: &[SettingType],
    subscribers: usize,
    agents: usize,
    failures: &[usize],
) -> (Vec<Action>, Vec<SetupLog>) {
    let (mut setup, first) = EnvironmentSetup::start(&KeySet::from_slice(components), subscribers, agents);
    let mut actions = vec![];
    let mut logs = vec![];
    let mut action = first;
    let mut n = 0;
    loop {
        let done = matches!(action, SetupAction::Finish(_) | SetupAction::Abort(_));
        actions.push(action);
        if done {
            return (actions, logs);
        }
        let result = if failures.contains(&n) { Err("step failed") } else { Ok(()) };
        let t = setup.advance(result);
        if let Some(log) = t.log {
            logs.push(log);
        }
        action = t.action;
        n += 1;
    }
}

#[test]
fn proxy_defaults() {
    assert_eq!(DEFAULT_SETTING_PROXY_MAX_ATTEMPTS, 3);
    assert_eq!(DEFAULT_SETTING_PROXY_RESPONSE_TIMEOUT_MS, 10_000);
}

#[test]
fn full_bring_up_in_order() {
    let (actions, logs) = drive(&[SettingType::Audio, SettingType::Light], 1, 2, &[]);
    assert_eq!(
        actions,
        vec![
            SetupAction::CreateSubscriber(0),
            SetupAction::CreateInspectBroker,
            proxy(SettingType::Audio),
            proxy(SettingType::Light),
            SetupAction::BuildSwitchboard(vec![SettingType::Audio, SettingType::Light]),
            SetupAction::CreateAuthority(vec![SettingType::Audio, SettingType::Light]),
            SetupAction::RegisterServices(vec![FidlService::Light, FidlService::Audio]),
            SetupAction::RegisterAgent(0),
            SetupAction::RegisterAgent(1),
            SetupAction::ExecuteLifespan(Lifespan::Initialization, true),
            SetupAction::ExecuteLifespan(Lifespan::Service, false),
            SetupAction::Finish(Ok(())),
        ]
    );
    assert!(logs.is_empty());
}

#[test]
fn empty_bring_up() {
    let (actions, _) = drive(&[], 0, 0, &[]);
    assert_eq!(
        actions,
        vec![
            SetupAction::CreateInspectBroker,
            SetupAction::BuildSwitchboard(vec![]),
            SetupAction::CreateAuthority(vec![]),
            SetupAction::RegisterServices(vec![]),
            SetupAction::ExecuteLifespan(Lifespan::Initialization, true),
            SetupAction::ExecuteLifespan(Lifespan::Service, false),
            SetupAction::Finish(Ok(())),
        ]
    );
}

#[test]
fn agent_registration_failure_is_logged_only() {
    // Steps: inspect 0, switchboard 1, authority 2, services 3, agents 4 and 5.
    let (actions, logs) = drive(&[], 0, 2, &[4, 5]);
    assert_eq!(logs, vec![SetupLog::AgentRegistrationFailed, SetupLog::AgentRegistrationFailed]);
    assert_eq!(logs[0].message(), "failed to register agent via blueprint");
    assert_eq!(actions.last(), Some(&SetupAction::Finish(Ok(()))));
}

#[test]
fn service_lifespan_failure_is_ignored() {
    // Steps: inspect 0, switchboard 1, authority 2, services 3, init 4, service 5.
    let (actions, _) = drive(&[], 0, 0, &[5]);
    assert_eq!(actions.last(), Some(&SetupAction::Finish(Ok(()))));
}

#[test]
fn initialization_failure_fails_bring_up() {
    let (actions, _) = drive(&[], 0, 0, &[4]);
    assert_eq!(actions.last(), Some(&SetupAction::Finish(Err(SetupError::AgentInitialization))));
    assert_eq!(SetupError::<u8>::AgentInitialization.message(), Some("Agent initialization failed"));
}

#[test]
fn proxy_failure_fails_bring_up() {
    // Steps: inspect 0, proxy Audio 1, proxy Light 2.
    let (actions, _) = drive(&[SettingType::Audio, SettingType::Light], 0, 0, &[2]);
    assert_eq!(
        actions.last(),
        Some(&SetupAction::Finish(Err(SetupError::ProxyCreation(SettingType::Light, "step failed"))))
    );
    assert_eq!(actions.len(), 4);
}

#[test]
fn authority_failure_fails_bring_up() {
    let (actions, _) = drive(&[], 0, 0, &[2]);
    assert_eq!(
        actions.last(),
        Some(&SetupAction::Finish(Err(SetupError::AuthorityCreation("step failed"))))
    );
    assert_eq!(SetupError::AuthorityCreation(1u8).message(), None);
}

#[test]
fn inspect_and_switchboard_failures_stop_service() {
    let (actions, _) = drive(&[], 0, 0, &[0]);
    assert_eq!(actions.last(), Some(&SetupAction::Abort(SetupAbort::InspectBroker)));
    assert_eq!(SetupAbort::InspectBroker.message(), "could not create inspect");
    let (actions, _) = drive(&[], 0, 0, &[1]);
    assert_eq!(actions.last(), Some(&SetupAction::Abort(SetupAbort::Switchboard)));
    assert_eq!(SetupAbort::Switchboard.message(), "could not create switchboard");
}

#[test]
fn subscriber_outcome_does_not_matter() {
    let (actions, _) = drive(&[], 2, 0, &[0, 1]);
    assert_eq!(actions[0], SetupAction::CreateSubscriber(0));
    assert_eq!(actions[1], SetupAction::CreateSubscriber(1));
    assert_eq!(actions.last(), Some(&SetupAction::Finish(Ok(()))));
}
