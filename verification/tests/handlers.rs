use setui::collections::KeySet;
use setui::handlers::{configuration_handlers, ControllerKind};
use setui::services::{fidl_services, is_service_enabled, FidlService};
use setui::setting_types::{ControllerFlag, SettingType};

#[test]
fn configuration_handlers_in_registration_order() {
    let handlers = configuration_handlers(&KeySet::new());
    assert_eq!(
        handlers,
        vec![
            (SettingType::Power, ControllerKind::Power),
            (SettingType::Accessibility, ControllerKind::Accessibility),
            (SettingType::Account, ControllerKind::Account),
            (SettingType::Audio, ControllerKind::Audio),
            (SettingType::Device, ControllerKind::Device),
            (SettingType::Display, ControllerKind::Display),
            (SettingType::Light, ControllerKind::Light),
            (SettingType::LightSensor, ControllerKind::LightSensor),
            (SettingType::Input, ControllerKind::Input),
            (SettingType::Intl, ControllerKind::Intl),
            (SettingType::DoNotDisturb, ControllerKind::DoNotDisturb),
            (SettingType::NightMode, ControllerKind::NightMode),
            (SettingType::Privacy, ControllerKind::Privacy),
            (SettingType::Setup, ControllerKind::Setup),
        ]
    );
}

#[test]
fn external_brightness_changes_only_display() {
    let plain = configuration_handlers(&KeySet::new());
    let external =
        configuration_handlers(&KeySet::from_slice(&[ControllerFlag::ExternalBrightnessControl]));
    for (p, e) in plain.iter().zip(external.iter()) {
        if p.0 == SettingType::Display {
            assert_eq!(e.1, ControllerKind::ExternalBrightnessDisplay);
        } else {
            assert_eq!(p, e);
        }
    }
}

#[test]
fn data_handlers_persist() {
    assert!(!ControllerKind::Power.persists_data());
    assert!(!ControllerKind::Account.persists_data());
    assert!(!ControllerKind::Device.persists_data());
    assert!(!ControllerKind::LightSensor.persists_data());
    assert!(ControllerKind::Display.persists_data());
    assert!(ControllerKind::ExternalBrightnessDisplay.persists_data());
    assert!(ControllerKind::Setup.persists_data());
}

#[test]
fn light_sensor_publishes_display_service() {
    let components = KeySet::from_slice(&[SettingType::LightSensor]);
    assert_eq!(fidl_services(&components), vec![FidlService::Display]);
    assert!(is_service_enabled(FidlService::Display, &components));
    assert!(!is_service_enabled(FidlService::Light, &components));
}

#[test]
fn services_follow_publishing_order() {
    let components = KeySet::from_slice(&[
        SettingType::Setup,
        SettingType::Audio,
        SettingType::Light,
        SettingType::Power,
        SettingType::Display,
        SettingType::LightSensor,
    ]);
    assert_eq!(
        fidl_services(&components),
        vec![FidlService::Light, FidlService::Audio, FidlService::Display, FidlService::Setup]
    );
}

#[test]
fn no_components_no_services() {
    assert!(fidl_services(&KeySet::new()).is_empty());
}
