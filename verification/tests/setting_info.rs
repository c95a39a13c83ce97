use setui::base::{SettingInfo, SettingPayloads, SettingResponse};

#[derive(Debug, PartialEq, Clone)]
struct Plain;

impl SettingPayloads for Plain {
    type AccessibilityInfo = u8;
    type AudioInfo = u16;
    type DisplayInfo = u32;
    type DeviceInfo = String;
    type FactoryResetInfo = bool;
    type LightInfo = i8;
    type LightData = i16;
    type DoNotDisturbInfo = (bool, bool);
    type InputInfo = i32;
    type IntlInfo = Vec<String>;
    type NightModeInfo = Option<bool>;
    type PrivacyInfo = i64;
    type SetupInfo = u64;
}

fn respond(info: SettingInfo<Plain>) -> SettingResponse<Plain> {
    info.into()
}

#[test]
fn into_keeps_unknown() {
    assert_eq!(respond(SettingInfo::Unknown), SettingResponse::Unknown);
}

#[test]
fn into_keeps_each_payload() {
    assert_eq!(respond(SettingInfo::Accessibility(7)), SettingResponse::Accessibility(7));
    assert_eq!(respond(SettingInfo::Audio(300)), SettingResponse::Audio(300));
    assert_eq!(respond(SettingInfo::Brightness(70_000)), SettingResponse::Brightness(70_000));
    assert_eq!(
        respond(SettingInfo::Device("build".to_string())),
        SettingResponse::Device("build".to_string())
    );
    assert_eq!(respond(SettingInfo::FactoryReset(true)), SettingResponse::FactoryReset(true));
    assert_eq!(respond(SettingInfo::Light(-3)), SettingResponse::Light(-3));
    assert_eq!(respond(SettingInfo::LightSensor(-400)), SettingResponse::LightSensor(-400));
    assert_eq!(
        respond(SettingInfo::DoNotDisturb((true, false))),
        SettingResponse::DoNotDisturb((true, false))
    );
    assert_eq!(respond(SettingInfo::Input(12)), SettingResponse::Input(12));
    assert_eq!(
        respond(SettingInfo::Intl(vec!["en-US".to_string()])),
        SettingResponse::Intl(vec!["en-US".to_string()])
    );
    assert_eq!(respond(SettingInfo::NightMode(Some(false))), SettingResponse::NightMode(Some(false)));
    assert_eq!(respond(SettingInfo::Privacy(-9)), SettingResponse::Privacy(-9));
    assert_eq!(respond(SettingInfo::Setup(5)), SettingResponse::Setup(5));
}

#[test]
fn into_does_not_confuse_variants() {
    assert_ne!(respond(SettingInfo::Audio(1)), SettingResponse::Audio(2));
    assert_ne!(respond(SettingInfo::Light(1)), SettingResponse::Input(1));
}
