//! Service-wide definitions.
//!
//! The core definitions for communicating information across the service:
//! the info that a setting reports, and the response that a hanging get
//! hands back for it. Each setting defines its own info type; the
//! [`SettingPayloads`] trait names them, so that these definitions stay
//! independent of any one setting.
use vstd::prelude::*;

verus! {

/// The info type of each setting.
pub trait SettingPayloads {
    type AccessibilityInfo;
    type AudioInfo;
    type DisplayInfo;
    type DeviceInfo;
    type FactoryResetInfo;
    type LightInfo;
    type LightData;
    type DoNotDisturbInfo;
    type InputInfo;
    type IntlInfo;
    type NightModeInfo;
    type PrivacyInfo;
    type SetupInfo;
}

/// Enumeration over the possible info types available in the service.
#[derive(PartialEq, Debug, Clone)]
pub enum SettingInfo<P: SettingPayloads> {
    /// This value is reserved for testing purposes.
    Unknown,
    Accessibility(P::AccessibilityInfo),
    Audio(P::AudioInfo),
    Brightness(P::DisplayInfo),
    Device(P::DeviceInfo),
    FactoryReset(P::FactoryResetInfo),
    Light(P::LightInfo),
    LightSensor(P::LightData),
    DoNotDisturb(P::DoNotDisturbInfo),
    Input(P::InputInfo),
    Intl(P::IntlInfo),
    NightMode(P::NightModeInfo),
    Privacy(P::PrivacyInfo),
    Setup(P::SetupInfo),
}

/// The value a hanging get hands back for a setting.
#[derive(PartialEq, Debug, Clone)]
pub enum SettingResponse<P: SettingPayloads> {
    Unknown,
    Accessibility(P::AccessibilityInfo),
    Audio(P::AudioInfo),
    Brightness(P::DisplayInfo),
    Device(P::DeviceInfo),
    FactoryReset(P::FactoryResetInfo),
    Light(P::LightInfo),
    LightSensor(P::LightData),
    DoNotDisturb(P::DoNotDisturbInfo),
    Input(P::InputInfo),
    Intl(P::IntlInfo),
    NightMode(P::NightModeInfo),
    Privacy(P::PrivacyInfo),
    Setup(P::SetupInfo),
}

/// The response that carries `info`: the variant of the same name, holding
/// the same value.
pub open spec fn response_for<P: SettingPayloads>(info: SettingInfo<P>) -> SettingResponse<P> {
    match info {
        SettingInfo::Unknown => SettingResponse::Unknown,
        SettingInfo::Accessibility(i) => SettingResponse::Accessibility(i),
        SettingInfo::Audio(i) => SettingResponse::Audio(i),
        SettingInfo::Brightness(i) => SettingResponse::Brightness(i),
        SettingInfo::Device(i) => SettingResponse::Device(i),
        SettingInfo::FactoryReset(i) => SettingResponse::FactoryReset(i),
        SettingInfo::Light(i) => SettingResponse::Light(i),
        SettingInfo::LightSensor(i) => SettingResponse::LightSensor(i),
        SettingInfo::DoNotDisturb(i) => SettingResponse::DoNotDisturb(i),
        SettingInfo::Input(i) => SettingResponse::Input(i),
        SettingInfo::Intl(i) => SettingResponse::Intl(i),
        SettingInfo::NightMode(i) => SettingResponse::NightMode(i),
        SettingInfo::Privacy(i) => SettingResponse::Privacy(i),
        SettingInfo::Setup(i) => SettingResponse::Setup(i),
    }
}

/// Mapping that makes a setting's info usable as a hanging-get response.
impl<P: SettingPayloads> Into<SettingResponse<P>> for SettingInfo<P> {
    fn into(self) -> (r: SettingResponse<P>) {
        match self {
            SettingInfo::Unknown => SettingResponse::Unknown,
            SettingInfo::Accessibility(info) => SettingResponse::Accessibility(info),
            SettingInfo::Audio(info) => SettingResponse::Audio(info),
            SettingInfo::Brightness(info) => SettingResponse::Brightness(info),
            SettingInfo::Device(info) => SettingResponse::Device(info),
            SettingInfo::FactoryReset(info) => SettingResponse::FactoryReset(info),
            SettingInfo::Light(info) => SettingResponse::Light(info),
            SettingInfo::LightSensor(data) => SettingResponse::LightSensor(data),
            SettingInfo::DoNotDisturb(info) => SettingResponse::DoNotDisturb(info),
            SettingInfo::Input(info) => SettingResponse::Input(info),
            SettingInfo::Intl(info) => SettingResponse::Intl(info),
            SettingInfo::NightMode(info) => SettingResponse::NightMode(info),
            SettingInfo::Privacy(info) => SettingResponse::Privacy(info),
            SettingInfo::Setup(info) => SettingResponse::Setup(info),
        }
    }
}

impl<P: SettingPayloads> vstd::std_specs::convert::IntoSpecImpl<SettingResponse<P>> for SettingInfo<P> {
    open spec fn obeys_into_spec() -> bool {
        true
    }

    open spec fn into_spec(self) -> SettingResponse<P> {
        response_for(self)
    }
}

/// Two different infos never give the same response: the conversion loses
/// nothing.
pub proof fn lemma_response_for_injective<P: SettingPayloads>(a: SettingInfo<P>, b: SettingInfo<P>)
    requires
        response_for(a) == response_for(b),
    ensures
        a == b,
{
}

} // verus!
