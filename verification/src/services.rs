//! The FIDL services that the settings service publishes.
//!
//! A service is published when one of the settings it serves is brought up.
use vstd::prelude::*;

use crate::collections::KeySet;
use crate::setting_types::SettingType;

verus! {

/// A FIDL protocol of the settings service.
#[derive(Clone, Copy, Debug, PartialEq, Eq, Hash, Structural)]
pub enum FidlService {
    Light,
    Accessibility,
    Audio,
    Device,
    Display,
    DoNotDisturb,
    Intl,
    NightMode,
    Privacy,
    Input,
    Setup,
}

/// Whether `service` is published when `components` are brought up. The
/// display protocol also serves the light sensor.
pub open spec fn service_enabled(service: FidlService, components: Set<SettingType>) -> bool {
    match service {
        FidlService::Light => components.contains(SettingType::Light),
        FidlService::Accessibility => components.contains(SettingType::Accessibility),
        FidlService::Audio => components.contains(SettingType::Audio),
        FidlService::Device => components.contains(SettingType::Device),
        FidlService::Display => components.contains(SettingType::Display) || components.contains(
            SettingType::LightSensor,
        ),
        FidlService::DoNotDisturb => components.contains(SettingType::DoNotDisturb),
        FidlService::Intl => components.contains(SettingType::Intl),
        FidlService::NightMode => components.contains(SettingType::NightMode),
        FidlService::Privacy => components.contains(SettingType::Privacy),
        FidlService::Input => components.contains(SettingType::Input),
        FidlService::Setup => components.contains(SettingType::Setup),
    }
}

/// The order in which the services are published.
pub open spec fn service_order() -> Seq<FidlService> {
    seq![
        FidlService::Light,
        FidlService::Accessibility,
        FidlService::Audio,
        FidlService::Device,
        FidlService::Display,
        FidlService::DoNotDisturb,
        FidlService::Intl,
        FidlService::NightMode,
        FidlService::Privacy,
        FidlService::Input,
        FidlService::Setup,
    ]
}

/// The services to publish for `components`, in publishing order.
pub open spec fn enabled_services(components: Set<SettingType>) -> Seq<FidlService> {
    service_order().filter(|s: FidlService| service_enabled(s, components))
}

/// Whether `service` is published when `components` are brought up.
pub fn is_service_enabled(service: FidlService, components: &KeySet<SettingType>) -> (b: bool)
    ensures
        b == service_enabled(service, components@),
{
    match service {
        FidlService::Light => components.contains(&SettingType::Light),
        FidlService::Accessibility => components.contains(&SettingType::Accessibility),
        FidlService::Audio => components.contains(&SettingType::Audio),
        FidlService::Device => components.contains(&SettingType::Device),
        FidlService::Display => components.contains(&SettingType::Display) || components.contains(
            &SettingType::LightSensor,
        ),
        FidlService::DoNotDisturb => components.contains(&SettingType::DoNotDisturb),
        FidlService::Intl => components.contains(&SettingType::Intl),
        FidlService::NightMode => components.contains(&SettingType::NightMode),
        FidlService::Privacy => components.contains(&SettingType::Privacy),
        FidlService::Input => components.contains(&SettingType::Input),
        FidlService::Setup => components.contains(&SettingType::Setup),
    }
}

/// The services to publish for `components`, in publishing order.
pub fn fidl_services(components: &KeySet<SettingType>) -> (r: Vec<FidlService>)
    ensures
        r@ == enabled_services(components@),
{
    let order = vec![
        FidlService::Light,
        FidlService::Accessibility,
        FidlService::Audio,
        FidlService::Device,
        FidlService::Display,
        FidlService::DoNotDisturb,
        FidlService::Intl,
        FidlService::NightMode,
        FidlService::Privacy,
        FidlService::Input,
        FidlService::Setup,
    ];
    assert(order@ == service_order());
    let ghost pred = |s: FidlService| service_enabled(s, components@);
    let mut r: Vec<FidlService> = Vec::new();
    let n = order.len();
    let mut i: usize = 0;
    while i < n
        invariant
            n == order@.len(),
            order@ == service_order(),
            i <= n,
            pred == (|s: FidlService| service_enabled(s, components@)),
            r@ == order@.take(i as int).filter(pred),
        decreases n - i,
    {
        let service = order[i];
        proof {
            assert(order@.take(i + 1).drop_last() == order@.take(i as int));
            assert(order@.take(i + 1).last() == service);
            reveal_with_fuel(Seq::<_>::filter, 1);
        }
        if is_service_enabled(service, components) {
            r.push(service);
        }
        i = i + 1;
    }
    assert(order@.take(n as int) == order@);
    r
}

/// A service is published exactly when one of the settings it serves is
/// brought up; in particular the display protocol is published for the
/// display or for the light sensor.
pub proof fn lemma_enabled_services(components: Set<SettingType>, service: FidlService)
    ensures
        enabled_services(components).contains(service) == service_enabled(service, components),
        enabled_services(components).contains(FidlService::Display) == (components.contains(
            SettingType::Display,
        ) || components.contains(SettingType::LightSensor)),
{
    let pred = |s: FidlService| service_enabled(s, components);
    let order = service_order();
    broadcast use vstd::seq_lib::group_filter_ensures;

    assert(order[0] == FidlService::Light);
    assert(order[1] == FidlService::Accessibility);
    assert(order[2] == FidlService::Audio);
    assert(order[3] == FidlService::Device);
    assert(order[4] == FidlService::Display);
    assert(order[5] == FidlService::DoNotDisturb);
    assert(order[6] == FidlService::Intl);
    assert(order[7] == FidlService::NightMode);
    assert(order[8] == FidlService::Privacy);
    assert(order[9] == FidlService::Input);
    assert(order[10] == FidlService::Setup);
    let filtered = order.filter(pred);
    if filtered.contains(service) {
        let j = choose|j: int| 0 <= j < filtered.len() && filtered[j] == service;
        assert(pred(filtered[j]));
    }
    if service_enabled(service, components) {
        let k: int = match service {
            FidlService::Light => 0,
            FidlService::Accessibility => 1,
            FidlService::Audio => 2,
            FidlService::Device => 3,
            FidlService::Display => 4,
            FidlService::DoNotDisturb => 5,
            FidlService::Intl => 6,
            FidlService::NightMode => 7,
            FidlService::Privacy => 8,
            FidlService::Input => 9,
            FidlService::Setup => 10,
        };
        assert(order[k] == service);
        assert(pred(order[k]));
    }
    if filtered.contains(FidlService::Display) {
        let j = choose|j: int| 0 <= j < filtered.len() && filtered[j] == FidlService::Display;
        assert(pred(filtered[j]));
    }
    if service_enabled(FidlService::Display, components) {
        assert(pred(order[4]));
    }
}

/// Each service other than the display's is published exactly when the
/// setting of the same name is brought up; the display's when the display or
/// the light sensor is.
pub proof fn lemma_service_for_each_setting(components: Set<SettingType>)
    ensures
        enabled_services(components).contains(FidlService::Light) == components.contains(
            SettingType::Light,
        ),
        enabled_services(components).contains(FidlService::Accessibility) == components.contains(
            SettingType::Accessibility,
        ),
        enabled_services(components).contains(FidlService::Audio) == components.contains(
            SettingType::Audio,
        ),
        enabled_services(components).contains(FidlService::Device) == components.contains(
            SettingType::Device,
        ),
        enabled_services(components).contains(FidlService::Display) == (components.contains(
            SettingType::Display,
        ) || components.contains(SettingType::LightSensor)),
        enabled_services(components).contains(FidlService::DoNotDisturb) == components.contains(
            SettingType::DoNotDisturb,
        ),
        enabled_services(components).contains(FidlService::Intl) == components.contains(
            SettingType::Intl,
        ),
        enabled_services(components).contains(FidlService::NightMode) == components.contains(
            SettingType::NightMode,
        ),
        enabled_services(components).contains(FidlService::Privacy) == components.contains(
            SettingType::Privacy,
        ),
        enabled_services(components).contains(FidlService::Input) == components.contains(
            SettingType::Input,
        ),
        enabled_services(components).contains(FidlService::Setup) == components.contains(
            SettingType::Setup,
        ),
{
    lemma_enabled_services(components, FidlService::Light);
    lemma_enabled_services(components, FidlService::Accessibility);
    lemma_enabled_services(components, FidlService::Audio);
    lemma_enabled_services(components, FidlService::Device);
    lemma_enabled_services(components, FidlService::Display);
    lemma_enabled_services(components, FidlService::DoNotDisturb);
    lemma_enabled_services(components, FidlService::Intl);
    lemma_enabled_services(components, FidlService::NightMode);
    lemma_enabled_services(components, FidlService::Privacy);
    lemma_enabled_services(components, FidlService::Input);
    lemma_enabled_services(components, FidlService::Setup);
}
} // verus!
