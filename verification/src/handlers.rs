//! Which handler serves each setting.
//!
//! The service registers a built-in handler for every setting it knows how
//! to control, chosen by the controller flags; the environment's custom
//! handlers then take the place of the built-in ones for their settings.
use vstd::prelude::*;

use crate::collections::{KeyMap, KeySet};
use crate::setting_types::{ControllerFlag, SettingType};

verus! {

/// The controller that a built-in handler runs.
#[derive(Clone, Copy, Debug, PartialEq, Eq, Structural)]
pub enum ControllerKind {
    Power,
    Accessibility,
    Account,
    Audio,
    Device,
    /// The display controller that sets brightness itself.
    Display,
    /// The display controller that defers to an external brightness control.
    ExternalBrightnessDisplay,
    Light,
    LightSensor,
    Input,
    Intl,
    DoNotDisturb,
    NightMode,
    Privacy,
    Setup,
}

/// Whether the handler of a controller keeps its setting's info in device
/// storage (a data handler) rather than only running the controller.
pub open spec fn controller_persists_data(kind: ControllerKind) -> bool {
    match kind {
        ControllerKind::Power | ControllerKind::Account | ControllerKind::Device
        | ControllerKind::LightSensor => false,
        _ => true,
    }
}

impl ControllerKind {
    /// Whether this controller's handler keeps its setting's info in device
    /// storage.
    pub fn persists_data(&self) -> (b: bool)
        ensures
            b == controller_persists_data(*self),
    {
        match self {
            ControllerKind::Power | ControllerKind::Account | ControllerKind::Device
            | ControllerKind::LightSensor => false,
            _ => true,
        }
    }
}

/// The built-in controller of a setting, if the service has one; the
/// display's depends on whether brightness is controlled externally.
pub open spec fn builtin_controller(setting_type: SettingType, external_brightness: bool) -> Option<
    ControllerKind,
> {
    match setting_type {
        SettingType::Power => Some(ControllerKind::Power),
        SettingType::Accessibility => Some(ControllerKind::Accessibility),
        SettingType::Account => Some(ControllerKind::Account),
        SettingType::Audio => Some(ControllerKind::Audio),
        SettingType::Device => Some(ControllerKind::Device),
        SettingType::Display => Some(
            if external_brightness {
                ControllerKind::ExternalBrightnessDisplay
            } else {
                ControllerKind::Display
            },
        ),
        SettingType::Light => Some(ControllerKind::Light),
        SettingType::LightSensor => Some(ControllerKind::LightSensor),
        SettingType::Input => Some(ControllerKind::Input),
        SettingType::Intl => Some(ControllerKind::Intl),
        SettingType::DoNotDisturb => Some(ControllerKind::DoNotDisturb),
        SettingType::NightMode => Some(ControllerKind::NightMode),
        SettingType::Privacy => Some(ControllerKind::Privacy),
        SettingType::Setup => Some(ControllerKind::Setup),
        SettingType::Unknown | SettingType::FactoryReset => None,
    }
}

/// The order in which the built-in handlers are registered.
pub open spec fn builtin_order() -> Seq<SettingType> {
    seq![
        SettingType::Power,
        SettingType::Accessibility,
        SettingType::Account,
        SettingType::Audio,
        SettingType::Device,
        SettingType::Display,
        SettingType::Light,
        SettingType::LightSensor,
        SettingType::Input,
        SettingType::Intl,
        SettingType::DoNotDisturb,
        SettingType::NightMode,
        SettingType::Privacy,
        SettingType::Setup,
    ]
}

/// Whether the flags ask for the display to defer to an external brightness
/// control.
pub open spec fn external_brightness(flags: Set<ControllerFlag>) -> bool {
    flags.contains(ControllerFlag::ExternalBrightnessControl)
}

/// The handler that serves a setting: a built-in controller, or a handler
/// that the environment supplies.
#[derive(Clone, Copy, Debug, PartialEq, Eq)]
pub enum HandlerSource<H> {
    Builtin(ControllerKind),
    Custom(H),
}

/// The built-in handlers, by setting.
pub open spec fn builtin_handlers<H>(external_brightness: bool) -> Map<
    SettingType,
    HandlerSource<H>,
> {
    Map::new(
        |t: SettingType| builtin_controller(t, external_brightness) is Some,
        |t: SettingType| HandlerSource::Builtin(builtin_controller(t, external_brightness).unwrap()),
    )
}

/// The custom handlers, by setting.
pub open spec fn custom_handlers<H>(custom: Map<SettingType, H>) -> Map<
    SettingType,
    HandlerSource<H>,
> {
    custom.map_values(|h: H| HandlerSource::Custom(h))
}

/// The handler of every setting once the custom handlers have been
/// registered over the built-in ones.
pub open spec fn handler_table<H>(external_brightness: bool, custom: Map<SettingType, H>) -> Map<
    SettingType,
    HandlerSource<H>,
> {
    builtin_handlers(external_brightness).union_prefer_right(custom_handlers(custom))
}

/// The registration order lists each setting that has a built-in controller,
/// once.
pub proof fn lemma_builtin_order(external_brightness: bool)
    ensures
        builtin_order().no_duplicates(),
        forall|t: SettingType|
            builtin_order().contains(t) <==> (builtin_controller(t, external_brightness) is Some),
{
    let s = builtin_order();
    assert(s[0] == SettingType::Power);
    assert(s[1] == SettingType::Accessibility);
    assert(s[2] == SettingType::Account);
    assert(s[3] == SettingType::Audio);
    assert(s[4] == SettingType::Device);
    assert(s[5] == SettingType::Display);
    assert(s[6] == SettingType::Light);
    assert(s[7] == SettingType::LightSensor);
    assert(s[8] == SettingType::Input);
    assert(s[9] == SettingType::Intl);
    assert(s[10] == SettingType::DoNotDisturb);
    assert(s[11] == SettingType::NightMode);
    assert(s[12] == SettingType::Privacy);
    assert(s[13] == SettingType::Setup);
    assert forall|t: SettingType|
        s.contains(t) <==> (builtin_controller(t, external_brightness) is Some) by {
        if builtin_controller(t, external_brightness) is Some {
            match t {
                SettingType::Power => assert(s[0] == t),
                SettingType::Accessibility => assert(s[1] == t),
                SettingType::Account => assert(s[2] == t),
                SettingType::Audio => assert(s[3] == t),
                SettingType::Device => assert(s[4] == t),
                SettingType::Display => assert(s[5] == t),
                SettingType::Light => assert(s[6] == t),
                SettingType::LightSensor => assert(s[7] == t),
                SettingType::Input => assert(s[8] == t),
                SettingType::Intl => assert(s[9] == t),
                SettingType::DoNotDisturb => assert(s[10] == t),
                SettingType::NightMode => assert(s[11] == t),
                SettingType::Privacy => assert(s[12] == t),
                SettingType::Setup => assert(s[13] == t),
                _ => {},
            }
        }
    }
}

/// The built-in handler registrations, in order: each setting that the
/// service controls, with its controller under the given flags.
pub fn configuration_handlers(controller_flags: &KeySet<ControllerFlag>) -> (r: Vec<
    (SettingType, ControllerKind),
>)
    ensures
        r@.len() == builtin_order().len(),
        forall|i: int|
            0 <= i < r@.len() ==> #[trigger] r@[i] == (
                builtin_order()[i],
                builtin_controller(
                    builtin_order()[i],
                    external_brightness(controller_flags@),
                ).unwrap(),
            ),
{
    let external = controller_flags.contains(&ControllerFlag::ExternalBrightnessControl);
    let display = if external {
        ControllerKind::ExternalBrightnessDisplay
    } else {
        ControllerKind::Display
    };
    let r = vec![
        (SettingType::Power, ControllerKind::Power),
        (SettingType::Accessibility, ControllerKind::Accessibility),
        (SettingType::Account, ControllerKind::Account),
        (SettingType::Audio, ControllerKind::Audio),
        (SettingType::Device, ControllerKind::Device),
        (SettingType::Display, display),
        (SettingType::Light, ControllerKind::Light),
        (SettingType::LightSensor, ControllerKind::LightSensor),
        (SettingType::Input, ControllerKind::Input),
        (SettingType::Intl, ControllerKind::Intl),
        (SettingType::DoNotDisturb, ControllerKind::DoNotDisturb),
        (SettingType::NightMode, ControllerKind::NightMode),
        (SettingType::Privacy, ControllerKind::Privacy),
        (SettingType::Setup, ControllerKind::Setup),
    ];
    r
}

/// Registers the built-in handlers, then the custom ones over them: the
/// handler of every setting that the service can serve.
pub fn handler_registry<H>(
    controller_flags: &KeySet<ControllerFlag>,
    custom: KeyMap<SettingType, H>,
) -> (r: KeyMap<SettingType, HandlerSource<H>>)
    ensures
        r@ == handler_table(external_brightness(controller_flags@), custom@),
{
    let ghost external = external_brightness(controller_flags@);
    let builtin = configuration_handlers(controller_flags);
    let mut registry: KeyMap<SettingType, HandlerSource<H>> = KeyMap::new();
    let n = builtin.len();
    let mut i: usize = 0;
    proof {
        lemma_builtin_order(external);
    }
    while i < n
        invariant
            n == builtin@.len(),
            n == builtin_order().len(),
            i <= n,
            forall|j: int|
                0 <= j < builtin@.len() ==> #[trigger] builtin@[j] == (
                    builtin_order()[j],
                    builtin_controller(builtin_order()[j], external).unwrap(),
                ),
            registry@ == Map::new(
                |t: SettingType| builtin_order().take(i as int).contains(t),
                |t: SettingType| HandlerSource::<H>::Builtin(builtin_controller(t, external).unwrap()),
            ),
        decreases n - i,
    {
        let (setting_type, kind) = builtin[i];
        registry.insert(setting_type, HandlerSource::Builtin(kind));
        proof {
            let prefix = builtin_order().take(i as int);
            assert(builtin_order().take(i + 1) == prefix.push(setting_type));
            assert forall|t: SettingType| #[trigger] prefix.push(setting_type).contains(t) <==> (
            prefix.contains(t) || t == setting_type) by {
                prefix.lemma_push_to_set_commute(setting_type);
                assert(prefix.push(setting_type).to_set().contains(t) == prefix.push(
                    setting_type,
                ).contains(t));
            }
            assert(registry@ =~= Map::new(
                |t: SettingType| builtin_order().take(i + 1).contains(t),
                |t: SettingType| HandlerSource::<H>::Builtin(builtin_controller(t, external).unwrap()),
            ));
        }
        i = i + 1;
    }
    proof {
        assert(builtin_order().take(n as int) == builtin_order());
        assert(registry@ =~= builtin_handlers::<H>(external));
    }
    let ghost original = custom@;
    let mut custom = custom;
    loop
        invariant
            forall|t: SettingType| #[trigger]
                custom@.contains_key(t) ==> original.contains_key(t) && custom@[t] == original[t],
            registry@ == handler_table(
                external,
                original.remove_keys(custom@.dom()),
            ),
        ensures
            registry@ == handler_table(external, original),
        decreases custom.keys_seq().len(),
    {
        match custom.pop() {
            Some((setting_type, handler)) => {
                let ghost before = custom@.insert(setting_type, handler);
                registry.insert(setting_type, HandlerSource::Custom(handler));
                proof {
                    assert(original.remove_keys(custom@.dom()) =~= original.remove_keys(
                        before.dom(),
                    ).insert(setting_type, handler));
                    assert(registry@ =~= handler_table(external, original.remove_keys(custom@.dom())));
                }
            },
            None => {
                proof {
                    assert(original.remove_keys(custom@.dom()) =~= original);
                }
                break ;
            },
        }
    }
    registry
}

/// A custom handler always takes the place of the built-in one: whatever
/// the flags, a setting with a custom handler is served by it.
pub proof fn lemma_custom_handler_wins<H>(
    external_brightness: bool,
    custom: Map<SettingType, H>,
    setting_type: SettingType,
)
    requires
        custom.contains_key(setting_type),
    ensures
        handler_table(external_brightness, custom).contains_key(setting_type),
        handler_table(external_brightness, custom)[setting_type] == HandlerSource::Custom(
            custom[setting_type],
        ),
{
}

/// Without a custom handler, a setting is served by its built-in controller
/// if the service has one, and not at all otherwise.
pub proof fn lemma_builtin_handler_fallback<H>(
    external_brightness: bool,
    custom: Map<SettingType, H>,
    setting_type: SettingType,
)
    requires
        !custom.contains_key(setting_type),
    ensures
        handler_table(external_brightness, custom).contains_key(setting_type) == (builtin_controller(
            setting_type,
            external_brightness,
        ) is Some),
        builtin_controller(setting_type, external_brightness) is Some ==> handler_table(
            external_brightness,
            custom,
        )[setting_type] == HandlerSource::<H>::Builtin(
            builtin_controller(setting_type, external_brightness).unwrap(),
        ),
{
}

/// The external brightness flag changes the display's controller and no
/// other.
pub proof fn lemma_flag_affects_only_display(setting_type: SettingType)
    ensures
        setting_type != SettingType::Display ==> builtin_controller(setting_type, true)
            == builtin_controller(setting_type, false),
        builtin_controller(SettingType::Display, true) == Some(
            ControllerKind::ExternalBrightnessDisplay,
        ),
        builtin_controller(SettingType::Display, false) == Some(ControllerKind::Display),
{
}

/// Exactly the power, account, device and light sensor controllers run
/// without keeping their setting's info in storage; every other built-in
/// controller is a data handler.
pub proof fn lemma_data_handlers(kind: ControllerKind)
    ensures
        !controller_persists_data(kind) <==> (kind == ControllerKind::Power || kind
            == ControllerKind::Account || kind == ControllerKind::Device || kind
            == ControllerKind::LightSensor),
        controller_persists_data(ControllerKind::Accessibility),
        controller_persists_data(ControllerKind::Audio),
        controller_persists_data(ControllerKind::Display),
        controller_persists_data(ControllerKind::ExternalBrightnessDisplay),
        controller_persists_data(ControllerKind::Light),
        controller_persists_data(ControllerKind::Input),
        controller_persists_data(ControllerKind::Intl),
        controller_persists_data(ControllerKind::DoNotDisturb),
        controller_persists_data(ControllerKind::NightMode),
        controller_persists_data(ControllerKind::Privacy),
        controller_persists_data(ControllerKind::Setup),
{
}

/// Each setting with a built-in controller is served by the controller of
/// the same name, and its handler keeps its info in storage unless it is the
/// power, account, device or light sensor setting.
pub proof fn lemma_builtin_controllers(setting_type: SettingType, external: bool)
    ensures
        setting_type == SettingType::Audio ==> builtin_controller(setting_type, external) == Some(
            ControllerKind::Audio,
        ),
        setting_type == SettingType::Input ==> builtin_controller(setting_type, external) == Some(
            ControllerKind::Input,
        ),
        setting_type == SettingType::Intl ==> builtin_controller(setting_type, external) == Some(
            ControllerKind::Intl,
        ),
        setting_type == SettingType::Light ==> builtin_controller(setting_type, external) == Some(
            ControllerKind::Light,
        ),
        setting_type == SettingType::Setup ==> builtin_controller(setting_type, external) == Some(
            ControllerKind::Setup,
        ),
        builtin_controller(setting_type, external) is Some ==> (controller_persists_data(
            builtin_controller(setting_type, external).unwrap(),
        ) <==> !(setting_type == SettingType::Power || setting_type == SettingType::Account
            || setting_type == SettingType::Device || setting_type == SettingType::LightSensor)),
{
}
} // verus!
