//! The kinds of settings the service manages, and the flags that change how
//! their controllers behave.
use vstd::prelude::*;

use crate::collections::SetElement;

verus! {

/// A setting that the service can bring up.
#[derive(Clone, Copy, Debug, PartialEq, Eq, Hash, Structural)]
pub enum SettingType {
    Unknown,
    Accessibility,
    Account,
    Audio,
    Device,
    Display,
    DoNotDisturb,
    FactoryReset,
    Input,
    Intl,
    Light,
    LightSensor,
    NightMode,
    Power,
    Privacy,
    Setup,
}

/// A switch that selects a customized controller for a setting.
#[derive(Clone, Copy, Debug, PartialEq, Eq, Hash, Structural)]
pub enum ControllerFlag {
    /// Brightness is controlled outside the service: the display controller
    /// defers to an external brightness control.
    ExternalBrightnessControl,
}

impl SetElement for SettingType {
    fn same(&self, other: &Self) -> (b: bool) {
        *self == *other
    }
}

impl SetElement for ControllerFlag {
    fn same(&self, other: &Self) -> (b: bool) {
        *self == *other
    }
}

} // verus!
