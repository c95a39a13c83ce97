//! The configurations that decide which settings the service brings up and
//! which customized controllers they use.
use vstd::prelude::*;

use crate::collections::KeySet;
use crate::setting_types::{ControllerFlag, SettingType};

verus! {

/// The settings that a product enables.
#[derive(PartialEq, Debug, Clone)]
pub struct EnabledServicesConfiguration {
    pub services: KeySet<SettingType>,
}

impl EnabledServicesConfiguration {
    pub fn with_services(services: KeySet<SettingType>) -> (c: Self)
        ensures
            c.services@ == services@,
    {
        Self { services }
    }
}

/// The controller flags that a product sets.
#[derive(Debug, Clone)]
pub struct ServiceFlags {
    pub controller_flags: KeySet<ControllerFlag>,
}

impl Default for ServiceFlags {
    fn default() -> (f: Self)
        ensures
            f.controller_flags@ == Set::<ControllerFlag>::empty(),
    {
        ServiceFlags { controller_flags: KeySet::new() }
    }
}

/// The settings to bring up, with the flags for their controllers.
#[derive(PartialEq, Debug, Clone)]
pub struct ServiceConfiguration {
    pub services: KeySet<SettingType>,
    pub controller_flags: KeySet<ControllerFlag>,
}

impl ServiceConfiguration {
    pub fn from(services: EnabledServicesConfiguration, flags: ServiceFlags) -> (c: Self)
        ensures
            c.services@ == services.services@,
            c.controller_flags@ == flags.controller_flags@,
    {
        Self { services: services.services, controller_flags: flags.controller_flags }
    }
}

} // verus!
