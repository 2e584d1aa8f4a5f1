//! Modules that are installed on this machine.

use crate::domain::module::ModuleUuid;
use crate::domain::version::ModuleVersion;
use vstd::prelude::*;

verus! {

/// The local record of an installed module.
#[derive(Debug, Clone)]
pub struct InstalledModule {
    pub uuid: ModuleUuid,
    pub version: ModuleVersion,
    /// The directory of the module, derived from its identifier.
    pub install_path: String,
    pub enabled: bool,
    /// The name under which the module stands in the bar's configuration.
    pub waybar_module_name: String,
    pub has_preferences: bool,
}

impl InstalledModule {
    /// The record of a module that was just installed: enabled.
    pub fn new(
        uuid: ModuleUuid,
        version: ModuleVersion,
        install_path: String,
        waybar_module_name: String,
        has_preferences: bool,
    ) -> (record: InstalledModule)
        ensures
            record.uuid == uuid,
            record.version == version,
            record.install_path == install_path,
            record.enabled,
            record.waybar_module_name == waybar_module_name,
            record.has_preferences == has_preferences,
    {
        InstalledModule {
            uuid,
            version,
            install_path,
            enabled: true,
            waybar_module_name,
            has_preferences,
        }
    }
}

} // verus!
