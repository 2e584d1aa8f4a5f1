//! The closed set of module categories.

use vstd::prelude::*;

verus! {

/// What a module is about.
#[derive(Debug, Clone, Copy, PartialEq, Eq, Hash, Structural)]
pub enum ModuleCategory {
    System,
    Hardware,
    Network,
    Audio,
    Power,
    Time,
    Workspace,
    Window,
    Tray,
    Weather,
    Productivity,
    Media,
    Custom,
}

/// Every category, in the order in which pickers list them.
pub open spec fn all_categories() -> Seq<ModuleCategory> {
    seq![
        ModuleCategory::System,
        ModuleCategory::Hardware,
        ModuleCategory::Network,
        ModuleCategory::Audio,
        ModuleCategory::Power,
        ModuleCategory::Time,
        ModuleCategory::Workspace,
        ModuleCategory::Window,
        ModuleCategory::Tray,
        ModuleCategory::Weather,
        ModuleCategory::Productivity,
        ModuleCategory::Media,
        ModuleCategory::Custom,
    ]
}

impl ModuleCategory {
    /// The name shown for a category, as a character sequence.
    pub open spec fn spec_display_name(self) -> Seq<char> {
        match self {
            ModuleCategory::System => "System"@,
            ModuleCategory::Hardware => "Hardware"@,
            ModuleCategory::Network => "Network"@,
            ModuleCategory::Audio => "Audio"@,
            ModuleCategory::Power => "Power"@,
            ModuleCategory::Time => "Time"@,
            ModuleCategory::Workspace => "Workspace"@,
            ModuleCategory::Window => "Window"@,
            ModuleCategory::Tray => "Tray"@,
            ModuleCategory::Weather => "Weather"@,
            ModuleCategory::Productivity => "Productivity"@,
            ModuleCategory::Media => "Media"@,
            ModuleCategory::Custom => "Custom"@,
        }
    }

    /// Every category, in the order in which pickers list them.
    pub fn all() -> (categories: &'static [ModuleCategory])
        ensures
            categories@ == all_categories(),
    {
        let categories: &'static [ModuleCategory; 13] = &[
            ModuleCategory::System,
            ModuleCategory::Hardware,
            ModuleCategory::Network,
            ModuleCategory::Audio,
            ModuleCategory::Power,
            ModuleCategory::Time,
            ModuleCategory::Workspace,
            ModuleCategory::Window,
            ModuleCategory::Tray,
            ModuleCategory::Weather,
            ModuleCategory::Productivity,
            ModuleCategory::Media,
            ModuleCategory::Custom,
        ];
        assert(categories@ =~= all_categories());
        categories.as_slice()
    }

    /// The name shown for this category.
    pub fn display_name(&self) -> (name: &'static str)
        ensures
            name@ == self.spec_display_name(),
    {
        match self {
            ModuleCategory::System => "System",
            ModuleCategory::Hardware => "Hardware",
            ModuleCategory::Network => "Network",
            ModuleCategory::Audio => "Audio",
            ModuleCategory::Power => "Power",
            ModuleCategory::Time => "Time",
            ModuleCategory::Workspace => "Workspace",
            ModuleCategory::Window => "Window",
            ModuleCategory::Tray => "Tray",
            ModuleCategory::Weather => "Weather",
            ModuleCategory::Productivity => "Productivity",
            ModuleCategory::Media => "Media",
            ModuleCategory::Custom => "Custom",
        }
    }
}

} // verus!
