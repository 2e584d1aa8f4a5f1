//! Sections of the bar a module can be placed in.

use vstd::prelude::*;

verus! {

/// One of the three horizontal regions of the bar.
#[derive(Debug, Clone, Copy, PartialEq, Eq, Structural)]
pub enum BarSection {
    Left,
    Center,
    Right,
}

impl BarSection {
    /// The configuration array key of a section, as a character sequence.
    pub open spec fn spec_array_key(self) -> Seq<char> {
        match self {
            BarSection::Left => "modules-left"@,
            BarSection::Center => "modules-center"@,
            BarSection::Right => "modules-right"@,
        }
    }

    /// The display label of a section, as a character sequence.
    pub open spec fn spec_label(self) -> Seq<char> {
        match self {
            BarSection::Left => "Left"@,
            BarSection::Center => "Center"@,
            BarSection::Right => "Right"@,
        }
    }

    /// Every section, in left-to-right order.
    pub fn all() -> (sections: &'static [BarSection])
        ensures
            sections@ == seq![BarSection::Left, BarSection::Center, BarSection::Right],
    {
        let sections: &'static [BarSection; 3] = &[
            BarSection::Left,
            BarSection::Center,
            BarSection::Right,
        ];
        assert(sections@ =~= seq![BarSection::Left, BarSection::Center, BarSection::Right]);
        sections.as_slice()
    }

    /// The key of the configuration array that lists this section's modules.
    pub fn array_key(&self) -> (key: &'static str)
        ensures
            key@ == self.spec_array_key(),
    {
        match self {
            BarSection::Left => "modules-left",
            BarSection::Center => "modules-center",
            BarSection::Right => "modules-right",
        }
    }

    /// The human-readable label of this section.
    pub fn label(&self) -> (text: &'static str)
        ensures
            text@ == self.spec_label(),
    {
        match self {
            BarSection::Left => "Left",
            BarSection::Center => "Center",
            BarSection::Right => "Right",
        }
    }

    /// The human-readable label of this section, as an owned string.
    pub fn to_string(&self) -> (text: String)
        ensures
            text@ == self.spec_label(),
    {
        self.label().to_owned()
    }
}

impl Default for BarSection {
    fn default() -> (section: BarSection)
        ensures
            section == BarSection::Center,
    {
        BarSection::Center
    }
}

/// Where a module sits: its section and an optional order within it.
#[derive(Debug, Clone)]
pub struct ModulePosition {
    pub section: BarSection,
    pub order: Option<u32>,
}

impl ModulePosition {
    /// A position in `section` with no explicit order.
    pub fn new(section: BarSection) -> (position: ModulePosition)
        ensures
            position.section == section,
            position.order is None,
    {
        ModulePosition { section, order: None }
    }
}

impl Default for ModulePosition {
    fn default() -> (position: ModulePosition)
        ensures
            position.section == BarSection::Center,
            position.order is None,
    {
        ModulePosition { section: BarSection::Center, order: None }
    }
}

} // verus!
