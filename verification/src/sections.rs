//! The fixed set of top-level panels and the two-valued focus.

use vstd::prelude::*;

verus! {

/// How many sections the sidebar offers.
pub const SECTION_COUNT: usize = 9;

/// One of the fixed top-level panels the sidebar can select.
#[derive(Clone, Copy, PartialEq, Eq, Structural, Debug)]
pub enum Section {
    Model,
    Quantity,
    Topics,
    Companies,
    Preview,
    Run,
    Convert,
    Bates,
    Settings,
}

/// Which half of the screen receives directional input.
#[derive(Clone, Copy, PartialEq, Eq, Structural, Debug)]
pub enum Focus {
    Sidebar,
    Main,
}

impl Section {
    /// The section sitting at position `i` of the fixed sidebar ordering.
    pub open spec fn at_spec(i: int) -> Section {
        if i == 0 {
            Section::Model
        } else if i == 1 {
            Section::Quantity
        } else if i == 2 {
            Section::Topics
        } else if i == 3 {
            Section::Companies
        } else if i == 4 {
            Section::Preview
        } else if i == 5 {
            Section::Run
        } else if i == 6 {
            Section::Convert
        } else if i == 7 {
            Section::Bates
        } else {
            Section::Settings
        }
    }

    /// The fixed sidebar ordering as a sequence.
    pub open spec fn all_spec() -> Seq<Section> {
        seq![
            Section::Model,
            Section::Quantity,
            Section::Topics,
            Section::Companies,
            Section::Preview,
            Section::Run,
            Section::Convert,
            Section::Bates,
            Section::Settings,
        ]
    }

    /// The display name of the section.
    pub open spec fn name_spec(self) -> Seq<char> {
        match self {
            Section::Model => "Model"@,
            Section::Quantity => "Quantity"@,
            Section::Topics => "Topics"@,
            Section::Companies => "Companies"@,
            Section::Preview => "Preview"@,
            Section::Run => "Run"@,
            Section::Convert => "Convert"@,
            Section::Bates => "Bates"@,
            Section::Settings => "Settings"@,
        }
    }

    /// Display name, as shown in the sidebar.
    pub fn as_str(&self) -> (r: &'static str)
        ensures
            r@ == self.name_spec(),
    {
        match self {
            Section::Model => "Model",
            Section::Quantity => "Quantity",
            Section::Topics => "Topics",
            Section::Companies => "Companies",
            Section::Preview => "Preview",
            Section::Run => "Run",
            Section::Convert => "Convert",
            Section::Bates => "Bates",
            Section::Settings => "Settings",
        }
    }

    /// Every section, in sidebar order.
    pub fn all() -> (r: [Section; 9])
        ensures
            r@ == Section::all_spec(),
    {
        let r = [
            Section::Model,
            Section::Quantity,
            Section::Topics,
            Section::Companies,
            Section::Preview,
            Section::Run,
            Section::Convert,
            Section::Bates,
            Section::Settings,
        ];
        proof {
            assert(r@ =~= Section::all_spec());
        }
        r
    }

    /// Looks up the section at sidebar position `i`.
    pub fn at(i: usize) -> (r: Section)
        requires
            i < SECTION_COUNT,
        ensures
            r == Section::at_spec(i as int),
    {
        if i == 0 {
            Section::Model
        } else if i == 1 {
            Section::Quantity
        } else if i == 2 {
            Section::Topics
        } else if i == 3 {
            Section::Companies
        } else if i == 4 {
            Section::Preview
        } else if i == 5 {
            Section::Run
        } else if i == 6 {
            Section::Convert
        } else if i == 7 {
            Section::Bates
        } else {
            Section::Settings
        }
    }
}

} // verus!
