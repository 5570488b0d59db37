//! What the user is told when a material list cannot be loaded, or not in
//! full.

use vstd::prelude::*;

verus! {

/// A failure that the user is told of. None of them ends the program.
#[derive(Clone, Copy, Debug, PartialEq, Eq, Structural)]
pub enum Notice {
    /// The user closed the file prompt without choosing a file.
    NoFileSelected,
    /// The chosen file could not be read as text.
    ReadFailed,
    /// One record of the material list gave no row.
    EntryFailed,
}

impl Notice {
    /// The title of the message box: the same for every notice.
    pub fn title(&self) -> (title: &'static str)
        ensures
            title@ == "Error"@,
    {
        "Error"
    }

    /// The sentence in the message box.
    pub open spec fn spec_description(&self) -> Seq<char> {
        match self {
            Notice::NoFileSelected => "Please select a file"@,
            Notice::ReadFailed => "Failed to read file"@,
            Notice::EntryFailed => "Failed parse an entry"@,
        }
    }

    /// The sentence in the message box.
    pub fn description(&self) -> (description: &'static str)
        ensures
            description@ == self.spec_description(),
    {
        match self {
            Notice::NoFileSelected => "Please select a file",
            Notice::ReadFailed => "Failed to read file",
            Notice::EntryFailed => "Failed parse an entry",
        }
    }
}

} // verus!
