//! A row of the checklist.

use vstd::prelude::*;

verus! {

/// One row of the checklist.
#[derive(Debug)]
pub struct Material {
    /// Whether the user has ticked the row.
    pub checked: bool,
    /// Name of the material.
    pub name: String,
    /// How many items of it the build needs.
    pub count: u32,
}

/// What a row holds, as plain values.
pub struct MaterialView {
    pub checked: bool,
    pub name: Seq<char>,
    pub count: nat,
}

impl View for Material {
    type V = MaterialView;

    open spec fn view(&self) -> MaterialView {
        MaterialView { checked: self.checked, name: self.name@, count: self.count as nat }
    }
}

impl DeepView for Material {
    type V = MaterialView;

    open spec fn deep_view(&self) -> MaterialView {
        self@
    }
}

} // verus!
