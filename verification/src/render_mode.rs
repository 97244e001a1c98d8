//! The ways the scene can be shaded.

use vstd::prelude::*;

verus! {

/// What the renderer shows on the surface of the stickers.
#[derive(Clone, Copy, Debug, PartialEq, Eq, Structural)]
pub enum RenderMode {
    /// Lit sticker colours.
    Standard,
    /// Surface normals as colours.
    Normals,
    /// Distance from the camera as brightness.
    Depth,
}

impl RenderMode {
    /// Name of the mode as shown in a selection list.
    pub open spec fn spec_label(self) -> Seq<char> {
        match self {
            RenderMode::Standard => "Standard"@,
            RenderMode::Normals => "Normal Map"@,
            RenderMode::Depth => "Depth Map"@,
        }
    }

    /// Name of the mode as shown in a selection list.
    pub fn label(self) -> (label: String)
        ensures
            label@ == self.spec_label(),
    {
        match self {
            RenderMode::Standard => "Standard".to_string(),
            RenderMode::Normals => "Normal Map".to_string(),
            RenderMode::Depth => "Depth Map".to_string(),
        }
    }

    /// Every mode, in the order of a selection list.
    pub fn all() -> (modes: [RenderMode; 3])
        ensures
            modes[0] == RenderMode::Standard,
            modes[1] == RenderMode::Normals,
            modes[2] == RenderMode::Depth,
    {
        [RenderMode::Standard, RenderMode::Normals, RenderMode::Depth]
    }
}

/// Different modes have different names.
pub proof fn lemma_labels_are_distinct(a: RenderMode, b: RenderMode)
    requires
        a != b,
    ensures
        a.spec_label() != b.spec_label(),
{
    reveal_strlit("Standard");
    reveal_strlit("Normal Map");
    reveal_strlit("Depth Map");
    assert("Standard"@.len() == 8);
    assert("Normal Map"@.len() == 10);
    assert("Depth Map"@.len() == 9);
}

} // verus!
