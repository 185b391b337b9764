//! The renderer's per-frame decision: which of the two terminal render
//! modes to use next, given this frame's input actions.
//!
//! Drawing the frame (colors, glyphs, cursor control) is terminal work and
//! stays with the front end; the mode and its toggle rule are exact and
//! verified here.

use vstd::prelude::*;
use crate::input::InputAction;

verus! {

/// How a frame is put on the terminal: as true-color cells, or as a ramp of
/// ASCII glyphs by intensity.
#[derive(Clone, Copy, PartialEq, Eq, Debug, Structural)]
pub enum TerminalRenderType {
    Colored,
    BlackAndWhite,
}

/// The other render type.
pub open spec fn spec_toggled_render_type(render_type: TerminalRenderType) -> TerminalRenderType {
    match render_type {
        TerminalRenderType::Colored => TerminalRenderType::BlackAndWhite,
        TerminalRenderType::BlackAndWhite => TerminalRenderType::Colored,
    }
}

impl TerminalRenderType {
    /// The other render type.
    pub fn toggled(self) -> (r: TerminalRenderType)
        ensures
            r == spec_toggled_render_type(self),
    {
        match self {
            TerminalRenderType::Colored => TerminalRenderType::BlackAndWhite,
            TerminalRenderType::BlackAndWhite => TerminalRenderType::Colored,
        }
    }
}

/// The render type for the next frame: toggled exactly when some action of
/// the frame asks for a render-type change.
pub fn next_render_type(
    current: TerminalRenderType,
    actions: &Vec<InputAction>,
) -> (next: TerminalRenderType)
    ensures
        next == if actions@.contains(InputAction::ChangeRenderType) {
            spec_toggled_render_type(current)
        } else {
            current
        },
{
    let mut i: usize = 0;
    while i < actions.len()
        invariant
            i <= actions.len(),
            forall|j: int| 0 <= j < i ==> actions@[j] != InputAction::ChangeRenderType,
        decreases actions.len() - i,
    {
        if actions[i] == InputAction::ChangeRenderType {
            assert(actions@[i as int] == InputAction::ChangeRenderType);
            return current.toggled();
        }
        i = i + 1;
    }
    current
}

} // verus!
