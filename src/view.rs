//! What the control shows: the pointer shape over it, whether the menu
//! overlay exists, and what its box paints.
use vstd::prelude::*;
use crate::state::State;

verus! {

/// Pointer shape over the control.
#[derive(Clone, Copy, Debug, PartialEq, Eq, Structural)]
pub enum Interaction {
    /// The host's default pointer.
    Idle,
    /// A pointing hand: over the box, outside the text region.
    Pointer,
    /// A text caret: over the text region.
    Text,
}

/// The pointer shape: a caret over the text region, a pointer over the rest of
/// the box, the default elsewhere.
pub fn mouse_interaction(over_text: bool, over_box: bool) -> (r: Interaction)
    ensures
        over_text ==> r == Interaction::Text,
        !over_text && over_box ==> r == Interaction::Pointer,
        !over_text && !over_box ==> r == Interaction::Idle,
{
    if over_text {
        Interaction::Text
    } else if over_box {
        Interaction::Pointer
    } else {
        Interaction::Idle
    }
}

/// Whether a menu overlay exists this frame: exactly while the control is open.
pub fn overlay<T>(state: &State<T>) -> (r: bool)
    ensures
        r == state.is_open,
{
    state.is_open
}

/// Which of the style sheet's looks the box takes.
#[derive(Clone, Copy, Debug, PartialEq, Eq, Structural)]
pub enum Look {
    Active,
    Hovered,
}

/// What fills the box beside the arrow icon.
#[derive(Clone, Copy, Debug, PartialEq, Eq, Structural)]
pub enum Content {
    /// The text field draws itself, caret included.
    TextField,
    /// The selected value's label, in the text colour.
    Selected,
    /// The placeholder, in the placeholder colour.
    Placeholder,
    /// Nothing.
    Blank,
}

/// What the paint routine draws.
#[derive(Clone, Copy, Debug, PartialEq, Eq, Structural)]
pub struct Appearance {
    pub look: Look,
    pub content: Content,
}

/// The look follows the pointer; the content is the live text field while it
/// has focus, else the selected value, else the placeholder, else nothing.
pub open spec fn appearance_spec(
    text_focused: bool,
    mouse_over: bool,
    has_selected: bool,
    has_placeholder: bool,
) -> Appearance {
    Appearance {
        look: if mouse_over { Look::Hovered } else { Look::Active },
        content: if text_focused {
            Content::TextField
        } else if has_selected {
            Content::Selected
        } else if has_placeholder {
            Content::Placeholder
        } else {
            Content::Blank
        },
    }
}

/// Decides how the box is painted for the pointer position and the values at hand.
pub fn draw<T>(state: &State<T>, mouse_over: bool, has_selected: bool, has_placeholder: bool) -> (r:
    Appearance)
    ensures
        r == appearance_spec(state.text_focused, mouse_over, has_selected, has_placeholder),
{
    let look = if mouse_over {
        Look::Hovered
    } else {
        Look::Active
    };
    let content = if state.is_focused() {
        Content::TextField
    } else if has_selected {
        Content::Selected
    } else if has_placeholder {
        Content::Placeholder
    } else {
        Content::Blank
    };
    Appearance { look, content }
}

} // verus!
