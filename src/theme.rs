//! Button kinds of a theme.

use vstd::prelude::*;

verus! {

/// The tint of a button, used to pick one of a theme's button styles.
#[derive(Default, Debug, Clone, Copy, PartialEq, Eq, Structural)]
pub enum ButtonKind {
    /// Untinted button.
    #[default]
    Mundane,
    /// Non-alarm color tinted button.
    Primary,
    /// Alarm color (e.g. red) tinted button.
    Toxic,
}

impl ButtonKind {
    /// Position of this kind in a theme's table of button styles.
    pub open spec fn index_of(self) -> nat {
        match self {
            ButtonKind::Mundane => 0,
            ButtonKind::Primary => 1,
            ButtonKind::Toxic => 2,
        }
    }

    pub fn to_usize(self) -> (r: usize)
        ensures
            r == self.index_of(),
            r < 3,
    {
        match self {
            ButtonKind::Mundane => 0,
            ButtonKind::Primary => 1,
            ButtonKind::Toxic => 2,
        }
    }
}

} // verus!
