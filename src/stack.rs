//! Where a stack puts the gaps between its subviews.

use vstd::prelude::*;

verus! {

/// Where a stack puts its gaps.
#[derive(Debug, Clone, Copy, PartialEq, Eq, Structural)]
pub enum StackPaddingType {
    /// Pad only between the subviews.
    Interpadded,
    /// Pad between the subviews, before the first subview, and after the last subview.
    Omnipadded,
}

/// The number of gaps in a stack of `n_subviews` subviews.
pub open spec fn gap_count(n_subviews: nat, padding_type: StackPaddingType) -> nat {
    match padding_type {
        StackPaddingType::Interpadded => if n_subviews == 0 {
            0
        } else {
            (n_subviews - 1) as nat
        },
        StackPaddingType::Omnipadded => n_subviews + 1,
    }
}

/// The number of gaps in a stack of `n_subviews` subviews: `max(n - 1, 0)` when interpadded,
/// `n + 1` when omnipadded.
pub fn n_paddings(n_subviews: usize, padding_type: StackPaddingType) -> (r: usize)
    requires
        padding_type == StackPaddingType::Omnipadded ==> n_subviews < usize::MAX,
    ensures
        r == gap_count(n_subviews as nat, padding_type),
{
    match padding_type {
        StackPaddingType::Interpadded => n_subviews.saturating_sub(1),
        StackPaddingType::Omnipadded => n_subviews + 1,
    }
}

/// Does a gap come right before the subview at `index` when a stack is laid out? Every
/// subview but the first has one; the first too when the stack is omnipadded.
pub fn gap_precedes(index: usize, padding_type: StackPaddingType) -> (r: bool)
    ensures
        r == (index != 0 || padding_type == StackPaddingType::Omnipadded),
{
    index != 0 || padding_type == StackPaddingType::Omnipadded
}

} // verus!
