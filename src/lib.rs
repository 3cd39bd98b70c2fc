//! Core of a retained-mode UI runtime: the axis-neutral geometry of layout, the gap rules of
//! stacks, the pointer-event router that turns raw pointer input into hover and press
//! notifications for registered rectangles, and the state machine of a pressable button.

pub mod axis;
pub mod button;
pub mod mouse_event;
pub mod stack;
pub mod theme;
pub mod utils;
pub mod view;
