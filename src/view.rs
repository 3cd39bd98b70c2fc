//! Small shared vocabulary of views, resources and the rendering context.

use vstd::prelude::*;

use crate::axis::RectSize;

verus! {

/// Tells a traversal over subviews whether to go on.
#[derive(Debug, Clone, Copy, PartialEq, Eq, Structural)]
pub enum ControlFlow {
    Break,
    Continue,
}

/// The axes along which a spread view takes as much space as it can.
#[derive(Debug, Clone, Copy, PartialEq, Eq, Structural)]
pub enum SpreadAxis {
    Horizontal,
    Vertical,
    Both,
}

/// The size a spread view asks for: `unbounded` along each axis it spreads on, the subview's
/// own length along the other.
pub fn spread_size<T: Copy>(axis: SpreadAxis, size: RectSize<T>, unbounded: T) -> (r: RectSize<T>)
    ensures
        r.width == (if axis == SpreadAxis::Vertical {
            size.width
        } else {
            unbounded
        }),
        r.height == (if axis == SpreadAxis::Horizontal {
            size.height
        } else {
            unbounded
        }),
{
    match axis {
        SpreadAxis::Horizontal => RectSize { width: unbounded, height: size.height },
        SpreadAxis::Vertical => RectSize { width: size.width, height: unbounded },
        SpreadAxis::Both => RectSize { width: unbounded, height: unbounded },
    }
}

/// The kinds of resources that an application loads.
#[derive(Debug, Clone, Copy, PartialEq, Eq, Structural)]
pub enum ResourceType {
    Text,
    Image,
    Shader,
}

/// The step of building the rendering context at which an error occurred.
#[derive(Debug, Clone, Copy, PartialEq, Eq, Structural)]
#[non_exhaustive]
pub enum UiContextCreationStage {
    RectRendererCreation,
    InstancedRectRendererCreation,
    FontLoading,
    TextRendererCreation,
    ImageRendererCreation,
}

impl UiContextCreationStage {
    /// A phrase that names the step, to be put after "when" in an error message.
    pub fn description(&self) -> (r: &'static str)
        ensures
            r@ == match *self {
                UiContextCreationStage::RectRendererCreation => "creating the rect renderer"@,
                UiContextCreationStage::InstancedRectRendererCreation =>
                    "creating the instanced rect renderer"@,
                UiContextCreationStage::FontLoading => "loading the font"@,
                UiContextCreationStage::TextRendererCreation => "creating the text renderer"@,
                UiContextCreationStage::ImageRendererCreation => "creating the image renderer"@,
            },
    {
        match self {
            UiContextCreationStage::RectRendererCreation => "creating the rect renderer",
            UiContextCreationStage::InstancedRectRendererCreation =>
                "creating the instanced rect renderer",
            UiContextCreationStage::FontLoading => "loading the font",
            UiContextCreationStage::TextRendererCreation => "creating the text renderer",
            UiContextCreationStage::ImageRendererCreation => "creating the image renderer",
        }
    }
}

} // verus!
