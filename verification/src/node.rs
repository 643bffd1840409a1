use vstd::prelude::*;

use crate::context::{AssetId, ThemeOverrides};
use crate::style::{AlignItems, BoxSizing, Edges, JustifyContent, Val};

verus! {

/// Handle to a type-erased reactive callback. The host side keeps the table
/// from handler ids to real callbacks; the composition layer only records
/// which handler a node asked to register, and where.
pub type HandlerId = u64;

/// How large a piece of text renders, relative to the context's two text
/// size scalars.
#[derive(Clone, Copy, PartialEq, Eq, Structural, Debug)]
pub enum TextSizing {
    Huge,
    Big,
    Small,
}

/// A text leaf: renders its string in the context's font and text color.
#[derive(Clone, PartialEq, Debug)]
pub struct Text {
    pub text: String,
    pub sizing: TextSizing,
}

/// A placeholder leaf: materializes to an entity carrying a name-tagged
/// marker and announces itself, so an external registry can later attach a
/// subtree declared elsewhere under it.
#[derive(Clone, PartialEq, Debug)]
pub struct Placeholder {
    pub name: String,
}

impl Placeholder {
    pub fn new(name: String) -> (p: Placeholder)
        ensures
            p == (Placeholder { name }),
    {
        Placeholder { name }
    }
}

/// The name-tagged marker a placeholder entity carries.
#[derive(Clone, PartialEq, Debug)]
pub struct PlaceholderTarget(pub String);

/// A materializable node: a description of one entity (plus its subtree),
/// not yet an entity. Wrapper variants hold the content they delegate to;
/// group variants hold the children they spawn; leaf variants hold plain
/// data.
///
/// Every wrapper delegates all four contribution phases (style, data,
/// behavior, children) to its content and layers at most its own increment
/// on top; the style increment is applied after delegating, so an outer
/// wrapper's writes win over an inner one's for the same field.
#[derive(PartialEq, Debug)]
pub enum UiNode {
    /// The empty leaf: an entity with nothing beyond its style record,
    /// used as a layout spacer.
    Empty,
    /// A text leaf.
    Text(Text),
    /// A placeholder leaf for late-bound indirection.
    Placeholder(Placeholder),
    /// A group laying its children out top to bottom.
    Column { elements: Vec<UiNode> },
    /// A group laying its children out left to right.
    Row { elements: Vec<UiNode> },
    /// Two sibling subtrees materialized in sequence under the same parent.
    Pair { first: Box<UiNode>, second: Box<UiNode> },
    /// Boxes a subtree off as a child: the wrapped description materializes
    /// as a separate child entity instead of contributing to this one.
    Child { content: Box<UiNode> },
    /// Forces explicit width and height and records the requested size.
    Sized { width: Val, height: Val, content: Box<UiNode> },
    /// Sets the padding rectangle.
    Padded { padding: Edges, content: Box<UiNode> },
    /// Sets the margin rectangle.
    Margin { margin: Edges, content: Box<UiNode> },
    /// Draws the enabled sides at the context's border thickness, in the
    /// context's border color and radius.
    Border { top: bool, bottom: bool, left: bool, right: bool, content: Box<UiNode> },
    /// Fills the node with the context's background color.
    Background { content: Box<UiNode> },
    /// Centers children on both axes.
    Centered { content: Box<UiNode> },
    /// Sets cross-axis alignment of children.
    Aligned { align: AlignItems, content: Box<UiNode> },
    /// Sets main-axis distribution of children.
    Justified { justify: JustifyContent, content: Box<UiNode> },
    /// Takes the node out of its parent's flow.
    Absolute { content: Box<UiNode> },
    /// Sets the four absolute offsets.
    Positioned { left: Val, right: Val, top: Val, bottom: Val, content: Box<UiNode> },
    /// Lays children out on a grid instead of a flex line.
    Grid { content: Box<UiNode> },
    /// Chooses whether explicit sizes include border and padding.
    Sizing { sizing: BoxSizing, content: Box<UiNode> },
    /// Sets the gaps between children, per axis.
    Gapped { column: Val, row: Val, content: Box<UiNode> },
    /// Multiplies the delegated width and height by a factor given in
    /// hundredths, and records the factor.
    Scale { scale_x: u32, scale_y: u32, content: Box<UiNode> },
    /// A theming boundary: delegates every phase under a forked context and
    /// marks the entity with the fork; children see the fork only when
    /// `propagate` is set.
    Theme { overrides: ThemeOverrides, propagate: bool, content: Box<UiNode> },
    /// Registers one reactive callback on the materialized entity, after the
    /// content's registrations.
    OnEvent { handler: HandlerId, content: Box<UiNode> },
    /// Tracks the pointer and registers a hover callback, after the
    /// content's registrations.
    Hover { handler: HandlerId, content: Box<UiNode> },
    /// Displays an image asset tinted with the context's image color.
    Image { image: AssetId, content: Box<UiNode> },
    /// Renders with a custom material asset.
    Custom { material: AssetId, content: Box<UiNode> },
    /// An interactive button role: its content is spawned as a child
    /// subtree, and it registers a hover restyler and a click callback.
    Button { handler: HandlerId, content: Box<UiNode> },
    /// An interactive checkbox role wrapped around its visual content.
    Checkbox { handler: HandlerId, content: Box<UiNode> },
    /// An interactive slider role over an integer range.
    Slider { handler: HandlerId, min: i64, max: i64, value: i64, content: Box<UiNode> },
    /// Marks the entity as a slider's draggable thumb.
    Thumb { content: Box<UiNode> },
    /// An animation target: names the entity and binds it to the animation
    /// controller currently in scope, then arranges its transition curves to
    /// be added to that controller's graph.
    Animated { name: String, transitions: Vec<AssetId>, content: Box<UiNode> },
    /// An animation controller: carries a player and a graph handle, and
    /// puts itself in scope as the controller for its subtree.
    Animator { graph: AssetId, content: Box<UiNode> },
}

impl UiNode {
    pub fn sized(width: Val, height: Val, content: UiNode) -> (n: UiNode)
        ensures
            n == (UiNode::Sized { width, height, content: Box::new(content) }),
    {
        UiNode::Sized { width, height, content: Box::new(content) }
    }

    /// An explicit size filling the whole parent.
    pub fn sized_expanded(content: UiNode) -> (n: UiNode)
        ensures
            n == (UiNode::Sized {
                width: Val::Percent(100),
                height: Val::Percent(100),
                content: Box::new(content),
            }),
    {
        UiNode::Sized {
            width: Val::Percent(100),
            height: Val::Percent(100),
            content: Box::new(content),
        }
    }

    /// An empty spacer with the given footprint.
    pub fn empty_sized(width: Val, height: Val) -> (n: UiNode)
        ensures
            n == (UiNode::Sized { width, height, content: Box::new(UiNode::Empty) }),
    {
        UiNode::Sized { width, height, content: Box::new(UiNode::Empty) }
    }

    /// An empty spacer that takes whatever size layout gives it.
    pub fn sized_empty() -> (n: UiNode)
        ensures
            n == (UiNode::Sized {
                width: Val::Auto,
                height: Val::Auto,
                content: Box::new(UiNode::Empty),
            }),
    {
        UiNode::Sized { width: Val::Auto, height: Val::Auto, content: Box::new(UiNode::Empty) }
    }

    /// An empty spacer filling the whole parent.
    pub fn sized_expand() -> (n: UiNode)
        ensures
            n == (UiNode::Sized {
                width: Val::Percent(100),
                height: Val::Percent(100),
                content: Box::new(UiNode::Empty),
            }),
    {
        UiNode::Sized {
            width: Val::Percent(100),
            height: Val::Percent(100),
            content: Box::new(UiNode::Empty),
        }
    }

    pub fn padded(padding: Edges, content: UiNode) -> (n: UiNode)
        ensures
            n == (UiNode::Padded { padding, content: Box::new(content) }),
    {
        UiNode::Padded { padding, content: Box::new(content) }
    }

    pub fn margin(margin: Edges, content: UiNode) -> (n: UiNode)
        ensures
            n == (UiNode::Margin { margin, content: Box::new(content) }),
    {
        UiNode::Margin { margin, content: Box::new(content) }
    }

    /// A border on all four sides.
    pub fn border_all(content: UiNode) -> (n: UiNode)
        ensures
            n == (UiNode::Border {
                top: true,
                bottom: true,
                left: true,
                right: true,
                content: Box::new(content),
            }),
    {
        UiNode::Border { top: true, bottom: true, left: true, right: true, content: Box::new(content) }
    }

    /// A border on the top side only.
    pub fn border_top(content: UiNode) -> (n: UiNode)
        ensures
            n == (UiNode::Border {
                top: true,
                bottom: false,
                left: false,
                right: false,
                content: Box::new(content),
            }),
    {
        UiNode::Border {
            top: true,
            bottom: false,
            left: false,
            right: false,
            content: Box::new(content),
        }
    }

    /// A border on the bottom side only.
    pub fn border_bottom(content: UiNode) -> (n: UiNode)
        ensures
            n == (UiNode::Border {
                top: false,
                bottom: true,
                left: false,
                right: false,
                content: Box::new(content),
            }),
    {
        UiNode::Border {
            top: false,
            bottom: true,
            left: false,
            right: false,
            content: Box::new(content),
        }
    }

    /// A border on the left side only.
    pub fn border_left(content: UiNode) -> (n: UiNode)
        ensures
            n == (UiNode::Border {
                top: false,
                bottom: false,
                left: true,
                right: false,
                content: Box::new(content),
            }),
    {
        UiNode::Border {
            top: false,
            bottom: false,
            left: true,
            right: false,
            content: Box::new(content),
        }
    }

    /// A border on the right side only.
    pub fn border_right(content: UiNode) -> (n: UiNode)
        ensures
            n == (UiNode::Border {
                top: false,
                bottom: false,
                left: false,
                right: true,
                content: Box::new(content),
            }),
    {
        UiNode::Border {
            top: false,
            bottom: false,
            left: false,
            right: true,
            content: Box::new(content),
        }
    }

    pub fn background(content: UiNode) -> (n: UiNode)
        ensures
            n == (UiNode::Background { content: Box::new(content) }),
    {
        UiNode::Background { content: Box::new(content) }
    }

    pub fn centered(content: UiNode) -> (n: UiNode)
        ensures
            n == (UiNode::Centered { content: Box::new(content) }),
    {
        UiNode::Centered { content: Box::new(content) }
    }

    pub fn aligned(align: AlignItems, content: UiNode) -> (n: UiNode)
        ensures
            n == (UiNode::Aligned { align, content: Box::new(content) }),
    {
        UiNode::Aligned { align, content: Box::new(content) }
    }

    pub fn justified(justify: JustifyContent, content: UiNode) -> (n: UiNode)
        ensures
            n == (UiNode::Justified { justify, content: Box::new(content) }),
    {
        UiNode::Justified { justify, content: Box::new(content) }
    }

    pub fn absolute(content: UiNode) -> (n: UiNode)
        ensures
            n == (UiNode::Absolute { content: Box::new(content) }),
    {
        UiNode::Absolute { content: Box::new(content) }
    }

    /// The same offset from all four edges.
    pub fn positioned_all(val: Val, content: UiNode) -> (n: UiNode)
        ensures
            n == (UiNode::Positioned {
                left: val,
                right: val,
                top: val,
                bottom: val,
                content: Box::new(content),
            }),
    {
        UiNode::Positioned { left: val, right: val, top: val, bottom: val, content: Box::new(content) }
    }

    /// An offset from the left edge only.
    pub fn positioned_left(val: Val, content: UiNode) -> (n: UiNode)
        ensures
            n == (UiNode::Positioned {
                left: val,
                right: Val::Auto,
                top: Val::Auto,
                bottom: Val::Auto,
                content: Box::new(content),
            }),
    {
        UiNode::Positioned {
            left: val,
            right: Val::Auto,
            top: Val::Auto,
            bottom: Val::Auto,
            content: Box::new(content),
        }
    }

    /// An offset from the right edge only.
    pub fn positioned_right(val: Val, content: UiNode) -> (n: UiNode)
        ensures
            n == (UiNode::Positioned {
                left: Val::Auto,
                right: val,
                top: Val::Auto,
                bottom: Val::Auto,
                content: Box::new(content),
            }),
    {
        UiNode::Positioned {
            left: Val::Auto,
            right: val,
            top: Val::Auto,
            bottom: Val::Auto,
            content: Box::new(content),
        }
    }

    /// An offset from the top edge only.
    pub fn positioned_top(val: Val, content: UiNode) -> (n: UiNode)
        ensures
            n == (UiNode::Positioned {
                left: Val::Auto,
                right: Val::Auto,
                top: val,
                bottom: Val::Auto,
                content: Box::new(content),
            }),
    {
        UiNode::Positioned {
            left: Val::Auto,
            right: Val::Auto,
            top: val,
            bottom: Val::Auto,
            content: Box::new(content),
        }
    }

    /// An offset from the bottom edge only.
    pub fn positioned_bottom(val: Val, content: UiNode) -> (n: UiNode)
        ensures
            n == (UiNode::Positioned {
                left: Val::Auto,
                right: Val::Auto,
                top: Val::Auto,
                bottom: val,
                content: Box::new(content),
            }),
    {
        UiNode::Positioned {
            left: Val::Auto,
            right: Val::Auto,
            top: Val::Auto,
            bottom: val,
            content: Box::new(content),
        }
    }

    pub fn grid(content: UiNode) -> (n: UiNode)
        ensures
            n == (UiNode::Grid { content: Box::new(content) }),
    {
        UiNode::Grid { content: Box::new(content) }
    }

    pub fn box_sizing(sizing: BoxSizing, content: UiNode) -> (n: UiNode)
        ensures
            n == (UiNode::Sizing { sizing, content: Box::new(content) }),
    {
        UiNode::Sizing { sizing, content: Box::new(content) }
    }

    pub fn gapped(column: Val, row: Val, content: UiNode) -> (n: UiNode)
        ensures
            n == (UiNode::Gapped { column, row, content: Box::new(content) }),
    {
        UiNode::Gapped { column, row, content: Box::new(content) }
    }

    /// The same gap on both axes.
    pub fn gapped_all(val: Val, content: UiNode) -> (n: UiNode)
        ensures
            n == (UiNode::Gapped { column: val, row: val, content: Box::new(content) }),
    {
        UiNode::Gapped { column: val, row: val, content: Box::new(content) }
    }

    pub fn scaled(scale_x: u32, scale_y: u32, content: UiNode) -> (n: UiNode)
        ensures
            n == (UiNode::Scale { scale_x, scale_y, content: Box::new(content) }),
    {
        UiNode::Scale { scale_x, scale_y, content: Box::new(content) }
    }

    pub fn theme(overrides: ThemeOverrides, propagate: bool, content: UiNode) -> (n: UiNode)
        ensures
            n == (UiNode::Theme { overrides, propagate, content: Box::new(content) }),
    {
        UiNode::Theme { overrides, propagate, content: Box::new(content) }
    }

    pub fn on_event(handler: HandlerId, content: UiNode) -> (n: UiNode)
        ensures
            n == (UiNode::OnEvent { handler, content: Box::new(content) }),
    {
        UiNode::OnEvent { handler, content: Box::new(content) }
    }

    pub fn hover(handler: HandlerId, content: UiNode) -> (n: UiNode)
        ensures
            n == (UiNode::Hover { handler, content: Box::new(content) }),
    {
        UiNode::Hover { handler, content: Box::new(content) }
    }

    pub fn image(image: AssetId, content: UiNode) -> (n: UiNode)
        ensures
            n == (UiNode::Image { image, content: Box::new(content) }),
    {
        UiNode::Image { image, content: Box::new(content) }
    }

    pub fn custom(material: AssetId, content: UiNode) -> (n: UiNode)
        ensures
            n == (UiNode::Custom { material, content: Box::new(content) }),
    {
        UiNode::Custom { material, content: Box::new(content) }
    }

    pub fn button(handler: HandlerId, content: UiNode) -> (n: UiNode)
        ensures
            n == (UiNode::Button { handler, content: Box::new(content) }),
    {
        UiNode::Button { handler, content: Box::new(content) }
    }

    pub fn checkbox(handler: HandlerId, content: UiNode) -> (n: UiNode)
        ensures
            n == (UiNode::Checkbox { handler, content: Box::new(content) }),
    {
        UiNode::Checkbox { handler, content: Box::new(content) }
    }

    pub fn slider(handler: HandlerId, min: i64, max: i64, value: i64, content: UiNode) -> (n:
        UiNode)
        ensures
            n == (UiNode::Slider { handler, min, max, value, content: Box::new(content) }),
    {
        UiNode::Slider { handler, min, max, value, content: Box::new(content) }
    }

    pub fn thumb(content: UiNode) -> (n: UiNode)
        ensures
            n == (UiNode::Thumb { content: Box::new(content) }),
    {
        UiNode::Thumb { content: Box::new(content) }
    }

    pub fn animated(name: String, transitions: Vec<AssetId>, content: UiNode) -> (n: UiNode)
        ensures
            n == (UiNode::Animated { name, transitions, content: Box::new(content) }),
    {
        UiNode::Animated { name, transitions, content: Box::new(content) }
    }

    pub fn animator(graph: AssetId, content: UiNode) -> (n: UiNode)
        ensures
            n == (UiNode::Animator { graph, content: Box::new(content) }),
    {
        UiNode::Animator { graph, content: Box::new(content) }
    }

    pub fn column(elements: Vec<UiNode>) -> (n: UiNode)
        ensures
            n == (UiNode::Column { elements }),
    {
        UiNode::Column { elements }
    }

    pub fn row(elements: Vec<UiNode>) -> (n: UiNode)
        ensures
            n == (UiNode::Row { elements }),
    {
        UiNode::Row { elements }
    }

    pub fn pair(first: UiNode, second: UiNode) -> (n: UiNode)
        ensures
            n == (UiNode::Pair { first: Box::new(first), second: Box::new(second) }),
    {
        UiNode::Pair { first: Box::new(first), second: Box::new(second) }
    }

    pub fn child(content: UiNode) -> (n: UiNode)
        ensures
            n == (UiNode::Child { content: Box::new(content) }),
    {
        UiNode::Child { content: Box::new(content) }
    }

    pub fn text(text: String, sizing: TextSizing) -> (n: UiNode)
        ensures
            n == UiNode::Text(Text { text, sizing }),
    {
        UiNode::Text(Text { text, sizing })
    }

    pub fn placeholder(name: String) -> (n: UiNode)
        ensures
            n == UiNode::Placeholder(Placeholder { name }),
    {
        UiNode::Placeholder(Placeholder { name })
    }
}

} // verus!
