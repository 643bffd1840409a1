use vstd::prelude::*;

use crate::context::{AssetId, EntityId, FontId, UiContext};
use crate::node::{HandlerId, PlaceholderTarget};
use crate::style::{Corners, Val};
use crate::Rgba;

verus! {

/// One piece of data a node asks to have attached to its materialized
/// entity. The host stores at most one component per kind on an entity, so
/// when a contribution lists several items of the same kind the last one
/// listed is the one that takes effect.
#[derive(PartialEq, Debug)]
pub enum DataItem {
    /// The fill color behind the node.
    BackgroundColor(Rgba),
    /// The color of the node's border.
    BorderColor(Rgba),
    /// The corner radii of the node's border.
    BorderRadius(Corners),
    /// A rendered string with its font, size and color.
    TextData { text: String, font: FontId, size: u32, color: Rgba },
    /// The size a node asked for, next to the size scaling later computes.
    ComputedSize {
        original_width: Val,
        original_height: Val,
        computed_width: Val,
        computed_height: Val,
    },
    /// A scale factor in hundredths, next to the factor it started from.
    Scaled { scale_x: u32, scale_y: u32, original_x: u32, original_y: u32 },
    /// The context snapshot this entity was materialized under. Attached at
    /// most once per entity.
    Themed(UiContext),
    /// The name-tagged marker of a placeholder entity.
    PlaceholderTag(PlaceholderTarget),
    /// Pointer-over state, initially not hovered.
    Hovered(bool),
    /// An image with the tint it renders under.
    ImageNode { image: AssetId, color: Rgba },
    /// A custom render material.
    MaterialNode(AssetId),
    /// The button interaction role.
    ButtonMarker,
    /// The checkbox interaction role.
    CheckboxMarker,
    /// The slider interaction role.
    SliderMarker,
    /// A slider's current value.
    SliderValue(i64),
    /// A slider's value range.
    SliderRange { min: i64, max: i64 },
    /// Marks a slider's draggable thumb entity.
    SliderThumbMarker,
    /// A human-readable entity name.
    NameTag(String),
    /// Binds the entity as an animation target of a controller entity.
    AnimationTarget { target: String, player: EntityId },
    /// An animation player.
    AnimationPlayer,
    /// A handle to an animation graph asset.
    AnimationGraph(AssetId),
}

/// The kind of a [`DataItem`], with the payload stripped: the host keys
/// component storage by kind, so insert-if-absent tests look only at this.
#[derive(Clone, Copy, PartialEq, Eq, Structural, Debug)]
pub enum DataKind {
    BackgroundColor,
    BorderColor,
    BorderRadius,
    TextData,
    ComputedSize,
    Scaled,
    Themed,
    PlaceholderTag,
    Hovered,
    ImageNode,
    MaterialNode,
    ButtonMarker,
    CheckboxMarker,
    SliderMarker,
    SliderValue,
    SliderRange,
    SliderThumbMarker,
    NameTag,
    AnimationTarget,
    AnimationPlayer,
    AnimationGraph,
}

pub open spec fn data_kind(d: DataItem) -> DataKind {
    match d {
        DataItem::BackgroundColor(..) => DataKind::BackgroundColor,
        DataItem::BorderColor(..) => DataKind::BorderColor,
        DataItem::BorderRadius(..) => DataKind::BorderRadius,
        DataItem::TextData { .. } => DataKind::TextData,
        DataItem::ComputedSize { .. } => DataKind::ComputedSize,
        DataItem::Scaled { .. } => DataKind::Scaled,
        DataItem::Themed(..) => DataKind::Themed,
        DataItem::PlaceholderTag(..) => DataKind::PlaceholderTag,
        DataItem::Hovered(..) => DataKind::Hovered,
        DataItem::ImageNode { .. } => DataKind::ImageNode,
        DataItem::MaterialNode(..) => DataKind::MaterialNode,
        DataItem::ButtonMarker => DataKind::ButtonMarker,
        DataItem::CheckboxMarker => DataKind::CheckboxMarker,
        DataItem::SliderMarker => DataKind::SliderMarker,
        DataItem::SliderValue(..) => DataKind::SliderValue,
        DataItem::SliderRange { .. } => DataKind::SliderRange,
        DataItem::SliderThumbMarker => DataKind::SliderThumbMarker,
        DataItem::NameTag(..) => DataKind::NameTag,
        DataItem::AnimationTarget { .. } => DataKind::AnimationTarget,
        DataItem::AnimationPlayer => DataKind::AnimationPlayer,
        DataItem::AnimationGraph(..) => DataKind::AnimationGraph,
    }
}

pub fn data_kind_of(d: &DataItem) -> (k: DataKind)
    ensures
        k == data_kind(*d),
{
    match d {
        DataItem::BackgroundColor(..) => DataKind::BackgroundColor,
        DataItem::BorderColor(..) => DataKind::BorderColor,
        DataItem::BorderRadius(..) => DataKind::BorderRadius,
        DataItem::TextData { .. } => DataKind::TextData,
        DataItem::ComputedSize { .. } => DataKind::ComputedSize,
        DataItem::Scaled { .. } => DataKind::Scaled,
        DataItem::Themed(..) => DataKind::Themed,
        DataItem::PlaceholderTag(..) => DataKind::PlaceholderTag,
        DataItem::Hovered(..) => DataKind::Hovered,
        DataItem::ImageNode { .. } => DataKind::ImageNode,
        DataItem::MaterialNode(..) => DataKind::MaterialNode,
        DataItem::ButtonMarker => DataKind::ButtonMarker,
        DataItem::CheckboxMarker => DataKind::CheckboxMarker,
        DataItem::SliderMarker => DataKind::SliderMarker,
        DataItem::SliderValue(..) => DataKind::SliderValue,
        DataItem::SliderRange { .. } => DataKind::SliderRange,
        DataItem::SliderThumbMarker => DataKind::SliderThumbMarker,
        DataItem::NameTag(..) => DataKind::NameTag,
        DataItem::AnimationTarget { .. } => DataKind::AnimationTarget,
        DataItem::AnimationPlayer => DataKind::AnimationPlayer,
        DataItem::AnimationGraph(..) => DataKind::AnimationGraph,
    }
}

/// Whether some item of kind `k` occurs among `items`.
pub open spec fn has_kind(items: Seq<DataItem>, k: DataKind) -> bool {
    exists|i: int| 0 <= i < items.len() && data_kind(items[i]) == k
}

/// One reactive registration (or immediate announcement) a node asks for on
/// its materialized entity, in registration order.
#[derive(PartialEq, Debug)]
pub enum Behavior {
    /// Register the callback behind `handler` on the entity.
    Register { handler: HandlerId },
    /// Restyle the entity's background between these two colors as the
    /// pointer enters and leaves it.
    HoverStyle { background: Rgba, hover: Rgba },
    /// Keep the checkbox's checked state in step with value changes.
    CheckboxSelfUpdate,
    /// Keep the slider's value in step with drags and track clicks.
    SliderSelfUpdate,
    /// Announce, at registration time, that a placeholder entity with this
    /// name now exists.
    EmitPlaceholderCreated(String),
    /// After the controller's graph exists, add a clip for this target to
    /// it; the following `TransitionCurve` items list the clip's curves.
    AnimationClipSetup { name: String, player: EntityId },
    /// One curve of the clip announced by the preceding
    /// `AnimationClipSetup`.
    TransitionCurve(AssetId),
    /// After the subtree exists, create the controller's animation graph
    /// and tell every descendant target to add its clips.
    GraphInit,
}

/// One notification fired against an entity during materialization, in
/// firing order.
#[derive(PartialEq, Debug)]
pub enum UiEvent {
    /// The ancestor-propagating notification that `entity` and its whole
    /// subtree now exist.
    Init { entity: EntityId },
    /// The announcement that placeholder `entity` carries `name`.
    PlaceholderCreated { entity: EntityId, name: String },
}

} // verus!
