use vstd::prelude::*;

use crate::context::{fork_spec, UiContext};
use crate::data::{Behavior, DataItem};
use crate::node::{PlaceholderTarget, TextSizing, UiNode};
use crate::style::{
    scale_val_spec, scale_val, AlignItems, Edges, FlexDirection, JustifyContent, LayoutMode,
    NodeStyle, PositionKind, Val,
};

verus! {

// ---------------------------------------------------------------------------
// Shape of the catalog: which variants wrap content and delegate to it.
// ---------------------------------------------------------------------------

/// Whether `node` is a wrapper: a node that holds one content node and
/// delegates every contribution phase to it, layering at most its own
/// increment. The remaining variants are leaves (`Empty`, `Text`,
/// `Placeholder`) and groups whose content materializes as child entities
/// (`Column`, `Row`, `Pair`, `Child`, `Button`).
pub open spec fn is_wrapper(node: UiNode) -> bool {
    match node {
        UiNode::Empty => false,
        UiNode::Text(..) => false,
        UiNode::Placeholder(..) => false,
        UiNode::Column { .. } => false,
        UiNode::Row { .. } => false,
        UiNode::Pair { .. } => false,
        UiNode::Child { .. } => false,
        UiNode::Button { .. } => false,
        _ => true,
    }
}

/// The content a wrapper delegates to. Meaningful only when
/// [`is_wrapper`] holds; other variants map to the empty leaf.
pub open spec fn content_of(node: UiNode) -> UiNode {
    match node {
        UiNode::Sized { content, .. } => *content,
        UiNode::Padded { content, .. } => *content,
        UiNode::Margin { content, .. } => *content,
        UiNode::Border { content, .. } => *content,
        UiNode::Background { content } => *content,
        UiNode::Centered { content } => *content,
        UiNode::Aligned { content, .. } => *content,
        UiNode::Justified { content, .. } => *content,
        UiNode::Absolute { content } => *content,
        UiNode::Positioned { content, .. } => *content,
        UiNode::Grid { content } => *content,
        UiNode::Sizing { content, .. } => *content,
        UiNode::Gapped { content, .. } => *content,
        UiNode::Scale { content, .. } => *content,
        UiNode::Theme { content, .. } => *content,
        UiNode::OnEvent { content, .. } => *content,
        UiNode::Hover { content, .. } => *content,
        UiNode::Image { content, .. } => *content,
        UiNode::Custom { content, .. } => *content,
        UiNode::Checkbox { content, .. } => *content,
        UiNode::Slider { content, .. } => *content,
        UiNode::Thumb { content } => *content,
        UiNode::Animated { content, .. } => *content,
        UiNode::Animator { content, .. } => *content,
        _ => UiNode::Empty,
    }
}

/// The context a wrapper hands its content for the style, data and behavior
/// phases: the forked context at a theming boundary, the incoming context
/// everywhere else.
pub open spec fn delegate_ctx(node: UiNode, ctx: UiContext) -> UiContext {
    match node {
        UiNode::Theme { overrides, .. } => fork_spec(overrides, ctx),
        _ => ctx,
    }
}

// ---------------------------------------------------------------------------
// Animation-controller well-formedness.
// ---------------------------------------------------------------------------

/// Whether every animation target in `node`'s tree has a controller in
/// scope. `data_has` says whether the context the node's own style, data and
/// behavior phases receive names a controller; `child_has` says the same for
/// the context its child subtrees receive (a controller wrapper puts itself
/// in scope for its children only).
pub open spec fn anim_ok(node: UiNode, data_has: bool, child_has: bool) -> bool
    decreases node,
{
    match node {
        UiNode::Animated { content, .. } => data_has && anim_ok(*content, data_has, child_has),
        UiNode::Animator { content, .. } => anim_ok(*content, data_has, true),
        UiNode::Column { elements } => anim_ok_seq(elements@, child_has),
        UiNode::Row { elements } => anim_ok_seq(elements@, child_has),
        UiNode::Pair { first, second } => anim_ok(*first, child_has, child_has) && anim_ok(
            *second,
            child_has,
            child_has,
        ),
        UiNode::Button { content, .. } => anim_ok(*content, child_has, child_has),
        UiNode::Child { content } => anim_ok(*content, child_has, child_has),
        UiNode::Empty => true,
        UiNode::Text(..) => true,
        UiNode::Placeholder(..) => true,
        UiNode::Sized { content, .. } => anim_ok(*content, data_has, child_has),
        UiNode::Padded { content, .. } => anim_ok(*content, data_has, child_has),
        UiNode::Margin { content, .. } => anim_ok(*content, data_has, child_has),
        UiNode::Border { content, .. } => anim_ok(*content, data_has, child_has),
        UiNode::Background { content } => anim_ok(*content, data_has, child_has),
        UiNode::Centered { content } => anim_ok(*content, data_has, child_has),
        UiNode::Aligned { content, .. } => anim_ok(*content, data_has, child_has),
        UiNode::Justified { content, .. } => anim_ok(*content, data_has, child_has),
        UiNode::Absolute { content } => anim_ok(*content, data_has, child_has),
        UiNode::Positioned { content, .. } => anim_ok(*content, data_has, child_has),
        UiNode::Grid { content } => anim_ok(*content, data_has, child_has),
        UiNode::Sizing { content, .. } => anim_ok(*content, data_has, child_has),
        UiNode::Gapped { content, .. } => anim_ok(*content, data_has, child_has),
        UiNode::Scale { content, .. } => anim_ok(*content, data_has, child_has),
        UiNode::Theme { content, .. } => anim_ok(*content, data_has, child_has),
        UiNode::OnEvent { content, .. } => anim_ok(*content, data_has, child_has),
        UiNode::Hover { content, .. } => anim_ok(*content, data_has, child_has),
        UiNode::Image { content, .. } => anim_ok(*content, data_has, child_has),
        UiNode::Custom { content, .. } => anim_ok(*content, data_has, child_has),
        UiNode::Checkbox { content, .. } => anim_ok(*content, data_has, child_has),
        UiNode::Slider { content, .. } => anim_ok(*content, data_has, child_has),
        UiNode::Thumb { content } => anim_ok(*content, data_has, child_has),
    }
}

pub open spec fn anim_ok_seq(elements: Seq<UiNode>, has: bool) -> bool
    decreases elements,
{
    if elements.len() == 0 {
        true
    } else {
        anim_ok(elements[0], has, has) && anim_ok_seq(elements.drop_first(), has)
    }
}

/// The part of [`anim_ok`] the style, data and behavior phases rely on:
/// every animation target on the wrapper spine itself has a controller in
/// scope.
pub open spec fn spine_anim_ok(node: UiNode, data_has: bool) -> bool
    decreases node,
{
    if is_wrapper(node) {
        match node {
            UiNode::Animated { content, .. } => data_has && spine_anim_ok(*content, data_has),
            _ => spine_anim_ok(content_of(node), data_has),
        }
    } else {
        true
    }
}

/// Decides [`anim_ok`], so an unverified caller can test the driver's
/// animation-controller precondition before materializing a tree.
pub fn check_anim_ok(node: &UiNode, data_has: bool, child_has: bool) -> (r: bool)
    ensures
        r == anim_ok(*node, data_has, child_has),
    decreases *node, 0int,
{
    match node {
        UiNode::Animated { content, .. } => data_has && check_anim_ok(
            &**content,
            data_has,
            child_has,
        ),
        UiNode::Animator { content, .. } => check_anim_ok(&**content, data_has, true),
        UiNode::Column { elements } => check_anim_ok_list(elements, child_has),
        UiNode::Row { elements } => check_anim_ok_list(elements, child_has),
        UiNode::Pair { first, second } => check_anim_ok(&**first, child_has, child_has)
            && check_anim_ok(&**second, child_has, child_has),
        UiNode::Child { content } => check_anim_ok(&**content, child_has, child_has),
        UiNode::Button { content, .. } => check_anim_ok(&**content, child_has, child_has),
        UiNode::Empty | UiNode::Text(..) | UiNode::Placeholder(..) => true,
        UiNode::Sized { content, .. }
        | UiNode::Padded { content, .. }
        | UiNode::Margin { content, .. }
        | UiNode::Border { content, .. }
        | UiNode::Background { content }
        | UiNode::Centered { content }
        | UiNode::Aligned { content, .. }
        | UiNode::Justified { content, .. }
        | UiNode::Absolute { content }
        | UiNode::Positioned { content, .. }
        | UiNode::Grid { content }
        | UiNode::Sizing { content, .. }
        | UiNode::Gapped { content, .. }
        | UiNode::Scale { content, .. }
        | UiNode::Theme { content, .. }
        | UiNode::OnEvent { content, .. }
        | UiNode::Hover { content, .. }
        | UiNode::Image { content, .. }
        | UiNode::Custom { content, .. }
        | UiNode::Checkbox { content, .. }
        | UiNode::Slider { content, .. }
        | UiNode::Thumb { content } => check_anim_ok(&**content, data_has, child_has),
    }
}

fn check_anim_ok_list(elements: &Vec<UiNode>, has: bool) -> (r: bool)
    ensures
        r == anim_ok_seq(elements@, has),
    decreases elements@, 1int,
{
    let ghost s = elements@;
    proof {
        assert(s.subrange(0, s.len() as int) =~= s);
    }
    let mut i: usize = 0;
    while i < elements.len()
        invariant
            i <= elements.len(),
            s == elements@,
            anim_ok_seq(s, has) <==> anim_ok_seq(s.subrange(i as int, s.len() as int), has),
        decreases elements.len() - i,
    {
        proof {
            assert(s.subrange(i as int, s.len() as int)[0] == s[i as int]);
            assert(s.subrange(i as int, s.len() as int).drop_first() =~= s.subrange(
                i + 1 as int,
                s.len() as int,
            ));
        }
        if !check_anim_ok(&elements[i], has, has) {
            proof {
                assert(!anim_ok_seq(s.subrange(i as int, s.len() as int), has));
            }
            return false;
        }
        i = i + 1;
    }
    proof {
        assert(s.subrange(s.len() as int, s.len() as int) =~= Seq::<UiNode>::empty());
    }
    true
}

/// A tree whose every phase is in order is in particular in order along its
/// wrapper spine.
pub proof fn lemma_anim_ok_spine(node: UiNode, data_has: bool, child_has: bool)
    requires
        anim_ok(node, data_has, child_has),
    ensures
        spine_anim_ok(node, data_has),
    decreases node,
{
    match node {
        UiNode::Animated { content, .. } => lemma_anim_ok_spine(*content, data_has, child_has),
        UiNode::Animator { content, .. } => lemma_anim_ok_spine(*content, data_has, true),
        UiNode::Sized { content, .. } => lemma_anim_ok_spine(*content, data_has, child_has),
        UiNode::Padded { content, .. } => lemma_anim_ok_spine(*content, data_has, child_has),
        UiNode::Margin { content, .. } => lemma_anim_ok_spine(*content, data_has, child_has),
        UiNode::Border { content, .. } => lemma_anim_ok_spine(*content, data_has, child_has),
        UiNode::Background { content } => lemma_anim_ok_spine(*content, data_has, child_has),
        UiNode::Centered { content } => lemma_anim_ok_spine(*content, data_has, child_has),
        UiNode::Aligned { content, .. } => lemma_anim_ok_spine(*content, data_has, child_has),
        UiNode::Justified { content, .. } => lemma_anim_ok_spine(*content, data_has, child_has),
        UiNode::Absolute { content } => lemma_anim_ok_spine(*content, data_has, child_has),
        UiNode::Positioned { content, .. } => lemma_anim_ok_spine(*content, data_has, child_has),
        UiNode::Grid { content } => lemma_anim_ok_spine(*content, data_has, child_has),
        UiNode::Sizing { content, .. } => lemma_anim_ok_spine(*content, data_has, child_has),
        UiNode::Gapped { content, .. } => lemma_anim_ok_spine(*content, data_has, child_has),
        UiNode::Scale { content, .. } => lemma_anim_ok_spine(*content, data_has, child_has),
        UiNode::Theme { content, .. } => lemma_anim_ok_spine(*content, data_has, child_has),
        UiNode::OnEvent { content, .. } => lemma_anim_ok_spine(*content, data_has, child_has),
        UiNode::Hover { content, .. } => lemma_anim_ok_spine(*content, data_has, child_has),
        UiNode::Image { content, .. } => lemma_anim_ok_spine(*content, data_has, child_has),
        UiNode::Custom { content, .. } => lemma_anim_ok_spine(*content, data_has, child_has),
        UiNode::Checkbox { content, .. } => lemma_anim_ok_spine(*content, data_has, child_has),
        UiNode::Slider { content, .. } => lemma_anim_ok_spine(*content, data_has, child_has),
        UiNode::Thumb { content } => lemma_anim_ok_spine(*content, data_has, child_has),
        _ => {},
    }
}

// ---------------------------------------------------------------------------
// Phase 1: style contribution.
// ---------------------------------------------------------------------------

/// The border widths a border wrapper writes: the context's thickness on
/// each enabled side, zero on the others.
pub open spec fn border_edges_spec(
    ctx: UiContext,
    left: bool,
    right: bool,
    top: bool,
    bottom: bool,
) -> Edges {
    Edges {
        left: if left {
            ctx.border_thickness.left
        } else {
            Val::Px(0)
        },
        right: if right {
            ctx.border_thickness.right
        } else {
            Val::Px(0)
        },
        top: if top {
            ctx.border_thickness.top
        } else {
            Val::Px(0)
        },
        bottom: if bottom {
            ctx.border_thickness.bottom
        } else {
            Val::Px(0)
        },
    }
}

/// The field writes `node` itself applies to an incoming style record `s`.
/// For a wrapper these run after delegation, so they win over the
/// content's writes for the same field.
pub open spec fn own_style(node: UiNode, ctx: UiContext, s: NodeStyle) -> NodeStyle {
    match node {
        UiNode::Column { .. } => NodeStyle { flex_direction: FlexDirection::Column, ..s },
        UiNode::Row { .. } => NodeStyle { flex_direction: FlexDirection::Row, ..s },
        UiNode::Sized { width, height, .. } => NodeStyle { width, height, ..s },
        UiNode::Padded { padding, .. } => NodeStyle { padding, ..s },
        UiNode::Margin { margin, .. } => NodeStyle { margin, ..s },
        UiNode::Border { top, bottom, left, right, .. } => NodeStyle {
            border: border_edges_spec(ctx, left, right, top, bottom),
            ..s
        },
        UiNode::Centered { .. } => NodeStyle {
            justify_content: JustifyContent::Center,
            align_items: AlignItems::Center,
            ..s
        },
        UiNode::Aligned { align, .. } => NodeStyle { align_items: align, ..s },
        UiNode::Justified { justify, .. } => NodeStyle { justify_content: justify, ..s },
        UiNode::Absolute { .. } => NodeStyle { position: PositionKind::Absolute, ..s },
        UiNode::Positioned { left, right, top, bottom, .. } => NodeStyle {
            left,
            right,
            top,
            bottom,
            ..s
        },
        UiNode::Grid { .. } => NodeStyle { display: LayoutMode::Grid, ..s },
        UiNode::Sizing { sizing, .. } => NodeStyle { box_sizing: sizing, ..s },
        UiNode::Gapped { column, row, .. } => NodeStyle { column_gap: column, row_gap: row, ..s },
        UiNode::Scale { scale_x, scale_y, .. } => NodeStyle {
            width: scale_val_spec(s.width, scale_x as int),
            height: scale_val_spec(s.height, scale_y as int),
            ..s
        },
        _ => s,
    }
}

/// What the style record `base` becomes once `node` has contributed to it:
/// a wrapper first lets its content contribute (under the delegated
/// context), then applies its own writes; leaves and groups apply only
/// their own writes.
pub open spec fn style_contribution(node: UiNode, ctx: UiContext, base: NodeStyle) -> NodeStyle
    decreases node,
{
    match node {
        UiNode::Sized { content, .. }
        | UiNode::Padded { content, .. }
        | UiNode::Margin { content, .. }
        | UiNode::Border { content, .. }
        | UiNode::Background { content }
        | UiNode::Centered { content }
        | UiNode::Aligned { content, .. }
        | UiNode::Justified { content, .. }
        | UiNode::Absolute { content }
        | UiNode::Positioned { content, .. }
        | UiNode::Grid { content }
        | UiNode::Sizing { content, .. }
        | UiNode::Gapped { content, .. }
        | UiNode::Scale { content, .. }
        | UiNode::Theme { content, .. }
        | UiNode::OnEvent { content, .. }
        | UiNode::Hover { content, .. }
        | UiNode::Image { content, .. }
        | UiNode::Custom { content, .. }
        | UiNode::Checkbox { content, .. }
        | UiNode::Slider { content, .. }
        | UiNode::Thumb { content }
        | UiNode::Animated { content, .. }
        | UiNode::Animator { content, .. } => own_style(
            node,
            ctx,
            style_contribution(*content, delegate_ctx(node, ctx), base),
        ),
        _ => own_style(node, ctx, base),
    }
}

fn border_edges(ctx: &UiContext, left: bool, right: bool, top: bool, bottom: bool) -> (e: Edges)
    ensures
        e == border_edges_spec(*ctx, left, right, top, bottom),
{
    Edges {
        left: if left {
            ctx.border_thickness.left
        } else {
            Val::Px(0)
        },
        right: if right {
            ctx.border_thickness.right
        } else {
            Val::Px(0)
        },
        top: if top {
            ctx.border_thickness.top
        } else {
            Val::Px(0)
        },
        bottom: if bottom {
            ctx.border_thickness.bottom
        } else {
            Val::Px(0)
        },
    }
}

/// Mutates the style record in place with `node`'s full style contribution:
/// content first, own writes after, so outer writes win.
#[verifier::rlimit(50)]
pub fn contribute_style(node: &UiNode, style: &mut NodeStyle, ctx: &UiContext)
    ensures
        *final(style) == style_contribution(*node, *ctx, *old(style)),
    decreases *node,
{
    match node {
        UiNode::Empty | UiNode::Text(..) | UiNode::Placeholder(..) | UiNode::Pair { .. }
        | UiNode::Child { .. } | UiNode::Button { .. } => {},
        UiNode::Column { .. } => {
            style.flex_direction = FlexDirection::Column;
        },
        UiNode::Row { .. } => {
            style.flex_direction = FlexDirection::Row;
        },
        UiNode::Sized { width, height, content } => {
            contribute_style(&**content, style, ctx);
            style.width = *width;
            style.height = *height;
        },
        UiNode::Padded { padding, content } => {
            contribute_style(&**content, style, ctx);
            style.padding = *padding;
        },
        UiNode::Margin { margin, content } => {
            contribute_style(&**content, style, ctx);
            style.margin = *margin;
        },
        UiNode::Border { top, bottom, left, right, content } => {
            contribute_style(&**content, style, ctx);
            style.border = border_edges(ctx, *left, *right, *top, *bottom);
        },
        UiNode::Centered { content } => {
            contribute_style(&**content, style, ctx);
            style.justify_content = JustifyContent::Center;
            style.align_items = AlignItems::Center;
        },
        UiNode::Aligned { align, content } => {
            contribute_style(&**content, style, ctx);
            style.align_items = *align;
        },
        UiNode::Justified { justify, content } => {
            contribute_style(&**content, style, ctx);
            style.justify_content = *justify;
        },
        UiNode::Absolute { content } => {
            contribute_style(&**content, style, ctx);
            style.position = PositionKind::Absolute;
        },
        UiNode::Positioned { left, right, top, bottom, content } => {
            contribute_style(&**content, style, ctx);
            style.left = *left;
            style.right = *right;
            style.top = *top;
            style.bottom = *bottom;
        },
        UiNode::Grid { content } => {
            contribute_style(&**content, style, ctx);
            style.display = LayoutMode::Grid;
        },
        UiNode::Sizing { sizing, content } => {
            contribute_style(&**content, style, ctx);
            style.box_sizing = *sizing;
        },
        UiNode::Gapped { column, row, content } => {
            contribute_style(&**content, style, ctx);
            style.column_gap = *column;
            style.row_gap = *row;
        },
        UiNode::Scale { scale_x, scale_y, content } => {
            contribute_style(&**content, style, ctx);
            style.width = scale_val(style.width, *scale_x);
            style.height = scale_val(style.height, *scale_y);
        },
        UiNode::Theme { overrides, content, .. } => {
            let forked = overrides.create_context(ctx);
            contribute_style(&**content, style, &forked);
        },
        UiNode::OnEvent { content, .. }
        | UiNode::Hover { content, .. }
        | UiNode::Image { content, .. }
        | UiNode::Custom { content, .. }
        | UiNode::Checkbox { content, .. }
        | UiNode::Slider { content, .. }
        | UiNode::Thumb { content }
        | UiNode::Animated { content, .. }
        | UiNode::Animator { content, .. }
        | UiNode::Background { content } => {
            contribute_style(&**content, style, ctx);
        },
    }
}

// ---------------------------------------------------------------------------
// Phase 2: data contribution.
// ---------------------------------------------------------------------------

/// The font size a text leaf renders at: the context's small size, its big
/// size, or twice the big size saturated to the `u32` range.
pub open spec fn text_size_spec(sizing: TextSizing, ctx: UiContext) -> u32 {
    match sizing {
        TextSizing::Huge => if 2 * (ctx.text_size_big as int) > u32::MAX as int {
            u32::MAX
        } else {
            (2 * ctx.text_size_big) as u32
        },
        TextSizing::Big => ctx.text_size_big,
        TextSizing::Small => ctx.text_size,
    }
}

pub fn text_font_size(sizing: TextSizing, ctx: &UiContext) -> (size: u32)
    ensures
        size == text_size_spec(sizing, *ctx),
{
    match sizing {
        TextSizing::Huge => {
            if ctx.text_size_big > u32::MAX / 2 {
                u32::MAX
            } else {
                2 * ctx.text_size_big
            }
        },
        TextSizing::Big => ctx.text_size_big,
        TextSizing::Small => ctx.text_size,
    }
}

/// The data items `node` itself adds for its entity, in bundle order,
/// before (for a wrapper) the items of its content.
pub open spec fn own_data(node: UiNode, ctx: UiContext) -> Seq<DataItem> {
    match node {
        UiNode::Text(t) => seq![
            DataItem::TextData {
                text: t.text,
                font: ctx.font,
                size: text_size_spec(t.sizing, ctx),
                color: ctx.text_color,
            },
        ],
        UiNode::Placeholder(p) => seq![DataItem::PlaceholderTag(PlaceholderTarget(p.name))],
        UiNode::Sized { width, height, .. } => seq![
            DataItem::ComputedSize {
                original_width: width,
                original_height: height,
                computed_width: width,
                computed_height: height,
            },
        ],
        UiNode::Border { .. } => seq![
            DataItem::BorderRadius(ctx.border_radius),
            DataItem::BorderColor(ctx.border_color),
        ],
        UiNode::Background { .. } => seq![DataItem::BackgroundColor(ctx.background_color)],
        UiNode::Scale { scale_x, scale_y, .. } => seq![
            DataItem::Scaled { scale_x, scale_y, original_x: scale_x, original_y: scale_y },
        ],
        UiNode::Theme { overrides, .. } => seq![DataItem::Themed(fork_spec(overrides, ctx))],
        UiNode::Hover { .. } => seq![DataItem::Hovered(false)],
        UiNode::Image { image, .. } => seq![
            DataItem::ImageNode { image, color: ctx.image_color },
        ],
        UiNode::Custom { material, .. } => seq![DataItem::MaterialNode(material)],
        UiNode::Button { .. } => seq![DataItem::ButtonMarker],
        UiNode::Checkbox { .. } => seq![DataItem::CheckboxMarker],
        UiNode::Slider { min, max, value, .. } => seq![
            DataItem::SliderMarker,
            DataItem::SliderValue(value),
            DataItem::SliderRange { min, max },
        ],
        UiNode::Thumb { .. } => seq![DataItem::SliderThumbMarker],
        UiNode::Animated { name, .. } => seq![
            DataItem::NameTag(name),
            DataItem::AnimationTarget { target: name, player: ctx.current_animator.unwrap() },
        ],
        UiNode::Animator { graph, .. } => seq![
            DataItem::AnimationPlayer,
            DataItem::AnimationGraph(graph),
        ],
        _ => seq![],
    }
}

/// The full set of data items `node` and its wrapped content together want
/// attached to the materialized entity: the node's own items first, then —
/// for a wrapper — everything its content contributes under the delegated
/// context. A pure function of the node and the context.
pub open spec fn data_contribution(node: UiNode, ctx: UiContext) -> Seq<DataItem>
    decreases node,
{
    match node {
        UiNode::Sized { content, .. }
        | UiNode::Padded { content, .. }
        | UiNode::Margin { content, .. }
        | UiNode::Border { content, .. }
        | UiNode::Background { content }
        | UiNode::Centered { content }
        | UiNode::Aligned { content, .. }
        | UiNode::Justified { content, .. }
        | UiNode::Absolute { content }
        | UiNode::Positioned { content, .. }
        | UiNode::Grid { content }
        | UiNode::Sizing { content, .. }
        | UiNode::Gapped { content, .. }
        | UiNode::Scale { content, .. }
        | UiNode::Theme { content, .. }
        | UiNode::OnEvent { content, .. }
        | UiNode::Hover { content, .. }
        | UiNode::Image { content, .. }
        | UiNode::Custom { content, .. }
        | UiNode::Checkbox { content, .. }
        | UiNode::Slider { content, .. }
        | UiNode::Thumb { content }
        | UiNode::Animated { content, .. }
        | UiNode::Animator { content, .. } => own_data(node, ctx) + data_contribution(
            *content,
            delegate_ctx(node, ctx),
        ),
        _ => own_data(node, ctx),
    }
}

/// Appends `node`'s full data contribution to `out`.
pub fn contribute_data(node: &UiNode, ctx: &UiContext, out: &mut Vec<DataItem>)
    requires
        spine_anim_ok(*node, ctx.current_animator is Some),
    ensures
        final(out)@ == old(out)@ + data_contribution(*node, *ctx),
    decreases *node,
{
    match node {
        UiNode::Empty | UiNode::Column { .. } | UiNode::Row { .. } | UiNode::Pair { .. }
        | UiNode::Child { .. } => {},
        UiNode::Text(t) => {
            let size = text_font_size(t.sizing, ctx);
            out.push(
                DataItem::TextData {
                    text: t.text.clone(),
                    font: ctx.font,
                    size,
                    color: ctx.text_color,
                },
            );
        },
        UiNode::Placeholder(p) => {
            out.push(DataItem::PlaceholderTag(PlaceholderTarget(p.name.clone())));
        },
        UiNode::Button { .. } => {
            out.push(DataItem::ButtonMarker);
        },
        UiNode::Sized { width, height, content } => {
            out.push(
                DataItem::ComputedSize {
                    original_width: *width,
                    original_height: *height,
                    computed_width: *width,
                    computed_height: *height,
                },
            );
            contribute_data(&**content, ctx, out);
        },
        UiNode::Border { content, .. } => {
            out.push(DataItem::BorderRadius(ctx.border_radius));
            out.push(DataItem::BorderColor(ctx.border_color));
            contribute_data(&**content, ctx, out);
        },
        UiNode::Background { content } => {
            out.push(DataItem::BackgroundColor(ctx.background_color));
            contribute_data(&**content, ctx, out);
        },
        UiNode::Scale { scale_x, scale_y, content } => {
            out.push(
                DataItem::Scaled {
                    scale_x: *scale_x,
                    scale_y: *scale_y,
                    original_x: *scale_x,
                    original_y: *scale_y,
                },
            );
            contribute_data(&**content, ctx, out);
        },
        UiNode::Theme { overrides, content, .. } => {
            let forked = overrides.create_context(ctx);
            out.push(DataItem::Themed(forked));
            contribute_data(&**content, &forked, out);
        },
        UiNode::Hover { content, .. } => {
            out.push(DataItem::Hovered(false));
            contribute_data(&**content, ctx, out);
        },
        UiNode::Image { image, content } => {
            out.push(DataItem::ImageNode { image: *image, color: ctx.image_color });
            contribute_data(&**content, ctx, out);
        },
        UiNode::Custom { material, content } => {
            out.push(DataItem::MaterialNode(*material));
            contribute_data(&**content, ctx, out);
        },
        UiNode::Checkbox { content, .. } => {
            out.push(DataItem::CheckboxMarker);
            contribute_data(&**content, ctx, out);
        },
        UiNode::Slider { min, max, value, content, .. } => {
            out.push(DataItem::SliderMarker);
            out.push(DataItem::SliderValue(*value));
            out.push(DataItem::SliderRange { min: *min, max: *max });
            contribute_data(&**content, ctx, out);
        },
        UiNode::Thumb { content } => {
            out.push(DataItem::SliderThumbMarker);
            contribute_data(&**content, ctx, out);
        },
        UiNode::Animated { name, content, .. } => {
            let player = match ctx.current_animator {
                Some(p) => p,
                None => 0,
            };
            out.push(DataItem::NameTag(name.clone()));
            out.push(DataItem::AnimationTarget { target: name.clone(), player });
            contribute_data(&**content, ctx, out);
        },
        UiNode::Animator { graph, content } => {
            out.push(DataItem::AnimationPlayer);
            out.push(DataItem::AnimationGraph(*graph));
            contribute_data(&**content, ctx, out);
        },
        UiNode::Padded { content, .. }
        | UiNode::Margin { content, .. }
        | UiNode::Centered { content }
        | UiNode::Aligned { content, .. }
        | UiNode::Justified { content, .. }
        | UiNode::Absolute { content }
        | UiNode::Positioned { content, .. }
        | UiNode::Grid { content }
        | UiNode::Sizing { content, .. }
        | UiNode::Gapped { content, .. }
        | UiNode::OnEvent { content, .. } => {
            contribute_data(&**content, ctx, out);
        },
    }
}

// ---------------------------------------------------------------------------
// Phase 3: behavior contribution.
// ---------------------------------------------------------------------------

/// One `TransitionCurve` item per curve handle, in order.
pub open spec fn curves_of(transitions: Seq<u64>) -> Seq<Behavior>
    decreases transitions,
{
    if transitions.len() == 0 {
        seq![]
    } else {
        curves_of(transitions.drop_last()).push(Behavior::TransitionCurve(transitions.last()))
    }
}

/// The registrations a wrapper makes for itself, after delegating to its
/// content: the content's registrations always come first, so handlers
/// observing one event kind run in a stable inside-out order.
pub open spec fn post_behaviors(node: UiNode, ctx: UiContext) -> Seq<Behavior> {
    match node {
        UiNode::OnEvent { handler, .. } => seq![Behavior::Register { handler }],
        UiNode::Hover { handler, .. } => seq![Behavior::Register { handler }],
        UiNode::Checkbox { handler, .. } => seq![
            Behavior::Register { handler },
            Behavior::CheckboxSelfUpdate,
        ],
        UiNode::Slider { handler, .. } => seq![
            Behavior::Register { handler },
            Behavior::SliderSelfUpdate,
        ],
        UiNode::Animated { name, transitions, .. } => seq![
            Behavior::AnimationClipSetup { name, player: ctx.current_animator.unwrap() },
        ] + curves_of(transitions@),
        UiNode::Animator { .. } => seq![Behavior::GraphInit],
        _ => seq![],
    }
}

/// The registrations (and immediate announcements) a non-delegating node
/// makes for itself.
pub open spec fn own_behaviors(node: UiNode, ctx: UiContext) -> Seq<Behavior> {
    match node {
        UiNode::Placeholder(p) => seq![Behavior::EmitPlaceholderCreated(p.name)],
        UiNode::Button { handler, .. } => seq![
            Behavior::HoverStyle { background: ctx.background_color, hover: ctx.hover_color },
            Behavior::Register { handler },
        ],
        _ => seq![],
    }
}

/// The reactive registrations `node` asks for on its materialized entity,
/// in registration order: everything its content registers under the
/// delegated context first, then the wrapper's own registrations.
pub open spec fn behavior_contribution(node: UiNode, ctx: UiContext) -> Seq<Behavior>
    decreases node,
{
    match node {
        UiNode::Sized { content, .. }
        | UiNode::Padded { content, .. }
        | UiNode::Margin { content, .. }
        | UiNode::Border { content, .. }
        | UiNode::Background { content }
        | UiNode::Centered { content }
        | UiNode::Aligned { content, .. }
        | UiNode::Justified { content, .. }
        | UiNode::Absolute { content }
        | UiNode::Positioned { content, .. }
        | UiNode::Grid { content }
        | UiNode::Sizing { content, .. }
        | UiNode::Gapped { content, .. }
        | UiNode::Scale { content, .. }
        | UiNode::Theme { content, .. }
        | UiNode::OnEvent { content, .. }
        | UiNode::Hover { content, .. }
        | UiNode::Image { content, .. }
        | UiNode::Custom { content, .. }
        | UiNode::Checkbox { content, .. }
        | UiNode::Slider { content, .. }
        | UiNode::Thumb { content }
        | UiNode::Animated { content, .. }
        | UiNode::Animator { content, .. } => behavior_contribution(
            *content,
            delegate_ctx(node, ctx),
        ) + post_behaviors(node, ctx),
        _ => own_behaviors(node, ctx),
    }
}

/// Appends `node`'s full behavior contribution to `out`, in registration
/// order.
pub fn contribute_behaviors(node: &UiNode, ctx: &UiContext, out: &mut Vec<Behavior>)
    requires
        spine_anim_ok(*node, ctx.current_animator is Some),
    ensures
        final(out)@ == old(out)@ + behavior_contribution(*node, *ctx),
    decreases *node,
{
    match node {
        UiNode::Empty | UiNode::Text(..) | UiNode::Column { .. } | UiNode::Row { .. }
        | UiNode::Pair { .. } | UiNode::Child { .. } => {},
        UiNode::Placeholder(p) => {
            out.push(Behavior::EmitPlaceholderCreated(p.name.clone()));
        },
        UiNode::Button { handler, .. } => {
            out.push(
                Behavior::HoverStyle {
                    background: ctx.background_color,
                    hover: ctx.hover_color,
                },
            );
            out.push(Behavior::Register { handler: *handler });
        },
        UiNode::Theme { overrides, content, .. } => {
            let forked = overrides.create_context(ctx);
            contribute_behaviors(&**content, &forked, out);
        },
        UiNode::OnEvent { handler, content } => {
            contribute_behaviors(&**content, ctx, out);
            out.push(Behavior::Register { handler: *handler });
        },
        UiNode::Hover { handler, content } => {
            contribute_behaviors(&**content, ctx, out);
            out.push(Behavior::Register { handler: *handler });
        },
        UiNode::Checkbox { handler, content } => {
            contribute_behaviors(&**content, ctx, out);
            out.push(Behavior::Register { handler: *handler });
            out.push(Behavior::CheckboxSelfUpdate);
        },
        UiNode::Slider { handler, content, .. } => {
            contribute_behaviors(&**content, ctx, out);
            out.push(Behavior::Register { handler: *handler });
            out.push(Behavior::SliderSelfUpdate);
        },
        UiNode::Animated { name, transitions, content } => {
            contribute_behaviors(&**content, ctx, out);
            let player = match ctx.current_animator {
                Some(p) => p,
                None => 0,
            };
            out.push(Behavior::AnimationClipSetup { name: name.clone(), player });
            let ghost mid = out@;
            let mut i: usize = 0;
            while i < transitions.len()
                invariant
                    i <= transitions.len(),
                    out@ == mid + curves_of(transitions@.subrange(0, i as int)),
                decreases transitions.len() - i,
            {
                out.push(Behavior::TransitionCurve(transitions[i]));
                proof {
                    assert(transitions@.subrange(0, i + 1 as int).drop_last() =~= transitions@
                        .subrange(0, i as int));
                }
                i = i + 1;
            }
            proof {
                assert(transitions@.subrange(0, transitions@.len() as int) =~= transitions@);
            }
        },
        UiNode::Animator { content, .. } => {
            contribute_behaviors(&**content, ctx, out);
            out.push(Behavior::GraphInit);
        },
        UiNode::Sized { content, .. }
        | UiNode::Padded { content, .. }
        | UiNode::Margin { content, .. }
        | UiNode::Border { content, .. }
        | UiNode::Background { content }
        | UiNode::Centered { content }
        | UiNode::Aligned { content, .. }
        | UiNode::Justified { content, .. }
        | UiNode::Absolute { content }
        | UiNode::Positioned { content, .. }
        | UiNode::Grid { content }
        | UiNode::Sizing { content, .. }
        | UiNode::Gapped { content, .. }
        | UiNode::Scale { content, .. }
        | UiNode::Image { content, .. }
        | UiNode::Custom { content, .. }
        | UiNode::Thumb { content } => {
            contribute_behaviors(&**content, ctx, out);
        },
    }
}

} // verus!
