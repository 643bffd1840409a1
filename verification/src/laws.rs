use vstd::prelude::*;

use crate::context::{fork_spec, pick, ThemeOverrides, UiContext};
use crate::data::{data_kind, Behavior, DataItem, DataKind, UiEvent};
use crate::materialize::{
    children_count, children_events, entity_count, events_spec, mat_spec, seq_count, seq_events,
    with_themed,
};
use crate::node::UiNode;
use crate::protocol::{
    behavior_contribution, border_edges_spec, content_of, data_contribution, delegate_ctx,
    is_wrapper, own_data, post_behaviors, style_contribution,
};
use crate::style::{
    field_of, AlignItems, FieldValue, JustifyContent, LayoutMode, NodeStyle, PositionKind,
    StyleField,
};

verus! {

// ---------------------------------------------------------------------------
// The delegation law: wrapping never drops the content's contribution.
// ---------------------------------------------------------------------------

/// The style properties `node` itself writes.
pub open spec fn writes_field(node: UiNode, f: StyleField) -> bool {
    match node {
        UiNode::Column { .. } => f == StyleField::Direction,
        UiNode::Row { .. } => f == StyleField::Direction,
        UiNode::Sized { .. } => f == StyleField::Width || f == StyleField::Height,
        UiNode::Padded { .. } => f == StyleField::Padding,
        UiNode::Margin { .. } => f == StyleField::Margin,
        UiNode::Border { .. } => f == StyleField::Border,
        UiNode::Centered { .. } => f == StyleField::Justify || f == StyleField::Align,
        UiNode::Aligned { .. } => f == StyleField::Align,
        UiNode::Justified { .. } => f == StyleField::Justify,
        UiNode::Absolute { .. } => f == StyleField::Position,
        UiNode::Positioned { .. } => f == StyleField::Left || f == StyleField::Right || f
            == StyleField::Top || f == StyleField::Bottom,
        UiNode::Grid { .. } => f == StyleField::Display,
        UiNode::Sizing { .. } => f == StyleField::Sizing,
        UiNode::Gapped { .. } => f == StyleField::ColumnGap || f == StyleField::RowGap,
        UiNode::Scale { .. } => f == StyleField::Width || f == StyleField::Height,
        _ => false,
    }
}

/// Delegation law, style phase: every style property a wrapper does not
/// itself write comes through from its content unchanged, whatever the
/// content is.
pub proof fn lemma_style_delegation(node: UiNode, ctx: UiContext, base: NodeStyle, f: StyleField)
    requires
        is_wrapper(node),
        !writes_field(node, f),
    ensures
        field_of(style_contribution(node, ctx, base), f) == field_of(
            style_contribution(content_of(node), delegate_ctx(node, ctx), base),
            f,
        ),
{
}

/// Delegation law, data phase: a wrapper's data contribution is exactly its
/// own items followed by everything its content contributes under the
/// delegated context — the content's items are never dropped or reordered.
pub proof fn lemma_data_delegation(node: UiNode, ctx: UiContext)
    requires
        is_wrapper(node),
    ensures
        data_contribution(node, ctx) == own_data(node, ctx) + data_contribution(
            content_of(node),
            delegate_ctx(node, ctx),
        ),
        data_contribution(node, ctx).subrange(
            own_data(node, ctx).len() as int,
            data_contribution(node, ctx).len() as int,
        ) == data_contribution(content_of(node), delegate_ctx(node, ctx)),
{
    let own = own_data(node, ctx);
    let inner = data_contribution(content_of(node), delegate_ctx(node, ctx));
    assert((own + inner).subrange(own.len() as int, (own + inner).len() as int) =~= inner);
}

/// Delegation law, behavior phase: a wrapper registers everything its
/// content registers under the delegated context first, in the content's
/// own order, and its own registrations after.
pub proof fn lemma_behavior_delegation(node: UiNode, ctx: UiContext)
    requires
        is_wrapper(node),
    ensures
        behavior_contribution(node, ctx) == behavior_contribution(
            content_of(node),
            delegate_ctx(node, ctx),
        ) + post_behaviors(node, ctx),
{
}

/// Delegation law, children phase: a wrapper spawns exactly the child
/// subtrees its content spawns — the same entities, the same notifications,
/// the same number of ids — under the context the node hands down.
pub proof fn lemma_children_delegation(node: UiNode, ctx: UiContext, self_id: int, next: int)
    requires
        is_wrapper(node),
    ensures
        crate::materialize::children_mat(node, ctx, self_id, next)
            == crate::materialize::children_mat(
            content_of(node),
            crate::materialize::child_ctx_step(node, ctx, self_id),
            self_id,
            next,
        ),
        crate::materialize::children_events(node, ctx, self_id, next)
            == crate::materialize::children_events(
            content_of(node),
            crate::materialize::child_ctx_step(node, ctx, self_id),
            self_id,
            next,
        ),
        crate::materialize::children_count(node) == crate::materialize::children_count(
            content_of(node),
        ),
{
}

// ---------------------------------------------------------------------------
// Outer-wins ordering for style writes.
// ---------------------------------------------------------------------------

/// The fixed value `node` writes for style property `f`, where that value
/// does not depend on what its content wrote: `None` for properties the
/// node does not write, and for the scaling wrapper, whose write multiplies
/// the delegated value instead of replacing it.
pub open spec fn sets_value(node: UiNode, ctx: UiContext, f: StyleField) -> Option<FieldValue> {
    match node {
        UiNode::Column { .. } => if f == StyleField::Direction {
            Some(FieldValue::Direction(crate::style::FlexDirection::Column))
        } else {
            None
        },
        UiNode::Row { .. } => if f == StyleField::Direction {
            Some(FieldValue::Direction(crate::style::FlexDirection::Row))
        } else {
            None
        },
        UiNode::Sized { width, height, .. } => if f == StyleField::Width {
            Some(FieldValue::Length(width))
        } else if f == StyleField::Height {
            Some(FieldValue::Length(height))
        } else {
            None
        },
        UiNode::Padded { padding, .. } => if f == StyleField::Padding {
            Some(FieldValue::Rect(padding))
        } else {
            None
        },
        UiNode::Margin { margin, .. } => if f == StyleField::Margin {
            Some(FieldValue::Rect(margin))
        } else {
            None
        },
        UiNode::Border { top, bottom, left, right, .. } => if f == StyleField::Border {
            Some(FieldValue::Rect(border_edges_spec(ctx, left, right, top, bottom)))
        } else {
            None
        },
        UiNode::Centered { .. } => if f == StyleField::Justify {
            Some(FieldValue::Justify(JustifyContent::Center))
        } else if f == StyleField::Align {
            Some(FieldValue::Align(AlignItems::Center))
        } else {
            None
        },
        UiNode::Aligned { align, .. } => if f == StyleField::Align {
            Some(FieldValue::Align(align))
        } else {
            None
        },
        UiNode::Justified { justify, .. } => if f == StyleField::Justify {
            Some(FieldValue::Justify(justify))
        } else {
            None
        },
        UiNode::Absolute { .. } => if f == StyleField::Position {
            Some(FieldValue::Position(PositionKind::Absolute))
        } else {
            None
        },
        UiNode::Positioned { left, right, top, bottom, .. } => if f == StyleField::Left {
            Some(FieldValue::Length(left))
        } else if f == StyleField::Right {
            Some(FieldValue::Length(right))
        } else if f == StyleField::Top {
            Some(FieldValue::Length(top))
        } else if f == StyleField::Bottom {
            Some(FieldValue::Length(bottom))
        } else {
            None
        },
        UiNode::Grid { .. } => if f == StyleField::Display {
            Some(FieldValue::Mode(LayoutMode::Grid))
        } else {
            None
        },
        UiNode::Sizing { sizing, .. } => if f == StyleField::Sizing {
            Some(FieldValue::Sizing(sizing))
        } else {
            None
        },
        UiNode::Gapped { column, row, .. } => if f == StyleField::ColumnGap {
            Some(FieldValue::Length(column))
        } else if f == StyleField::RowGap {
            Some(FieldValue::Length(row))
        } else {
            None
        },
        _ => None,
    }
}

/// Outer-wins ordering: for every style property a node writes a fixed
/// value for, the materialized record carries that value — whatever the
/// wrapped content wrote for the same property, and whatever record the
/// contribution started from. In particular, for two nested wrappers
/// setting the same property, the outer one's setting is the effective
/// one.
pub proof fn lemma_outer_wins(node: UiNode, ctx: UiContext, base: NodeStyle, f: StyleField)
    requires
        sets_value(node, ctx, f) is Some,
    ensures
        field_of(style_contribution(node, ctx, base), f) == sets_value(node, ctx, f).unwrap(),
{
}

// ---------------------------------------------------------------------------
// Context fork isolation.
// ---------------------------------------------------------------------------

/// Context fork isolation: a fork is a fresh value — each of its fields is
/// the override where one is set and the parent's value where none is, the
/// transient animation-controller field always comes from the parent, and
/// overriding nothing copies the parent exactly. Two sibling forks of the
/// same parent are therefore independent: each is a function of the parent
/// and its own overrides alone, and writing to one (or to the parent)
/// never changes the other.
pub proof fn lemma_fork_isolation(parent: UiContext, a: ThemeOverrides, b: ThemeOverrides)
    ensures
        fork_spec(ThemeOverrides::none_spec(), parent) == parent,
        fork_spec(a, parent).font == pick(a.font, parent.font),
        fork_spec(a, parent).text_size == pick(a.text_size, parent.text_size),
        fork_spec(a, parent).text_size_big == pick(a.text_size_big, parent.text_size_big),
        fork_spec(a, parent).background_color == pick(
            a.background_color,
            parent.background_color,
        ),
        fork_spec(a, parent).foreground_color == pick(
            a.foreground_color,
            parent.foreground_color,
        ),
        fork_spec(a, parent).hover_color == pick(a.hover_color, parent.hover_color),
        fork_spec(a, parent).text_color == pick(a.text_color, parent.text_color),
        fork_spec(a, parent).border_thickness == pick(
            a.border_thickness,
            parent.border_thickness,
        ),
        fork_spec(a, parent).border_color == pick(a.border_color, parent.border_color),
        fork_spec(a, parent).border_radius == pick(a.border_radius, parent.border_radius),
        fork_spec(a, parent).highlight_color == pick(a.highlight_color, parent.highlight_color),
        fork_spec(a, parent).image_color == pick(a.image_color, parent.image_color),
        fork_spec(a, parent).current_animator == parent.current_animator,
        a.background_color is None && b.background_color is None ==> fork_spec(
            a,
            parent,
        ).background_color == fork_spec(b, parent).background_color,
{
}

// ---------------------------------------------------------------------------
// The themed marker: attached once, innermost fork wins.
// ---------------------------------------------------------------------------

/// The context snapshot the entity's themed marker records: the payload of
/// the last themed item among `data`, since the host keeps the last item
/// of a kind it is handed.
pub open spec fn themed_of(data: Seq<DataItem>) -> Option<UiContext>
    decreases data,
{
    if data.len() == 0 {
        None
    } else {
        match data.last() {
            DataItem::Themed(c) => Some(c),
            _ => themed_of(data.drop_last()),
        }
    }
}

/// Whether the wrapper spine of `node` holds a theming boundary.
pub open spec fn spine_has_theme(node: UiNode) -> bool
    decreases node,
{
    if is_wrapper(node) {
        match node {
            UiNode::Theme { .. } => true,
            _ => spine_has_theme(content_of(node)),
        }
    } else {
        false
    }
}

/// The innermost theme fork that applies to the entity `node` materializes
/// under `ctx`: the context itself where the spine holds no theming
/// boundary, else the innermost boundary's fork of everything forked
/// outside it.
pub open spec fn innermost_theme(node: UiNode, ctx: UiContext) -> UiContext
    decreases node,
{
    match node {
        UiNode::Sized { content, .. }
        | UiNode::Padded { content, .. }
        | UiNode::Margin { content, .. }
        | UiNode::Border { content, .. }
        | UiNode::Background { content }
        | UiNode::Centered { content }
        | UiNode::Aligned { content, .. }
        | UiNode::Justified { content, .. }
        | UiNode::Absolute { content }
        | UiNode::Positioned { content, .. }
        | UiNode::Grid { content }
        | UiNode::Sizing { content, .. }
        | UiNode::Gapped { content, .. }
        | UiNode::Scale { content, .. }
        | UiNode::Theme { content, .. }
        | UiNode::OnEvent { content, .. }
        | UiNode::Hover { content, .. }
        | UiNode::Image { content, .. }
        | UiNode::Custom { content, .. }
        | UiNode::Checkbox { content, .. }
        | UiNode::Slider { content, .. }
        | UiNode::Thumb { content }
        | UiNode::Animated { content, .. }
        | UiNode::Animator { content, .. } => innermost_theme(*content, delegate_ctx(node, ctx)),
        _ => ctx,
    }
}

/// The effective themed marker of a concatenation: the later part's marker
/// where it has one, else the earlier part's.
proof fn lemma_themed_concat(a: Seq<DataItem>, b: Seq<DataItem>)
    ensures
        themed_of(a + b) == if themed_of(b) is Some {
            themed_of(b)
        } else {
            themed_of(a)
        },
    decreases b.len(),
{
    if b.len() == 0 {
        assert(a + b =~= a);
    } else {
        lemma_themed_concat(a, b.drop_last());
        assert((a + b).drop_last() =~= a + b.drop_last());
        assert((a + b).last() == b.last());
    }
}

/// A themed item occurs among `data` exactly when the effective marker
/// exists.
proof fn lemma_themed_has_kind(data: Seq<DataItem>)
    ensures
        crate::data::has_kind(data, DataKind::Themed) <==> themed_of(data) is Some,
    decreases data.len(),
{
    if data.len() > 0 {
        lemma_themed_has_kind(data.drop_last());
        if crate::data::has_kind(data.drop_last(), DataKind::Themed) {
            let i = choose|i: int|
                0 <= i < data.drop_last().len() && data_kind(data.drop_last()[i])
                    == DataKind::Themed;
            assert(data_kind(data[i]) == DataKind::Themed);
        }
        if themed_of(data) is Some {
            if data.last() is Themed {
                assert(data_kind(data[data.len() - 1]) == DataKind::Themed);
            }
        } else {
            assert(forall|i: int|
                0 <= i < data.len() - 1 ==> data.drop_last()[i] == data[i]);
        }
    }
}

proof fn lemma_themed_of_1(a: DataItem)
    requires
        !(a is Themed),
    ensures
        themed_of(seq![a]) is None,
{
    reveal_with_fuel(themed_of, 2);
    assert(seq![a].last() == a);
    assert(seq![a].drop_last() =~= Seq::<DataItem>::empty());
}

proof fn lemma_themed_of_2(a: DataItem, b: DataItem)
    requires
        !(a is Themed),
        !(b is Themed),
    ensures
        themed_of(seq![a, b]) is None,
{
    assert(seq![a, b].last() == b);
    assert(seq![a, b].drop_last() =~= seq![a]);
    lemma_themed_of_1(a);
}

proof fn lemma_themed_of_3(a: DataItem, b: DataItem, c: DataItem)
    requires
        !(a is Themed),
        !(b is Themed),
        !(c is Themed),
    ensures
        themed_of(seq![a, b, c]) is None,
{
    assert(seq![a, b, c].last() == c);
    assert(seq![a, b, c].drop_last() =~= seq![a, b]);
    lemma_themed_of_2(a, b);
}

/// No node but a theming boundary contributes a themed marker of its own.
proof fn lemma_own_no_theme(node: UiNode, ctx: UiContext)
    requires
        !(node is Theme),
    ensures
        themed_of(own_data(node, ctx)) is None,
{
    let own = own_data(node, ctx);
    match node {
        UiNode::Text(..) | UiNode::Placeholder(..) | UiNode::Sized { .. }
        | UiNode::Background { .. } | UiNode::Scale { .. } | UiNode::Hover { .. }
        | UiNode::Image { .. } | UiNode::Custom { .. } | UiNode::Button { .. }
        | UiNode::Checkbox { .. } | UiNode::Thumb { .. } => {
            lemma_themed_of_1(own[0]);
            assert(own =~= seq![own[0]]);
        },
        UiNode::Border { .. } | UiNode::Animated { .. } | UiNode::Animator { .. } => {
            lemma_themed_of_2(own[0], own[1]);
            assert(own =~= seq![own[0], own[1]]);
        },
        UiNode::Slider { .. } => {
            lemma_themed_of_3(own[0], own[1], own[2]);
            assert(own =~= seq![own[0], own[1], own[2]]);
        },
        _ => {},
    }
}

/// The effective marker carried by a node's own data contribution: the
/// innermost theme fork where the spine holds a theming boundary, and
/// nothing otherwise.
proof fn lemma_themed_data(node: UiNode, ctx: UiContext)
    ensures
        themed_of(data_contribution(node, ctx)) == if spine_has_theme(node) {
            Some(innermost_theme(node, ctx))
        } else {
            None::<UiContext>
        },
    decreases node,
{
    if is_wrapper(node) {
        let own = own_data(node, ctx);
        let rest = data_contribution(content_of(node), delegate_ctx(node, ctx));
        lemma_themed_data(content_of(node), delegate_ctx(node, ctx));
        lemma_themed_concat(own, rest);
        assert(data_contribution(node, ctx) == own + rest);
        match node {
            UiNode::Theme { overrides, .. } => {
                let forked = fork_spec(overrides, ctx);
                assert(own.last() == DataItem::Themed(forked));
                assert(themed_of(own) == Some(forked));
                if !spine_has_theme(content_of(node)) {
                    lemma_innermost_no_theme(content_of(node), forked);
                }
            },
            _ => {
                lemma_own_no_theme(node, ctx);
            },
        }
    } else {
        lemma_own_no_theme(node, ctx);
        assert(data_contribution(node, ctx) == own_data(node, ctx));
    }
}

/// Idempotent themed-marker attach: however many theming boundaries a
/// node nests, the materialized entity carries an effective themed marker,
/// exactly one per the host's one-component-per-kind storage, and it
/// records the innermost applicable theme fork — the driver's own snapshot
/// only when no boundary contributed one.
pub proof fn lemma_themed_once(node: UiNode, ctx: UiContext, id: int)
    ensures
        themed_of(mat_spec(node, ctx, id).data) == Some(innermost_theme(node, ctx)),
{
    lemma_themed_data(node, ctx);
    lemma_themed_has_kind(data_contribution(node, ctx));
    if !crate::data::has_kind(data_contribution(node, ctx), DataKind::Themed) {
        assert(with_themed(data_contribution(node, ctx), ctx).last() == DataItem::Themed(ctx));
        assert(!spine_has_theme(node));
        lemma_innermost_no_theme(node, ctx);
    }
}

/// Without a theming boundary on the spine, the innermost applicable fork
/// is the context itself.
proof fn lemma_innermost_no_theme(node: UiNode, ctx: UiContext)
    requires
        !spine_has_theme(node),
    ensures
        innermost_theme(node, ctx) == ctx,
    decreases node,
{
    if is_wrapper(node) {
        lemma_innermost_no_theme(content_of(node), delegate_ctx(node, ctx));
    }
}

/// Whether every entity of a materialized tree carries an effective themed
/// marker.
pub open spec fn themed_ok_tree(e: crate::materialize::EntitySpec) -> bool
    decreases e, 1int,
{
    themed_of(e.data) is Some && themed_ok_children(e.children)
}

pub open spec fn themed_ok_children(s: Seq<crate::materialize::EntitySpec>) -> bool
    decreases s, 0int,
{
    if s.len() == 0 {
        true
    } else {
        themed_ok_tree(s.last()) && themed_ok_children(s.drop_last())
    }
}

proof fn lemma_seq_themed(s: Seq<UiNode>, ctx: UiContext, next: int)
    ensures
        themed_ok_children(crate::materialize::seq_mat(s, ctx, next)),
    decreases s, 0int,
{
    if s.len() > 0 {
        lemma_seq_themed(s.drop_last(), ctx, next);
        lemma_all_entities_themed(s.last(), ctx, next + seq_count(s.drop_last()));
        let whole = crate::materialize::seq_mat(s, ctx, next);
        assert(whole.drop_last() =~= crate::materialize::seq_mat(s.drop_last(), ctx, next));
    }
}

proof fn lemma_children_themed(node: UiNode, ctx: UiContext, self_id: int, next: int)
    ensures
        themed_ok_children(crate::materialize::children_mat(node, ctx, self_id, next)),
    decreases node, 1int,
{
    match node {
        UiNode::Sized { content, .. }
        | UiNode::Padded { content, .. }
        | UiNode::Margin { content, .. }
        | UiNode::Border { content, .. }
        | UiNode::Background { content }
        | UiNode::Centered { content }
        | UiNode::Aligned { content, .. }
        | UiNode::Justified { content, .. }
        | UiNode::Absolute { content }
        | UiNode::Positioned { content, .. }
        | UiNode::Grid { content }
        | UiNode::Sizing { content, .. }
        | UiNode::Gapped { content, .. }
        | UiNode::Scale { content, .. }
        | UiNode::Theme { content, .. }
        | UiNode::OnEvent { content, .. }
        | UiNode::Hover { content, .. }
        | UiNode::Image { content, .. }
        | UiNode::Custom { content, .. }
        | UiNode::Checkbox { content, .. }
        | UiNode::Slider { content, .. }
        | UiNode::Thumb { content }
        | UiNode::Animated { content, .. }
        | UiNode::Animator { content, .. } => {
            lemma_children_themed(
                *content,
                crate::materialize::child_ctx_step(node, ctx, self_id),
                self_id,
                next,
            );
        },
        UiNode::Column { elements } => {
            lemma_seq_themed(elements@, ctx, next);
        },
        UiNode::Row { elements } => {
            lemma_seq_themed(elements@, ctx, next);
        },
        UiNode::Pair { first, second } => {
            lemma_all_entities_themed(*first, ctx, next);
            lemma_all_entities_themed(*second, ctx, next + entity_count(*first));
            let both = crate::materialize::children_mat(node, ctx, self_id, next);
            assert(both.last() == mat_spec(*second, ctx, next + entity_count(*first)));
            assert(both.drop_last() =~= seq![mat_spec(*first, ctx, next)]);
            assert(seq![mat_spec(*first, ctx, next)].last() == mat_spec(*first, ctx, next));
            assert(seq![mat_spec(*first, ctx, next)].drop_last() =~= Seq::<
                crate::materialize::EntitySpec,
            >::empty());
            assert(themed_ok_children(Seq::<crate::materialize::EntitySpec>::empty()));
            assert(themed_ok_children(seq![mat_spec(*first, ctx, next)]));
        },
        UiNode::Child { content } => {
            lemma_all_entities_themed(*content, ctx, next);
            let one = crate::materialize::children_mat(node, ctx, self_id, next);
            assert(one.last() == mat_spec(*content, ctx, next));
            assert(one.drop_last() =~= Seq::<crate::materialize::EntitySpec>::empty());
            assert(themed_ok_children(Seq::<crate::materialize::EntitySpec>::empty()));
        },
        UiNode::Button { content, .. } => {
            lemma_all_entities_themed(*content, ctx, next);
            let one = crate::materialize::children_mat(node, ctx, self_id, next);
            assert(one.last() == mat_spec(*content, ctx, next));
            assert(one.drop_last() =~= Seq::<crate::materialize::EntitySpec>::empty());
            assert(themed_ok_children(Seq::<crate::materialize::EntitySpec>::empty()));
        },
        _ => {
            assert(crate::materialize::children_mat(node, ctx, self_id, next) =~= Seq::<
                crate::materialize::EntitySpec,
            >::empty());
        },
    }
}

/// The themed marker, over the whole subtree: every entity a
/// materialization produces — the root and each descendant — carries an
/// effective themed marker.
pub proof fn lemma_all_entities_themed(node: UiNode, ctx: UiContext, id: int)
    ensures
        themed_ok_tree(mat_spec(node, ctx, id)),
    decreases node, 2int,
{
    lemma_themed_once(node, ctx, id);
    lemma_children_themed(node, ctx, id, id + 1);
}

// ---------------------------------------------------------------------------
// Placeholder indirection.
// ---------------------------------------------------------------------------

/// A placeholder node materializes to exactly one entity: it carries the
/// name-tagged marker and the driver's themed marker, spawns no children,
/// and fires exactly one placeholder-created notification — carrying its
/// name — before its own initialized notification.
pub proof fn lemma_placeholder_indirection(p: crate::node::Placeholder, ctx: UiContext, id: int)
    ensures
        mat_spec(UiNode::Placeholder(p), ctx, id).children == Seq::<
            crate::materialize::EntitySpec,
        >::empty(),
        mat_spec(UiNode::Placeholder(p), ctx, id).data == seq![
            DataItem::PlaceholderTag(crate::node::PlaceholderTarget(p.name)),
            DataItem::Themed(ctx),
        ],
        entity_count(UiNode::Placeholder(p)) == 1,
        events_spec(UiNode::Placeholder(p), ctx, id) == seq![
            UiEvent::PlaceholderCreated { entity: id as u64, name: p.name },
            UiEvent::Init { entity: id as u64 },
        ],
{
    let node = UiNode::Placeholder(p);
    let data = data_contribution(node, ctx);
    assert(data =~= seq![DataItem::PlaceholderTag(crate::node::PlaceholderTarget(p.name))]);
    assert(!crate::data::has_kind(data, DataKind::Themed)) by {
        assert(forall|i: int|
            0 <= i < data.len() ==> data_kind(#[trigger] data[i]) != DataKind::Themed);
    }
    assert(mat_spec(node, ctx, id).data =~= seq![
        DataItem::PlaceholderTag(crate::node::PlaceholderTarget(p.name)),
        DataItem::Themed(ctx),
    ]);
    let behaviors = behavior_contribution(node, ctx);
    assert(behaviors =~= seq![crate::data::Behavior::EmitPlaceholderCreated(p.name)]);
    let emits = crate::materialize::emits_of(behaviors, id);
    assert(emits =~= seq![UiEvent::PlaceholderCreated { entity: id as u64, name: p.name }]) by {
        reveal_with_fuel(crate::materialize::emits_of, 2);
        assert(behaviors.drop_last() =~= Seq::<crate::data::Behavior>::empty());
    }
    assert(events_spec(node, ctx, id) =~= seq![
        UiEvent::PlaceholderCreated { entity: id as u64, name: p.name },
        UiEvent::Init { entity: id as u64 },
    ]);
}

// ---------------------------------------------------------------------------
// Post-children init ordering.
// ---------------------------------------------------------------------------

proof fn lemma_contains_concat<T>(a: Seq<T>, b: Seq<T>, x: T)
    requires
        a.contains(x) || b.contains(x),
    ensures
        (a + b).contains(x),
{
    if a.contains(x) {
        let i = choose|i: int| 0 <= i < a.len() && a[i] == x;
        assert((a + b)[i] == x);
    } else {
        let i = choose|i: int| 0 <= i < b.len() && b[i] == x;
        assert((a + b)[a.len() + i] == x);
    }
}

/// Every entity id handed out while materializing the child subtrees of
/// `node` has its initialized notification inside the children's stretch of
/// the event log.
proof fn lemma_children_inits_cover(node: UiNode, ctx: UiContext, self_id: int, next: int, d: int)
    requires
        next <= d < next + children_count(node),
    ensures
        children_events(node, ctx, self_id, next).contains(UiEvent::Init { entity: d as u64 }),
    decreases node, 1int,
{
    match node {
        UiNode::Sized { content, .. }
        | UiNode::Padded { content, .. }
        | UiNode::Margin { content, .. }
        | UiNode::Border { content, .. }
        | UiNode::Background { content }
        | UiNode::Centered { content }
        | UiNode::Aligned { content, .. }
        | UiNode::Justified { content, .. }
        | UiNode::Absolute { content }
        | UiNode::Positioned { content, .. }
        | UiNode::Grid { content }
        | UiNode::Sizing { content, .. }
        | UiNode::Gapped { content, .. }
        | UiNode::Scale { content, .. }
        | UiNode::Theme { content, .. }
        | UiNode::OnEvent { content, .. }
        | UiNode::Hover { content, .. }
        | UiNode::Image { content, .. }
        | UiNode::Custom { content, .. }
        | UiNode::Checkbox { content, .. }
        | UiNode::Slider { content, .. }
        | UiNode::Thumb { content }
        | UiNode::Animated { content, .. }
        | UiNode::Animator { content, .. } => {
            lemma_children_inits_cover(
                *content,
                crate::materialize::child_ctx_step(node, ctx, self_id),
                self_id,
                next,
                d,
            );
        },
        UiNode::Column { elements } => {
            lemma_seq_inits_cover(elements@, ctx, next, d);
        },
        UiNode::Row { elements } => {
            lemma_seq_inits_cover(elements@, ctx, next, d);
        },
        UiNode::Pair { first, second } => {
            if d < next + entity_count(*first) {
                lemma_inits_cover(*first, ctx, next, d);
                lemma_contains_concat(
                    events_spec(*first, ctx, next),
                    events_spec(*second, ctx, next + entity_count(*first)),
                    UiEvent::Init { entity: d as u64 },
                );
            } else {
                lemma_inits_cover(*second, ctx, next + entity_count(*first), d);
                lemma_contains_concat(
                    events_spec(*first, ctx, next),
                    events_spec(*second, ctx, next + entity_count(*first)),
                    UiEvent::Init { entity: d as u64 },
                );
            }
        },
        UiNode::Child { content } | UiNode::Button { content, .. } => {
            lemma_inits_cover(*content, ctx, next, d);
        },
        _ => {},
    }
}

proof fn lemma_seq_inits_cover(s: Seq<UiNode>, ctx: UiContext, next: int, d: int)
    requires
        next <= d < next + seq_count(s),
    ensures
        seq_events(s, ctx, next).contains(UiEvent::Init { entity: d as u64 }),
    decreases s, 0int,
{
    let prefix = s.drop_last();
    if d < next + seq_count(prefix) {
        lemma_seq_inits_cover(prefix, ctx, next, d);
    } else {
        lemma_inits_cover(s.last(), ctx, next + seq_count(prefix), d);
    }
    lemma_contains_concat(
        seq_events(prefix, ctx, next),
        events_spec(s.last(), ctx, next + seq_count(prefix)),
        UiEvent::Init { entity: d as u64 },
    );
}

/// Every entity id handed out while materializing `node` — the node's own
/// and every descendant's — has its initialized notification in the event
/// log.
pub proof fn lemma_inits_cover(node: UiNode, ctx: UiContext, id: int, d: int)
    requires
        id <= d < id + entity_count(node),
    ensures
        events_spec(node, ctx, id).contains(UiEvent::Init { entity: d as u64 }),
    decreases node, 2int,
{
    let evs = events_spec(node, ctx, id);
    let own: Seq<UiEvent> = seq![UiEvent::Init { entity: id as u64 }];
    if d == id {
        assert(own[0] == UiEvent::Init { entity: d as u64 });
        lemma_contains_concat(
            crate::materialize::emits_of(behavior_contribution(node, ctx), id) + children_events(
                node,
                ctx,
                id,
                id + 1,
            ),
            own,
            UiEvent::Init { entity: d as u64 },
        );
    } else {
        lemma_children_inits_cover(node, ctx, id, id + 1, d);
        lemma_contains_concat(
            crate::materialize::emits_of(behavior_contribution(node, ctx), id),
            children_events(node, ctx, id, id + 1),
            UiEvent::Init { entity: d as u64 },
        );
        lemma_contains_concat(
            crate::materialize::emits_of(behavior_contribution(node, ctx), id) + children_events(
                node,
                ctx,
                id,
                id + 1,
            ),
            own,
            UiEvent::Init { entity: d as u64 },
        );
    }
}

/// The number of initialized notifications among `evs`.
pub open spec fn init_count(evs: Seq<UiEvent>) -> nat
    decreases evs,
{
    if evs.len() == 0 {
        0
    } else {
        init_count(evs.drop_last()) + (if evs.last() is Init {
            1nat
        } else {
            0nat
        })
    }
}

proof fn lemma_init_count_concat(a: Seq<UiEvent>, b: Seq<UiEvent>)
    ensures
        init_count(a + b) == init_count(a) + init_count(b),
    decreases b.len(),
{
    if b.len() == 0 {
        assert(a + b =~= a);
    } else {
        lemma_init_count_concat(a, b.drop_last());
        assert((a + b).drop_last() =~= a + b.drop_last());
        assert((a + b).last() == b.last());
    }
}

proof fn lemma_emits_no_init(behaviors: Seq<Behavior>, id: int)
    ensures
        init_count(crate::materialize::emits_of(behaviors, id)) == 0,
    decreases behaviors,
{
    if behaviors.len() > 0 {
        lemma_emits_no_init(behaviors.drop_last(), id);
        let tail: Seq<UiEvent> = match behaviors.last() {
            Behavior::EmitPlaceholderCreated(name) => seq![
                UiEvent::PlaceholderCreated { entity: id as u64, name },
            ],
            _ => seq![],
        };
        assert(init_count(tail) == 0) by {
            reveal_with_fuel(init_count, 2);
            if tail.len() > 0 {
                assert(tail.drop_last() =~= Seq::<UiEvent>::empty());
            }
        }
        lemma_init_count_concat(
            crate::materialize::emits_of(behaviors.drop_last(), id),
            tail,
        );
    }
}

proof fn lemma_seq_init_count(s: Seq<UiNode>, ctx: UiContext, next: int)
    ensures
        init_count(seq_events(s, ctx, next)) == seq_count(s),
    decreases s, 0int,
{
    if s.len() > 0 {
        lemma_seq_init_count(s.drop_last(), ctx, next);
        lemma_events_init_count(s.last(), ctx, next + seq_count(s.drop_last()));
        lemma_init_count_concat(
            seq_events(s.drop_last(), ctx, next),
            events_spec(s.last(), ctx, next + seq_count(s.drop_last())),
        );
    }
}

proof fn lemma_children_init_count(node: UiNode, ctx: UiContext, self_id: int, next: int)
    ensures
        init_count(children_events(node, ctx, self_id, next)) == children_count(node),
    decreases node, 1int,
{
    match node {
        UiNode::Sized { content, .. }
        | UiNode::Padded { content, .. }
        | UiNode::Margin { content, .. }
        | UiNode::Border { content, .. }
        | UiNode::Background { content }
        | UiNode::Centered { content }
        | UiNode::Aligned { content, .. }
        | UiNode::Justified { content, .. }
        | UiNode::Absolute { content }
        | UiNode::Positioned { content, .. }
        | UiNode::Grid { content }
        | UiNode::Sizing { content, .. }
        | UiNode::Gapped { content, .. }
        | UiNode::Scale { content, .. }
        | UiNode::Theme { content, .. }
        | UiNode::OnEvent { content, .. }
        | UiNode::Hover { content, .. }
        | UiNode::Image { content, .. }
        | UiNode::Custom { content, .. }
        | UiNode::Checkbox { content, .. }
        | UiNode::Slider { content, .. }
        | UiNode::Thumb { content }
        | UiNode::Animated { content, .. }
        | UiNode::Animator { content, .. } => {
            lemma_children_init_count(
                *content,
                crate::materialize::child_ctx_step(node, ctx, self_id),
                self_id,
                next,
            );
        },
        UiNode::Column { elements } => {
            lemma_seq_init_count(elements@, ctx, next);
        },
        UiNode::Row { elements } => {
            lemma_seq_init_count(elements@, ctx, next);
        },
        UiNode::Pair { first, second } => {
            lemma_events_init_count(*first, ctx, next);
            lemma_events_init_count(*second, ctx, next + entity_count(*first));
            lemma_init_count_concat(
                events_spec(*first, ctx, next),
                events_spec(*second, ctx, next + entity_count(*first)),
            );
        },
        UiNode::Child { content } => {
            lemma_events_init_count(*content, ctx, next);
        },
        UiNode::Button { content, .. } => {
            lemma_events_init_count(*content, ctx, next);
        },
        _ => {},
    }
}

/// Materializing `node` fires exactly one initialized notification per
/// entity it produces.
pub proof fn lemma_events_init_count(node: UiNode, ctx: UiContext, id: int)
    ensures
        init_count(events_spec(node, ctx, id)) == entity_count(node),
    decreases node, 2int,
{
    lemma_emits_no_init(behavior_contribution(node, ctx), id);
    lemma_children_init_count(node, ctx, id, id + 1);
    let emits = crate::materialize::emits_of(behavior_contribution(node, ctx), id);
    let child_evs = children_events(node, ctx, id, id + 1);
    let own: Seq<UiEvent> = seq![UiEvent::Init { entity: id as u64 }];
    lemma_init_count_concat(emits, child_evs);
    lemma_init_count_concat(emits + child_evs, own);
    assert(init_count(own) == 1) by {
        reveal_with_fuel(init_count, 2);
        assert(own.drop_last() =~= Seq::<UiEvent>::empty());
    }
}

/// Whether the initialized notification for entity `d` fires strictly
/// before the one for the root of the materialization of `node`, which is
/// the log's last event.
pub open spec fn init_fires_before_root(node: UiNode, ctx: UiContext, id: int, d: int) -> bool {
    exists|j: int|
        0 <= j < events_spec(node, ctx, id).len() - 1 && events_spec(node, ctx, id)[j]
            == (UiEvent::Init { entity: d as u64 })
}

/// Post-children init ordering: the initialized notification for the
/// entity a node materializes to is the last event its materialization
/// fires, and every descendant entity's initialized notification fires
/// strictly before it — an ancestor that reacts to the notification
/// observes a fully built subtree.
pub proof fn lemma_init_post_order(node: UiNode, ctx: UiContext, id: int)
    requires
        0 <= id,
        id + entity_count(node) <= u64::MAX,
    ensures
        events_spec(node, ctx, id).len() >= 1,
        events_spec(node, ctx, id).last() == (UiEvent::Init { entity: id as u64 }),
        init_count(events_spec(node, ctx, id)) == entity_count(node),
        forall|d: int|
            id < d < id + entity_count(node) ==> #[trigger] init_fires_before_root(node, ctx, id, d),
{
    lemma_events_init_count(node, ctx, id);
    let evs = events_spec(node, ctx, id);
    assert forall|d: int| id < d < id + entity_count(node) implies #[trigger] init_fires_before_root(
        node,
        ctx,
        id,
        d,
    ) by {
        lemma_inits_cover(node, ctx, id, d);
        let j = choose|j: int| 0 <= j < evs.len() && evs[j] == (UiEvent::Init { entity: d as u64 });
        assert(d as u64 != id as u64);
        assert(evs[evs.len() - 1] == (UiEvent::Init { entity: id as u64 }));
        assert(j != evs.len() - 1);
    }
}

} // verus!
