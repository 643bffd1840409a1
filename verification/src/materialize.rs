use vstd::prelude::*;

use crate::context::UiContext;
use crate::data::{data_kind, data_kind_of, has_kind, Behavior, DataItem, DataKind, UiEvent};
use crate::node::UiNode;
use crate::protocol::{
    anim_ok, anim_ok_seq, behavior_contribution, contribute_behaviors, contribute_data,
    contribute_style, data_contribution, lemma_anim_ok_spine, style_contribution,
};
use crate::style::NodeStyle;

verus! {

// ---------------------------------------------------------------------------
// The materialized result, and its mathematical model.
// ---------------------------------------------------------------------------

/// One materialized entity: the style record built for it, the data
/// attached to it, the reactive registrations made on it, and the subtree
/// of child entities spawned under it, in spawn order.
///
/// `style` is `None` only for a pre-existing entity that carried no style
/// record and was decorated through [`insert_into_existing`]; the spawning
/// entry point always attaches one.
#[derive(PartialEq, Debug)]
pub struct EntityNode {
    pub id: u64,
    pub style: Option<NodeStyle>,
    pub data: Vec<DataItem>,
    pub behaviors: Vec<Behavior>,
    pub children: Vec<EntityNode>,
}

/// The mathematical model of a materialized entity.
pub struct EntitySpec {
    pub id: int,
    pub style: Option<NodeStyle>,
    pub data: Seq<DataItem>,
    pub behaviors: Seq<Behavior>,
    pub children: Seq<EntitySpec>,
}

pub open spec fn entity_model(e: EntityNode) -> EntitySpec
    decreases e, 1int,
{
    EntitySpec {
        id: e.id as int,
        style: e.style,
        data: e.data@,
        behaviors: e.behaviors@,
        children: children_models(e.children@),
    }
}

pub open spec fn children_models(s: Seq<EntityNode>) -> Seq<EntitySpec>
    decreases s, 0int,
{
    if s.len() == 0 {
        seq![]
    } else {
        children_models(s.drop_last()).push(entity_model(s.last()))
    }
}

impl View for EntityNode {
    type V = EntitySpec;

    open spec fn view(&self) -> EntitySpec {
        entity_model(*self)
    }
}

// ---------------------------------------------------------------------------
// Entity counting: how many entities a node's materialization produces.
// ---------------------------------------------------------------------------

/// The number of entities materializing `node` produces: one for the node
/// itself plus its whole child subtree.
pub open spec fn entity_count(node: UiNode) -> nat
    decreases node, 2int,
{
    1 + children_count(node)
}

/// The number of entities the children phase of `node` produces.
pub open spec fn children_count(node: UiNode) -> nat
    decreases node, 1int,
{
    match node {
        UiNode::Sized { content, .. }
        | UiNode::Padded { content, .. }
        | UiNode::Margin { content, .. }
        | UiNode::Border { content, .. }
        | UiNode::Background { content }
        | UiNode::Centered { content }
        | UiNode::Aligned { content, .. }
        | UiNode::Justified { content, .. }
        | UiNode::Absolute { content }
        | UiNode::Positioned { content, .. }
        | UiNode::Grid { content }
        | UiNode::Sizing { content, .. }
        | UiNode::Gapped { content, .. }
        | UiNode::Scale { content, .. }
        | UiNode::Theme { content, .. }
        | UiNode::OnEvent { content, .. }
        | UiNode::Hover { content, .. }
        | UiNode::Image { content, .. }
        | UiNode::Custom { content, .. }
        | UiNode::Checkbox { content, .. }
        | UiNode::Slider { content, .. }
        | UiNode::Thumb { content }
        | UiNode::Animated { content, .. }
        | UiNode::Animator { content, .. } => children_count(*content),
        UiNode::Column { elements } => seq_count(elements@),
        UiNode::Row { elements } => seq_count(elements@),
        UiNode::Pair { first, second } => entity_count(*first) + entity_count(*second),
        UiNode::Child { content } => entity_count(*content),
        UiNode::Button { content, .. } => entity_count(*content),
        _ => 0,
    }
}

pub open spec fn seq_count(s: Seq<UiNode>) -> nat
    decreases s, 0int,
{
    if s.len() == 0 {
        0
    } else {
        seq_count(s.drop_last()) + entity_count(s.last())
    }
}

/// A prefix of a child list never spawns more entities than the whole list.
pub proof fn lemma_seq_count_prefix(s: Seq<UiNode>, i: int)
    requires
        0 <= i <= s.len(),
    ensures
        seq_count(s.subrange(0, i)) <= seq_count(s),
    decreases s.len() - i,
{
    if i == s.len() {
        assert(s.subrange(0, i) =~= s);
    } else {
        lemma_seq_count_prefix(s, i + 1);
        assert(s.subrange(0, i + 1).drop_last() =~= s.subrange(0, i));
    }
}

fn saturating_add_u64(a: u64, b: u64) -> (r: u64)
    ensures
        a + b <= u64::MAX ==> r == a + b,
        a + b > u64::MAX ==> r == u64::MAX,
{
    if a > u64::MAX - b {
        u64::MAX
    } else {
        a + b
    }
}

/// Computes [`entity_count`], saturated to the `u64` range, so an
/// unverified caller can test the driver's id-headroom precondition before
/// materializing a tree.
pub fn count_entities(node: &UiNode) -> (r: u64)
    ensures
        entity_count(*node) <= u64::MAX ==> r as nat == entity_count(*node),
        entity_count(*node) > u64::MAX ==> r == u64::MAX,
    decreases *node, 2int,
{
    let children = count_children_entities(node);
    saturating_add_u64(1, children)
}

fn count_children_entities(node: &UiNode) -> (r: u64)
    ensures
        children_count(*node) <= u64::MAX ==> r as nat == children_count(*node),
        children_count(*node) > u64::MAX ==> r == u64::MAX,
    decreases *node, 1int,
{
    match node {
        UiNode::Empty | UiNode::Text(..) | UiNode::Placeholder(..) => 0,
        UiNode::Column { elements } => count_list_entities(elements),
        UiNode::Row { elements } => count_list_entities(elements),
        UiNode::Pair { first, second } => {
            let a = count_entities(&**first);
            let b = count_entities(&**second);
            saturating_add_u64(a, b)
        },
        UiNode::Child { content } => count_entities(&**content),
        UiNode::Button { content, .. } => count_entities(&**content),
        UiNode::Sized { content, .. }
        | UiNode::Padded { content, .. }
        | UiNode::Margin { content, .. }
        | UiNode::Border { content, .. }
        | UiNode::Background { content }
        | UiNode::Centered { content }
        | UiNode::Aligned { content, .. }
        | UiNode::Justified { content, .. }
        | UiNode::Absolute { content }
        | UiNode::Positioned { content, .. }
        | UiNode::Grid { content }
        | UiNode::Sizing { content, .. }
        | UiNode::Gapped { content, .. }
        | UiNode::Scale { content, .. }
        | UiNode::Theme { content, .. }
        | UiNode::OnEvent { content, .. }
        | UiNode::Hover { content, .. }
        | UiNode::Image { content, .. }
        | UiNode::Custom { content, .. }
        | UiNode::Checkbox { content, .. }
        | UiNode::Slider { content, .. }
        | UiNode::Thumb { content }
        | UiNode::Animated { content, .. }
        | UiNode::Animator { content, .. } => count_children_entities(&**content),
    }
}

fn count_list_entities(elements: &Vec<UiNode>) -> (r: u64)
    ensures
        seq_count(elements@) <= u64::MAX ==> r as nat == seq_count(elements@),
        seq_count(elements@) > u64::MAX ==> r == u64::MAX,
    decreases elements@, 1int,
{
    let ghost s = elements@;
    proof {
        assert(s.subrange(0, 0) =~= Seq::<UiNode>::empty());
    }
    let mut total: u64 = 0;
    let mut i: usize = 0;
    while i < elements.len()
        invariant
            i <= elements.len(),
            s == elements@,
            seq_count(s.subrange(0, i as int)) <= u64::MAX ==> total as nat == seq_count(
                s.subrange(0, i as int),
            ),
            seq_count(s.subrange(0, i as int)) > u64::MAX ==> total == u64::MAX,
        decreases elements.len() - i,
    {
        let c = count_entities(&elements[i]);
        total = saturating_add_u64(total, c);
        proof {
            assert(s.subrange(0, i + 1 as int).drop_last() =~= s.subrange(0, i as int));
            assert(s.subrange(0, i + 1 as int).last() == s[i as int]);
        }
        i = i + 1;
    }
    proof {
        assert(s.subrange(0, s.len() as int) =~= s);
    }
    total
}

// ---------------------------------------------------------------------------
// The children phase: which context the child subtrees see.
// ---------------------------------------------------------------------------

/// The context a node hands its children phase on the way down: a theming
/// boundary hands the fork (unless it asked not to propagate), an animation
/// controller puts its own entity in scope, every other node passes the
/// context through.
pub open spec fn child_ctx_step(node: UiNode, ctx: UiContext, self_id: int) -> UiContext {
    match node {
        UiNode::Theme { overrides, propagate, .. } => if propagate {
            crate::context::fork_spec(overrides, ctx)
        } else {
            ctx
        },
        UiNode::Animator { .. } => ctx.with_animator_spec(Some(self_id as u64)),
        _ => ctx,
    }
}

/// The constraint the children phase needs: every animation target in a
/// child subtree finds a controller in scope, accounting for the context
/// transforms on the way down.
pub open spec fn children_anim_ok(node: UiNode, child_has: bool) -> bool
    decreases node,
{
    match node {
        UiNode::Animator { content, .. } => children_anim_ok(*content, true),
        UiNode::Column { elements } => anim_ok_seq(elements@, child_has),
        UiNode::Row { elements } => anim_ok_seq(elements@, child_has),
        UiNode::Pair { first, second } => anim_ok(*first, child_has, child_has) && anim_ok(
            *second,
            child_has,
            child_has,
        ),
        UiNode::Button { content, .. } => anim_ok(*content, child_has, child_has),
        UiNode::Child { content } => anim_ok(*content, child_has, child_has),
        UiNode::Empty => true,
        UiNode::Text(..) => true,
        UiNode::Placeholder(..) => true,
        UiNode::Sized { content, .. }
        | UiNode::Padded { content, .. }
        | UiNode::Margin { content, .. }
        | UiNode::Border { content, .. }
        | UiNode::Background { content }
        | UiNode::Centered { content }
        | UiNode::Aligned { content, .. }
        | UiNode::Justified { content, .. }
        | UiNode::Absolute { content }
        | UiNode::Positioned { content, .. }
        | UiNode::Grid { content }
        | UiNode::Sizing { content, .. }
        | UiNode::Gapped { content, .. }
        | UiNode::Scale { content, .. }
        | UiNode::Theme { content, .. }
        | UiNode::OnEvent { content, .. }
        | UiNode::Hover { content, .. }
        | UiNode::Image { content, .. }
        | UiNode::Custom { content, .. }
        | UiNode::Checkbox { content, .. }
        | UiNode::Slider { content, .. }
        | UiNode::Thumb { content } => children_anim_ok(*content, child_has),
        UiNode::Animated { content, .. } => children_anim_ok(*content, child_has),
    }
}

/// A tree whose every phase is in order is in particular in order in its
/// children phase.
pub proof fn lemma_anim_ok_children(node: UiNode, data_has: bool, child_has: bool)
    requires
        anim_ok(node, data_has, child_has),
    ensures
        children_anim_ok(node, child_has),
    decreases node,
{
    match node {
        UiNode::Animator { content, .. } => lemma_anim_ok_children(*content, data_has, true),
        UiNode::Animated { content, .. } => lemma_anim_ok_children(*content, data_has, child_has),
        UiNode::Sized { content, .. }
        | UiNode::Padded { content, .. }
        | UiNode::Margin { content, .. }
        | UiNode::Border { content, .. }
        | UiNode::Background { content }
        | UiNode::Centered { content }
        | UiNode::Aligned { content, .. }
        | UiNode::Justified { content, .. }
        | UiNode::Absolute { content }
        | UiNode::Positioned { content, .. }
        | UiNode::Grid { content }
        | UiNode::Sizing { content, .. }
        | UiNode::Gapped { content, .. }
        | UiNode::Scale { content, .. }
        | UiNode::Theme { content, .. }
        | UiNode::OnEvent { content, .. }
        | UiNode::Hover { content, .. }
        | UiNode::Image { content, .. }
        | UiNode::Custom { content, .. }
        | UiNode::Checkbox { content, .. }
        | UiNode::Slider { content, .. }
        | UiNode::Thumb { content } => lemma_anim_ok_children(*content, data_has, child_has),
        _ => {},
    }
}

/// Every element of a well-formed child list is itself well formed.
pub proof fn lemma_anim_ok_seq_index(s: Seq<UiNode>, has: bool, i: int)
    requires
        anim_ok_seq(s, has),
        0 <= i < s.len(),
    ensures
        anim_ok(s[i], has, has),
    decreases s.len(),
{
    if i > 0 {
        lemma_anim_ok_seq_index(s.drop_first(), has, i - 1);
    }
}

// ---------------------------------------------------------------------------
// The model of a full materialization.
// ---------------------------------------------------------------------------

/// The themed-marker attach of the driver: the context snapshot is added
/// only if the node's own data did not already carry a themed marker, so a
/// marker contributed by a nested theming boundary wins.
pub open spec fn with_themed(data: Seq<DataItem>, ctx: UiContext) -> Seq<DataItem> {
    if has_kind(data, DataKind::Themed) {
        data
    } else {
        data.push(DataItem::Themed(ctx))
    }
}

/// The entity that materializing `node` under `ctx` produces, with `id` the
/// entity id handed out to it and ids `id + 1` onward handed out to its
/// subtree in spawn order.
pub open spec fn mat_spec(node: UiNode, ctx: UiContext, id: int) -> EntitySpec
    decreases node, 2int,
{
    EntitySpec {
        id,
        style: Some(style_contribution(node, ctx, NodeStyle::base_spec())),
        data: with_themed(data_contribution(node, ctx), ctx),
        behaviors: behavior_contribution(node, ctx),
        children: children_mat(node, ctx, id, id + 1),
    }
}

/// The child entities the children phase of `node` produces, in spawn
/// order, with ids handed out from `next` onward.
pub open spec fn children_mat(node: UiNode, ctx: UiContext, self_id: int, next: int) -> Seq<
    EntitySpec,
>
    decreases node, 1int,
{
    match node {
        UiNode::Sized { content, .. }
        | UiNode::Padded { content, .. }
        | UiNode::Margin { content, .. }
        | UiNode::Border { content, .. }
        | UiNode::Background { content }
        | UiNode::Centered { content }
        | UiNode::Aligned { content, .. }
        | UiNode::Justified { content, .. }
        | UiNode::Absolute { content }
        | UiNode::Positioned { content, .. }
        | UiNode::Grid { content }
        | UiNode::Sizing { content, .. }
        | UiNode::Gapped { content, .. }
        | UiNode::Scale { content, .. }
        | UiNode::Theme { content, .. }
        | UiNode::OnEvent { content, .. }
        | UiNode::Hover { content, .. }
        | UiNode::Image { content, .. }
        | UiNode::Custom { content, .. }
        | UiNode::Checkbox { content, .. }
        | UiNode::Slider { content, .. }
        | UiNode::Thumb { content }
        | UiNode::Animated { content, .. }
        | UiNode::Animator { content, .. } => children_mat(
            *content,
            child_ctx_step(node, ctx, self_id),
            self_id,
            next,
        ),
        UiNode::Column { elements } => seq_mat(elements@, ctx, next),
        UiNode::Row { elements } => seq_mat(elements@, ctx, next),
        UiNode::Pair { first, second } => seq![mat_spec(*first, ctx, next)] + seq![
            mat_spec(*second, ctx, next + entity_count(*first)),
        ],
        UiNode::Child { content } => seq![mat_spec(*content, ctx, next)],
        UiNode::Button { content, .. } => seq![mat_spec(*content, ctx, next)],
        _ => seq![],
    }
}

pub open spec fn seq_mat(s: Seq<UiNode>, ctx: UiContext, next: int) -> Seq<EntitySpec>
    decreases s, 0int,
{
    if s.len() == 0 {
        seq![]
    } else {
        seq_mat(s.drop_last(), ctx, next).push(
            mat_spec(s.last(), ctx, next + seq_count(s.drop_last())),
        )
    }
}

// ---------------------------------------------------------------------------
// The model of the event log.
// ---------------------------------------------------------------------------

/// The notifications that registering `behaviors` on entity `id` fires at
/// registration time, in order.
pub open spec fn emits_of(behaviors: Seq<Behavior>, id: int) -> Seq<UiEvent>
    decreases behaviors,
{
    if behaviors.len() == 0 {
        seq![]
    } else {
        emits_of(behaviors.drop_last(), id) + (match behaviors.last() {
            Behavior::EmitPlaceholderCreated(name) => seq![
                UiEvent::PlaceholderCreated { entity: id as u64, name },
            ],
            _ => seq![],
        })
    }
}

/// Every notification materializing `node` fires, in firing order: the
/// registration-time announcements, then everything the child subtrees
/// fire, then — strictly after the whole subtree exists — the
/// ancestor-propagating initialized notification for the node itself.
pub open spec fn events_spec(node: UiNode, ctx: UiContext, id: int) -> Seq<UiEvent>
    decreases node, 2int,
{
    emits_of(behavior_contribution(node, ctx), id) + children_events(node, ctx, id, id + 1)
        + seq![UiEvent::Init { entity: id as u64 }]
}

pub open spec fn children_events(node: UiNode, ctx: UiContext, self_id: int, next: int) -> Seq<
    UiEvent,
>
    decreases node, 1int,
{
    match node {
        UiNode::Sized { content, .. }
        | UiNode::Padded { content, .. }
        | UiNode::Margin { content, .. }
        | UiNode::Border { content, .. }
        | UiNode::Background { content }
        | UiNode::Centered { content }
        | UiNode::Aligned { content, .. }
        | UiNode::Justified { content, .. }
        | UiNode::Absolute { content }
        | UiNode::Positioned { content, .. }
        | UiNode::Grid { content }
        | UiNode::Sizing { content, .. }
        | UiNode::Gapped { content, .. }
        | UiNode::Scale { content, .. }
        | UiNode::Theme { content, .. }
        | UiNode::OnEvent { content, .. }
        | UiNode::Hover { content, .. }
        | UiNode::Image { content, .. }
        | UiNode::Custom { content, .. }
        | UiNode::Checkbox { content, .. }
        | UiNode::Slider { content, .. }
        | UiNode::Thumb { content }
        | UiNode::Animated { content, .. }
        | UiNode::Animator { content, .. } => children_events(
            *content,
            child_ctx_step(node, ctx, self_id),
            self_id,
            next,
        ),
        UiNode::Column { elements } => seq_events(elements@, ctx, next),
        UiNode::Row { elements } => seq_events(elements@, ctx, next),
        UiNode::Pair { first, second } => events_spec(*first, ctx, next) + events_spec(
            *second,
            ctx,
            next + entity_count(*first),
        ),
        UiNode::Child { content } => events_spec(*content, ctx, next),
        UiNode::Button { content, .. } => events_spec(*content, ctx, next),
        _ => seq![],
    }
}

pub open spec fn seq_events(s: Seq<UiNode>, ctx: UiContext, next: int) -> Seq<UiEvent>
    decreases s, 0int,
{
    if s.len() == 0 {
        seq![]
    } else {
        seq_events(s.drop_last(), ctx, next) + events_spec(
            s.last(),
            ctx,
            next + seq_count(s.drop_last()),
        )
    }
}

// ---------------------------------------------------------------------------
// The driver.
// ---------------------------------------------------------------------------

fn find_kind(data: &Vec<DataItem>, k: DataKind) -> (r: bool)
    ensures
        r == has_kind(data@, k),
{
    let mut i: usize = 0;
    while i < data.len()
        invariant
            i <= data.len(),
            forall|j: int| 0 <= j < i ==> data_kind(data@[j]) != k,
        decreases data.len() - i,
    {
        let ki = data_kind_of(&data[i]);
        if ki == k {
            assert(data_kind(data@[i as int]) == k);
            return true;
        }
        i = i + 1;
    }
    false
}

fn has_themed(data: &Vec<DataItem>) -> (r: bool)
    ensures
        r == has_kind(data@, DataKind::Themed),
{
    find_kind(data, DataKind::Themed)
}

fn emit_placeholder_events(behaviors: &Vec<Behavior>, id: u64, log: &mut Vec<UiEvent>)
    ensures
        final(log)@ == old(log)@ + emits_of(behaviors@, id as int),
{
    let ghost base = log@;
    let mut i: usize = 0;
    while i < behaviors.len()
        invariant
            i <= behaviors.len(),
            log@ == base + emits_of(behaviors@.subrange(0, i as int), id as int),
        decreases behaviors.len() - i,
    {
        match &behaviors[i] {
            Behavior::EmitPlaceholderCreated(name) => {
                log.push(UiEvent::PlaceholderCreated { entity: id, name: name.clone() });
            },
            _ => {},
        }
        proof {
            assert(behaviors@.subrange(0, i + 1 as int).drop_last() =~= behaviors@.subrange(
                0,
                i as int,
            ));
        }
        i = i + 1;
    }
    proof {
        assert(behaviors@.subrange(0, behaviors@.len() as int) =~= behaviors@);
    }
}

/// The spawning entry point of the materialization driver. Runs the strict
/// four-phase sequence for `node` under `ctx`: build the style record, take
/// the data contribution and attach it (with the themed marker added only
/// if the data did not already carry one), take the behavior registrations
/// (announcing placeholders as they register), materialize the child
/// subtrees, and finally — strictly after every descendant exists — fire
/// the initialized notification. Entity ids are handed out from `next_id`
/// in spawn order; every notification is appended to `log` in firing
/// order.
pub fn spawn_as_child(node: &UiNode, ctx: &UiContext, next_id: &mut u64, log: &mut Vec<UiEvent>) -> (e:
    EntityNode)
    requires
        anim_ok(*node, ctx.current_animator is Some, ctx.current_animator is Some),
        *old(next_id) + entity_count(*node) <= u64::MAX,
    ensures
        entity_model(e) == mat_spec(*node, *ctx, *old(next_id) as int),
        *final(next_id) == *old(next_id) + entity_count(*node),
        final(log)@ == old(log)@ + events_spec(*node, *ctx, *old(next_id) as int),
    decreases *node, 1int,
{
    proof {
        lemma_anim_ok_spine(*node, ctx.current_animator is Some, ctx.current_animator is Some);
        lemma_anim_ok_children(*node, ctx.current_animator is Some, ctx.current_animator is Some);
    }
    let id = *next_id;
    *next_id = id + 1;
    let mut style = NodeStyle::base();
    contribute_style(node, &mut style, ctx);
    let mut data: Vec<DataItem> = Vec::new();
    contribute_data(node, ctx, &mut data);
    if !has_themed(&data) {
        data.push(DataItem::Themed(*ctx));
    }
    let mut behaviors: Vec<Behavior> = Vec::new();
    contribute_behaviors(node, ctx, &mut behaviors);
    emit_placeholder_events(&behaviors, id, log);
    let mut children: Vec<EntityNode> = Vec::new();
    spawn_children_into(node, ctx, id, next_id, log, &mut children);
    log.push(UiEvent::Init { entity: id });
    let e = EntityNode { id, style: Some(style), data, behaviors, children };
    proof {
        assert(final(log)@ =~= old(log)@ + events_spec(*node, *ctx, *old(next_id) as int));
    }
    e
}

/// The children phase of the driver: materializes every child subtree of
/// `node` as an entity appended to `out`, under the context the node hands
/// down.
fn spawn_children_into(
    node: &UiNode,
    ctx: &UiContext,
    self_id: u64,
    next_id: &mut u64,
    log: &mut Vec<UiEvent>,
    out: &mut Vec<EntityNode>,
)
    requires
        children_anim_ok(*node, ctx.current_animator is Some),
        *old(next_id) + children_count(*node) <= u64::MAX,
    ensures
        children_models(final(out)@) == children_models(old(out)@) + children_mat(
            *node,
            *ctx,
            self_id as int,
            *old(next_id) as int,
        ),
        *final(next_id) == *old(next_id) + children_count(*node),
        final(log)@ == old(log)@ + children_events(*node, *ctx, self_id as int, *old(next_id) as int),
    decreases *node, 0int,
{
    match node {
        UiNode::Empty | UiNode::Text(..) | UiNode::Placeholder(..) => {
            assert(children_models(out@) =~= children_models(out@) + children_mat(
                *node,
                *ctx,
                self_id as int,
                *next_id as int,
            ));
            assert(log@ =~= log@ + children_events(*node, *ctx, self_id as int, *next_id as int));
        },
        UiNode::Theme { overrides, propagate, content } => {
            if *propagate {
                let forked = overrides.create_context(ctx);
                spawn_children_into(&**content, &forked, self_id, next_id, log, out);
            } else {
                spawn_children_into(&**content, ctx, self_id, next_id, log, out);
            }
        },
        UiNode::Animator { content, .. } => {
            let inner = ctx.with_animator(Some(self_id));
            spawn_children_into(&**content, &inner, self_id, next_id, log, out);
        },
        UiNode::Column { elements } => {
            spawn_list(elements, ctx, next_id, log, out);
        },
        UiNode::Row { elements } => {
            spawn_list(elements, ctx, next_id, log, out);
        },
        UiNode::Pair { first, second } => {
            let e1 = spawn_as_child(&**first, ctx, next_id, log);
            out.push(e1);
            let ghost mid = out@;
            let e2 = spawn_as_child(&**second, ctx, next_id, log);
            out.push(e2);
            proof {
                assert(mid.drop_last() =~= old(out)@);
                assert(mid.last() == e1);
                assert(out@.drop_last() =~= mid);
                assert(out@.last() == e2);
                assert(children_models(mid) == children_models(old(out)@).push(entity_model(e1)));
                assert(children_models(out@) == children_models(mid).push(entity_model(e2)));
                assert(children_models(out@) =~= children_models(old(out)@) + children_mat(
                    *node,
                    *ctx,
                    self_id as int,
                    *old(next_id) as int,
                ));
            }
        },
        UiNode::Child { content } | UiNode::Button { content, .. } => {
            let e = spawn_as_child(&**content, ctx, next_id, log);
            out.push(e);
            proof {
                assert(out@.drop_last() =~= old(out)@);
                assert(children_models(out@) =~= children_models(old(out)@) + children_mat(
                    *node,
                    *ctx,
                    self_id as int,
                    *old(next_id) as int,
                ));
            }
        },
        UiNode::Sized { content, .. }
        | UiNode::Padded { content, .. }
        | UiNode::Margin { content, .. }
        | UiNode::Border { content, .. }
        | UiNode::Background { content }
        | UiNode::Centered { content }
        | UiNode::Aligned { content, .. }
        | UiNode::Justified { content, .. }
        | UiNode::Absolute { content }
        | UiNode::Positioned { content, .. }
        | UiNode::Grid { content }
        | UiNode::Sizing { content, .. }
        | UiNode::Gapped { content, .. }
        | UiNode::Scale { content, .. }
        | UiNode::OnEvent { content, .. }
        | UiNode::Hover { content, .. }
        | UiNode::Image { content, .. }
        | UiNode::Custom { content, .. }
        | UiNode::Checkbox { content, .. }
        | UiNode::Slider { content, .. }
        | UiNode::Thumb { content }
        | UiNode::Animated { content, .. } => {
            spawn_children_into(&**content, ctx, self_id, next_id, log, out);
        },
    }
}

// ---------------------------------------------------------------------------
// The decorating entry point.
// ---------------------------------------------------------------------------

/// The items of `new` folded onto `existing` with insert-if-absent
/// semantics: an item is appended only if no item of its kind is already
/// present, so for each kind the existing item — or failing that the first
/// contributed item — wins.
pub open spec fn insert_absent(existing: Seq<DataItem>, new: Seq<DataItem>) -> Seq<DataItem>
    decreases new,
{
    if new.len() == 0 {
        existing
    } else {
        let step = if has_kind(existing, data_kind(new.first())) {
            existing
        } else {
            existing.push(new.first())
        };
        insert_absent(step, new.drop_first())
    }
}

/// What decorating the pre-existing entity `e` with `node` under `ctx`
/// leaves behind: the identical four-phase sequence, except that the style
/// record and every data item are inserted only if absent, and the child
/// entities (ids handed out from `next`) are appended to the ones the
/// entity already had.
pub open spec fn insert_spec(e: EntitySpec, node: UiNode, ctx: UiContext, next: int) -> EntitySpec {
    EntitySpec {
        id: e.id,
        style: if e.style is Some {
            e.style
        } else {
            Some(style_contribution(node, ctx, NodeStyle::base_spec()))
        },
        data: with_themed(insert_absent(e.data, data_contribution(node, ctx)), ctx),
        behaviors: e.behaviors + behavior_contribution(node, ctx),
        children: e.children + children_mat(node, ctx, e.id, next),
    }
}

/// The notifications decorating entity `id` with `node` fires, in firing
/// order.
pub open spec fn insert_events(node: UiNode, ctx: UiContext, id: int, next: int) -> Seq<UiEvent> {
    emits_of(behavior_contribution(node, ctx), id) + children_events(node, ctx, id, next) + seq![
        UiEvent::Init { entity: id as u64 },
    ]
}

/// Folds `contributed` onto `data` with insert-if-absent semantics, in
/// contribution order.
fn merge_absent(data: &mut Vec<DataItem>, contributed: Vec<DataItem>)
    ensures
        final(data)@ == insert_absent(old(data)@, contributed@),
{
    let ghost new_items = contributed@;
    let ghost existing = old(data)@;
    let mut rest = contributed;
    while rest.len() > 0
        invariant
            insert_absent(existing, new_items) == insert_absent(data@, rest@),
        decreases rest.len(),
    {
        let ghost pre_rest = rest@;
        let ghost pre_data = data@;
        let item = rest.remove(0);
        let k = data_kind_of(&item);
        let present = find_kind(data, k);
        if !present {
            data.push(item);
        }
        proof {
            assert(rest@ =~= pre_rest.drop_first());
            assert(insert_absent(pre_data, pre_rest) == insert_absent(data@, rest@));
        }
    }
}

/// The decorating entry point of the materialization driver: runs the same
/// four-phase sequence as [`spawn_as_child`] against a pre-existing entity
/// instead of spawning one. Components the entity already carries win over
/// contributed ones of the same kind; its existing children keep their
/// places and the node's children are appended after them.
pub fn insert_into_existing(
    entity: &mut EntityNode,
    node: &UiNode,
    ctx: &UiContext,
    next_id: &mut u64,
    log: &mut Vec<UiEvent>,
)
    requires
        anim_ok(*node, ctx.current_animator is Some, ctx.current_animator is Some),
        *old(next_id) + children_count(*node) <= u64::MAX,
    ensures
        entity_model(*final(entity)) == insert_spec(
            entity_model(*old(entity)),
            *node,
            *ctx,
            *old(next_id) as int,
        ),
        *final(next_id) == *old(next_id) + children_count(*node),
        final(log)@ == old(log)@ + insert_events(
            *node,
            *ctx,
            old(entity).id as int,
            *old(next_id) as int,
        ),
{
    proof {
        lemma_anim_ok_spine(*node, ctx.current_animator is Some, ctx.current_animator is Some);
        lemma_anim_ok_children(*node, ctx.current_animator is Some, ctx.current_animator is Some);
    }
    if entity.style.is_none() {
        let mut style = NodeStyle::base();
        contribute_style(node, &mut style, ctx);
        entity.style = Some(style);
    }
    let mut contributed: Vec<DataItem> = Vec::new();
    contribute_data(node, ctx, &mut contributed);
    merge_absent(&mut entity.data, contributed);
    if !has_themed(&entity.data) {
        entity.data.push(DataItem::Themed(*ctx));
    }
    let mut fresh: Vec<Behavior> = Vec::new();
    contribute_behaviors(node, ctx, &mut fresh);
    emit_placeholder_events(&fresh, entity.id, log);
    entity.behaviors.append(&mut fresh);
    spawn_children_into(node, ctx, entity.id, next_id, log, &mut entity.children);
    log.push(UiEvent::Init { entity: entity.id });
    proof {
        assert(final(log)@ =~= old(log)@ + insert_events(
            *node,
            *ctx,
            old(entity).id as int,
            *old(next_id) as int,
        ));
    }
}

/// Materializes each element of a group's child list in sequence under the
/// same parent.
fn spawn_list(
    elements: &Vec<UiNode>,
    ctx: &UiContext,
    next_id: &mut u64,
    log: &mut Vec<UiEvent>,
    out: &mut Vec<EntityNode>,
)
    requires
        anim_ok_seq(elements@, ctx.current_animator is Some),
        *old(next_id) + seq_count(elements@) <= u64::MAX,
    ensures
        children_models(final(out)@) == children_models(old(out)@) + seq_mat(
            elements@,
            *ctx,
            *old(next_id) as int,
        ),
        *final(next_id) == *old(next_id) + seq_count(elements@),
        final(log)@ == old(log)@ + seq_events(elements@, *ctx, *old(next_id) as int),
    decreases elements@, 1int,
{
    let ghost base_out = out@;
    let ghost base_log = log@;
    let ghost start = *next_id as int;
    let mut i: usize = 0;
    while i < elements.len()
        invariant
            i <= elements.len(),
            anim_ok_seq(elements@, ctx.current_animator is Some),
            start + seq_count(elements@) <= u64::MAX,
            *next_id as int == start + seq_count(elements@.subrange(0, i as int)),
            children_models(out@) == children_models(base_out) + seq_mat(
                elements@.subrange(0, i as int),
                *ctx,
                start,
            ),
            log@ == base_log + seq_events(elements@.subrange(0, i as int), *ctx, start),
        decreases elements.len() - i,
    {
        proof {
            lemma_anim_ok_seq_index(elements@, ctx.current_animator is Some, i as int);
            lemma_seq_count_prefix(elements@, i + 1 as int);
            assert(elements@.subrange(0, i + 1 as int).drop_last() =~= elements@.subrange(
                0,
                i as int,
            ));
            assert(elements@.subrange(0, i + 1 as int).last() == elements@[i as int]);
        }
        let e = spawn_as_child(&elements[i], ctx, next_id, log);
        let ghost prev = out@;
        out.push(e);
        proof {
            assert(out@.drop_last() =~= prev);
            assert(out@.last() == e);
            assert(children_models(out@) =~= children_models(base_out) + seq_mat(
                elements@.subrange(0, i + 1 as int),
                *ctx,
                start,
            ));
            assert(log@ =~= base_log + seq_events(elements@.subrange(0, i + 1 as int), *ctx, start));
        }
        i = i + 1;
    }
    proof {
        assert(elements@.subrange(0, elements@.len() as int) =~= elements@);
    }
}

} // verus!
