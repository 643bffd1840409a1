use menu_ui::context::{ThemeOverrides, UiContext};
use menu_ui::data::{DataItem, UiEvent};
use menu_ui::materialize::{insert_into_existing, spawn_as_child, EntityNode};
use menu_ui::node::{Placeholder, Text, TextSizing, UiNode};
use menu_ui::style::{
    AlignItems, Edges, JustifyContent, LayoutMode, NodeStyle, PositionKind, Val,
};
use menu_ui::Rgba;

fn materialize(node: &UiNode, ctx: &UiContext) -> (EntityNode, Vec<UiEvent>) {
    let mut next_id: u64 = 0;
    let mut log: Vec<UiEvent> = Vec::new();
    let entity = spawn_as_child(node, ctx, &mut next_id, &mut log);
    (entity, log)
}

fn background_color_of(entity: &EntityNode) -> Option<Rgba> {
    let mut found = None;
    for item in &entity.data {
        if let DataItem::BackgroundColor(c) = item {
            found = Some(*c);
        }
    }
    found
}

fn themed_of(entity: &EntityNode) -> Option<UiContext> {
    let mut found = None;
    for item in &entity.data {
        if let DataItem::Themed(c) = item {
            found = Some(*c);
        }
    }
    found
}

fn themed_count(entity: &EntityNode) -> usize {
    entity
        .data
        .iter()
        .filter(|d| matches!(d, DataItem::Themed(_)))
        .count()
}

#[test]
fn delegation_keeps_inner_size_under_a_border() {
    // The border-wrapped tree must still show the content's width/height.
    let ctx = UiContext::from_font(1);
    let plain = UiNode::sized(Val::Px(30), Val::Px(40), UiNode::Empty);
    let wrapped = UiNode::border_all(UiNode::sized(Val::Px(30), Val::Px(40), UiNode::Empty));
    let (plain_entity, _) = materialize(&plain, &ctx);
    let (wrapped_entity, _) = materialize(&wrapped, &ctx);
    let plain_style = plain_entity.style.unwrap();
    let wrapped_style = wrapped_entity.style.unwrap();
    assert_eq!(plain_style.width, Val::Px(30));
    assert_eq!(plain_style.height, Val::Px(40));
    assert_eq!(wrapped_style.width, plain_style.width);
    assert_eq!(wrapped_style.height, plain_style.height);
    // and the border writes its own field without dropping anything else
    assert_eq!(wrapped_style.border, Edges::all(Val::Px(2)));
    assert_eq!(plain_style.border, Edges::all(Val::Px(0)));
}

#[test]
fn outer_wins_for_nested_size_wrappers() {
    let ctx = UiContext::from_font(1);
    let node = UiNode::sized(
        Val::Px(10),
        Val::Px(10),
        UiNode::sized(Val::Px(20), Val::Px(20), UiNode::Empty),
    );
    let (entity, _) = materialize(&node, &ctx);
    let style = entity.style.unwrap();
    assert_eq!(style.width, Val::Px(10));
    assert_eq!(style.height, Val::Px(10));
}

#[test]
fn scale_multiplies_the_delegated_size() {
    let ctx = UiContext::from_font(1);
    let node = UiNode::scaled(
        150,
        50,
        UiNode::sized(Val::Px(10), Val::Px(10), UiNode::Empty),
    );
    let (entity, _) = materialize(&node, &ctx);
    let style = entity.style.unwrap();
    assert_eq!(style.width, Val::Px(15));
    assert_eq!(style.height, Val::Px(5));
}

#[test]
fn themed_marker_reflects_the_innermost_fork() {
    let ctx = UiContext::from_font(1);
    let red = Rgba::new(255, 0, 0, 255);
    let green = Rgba::new(0, 255, 0, 255);
    let outer = ThemeOverrides::none().with_background_color(Some(red));
    let inner = ThemeOverrides::none().with_text_size(Some(44));
    let node = UiNode::theme(
        outer,
        true,
        UiNode::theme(inner, true, UiNode::Empty),
    );
    let (entity, _) = materialize(&node, &ctx);
    let effective = themed_of(&entity).expect("a themed marker must exist");
    // innermost fork: text size from the inner override, background from the outer
    assert_eq!(effective.text_size, 44);
    assert_eq!(effective.background_color, red);
    assert_eq!(effective.text_color, ctx.text_color);
    let _ = green;
}

#[test]
fn themed_marker_attached_exactly_once_without_themes() {
    let ctx = UiContext::from_font(1);
    let node = UiNode::border_all(UiNode::background(UiNode::Empty));
    let (entity, _) = materialize(&node, &ctx);
    assert_eq!(themed_count(&entity), 1);
    assert_eq!(themed_of(&entity), Some(ctx));
}

#[test]
fn init_fires_after_every_descendant() {
    // A three-level tree: the initialized notifications must come out in
    // strict post-order, each subtree complete before its root fires.
    let ctx = UiContext::from_font(1);
    let node = UiNode::column(vec![UiNode::column(vec![UiNode::text(
        String::from("leaf"),
        TextSizing::Small,
    )])]);
    let (entity, log) = materialize(&node, &ctx);
    assert_eq!(entity.id, 0);
    assert_eq!(entity.children.len(), 1);
    assert_eq!(entity.children[0].id, 1);
    assert_eq!(entity.children[0].children[0].id, 2);
    assert_eq!(
        log,
        vec![
            UiEvent::Init { entity: 2 },
            UiEvent::Init { entity: 1 },
            UiEvent::Init { entity: 0 },
        ]
    );
}

#[test]
fn basic_composition_scenario() {
    // Padded over background over a text child, against a context with a
    // blue background, green text, font 7 and text size 12.
    let blue = Rgba::new(0, 0, 255, 255);
    let green = Rgba::new(0, 255, 0, 255);
    let mut ctx = UiContext::from_font(7);
    ctx.background_color = blue;
    ctx.text_color = green;
    ctx.text_size = 12;
    let node = UiNode::padded(
        Edges::all(Val::Px(4)),
        UiNode::background(UiNode::child(UiNode::text(
            String::from("Hi"),
            TextSizing::Small,
        ))),
    );
    let (entity, _) = materialize(&node, &ctx);
    let style = entity.style.unwrap();
    assert_eq!(style.padding, Edges::all(Val::Px(4)));
    assert_eq!(background_color_of(&entity), Some(blue));
    assert_eq!(entity.children.len(), 1);
    let text_entity = &entity.children[0];
    assert!(text_entity.children.is_empty());
    let text_item = text_entity
        .data
        .iter()
        .find_map(|d| match d {
            DataItem::TextData { text, font, size, color } => {
                Some((text.clone(), *font, *size, *color))
            }
            _ => None,
        })
        .expect("the child must carry the text");
    assert_eq!(text_item, (String::from("Hi"), 7, 12, green));
}

#[test]
fn theme_propagation_recolors_children() {
    let ctx = UiContext::from_font(1);
    let red = Rgba::new(255, 0, 0, 255);
    let overrides = ThemeOverrides::none().with_background_color(Some(red));
    let column = UiNode::column(vec![
        UiNode::background(UiNode::Empty),
        UiNode::background(UiNode::Empty),
    ]);
    let node = UiNode::theme(overrides, true, column);
    let (entity, _) = materialize(&node, &ctx);
    assert_eq!(entity.children.len(), 2);
    assert_eq!(background_color_of(&entity.children[0]), Some(red));
    assert_eq!(background_color_of(&entity.children[1]), Some(red));
}

#[test]
fn theme_without_propagation_leaves_children_alone() {
    let ctx = UiContext::from_font(1);
    let red = Rgba::new(255, 0, 0, 255);
    let overrides = ThemeOverrides::none().with_background_color(Some(red));
    let column = UiNode::column(vec![
        UiNode::background(UiNode::Empty),
        UiNode::background(UiNode::Empty),
    ]);
    let node = UiNode::theme(overrides, false, column);
    let (entity, _) = materialize(&node, &ctx);
    assert_eq!(entity.children.len(), 2);
    assert_eq!(
        background_color_of(&entity.children[0]),
        Some(ctx.background_color)
    );
    assert_eq!(
        background_color_of(&entity.children[1]),
        Some(ctx.background_color)
    );
}

#[test]
fn placeholder_materializes_to_a_marked_leaf() {
    let ctx = UiContext::from_font(1);
    let node = UiNode::Placeholder(Placeholder::new(String::from("slot")));
    let (entity, log) = materialize(&node, &ctx);
    assert!(entity.children.is_empty());
    let tag = entity
        .data
        .iter()
        .find_map(|d| match d {
            DataItem::PlaceholderTag(t) => Some(t.0.clone()),
            _ => None,
        })
        .expect("the placeholder marker must exist");
    assert_eq!(tag, "slot");
    assert_eq!(
        log,
        vec![
            UiEvent::PlaceholderCreated { entity: 0, name: String::from("slot") },
            UiEvent::Init { entity: 0 },
        ]
    );
}

#[test]
fn empty_leaf_is_a_pure_spacer() {
    let ctx = UiContext::from_font(1);
    let node = UiNode::empty_sized(Val::Px(5), Val::Px(6));
    let (entity, _) = materialize(&node, &ctx);
    assert_eq!(entity.data.len(), 2);
    assert!(matches!(entity.data[0], DataItem::ComputedSize { .. }));
    assert!(matches!(entity.data[1], DataItem::Themed(_)));
    assert!(entity.behaviors.is_empty());
    assert!(entity.children.is_empty());
}

#[test]
fn style_defaults_are_flex_relative_row() {
    let ctx = UiContext::from_font(1);
    let (entity, _) = materialize(&UiNode::Empty, &ctx);
    let style = entity.style.unwrap();
    assert_eq!(style, NodeStyle::base());
    assert_eq!(style.display, LayoutMode::Flex);
    assert_eq!(style.position, PositionKind::Relative);
}

#[test]
fn centered_writes_both_axes() {
    let ctx = UiContext::from_font(1);
    let (entity, _) = materialize(&UiNode::centered(UiNode::Empty), &ctx);
    let style = entity.style.unwrap();
    assert_eq!(style.align_items, AlignItems::Center);
    assert_eq!(style.justify_content, JustifyContent::Center);
}

#[test]
fn ids_are_handed_out_in_spawn_order() {
    let ctx = UiContext::from_font(1);
    let node = UiNode::pair(
        UiNode::column(vec![UiNode::Empty]),
        UiNode::Empty,
    );
    let mut next_id: u64 = 10;
    let mut log = Vec::new();
    let entity = spawn_as_child(&node, &ctx, &mut next_id, &mut log);
    assert_eq!(entity.id, 10);
    assert_eq!(entity.children[0].id, 11);
    assert_eq!(entity.children[0].children[0].id, 12);
    assert_eq!(entity.children[1].id, 13);
    assert_eq!(next_id, 14);
}

#[test]
fn insert_into_existing_keeps_existing_components() {
    let ctx = UiContext::from_font(1);
    let keep = Rgba::new(9, 9, 9, 9);
    let mut entity = EntityNode {
        id: 100,
        style: None,
        data: vec![DataItem::BackgroundColor(keep)],
        behaviors: Vec::new(),
        children: Vec::new(),
    };
    let node = UiNode::sized(
        Val::Px(50),
        Val::Px(50),
        UiNode::background(UiNode::child(UiNode::Empty)),
    );
    let mut next_id: u64 = 200;
    let mut log = Vec::new();
    insert_into_existing(&mut entity, &node, &ctx, &mut next_id, &mut log);
    // the existing background wins; the contributed one is dropped
    assert_eq!(background_color_of(&entity), Some(keep));
    // absent kinds are inserted
    assert!(entity.data.iter().any(|d| matches!(d, DataItem::ComputedSize { .. })));
    assert_eq!(themed_count(&entity), 1);
    // the style record was absent, so the contribution's record is attached
    assert_eq!(entity.style.unwrap().width, Val::Px(50));
    // children appended under fresh ids, init fired against the existing id
    assert_eq!(entity.children.len(), 1);
    assert_eq!(entity.children[0].id, 200);
    assert_eq!(next_id, 201);
    assert_eq!(log.last(), Some(&UiEvent::Init { entity: 100 }));
}

#[test]
fn insert_into_existing_keeps_existing_style() {
    let ctx = UiContext::from_font(1);
    let mut style = NodeStyle::base();
    style.width = Val::Px(1);
    let mut entity = EntityNode {
        id: 0,
        style: Some(style),
        data: Vec::new(),
        behaviors: Vec::new(),
        children: Vec::new(),
    };
    let node = UiNode::sized(Val::Px(50), Val::Px(50), UiNode::Empty);
    let mut next_id: u64 = 1;
    let mut log = Vec::new();
    insert_into_existing(&mut entity, &node, &ctx, &mut next_id, &mut log);
    assert_eq!(entity.style.unwrap().width, Val::Px(1));
}

#[test]
fn text_sizes_follow_the_context_scalars() {
    let mut ctx = UiContext::from_font(1);
    ctx.text_size = 11;
    ctx.text_size_big = 30;
    let size_of = |sizing: TextSizing, ctx: &UiContext| {
        let node = UiNode::Text(Text { text: String::from("x"), sizing });
        let (entity, _) = materialize(&node, ctx);
        entity
            .data
            .iter()
            .find_map(|d| match d {
                DataItem::TextData { size, .. } => Some(*size),
                _ => None,
            })
            .unwrap()
    };
    assert_eq!(size_of(TextSizing::Small, &ctx), 11);
    assert_eq!(size_of(TextSizing::Big, &ctx), 30);
    assert_eq!(size_of(TextSizing::Huge, &ctx), 60);
    ctx.text_size_big = u32::MAX - 1;
    assert_eq!(size_of(TextSizing::Huge, &ctx), u32::MAX); // saturated
}
