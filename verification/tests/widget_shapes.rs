use menu_ui::context::UiContext;
use menu_ui::data::{Behavior, DataItem, UiEvent};
use menu_ui::materialize::{spawn_as_child, EntityNode};
use menu_ui::node::UiNode;
use menu_ui::style::{AlignItems, JustifyContent, Val};
use menu_ui::widgets::{button_with_text, checkbox_default, slider_default, thumb_default};
use menu_ui::Rgba;

fn materialize(node: &UiNode, ctx: &UiContext) -> (EntityNode, Vec<UiEvent>) {
    let mut next_id: u64 = 0;
    let mut log: Vec<UiEvent> = Vec::new();
    let entity = spawn_as_child(node, ctx, &mut next_id, &mut log);
    (entity, log)
}

#[test]
fn button_with_text_materializes_to_role_plus_label_child() {
    let ctx = UiContext::from_font(3);
    let node = button_with_text(String::from("Go"), Val::Px(80), Val::Px(20), 77);
    let (entity, _) = materialize(&node, &ctx);
    let style = entity.style.unwrap();
    assert_eq!(style.width, Val::Px(80));
    assert_eq!(style.height, Val::Px(20));
    assert_eq!(style.align_items, AlignItems::Center);
    assert_eq!(style.justify_content, JustifyContent::Center);
    assert!(entity.data.iter().any(|d| matches!(d, DataItem::ButtonMarker)));
    // hover restyler first, then the click handler, in registration order
    assert_eq!(
        entity.behaviors,
        vec![
            Behavior::HoverStyle {
                background: ctx.background_color,
                hover: ctx.hover_color,
            },
            Behavior::Register { handler: 77 },
        ]
    );
    // the label is a child entity carrying the big text
    assert_eq!(entity.children.len(), 1);
    let label = &entity.children[0];
    let text = label
        .data
        .iter()
        .find_map(|d| match d {
            DataItem::TextData { text, size, .. } => Some((text.clone(), *size)),
            _ => None,
        })
        .unwrap();
    assert_eq!(text, (String::from("Go"), ctx.text_size_big));
}

#[test]
fn checkbox_default_builds_the_mark_path() {
    // The restyle pass walks checkbox -> first child (the bordered box) ->
    // first child (the mark); the default visual must honor that path.
    let ctx = UiContext::from_font(1);
    let node = checkbox_default(5);
    let (entity, _) = materialize(&node, &ctx);
    assert!(entity.data.iter().any(|d| matches!(d, DataItem::CheckboxMarker)));
    assert_eq!(
        entity.behaviors,
        vec![Behavior::Register { handler: 5 }, Behavior::CheckboxSelfUpdate]
    );
    assert_eq!(entity.children.len(), 1);
    let boxed = &entity.children[0];
    assert!(boxed.data.iter().any(|d| matches!(d, DataItem::BorderColor(_))));
    assert_eq!(boxed.style.unwrap().width, Val::Px(16));
    assert_eq!(boxed.children.len(), 1);
    let mark = &boxed.children[0];
    assert!(mark.data.iter().any(|d| matches!(d, DataItem::BackgroundColor(_))));
    assert_eq!(mark.style.unwrap().width, Val::Px(8));
}

#[test]
fn slider_default_builds_track_and_thumb() {
    let ctx = UiContext::from_font(1);
    let node = slider_default(9, 0, 100, 25);
    let (entity, _) = materialize(&node, &ctx);
    assert_eq!(
        entity.behaviors,
        vec![Behavior::Register { handler: 9 }, Behavior::SliderSelfUpdate]
    );
    let slider_data: Vec<&DataItem> = entity
        .data
        .iter()
        .filter(|d| {
            matches!(
                d,
                DataItem::SliderMarker | DataItem::SliderValue(_) | DataItem::SliderRange { .. }
            )
        })
        .collect();
    assert_eq!(
        slider_data,
        vec![
            &DataItem::SliderMarker,
            &DataItem::SliderValue(25),
            &DataItem::SliderRange { min: 0, max: 100 },
        ]
    );
    // two children: the track, then the carrier holding the thumb
    assert_eq!(entity.children.len(), 2);
    let track = &entity.children[0];
    assert!(track.data.iter().any(|d| matches!(d, DataItem::BorderColor(_))));
    let carrier = &entity.children[1];
    let thumb = &carrier.children[0];
    assert!(thumb.data.iter().any(|d| matches!(d, DataItem::SliderThumbMarker)));
}

#[test]
fn thumb_default_theme_is_white_and_does_not_propagate() {
    let ctx = UiContext::from_font(1);
    let node = thumb_default();
    let (entity, _) = materialize(&node, &ctx);
    // the thumb's own visual is themed white via the non-propagating fork
    let white = Rgba::new(255, 255, 255, 255);
    let bg = entity
        .data
        .iter()
        .find_map(|d| match d {
            DataItem::BackgroundColor(c) => Some(*c),
            _ => None,
        })
        .unwrap();
    assert_eq!(bg, white);
}

#[test]
fn observer_registrations_keep_insertion_order() {
    // content's registrations first, the outer wrapper's after
    let ctx = UiContext::from_font(1);
    let node = UiNode::on_event(1, UiNode::hover(2, UiNode::Empty));
    let (entity, _) = materialize(&node, &ctx);
    assert_eq!(
        entity.behaviors,
        vec![Behavior::Register { handler: 2 }, Behavior::Register { handler: 1 }]
    );
}

#[test]
fn hover_registers_after_its_content() {
    let ctx = UiContext::from_font(1);
    let node = UiNode::hover(2, UiNode::on_event(1, UiNode::Empty));
    let (entity, _) = materialize(&node, &ctx);
    assert_eq!(
        entity.behaviors,
        vec![Behavior::Register { handler: 1 }, Behavior::Register { handler: 2 }]
    );
}

#[test]
fn checkbox_registers_after_its_content() {
    let ctx = UiContext::from_font(1);
    let node = UiNode::checkbox(5, UiNode::on_event(1, UiNode::Empty));
    let (entity, _) = materialize(&node, &ctx);
    assert_eq!(
        entity.behaviors,
        vec![
            Behavior::Register { handler: 1 },
            Behavior::Register { handler: 5 },
            Behavior::CheckboxSelfUpdate,
        ]
    );
}

#[test]
fn slider_registers_after_its_content() {
    let ctx = UiContext::from_font(1);
    let node = UiNode::slider(9, 0, 10, 5, UiNode::on_event(1, UiNode::Empty));
    let (entity, _) = materialize(&node, &ctx);
    assert_eq!(
        entity.behaviors,
        vec![
            Behavior::Register { handler: 1 },
            Behavior::Register { handler: 9 },
            Behavior::SliderSelfUpdate,
        ]
    );
}

#[test]
fn animator_binds_targets_to_its_own_entity() {
    let ctx = UiContext::from_font(1);
    let node = UiNode::animator(
        40,
        UiNode::child(UiNode::animated(
            String::from("pulse"),
            vec![71, 72],
            UiNode::Empty,
        )),
    );
    let (entity, _) = materialize(&node, &ctx);
    assert!(entity.data.iter().any(|d| matches!(d, DataItem::AnimationPlayer)));
    assert!(entity.data.iter().any(|d| matches!(d, DataItem::AnimationGraph(40))));
    assert_eq!(entity.behaviors, vec![Behavior::GraphInit]);
    let target = &entity.children[0];
    let bound = target
        .data
        .iter()
        .find_map(|d| match d {
            DataItem::AnimationTarget { target, player } => Some((target.clone(), *player)),
            _ => None,
        })
        .unwrap();
    assert_eq!(bound, (String::from("pulse"), entity.id));
    assert_eq!(
        target.behaviors,
        vec![
            Behavior::AnimationClipSetup { name: String::from("pulse"), player: entity.id },
            Behavior::TransitionCurve(71),
            Behavior::TransitionCurve(72),
        ]
    );
}
