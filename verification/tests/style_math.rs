use menu_ui::context::UiContext;
use menu_ui::style::{scale_scalar, scale_val, Edges, NodeStyle, Val};
use menu_ui::widgets::{
    apply_computed_size, checkbox_mark_color, hover_background, reset_scale,
    thumb_offset_permille, update_computed_size,
};
use menu_ui::Rgba;

#[test]
fn scale_scalar_exact_values() {
    assert_eq!(scale_scalar(10, 150), 15);
    assert_eq!(scale_scalar(10, 100), 10);
    assert_eq!(scale_scalar(10, 0), 0);
    assert_eq!(scale_scalar(5, 50), 2); // truncated toward zero
    assert_eq!(scale_scalar(-10, 150), -15);
    assert_eq!(scale_scalar(-5, 50), -2); // truncated toward zero
}

#[test]
fn scale_scalar_saturates() {
    assert_eq!(scale_scalar(i64::MAX, 200), i64::MAX);
    assert_eq!(scale_scalar(i64::MIN, 200), i64::MIN);
    assert_eq!(scale_scalar(i64::MAX, 100), i64::MAX);
}

#[test]
fn scale_val_keeps_auto() {
    assert_eq!(scale_val(Val::Auto, 250), Val::Auto);
    assert_eq!(scale_val(Val::Px(4), 250), Val::Px(10));
    assert_eq!(scale_val(Val::Percent(50), 200), Val::Percent(100));
}

#[test]
fn thumb_offset_maps_the_range_affinely() {
    assert_eq!(thumb_offset_permille(5, 0, 10), 500);
    assert_eq!(thumb_offset_permille(0, 0, 10), 0);
    assert_eq!(thumb_offset_permille(10, 0, 10), 1000);
    assert_eq!(thumb_offset_permille(1, 0, 3), 333); // truncated
}

#[test]
fn thumb_offset_clamps_onto_the_track() {
    assert_eq!(thumb_offset_permille(-5, 0, 10), 0);
    assert_eq!(thumb_offset_permille(25, 0, 10), 1000);
}

#[test]
fn thumb_offset_pins_an_empty_range_to_the_midpoint() {
    assert_eq!(thumb_offset_permille(7, 3, 3), 500);
    assert_eq!(thumb_offset_permille(7, 9, 3), 500);
}

#[test]
fn checkbox_mark_color_follows_checked_state() {
    let ctx = UiContext::from_font(1);
    assert_eq!(checkbox_mark_color(true, &ctx), ctx.highlight_color);
    assert_eq!(checkbox_mark_color(false, &ctx), ctx.foreground_color);
}

#[test]
fn hover_background_follows_pointer_state() {
    let bg = Rgba::new(0, 0, 50, 255);
    let hov = Rgba::new(50, 50, 50, 255);
    assert_eq!(hover_background(true, bg, hov), hov);
    assert_eq!(hover_background(false, bg, hov), bg);
}

#[test]
fn reset_scale_returns_to_the_materialized_factors() {
    assert_eq!(reset_scale(150, 75), (150, 75));
}

#[test]
fn computed_size_rescales_the_original() {
    let (w, h) = update_computed_size(Val::Px(10), Val::Percent(40), 150, 50);
    assert_eq!(w, Val::Px(15));
    assert_eq!(h, Val::Percent(20));
}

#[test]
fn apply_computed_size_writes_only_the_size() {
    let mut style = NodeStyle::base();
    style.padding = Edges::all(Val::Px(3));
    let before = style;
    apply_computed_size(&mut style, Val::Px(7), Val::Px(9));
    assert_eq!(style.width, Val::Px(7));
    assert_eq!(style.height, Val::Px(9));
    assert_eq!(style.padding, before.padding);
    assert_eq!(style.display, before.display);
}
