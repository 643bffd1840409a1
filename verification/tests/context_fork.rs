use menu_ui::context::{ThemeOverrides, UiContext};
use menu_ui::style::{Corners, Edges, Val};
use menu_ui::Rgba;

#[test]
fn default_context_from_font() {
    let ctx = UiContext::from_font(42);
    assert_eq!(ctx.font, 42);
    assert_eq!(ctx.text_size, 12);
    assert_eq!(ctx.text_size_big, 34);
    assert_eq!(ctx.border_thickness, Edges::all(Val::Px(2)));
    assert_eq!(ctx.border_radius, Corners::round());
    assert_eq!(ctx.highlight_color, Rgba::new(255, 0, 0, 255));
    assert_eq!(ctx.image_color, Rgba::new(255, 255, 255, 255));
    assert_eq!(ctx.current_animator, None);
}

#[test]
fn fork_applies_overrides_and_keeps_the_rest() {
    let parent = UiContext::from_font(1);
    let red = Rgba::new(255, 0, 0, 255);
    let overrides = ThemeOverrides::none()
        .with_background_color(Some(red))
        .with_text_size(Some(20));
    let fork = overrides.create_context(&parent);
    assert_eq!(fork.background_color, red);
    assert_eq!(fork.text_size, 20);
    assert_eq!(fork.font, parent.font);
    assert_eq!(fork.text_color, parent.text_color);
    assert_eq!(fork.hover_color, parent.hover_color);
    assert_eq!(fork.current_animator, parent.current_animator);
}

#[test]
fn fork_with_no_overrides_copies_parent() {
    let parent = UiContext::from_font(9).with_animator(Some(3));
    let fork = ThemeOverrides::none().create_context(&parent);
    assert_eq!(fork, parent);
}

#[test]
fn mutating_a_fork_never_touches_the_parent() {
    let parent = UiContext::from_font(5);
    let snapshot = parent;
    let mut fork = ThemeOverrides::none().create_context(&parent);
    fork.background_color = Rgba::new(1, 2, 3, 4);
    fork.text_size = 99;
    fork.font = 77;
    assert_eq!(parent, snapshot);
}

#[test]
fn sibling_forks_are_independent() {
    let parent = UiContext::from_font(5);
    let a = ThemeOverrides::none()
        .with_background_color(Some(Rgba::new(10, 0, 0, 255)))
        .create_context(&parent);
    let b = ThemeOverrides::none()
        .with_text_size(Some(50))
        .create_context(&parent);
    assert_eq!(a.text_size, parent.text_size);
    assert_eq!(b.background_color, parent.background_color);
    assert_eq!(a.background_color, Rgba::new(10, 0, 0, 255));
    assert_eq!(b.text_size, 50);
}

#[test]
fn with_animator_replaces_only_the_transient_field() {
    let ctx = UiContext::from_font(2);
    let with = ctx.with_animator(Some(8));
    assert_eq!(with.current_animator, Some(8));
    assert_eq!(with.font, ctx.font);
    assert_eq!(with.background_color, ctx.background_color);
    let without = with.with_animator(None);
    assert_eq!(without.current_animator, None);
}
