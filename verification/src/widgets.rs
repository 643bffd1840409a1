use vstd::prelude::*;

use crate::context::{ThemeOverrides, UiContext};
use crate::node::{HandlerId, Text, TextSizing, UiNode};
use crate::style::{scale_val_spec, scale_val, NodeStyle, Val};
use crate::Rgba;

verus! {

// ---------------------------------------------------------------------------
// Composite widgets, assembled purely from the catalog.
// ---------------------------------------------------------------------------

/// A button with centered text of the given footprint: an explicitly sized,
/// centering node over a button role whose child subtree is the label.
pub open spec fn button_with_text_spec(
    text: String,
    width: Val,
    height: Val,
    on_click: HandlerId,
) -> UiNode {
    UiNode::Sized {
        width,
        height,
        content: Box::new(
            UiNode::Centered {
                content: Box::new(
                    UiNode::Button {
                        handler: on_click,
                        content: Box::new(
                            UiNode::Text(Text { text, sizing: TextSizing::Big }),
                        ),
                    },
                ),
            },
        ),
    }
}

pub fn button_with_text(text: String, width: Val, height: Val, on_click: HandlerId) -> (n: UiNode)
    ensures
        n == button_with_text_spec(text, width, height, on_click),
{
    UiNode::Sized {
        width,
        height,
        content: Box::new(
            UiNode::Centered {
                content: Box::new(
                    UiNode::Button {
                        handler: on_click,
                        content: Box::new(UiNode::Text(Text { text, sizing: TextSizing::Big })),
                    },
                ),
            },
        ),
    }
}

/// The default checkbox visual: a centering node with the checkbox role,
/// whose child is a bordered 16-by-16 box, whose own child is the 8-by-8
/// mark that the per-tick restyle pass recolors by checked state.
pub open spec fn checkbox_default_spec(on_change: HandlerId) -> UiNode {
    UiNode::Checkbox {
        handler: on_change,
        content: Box::new(
            UiNode::Child {
                content: Box::new(
                    UiNode::Centered {
                        content: Box::new(
                            UiNode::Border {
                                top: true,
                                bottom: true,
                                left: true,
                                right: true,
                                content: Box::new(
                                    UiNode::Sized {
                                        width: Val::Px(16),
                                        height: Val::Px(16),
                                        content: Box::new(
                                            UiNode::Child {
                                                content: Box::new(
                                                    UiNode::Background {
                                                        content: Box::new(
                                                            UiNode::Background {
                                                                content: Box::new(
                                                                    UiNode::Centered {
                                                                        content: Box::new(
                                                                            UiNode::Sized {
                                                                                width: Val::Px(8),
                                                                                height: Val::Px(8),
                                                                                content: Box::new(
                                                                                    UiNode::Empty,
                                                                                ),
                                                                            },
                                                                        ),
                                                                    },
                                                                ),
                                                            },
                                                        ),
                                                    },
                                                ),
                                            },
                                        ),
                                    },
                                ),
                            },
                        ),
                    },
                ),
            },
        ),
    }
}

pub fn checkbox_default(on_change: HandlerId) -> (n: UiNode)
    ensures
        n == checkbox_default_spec(on_change),
{
    let mark = UiNode::Sized {
        width: Val::Px(8),
        height: Val::Px(8),
        content: Box::new(UiNode::Empty),
    };
    let mark_entity = UiNode::Child {
        content: Box::new(
            UiNode::Background {
                content: Box::new(
                    UiNode::Background {
                        content: Box::new(UiNode::Centered { content: Box::new(mark) }),
                    },
                ),
            },
        ),
    };
    let bordered = UiNode::Border {
        top: true,
        bottom: true,
        left: true,
        right: true,
        content: Box::new(
            UiNode::Sized {
                width: Val::Px(16),
                height: Val::Px(16),
                content: Box::new(mark_entity),
            },
        ),
    };
    UiNode::Checkbox {
        handler: on_change,
        content: Box::new(
            UiNode::Child {
                content: Box::new(UiNode::Centered { content: Box::new(bordered) }),
            },
        ),
    }
}

/// The default slider thumb: a thumb role over a non-propagating white
/// theming boundary around an absolutely positioned, bordered 12-by-12
/// box.
pub open spec fn thumb_default_spec() -> UiNode {
    UiNode::Thumb {
        content: Box::new(
            UiNode::Theme {
                overrides: thumb_overrides_spec(),
                propagate: false,
                content: Box::new(
                    UiNode::Absolute {
                        content: Box::new(
                            UiNode::Positioned {
                                left: Val::Percent(0),
                                right: Val::Auto,
                                top: Val::Auto,
                                bottom: Val::Auto,
                                content: Box::new(
                                    UiNode::Border {
                                        top: true,
                                        bottom: true,
                                        left: true,
                                        right: true,
                                        content: Box::new(
                                            UiNode::Background {
                                                content: Box::new(
                                                    UiNode::Sized {
                                                        width: Val::Px(12),
                                                        height: Val::Px(12),
                                                        content: Box::new(UiNode::Empty),
                                                    },
                                                ),
                                            },
                                        ),
                                    },
                                ),
                            },
                        ),
                    },
                ),
            },
        ),
    }
}

/// The one override the default thumb applies: a white background.
pub open spec fn thumb_overrides_spec() -> ThemeOverrides {
    ThemeOverrides {
        background_color: Some(Rgba { red: 255, green: 255, blue: 255, alpha: 255 }),
        ..ThemeOverrides::none_spec()
    }
}

pub fn thumb_default() -> (n: UiNode)
    ensures
        n == thumb_default_spec(),
{
    let overrides = ThemeOverrides::none().with_background_color(
        Some(Rgba::new(255, 255, 255, 255)),
    );
    let box12 = UiNode::Sized {
        width: Val::Px(12),
        height: Val::Px(12),
        content: Box::new(UiNode::Empty),
    };
    let visual = UiNode::Border {
        top: true,
        bottom: true,
        left: true,
        right: true,
        content: Box::new(UiNode::Background { content: Box::new(box12) }),
    };
    UiNode::Thumb {
        content: Box::new(
            UiNode::Theme {
                overrides,
                propagate: false,
                content: Box::new(
                    UiNode::Absolute {
                        content: Box::new(
                            UiNode::Positioned {
                                left: Val::Percent(0),
                                right: Val::Auto,
                                top: Val::Auto,
                                bottom: Val::Auto,
                                content: Box::new(visual),
                            },
                        ),
                    },
                ),
            },
        ),
    }
}

/// The default slider visual: the slider role over a centering node with
/// two child subtrees — the bordered track, and an absolutely positioned
/// carrier holding the draggable thumb.
pub open spec fn slider_default_spec(
    on_value_changed: HandlerId,
    min: i64,
    max: i64,
    value: i64,
) -> UiNode {
    UiNode::Slider {
        handler: on_value_changed,
        min,
        max,
        value,
        content: Box::new(
            UiNode::Centered {
                content: Box::new(
                    UiNode::Pair {
                        first: Box::new(
                            UiNode::Border {
                                top: true,
                                bottom: true,
                                left: true,
                                right: true,
                                content: Box::new(
                                    UiNode::Background { content: Box::new(UiNode::Empty) },
                                ),
                            },
                        ),
                        second: Box::new(
                            UiNode::Absolute {
                                content: Box::new(
                                    UiNode::Positioned {
                                        left: Val::Px(0),
                                        right: Val::Px(12),
                                        top: Val::Auto,
                                        bottom: Val::Auto,
                                        content: Box::new(
                                            UiNode::Centered {
                                                content: Box::new(
                                                    UiNode::Child {
                                                        content: Box::new(thumb_default_spec()),
                                                    },
                                                ),
                                            },
                                        ),
                                    },
                                ),
                            },
                        ),
                    },
                ),
            },
        ),
    }
}

pub fn slider_default(on_value_changed: HandlerId, min: i64, max: i64, value: i64) -> (n: UiNode)
    ensures
        n == slider_default_spec(on_value_changed, min, max, value),
{
    let track = UiNode::Border {
        top: true,
        bottom: true,
        left: true,
        right: true,
        content: Box::new(UiNode::Background { content: Box::new(UiNode::Empty) }),
    };
    let thumb = UiNode::Child { content: Box::new(thumb_default()) };
    let carrier = UiNode::Absolute {
        content: Box::new(
            UiNode::Positioned {
                left: Val::Px(0),
                right: Val::Px(12),
                top: Val::Auto,
                bottom: Val::Auto,
                content: Box::new(UiNode::Centered { content: Box::new(thumb) }),
            },
        ),
    };
    UiNode::Slider {
        handler: on_value_changed,
        min,
        max,
        value,
        content: Box::new(
            UiNode::Centered {
                content: Box::new(UiNode::Pair { first: Box::new(track), second: Box::new(carrier) }),
            },
        ),
    }
}

/// The default root tree: a centering node over a fully expanded, empty
/// column.
pub fn default_root() -> (n: UiNode)
    ensures
        n matches UiNode::Centered { content: c1 } && *c1 matches UiNode::Sized {
            width: Val::Percent(100),
            height: Val::Percent(100),
            content: c2,
        } && *c2 matches UiNode::Column { elements } && elements@ == Seq::<UiNode>::empty(),
{
    UiNode::Centered {
        content: Box::new(
            UiNode::Sized {
                width: Val::Percent(100),
                height: Val::Percent(100),
                content: Box::new(UiNode::Column { elements: Vec::new() }),
            },
        ),
    }
}

// ---------------------------------------------------------------------------
// The per-tick restyle passes: the derived visual values they push.
// ---------------------------------------------------------------------------

/// The mark color a checkbox's restyle pass pushes onto the mark entity:
/// the highlight color while checked, the foreground color while not.
pub fn checkbox_mark_color(checked: bool, ctx: &UiContext) -> (c: Rgba)
    ensures
        c == if checked {
            ctx.highlight_color
        } else {
            ctx.foreground_color
        },
{
    if checked {
        ctx.highlight_color
    } else {
        ctx.foreground_color
    }
}

/// The background a hover reaction pushes: the hover color while the
/// pointer is over the entity, the ordinary background while it is not.
pub fn hover_background(hovered: bool, background: Rgba, hover: Rgba) -> (c: Rgba)
    ensures
        c == if hovered {
            hover
        } else {
            background
        },
{
    if hovered {
        hover
    } else {
        background
    }
}

/// Where along the track the slider's restyle pass puts the thumb, in
/// thousandths of the track: the value mapped affinely onto zero to one
/// thousand, and — because the result is an offset along the track —
/// clamped into that range; an empty range pins the thumb to the
/// midpoint.
pub open spec fn thumb_offset_spec(value: int, min: int, max: int) -> int {
    if min < max {
        let c = if value < min {
            min
        } else if value > max {
            max
        } else {
            value
        };
        (c - min) * 1000 / (max - min)
    } else {
        500
    }
}

pub fn thumb_offset_permille(value: i64, min: i64, max: i64) -> (r: u32)
    ensures
        r as int == thumb_offset_spec(value as int, min as int, max as int),
        r <= 1000,
{
    if min < max {
        let c: i64 = if value < min {
            min
        } else if value > max {
            max
        } else {
            value
        };
        let num: i128 = (c as i128 - min as i128) * 1000;
        let span: i128 = max as i128 - min as i128;
        let q: i128 = num / span;
        proof {
            assert((c as i128 - min as i128) * 1000 <= (max as i128 - min as i128) * 1000)
                by (nonlinear_arith)
                requires
                    c as i128 - min as i128 <= max as i128 - min as i128,
            ;
            assert(q <= 1000) by (nonlinear_arith)
                requires
                    span > 0,
                    num >= 0,
                    num <= span * 1000,
                    q == num / span,
            ;
            assert(q >= 0) by (nonlinear_arith)
                requires
                    span > 0,
                    num >= 0,
                    q == num / span,
            ;
        }
        q as u32
    } else {
        500
    }
}

/// The size the scaling pass recomputes for an entity whose requested size
/// and scale factor are on record: the original lengths scaled by the
/// factors, in hundredths.
pub fn update_computed_size(
    original_width: Val,
    original_height: Val,
    scale_x: u32,
    scale_y: u32,
) -> (r: (Val, Val))
    ensures
        r.0 == scale_val_spec(original_width, scale_x as int),
        r.1 == scale_val_spec(original_height, scale_y as int),
{
    (scale_val(original_width, scale_x), scale_val(original_height, scale_y))
}

/// The scale an entity returns to when its scaling is reset: the factors
/// it was materialized with.
pub fn reset_scale(original_x: u32, original_y: u32) -> (r: (u32, u32))
    ensures
        r == (original_x, original_y),
{
    (original_x, original_y)
}

/// Pushes a recomputed size onto a style record, leaving every other
/// property as it was.
pub fn apply_computed_size(style: &mut NodeStyle, width: Val, height: Val)
    ensures
        *final(style) == (NodeStyle { width, height, ..*old(style) }),
{
    style.width = width;
    style.height = height;
}

} // verus!
