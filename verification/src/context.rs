use vstd::prelude::*;

use crate::style::{Corners, Edges, Val};
use crate::Rgba;

verus! {

/// Handle to a font asset, owned by the host; the context only carries it.
pub type FontId = u64;

/// Handle to a host entity.
pub type EntityId = u64;

/// Handle to a host-owned asset (an image, a material, an animation graph).
pub type AssetId = u64;

/// The immutable bag of inherited style values threaded through a tree walk,
/// plus the one transient field naming the animation controller currently in
/// scope. A context is never mutated in place: a theming or animation
/// boundary forks a modified copy and the parent's copy stays as it was.
#[derive(Clone, Copy, PartialEq, Debug)]
pub struct UiContext {
    pub font: FontId,
    pub text_size: u32,
    pub text_size_big: u32,
    pub background_color: Rgba,
    pub foreground_color: Rgba,
    pub hover_color: Rgba,
    pub text_color: Rgba,
    pub border_thickness: Edges,
    pub border_color: Rgba,
    pub border_radius: Corners,
    pub highlight_color: Rgba,
    pub image_color: Rgba,
    pub current_animator: Option<EntityId>,
}

impl UiContext {
    pub open spec fn from_font_spec(font: FontId) -> UiContext {
        UiContext {
            font,
            text_size: 12,
            text_size_big: 34,
            background_color: Rgba { red: 0, green: 0, blue: 77, alpha: 204 },
            foreground_color: Rgba { red: 255, green: 204, blue: 204, alpha: 255 },
            hover_color: Rgba { red: 51, green: 51, blue: 77, alpha: 204 },
            text_color: Rgba { red: 77, green: 153, blue: 51, alpha: 255 },
            border_thickness: Edges::all_spec(Val::Px(2)),
            border_color: Rgba { red: 0, green: 0, blue: 0, alpha: 255 },
            border_radius: Corners::round_spec(),
            highlight_color: Rgba { red: 255, green: 0, blue: 0, alpha: 255 },
            image_color: Rgba { red: 255, green: 255, blue: 255, alpha: 255 },
            current_animator: None,
        }
    }

    /// The process-wide default context, built once the host has made the
    /// default font available.
    pub fn from_font(font: FontId) -> (c: UiContext)
        ensures
            c == UiContext::from_font_spec(font),
    {
        UiContext {
            font,
            text_size: 12,
            text_size_big: 34,
            background_color: Rgba::new(0, 0, 77, 204),
            foreground_color: Rgba::new(255, 204, 204, 255),
            hover_color: Rgba::new(51, 51, 77, 204),
            text_color: Rgba::new(77, 153, 51, 255),
            border_thickness: Edges::all(Val::Px(2)),
            border_color: Rgba::new(0, 0, 0, 255),
            border_radius: Corners::round(),
            highlight_color: Rgba::new(255, 0, 0, 255),
            image_color: Rgba::new(255, 255, 255, 255),
            current_animator: None,
        }
    }

    pub open spec fn with_animator_spec(self, animator: Option<EntityId>) -> UiContext {
        UiContext { current_animator: animator, ..self }
    }

    /// A fork of this context with only the transient animation-controller
    /// field replaced; every other field is kept.
    pub fn with_animator(&self, animator: Option<EntityId>) -> (c: UiContext)
        ensures
            c == self.with_animator_spec(animator),
    {
        let mut c = *self;
        c.current_animator = animator;
        c
    }
}

/// The optional per-field replacements a theming boundary applies when it
/// forks the inherited context. A `None` field keeps the parent's value.
#[derive(Clone, Copy, PartialEq, Debug)]
pub struct ThemeOverrides {
    pub font: Option<FontId>,
    pub text_size: Option<u32>,
    pub text_size_big: Option<u32>,
    pub background_color: Option<Rgba>,
    pub foreground_color: Option<Rgba>,
    pub hover_color: Option<Rgba>,
    pub text_color: Option<Rgba>,
    pub border_thickness: Option<Edges>,
    pub border_color: Option<Rgba>,
    pub border_radius: Option<Corners>,
    pub highlight_color: Option<Rgba>,
    pub image_color: Option<Rgba>,
}

/// The value a fork gives one field: the override where one is set, else the
/// parent's value.
pub open spec fn pick<T>(over: Option<T>, parent: T) -> T {
    match over {
        Some(v) => v,
        None => parent,
    }
}

/// The fork of `parent` under `over`: every field is the override where one
/// is set and the parent's value where none is; the transient
/// animation-controller field is always kept.
pub open spec fn fork_spec(over: ThemeOverrides, parent: UiContext) -> UiContext {
    UiContext {
        font: pick(over.font, parent.font),
        text_size: pick(over.text_size, parent.text_size),
        text_size_big: pick(over.text_size_big, parent.text_size_big),
        background_color: pick(over.background_color, parent.background_color),
        foreground_color: pick(over.foreground_color, parent.foreground_color),
        hover_color: pick(over.hover_color, parent.hover_color),
        text_color: pick(over.text_color, parent.text_color),
        border_thickness: pick(over.border_thickness, parent.border_thickness),
        border_color: pick(over.border_color, parent.border_color),
        border_radius: pick(over.border_radius, parent.border_radius),
        highlight_color: pick(over.highlight_color, parent.highlight_color),
        image_color: pick(over.image_color, parent.image_color),
        current_animator: parent.current_animator,
    }
}

fn pick_field<T: Copy>(over: Option<T>, parent: T) -> (r: T)
    ensures
        r == pick(over, parent),
{
    match over {
        Some(v) => v,
        None => parent,
    }
}

impl ThemeOverrides {
    pub open spec fn none_spec() -> ThemeOverrides {
        ThemeOverrides {
            font: None,
            text_size: None,
            text_size_big: None,
            background_color: None,
            foreground_color: None,
            hover_color: None,
            text_color: None,
            border_thickness: None,
            border_color: None,
            border_radius: None,
            highlight_color: None,
            image_color: None,
        }
    }

    /// Overrides that replace nothing: forking with these copies the parent.
    pub fn none() -> (o: ThemeOverrides)
        ensures
            o == ThemeOverrides::none_spec(),
    {
        ThemeOverrides {
            font: None,
            text_size: None,
            text_size_big: None,
            background_color: None,
            foreground_color: None,
            hover_color: None,
            text_color: None,
            border_thickness: None,
            border_color: None,
            border_radius: None,
            highlight_color: None,
            image_color: None,
        }
    }

    pub fn with_font(self, font: Option<FontId>) -> (o: ThemeOverrides)
        ensures
            o == (ThemeOverrides { font, ..self }),
    {
        let mut o = self;
        o.font = font;
        o
    }

    pub fn with_text_size(self, size: Option<u32>) -> (o: ThemeOverrides)
        ensures
            o == (ThemeOverrides { text_size: size, ..self }),
    {
        let mut o = self;
        o.text_size = size;
        o
    }

    pub fn with_text_size_big(self, size: Option<u32>) -> (o: ThemeOverrides)
        ensures
            o == (ThemeOverrides { text_size_big: size, ..self }),
    {
        let mut o = self;
        o.text_size_big = size;
        o
    }

    pub fn with_background_color(self, color: Option<Rgba>) -> (o: ThemeOverrides)
        ensures
            o == (ThemeOverrides { background_color: color, ..self }),
    {
        let mut o = self;
        o.background_color = color;
        o
    }

    pub fn with_border_radius(self, radius: Option<Corners>) -> (o: ThemeOverrides)
        ensures
            o == (ThemeOverrides { border_radius: radius, ..self }),
    {
        let mut o = self;
        o.border_radius = radius;
        o
    }

    /// Forks `other` under these overrides. The receiver and `other` are
    /// read, never written: every live copy of the parent context is left
    /// exactly as it was.
    pub fn create_context(&self, other: &UiContext) -> (c: UiContext)
        ensures
            c == fork_spec(*self, *other),
    {
        UiContext {
            font: pick_field(self.font, other.font),
            text_size: pick_field(self.text_size, other.text_size),
            text_size_big: pick_field(self.text_size_big, other.text_size_big),
            background_color: pick_field(self.background_color, other.background_color),
            foreground_color: pick_field(self.foreground_color, other.foreground_color),
            hover_color: pick_field(self.hover_color, other.hover_color),
            text_color: pick_field(self.text_color, other.text_color),
            border_thickness: pick_field(self.border_thickness, other.border_thickness),
            border_color: pick_field(self.border_color, other.border_color),
            border_radius: pick_field(self.border_radius, other.border_radius),
            highlight_color: pick_field(self.highlight_color, other.highlight_color),
            image_color: pick_field(self.image_color, other.image_color),
            current_animator: other.current_animator,
        }
    }
}

} // verus!
