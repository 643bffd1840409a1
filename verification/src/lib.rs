//! A declarative UI composition layer: a catalog of typed wrapper nodes, a
//! forkable styling context, and a materialization driver that turns a node
//! tree into a tree of entities, attached data, reactive registrations and an
//! ordered event log.

pub mod context;
pub mod data;
pub mod laws;
pub mod materialize;
pub mod node;
pub mod protocol;
pub mod style;
pub mod widgets;

pub use context::UiContext;
pub use materialize::{spawn_as_child, insert_into_existing, EntityNode};
pub use node::{Placeholder, PlaceholderTarget, Text, TextSizing, UiNode};

use vstd::prelude::*;

verus! {

/// A linear RGBA color with 8-bit channels, the plain value that every
/// color-bearing style field of the composition layer carries.
#[derive(Clone, Copy, PartialEq, Eq, Structural, Debug)]
pub struct Rgba {
    pub red: u8,
    pub green: u8,
    pub blue: u8,
    pub alpha: u8,
}

impl Rgba {
    pub fn new(red: u8, green: u8, blue: u8, alpha: u8) -> (c: Rgba)
        ensures
            c == (Rgba { red, green, blue, alpha }),
    {
        Rgba { red, green, blue, alpha }
    }
}

} // verus!
