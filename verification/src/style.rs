use vstd::prelude::*;

verus! {

/// A layout length: automatic, whole device pixels, or a percentage of the
/// parent's extent.
#[derive(Clone, Copy, PartialEq, Eq, Structural, Debug)]
pub enum Val {
    Auto,
    Px(i64),
    Percent(i64),
}

/// Four per-side lengths, used for margins, padding and border widths.
#[derive(Clone, Copy, PartialEq, Eq, Structural, Debug)]
pub struct Edges {
    pub left: Val,
    pub right: Val,
    pub top: Val,
    pub bottom: Val,
}

impl Edges {
    pub open spec fn all_spec(v: Val) -> Edges {
        Edges { left: v, right: v, top: v, bottom: v }
    }

    /// The same length on every side.
    pub fn all(v: Val) -> (e: Edges)
        ensures
            e == Edges::all_spec(v),
    {
        Edges { left: v, right: v, top: v, bottom: v }
    }

    pub open spec fn zero_spec() -> Edges {
        Edges::all_spec(Val::Px(0))
    }

    /// Zero pixels on every side.
    pub fn zero() -> (e: Edges)
        ensures
            e == Edges::zero_spec(),
    {
        Edges::all(Val::Px(0))
    }
}

/// Four per-corner radii for rounded borders.
#[derive(Clone, Copy, PartialEq, Eq, Structural, Debug)]
pub struct Corners {
    pub top_left: Val,
    pub top_right: Val,
    pub bottom_left: Val,
    pub bottom_right: Val,
}

impl Corners {
    pub open spec fn all_spec(v: Val) -> Corners {
        Corners { top_left: v, top_right: v, bottom_left: v, bottom_right: v }
    }

    /// The same radius at every corner.
    pub fn all(v: Val) -> (c: Corners)
        ensures
            c == Corners::all_spec(v),
    {
        Corners { top_left: v, top_right: v, bottom_left: v, bottom_right: v }
    }

    pub open spec fn round_spec() -> Corners {
        Corners::all_spec(Val::Px(i64::MAX))
    }

    /// The largest radius on every corner, which the layout host clamps to a
    /// fully rounded ("pill") shape.
    pub fn round() -> (c: Corners)
        ensures
            c == Corners::round_spec(),
    {
        Corners::all(Val::Px(i64::MAX))
    }
}

/// The layout algorithm a node hands to its children.
#[derive(Clone, Copy, PartialEq, Eq, Structural, Debug)]
pub enum LayoutMode {
    Flex,
    Grid,
}

/// Whether a node takes part in its parent's flow or is positioned against
/// its nearest positioned ancestor.
#[derive(Clone, Copy, PartialEq, Eq, Structural, Debug)]
pub enum PositionKind {
    Relative,
    Absolute,
}

/// Cross-axis alignment of a node's children.
#[derive(Clone, Copy, PartialEq, Eq, Structural, Debug)]
pub enum AlignItems {
    Unset,
    Start,
    Center,
    End,
}

/// Main-axis distribution of a node's children.
#[derive(Clone, Copy, PartialEq, Eq, Structural, Debug)]
pub enum JustifyContent {
    Unset,
    Start,
    Center,
    End,
}

/// Direction in which flex children are laid out.
#[derive(Clone, Copy, PartialEq, Eq, Structural, Debug)]
pub enum FlexDirection {
    Row,
    Column,
}

/// Whether explicit sizes include the border and padding.
#[derive(Clone, Copy, PartialEq, Eq, Structural, Debug)]
pub enum BoxSizing {
    BorderBox,
    ContentBox,
}

/// The write-only-during-materialization record of layout-affecting
/// properties. Exactly one such record is built per materialized node;
/// wrappers mutate it after delegating, so an outer wrapper's writes win.
#[derive(Clone, Copy, PartialEq, Eq, Structural, Debug)]
pub struct NodeStyle {
    pub display: LayoutMode,
    pub position: PositionKind,
    pub align_items: AlignItems,
    pub justify_content: JustifyContent,
    pub flex_direction: FlexDirection,
    pub column_gap: Val,
    pub row_gap: Val,
    pub margin: Edges,
    pub padding: Edges,
    pub border: Edges,
    pub box_sizing: BoxSizing,
    pub width: Val,
    pub height: Val,
    pub left: Val,
    pub right: Val,
    pub top: Val,
    pub bottom: Val,
}

impl NodeStyle {
    /// The record every materialization starts from, before any node has
    /// contributed to it.
    pub open spec fn base_spec() -> NodeStyle {
        NodeStyle {
            display: LayoutMode::Flex,
            position: PositionKind::Relative,
            align_items: AlignItems::Unset,
            justify_content: JustifyContent::Unset,
            flex_direction: FlexDirection::Row,
            column_gap: Val::Px(0),
            row_gap: Val::Px(0),
            margin: Edges::zero_spec(),
            padding: Edges::zero_spec(),
            border: Edges::zero_spec(),
            box_sizing: BoxSizing::BorderBox,
            width: Val::Auto,
            height: Val::Auto,
            left: Val::Auto,
            right: Val::Auto,
            top: Val::Auto,
            bottom: Val::Auto,
        }
    }

    pub fn base() -> (s: NodeStyle)
        ensures
            s == NodeStyle::base_spec(),
    {
        NodeStyle {
            display: LayoutMode::Flex,
            position: PositionKind::Relative,
            align_items: AlignItems::Unset,
            justify_content: JustifyContent::Unset,
            flex_direction: FlexDirection::Row,
            column_gap: Val::Px(0),
            row_gap: Val::Px(0),
            margin: Edges::zero(),
            padding: Edges::zero(),
            border: Edges::zero(),
            box_sizing: BoxSizing::BorderBox,
            width: Val::Auto,
            height: Val::Auto,
            left: Val::Auto,
            right: Val::Auto,
            top: Val::Auto,
            bottom: Val::Auto,
        }
    }
}

/// A scalar scaled by a factor given in hundredths, truncated toward zero and
/// saturated to the `i64` range.
pub open spec fn scale_scalar_spec(n: int, pct: int) -> int {
    if n >= 0 {
        if n * pct / 100 > i64::MAX as int {
            i64::MAX as int
        } else {
            n * pct / 100
        }
    } else {
        if (-n) * pct / 100 > -(i64::MIN as int) {
            i64::MIN as int
        } else {
            -((-n) * pct / 100)
        }
    }
}

pub fn scale_scalar(n: i64, pct: u32) -> (r: i64)
    ensures
        r as int == scale_scalar_spec(n as int, pct as int),
{
    if n >= 0 {
        assert((n as u128) * (pct as u128) <= 0x7fffffffffffffffu128 * 0xffffffffu128)
            by (nonlinear_arith)
            requires
                n as u128 <= 0x7fffffffffffffffu128,
                pct as u128 <= 0xffffffffu128,
        ;
        let p: u128 = (n as u128) * (pct as u128);
        let q: u128 = p / 100;
        if q > i64::MAX as u128 {
            i64::MAX
        } else {
            q as i64
        }
    } else {
        let m: u128 = (-(n as i128)) as u128;
        assert(m * (pct as u128) <= 0x8000000000000000u128 * 0xffffffffu128)
            by (nonlinear_arith)
            requires
                m <= 0x8000000000000000u128,
                pct as u128 <= 0xffffffffu128,
        ;
        let p: u128 = m * (pct as u128);
        let q: u128 = p / 100;
        if q > 9223372036854775808u128 {
            i64::MIN
        } else {
            (-(q as i128)) as i64
        }
    }
}

/// A length scaled by a factor in hundredths; automatic lengths stay
/// automatic.
pub open spec fn scale_val_spec(v: Val, pct: int) -> Val {
    match v {
        Val::Auto => Val::Auto,
        Val::Px(n) => Val::Px(scale_scalar_spec(n as int, pct) as i64),
        Val::Percent(n) => Val::Percent(scale_scalar_spec(n as int, pct) as i64),
    }
}

pub fn scale_val(v: Val, pct: u32) -> (r: Val)
    ensures
        r == scale_val_spec(v, pct as int),
{
    match v {
        Val::Auto => Val::Auto,
        Val::Px(n) => Val::Px(scale_scalar(n, pct)),
        Val::Percent(n) => Val::Percent(scale_scalar(n, pct)),
    }
}

/// Names for the individual properties of a [`NodeStyle`], used to state
/// which properties a wrapper writes and which it leaves to its content.
#[derive(Clone, Copy, PartialEq, Eq, Structural, Debug)]
pub enum StyleField {
    Display,
    Position,
    Align,
    Justify,
    Direction,
    ColumnGap,
    RowGap,
    Margin,
    Padding,
    Border,
    Sizing,
    Width,
    Height,
    Left,
    Right,
    Top,
    Bottom,
}

/// The value of a single style property, across the property types.
#[derive(Clone, Copy, PartialEq, Eq, Structural, Debug)]
pub enum FieldValue {
    Mode(LayoutMode),
    Position(PositionKind),
    Align(AlignItems),
    Justify(JustifyContent),
    Direction(FlexDirection),
    Length(Val),
    Rect(Edges),
    Sizing(BoxSizing),
}

/// Reads one named property out of a style record.
pub open spec fn field_of(s: NodeStyle, f: StyleField) -> FieldValue {
    match f {
        StyleField::Display => FieldValue::Mode(s.display),
        StyleField::Position => FieldValue::Position(s.position),
        StyleField::Align => FieldValue::Align(s.align_items),
        StyleField::Justify => FieldValue::Justify(s.justify_content),
        StyleField::Direction => FieldValue::Direction(s.flex_direction),
        StyleField::ColumnGap => FieldValue::Length(s.column_gap),
        StyleField::RowGap => FieldValue::Length(s.row_gap),
        StyleField::Margin => FieldValue::Rect(s.margin),
        StyleField::Padding => FieldValue::Rect(s.padding),
        StyleField::Border => FieldValue::Rect(s.border),
        StyleField::Sizing => FieldValue::Sizing(s.box_sizing),
        StyleField::Width => FieldValue::Length(s.width),
        StyleField::Height => FieldValue::Length(s.height),
        StyleField::Left => FieldValue::Length(s.left),
        StyleField::Right => FieldValue::Length(s.right),
        StyleField::Top => FieldValue::Length(s.top),
        StyleField::Bottom => FieldValue::Length(s.bottom),
    }
}

} // verus!
