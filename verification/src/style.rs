//! The typed style operations that class tokens and direct attributes resolve
//! to. An operation is a request to the rendering layer; what it does to the
//! layout is the renderer's business.

use vstd::prelude::*;

verus! {

/// A style request without a payload.
#[derive(Clone, Copy, Debug, PartialEq, Eq, Hash, Structural)]
pub enum Flag {
    Flex,
    Block,
    Absolute,
    Relative,
    Visible,
    Invisible,
    OverflowHidden,
    OverflowXHidden,
    OverflowYHidden,
    CursorDefault,
    CursorPointer,
    CursorText,
    CursorMove,
    CursorNotAllowed,
    CursorContextMenu,
    CursorCrosshair,
    CursorVerticalText,
    CursorAlias,
    CursorCopy,
    CursorNoDrop,
    CursorGrab,
    CursorGrabbing,
    CursorColResize,
    CursorRowResize,
    CursorNResize,
    CursorEResize,
    CursorSResize,
    CursorWResize,
    JustifyCenter,
    JustifyBetween,
    JustifyAround,
    JustifyStart,
    JustifyEnd,
    ItemsStart,
    ItemsEnd,
    ItemsCenter,
    FlexCol,
    FlexRow,
    FlexColReverse,
    FlexRowReverse,
    Flex1,
    FlexAuto,
    FlexInitial,
    FlexNone,
    FlexGrow,
    FlexShrink,
    FlexShrink0,
    ShadowSm,
    ShadowMd,
    ShadowLg,
    ShadowXl,
    Shadow2xl,
}

/// The property that a scalar or fractional operation sets.
#[derive(Clone, Copy, Debug, PartialEq, Eq, Hash, Structural)]
pub enum Property {
    Height,
    Width,
    MinHeight,
    MinWidth,
    MaxHeight,
    MaxWidth,
    Padding,
    PaddingX,
    PaddingY,
    Margin,
    MarginX,
    MarginY,
    MarginTop,
    MarginRight,
    MarginBottom,
    MarginLeft,
    Size,
    Border,
    BorderTop,
    BorderRight,
    BorderBottom,
    BorderLeft,
    BorderX,
    BorderY,
    Rounded,
    RoundedTop,
    RoundedRight,
    RoundedBottom,
    RoundedLeft,
    RoundedTopLeft,
    RoundedTopRight,
    RoundedBottomRight,
    RoundedBottomLeft,
}

/// A named amount.
#[derive(Clone, Copy, Debug, PartialEq, Eq, Hash, Structural)]
pub enum Keyword {
    Px,
    Auto,
    Full,
    Nothing,
    Sm,
    Md,
    Lg,
    Solid,
}

/// The unit of a length literal.
#[derive(Clone, Copy, Debug, PartialEq, Eq, Hash, Structural)]
pub enum LengthUnit {
    Pixels,
    Rems,
}

/// A length written as a decimal literal with a unit: `mantissa / 10^scale`
/// of `unit`.
#[derive(Clone, Copy, Debug, PartialEq, Eq, Hash, Structural)]
pub struct AbsoluteLength {
    pub unit: LengthUnit,
    pub mantissa: u64,
    pub scale: usize,
}

/// The payload of a scalar operation.
#[derive(Clone, Copy, Debug, PartialEq, Eq, Hash, Structural)]
pub enum Amount {
    /// The property's own default, as in `border`.
    Default,
    /// A step of the spacing scale, counted in half steps: `4` is 8 halves,
    /// `0.5` is 1.
    Step { halves: u8 },
    /// A named amount, as in `h-full`.
    Keyword(Keyword),
    /// A length literal, as in `rounded-4px`.
    Length(AbsoluteLength),
}

/// What a color operation paints.
#[derive(Clone, Copy, Debug, PartialEq, Eq, Hash, Structural)]
pub enum ColorTarget {
    /// The `bg-[..]` class token.
    Background,
    /// The `text-color-[..]` class token.
    Text,
    /// The `color` attribute.
    Attribute,
}

/// One resolved style operation.
#[derive(Clone, Copy, Debug, PartialEq, Eq, Hash, Structural)]
pub enum StyleOperation {
    Flag(Flag),
    Scalar { property: Property, amount: Amount },
    Fraction { property: Property, numerator: u8, denominator: u8 },
    Color { target: ColorTarget, red: u8, green: u8, blue: u8 },
}

/// The slot that an operation writes. Of two operations with the same slot the
/// later one replaces the earlier.
#[derive(Clone, Copy, Debug, PartialEq, Eq, Hash, Structural)]
pub enum Slot {
    Flag(Flag),
    Property(Property),
    Color(ColorTarget),
}

impl AbsoluteLength {
    /// The zero-pixel length that stands in for a literal that cannot be read.
    pub open spec fn zero_pixels() -> AbsoluteLength {
        AbsoluteLength { unit: LengthUnit::Pixels, mantissa: 0, scale: 0 }
    }
}

impl StyleOperation {
    /// The slot of this operation: a flag is its own slot, a scalar or a
    /// fraction writes its property, a color its target.
    pub open spec fn slot_spec(self) -> Slot {
        match self {
            StyleOperation::Flag(flag) => Slot::Flag(flag),
            StyleOperation::Scalar { property, .. } => Slot::Property(property),
            StyleOperation::Fraction { property, .. } => Slot::Property(property),
            StyleOperation::Color { target, .. } => Slot::Color(target),
        }
    }

    /// The slot of this operation.
    #[verifier::when_used_as_spec(slot_spec)]
    pub fn slot(self) -> (slot: Slot)
        ensures
            slot == self.slot_spec(),
    {
        match self {
            StyleOperation::Flag(flag) => Slot::Flag(flag),
            StyleOperation::Scalar { property, .. } => Slot::Property(property),
            StyleOperation::Fraction { property, .. } => Slot::Property(property),
            StyleOperation::Color { target, .. } => Slot::Color(target),
        }
    }
}

} // verus!
