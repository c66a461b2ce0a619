//! The vocabulary of enumerated class tokens: how each operation of the fixed
//! table is spelled, and the lookup from a token back to its operation.

use vstd::prelude::*;
use crate::style::{Amount, Flag, Keyword, Property, StyleOperation};
use crate::text::{last_position, spells};

verus! {

impl Flag {
    /// The token that requests this flag.
    pub open spec fn name(self) -> Seq<char> {
        match self {
            Flag::Flex => "flex"@,
            Flag::Block => "block"@,
            Flag::Absolute => "absolute"@,
            Flag::Relative => "relative"@,
            Flag::Visible => "visible"@,
            Flag::Invisible => "invisible"@,
            Flag::OverflowHidden => "overflow-hidden"@,
            Flag::OverflowXHidden => "overflow-x-hidden"@,
            Flag::OverflowYHidden => "overflow-y-hidden"@,
            Flag::CursorDefault => "cursor-default"@,
            Flag::CursorPointer => "cursor-pointer"@,
            Flag::CursorText => "cursor-text"@,
            Flag::CursorMove => "cursor-move"@,
            Flag::CursorNotAllowed => "cursor-not-allowed"@,
            Flag::CursorContextMenu => "cursor-context-menu"@,
            Flag::CursorCrosshair => "cursor-crosshair"@,
            Flag::CursorVerticalText => "cursor-vertical-text"@,
            Flag::CursorAlias => "cursor-alias"@,
            Flag::CursorCopy => "cursor-copy"@,
            Flag::CursorNoDrop => "cursor-no-drop"@,
            Flag::CursorGrab => "cursor-grab"@,
            Flag::CursorGrabbing => "cursor-grabbing"@,
            Flag::CursorColResize => "cursor-col-resize"@,
            Flag::CursorRowResize => "cursor-row-resize"@,
            Flag::CursorNResize => "cursor-n-resize"@,
            Flag::CursorEResize => "cursor-e-resize"@,
            Flag::CursorSResize => "cursor-s-resize"@,
            Flag::CursorWResize => "cursor-w-resize"@,
            Flag::JustifyCenter => "justify-center"@,
            Flag::JustifyBetween => "justify-between"@,
            Flag::JustifyAround => "justify-around"@,
            Flag::JustifyStart => "justify-start"@,
            Flag::JustifyEnd => "justify-end"@,
            Flag::ItemsStart => "items-start"@,
            Flag::ItemsEnd => "items-end"@,
            Flag::ItemsCenter => "items-center"@,
            Flag::FlexCol => "flex-col"@,
            Flag::FlexRow => "flex-row"@,
            Flag::FlexColReverse => "flex-col_reverse"@,
            Flag::FlexRowReverse => "flex-row_reverse"@,
            Flag::Flex1 => "flex-1"@,
            Flag::FlexAuto => "flex-auto"@,
            Flag::FlexInitial => "flex-initial"@,
            Flag::FlexNone => "flex-none"@,
            Flag::FlexGrow => "flex-grow"@,
            Flag::FlexShrink => "flex-shrink"@,
            Flag::FlexShrink0 => "flex-shrink_0"@,
            Flag::ShadowSm => "shadow-sm"@,
            Flag::ShadowMd => "shadow-md"@,
            Flag::ShadowLg => "shadow-lg"@,
            Flag::ShadowXl => "shadow-xl"@,
            Flag::Shadow2xl => "shadow-2xl"@,
        }
    }
}

impl Property {
    /// The prefix of the tokens that set this property.
    pub open spec fn name(self) -> Seq<char> {
        match self {
            Property::Height => "h"@,
            Property::Width => "w"@,
            Property::MinHeight => "min-h"@,
            Property::MinWidth => "min-w"@,
            Property::MaxHeight => "max-h"@,
            Property::MaxWidth => "max-w"@,
            Property::Padding => "p"@,
            Property::PaddingX => "px"@,
            Property::PaddingY => "py"@,
            Property::Margin => "m"@,
            Property::MarginX => "mx"@,
            Property::MarginY => "my"@,
            Property::MarginTop => "mt"@,
            Property::MarginRight => "mr"@,
            Property::MarginBottom => "mb"@,
            Property::MarginLeft => "ml"@,
            Property::Size => "size"@,
            Property::Border => "border"@,
            Property::BorderTop => "border-t"@,
            Property::BorderRight => "border-r"@,
            Property::BorderBottom => "border-b"@,
            Property::BorderLeft => "border-l"@,
            Property::BorderX => "border-x"@,
            Property::BorderY => "border-y"@,
            Property::Rounded => "rounded"@,
            Property::RoundedTop => "rounded-t"@,
            Property::RoundedRight => "rounded-r"@,
            Property::RoundedBottom => "rounded-b"@,
            Property::RoundedLeft => "rounded-l"@,
            Property::RoundedTopLeft => "rounded-tl"@,
            Property::RoundedTopRight => "rounded-tr"@,
            Property::RoundedBottomRight => "rounded-br"@,
            Property::RoundedBottomLeft => "rounded-bl"@,
        }
    }

    /// Height and width.
    pub open spec fn is_extent(self) -> bool {
        self == Property::Height || self == Property::Width
    }

    /// The minimum and maximum extents.
    pub open spec fn is_bound(self) -> bool {
        self == Property::MinHeight || self == Property::MinWidth || self == Property::MaxHeight
            || self == Property::MaxWidth
    }

    /// Padding, and margin on chosen sides.
    pub open spec fn is_inset(self) -> bool {
        self == Property::Padding || self == Property::PaddingX || self == Property::PaddingY
            || self == Property::MarginX || self == Property::MarginY || self == Property::MarginTop
            || self == Property::MarginRight || self == Property::MarginBottom
            || self == Property::MarginLeft
    }

    /// Border widths.
    pub open spec fn is_border(self) -> bool {
        self == Property::Border || self == Property::BorderTop || self == Property::BorderRight
            || self == Property::BorderBottom || self == Property::BorderLeft
            || self == Property::BorderX || self == Property::BorderY
    }

    /// Corner radii.
    pub open spec fn is_rounded(self) -> bool {
        self == Property::Rounded || self == Property::RoundedTop || self == Property::RoundedRight
            || self == Property::RoundedBottom || self == Property::RoundedLeft
            || self == Property::RoundedTopLeft || self == Property::RoundedTopRight
            || self == Property::RoundedBottomRight || self == Property::RoundedBottomLeft
    }

    /// Whether the table holds this property with a fraction.
    pub open spec fn admits_fraction(self) -> bool {
        self.is_extent() || self.is_inset() || self == Property::Margin || self == Property::Size
    }

    /// Whether the table holds this property with the amount `amount`.
    pub open spec fn admits(self, amount: Amount) -> bool {
        match amount {
            Amount::Default => self.is_border(),
            Amount::Step { halves } => {
                ||| is_whole_step(halves) && (self.is_extent() || self.is_inset() || self
                    == Property::Margin || self == Property::Size)
                ||| is_half_step(halves) && self == Property::Size
                ||| halves == 0 && self.is_bound()
                ||| is_border_step(halves) && self.is_border()
            },
            Amount::Keyword(Keyword::Px) => self.is_inset() || self == Property::Margin,
            Amount::Keyword(Keyword::Auto) => self.is_extent() || self == Property::Margin || self
                == Property::Size,
            Amount::Keyword(Keyword::Full) => self.is_extent() || self.is_bound() || self
                == Property::Margin || self == Property::Size || self.is_rounded(),
            Amount::Keyword(Keyword::Solid) => self == Property::Border,
            Amount::Keyword(_) => self.is_rounded(),
            Amount::Length(_) => false,
        }
    }
}

impl Keyword {
    /// The spelling of this named amount.
    pub open spec fn name(self) -> Seq<char> {
        match self {
            Keyword::Px => "px"@,
            Keyword::Auto => "auto"@,
            Keyword::Full => "full"@,
            Keyword::Nothing => "none"@,
            Keyword::Sm => "sm"@,
            Keyword::Md => "md"@,
            Keyword::Lg => "lg"@,
            Keyword::Solid => "solid"@,
        }
    }
}

/// The whole steps of the spacing scale, in half steps.
pub open spec fn is_whole_step(halves: u8) -> bool {
    halves == 0 || halves == 2 || halves == 4 || halves == 6 || halves == 8 || halves == 10
        || halves == 12 || halves == 16 || halves == 20 || halves == 24 || halves == 32 || halves == 40
        || halves == 48 || halves == 64 || halves == 80 || halves == 96 || halves == 112 || halves == 128
        || halves == 144 || halves == 160 || halves == 192
}

/// The half steps `0.5`, `1.5`, `2.5` and `3.5`, which only `size` takes.
pub open spec fn is_half_step(halves: u8) -> bool {
    halves == 1 || halves == 3 || halves == 5 || halves == 7
}

/// The border widths `0`, `2`, `4` and `8`, in half steps.
pub open spec fn is_border_step(halves: u8) -> bool {
    halves == 0 || halves == 4 || halves == 8 || halves == 16
}

/// The fractions of the table.
pub open spec fn is_fraction(numerator: u8, denominator: u8) -> bool {
    (numerator == 1 && denominator == 2) || (numerator == 1 && denominator == 3) || (numerator == 2 && denominator == 3)
        || (numerator == 1 && denominator == 4) || (numerator == 2 && denominator == 4) || (numerator == 3 && denominator == 4)
        || (numerator == 1 && denominator == 5) || (numerator == 2 && denominator == 5) || (numerator == 3 && denominator == 5)
        || (numerator == 4 && denominator == 5) || (numerator == 1 && denominator == 6) || (numerator == 5 && denominator == 6)
        || (numerator == 1 && denominator == 12)
}

/// How a step of the scale is written: `8` halves as `4`, `1` half as `0.5`.
pub open spec fn step_name(halves: u8) -> Seq<char> {
    if halves == 0 {
        "0"@
    } else if halves == 1 {
        "0.5"@
    } else if halves == 2 {
        "1"@
    } else if halves == 3 {
        "1.5"@
    } else if halves == 4 {
        "2"@
    } else if halves == 5 {
        "2.5"@
    } else if halves == 6 {
        "3"@
    } else if halves == 7 {
        "3.5"@
    } else if halves == 8 {
        "4"@
    } else if halves == 10 {
        "5"@
    } else if halves == 12 {
        "6"@
    } else if halves == 16 {
        "8"@
    } else if halves == 20 {
        "10"@
    } else if halves == 24 {
        "12"@
    } else if halves == 32 {
        "16"@
    } else if halves == 40 {
        "20"@
    } else if halves == 48 {
        "24"@
    } else if halves == 64 {
        "32"@
    } else if halves == 80 {
        "40"@
    } else if halves == 96 {
        "48"@
    } else if halves == 112 {
        "56"@
    } else if halves == 128 {
        "64"@
    } else if halves == 144 {
        "72"@
    } else if halves == 160 {
        "80"@
    } else if halves == 192 {
        "96"@
    } else {
        Seq::empty()
    }
}

/// How a fraction of the table is written.
pub open spec fn fraction_name(numerator: u8, denominator: u8) -> Seq<char> {
    if numerator == 1 && denominator == 2 {
        "1/2"@
    } else if numerator == 1 && denominator == 3 {
        "1/3"@
    } else if numerator == 2 && denominator == 3 {
        "2/3"@
    } else if numerator == 1 && denominator == 4 {
        "1/4"@
    } else if numerator == 2 && denominator == 4 {
        "2/4"@
    } else if numerator == 3 && denominator == 4 {
        "3/4"@
    } else if numerator == 1 && denominator == 5 {
        "1/5"@
    } else if numerator == 2 && denominator == 5 {
        "2/5"@
    } else if numerator == 3 && denominator == 5 {
        "3/5"@
    } else if numerator == 4 && denominator == 5 {
        "4/5"@
    } else if numerator == 1 && denominator == 6 {
        "1/6"@
    } else if numerator == 5 && denominator == 6 {
        "5/6"@
    } else if numerator == 1 && denominator == 12 {
        "1/12"@
    } else {
        Seq::empty()
    }
}

impl Amount {
    /// Whether this amount has a spelling of its own.
    pub open spec fn is_named(self) -> bool {
        match self {
            Amount::Step { halves } => is_whole_step(halves) || is_half_step(halves),
            Amount::Keyword(_) => true,
            _ => false,
        }
    }

    /// The spelling of a named amount.
    pub open spec fn name(self) -> Seq<char> {
        match self {
            Amount::Step { halves } => step_name(halves),
            Amount::Keyword(keyword) => keyword.name(),
            _ => Seq::empty(),
        }
    }
}

impl StyleOperation {
    /// Whether the fixed table holds this operation.
    pub open spec fn is_enumerated(self) -> bool {
        match self {
            StyleOperation::Flag(_) => true,
            StyleOperation::Scalar { property, amount } => property.admits(amount),
            StyleOperation::Fraction { property, numerator, denominator } => is_fraction(
                numerator,
                denominator,
            ) && property.admits_fraction(),
            StyleOperation::Color { .. } => false,
        }
    }

    /// The token that spells an operation of the table: a flag's name, a
    /// property alone for its default, else the property, a dash and the amount.
    pub open spec fn spelling(self) -> Seq<char> {
        match self {
            StyleOperation::Flag(flag) => flag.name(),
            StyleOperation::Scalar { property, amount: Amount::Default } => property.name(),
            StyleOperation::Scalar { property, amount } => property.name() + seq!['-']
                + amount.name(),
            StyleOperation::Fraction { property, numerator, denominator } => property.name()
                + seq!['-'] + fraction_name(numerator, denominator),
            StyleOperation::Color { .. } => Seq::empty(),
        }
    }
}

/// The flag that `word` names, if any.
pub fn flag_named(word: &[char]) -> (found: Option<Flag>)
    ensures
        match found {
            Some(flag) => flag.name() == word@,
            None => forall|flag: Flag| #[trigger] flag.name() != word@,
        },
{
    if spells(word, "flex") {
        Some(Flag::Flex)
    } else if spells(word, "block") {
        Some(Flag::Block)
    } else if spells(word, "absolute") {
        Some(Flag::Absolute)
    } else if spells(word, "relative") {
        Some(Flag::Relative)
    } else if spells(word, "visible") {
        Some(Flag::Visible)
    } else if spells(word, "invisible") {
        Some(Flag::Invisible)
    } else if spells(word, "overflow-hidden") {
        Some(Flag::OverflowHidden)
    } else if spells(word, "overflow-x-hidden") {
        Some(Flag::OverflowXHidden)
    } else if spells(word, "overflow-y-hidden") {
        Some(Flag::OverflowYHidden)
    } else if spells(word, "cursor-default") {
        Some(Flag::CursorDefault)
    } else if spells(word, "cursor-pointer") {
        Some(Flag::CursorPointer)
    } else if spells(word, "cursor-text") {
        Some(Flag::CursorText)
    } else if spells(word, "cursor-move") {
        Some(Flag::CursorMove)
    } else if spells(word, "cursor-not-allowed") {
        Some(Flag::CursorNotAllowed)
    } else if spells(word, "cursor-context-menu") {
        Some(Flag::CursorContextMenu)
    } else if spells(word, "cursor-crosshair") {
        Some(Flag::CursorCrosshair)
    } else if spells(word, "cursor-vertical-text") {
        Some(Flag::CursorVerticalText)
    } else if spells(word, "cursor-alias") {
        Some(Flag::CursorAlias)
    } else if spells(word, "cursor-copy") {
        Some(Flag::CursorCopy)
    } else if spells(word, "cursor-no-drop") {
        Some(Flag::CursorNoDrop)
    } else if spells(word, "cursor-grab") {
        Some(Flag::CursorGrab)
    } else if spells(word, "cursor-grabbing") {
        Some(Flag::CursorGrabbing)
    } else if spells(word, "cursor-col-resize") {
        Some(Flag::CursorColResize)
    } else if spells(word, "cursor-row-resize") {
        Some(Flag::CursorRowResize)
    } else if spells(word, "cursor-n-resize") {
        Some(Flag::CursorNResize)
    } else if spells(word, "cursor-e-resize") {
        Some(Flag::CursorEResize)
    } else if spells(word, "cursor-s-resize") {
        Some(Flag::CursorSResize)
    } else if spells(word, "cursor-w-resize") {
        Some(Flag::CursorWResize)
    } else if spells(word, "justify-center") {
        Some(Flag::JustifyCenter)
    } else if spells(word, "justify-between") {
        Some(Flag::JustifyBetween)
    } else if spells(word, "justify-around") {
        Some(Flag::JustifyAround)
    } else if spells(word, "justify-start") {
        Some(Flag::JustifyStart)
    } else if spells(word, "justify-end") {
        Some(Flag::JustifyEnd)
    } else if spells(word, "items-start") {
        Some(Flag::ItemsStart)
    } else if spells(word, "items-end") {
        Some(Flag::ItemsEnd)
    } else if spells(word, "items-center") {
        Some(Flag::ItemsCenter)
    } else if spells(word, "flex-col") {
        Some(Flag::FlexCol)
    } else if spells(word, "flex-row") {
        Some(Flag::FlexRow)
    } else if spells(word, "flex-col_reverse") {
        Some(Flag::FlexColReverse)
    } else if spells(word, "flex-row_reverse") {
        Some(Flag::FlexRowReverse)
    } else if spells(word, "flex-1") {
        Some(Flag::Flex1)
    } else if spells(word, "flex-auto") {
        Some(Flag::FlexAuto)
    } else if spells(word, "flex-initial") {
        Some(Flag::FlexInitial)
    } else if spells(word, "flex-none") {
        Some(Flag::FlexNone)
    } else if spells(word, "flex-grow") {
        Some(Flag::FlexGrow)
    } else if spells(word, "flex-shrink") {
        Some(Flag::FlexShrink)
    } else if spells(word, "flex-shrink_0") {
        Some(Flag::FlexShrink0)
    } else if spells(word, "shadow-sm") {
        Some(Flag::ShadowSm)
    } else if spells(word, "shadow-md") {
        Some(Flag::ShadowMd)
    } else if spells(word, "shadow-lg") {
        Some(Flag::ShadowLg)
    } else if spells(word, "shadow-xl") {
        Some(Flag::ShadowXl)
    } else if spells(word, "shadow-2xl") {
        Some(Flag::Shadow2xl)
    } else {
        None
    }
}

/// The property that `word` names, if any.
pub fn property_named(word: &[char]) -> (found: Option<Property>)
    ensures
        match found {
            Some(property) => property.name() == word@,
            None => forall|property: Property| #[trigger] property.name() != word@,
        },
{
    if spells(word, "h") {
        Some(Property::Height)
    } else if spells(word, "w") {
        Some(Property::Width)
    } else if spells(word, "min-h") {
        Some(Property::MinHeight)
    } else if spells(word, "min-w") {
        Some(Property::MinWidth)
    } else if spells(word, "max-h") {
        Some(Property::MaxHeight)
    } else if spells(word, "max-w") {
        Some(Property::MaxWidth)
    } else if spells(word, "p") {
        Some(Property::Padding)
    } else if spells(word, "px") {
        Some(Property::PaddingX)
    } else if spells(word, "py") {
        Some(Property::PaddingY)
    } else if spells(word, "m") {
        Some(Property::Margin)
    } else if spells(word, "mx") {
        Some(Property::MarginX)
    } else if spells(word, "my") {
        Some(Property::MarginY)
    } else if spells(word, "mt") {
        Some(Property::MarginTop)
    } else if spells(word, "mr") {
        Some(Property::MarginRight)
    } else if spells(word, "mb") {
        Some(Property::MarginBottom)
    } else if spells(word, "ml") {
        Some(Property::MarginLeft)
    } else if spells(word, "size") {
        Some(Property::Size)
    } else if spells(word, "border") {
        Some(Property::Border)
    } else if spells(word, "border-t") {
        Some(Property::BorderTop)
    } else if spells(word, "border-r") {
        Some(Property::BorderRight)
    } else if spells(word, "border-b") {
        Some(Property::BorderBottom)
    } else if spells(word, "border-l") {
        Some(Property::BorderLeft)
    } else if spells(word, "border-x") {
        Some(Property::BorderX)
    } else if spells(word, "border-y") {
        Some(Property::BorderY)
    } else if spells(word, "rounded") {
        Some(Property::Rounded)
    } else if spells(word, "rounded-t") {
        Some(Property::RoundedTop)
    } else if spells(word, "rounded-r") {
        Some(Property::RoundedRight)
    } else if spells(word, "rounded-b") {
        Some(Property::RoundedBottom)
    } else if spells(word, "rounded-l") {
        Some(Property::RoundedLeft)
    } else if spells(word, "rounded-tl") {
        Some(Property::RoundedTopLeft)
    } else if spells(word, "rounded-tr") {
        Some(Property::RoundedTopRight)
    } else if spells(word, "rounded-br") {
        Some(Property::RoundedBottomRight)
    } else if spells(word, "rounded-bl") {
        Some(Property::RoundedBottomLeft)
    } else {
        None
    }
}

/// The step or keyword that `word` names, if any.
pub fn amount_named(word: &[char]) -> (found: Option<Amount>)
    ensures
        match found {
            Some(amount) => amount.is_named() && amount.name() == word@,
            None => forall|amount: Amount| amount.is_named() ==> #[trigger] amount.name() != word@,
        },
{
    if spells(word, "0") {
        Some(Amount::Step { halves: 0 })
    } else if spells(word, "0.5") {
        Some(Amount::Step { halves: 1 })
    } else if spells(word, "1") {
        Some(Amount::Step { halves: 2 })
    } else if spells(word, "1.5") {
        Some(Amount::Step { halves: 3 })
    } else if spells(word, "2") {
        Some(Amount::Step { halves: 4 })
    } else if spells(word, "2.5") {
        Some(Amount::Step { halves: 5 })
    } else if spells(word, "3") {
        Some(Amount::Step { halves: 6 })
    } else if spells(word, "3.5") {
        Some(Amount::Step { halves: 7 })
    } else if spells(word, "4") {
        Some(Amount::Step { halves: 8 })
    } else if spells(word, "5") {
        Some(Amount::Step { halves: 10 })
    } else if spells(word, "6") {
        Some(Amount::Step { halves: 12 })
    } else if spells(word, "8") {
        Some(Amount::Step { halves: 16 })
    } else if spells(word, "10") {
        Some(Amount::Step { halves: 20 })
    } else if spells(word, "12") {
        Some(Amount::Step { halves: 24 })
    } else if spells(word, "16") {
        Some(Amount::Step { halves: 32 })
    } else if spells(word, "20") {
        Some(Amount::Step { halves: 40 })
    } else if spells(word, "24") {
        Some(Amount::Step { halves: 48 })
    } else if spells(word, "32") {
        Some(Amount::Step { halves: 64 })
    } else if spells(word, "40") {
        Some(Amount::Step { halves: 80 })
    } else if spells(word, "48") {
        Some(Amount::Step { halves: 96 })
    } else if spells(word, "56") {
        Some(Amount::Step { halves: 112 })
    } else if spells(word, "64") {
        Some(Amount::Step { halves: 128 })
    } else if spells(word, "72") {
        Some(Amount::Step { halves: 144 })
    } else if spells(word, "80") {
        Some(Amount::Step { halves: 160 })
    } else if spells(word, "96") {
        Some(Amount::Step { halves: 192 })
    } else if spells(word, "px") {
        Some(Amount::Keyword(Keyword::Px))
    } else if spells(word, "auto") {
        Some(Amount::Keyword(Keyword::Auto))
    } else if spells(word, "full") {
        Some(Amount::Keyword(Keyword::Full))
    } else if spells(word, "none") {
        Some(Amount::Keyword(Keyword::Nothing))
    } else if spells(word, "sm") {
        Some(Amount::Keyword(Keyword::Sm))
    } else if spells(word, "md") {
        Some(Amount::Keyword(Keyword::Md))
    } else if spells(word, "lg") {
        Some(Amount::Keyword(Keyword::Lg))
    } else if spells(word, "solid") {
        Some(Amount::Keyword(Keyword::Solid))
    } else {
        None
    }
}

/// The fraction of the table that `word` names, if any.
pub fn fraction_named(word: &[char]) -> (found: Option<(u8, u8)>)
    ensures
        match found {
            Some((numerator, denominator)) => is_fraction(numerator, denominator) && fraction_name(
                numerator,
                denominator,
            ) == word@,
            None => forall|numerator: u8, denominator: u8|
                is_fraction(numerator, denominator) ==> #[trigger] fraction_name(
                    numerator,
                    denominator,
                ) != word@,
        },
{
    if spells(word, "1/2") {
        Some((1, 2))
    } else if spells(word, "1/3") {
        Some((1, 3))
    } else if spells(word, "2/3") {
        Some((2, 3))
    } else if spells(word, "1/4") {
        Some((1, 4))
    } else if spells(word, "2/4") {
        Some((2, 4))
    } else if spells(word, "3/4") {
        Some((3, 4))
    } else if spells(word, "1/5") {
        Some((1, 5))
    } else if spells(word, "2/5") {
        Some((2, 5))
    } else if spells(word, "3/5") {
        Some((3, 5))
    } else if spells(word, "4/5") {
        Some((4, 5))
    } else if spells(word, "1/6") {
        Some((1, 6))
    } else if spells(word, "5/6") {
        Some((5, 6))
    } else if spells(word, "1/12") {
        Some((1, 12))
    } else {
        None
    }
}


/// Which group of the table a property belongs to.
#[derive(Clone, Copy, Debug, PartialEq, Eq, Structural)]
enum Family {
    Extent,
    Bound,
    Inset,
    Margin,
    Size,
    Border,
    Rounded,
}

fn family(property: Property) -> (family: Family)
    ensures
        (family == Family::Extent) == property.is_extent(),
        (family == Family::Bound) == property.is_bound(),
        (family == Family::Inset) == property.is_inset(),
        (family == Family::Margin) == (property == Property::Margin),
        (family == Family::Size) == (property == Property::Size),
        (family == Family::Border) == property.is_border(),
        (family == Family::Rounded) == property.is_rounded(),
{
    match property {
        Property::Height | Property::Width => Family::Extent,
        Property::MinHeight | Property::MinWidth | Property::MaxHeight | Property::MaxWidth => Family::Bound,
        Property::Padding | Property::PaddingX | Property::PaddingY | Property::MarginX
        | Property::MarginY | Property::MarginTop | Property::MarginRight | Property::MarginBottom
        | Property::MarginLeft => Family::Inset,
        Property::Margin => Family::Margin,
        Property::Size => Family::Size,
        Property::Border | Property::BorderTop | Property::BorderRight | Property::BorderBottom
        | Property::BorderLeft | Property::BorderX | Property::BorderY => Family::Border,
        Property::Rounded | Property::RoundedTop | Property::RoundedRight | Property::RoundedBottom
        | Property::RoundedLeft | Property::RoundedTopLeft | Property::RoundedTopRight | Property::RoundedBottomRight
        | Property::RoundedBottomLeft => Family::Rounded,
    }
}

/// Whether the table holds `property` with `amount`.
pub fn admits_amount(property: Property, amount: Amount) -> (held: bool)
    ensures
        held == property.admits(amount),
{
    let family = family(property);
    match amount {
        Amount::Default => family == Family::Border,
        Amount::Step { halves } => {
            let whole = matches!(
                halves,
                0 | 2 | 4 | 6 | 8 | 10 | 12 | 16
                | 20 | 24 | 32 | 40 | 48 | 64 | 80 | 96
                | 112 | 128 | 144 | 160 | 192
            );
            let half = halves == 1 || halves == 3 || halves == 5 || halves == 7;
            let scaled = family == Family::Extent || family == Family::Inset || family
                == Family::Margin || family == Family::Size;
            let thin = halves == 0 || halves == 4 || halves == 8 || halves == 16;
            (whole && scaled) || (half && family == Family::Size) || (halves == 0 && family
                == Family::Bound) || (thin && family == Family::Border)
        },
        Amount::Keyword(Keyword::Px) => family == Family::Inset || family == Family::Margin,
        Amount::Keyword(Keyword::Auto) => family == Family::Extent || family == Family::Margin
            || family == Family::Size,
        Amount::Keyword(Keyword::Full) => family == Family::Extent || family == Family::Bound
            || family == Family::Margin || family == Family::Size || family == Family::Rounded,
        Amount::Keyword(Keyword::Solid) => property == Property::Border,
        Amount::Keyword(_) => family == Family::Rounded,
        Amount::Length(_) => false,
    }
}

/// Whether the table holds `property` with a fraction.
pub fn admits_any_fraction(property: Property) -> (held: bool)
    ensures
        held == property.admits_fraction(),
{
    let family = family(property);
    family == Family::Extent || family == Family::Inset || family == Family::Margin || family
        == Family::Size
}

/// Two properties with one name are the same property.
pub proof fn property_names_differ(first: Property, second: Property)
    requires
        first.name() == second.name(),
    ensures
        first == second,
{
    reveal_strlit("h");
    assert("h"@.len() == 1 && "h"@[0] == 'h');
    reveal_strlit("w");
    assert("w"@.len() == 1 && "w"@[0] == 'w');
    reveal_strlit("min-h");
    assert("min-h"@.len() == 5 && "min-h"@[0] == 'm' && "min-h"@[1] == 'i' && "min-h"@[2] == 'n');
    assert("min-h"@[3] == '-' && "min-h"@[4] == 'h');
    reveal_strlit("min-w");
    assert("min-w"@.len() == 5 && "min-w"@[0] == 'm' && "min-w"@[1] == 'i' && "min-w"@[2] == 'n');
    assert("min-w"@[3] == '-' && "min-w"@[4] == 'w');
    reveal_strlit("max-h");
    assert("max-h"@.len() == 5 && "max-h"@[0] == 'm' && "max-h"@[1] == 'a' && "max-h"@[2] == 'x');
    assert("max-h"@[3] == '-' && "max-h"@[4] == 'h');
    reveal_strlit("max-w");
    assert("max-w"@.len() == 5 && "max-w"@[0] == 'm' && "max-w"@[1] == 'a' && "max-w"@[2] == 'x');
    assert("max-w"@[3] == '-' && "max-w"@[4] == 'w');
    reveal_strlit("p");
    assert("p"@.len() == 1 && "p"@[0] == 'p');
    reveal_strlit("px");
    assert("px"@.len() == 2 && "px"@[0] == 'p' && "px"@[1] == 'x');
    reveal_strlit("py");
    assert("py"@.len() == 2 && "py"@[0] == 'p' && "py"@[1] == 'y');
    reveal_strlit("m");
    assert("m"@.len() == 1 && "m"@[0] == 'm');
    reveal_strlit("mx");
    assert("mx"@.len() == 2 && "mx"@[0] == 'm' && "mx"@[1] == 'x');
    reveal_strlit("my");
    assert("my"@.len() == 2 && "my"@[0] == 'm' && "my"@[1] == 'y');
    reveal_strlit("mt");
    assert("mt"@.len() == 2 && "mt"@[0] == 'm' && "mt"@[1] == 't');
    reveal_strlit("mr");
    assert("mr"@.len() == 2 && "mr"@[0] == 'm' && "mr"@[1] == 'r');
    reveal_strlit("mb");
    assert("mb"@.len() == 2 && "mb"@[0] == 'm' && "mb"@[1] == 'b');
    reveal_strlit("ml");
    assert("ml"@.len() == 2 && "ml"@[0] == 'm' && "ml"@[1] == 'l');
    reveal_strlit("size");
    assert("size"@.len() == 4 && "size"@[0] == 's' && "size"@[1] == 'i' && "size"@[2] == 'z');
    assert("size"@[3] == 'e');
    reveal_strlit("border");
    assert("border"@.len() == 6 && "border"@[0] == 'b' && "border"@[1] == 'o' && "border"@[2] == 'r');
    assert("border"@[3] == 'd' && "border"@[4] == 'e' && "border"@[5] == 'r');
    reveal_strlit("border-t");
    assert("border-t"@.len() == 8 && "border-t"@[0] == 'b' && "border-t"@[1] == 'o' && "border-t"@[2] == 'r');
    assert("border-t"@[3] == 'd' && "border-t"@[4] == 'e' && "border-t"@[5] == 'r' && "border-t"@[6] == '-');
    assert("border-t"@[7] == 't');
    reveal_strlit("border-r");
    assert("border-r"@.len() == 8 && "border-r"@[0] == 'b' && "border-r"@[1] == 'o' && "border-r"@[2] == 'r');
    assert("border-r"@[3] == 'd' && "border-r"@[4] == 'e' && "border-r"@[5] == 'r' && "border-r"@[6] == '-');
    assert("border-r"@[7] == 'r');
    reveal_strlit("border-b");
    assert("border-b"@.len() == 8 && "border-b"@[0] == 'b' && "border-b"@[1] == 'o' && "border-b"@[2] == 'r');
    assert("border-b"@[3] == 'd' && "border-b"@[4] == 'e' && "border-b"@[5] == 'r' && "border-b"@[6] == '-');
    assert("border-b"@[7] == 'b');
    reveal_strlit("border-l");
    assert("border-l"@.len() == 8 && "border-l"@[0] == 'b' && "border-l"@[1] == 'o' && "border-l"@[2] == 'r');
    assert("border-l"@[3] == 'd' && "border-l"@[4] == 'e' && "border-l"@[5] == 'r' && "border-l"@[6] == '-');
    assert("border-l"@[7] == 'l');
    reveal_strlit("border-x");
    assert("border-x"@.len() == 8 && "border-x"@[0] == 'b' && "border-x"@[1] == 'o' && "border-x"@[2] == 'r');
    assert("border-x"@[3] == 'd' && "border-x"@[4] == 'e' && "border-x"@[5] == 'r' && "border-x"@[6] == '-');
    assert("border-x"@[7] == 'x');
    reveal_strlit("border-y");
    assert("border-y"@.len() == 8 && "border-y"@[0] == 'b' && "border-y"@[1] == 'o' && "border-y"@[2] == 'r');
    assert("border-y"@[3] == 'd' && "border-y"@[4] == 'e' && "border-y"@[5] == 'r' && "border-y"@[6] == '-');
    assert("border-y"@[7] == 'y');
    reveal_strlit("rounded");
    assert("rounded"@.len() == 7 && "rounded"@[0] == 'r' && "rounded"@[1] == 'o' && "rounded"@[2] == 'u');
    assert("rounded"@[3] == 'n' && "rounded"@[4] == 'd' && "rounded"@[5] == 'e' && "rounded"@[6] == 'd');
    reveal_strlit("rounded-t");
    assert("rounded-t"@.len() == 9 && "rounded-t"@[0] == 'r' && "rounded-t"@[1] == 'o' && "rounded-t"@[2] == 'u');
    assert("rounded-t"@[3] == 'n' && "rounded-t"@[4] == 'd' && "rounded-t"@[5] == 'e' && "rounded-t"@[6] == 'd');
    assert("rounded-t"@[7] == '-' && "rounded-t"@[8] == 't');
    reveal_strlit("rounded-r");
    assert("rounded-r"@.len() == 9 && "rounded-r"@[0] == 'r' && "rounded-r"@[1] == 'o' && "rounded-r"@[2] == 'u');
    assert("rounded-r"@[3] == 'n' && "rounded-r"@[4] == 'd' && "rounded-r"@[5] == 'e' && "rounded-r"@[6] == 'd');
    assert("rounded-r"@[7] == '-' && "rounded-r"@[8] == 'r');
    reveal_strlit("rounded-b");
    assert("rounded-b"@.len() == 9 && "rounded-b"@[0] == 'r' && "rounded-b"@[1] == 'o' && "rounded-b"@[2] == 'u');
    assert("rounded-b"@[3] == 'n' && "rounded-b"@[4] == 'd' && "rounded-b"@[5] == 'e' && "rounded-b"@[6] == 'd');
    assert("rounded-b"@[7] == '-' && "rounded-b"@[8] == 'b');
    reveal_strlit("rounded-l");
    assert("rounded-l"@.len() == 9 && "rounded-l"@[0] == 'r' && "rounded-l"@[1] == 'o' && "rounded-l"@[2] == 'u');
    assert("rounded-l"@[3] == 'n' && "rounded-l"@[4] == 'd' && "rounded-l"@[5] == 'e' && "rounded-l"@[6] == 'd');
    assert("rounded-l"@[7] == '-' && "rounded-l"@[8] == 'l');
    reveal_strlit("rounded-tl");
    assert("rounded-tl"@.len() == 10 && "rounded-tl"@[0] == 'r' && "rounded-tl"@[1] == 'o' && "rounded-tl"@[2] == 'u');
    assert("rounded-tl"@[3] == 'n' && "rounded-tl"@[4] == 'd' && "rounded-tl"@[5] == 'e' && "rounded-tl"@[6] == 'd');
    assert("rounded-tl"@[7] == '-' && "rounded-tl"@[8] == 't' && "rounded-tl"@[9] == 'l');
    reveal_strlit("rounded-tr");
    assert("rounded-tr"@.len() == 10 && "rounded-tr"@[0] == 'r' && "rounded-tr"@[1] == 'o' && "rounded-tr"@[2] == 'u');
    assert("rounded-tr"@[3] == 'n' && "rounded-tr"@[4] == 'd' && "rounded-tr"@[5] == 'e' && "rounded-tr"@[6] == 'd');
    assert("rounded-tr"@[7] == '-' && "rounded-tr"@[8] == 't' && "rounded-tr"@[9] == 'r');
    reveal_strlit("rounded-br");
    assert("rounded-br"@.len() == 10 && "rounded-br"@[0] == 'r' && "rounded-br"@[1] == 'o' && "rounded-br"@[2] == 'u');
    assert("rounded-br"@[3] == 'n' && "rounded-br"@[4] == 'd' && "rounded-br"@[5] == 'e' && "rounded-br"@[6] == 'd');
    assert("rounded-br"@[7] == '-' && "rounded-br"@[8] == 'b' && "rounded-br"@[9] == 'r');
    reveal_strlit("rounded-bl");
    assert("rounded-bl"@.len() == 10 && "rounded-bl"@[0] == 'r' && "rounded-bl"@[1] == 'o' && "rounded-bl"@[2] == 'u');
    assert("rounded-bl"@[3] == 'n' && "rounded-bl"@[4] == 'd' && "rounded-bl"@[5] == 'e' && "rounded-bl"@[6] == 'd');
    assert("rounded-bl"@[7] == '-' && "rounded-bl"@[8] == 'b' && "rounded-bl"@[9] == 'l');
    let name = first.name();
    assert(name.len() == second.name().len());
    assert(name.len() > 0 ==> name[0] == second.name()[0]);
    assert(name.len() > 1 ==> name[1] == second.name()[1]);
    assert(name.len() > 2 ==> name[2] == second.name()[2]);
    assert(name.len() > 3 ==> name[3] == second.name()[3]);
    assert(name.len() > 4 ==> name[4] == second.name()[4]);
    assert(name.len() > 5 ==> name[5] == second.name()[5]);
    assert(name.len() > 6 ==> name[6] == second.name()[6]);
    assert(name.len() > 7 ==> name[7] == second.name()[7]);
    assert(name.len() > 8 ==> name[8] == second.name()[8]);
    assert(name.len() > 9 ==> name[9] == second.name()[9]);
}

/// Two named amounts with one spelling are the same amount.
pub proof fn amount_names_differ(first: Amount, second: Amount)
    requires
        first.is_named(),
        second.is_named(),
        first.name() == second.name(),
    ensures
        first == second,
{
    reveal_strlit("0");
    assert("0"@.len() == 1 && "0"@[0] == '0');
    reveal_strlit("0.5");
    assert("0.5"@.len() == 3 && "0.5"@[0] == '0' && "0.5"@[1] == '.' && "0.5"@[2] == '5');
    reveal_strlit("1");
    assert("1"@.len() == 1 && "1"@[0] == '1');
    reveal_strlit("1.5");
    assert("1.5"@.len() == 3 && "1.5"@[0] == '1' && "1.5"@[1] == '.' && "1.5"@[2] == '5');
    reveal_strlit("2");
    assert("2"@.len() == 1 && "2"@[0] == '2');
    reveal_strlit("2.5");
    assert("2.5"@.len() == 3 && "2.5"@[0] == '2' && "2.5"@[1] == '.' && "2.5"@[2] == '5');
    reveal_strlit("3");
    assert("3"@.len() == 1 && "3"@[0] == '3');
    reveal_strlit("3.5");
    assert("3.5"@.len() == 3 && "3.5"@[0] == '3' && "3.5"@[1] == '.' && "3.5"@[2] == '5');
    reveal_strlit("4");
    assert("4"@.len() == 1 && "4"@[0] == '4');
    reveal_strlit("5");
    assert("5"@.len() == 1 && "5"@[0] == '5');
    reveal_strlit("6");
    assert("6"@.len() == 1 && "6"@[0] == '6');
    reveal_strlit("8");
    assert("8"@.len() == 1 && "8"@[0] == '8');
    reveal_strlit("10");
    assert("10"@.len() == 2 && "10"@[0] == '1' && "10"@[1] == '0');
    reveal_strlit("12");
    assert("12"@.len() == 2 && "12"@[0] == '1' && "12"@[1] == '2');
    reveal_strlit("16");
    assert("16"@.len() == 2 && "16"@[0] == '1' && "16"@[1] == '6');
    reveal_strlit("20");
    assert("20"@.len() == 2 && "20"@[0] == '2' && "20"@[1] == '0');
    reveal_strlit("24");
    assert("24"@.len() == 2 && "24"@[0] == '2' && "24"@[1] == '4');
    reveal_strlit("32");
    assert("32"@.len() == 2 && "32"@[0] == '3' && "32"@[1] == '2');
    reveal_strlit("40");
    assert("40"@.len() == 2 && "40"@[0] == '4' && "40"@[1] == '0');
    reveal_strlit("48");
    assert("48"@.len() == 2 && "48"@[0] == '4' && "48"@[1] == '8');
    reveal_strlit("56");
    assert("56"@.len() == 2 && "56"@[0] == '5' && "56"@[1] == '6');
    reveal_strlit("64");
    assert("64"@.len() == 2 && "64"@[0] == '6' && "64"@[1] == '4');
    reveal_strlit("72");
    assert("72"@.len() == 2 && "72"@[0] == '7' && "72"@[1] == '2');
    reveal_strlit("80");
    assert("80"@.len() == 2 && "80"@[0] == '8' && "80"@[1] == '0');
    reveal_strlit("96");
    assert("96"@.len() == 2 && "96"@[0] == '9' && "96"@[1] == '6');
    reveal_strlit("px");
    assert("px"@.len() == 2 && "px"@[0] == 'p' && "px"@[1] == 'x');
    reveal_strlit("auto");
    assert("auto"@.len() == 4 && "auto"@[0] == 'a' && "auto"@[1] == 'u' && "auto"@[2] == 't');
    assert("auto"@[3] == 'o');
    reveal_strlit("full");
    assert("full"@.len() == 4 && "full"@[0] == 'f' && "full"@[1] == 'u' && "full"@[2] == 'l');
    assert("full"@[3] == 'l');
    reveal_strlit("none");
    assert("none"@.len() == 4 && "none"@[0] == 'n' && "none"@[1] == 'o' && "none"@[2] == 'n');
    assert("none"@[3] == 'e');
    reveal_strlit("sm");
    assert("sm"@.len() == 2 && "sm"@[0] == 's' && "sm"@[1] == 'm');
    reveal_strlit("md");
    assert("md"@.len() == 2 && "md"@[0] == 'm' && "md"@[1] == 'd');
    reveal_strlit("lg");
    assert("lg"@.len() == 2 && "lg"@[0] == 'l' && "lg"@[1] == 'g');
    reveal_strlit("solid");
    assert("solid"@.len() == 5 && "solid"@[0] == 's' && "solid"@[1] == 'o' && "solid"@[2] == 'l');
    assert("solid"@[3] == 'i' && "solid"@[4] == 'd');
    let name = first.name();
    assert(name.len() == second.name().len());
    assert(name.len() > 0 ==> name[0] == second.name()[0]);
    assert(name.len() > 1 ==> name[1] == second.name()[1]);
    assert(name.len() > 2 ==> name[2] == second.name()[2]);
    assert(name.len() > 3 ==> name[3] == second.name()[3]);
    assert(name.len() > 4 ==> name[4] == second.name()[4]);
}

/// Two fractions of the table with one spelling are the same fraction.
pub proof fn fraction_names_differ(n1: u8, d1: u8, n2: u8, d2: u8)
    requires
        is_fraction(n1, d1),
        is_fraction(n2, d2),
        fraction_name(n1, d1) == fraction_name(n2, d2),
    ensures
        n1 == n2,
        d1 == d2,
{
    reveal_strlit("1/2");
    assert("1/2"@.len() == 3 && "1/2"@[0] == '1' && "1/2"@[1] == '/' && "1/2"@[2] == '2');
    reveal_strlit("1/3");
    assert("1/3"@.len() == 3 && "1/3"@[0] == '1' && "1/3"@[1] == '/' && "1/3"@[2] == '3');
    reveal_strlit("2/3");
    assert("2/3"@.len() == 3 && "2/3"@[0] == '2' && "2/3"@[1] == '/' && "2/3"@[2] == '3');
    reveal_strlit("1/4");
    assert("1/4"@.len() == 3 && "1/4"@[0] == '1' && "1/4"@[1] == '/' && "1/4"@[2] == '4');
    reveal_strlit("2/4");
    assert("2/4"@.len() == 3 && "2/4"@[0] == '2' && "2/4"@[1] == '/' && "2/4"@[2] == '4');
    reveal_strlit("3/4");
    assert("3/4"@.len() == 3 && "3/4"@[0] == '3' && "3/4"@[1] == '/' && "3/4"@[2] == '4');
    reveal_strlit("1/5");
    assert("1/5"@.len() == 3 && "1/5"@[0] == '1' && "1/5"@[1] == '/' && "1/5"@[2] == '5');
    reveal_strlit("2/5");
    assert("2/5"@.len() == 3 && "2/5"@[0] == '2' && "2/5"@[1] == '/' && "2/5"@[2] == '5');
    reveal_strlit("3/5");
    assert("3/5"@.len() == 3 && "3/5"@[0] == '3' && "3/5"@[1] == '/' && "3/5"@[2] == '5');
    reveal_strlit("4/5");
    assert("4/5"@.len() == 3 && "4/5"@[0] == '4' && "4/5"@[1] == '/' && "4/5"@[2] == '5');
    reveal_strlit("1/6");
    assert("1/6"@.len() == 3 && "1/6"@[0] == '1' && "1/6"@[1] == '/' && "1/6"@[2] == '6');
    reveal_strlit("5/6");
    assert("5/6"@.len() == 3 && "5/6"@[0] == '5' && "5/6"@[1] == '/' && "5/6"@[2] == '6');
    reveal_strlit("1/12");
    assert("1/12"@.len() == 4 && "1/12"@[0] == '1' && "1/12"@[1] == '/' && "1/12"@[2] == '1');
    assert("1/12"@[3] == '2');
    let name = fraction_name(n1, d1);
    assert(name.len() == fraction_name(n2, d2).len());
    assert(name.len() > 0 ==> name[0] == fraction_name(n2, d2)[0]);
    assert(name.len() > 1 ==> name[1] == fraction_name(n2, d2)[1]);
    assert(name.len() > 2 ==> name[2] == fraction_name(n2, d2)[2]);
    assert(name.len() > 3 ==> name[3] == fraction_name(n2, d2)[3]);
}

/// No spelling of an amount or of a fraction holds a dash.
pub proof fn value_names_hold_no_dash()
    ensures
        forall|amount: Amount| amount.is_named() ==> !(#[trigger] amount.name()).contains('-'),
        forall|numerator: u8, denominator: u8|
            is_fraction(numerator, denominator) ==> !(#[trigger] fraction_name(
                numerator,
                denominator,
            )).contains('-'),
{
    reveal_strlit("0");
    assert("0"@.len() == 1 && "0"@[0] == '0');
    reveal_strlit("0.5");
    assert("0.5"@.len() == 3 && "0.5"@[0] == '0' && "0.5"@[1] == '.' && "0.5"@[2] == '5');
    reveal_strlit("1");
    assert("1"@.len() == 1 && "1"@[0] == '1');
    reveal_strlit("1.5");
    assert("1.5"@.len() == 3 && "1.5"@[0] == '1' && "1.5"@[1] == '.' && "1.5"@[2] == '5');
    reveal_strlit("2");
    assert("2"@.len() == 1 && "2"@[0] == '2');
    reveal_strlit("2.5");
    assert("2.5"@.len() == 3 && "2.5"@[0] == '2' && "2.5"@[1] == '.' && "2.5"@[2] == '5');
    reveal_strlit("3");
    assert("3"@.len() == 1 && "3"@[0] == '3');
    reveal_strlit("3.5");
    assert("3.5"@.len() == 3 && "3.5"@[0] == '3' && "3.5"@[1] == '.' && "3.5"@[2] == '5');
    reveal_strlit("4");
    assert("4"@.len() == 1 && "4"@[0] == '4');
    reveal_strlit("5");
    assert("5"@.len() == 1 && "5"@[0] == '5');
    reveal_strlit("6");
    assert("6"@.len() == 1 && "6"@[0] == '6');
    reveal_strlit("8");
    assert("8"@.len() == 1 && "8"@[0] == '8');
    reveal_strlit("10");
    assert("10"@.len() == 2 && "10"@[0] == '1' && "10"@[1] == '0');
    reveal_strlit("12");
    assert("12"@.len() == 2 && "12"@[0] == '1' && "12"@[1] == '2');
    reveal_strlit("16");
    assert("16"@.len() == 2 && "16"@[0] == '1' && "16"@[1] == '6');
    reveal_strlit("20");
    assert("20"@.len() == 2 && "20"@[0] == '2' && "20"@[1] == '0');
    reveal_strlit("24");
    assert("24"@.len() == 2 && "24"@[0] == '2' && "24"@[1] == '4');
    reveal_strlit("32");
    assert("32"@.len() == 2 && "32"@[0] == '3' && "32"@[1] == '2');
    reveal_strlit("40");
    assert("40"@.len() == 2 && "40"@[0] == '4' && "40"@[1] == '0');
    reveal_strlit("48");
    assert("48"@.len() == 2 && "48"@[0] == '4' && "48"@[1] == '8');
    reveal_strlit("56");
    assert("56"@.len() == 2 && "56"@[0] == '5' && "56"@[1] == '6');
    reveal_strlit("64");
    assert("64"@.len() == 2 && "64"@[0] == '6' && "64"@[1] == '4');
    reveal_strlit("72");
    assert("72"@.len() == 2 && "72"@[0] == '7' && "72"@[1] == '2');
    reveal_strlit("80");
    assert("80"@.len() == 2 && "80"@[0] == '8' && "80"@[1] == '0');
    reveal_strlit("96");
    assert("96"@.len() == 2 && "96"@[0] == '9' && "96"@[1] == '6');
    reveal_strlit("px");
    assert("px"@.len() == 2 && "px"@[0] == 'p' && "px"@[1] == 'x');
    reveal_strlit("auto");
    assert("auto"@.len() == 4 && "auto"@[0] == 'a' && "auto"@[1] == 'u' && "auto"@[2] == 't');
    assert("auto"@[3] == 'o');
    reveal_strlit("full");
    assert("full"@.len() == 4 && "full"@[0] == 'f' && "full"@[1] == 'u' && "full"@[2] == 'l');
    assert("full"@[3] == 'l');
    reveal_strlit("none");
    assert("none"@.len() == 4 && "none"@[0] == 'n' && "none"@[1] == 'o' && "none"@[2] == 'n');
    assert("none"@[3] == 'e');
    reveal_strlit("sm");
    assert("sm"@.len() == 2 && "sm"@[0] == 's' && "sm"@[1] == 'm');
    reveal_strlit("md");
    assert("md"@.len() == 2 && "md"@[0] == 'm' && "md"@[1] == 'd');
    reveal_strlit("lg");
    assert("lg"@.len() == 2 && "lg"@[0] == 'l' && "lg"@[1] == 'g');
    reveal_strlit("solid");
    assert("solid"@.len() == 5 && "solid"@[0] == 's' && "solid"@[1] == 'o' && "solid"@[2] == 'l');
    assert("solid"@[3] == 'i' && "solid"@[4] == 'd');
    reveal_strlit("1/2");
    assert("1/2"@.len() == 3 && "1/2"@[0] == '1' && "1/2"@[1] == '/' && "1/2"@[2] == '2');
    reveal_strlit("1/3");
    assert("1/3"@.len() == 3 && "1/3"@[0] == '1' && "1/3"@[1] == '/' && "1/3"@[2] == '3');
    reveal_strlit("2/3");
    assert("2/3"@.len() == 3 && "2/3"@[0] == '2' && "2/3"@[1] == '/' && "2/3"@[2] == '3');
    reveal_strlit("1/4");
    assert("1/4"@.len() == 3 && "1/4"@[0] == '1' && "1/4"@[1] == '/' && "1/4"@[2] == '4');
    reveal_strlit("2/4");
    assert("2/4"@.len() == 3 && "2/4"@[0] == '2' && "2/4"@[1] == '/' && "2/4"@[2] == '4');
    reveal_strlit("3/4");
    assert("3/4"@.len() == 3 && "3/4"@[0] == '3' && "3/4"@[1] == '/' && "3/4"@[2] == '4');
    reveal_strlit("1/5");
    assert("1/5"@.len() == 3 && "1/5"@[0] == '1' && "1/5"@[1] == '/' && "1/5"@[2] == '5');
    reveal_strlit("2/5");
    assert("2/5"@.len() == 3 && "2/5"@[0] == '2' && "2/5"@[1] == '/' && "2/5"@[2] == '5');
    reveal_strlit("3/5");
    assert("3/5"@.len() == 3 && "3/5"@[0] == '3' && "3/5"@[1] == '/' && "3/5"@[2] == '5');
    reveal_strlit("4/5");
    assert("4/5"@.len() == 3 && "4/5"@[0] == '4' && "4/5"@[1] == '/' && "4/5"@[2] == '5');
    reveal_strlit("1/6");
    assert("1/6"@.len() == 3 && "1/6"@[0] == '1' && "1/6"@[1] == '/' && "1/6"@[2] == '6');
    reveal_strlit("5/6");
    assert("5/6"@.len() == 3 && "5/6"@[0] == '5' && "5/6"@[1] == '/' && "5/6"@[2] == '6');
    reveal_strlit("1/12");
    assert("1/12"@.len() == 4 && "1/12"@[0] == '1' && "1/12"@[1] == '/' && "1/12"@[2] == '1');
    assert("1/12"@[3] == '2');
    assert forall|amount: Amount| amount.is_named() implies !(#[trigger] amount.name()).contains(
        '-',
    ) by {
        let name = amount.name();
        assert(forall|i: int| 0 <= i < name.len() ==> name[i] != '-');
    }
    assert forall|numerator: u8, denominator: u8|
        is_fraction(numerator, denominator) implies !(#[trigger] fraction_name(
        numerator,
        denominator,
    )).contains('-') by {
        let name = fraction_name(numerator, denominator);
        assert(forall|i: int| 0 <= i < name.len() ==> name[i] != '-');
    }
}

/// A token that has the shape of a property with a value is split at its last
/// dash.
proof fn split_at_value(token: Seq<char>, head: Seq<char>, value: Seq<char>, at: int)
    requires
        token == head + seq!['-'] + value,
        !value.contains('-'),
        0 <= at < token.len(),
        token[at] == '-',
        forall|i: int| at < i < token.len() ==> token[i] != '-',
    ensures
        at == head.len(),
        token.subrange(0, at) == head,
        token.subrange(at + 1, token.len() as int) == value,
{
    assert(token[head.len() as int] == '-');
    if at > head.len() {
        assert(token[at] == value[at - head.len() - 1]);
        assert(value.contains('-'));
    }
    assert(token.subrange(0, at) =~= head);
    assert(token.subrange(at + 1, token.len() as int) =~= value);
}

/// Two flags with one name are the same flag.
pub proof fn flag_names_differ(first: Flag, second: Flag)
    requires
        first.name() == second.name(),
    ensures
        first == second,
{
    reveal_strlit("flex");
    assert("flex"@.len() == 4 && "flex"@[0] == 'f' && "flex"@[1] == 'l' && "flex"@[2] == 'e');
    assert("flex"@[3] == 'x');
    reveal_strlit("block");
    assert("block"@.len() == 5 && "block"@[0] == 'b' && "block"@[1] == 'l' && "block"@[2] == 'o');
    assert("block"@[3] == 'c' && "block"@[4] == 'k');
    reveal_strlit("absolute");
    assert("absolute"@.len() == 8 && "absolute"@[0] == 'a' && "absolute"@[1] == 'b' && "absolute"@[2] == 's');
    assert("absolute"@[3] == 'o' && "absolute"@[4] == 'l' && "absolute"@[5] == 'u' && "absolute"@[6] == 't');
    assert("absolute"@[7] == 'e');
    reveal_strlit("relative");
    assert("relative"@.len() == 8 && "relative"@[0] == 'r' && "relative"@[1] == 'e' && "relative"@[2] == 'l');
    assert("relative"@[3] == 'a' && "relative"@[4] == 't' && "relative"@[5] == 'i' && "relative"@[6] == 'v');
    assert("relative"@[7] == 'e');
    reveal_strlit("visible");
    assert("visible"@.len() == 7 && "visible"@[0] == 'v' && "visible"@[1] == 'i' && "visible"@[2] == 's');
    assert("visible"@[3] == 'i' && "visible"@[4] == 'b' && "visible"@[5] == 'l' && "visible"@[6] == 'e');
    reveal_strlit("invisible");
    assert("invisible"@.len() == 9 && "invisible"@[0] == 'i' && "invisible"@[1] == 'n' && "invisible"@[2] == 'v');
    assert("invisible"@[3] == 'i' && "invisible"@[4] == 's' && "invisible"@[5] == 'i' && "invisible"@[6] == 'b');
    assert("invisible"@[7] == 'l' && "invisible"@[8] == 'e');
    reveal_strlit("overflow-hidden");
    assert("overflow-hidden"@.len() == 15 && "overflow-hidden"@[0] == 'o' && "overflow-hidden"@[1] == 'v' && "overflow-hidden"@[2] == 'e');
    assert("overflow-hidden"@[3] == 'r' && "overflow-hidden"@[4] == 'f' && "overflow-hidden"@[5] == 'l' && "overflow-hidden"@[6] == 'o');
    assert("overflow-hidden"@[7] == 'w' && "overflow-hidden"@[8] == '-' && "overflow-hidden"@[9] == 'h' && "overflow-hidden"@[10] == 'i');
    assert("overflow-hidden"@[11] == 'd' && "overflow-hidden"@[12] == 'd' && "overflow-hidden"@[13] == 'e' && "overflow-hidden"@[14] == 'n');
    reveal_strlit("overflow-x-hidden");
    assert("overflow-x-hidden"@.len() == 17 && "overflow-x-hidden"@[0] == 'o' && "overflow-x-hidden"@[1] == 'v' && "overflow-x-hidden"@[2] == 'e');
    assert("overflow-x-hidden"@[3] == 'r' && "overflow-x-hidden"@[4] == 'f' && "overflow-x-hidden"@[5] == 'l' && "overflow-x-hidden"@[6] == 'o');
    assert("overflow-x-hidden"@[7] == 'w' && "overflow-x-hidden"@[8] == '-' && "overflow-x-hidden"@[9] == 'x' && "overflow-x-hidden"@[10] == '-');
    assert("overflow-x-hidden"@[11] == 'h' && "overflow-x-hidden"@[12] == 'i' && "overflow-x-hidden"@[13] == 'd' && "overflow-x-hidden"@[14] == 'd');
    assert("overflow-x-hidden"@[15] == 'e' && "overflow-x-hidden"@[16] == 'n');
    reveal_strlit("overflow-y-hidden");
    assert("overflow-y-hidden"@.len() == 17 && "overflow-y-hidden"@[0] == 'o' && "overflow-y-hidden"@[1] == 'v' && "overflow-y-hidden"@[2] == 'e');
    assert("overflow-y-hidden"@[3] == 'r' && "overflow-y-hidden"@[4] == 'f' && "overflow-y-hidden"@[5] == 'l' && "overflow-y-hidden"@[6] == 'o');
    assert("overflow-y-hidden"@[7] == 'w' && "overflow-y-hidden"@[8] == '-' && "overflow-y-hidden"@[9] == 'y' && "overflow-y-hidden"@[10] == '-');
    assert("overflow-y-hidden"@[11] == 'h' && "overflow-y-hidden"@[12] == 'i' && "overflow-y-hidden"@[13] == 'd' && "overflow-y-hidden"@[14] == 'd');
    assert("overflow-y-hidden"@[15] == 'e' && "overflow-y-hidden"@[16] == 'n');
    reveal_strlit("cursor-default");
    assert("cursor-default"@.len() == 14 && "cursor-default"@[0] == 'c' && "cursor-default"@[1] == 'u' && "cursor-default"@[2] == 'r');
    assert("cursor-default"@[3] == 's' && "cursor-default"@[4] == 'o' && "cursor-default"@[5] == 'r' && "cursor-default"@[6] == '-');
    assert("cursor-default"@[7] == 'd' && "cursor-default"@[8] == 'e' && "cursor-default"@[9] == 'f' && "cursor-default"@[10] == 'a');
    assert("cursor-default"@[11] == 'u' && "cursor-default"@[12] == 'l' && "cursor-default"@[13] == 't');
    reveal_strlit("cursor-pointer");
    assert("cursor-pointer"@.len() == 14 && "cursor-pointer"@[0] == 'c' && "cursor-pointer"@[1] == 'u' && "cursor-pointer"@[2] == 'r');
    assert("cursor-pointer"@[3] == 's' && "cursor-pointer"@[4] == 'o' && "cursor-pointer"@[5] == 'r' && "cursor-pointer"@[6] == '-');
    assert("cursor-pointer"@[7] == 'p' && "cursor-pointer"@[8] == 'o' && "cursor-pointer"@[9] == 'i' && "cursor-pointer"@[10] == 'n');
    assert("cursor-pointer"@[11] == 't' && "cursor-pointer"@[12] == 'e' && "cursor-pointer"@[13] == 'r');
    reveal_strlit("cursor-text");
    assert("cursor-text"@.len() == 11 && "cursor-text"@[0] == 'c' && "cursor-text"@[1] == 'u' && "cursor-text"@[2] == 'r');
    assert("cursor-text"@[3] == 's' && "cursor-text"@[4] == 'o' && "cursor-text"@[5] == 'r' && "cursor-text"@[6] == '-');
    assert("cursor-text"@[7] == 't' && "cursor-text"@[8] == 'e' && "cursor-text"@[9] == 'x' && "cursor-text"@[10] == 't');
    reveal_strlit("cursor-move");
    assert("cursor-move"@.len() == 11 && "cursor-move"@[0] == 'c' && "cursor-move"@[1] == 'u' && "cursor-move"@[2] == 'r');
    assert("cursor-move"@[3] == 's' && "cursor-move"@[4] == 'o' && "cursor-move"@[5] == 'r' && "cursor-move"@[6] == '-');
    assert("cursor-move"@[7] == 'm' && "cursor-move"@[8] == 'o' && "cursor-move"@[9] == 'v' && "cursor-move"@[10] == 'e');
    reveal_strlit("cursor-not-allowed");
    assert("cursor-not-allowed"@.len() == 18 && "cursor-not-allowed"@[0] == 'c' && "cursor-not-allowed"@[1] == 'u' && "cursor-not-allowed"@[2] == 'r');
    assert("cursor-not-allowed"@[3] == 's' && "cursor-not-allowed"@[4] == 'o' && "cursor-not-allowed"@[5] == 'r' && "cursor-not-allowed"@[6] == '-');
    assert("cursor-not-allowed"@[7] == 'n' && "cursor-not-allowed"@[8] == 'o' && "cursor-not-allowed"@[9] == 't' && "cursor-not-allowed"@[10] == '-');
    assert("cursor-not-allowed"@[11] == 'a' && "cursor-not-allowed"@[12] == 'l' && "cursor-not-allowed"@[13] == 'l' && "cursor-not-allowed"@[14] == 'o');
    assert("cursor-not-allowed"@[15] == 'w' && "cursor-not-allowed"@[16] == 'e' && "cursor-not-allowed"@[17] == 'd');
    reveal_strlit("cursor-context-menu");
    assert("cursor-context-menu"@.len() == 19 && "cursor-context-menu"@[0] == 'c' && "cursor-context-menu"@[1] == 'u' && "cursor-context-menu"@[2] == 'r');
    assert("cursor-context-menu"@[3] == 's' && "cursor-context-menu"@[4] == 'o' && "cursor-context-menu"@[5] == 'r' && "cursor-context-menu"@[6] == '-');
    assert("cursor-context-menu"@[7] == 'c' && "cursor-context-menu"@[8] == 'o' && "cursor-context-menu"@[9] == 'n' && "cursor-context-menu"@[10] == 't');
    assert("cursor-context-menu"@[11] == 'e' && "cursor-context-menu"@[12] == 'x' && "cursor-context-menu"@[13] == 't' && "cursor-context-menu"@[14] == '-');
    assert("cursor-context-menu"@[15] == 'm' && "cursor-context-menu"@[16] == 'e' && "cursor-context-menu"@[17] == 'n' && "cursor-context-menu"@[18] == 'u');
    reveal_strlit("cursor-crosshair");
    assert("cursor-crosshair"@.len() == 16 && "cursor-crosshair"@[0] == 'c' && "cursor-crosshair"@[1] == 'u' && "cursor-crosshair"@[2] == 'r');
    assert("cursor-crosshair"@[3] == 's' && "cursor-crosshair"@[4] == 'o' && "cursor-crosshair"@[5] == 'r' && "cursor-crosshair"@[6] == '-');
    assert("cursor-crosshair"@[7] == 'c' && "cursor-crosshair"@[8] == 'r' && "cursor-crosshair"@[9] == 'o' && "cursor-crosshair"@[10] == 's');
    assert("cursor-crosshair"@[11] == 's' && "cursor-crosshair"@[12] == 'h' && "cursor-crosshair"@[13] == 'a' && "cursor-crosshair"@[14] == 'i');
    assert("cursor-crosshair"@[15] == 'r');
    reveal_strlit("cursor-vertical-text");
    assert("cursor-vertical-text"@.len() == 20 && "cursor-vertical-text"@[0] == 'c' && "cursor-vertical-text"@[1] == 'u' && "cursor-vertical-text"@[2] == 'r');
    assert("cursor-vertical-text"@[3] == 's' && "cursor-vertical-text"@[4] == 'o' && "cursor-vertical-text"@[5] == 'r' && "cursor-vertical-text"@[6] == '-');
    assert("cursor-vertical-text"@[7] == 'v' && "cursor-vertical-text"@[8] == 'e' && "cursor-vertical-text"@[9] == 'r' && "cursor-vertical-text"@[10] == 't');
    assert("cursor-vertical-text"@[11] == 'i' && "cursor-vertical-text"@[12] == 'c' && "cursor-vertical-text"@[13] == 'a' && "cursor-vertical-text"@[14] == 'l');
    assert("cursor-vertical-text"@[15] == '-' && "cursor-vertical-text"@[16] == 't' && "cursor-vertical-text"@[17] == 'e' && "cursor-vertical-text"@[18] == 'x');
    assert("cursor-vertical-text"@[19] == 't');
    reveal_strlit("cursor-alias");
    assert("cursor-alias"@.len() == 12 && "cursor-alias"@[0] == 'c' && "cursor-alias"@[1] == 'u' && "cursor-alias"@[2] == 'r');
    assert("cursor-alias"@[3] == 's' && "cursor-alias"@[4] == 'o' && "cursor-alias"@[5] == 'r' && "cursor-alias"@[6] == '-');
    assert("cursor-alias"@[7] == 'a' && "cursor-alias"@[8] == 'l' && "cursor-alias"@[9] == 'i' && "cursor-alias"@[10] == 'a');
    assert("cursor-alias"@[11] == 's');
    reveal_strlit("cursor-copy");
    assert("cursor-copy"@.len() == 11 && "cursor-copy"@[0] == 'c' && "cursor-copy"@[1] == 'u' && "cursor-copy"@[2] == 'r');
    assert("cursor-copy"@[3] == 's' && "cursor-copy"@[4] == 'o' && "cursor-copy"@[5] == 'r' && "cursor-copy"@[6] == '-');
    assert("cursor-copy"@[7] == 'c' && "cursor-copy"@[8] == 'o' && "cursor-copy"@[9] == 'p' && "cursor-copy"@[10] == 'y');
    reveal_strlit("cursor-no-drop");
    assert("cursor-no-drop"@.len() == 14 && "cursor-no-drop"@[0] == 'c' && "cursor-no-drop"@[1] == 'u' && "cursor-no-drop"@[2] == 'r');
    assert("cursor-no-drop"@[3] == 's' && "cursor-no-drop"@[4] == 'o' && "cursor-no-drop"@[5] == 'r' && "cursor-no-drop"@[6] == '-');
    assert("cursor-no-drop"@[7] == 'n' && "cursor-no-drop"@[8] == 'o' && "cursor-no-drop"@[9] == '-' && "cursor-no-drop"@[10] == 'd');
    assert("cursor-no-drop"@[11] == 'r' && "cursor-no-drop"@[12] == 'o' && "cursor-no-drop"@[13] == 'p');
    reveal_strlit("cursor-grab");
    assert("cursor-grab"@.len() == 11 && "cursor-grab"@[0] == 'c' && "cursor-grab"@[1] == 'u' && "cursor-grab"@[2] == 'r');
    assert("cursor-grab"@[3] == 's' && "cursor-grab"@[4] == 'o' && "cursor-grab"@[5] == 'r' && "cursor-grab"@[6] == '-');
    assert("cursor-grab"@[7] == 'g' && "cursor-grab"@[8] == 'r' && "cursor-grab"@[9] == 'a' && "cursor-grab"@[10] == 'b');
    reveal_strlit("cursor-grabbing");
    assert("cursor-grabbing"@.len() == 15 && "cursor-grabbing"@[0] == 'c' && "cursor-grabbing"@[1] == 'u' && "cursor-grabbing"@[2] == 'r');
    assert("cursor-grabbing"@[3] == 's' && "cursor-grabbing"@[4] == 'o' && "cursor-grabbing"@[5] == 'r' && "cursor-grabbing"@[6] == '-');
    assert("cursor-grabbing"@[7] == 'g' && "cursor-grabbing"@[8] == 'r' && "cursor-grabbing"@[9] == 'a' && "cursor-grabbing"@[10] == 'b');
    assert("cursor-grabbing"@[11] == 'b' && "cursor-grabbing"@[12] == 'i' && "cursor-grabbing"@[13] == 'n' && "cursor-grabbing"@[14] == 'g');
    reveal_strlit("cursor-col-resize");
    assert("cursor-col-resize"@.len() == 17 && "cursor-col-resize"@[0] == 'c' && "cursor-col-resize"@[1] == 'u' && "cursor-col-resize"@[2] == 'r');
    assert("cursor-col-resize"@[3] == 's' && "cursor-col-resize"@[4] == 'o' && "cursor-col-resize"@[5] == 'r' && "cursor-col-resize"@[6] == '-');
    assert("cursor-col-resize"@[7] == 'c' && "cursor-col-resize"@[8] == 'o' && "cursor-col-resize"@[9] == 'l' && "cursor-col-resize"@[10] == '-');
    assert("cursor-col-resize"@[11] == 'r' && "cursor-col-resize"@[12] == 'e' && "cursor-col-resize"@[13] == 's' && "cursor-col-resize"@[14] == 'i');
    assert("cursor-col-resize"@[15] == 'z' && "cursor-col-resize"@[16] == 'e');
    reveal_strlit("cursor-row-resize");
    assert("cursor-row-resize"@.len() == 17 && "cursor-row-resize"@[0] == 'c' && "cursor-row-resize"@[1] == 'u' && "cursor-row-resize"@[2] == 'r');
    assert("cursor-row-resize"@[3] == 's' && "cursor-row-resize"@[4] == 'o' && "cursor-row-resize"@[5] == 'r' && "cursor-row-resize"@[6] == '-');
    assert("cursor-row-resize"@[7] == 'r' && "cursor-row-resize"@[8] == 'o' && "cursor-row-resize"@[9] == 'w' && "cursor-row-resize"@[10] == '-');
    assert("cursor-row-resize"@[11] == 'r' && "cursor-row-resize"@[12] == 'e' && "cursor-row-resize"@[13] == 's' && "cursor-row-resize"@[14] == 'i');
    assert("cursor-row-resize"@[15] == 'z' && "cursor-row-resize"@[16] == 'e');
    reveal_strlit("cursor-n-resize");
    assert("cursor-n-resize"@.len() == 15 && "cursor-n-resize"@[0] == 'c' && "cursor-n-resize"@[1] == 'u' && "cursor-n-resize"@[2] == 'r');
    assert("cursor-n-resize"@[3] == 's' && "cursor-n-resize"@[4] == 'o' && "cursor-n-resize"@[5] == 'r' && "cursor-n-resize"@[6] == '-');
    assert("cursor-n-resize"@[7] == 'n' && "cursor-n-resize"@[8] == '-' && "cursor-n-resize"@[9] == 'r' && "cursor-n-resize"@[10] == 'e');
    assert("cursor-n-resize"@[11] == 's' && "cursor-n-resize"@[12] == 'i' && "cursor-n-resize"@[13] == 'z' && "cursor-n-resize"@[14] == 'e');
    reveal_strlit("cursor-e-resize");
    assert("cursor-e-resize"@.len() == 15 && "cursor-e-resize"@[0] == 'c' && "cursor-e-resize"@[1] == 'u' && "cursor-e-resize"@[2] == 'r');
    assert("cursor-e-resize"@[3] == 's' && "cursor-e-resize"@[4] == 'o' && "cursor-e-resize"@[5] == 'r' && "cursor-e-resize"@[6] == '-');
    assert("cursor-e-resize"@[7] == 'e' && "cursor-e-resize"@[8] == '-' && "cursor-e-resize"@[9] == 'r' && "cursor-e-resize"@[10] == 'e');
    assert("cursor-e-resize"@[11] == 's' && "cursor-e-resize"@[12] == 'i' && "cursor-e-resize"@[13] == 'z' && "cursor-e-resize"@[14] == 'e');
    reveal_strlit("cursor-s-resize");
    assert("cursor-s-resize"@.len() == 15 && "cursor-s-resize"@[0] == 'c' && "cursor-s-resize"@[1] == 'u' && "cursor-s-resize"@[2] == 'r');
    assert("cursor-s-resize"@[3] == 's' && "cursor-s-resize"@[4] == 'o' && "cursor-s-resize"@[5] == 'r' && "cursor-s-resize"@[6] == '-');
    assert("cursor-s-resize"@[7] == 's' && "cursor-s-resize"@[8] == '-' && "cursor-s-resize"@[9] == 'r' && "cursor-s-resize"@[10] == 'e');
    assert("cursor-s-resize"@[11] == 's' && "cursor-s-resize"@[12] == 'i' && "cursor-s-resize"@[13] == 'z' && "cursor-s-resize"@[14] == 'e');
    reveal_strlit("cursor-w-resize");
    assert("cursor-w-resize"@.len() == 15 && "cursor-w-resize"@[0] == 'c' && "cursor-w-resize"@[1] == 'u' && "cursor-w-resize"@[2] == 'r');
    assert("cursor-w-resize"@[3] == 's' && "cursor-w-resize"@[4] == 'o' && "cursor-w-resize"@[5] == 'r' && "cursor-w-resize"@[6] == '-');
    assert("cursor-w-resize"@[7] == 'w' && "cursor-w-resize"@[8] == '-' && "cursor-w-resize"@[9] == 'r' && "cursor-w-resize"@[10] == 'e');
    assert("cursor-w-resize"@[11] == 's' && "cursor-w-resize"@[12] == 'i' && "cursor-w-resize"@[13] == 'z' && "cursor-w-resize"@[14] == 'e');
    reveal_strlit("justify-center");
    assert("justify-center"@.len() == 14 && "justify-center"@[0] == 'j' && "justify-center"@[1] == 'u' && "justify-center"@[2] == 's');
    assert("justify-center"@[3] == 't' && "justify-center"@[4] == 'i' && "justify-center"@[5] == 'f' && "justify-center"@[6] == 'y');
    assert("justify-center"@[7] == '-' && "justify-center"@[8] == 'c' && "justify-center"@[9] == 'e' && "justify-center"@[10] == 'n');
    assert("justify-center"@[11] == 't' && "justify-center"@[12] == 'e' && "justify-center"@[13] == 'r');
    reveal_strlit("justify-between");
    assert("justify-between"@.len() == 15 && "justify-between"@[0] == 'j' && "justify-between"@[1] == 'u' && "justify-between"@[2] == 's');
    assert("justify-between"@[3] == 't' && "justify-between"@[4] == 'i' && "justify-between"@[5] == 'f' && "justify-between"@[6] == 'y');
    assert("justify-between"@[7] == '-' && "justify-between"@[8] == 'b' && "justify-between"@[9] == 'e' && "justify-between"@[10] == 't');
    assert("justify-between"@[11] == 'w' && "justify-between"@[12] == 'e' && "justify-between"@[13] == 'e' && "justify-between"@[14] == 'n');
    reveal_strlit("justify-around");
    assert("justify-around"@.len() == 14 && "justify-around"@[0] == 'j' && "justify-around"@[1] == 'u' && "justify-around"@[2] == 's');
    assert("justify-around"@[3] == 't' && "justify-around"@[4] == 'i' && "justify-around"@[5] == 'f' && "justify-around"@[6] == 'y');
    assert("justify-around"@[7] == '-' && "justify-around"@[8] == 'a' && "justify-around"@[9] == 'r' && "justify-around"@[10] == 'o');
    assert("justify-around"@[11] == 'u' && "justify-around"@[12] == 'n' && "justify-around"@[13] == 'd');
    reveal_strlit("justify-start");
    assert("justify-start"@.len() == 13 && "justify-start"@[0] == 'j' && "justify-start"@[1] == 'u' && "justify-start"@[2] == 's');
    assert("justify-start"@[3] == 't' && "justify-start"@[4] == 'i' && "justify-start"@[5] == 'f' && "justify-start"@[6] == 'y');
    assert("justify-start"@[7] == '-' && "justify-start"@[8] == 's' && "justify-start"@[9] == 't' && "justify-start"@[10] == 'a');
    assert("justify-start"@[11] == 'r' && "justify-start"@[12] == 't');
    reveal_strlit("justify-end");
    assert("justify-end"@.len() == 11 && "justify-end"@[0] == 'j' && "justify-end"@[1] == 'u' && "justify-end"@[2] == 's');
    assert("justify-end"@[3] == 't' && "justify-end"@[4] == 'i' && "justify-end"@[5] == 'f' && "justify-end"@[6] == 'y');
    assert("justify-end"@[7] == '-' && "justify-end"@[8] == 'e' && "justify-end"@[9] == 'n' && "justify-end"@[10] == 'd');
    reveal_strlit("items-start");
    assert("items-start"@.len() == 11 && "items-start"@[0] == 'i' && "items-start"@[1] == 't' && "items-start"@[2] == 'e');
    assert("items-start"@[3] == 'm' && "items-start"@[4] == 's' && "items-start"@[5] == '-' && "items-start"@[6] == 's');
    assert("items-start"@[7] == 't' && "items-start"@[8] == 'a' && "items-start"@[9] == 'r' && "items-start"@[10] == 't');
    reveal_strlit("items-end");
    assert("items-end"@.len() == 9 && "items-end"@[0] == 'i' && "items-end"@[1] == 't' && "items-end"@[2] == 'e');
    assert("items-end"@[3] == 'm' && "items-end"@[4] == 's' && "items-end"@[5] == '-' && "items-end"@[6] == 'e');
    assert("items-end"@[7] == 'n' && "items-end"@[8] == 'd');
    reveal_strlit("items-center");
    assert("items-center"@.len() == 12 && "items-center"@[0] == 'i' && "items-center"@[1] == 't' && "items-center"@[2] == 'e');
    assert("items-center"@[3] == 'm' && "items-center"@[4] == 's' && "items-center"@[5] == '-' && "items-center"@[6] == 'c');
    assert("items-center"@[7] == 'e' && "items-center"@[8] == 'n' && "items-center"@[9] == 't' && "items-center"@[10] == 'e');
    assert("items-center"@[11] == 'r');
    reveal_strlit("flex-col");
    assert("flex-col"@.len() == 8 && "flex-col"@[0] == 'f' && "flex-col"@[1] == 'l' && "flex-col"@[2] == 'e');
    assert("flex-col"@[3] == 'x' && "flex-col"@[4] == '-' && "flex-col"@[5] == 'c' && "flex-col"@[6] == 'o');
    assert("flex-col"@[7] == 'l');
    reveal_strlit("flex-row");
    assert("flex-row"@.len() == 8 && "flex-row"@[0] == 'f' && "flex-row"@[1] == 'l' && "flex-row"@[2] == 'e');
    assert("flex-row"@[3] == 'x' && "flex-row"@[4] == '-' && "flex-row"@[5] == 'r' && "flex-row"@[6] == 'o');
    assert("flex-row"@[7] == 'w');
    reveal_strlit("flex-col_reverse");
    assert("flex-col_reverse"@.len() == 16 && "flex-col_reverse"@[0] == 'f' && "flex-col_reverse"@[1] == 'l' && "flex-col_reverse"@[2] == 'e');
    assert("flex-col_reverse"@[3] == 'x' && "flex-col_reverse"@[4] == '-' && "flex-col_reverse"@[5] == 'c' && "flex-col_reverse"@[6] == 'o');
    assert("flex-col_reverse"@[7] == 'l' && "flex-col_reverse"@[8] == '_' && "flex-col_reverse"@[9] == 'r' && "flex-col_reverse"@[10] == 'e');
    assert("flex-col_reverse"@[11] == 'v' && "flex-col_reverse"@[12] == 'e' && "flex-col_reverse"@[13] == 'r' && "flex-col_reverse"@[14] == 's');
    assert("flex-col_reverse"@[15] == 'e');
    reveal_strlit("flex-row_reverse");
    assert("flex-row_reverse"@.len() == 16 && "flex-row_reverse"@[0] == 'f' && "flex-row_reverse"@[1] == 'l' && "flex-row_reverse"@[2] == 'e');
    assert("flex-row_reverse"@[3] == 'x' && "flex-row_reverse"@[4] == '-' && "flex-row_reverse"@[5] == 'r' && "flex-row_reverse"@[6] == 'o');
    assert("flex-row_reverse"@[7] == 'w' && "flex-row_reverse"@[8] == '_' && "flex-row_reverse"@[9] == 'r' && "flex-row_reverse"@[10] == 'e');
    assert("flex-row_reverse"@[11] == 'v' && "flex-row_reverse"@[12] == 'e' && "flex-row_reverse"@[13] == 'r' && "flex-row_reverse"@[14] == 's');
    assert("flex-row_reverse"@[15] == 'e');
    reveal_strlit("flex-1");
    assert("flex-1"@.len() == 6 && "flex-1"@[0] == 'f' && "flex-1"@[1] == 'l' && "flex-1"@[2] == 'e');
    assert("flex-1"@[3] == 'x' && "flex-1"@[4] == '-' && "flex-1"@[5] == '1');
    reveal_strlit("flex-auto");
    assert("flex-auto"@.len() == 9 && "flex-auto"@[0] == 'f' && "flex-auto"@[1] == 'l' && "flex-auto"@[2] == 'e');
    assert("flex-auto"@[3] == 'x' && "flex-auto"@[4] == '-' && "flex-auto"@[5] == 'a' && "flex-auto"@[6] == 'u');
    assert("flex-auto"@[7] == 't' && "flex-auto"@[8] == 'o');
    reveal_strlit("flex-initial");
    assert("flex-initial"@.len() == 12 && "flex-initial"@[0] == 'f' && "flex-initial"@[1] == 'l' && "flex-initial"@[2] == 'e');
    assert("flex-initial"@[3] == 'x' && "flex-initial"@[4] == '-' && "flex-initial"@[5] == 'i' && "flex-initial"@[6] == 'n');
    assert("flex-initial"@[7] == 'i' && "flex-initial"@[8] == 't' && "flex-initial"@[9] == 'i' && "flex-initial"@[10] == 'a');
    assert("flex-initial"@[11] == 'l');
    reveal_strlit("flex-none");
    assert("flex-none"@.len() == 9 && "flex-none"@[0] == 'f' && "flex-none"@[1] == 'l' && "flex-none"@[2] == 'e');
    assert("flex-none"@[3] == 'x' && "flex-none"@[4] == '-' && "flex-none"@[5] == 'n' && "flex-none"@[6] == 'o');
    assert("flex-none"@[7] == 'n' && "flex-none"@[8] == 'e');
    reveal_strlit("flex-grow");
    assert("flex-grow"@.len() == 9 && "flex-grow"@[0] == 'f' && "flex-grow"@[1] == 'l' && "flex-grow"@[2] == 'e');
    assert("flex-grow"@[3] == 'x' && "flex-grow"@[4] == '-' && "flex-grow"@[5] == 'g' && "flex-grow"@[6] == 'r');
    assert("flex-grow"@[7] == 'o' && "flex-grow"@[8] == 'w');
    reveal_strlit("flex-shrink");
    assert("flex-shrink"@.len() == 11 && "flex-shrink"@[0] == 'f' && "flex-shrink"@[1] == 'l' && "flex-shrink"@[2] == 'e');
    assert("flex-shrink"@[3] == 'x' && "flex-shrink"@[4] == '-' && "flex-shrink"@[5] == 's' && "flex-shrink"@[6] == 'h');
    assert("flex-shrink"@[7] == 'r' && "flex-shrink"@[8] == 'i' && "flex-shrink"@[9] == 'n' && "flex-shrink"@[10] == 'k');
    reveal_strlit("flex-shrink_0");
    assert("flex-shrink_0"@.len() == 13 && "flex-shrink_0"@[0] == 'f' && "flex-shrink_0"@[1] == 'l' && "flex-shrink_0"@[2] == 'e');
    assert("flex-shrink_0"@[3] == 'x' && "flex-shrink_0"@[4] == '-' && "flex-shrink_0"@[5] == 's' && "flex-shrink_0"@[6] == 'h');
    assert("flex-shrink_0"@[7] == 'r' && "flex-shrink_0"@[8] == 'i' && "flex-shrink_0"@[9] == 'n' && "flex-shrink_0"@[10] == 'k');
    assert("flex-shrink_0"@[11] == '_' && "flex-shrink_0"@[12] == '0');
    reveal_strlit("shadow-sm");
    assert("shadow-sm"@.len() == 9 && "shadow-sm"@[0] == 's' && "shadow-sm"@[1] == 'h' && "shadow-sm"@[2] == 'a');
    assert("shadow-sm"@[3] == 'd' && "shadow-sm"@[4] == 'o' && "shadow-sm"@[5] == 'w' && "shadow-sm"@[6] == '-');
    assert("shadow-sm"@[7] == 's' && "shadow-sm"@[8] == 'm');
    reveal_strlit("shadow-md");
    assert("shadow-md"@.len() == 9 && "shadow-md"@[0] == 's' && "shadow-md"@[1] == 'h' && "shadow-md"@[2] == 'a');
    assert("shadow-md"@[3] == 'd' && "shadow-md"@[4] == 'o' && "shadow-md"@[5] == 'w' && "shadow-md"@[6] == '-');
    assert("shadow-md"@[7] == 'm' && "shadow-md"@[8] == 'd');
    reveal_strlit("shadow-lg");
    assert("shadow-lg"@.len() == 9 && "shadow-lg"@[0] == 's' && "shadow-lg"@[1] == 'h' && "shadow-lg"@[2] == 'a');
    assert("shadow-lg"@[3] == 'd' && "shadow-lg"@[4] == 'o' && "shadow-lg"@[5] == 'w' && "shadow-lg"@[6] == '-');
    assert("shadow-lg"@[7] == 'l' && "shadow-lg"@[8] == 'g');
    reveal_strlit("shadow-xl");
    assert("shadow-xl"@.len() == 9 && "shadow-xl"@[0] == 's' && "shadow-xl"@[1] == 'h' && "shadow-xl"@[2] == 'a');
    assert("shadow-xl"@[3] == 'd' && "shadow-xl"@[4] == 'o' && "shadow-xl"@[5] == 'w' && "shadow-xl"@[6] == '-');
    assert("shadow-xl"@[7] == 'x' && "shadow-xl"@[8] == 'l');
    reveal_strlit("shadow-2xl");
    assert("shadow-2xl"@.len() == 10 && "shadow-2xl"@[0] == 's' && "shadow-2xl"@[1] == 'h' && "shadow-2xl"@[2] == 'a');
    assert("shadow-2xl"@[3] == 'd' && "shadow-2xl"@[4] == 'o' && "shadow-2xl"@[5] == 'w' && "shadow-2xl"@[6] == '-');
    assert("shadow-2xl"@[7] == '2' && "shadow-2xl"@[8] == 'x' && "shadow-2xl"@[9] == 'l');
    let name = first.name();
    assert(name.len() == second.name().len());
    assert(name.len() > 0 ==> name[0] == second.name()[0]);
    assert(name.len() > 1 ==> name[1] == second.name()[1]);
    assert(name.len() > 2 ==> name[2] == second.name()[2]);
    assert(name.len() > 3 ==> name[3] == second.name()[3]);
    assert(name.len() > 4 ==> name[4] == second.name()[4]);
    assert(name.len() > 5 ==> name[5] == second.name()[5]);
    assert(name.len() > 6 ==> name[6] == second.name()[6]);
    assert(name.len() > 7 ==> name[7] == second.name()[7]);
    assert(name.len() > 8 ==> name[8] == second.name()[8]);
    assert(name.len() > 9 ==> name[9] == second.name()[9]);
    assert(name.len() > 10 ==> name[10] == second.name()[10]);
    assert(name.len() > 11 ==> name[11] == second.name()[11]);
    assert(name.len() > 12 ==> name[12] == second.name()[12]);
    assert(name.len() > 13 ==> name[13] == second.name()[13]);
    assert(name.len() > 14 ==> name[14] == second.name()[14]);
    assert(name.len() > 15 ==> name[15] == second.name()[15]);
    assert(name.len() > 16 ==> name[16] == second.name()[16]);
    assert(name.len() > 17 ==> name[17] == second.name()[17]);
    assert(name.len() > 18 ==> name[18] == second.name()[18]);
    assert(name.len() > 19 ==> name[19] == second.name()[19]);
}

/// No flag is named like a property, alone or followed by a dash.
pub proof fn flag_is_no_property(flag: Flag, property: Property, rest: Seq<char>)
    ensures
        flag.name() != property.name(),
        flag.name() != property.name() + seq!['-'] + rest,
{
    reveal_strlit("flex");
    assert("flex"@.len() == 4 && "flex"@[0] == 'f' && "flex"@[1] == 'l' && "flex"@[2] == 'e');
    assert("flex"@[3] == 'x');
    reveal_strlit("block");
    assert("block"@.len() == 5 && "block"@[0] == 'b' && "block"@[1] == 'l' && "block"@[2] == 'o');
    assert("block"@[3] == 'c' && "block"@[4] == 'k');
    reveal_strlit("absolute");
    assert("absolute"@.len() == 8 && "absolute"@[0] == 'a' && "absolute"@[1] == 'b' && "absolute"@[2] == 's');
    assert("absolute"@[3] == 'o' && "absolute"@[4] == 'l' && "absolute"@[5] == 'u' && "absolute"@[6] == 't');
    assert("absolute"@[7] == 'e');
    reveal_strlit("relative");
    assert("relative"@.len() == 8 && "relative"@[0] == 'r' && "relative"@[1] == 'e' && "relative"@[2] == 'l');
    assert("relative"@[3] == 'a' && "relative"@[4] == 't' && "relative"@[5] == 'i' && "relative"@[6] == 'v');
    assert("relative"@[7] == 'e');
    reveal_strlit("visible");
    assert("visible"@.len() == 7 && "visible"@[0] == 'v' && "visible"@[1] == 'i' && "visible"@[2] == 's');
    assert("visible"@[3] == 'i' && "visible"@[4] == 'b' && "visible"@[5] == 'l' && "visible"@[6] == 'e');
    reveal_strlit("invisible");
    assert("invisible"@.len() == 9 && "invisible"@[0] == 'i' && "invisible"@[1] == 'n' && "invisible"@[2] == 'v');
    assert("invisible"@[3] == 'i' && "invisible"@[4] == 's' && "invisible"@[5] == 'i' && "invisible"@[6] == 'b');
    assert("invisible"@[7] == 'l' && "invisible"@[8] == 'e');
    reveal_strlit("overflow-hidden");
    assert("overflow-hidden"@.len() == 15 && "overflow-hidden"@[0] == 'o' && "overflow-hidden"@[1] == 'v' && "overflow-hidden"@[2] == 'e');
    assert("overflow-hidden"@[3] == 'r' && "overflow-hidden"@[4] == 'f' && "overflow-hidden"@[5] == 'l' && "overflow-hidden"@[6] == 'o');
    assert("overflow-hidden"@[7] == 'w' && "overflow-hidden"@[8] == '-' && "overflow-hidden"@[9] == 'h' && "overflow-hidden"@[10] == 'i');
    assert("overflow-hidden"@[11] == 'd' && "overflow-hidden"@[12] == 'd' && "overflow-hidden"@[13] == 'e' && "overflow-hidden"@[14] == 'n');
    reveal_strlit("overflow-x-hidden");
    assert("overflow-x-hidden"@.len() == 17 && "overflow-x-hidden"@[0] == 'o' && "overflow-x-hidden"@[1] == 'v' && "overflow-x-hidden"@[2] == 'e');
    assert("overflow-x-hidden"@[3] == 'r' && "overflow-x-hidden"@[4] == 'f' && "overflow-x-hidden"@[5] == 'l' && "overflow-x-hidden"@[6] == 'o');
    assert("overflow-x-hidden"@[7] == 'w' && "overflow-x-hidden"@[8] == '-' && "overflow-x-hidden"@[9] == 'x' && "overflow-x-hidden"@[10] == '-');
    assert("overflow-x-hidden"@[11] == 'h' && "overflow-x-hidden"@[12] == 'i' && "overflow-x-hidden"@[13] == 'd' && "overflow-x-hidden"@[14] == 'd');
    assert("overflow-x-hidden"@[15] == 'e' && "overflow-x-hidden"@[16] == 'n');
    reveal_strlit("overflow-y-hidden");
    assert("overflow-y-hidden"@.len() == 17 && "overflow-y-hidden"@[0] == 'o' && "overflow-y-hidden"@[1] == 'v' && "overflow-y-hidden"@[2] == 'e');
    assert("overflow-y-hidden"@[3] == 'r' && "overflow-y-hidden"@[4] == 'f' && "overflow-y-hidden"@[5] == 'l' && "overflow-y-hidden"@[6] == 'o');
    assert("overflow-y-hidden"@[7] == 'w' && "overflow-y-hidden"@[8] == '-' && "overflow-y-hidden"@[9] == 'y' && "overflow-y-hidden"@[10] == '-');
    assert("overflow-y-hidden"@[11] == 'h' && "overflow-y-hidden"@[12] == 'i' && "overflow-y-hidden"@[13] == 'd' && "overflow-y-hidden"@[14] == 'd');
    assert("overflow-y-hidden"@[15] == 'e' && "overflow-y-hidden"@[16] == 'n');
    reveal_strlit("cursor-default");
    assert("cursor-default"@.len() == 14 && "cursor-default"@[0] == 'c' && "cursor-default"@[1] == 'u' && "cursor-default"@[2] == 'r');
    assert("cursor-default"@[3] == 's' && "cursor-default"@[4] == 'o' && "cursor-default"@[5] == 'r' && "cursor-default"@[6] == '-');
    assert("cursor-default"@[7] == 'd' && "cursor-default"@[8] == 'e' && "cursor-default"@[9] == 'f' && "cursor-default"@[10] == 'a');
    assert("cursor-default"@[11] == 'u' && "cursor-default"@[12] == 'l' && "cursor-default"@[13] == 't');
    reveal_strlit("cursor-pointer");
    assert("cursor-pointer"@.len() == 14 && "cursor-pointer"@[0] == 'c' && "cursor-pointer"@[1] == 'u' && "cursor-pointer"@[2] == 'r');
    assert("cursor-pointer"@[3] == 's' && "cursor-pointer"@[4] == 'o' && "cursor-pointer"@[5] == 'r' && "cursor-pointer"@[6] == '-');
    assert("cursor-pointer"@[7] == 'p' && "cursor-pointer"@[8] == 'o' && "cursor-pointer"@[9] == 'i' && "cursor-pointer"@[10] == 'n');
    assert("cursor-pointer"@[11] == 't' && "cursor-pointer"@[12] == 'e' && "cursor-pointer"@[13] == 'r');
    reveal_strlit("cursor-text");
    assert("cursor-text"@.len() == 11 && "cursor-text"@[0] == 'c' && "cursor-text"@[1] == 'u' && "cursor-text"@[2] == 'r');
    assert("cursor-text"@[3] == 's' && "cursor-text"@[4] == 'o' && "cursor-text"@[5] == 'r' && "cursor-text"@[6] == '-');
    assert("cursor-text"@[7] == 't' && "cursor-text"@[8] == 'e' && "cursor-text"@[9] == 'x' && "cursor-text"@[10] == 't');
    reveal_strlit("cursor-move");
    assert("cursor-move"@.len() == 11 && "cursor-move"@[0] == 'c' && "cursor-move"@[1] == 'u' && "cursor-move"@[2] == 'r');
    assert("cursor-move"@[3] == 's' && "cursor-move"@[4] == 'o' && "cursor-move"@[5] == 'r' && "cursor-move"@[6] == '-');
    assert("cursor-move"@[7] == 'm' && "cursor-move"@[8] == 'o' && "cursor-move"@[9] == 'v' && "cursor-move"@[10] == 'e');
    reveal_strlit("cursor-not-allowed");
    assert("cursor-not-allowed"@.len() == 18 && "cursor-not-allowed"@[0] == 'c' && "cursor-not-allowed"@[1] == 'u' && "cursor-not-allowed"@[2] == 'r');
    assert("cursor-not-allowed"@[3] == 's' && "cursor-not-allowed"@[4] == 'o' && "cursor-not-allowed"@[5] == 'r' && "cursor-not-allowed"@[6] == '-');
    assert("cursor-not-allowed"@[7] == 'n' && "cursor-not-allowed"@[8] == 'o' && "cursor-not-allowed"@[9] == 't' && "cursor-not-allowed"@[10] == '-');
    assert("cursor-not-allowed"@[11] == 'a' && "cursor-not-allowed"@[12] == 'l' && "cursor-not-allowed"@[13] == 'l' && "cursor-not-allowed"@[14] == 'o');
    assert("cursor-not-allowed"@[15] == 'w' && "cursor-not-allowed"@[16] == 'e' && "cursor-not-allowed"@[17] == 'd');
    reveal_strlit("cursor-context-menu");
    assert("cursor-context-menu"@.len() == 19 && "cursor-context-menu"@[0] == 'c' && "cursor-context-menu"@[1] == 'u' && "cursor-context-menu"@[2] == 'r');
    assert("cursor-context-menu"@[3] == 's' && "cursor-context-menu"@[4] == 'o' && "cursor-context-menu"@[5] == 'r' && "cursor-context-menu"@[6] == '-');
    assert("cursor-context-menu"@[7] == 'c' && "cursor-context-menu"@[8] == 'o' && "cursor-context-menu"@[9] == 'n' && "cursor-context-menu"@[10] == 't');
    assert("cursor-context-menu"@[11] == 'e' && "cursor-context-menu"@[12] == 'x' && "cursor-context-menu"@[13] == 't' && "cursor-context-menu"@[14] == '-');
    assert("cursor-context-menu"@[15] == 'm' && "cursor-context-menu"@[16] == 'e' && "cursor-context-menu"@[17] == 'n' && "cursor-context-menu"@[18] == 'u');
    reveal_strlit("cursor-crosshair");
    assert("cursor-crosshair"@.len() == 16 && "cursor-crosshair"@[0] == 'c' && "cursor-crosshair"@[1] == 'u' && "cursor-crosshair"@[2] == 'r');
    assert("cursor-crosshair"@[3] == 's' && "cursor-crosshair"@[4] == 'o' && "cursor-crosshair"@[5] == 'r' && "cursor-crosshair"@[6] == '-');
    assert("cursor-crosshair"@[7] == 'c' && "cursor-crosshair"@[8] == 'r' && "cursor-crosshair"@[9] == 'o' && "cursor-crosshair"@[10] == 's');
    assert("cursor-crosshair"@[11] == 's' && "cursor-crosshair"@[12] == 'h' && "cursor-crosshair"@[13] == 'a' && "cursor-crosshair"@[14] == 'i');
    assert("cursor-crosshair"@[15] == 'r');
    reveal_strlit("cursor-vertical-text");
    assert("cursor-vertical-text"@.len() == 20 && "cursor-vertical-text"@[0] == 'c' && "cursor-vertical-text"@[1] == 'u' && "cursor-vertical-text"@[2] == 'r');
    assert("cursor-vertical-text"@[3] == 's' && "cursor-vertical-text"@[4] == 'o' && "cursor-vertical-text"@[5] == 'r' && "cursor-vertical-text"@[6] == '-');
    assert("cursor-vertical-text"@[7] == 'v' && "cursor-vertical-text"@[8] == 'e' && "cursor-vertical-text"@[9] == 'r' && "cursor-vertical-text"@[10] == 't');
    assert("cursor-vertical-text"@[11] == 'i' && "cursor-vertical-text"@[12] == 'c' && "cursor-vertical-text"@[13] == 'a' && "cursor-vertical-text"@[14] == 'l');
    assert("cursor-vertical-text"@[15] == '-' && "cursor-vertical-text"@[16] == 't' && "cursor-vertical-text"@[17] == 'e' && "cursor-vertical-text"@[18] == 'x');
    assert("cursor-vertical-text"@[19] == 't');
    reveal_strlit("cursor-alias");
    assert("cursor-alias"@.len() == 12 && "cursor-alias"@[0] == 'c' && "cursor-alias"@[1] == 'u' && "cursor-alias"@[2] == 'r');
    assert("cursor-alias"@[3] == 's' && "cursor-alias"@[4] == 'o' && "cursor-alias"@[5] == 'r' && "cursor-alias"@[6] == '-');
    assert("cursor-alias"@[7] == 'a' && "cursor-alias"@[8] == 'l' && "cursor-alias"@[9] == 'i' && "cursor-alias"@[10] == 'a');
    assert("cursor-alias"@[11] == 's');
    reveal_strlit("cursor-copy");
    assert("cursor-copy"@.len() == 11 && "cursor-copy"@[0] == 'c' && "cursor-copy"@[1] == 'u' && "cursor-copy"@[2] == 'r');
    assert("cursor-copy"@[3] == 's' && "cursor-copy"@[4] == 'o' && "cursor-copy"@[5] == 'r' && "cursor-copy"@[6] == '-');
    assert("cursor-copy"@[7] == 'c' && "cursor-copy"@[8] == 'o' && "cursor-copy"@[9] == 'p' && "cursor-copy"@[10] == 'y');
    reveal_strlit("cursor-no-drop");
    assert("cursor-no-drop"@.len() == 14 && "cursor-no-drop"@[0] == 'c' && "cursor-no-drop"@[1] == 'u' && "cursor-no-drop"@[2] == 'r');
    assert("cursor-no-drop"@[3] == 's' && "cursor-no-drop"@[4] == 'o' && "cursor-no-drop"@[5] == 'r' && "cursor-no-drop"@[6] == '-');
    assert("cursor-no-drop"@[7] == 'n' && "cursor-no-drop"@[8] == 'o' && "cursor-no-drop"@[9] == '-' && "cursor-no-drop"@[10] == 'd');
    assert("cursor-no-drop"@[11] == 'r' && "cursor-no-drop"@[12] == 'o' && "cursor-no-drop"@[13] == 'p');
    reveal_strlit("cursor-grab");
    assert("cursor-grab"@.len() == 11 && "cursor-grab"@[0] == 'c' && "cursor-grab"@[1] == 'u' && "cursor-grab"@[2] == 'r');
    assert("cursor-grab"@[3] == 's' && "cursor-grab"@[4] == 'o' && "cursor-grab"@[5] == 'r' && "cursor-grab"@[6] == '-');
    assert("cursor-grab"@[7] == 'g' && "cursor-grab"@[8] == 'r' && "cursor-grab"@[9] == 'a' && "cursor-grab"@[10] == 'b');
    reveal_strlit("cursor-grabbing");
    assert("cursor-grabbing"@.len() == 15 && "cursor-grabbing"@[0] == 'c' && "cursor-grabbing"@[1] == 'u' && "cursor-grabbing"@[2] == 'r');
    assert("cursor-grabbing"@[3] == 's' && "cursor-grabbing"@[4] == 'o' && "cursor-grabbing"@[5] == 'r' && "cursor-grabbing"@[6] == '-');
    assert("cursor-grabbing"@[7] == 'g' && "cursor-grabbing"@[8] == 'r' && "cursor-grabbing"@[9] == 'a' && "cursor-grabbing"@[10] == 'b');
    assert("cursor-grabbing"@[11] == 'b' && "cursor-grabbing"@[12] == 'i' && "cursor-grabbing"@[13] == 'n' && "cursor-grabbing"@[14] == 'g');
    reveal_strlit("cursor-col-resize");
    assert("cursor-col-resize"@.len() == 17 && "cursor-col-resize"@[0] == 'c' && "cursor-col-resize"@[1] == 'u' && "cursor-col-resize"@[2] == 'r');
    assert("cursor-col-resize"@[3] == 's' && "cursor-col-resize"@[4] == 'o' && "cursor-col-resize"@[5] == 'r' && "cursor-col-resize"@[6] == '-');
    assert("cursor-col-resize"@[7] == 'c' && "cursor-col-resize"@[8] == 'o' && "cursor-col-resize"@[9] == 'l' && "cursor-col-resize"@[10] == '-');
    assert("cursor-col-resize"@[11] == 'r' && "cursor-col-resize"@[12] == 'e' && "cursor-col-resize"@[13] == 's' && "cursor-col-resize"@[14] == 'i');
    assert("cursor-col-resize"@[15] == 'z' && "cursor-col-resize"@[16] == 'e');
    reveal_strlit("cursor-row-resize");
    assert("cursor-row-resize"@.len() == 17 && "cursor-row-resize"@[0] == 'c' && "cursor-row-resize"@[1] == 'u' && "cursor-row-resize"@[2] == 'r');
    assert("cursor-row-resize"@[3] == 's' && "cursor-row-resize"@[4] == 'o' && "cursor-row-resize"@[5] == 'r' && "cursor-row-resize"@[6] == '-');
    assert("cursor-row-resize"@[7] == 'r' && "cursor-row-resize"@[8] == 'o' && "cursor-row-resize"@[9] == 'w' && "cursor-row-resize"@[10] == '-');
    assert("cursor-row-resize"@[11] == 'r' && "cursor-row-resize"@[12] == 'e' && "cursor-row-resize"@[13] == 's' && "cursor-row-resize"@[14] == 'i');
    assert("cursor-row-resize"@[15] == 'z' && "cursor-row-resize"@[16] == 'e');
    reveal_strlit("cursor-n-resize");
    assert("cursor-n-resize"@.len() == 15 && "cursor-n-resize"@[0] == 'c' && "cursor-n-resize"@[1] == 'u' && "cursor-n-resize"@[2] == 'r');
    assert("cursor-n-resize"@[3] == 's' && "cursor-n-resize"@[4] == 'o' && "cursor-n-resize"@[5] == 'r' && "cursor-n-resize"@[6] == '-');
    assert("cursor-n-resize"@[7] == 'n' && "cursor-n-resize"@[8] == '-' && "cursor-n-resize"@[9] == 'r' && "cursor-n-resize"@[10] == 'e');
    assert("cursor-n-resize"@[11] == 's' && "cursor-n-resize"@[12] == 'i' && "cursor-n-resize"@[13] == 'z' && "cursor-n-resize"@[14] == 'e');
    reveal_strlit("cursor-e-resize");
    assert("cursor-e-resize"@.len() == 15 && "cursor-e-resize"@[0] == 'c' && "cursor-e-resize"@[1] == 'u' && "cursor-e-resize"@[2] == 'r');
    assert("cursor-e-resize"@[3] == 's' && "cursor-e-resize"@[4] == 'o' && "cursor-e-resize"@[5] == 'r' && "cursor-e-resize"@[6] == '-');
    assert("cursor-e-resize"@[7] == 'e' && "cursor-e-resize"@[8] == '-' && "cursor-e-resize"@[9] == 'r' && "cursor-e-resize"@[10] == 'e');
    assert("cursor-e-resize"@[11] == 's' && "cursor-e-resize"@[12] == 'i' && "cursor-e-resize"@[13] == 'z' && "cursor-e-resize"@[14] == 'e');
    reveal_strlit("cursor-s-resize");
    assert("cursor-s-resize"@.len() == 15 && "cursor-s-resize"@[0] == 'c' && "cursor-s-resize"@[1] == 'u' && "cursor-s-resize"@[2] == 'r');
    assert("cursor-s-resize"@[3] == 's' && "cursor-s-resize"@[4] == 'o' && "cursor-s-resize"@[5] == 'r' && "cursor-s-resize"@[6] == '-');
    assert("cursor-s-resize"@[7] == 's' && "cursor-s-resize"@[8] == '-' && "cursor-s-resize"@[9] == 'r' && "cursor-s-resize"@[10] == 'e');
    assert("cursor-s-resize"@[11] == 's' && "cursor-s-resize"@[12] == 'i' && "cursor-s-resize"@[13] == 'z' && "cursor-s-resize"@[14] == 'e');
    reveal_strlit("cursor-w-resize");
    assert("cursor-w-resize"@.len() == 15 && "cursor-w-resize"@[0] == 'c' && "cursor-w-resize"@[1] == 'u' && "cursor-w-resize"@[2] == 'r');
    assert("cursor-w-resize"@[3] == 's' && "cursor-w-resize"@[4] == 'o' && "cursor-w-resize"@[5] == 'r' && "cursor-w-resize"@[6] == '-');
    assert("cursor-w-resize"@[7] == 'w' && "cursor-w-resize"@[8] == '-' && "cursor-w-resize"@[9] == 'r' && "cursor-w-resize"@[10] == 'e');
    assert("cursor-w-resize"@[11] == 's' && "cursor-w-resize"@[12] == 'i' && "cursor-w-resize"@[13] == 'z' && "cursor-w-resize"@[14] == 'e');
    reveal_strlit("justify-center");
    assert("justify-center"@.len() == 14 && "justify-center"@[0] == 'j' && "justify-center"@[1] == 'u' && "justify-center"@[2] == 's');
    assert("justify-center"@[3] == 't' && "justify-center"@[4] == 'i' && "justify-center"@[5] == 'f' && "justify-center"@[6] == 'y');
    assert("justify-center"@[7] == '-' && "justify-center"@[8] == 'c' && "justify-center"@[9] == 'e' && "justify-center"@[10] == 'n');
    assert("justify-center"@[11] == 't' && "justify-center"@[12] == 'e' && "justify-center"@[13] == 'r');
    reveal_strlit("justify-between");
    assert("justify-between"@.len() == 15 && "justify-between"@[0] == 'j' && "justify-between"@[1] == 'u' && "justify-between"@[2] == 's');
    assert("justify-between"@[3] == 't' && "justify-between"@[4] == 'i' && "justify-between"@[5] == 'f' && "justify-between"@[6] == 'y');
    assert("justify-between"@[7] == '-' && "justify-between"@[8] == 'b' && "justify-between"@[9] == 'e' && "justify-between"@[10] == 't');
    assert("justify-between"@[11] == 'w' && "justify-between"@[12] == 'e' && "justify-between"@[13] == 'e' && "justify-between"@[14] == 'n');
    reveal_strlit("justify-around");
    assert("justify-around"@.len() == 14 && "justify-around"@[0] == 'j' && "justify-around"@[1] == 'u' && "justify-around"@[2] == 's');
    assert("justify-around"@[3] == 't' && "justify-around"@[4] == 'i' && "justify-around"@[5] == 'f' && "justify-around"@[6] == 'y');
    assert("justify-around"@[7] == '-' && "justify-around"@[8] == 'a' && "justify-around"@[9] == 'r' && "justify-around"@[10] == 'o');
    assert("justify-around"@[11] == 'u' && "justify-around"@[12] == 'n' && "justify-around"@[13] == 'd');
    reveal_strlit("justify-start");
    assert("justify-start"@.len() == 13 && "justify-start"@[0] == 'j' && "justify-start"@[1] == 'u' && "justify-start"@[2] == 's');
    assert("justify-start"@[3] == 't' && "justify-start"@[4] == 'i' && "justify-start"@[5] == 'f' && "justify-start"@[6] == 'y');
    assert("justify-start"@[7] == '-' && "justify-start"@[8] == 's' && "justify-start"@[9] == 't' && "justify-start"@[10] == 'a');
    assert("justify-start"@[11] == 'r' && "justify-start"@[12] == 't');
    reveal_strlit("justify-end");
    assert("justify-end"@.len() == 11 && "justify-end"@[0] == 'j' && "justify-end"@[1] == 'u' && "justify-end"@[2] == 's');
    assert("justify-end"@[3] == 't' && "justify-end"@[4] == 'i' && "justify-end"@[5] == 'f' && "justify-end"@[6] == 'y');
    assert("justify-end"@[7] == '-' && "justify-end"@[8] == 'e' && "justify-end"@[9] == 'n' && "justify-end"@[10] == 'd');
    reveal_strlit("items-start");
    assert("items-start"@.len() == 11 && "items-start"@[0] == 'i' && "items-start"@[1] == 't' && "items-start"@[2] == 'e');
    assert("items-start"@[3] == 'm' && "items-start"@[4] == 's' && "items-start"@[5] == '-' && "items-start"@[6] == 's');
    assert("items-start"@[7] == 't' && "items-start"@[8] == 'a' && "items-start"@[9] == 'r' && "items-start"@[10] == 't');
    reveal_strlit("items-end");
    assert("items-end"@.len() == 9 && "items-end"@[0] == 'i' && "items-end"@[1] == 't' && "items-end"@[2] == 'e');
    assert("items-end"@[3] == 'm' && "items-end"@[4] == 's' && "items-end"@[5] == '-' && "items-end"@[6] == 'e');
    assert("items-end"@[7] == 'n' && "items-end"@[8] == 'd');
    reveal_strlit("items-center");
    assert("items-center"@.len() == 12 && "items-center"@[0] == 'i' && "items-center"@[1] == 't' && "items-center"@[2] == 'e');
    assert("items-center"@[3] == 'm' && "items-center"@[4] == 's' && "items-center"@[5] == '-' && "items-center"@[6] == 'c');
    assert("items-center"@[7] == 'e' && "items-center"@[8] == 'n' && "items-center"@[9] == 't' && "items-center"@[10] == 'e');
    assert("items-center"@[11] == 'r');
    reveal_strlit("flex-col");
    assert("flex-col"@.len() == 8 && "flex-col"@[0] == 'f' && "flex-col"@[1] == 'l' && "flex-col"@[2] == 'e');
    assert("flex-col"@[3] == 'x' && "flex-col"@[4] == '-' && "flex-col"@[5] == 'c' && "flex-col"@[6] == 'o');
    assert("flex-col"@[7] == 'l');
    reveal_strlit("flex-row");
    assert("flex-row"@.len() == 8 && "flex-row"@[0] == 'f' && "flex-row"@[1] == 'l' && "flex-row"@[2] == 'e');
    assert("flex-row"@[3] == 'x' && "flex-row"@[4] == '-' && "flex-row"@[5] == 'r' && "flex-row"@[6] == 'o');
    assert("flex-row"@[7] == 'w');
    reveal_strlit("flex-col_reverse");
    assert("flex-col_reverse"@.len() == 16 && "flex-col_reverse"@[0] == 'f' && "flex-col_reverse"@[1] == 'l' && "flex-col_reverse"@[2] == 'e');
    assert("flex-col_reverse"@[3] == 'x' && "flex-col_reverse"@[4] == '-' && "flex-col_reverse"@[5] == 'c' && "flex-col_reverse"@[6] == 'o');
    assert("flex-col_reverse"@[7] == 'l' && "flex-col_reverse"@[8] == '_' && "flex-col_reverse"@[9] == 'r' && "flex-col_reverse"@[10] == 'e');
    assert("flex-col_reverse"@[11] == 'v' && "flex-col_reverse"@[12] == 'e' && "flex-col_reverse"@[13] == 'r' && "flex-col_reverse"@[14] == 's');
    assert("flex-col_reverse"@[15] == 'e');
    reveal_strlit("flex-row_reverse");
    assert("flex-row_reverse"@.len() == 16 && "flex-row_reverse"@[0] == 'f' && "flex-row_reverse"@[1] == 'l' && "flex-row_reverse"@[2] == 'e');
    assert("flex-row_reverse"@[3] == 'x' && "flex-row_reverse"@[4] == '-' && "flex-row_reverse"@[5] == 'r' && "flex-row_reverse"@[6] == 'o');
    assert("flex-row_reverse"@[7] == 'w' && "flex-row_reverse"@[8] == '_' && "flex-row_reverse"@[9] == 'r' && "flex-row_reverse"@[10] == 'e');
    assert("flex-row_reverse"@[11] == 'v' && "flex-row_reverse"@[12] == 'e' && "flex-row_reverse"@[13] == 'r' && "flex-row_reverse"@[14] == 's');
    assert("flex-row_reverse"@[15] == 'e');
    reveal_strlit("flex-1");
    assert("flex-1"@.len() == 6 && "flex-1"@[0] == 'f' && "flex-1"@[1] == 'l' && "flex-1"@[2] == 'e');
    assert("flex-1"@[3] == 'x' && "flex-1"@[4] == '-' && "flex-1"@[5] == '1');
    reveal_strlit("flex-auto");
    assert("flex-auto"@.len() == 9 && "flex-auto"@[0] == 'f' && "flex-auto"@[1] == 'l' && "flex-auto"@[2] == 'e');
    assert("flex-auto"@[3] == 'x' && "flex-auto"@[4] == '-' && "flex-auto"@[5] == 'a' && "flex-auto"@[6] == 'u');
    assert("flex-auto"@[7] == 't' && "flex-auto"@[8] == 'o');
    reveal_strlit("flex-initial");
    assert("flex-initial"@.len() == 12 && "flex-initial"@[0] == 'f' && "flex-initial"@[1] == 'l' && "flex-initial"@[2] == 'e');
    assert("flex-initial"@[3] == 'x' && "flex-initial"@[4] == '-' && "flex-initial"@[5] == 'i' && "flex-initial"@[6] == 'n');
    assert("flex-initial"@[7] == 'i' && "flex-initial"@[8] == 't' && "flex-initial"@[9] == 'i' && "flex-initial"@[10] == 'a');
    assert("flex-initial"@[11] == 'l');
    reveal_strlit("flex-none");
    assert("flex-none"@.len() == 9 && "flex-none"@[0] == 'f' && "flex-none"@[1] == 'l' && "flex-none"@[2] == 'e');
    assert("flex-none"@[3] == 'x' && "flex-none"@[4] == '-' && "flex-none"@[5] == 'n' && "flex-none"@[6] == 'o');
    assert("flex-none"@[7] == 'n' && "flex-none"@[8] == 'e');
    reveal_strlit("flex-grow");
    assert("flex-grow"@.len() == 9 && "flex-grow"@[0] == 'f' && "flex-grow"@[1] == 'l' && "flex-grow"@[2] == 'e');
    assert("flex-grow"@[3] == 'x' && "flex-grow"@[4] == '-' && "flex-grow"@[5] == 'g' && "flex-grow"@[6] == 'r');
    assert("flex-grow"@[7] == 'o' && "flex-grow"@[8] == 'w');
    reveal_strlit("flex-shrink");
    assert("flex-shrink"@.len() == 11 && "flex-shrink"@[0] == 'f' && "flex-shrink"@[1] == 'l' && "flex-shrink"@[2] == 'e');
    assert("flex-shrink"@[3] == 'x' && "flex-shrink"@[4] == '-' && "flex-shrink"@[5] == 's' && "flex-shrink"@[6] == 'h');
    assert("flex-shrink"@[7] == 'r' && "flex-shrink"@[8] == 'i' && "flex-shrink"@[9] == 'n' && "flex-shrink"@[10] == 'k');
    reveal_strlit("flex-shrink_0");
    assert("flex-shrink_0"@.len() == 13 && "flex-shrink_0"@[0] == 'f' && "flex-shrink_0"@[1] == 'l' && "flex-shrink_0"@[2] == 'e');
    assert("flex-shrink_0"@[3] == 'x' && "flex-shrink_0"@[4] == '-' && "flex-shrink_0"@[5] == 's' && "flex-shrink_0"@[6] == 'h');
    assert("flex-shrink_0"@[7] == 'r' && "flex-shrink_0"@[8] == 'i' && "flex-shrink_0"@[9] == 'n' && "flex-shrink_0"@[10] == 'k');
    assert("flex-shrink_0"@[11] == '_' && "flex-shrink_0"@[12] == '0');
    reveal_strlit("shadow-sm");
    assert("shadow-sm"@.len() == 9 && "shadow-sm"@[0] == 's' && "shadow-sm"@[1] == 'h' && "shadow-sm"@[2] == 'a');
    assert("shadow-sm"@[3] == 'd' && "shadow-sm"@[4] == 'o' && "shadow-sm"@[5] == 'w' && "shadow-sm"@[6] == '-');
    assert("shadow-sm"@[7] == 's' && "shadow-sm"@[8] == 'm');
    reveal_strlit("shadow-md");
    assert("shadow-md"@.len() == 9 && "shadow-md"@[0] == 's' && "shadow-md"@[1] == 'h' && "shadow-md"@[2] == 'a');
    assert("shadow-md"@[3] == 'd' && "shadow-md"@[4] == 'o' && "shadow-md"@[5] == 'w' && "shadow-md"@[6] == '-');
    assert("shadow-md"@[7] == 'm' && "shadow-md"@[8] == 'd');
    reveal_strlit("shadow-lg");
    assert("shadow-lg"@.len() == 9 && "shadow-lg"@[0] == 's' && "shadow-lg"@[1] == 'h' && "shadow-lg"@[2] == 'a');
    assert("shadow-lg"@[3] == 'd' && "shadow-lg"@[4] == 'o' && "shadow-lg"@[5] == 'w' && "shadow-lg"@[6] == '-');
    assert("shadow-lg"@[7] == 'l' && "shadow-lg"@[8] == 'g');
    reveal_strlit("shadow-xl");
    assert("shadow-xl"@.len() == 9 && "shadow-xl"@[0] == 's' && "shadow-xl"@[1] == 'h' && "shadow-xl"@[2] == 'a');
    assert("shadow-xl"@[3] == 'd' && "shadow-xl"@[4] == 'o' && "shadow-xl"@[5] == 'w' && "shadow-xl"@[6] == '-');
    assert("shadow-xl"@[7] == 'x' && "shadow-xl"@[8] == 'l');
    reveal_strlit("shadow-2xl");
    assert("shadow-2xl"@.len() == 10 && "shadow-2xl"@[0] == 's' && "shadow-2xl"@[1] == 'h' && "shadow-2xl"@[2] == 'a');
    assert("shadow-2xl"@[3] == 'd' && "shadow-2xl"@[4] == 'o' && "shadow-2xl"@[5] == 'w' && "shadow-2xl"@[6] == '-');
    assert("shadow-2xl"@[7] == '2' && "shadow-2xl"@[8] == 'x' && "shadow-2xl"@[9] == 'l');
    reveal_strlit("h");
    assert("h"@.len() == 1 && "h"@[0] == 'h');
    reveal_strlit("w");
    assert("w"@.len() == 1 && "w"@[0] == 'w');
    reveal_strlit("min-h");
    assert("min-h"@.len() == 5 && "min-h"@[0] == 'm' && "min-h"@[1] == 'i' && "min-h"@[2] == 'n');
    assert("min-h"@[3] == '-' && "min-h"@[4] == 'h');
    reveal_strlit("min-w");
    assert("min-w"@.len() == 5 && "min-w"@[0] == 'm' && "min-w"@[1] == 'i' && "min-w"@[2] == 'n');
    assert("min-w"@[3] == '-' && "min-w"@[4] == 'w');
    reveal_strlit("max-h");
    assert("max-h"@.len() == 5 && "max-h"@[0] == 'm' && "max-h"@[1] == 'a' && "max-h"@[2] == 'x');
    assert("max-h"@[3] == '-' && "max-h"@[4] == 'h');
    reveal_strlit("max-w");
    assert("max-w"@.len() == 5 && "max-w"@[0] == 'm' && "max-w"@[1] == 'a' && "max-w"@[2] == 'x');
    assert("max-w"@[3] == '-' && "max-w"@[4] == 'w');
    reveal_strlit("p");
    assert("p"@.len() == 1 && "p"@[0] == 'p');
    reveal_strlit("px");
    assert("px"@.len() == 2 && "px"@[0] == 'p' && "px"@[1] == 'x');
    reveal_strlit("py");
    assert("py"@.len() == 2 && "py"@[0] == 'p' && "py"@[1] == 'y');
    reveal_strlit("m");
    assert("m"@.len() == 1 && "m"@[0] == 'm');
    reveal_strlit("mx");
    assert("mx"@.len() == 2 && "mx"@[0] == 'm' && "mx"@[1] == 'x');
    reveal_strlit("my");
    assert("my"@.len() == 2 && "my"@[0] == 'm' && "my"@[1] == 'y');
    reveal_strlit("mt");
    assert("mt"@.len() == 2 && "mt"@[0] == 'm' && "mt"@[1] == 't');
    reveal_strlit("mr");
    assert("mr"@.len() == 2 && "mr"@[0] == 'm' && "mr"@[1] == 'r');
    reveal_strlit("mb");
    assert("mb"@.len() == 2 && "mb"@[0] == 'm' && "mb"@[1] == 'b');
    reveal_strlit("ml");
    assert("ml"@.len() == 2 && "ml"@[0] == 'm' && "ml"@[1] == 'l');
    reveal_strlit("size");
    assert("size"@.len() == 4 && "size"@[0] == 's' && "size"@[1] == 'i' && "size"@[2] == 'z');
    assert("size"@[3] == 'e');
    reveal_strlit("border");
    assert("border"@.len() == 6 && "border"@[0] == 'b' && "border"@[1] == 'o' && "border"@[2] == 'r');
    assert("border"@[3] == 'd' && "border"@[4] == 'e' && "border"@[5] == 'r');
    reveal_strlit("border-t");
    assert("border-t"@.len() == 8 && "border-t"@[0] == 'b' && "border-t"@[1] == 'o' && "border-t"@[2] == 'r');
    assert("border-t"@[3] == 'd' && "border-t"@[4] == 'e' && "border-t"@[5] == 'r' && "border-t"@[6] == '-');
    assert("border-t"@[7] == 't');
    reveal_strlit("border-r");
    assert("border-r"@.len() == 8 && "border-r"@[0] == 'b' && "border-r"@[1] == 'o' && "border-r"@[2] == 'r');
    assert("border-r"@[3] == 'd' && "border-r"@[4] == 'e' && "border-r"@[5] == 'r' && "border-r"@[6] == '-');
    assert("border-r"@[7] == 'r');
    reveal_strlit("border-b");
    assert("border-b"@.len() == 8 && "border-b"@[0] == 'b' && "border-b"@[1] == 'o' && "border-b"@[2] == 'r');
    assert("border-b"@[3] == 'd' && "border-b"@[4] == 'e' && "border-b"@[5] == 'r' && "border-b"@[6] == '-');
    assert("border-b"@[7] == 'b');
    reveal_strlit("border-l");
    assert("border-l"@.len() == 8 && "border-l"@[0] == 'b' && "border-l"@[1] == 'o' && "border-l"@[2] == 'r');
    assert("border-l"@[3] == 'd' && "border-l"@[4] == 'e' && "border-l"@[5] == 'r' && "border-l"@[6] == '-');
    assert("border-l"@[7] == 'l');
    reveal_strlit("border-x");
    assert("border-x"@.len() == 8 && "border-x"@[0] == 'b' && "border-x"@[1] == 'o' && "border-x"@[2] == 'r');
    assert("border-x"@[3] == 'd' && "border-x"@[4] == 'e' && "border-x"@[5] == 'r' && "border-x"@[6] == '-');
    assert("border-x"@[7] == 'x');
    reveal_strlit("border-y");
    assert("border-y"@.len() == 8 && "border-y"@[0] == 'b' && "border-y"@[1] == 'o' && "border-y"@[2] == 'r');
    assert("border-y"@[3] == 'd' && "border-y"@[4] == 'e' && "border-y"@[5] == 'r' && "border-y"@[6] == '-');
    assert("border-y"@[7] == 'y');
    reveal_strlit("rounded");
    assert("rounded"@.len() == 7 && "rounded"@[0] == 'r' && "rounded"@[1] == 'o' && "rounded"@[2] == 'u');
    assert("rounded"@[3] == 'n' && "rounded"@[4] == 'd' && "rounded"@[5] == 'e' && "rounded"@[6] == 'd');
    reveal_strlit("rounded-t");
    assert("rounded-t"@.len() == 9 && "rounded-t"@[0] == 'r' && "rounded-t"@[1] == 'o' && "rounded-t"@[2] == 'u');
    assert("rounded-t"@[3] == 'n' && "rounded-t"@[4] == 'd' && "rounded-t"@[5] == 'e' && "rounded-t"@[6] == 'd');
    assert("rounded-t"@[7] == '-' && "rounded-t"@[8] == 't');
    reveal_strlit("rounded-r");
    assert("rounded-r"@.len() == 9 && "rounded-r"@[0] == 'r' && "rounded-r"@[1] == 'o' && "rounded-r"@[2] == 'u');
    assert("rounded-r"@[3] == 'n' && "rounded-r"@[4] == 'd' && "rounded-r"@[5] == 'e' && "rounded-r"@[6] == 'd');
    assert("rounded-r"@[7] == '-' && "rounded-r"@[8] == 'r');
    reveal_strlit("rounded-b");
    assert("rounded-b"@.len() == 9 && "rounded-b"@[0] == 'r' && "rounded-b"@[1] == 'o' && "rounded-b"@[2] == 'u');
    assert("rounded-b"@[3] == 'n' && "rounded-b"@[4] == 'd' && "rounded-b"@[5] == 'e' && "rounded-b"@[6] == 'd');
    assert("rounded-b"@[7] == '-' && "rounded-b"@[8] == 'b');
    reveal_strlit("rounded-l");
    assert("rounded-l"@.len() == 9 && "rounded-l"@[0] == 'r' && "rounded-l"@[1] == 'o' && "rounded-l"@[2] == 'u');
    assert("rounded-l"@[3] == 'n' && "rounded-l"@[4] == 'd' && "rounded-l"@[5] == 'e' && "rounded-l"@[6] == 'd');
    assert("rounded-l"@[7] == '-' && "rounded-l"@[8] == 'l');
    reveal_strlit("rounded-tl");
    assert("rounded-tl"@.len() == 10 && "rounded-tl"@[0] == 'r' && "rounded-tl"@[1] == 'o' && "rounded-tl"@[2] == 'u');
    assert("rounded-tl"@[3] == 'n' && "rounded-tl"@[4] == 'd' && "rounded-tl"@[5] == 'e' && "rounded-tl"@[6] == 'd');
    assert("rounded-tl"@[7] == '-' && "rounded-tl"@[8] == 't' && "rounded-tl"@[9] == 'l');
    reveal_strlit("rounded-tr");
    assert("rounded-tr"@.len() == 10 && "rounded-tr"@[0] == 'r' && "rounded-tr"@[1] == 'o' && "rounded-tr"@[2] == 'u');
    assert("rounded-tr"@[3] == 'n' && "rounded-tr"@[4] == 'd' && "rounded-tr"@[5] == 'e' && "rounded-tr"@[6] == 'd');
    assert("rounded-tr"@[7] == '-' && "rounded-tr"@[8] == 't' && "rounded-tr"@[9] == 'r');
    reveal_strlit("rounded-br");
    assert("rounded-br"@.len() == 10 && "rounded-br"@[0] == 'r' && "rounded-br"@[1] == 'o' && "rounded-br"@[2] == 'u');
    assert("rounded-br"@[3] == 'n' && "rounded-br"@[4] == 'd' && "rounded-br"@[5] == 'e' && "rounded-br"@[6] == 'd');
    assert("rounded-br"@[7] == '-' && "rounded-br"@[8] == 'b' && "rounded-br"@[9] == 'r');
    reveal_strlit("rounded-bl");
    assert("rounded-bl"@.len() == 10 && "rounded-bl"@[0] == 'r' && "rounded-bl"@[1] == 'o' && "rounded-bl"@[2] == 'u');
    assert("rounded-bl"@[3] == 'n' && "rounded-bl"@[4] == 'd' && "rounded-bl"@[5] == 'e' && "rounded-bl"@[6] == 'd');
    assert("rounded-bl"@[7] == '-' && "rounded-bl"@[8] == 'b' && "rounded-bl"@[9] == 'l');
    let name = flag.name();
    let prefix = property.name();
    let longer = prefix + seq!['-'] + rest;
    assert(longer[prefix.len() as int] == '-');
    assert(name == longer ==> name[prefix.len() as int] == '-');
    assert((name == prefix || name == longer) && prefix.len() > 0 ==> prefix[0] == name[0]) by {
        if name == longer && prefix.len() > 0 {
            assert(longer[0] == prefix[0]);
        }
    }
    assert((name == prefix || name == longer) && prefix.len() > 1 ==> prefix[1] == name[1]) by {
        if name == longer && prefix.len() > 1 {
            assert(longer[1] == prefix[1]);
        }
    }
    assert((name == prefix || name == longer) && prefix.len() > 2 ==> prefix[2] == name[2]) by {
        if name == longer && prefix.len() > 2 {
            assert(longer[2] == prefix[2]);
        }
    }
    assert((name == prefix || name == longer) && prefix.len() > 3 ==> prefix[3] == name[3]) by {
        if name == longer && prefix.len() > 3 {
            assert(longer[3] == prefix[3]);
        }
    }
    assert((name == prefix || name == longer) && prefix.len() > 4 ==> prefix[4] == name[4]) by {
        if name == longer && prefix.len() > 4 {
            assert(longer[4] == prefix[4]);
        }
    }
    assert((name == prefix || name == longer) && prefix.len() > 5 ==> prefix[5] == name[5]) by {
        if name == longer && prefix.len() > 5 {
            assert(longer[5] == prefix[5]);
        }
    }
    assert((name == prefix || name == longer) && prefix.len() > 6 ==> prefix[6] == name[6]) by {
        if name == longer && prefix.len() > 6 {
            assert(longer[6] == prefix[6]);
        }
    }
    assert((name == prefix || name == longer) && prefix.len() > 7 ==> prefix[7] == name[7]) by {
        if name == longer && prefix.len() > 7 {
            assert(longer[7] == prefix[7]);
        }
    }
    assert((name == prefix || name == longer) && prefix.len() > 8 ==> prefix[8] == name[8]) by {
        if name == longer && prefix.len() > 8 {
            assert(longer[8] == prefix[8]);
        }
    }
    assert((name == prefix || name == longer) && prefix.len() > 9 ==> prefix[9] == name[9]) by {
        if name == longer && prefix.len() > 9 {
            assert(longer[9] == prefix[9]);
        }
    }
}

/// A fraction is spelled with a slash and an amount without one.
pub proof fn slash_marks_fractions(amount: Amount, numerator: u8, denominator: u8)
    requires
        amount.is_named(),
        is_fraction(numerator, denominator),
    ensures
        amount.name() != fraction_name(numerator, denominator),
{
    reveal_strlit("0");
    assert("0"@.len() == 1 && "0"@[0] == '0');
    reveal_strlit("0.5");
    assert("0.5"@.len() == 3 && "0.5"@[0] == '0' && "0.5"@[1] == '.' && "0.5"@[2] == '5');
    reveal_strlit("1");
    assert("1"@.len() == 1 && "1"@[0] == '1');
    reveal_strlit("1.5");
    assert("1.5"@.len() == 3 && "1.5"@[0] == '1' && "1.5"@[1] == '.' && "1.5"@[2] == '5');
    reveal_strlit("2");
    assert("2"@.len() == 1 && "2"@[0] == '2');
    reveal_strlit("2.5");
    assert("2.5"@.len() == 3 && "2.5"@[0] == '2' && "2.5"@[1] == '.' && "2.5"@[2] == '5');
    reveal_strlit("3");
    assert("3"@.len() == 1 && "3"@[0] == '3');
    reveal_strlit("3.5");
    assert("3.5"@.len() == 3 && "3.5"@[0] == '3' && "3.5"@[1] == '.' && "3.5"@[2] == '5');
    reveal_strlit("4");
    assert("4"@.len() == 1 && "4"@[0] == '4');
    reveal_strlit("5");
    assert("5"@.len() == 1 && "5"@[0] == '5');
    reveal_strlit("6");
    assert("6"@.len() == 1 && "6"@[0] == '6');
    reveal_strlit("8");
    assert("8"@.len() == 1 && "8"@[0] == '8');
    reveal_strlit("10");
    assert("10"@.len() == 2 && "10"@[0] == '1' && "10"@[1] == '0');
    reveal_strlit("12");
    assert("12"@.len() == 2 && "12"@[0] == '1' && "12"@[1] == '2');
    reveal_strlit("16");
    assert("16"@.len() == 2 && "16"@[0] == '1' && "16"@[1] == '6');
    reveal_strlit("20");
    assert("20"@.len() == 2 && "20"@[0] == '2' && "20"@[1] == '0');
    reveal_strlit("24");
    assert("24"@.len() == 2 && "24"@[0] == '2' && "24"@[1] == '4');
    reveal_strlit("32");
    assert("32"@.len() == 2 && "32"@[0] == '3' && "32"@[1] == '2');
    reveal_strlit("40");
    assert("40"@.len() == 2 && "40"@[0] == '4' && "40"@[1] == '0');
    reveal_strlit("48");
    assert("48"@.len() == 2 && "48"@[0] == '4' && "48"@[1] == '8');
    reveal_strlit("56");
    assert("56"@.len() == 2 && "56"@[0] == '5' && "56"@[1] == '6');
    reveal_strlit("64");
    assert("64"@.len() == 2 && "64"@[0] == '6' && "64"@[1] == '4');
    reveal_strlit("72");
    assert("72"@.len() == 2 && "72"@[0] == '7' && "72"@[1] == '2');
    reveal_strlit("80");
    assert("80"@.len() == 2 && "80"@[0] == '8' && "80"@[1] == '0');
    reveal_strlit("96");
    assert("96"@.len() == 2 && "96"@[0] == '9' && "96"@[1] == '6');
    reveal_strlit("px");
    assert("px"@.len() == 2 && "px"@[0] == 'p' && "px"@[1] == 'x');
    reveal_strlit("auto");
    assert("auto"@.len() == 4 && "auto"@[0] == 'a' && "auto"@[1] == 'u' && "auto"@[2] == 't');
    assert("auto"@[3] == 'o');
    reveal_strlit("full");
    assert("full"@.len() == 4 && "full"@[0] == 'f' && "full"@[1] == 'u' && "full"@[2] == 'l');
    assert("full"@[3] == 'l');
    reveal_strlit("none");
    assert("none"@.len() == 4 && "none"@[0] == 'n' && "none"@[1] == 'o' && "none"@[2] == 'n');
    assert("none"@[3] == 'e');
    reveal_strlit("sm");
    assert("sm"@.len() == 2 && "sm"@[0] == 's' && "sm"@[1] == 'm');
    reveal_strlit("md");
    assert("md"@.len() == 2 && "md"@[0] == 'm' && "md"@[1] == 'd');
    reveal_strlit("lg");
    assert("lg"@.len() == 2 && "lg"@[0] == 'l' && "lg"@[1] == 'g');
    reveal_strlit("solid");
    assert("solid"@.len() == 5 && "solid"@[0] == 's' && "solid"@[1] == 'o' && "solid"@[2] == 'l');
    assert("solid"@[3] == 'i' && "solid"@[4] == 'd');
    reveal_strlit("1/2");
    assert("1/2"@.len() == 3 && "1/2"@[0] == '1' && "1/2"@[1] == '/' && "1/2"@[2] == '2');
    reveal_strlit("1/3");
    assert("1/3"@.len() == 3 && "1/3"@[0] == '1' && "1/3"@[1] == '/' && "1/3"@[2] == '3');
    reveal_strlit("2/3");
    assert("2/3"@.len() == 3 && "2/3"@[0] == '2' && "2/3"@[1] == '/' && "2/3"@[2] == '3');
    reveal_strlit("1/4");
    assert("1/4"@.len() == 3 && "1/4"@[0] == '1' && "1/4"@[1] == '/' && "1/4"@[2] == '4');
    reveal_strlit("2/4");
    assert("2/4"@.len() == 3 && "2/4"@[0] == '2' && "2/4"@[1] == '/' && "2/4"@[2] == '4');
    reveal_strlit("3/4");
    assert("3/4"@.len() == 3 && "3/4"@[0] == '3' && "3/4"@[1] == '/' && "3/4"@[2] == '4');
    reveal_strlit("1/5");
    assert("1/5"@.len() == 3 && "1/5"@[0] == '1' && "1/5"@[1] == '/' && "1/5"@[2] == '5');
    reveal_strlit("2/5");
    assert("2/5"@.len() == 3 && "2/5"@[0] == '2' && "2/5"@[1] == '/' && "2/5"@[2] == '5');
    reveal_strlit("3/5");
    assert("3/5"@.len() == 3 && "3/5"@[0] == '3' && "3/5"@[1] == '/' && "3/5"@[2] == '5');
    reveal_strlit("4/5");
    assert("4/5"@.len() == 3 && "4/5"@[0] == '4' && "4/5"@[1] == '/' && "4/5"@[2] == '5');
    reveal_strlit("1/6");
    assert("1/6"@.len() == 3 && "1/6"@[0] == '1' && "1/6"@[1] == '/' && "1/6"@[2] == '6');
    reveal_strlit("5/6");
    assert("5/6"@.len() == 3 && "5/6"@[0] == '5' && "5/6"@[1] == '/' && "5/6"@[2] == '6');
    reveal_strlit("1/12");
    assert("1/12"@.len() == 4 && "1/12"@[0] == '1' && "1/12"@[1] == '/' && "1/12"@[2] == '1');
    assert("1/12"@[3] == '2');
    let name = amount.name();
    let other = fraction_name(numerator, denominator);
    assert(name == other ==> name.len() == other.len());
    assert(name == other && name.len() > 0 ==> name[0] == other[0]);
    assert(name == other && name.len() > 1 ==> name[1] == other[1]);
    assert(name == other && name.len() > 2 ==> name[2] == other[2]);
}

/// No border property is named like a property followed by a dash and an
/// amount or a fraction.
proof fn border_holds_no_value(bare: Property, property: Property, value: Seq<char>)
    requires
        bare.is_border(),
        bare.name() == property.name() + seq!['-'] + value,
        (exists|amount: Amount| amount.is_named() && amount.name() == value) || (exists|
            numerator: u8,
            denominator: u8,
        | is_fraction(numerator, denominator) && fraction_name(numerator, denominator) == value),
    ensures
        bare.name() != property.name() + seq!['-'] + value,
{
    reveal_strlit("h");
    assert("h"@.len() == 1 && "h"@[0] == 'h');
    reveal_strlit("w");
    assert("w"@.len() == 1 && "w"@[0] == 'w');
    reveal_strlit("min-h");
    assert("min-h"@.len() == 5 && "min-h"@[0] == 'm' && "min-h"@[1] == 'i' && "min-h"@[2] == 'n');
    assert("min-h"@[3] == '-' && "min-h"@[4] == 'h');
    reveal_strlit("min-w");
    assert("min-w"@.len() == 5 && "min-w"@[0] == 'm' && "min-w"@[1] == 'i' && "min-w"@[2] == 'n');
    assert("min-w"@[3] == '-' && "min-w"@[4] == 'w');
    reveal_strlit("max-h");
    assert("max-h"@.len() == 5 && "max-h"@[0] == 'm' && "max-h"@[1] == 'a' && "max-h"@[2] == 'x');
    assert("max-h"@[3] == '-' && "max-h"@[4] == 'h');
    reveal_strlit("max-w");
    assert("max-w"@.len() == 5 && "max-w"@[0] == 'm' && "max-w"@[1] == 'a' && "max-w"@[2] == 'x');
    assert("max-w"@[3] == '-' && "max-w"@[4] == 'w');
    reveal_strlit("p");
    assert("p"@.len() == 1 && "p"@[0] == 'p');
    reveal_strlit("px");
    assert("px"@.len() == 2 && "px"@[0] == 'p' && "px"@[1] == 'x');
    reveal_strlit("py");
    assert("py"@.len() == 2 && "py"@[0] == 'p' && "py"@[1] == 'y');
    reveal_strlit("m");
    assert("m"@.len() == 1 && "m"@[0] == 'm');
    reveal_strlit("mx");
    assert("mx"@.len() == 2 && "mx"@[0] == 'm' && "mx"@[1] == 'x');
    reveal_strlit("my");
    assert("my"@.len() == 2 && "my"@[0] == 'm' && "my"@[1] == 'y');
    reveal_strlit("mt");
    assert("mt"@.len() == 2 && "mt"@[0] == 'm' && "mt"@[1] == 't');
    reveal_strlit("mr");
    assert("mr"@.len() == 2 && "mr"@[0] == 'm' && "mr"@[1] == 'r');
    reveal_strlit("mb");
    assert("mb"@.len() == 2 && "mb"@[0] == 'm' && "mb"@[1] == 'b');
    reveal_strlit("ml");
    assert("ml"@.len() == 2 && "ml"@[0] == 'm' && "ml"@[1] == 'l');
    reveal_strlit("size");
    assert("size"@.len() == 4 && "size"@[0] == 's' && "size"@[1] == 'i' && "size"@[2] == 'z');
    assert("size"@[3] == 'e');
    reveal_strlit("border");
    assert("border"@.len() == 6 && "border"@[0] == 'b' && "border"@[1] == 'o' && "border"@[2] == 'r');
    assert("border"@[3] == 'd' && "border"@[4] == 'e' && "border"@[5] == 'r');
    reveal_strlit("border-t");
    assert("border-t"@.len() == 8 && "border-t"@[0] == 'b' && "border-t"@[1] == 'o' && "border-t"@[2] == 'r');
    assert("border-t"@[3] == 'd' && "border-t"@[4] == 'e' && "border-t"@[5] == 'r' && "border-t"@[6] == '-');
    assert("border-t"@[7] == 't');
    reveal_strlit("border-r");
    assert("border-r"@.len() == 8 && "border-r"@[0] == 'b' && "border-r"@[1] == 'o' && "border-r"@[2] == 'r');
    assert("border-r"@[3] == 'd' && "border-r"@[4] == 'e' && "border-r"@[5] == 'r' && "border-r"@[6] == '-');
    assert("border-r"@[7] == 'r');
    reveal_strlit("border-b");
    assert("border-b"@.len() == 8 && "border-b"@[0] == 'b' && "border-b"@[1] == 'o' && "border-b"@[2] == 'r');
    assert("border-b"@[3] == 'd' && "border-b"@[4] == 'e' && "border-b"@[5] == 'r' && "border-b"@[6] == '-');
    assert("border-b"@[7] == 'b');
    reveal_strlit("border-l");
    assert("border-l"@.len() == 8 && "border-l"@[0] == 'b' && "border-l"@[1] == 'o' && "border-l"@[2] == 'r');
    assert("border-l"@[3] == 'd' && "border-l"@[4] == 'e' && "border-l"@[5] == 'r' && "border-l"@[6] == '-');
    assert("border-l"@[7] == 'l');
    reveal_strlit("border-x");
    assert("border-x"@.len() == 8 && "border-x"@[0] == 'b' && "border-x"@[1] == 'o' && "border-x"@[2] == 'r');
    assert("border-x"@[3] == 'd' && "border-x"@[4] == 'e' && "border-x"@[5] == 'r' && "border-x"@[6] == '-');
    assert("border-x"@[7] == 'x');
    reveal_strlit("border-y");
    assert("border-y"@.len() == 8 && "border-y"@[0] == 'b' && "border-y"@[1] == 'o' && "border-y"@[2] == 'r');
    assert("border-y"@[3] == 'd' && "border-y"@[4] == 'e' && "border-y"@[5] == 'r' && "border-y"@[6] == '-');
    assert("border-y"@[7] == 'y');
    reveal_strlit("rounded");
    assert("rounded"@.len() == 7 && "rounded"@[0] == 'r' && "rounded"@[1] == 'o' && "rounded"@[2] == 'u');
    assert("rounded"@[3] == 'n' && "rounded"@[4] == 'd' && "rounded"@[5] == 'e' && "rounded"@[6] == 'd');
    reveal_strlit("rounded-t");
    assert("rounded-t"@.len() == 9 && "rounded-t"@[0] == 'r' && "rounded-t"@[1] == 'o' && "rounded-t"@[2] == 'u');
    assert("rounded-t"@[3] == 'n' && "rounded-t"@[4] == 'd' && "rounded-t"@[5] == 'e' && "rounded-t"@[6] == 'd');
    assert("rounded-t"@[7] == '-' && "rounded-t"@[8] == 't');
    reveal_strlit("rounded-r");
    assert("rounded-r"@.len() == 9 && "rounded-r"@[0] == 'r' && "rounded-r"@[1] == 'o' && "rounded-r"@[2] == 'u');
    assert("rounded-r"@[3] == 'n' && "rounded-r"@[4] == 'd' && "rounded-r"@[5] == 'e' && "rounded-r"@[6] == 'd');
    assert("rounded-r"@[7] == '-' && "rounded-r"@[8] == 'r');
    reveal_strlit("rounded-b");
    assert("rounded-b"@.len() == 9 && "rounded-b"@[0] == 'r' && "rounded-b"@[1] == 'o' && "rounded-b"@[2] == 'u');
    assert("rounded-b"@[3] == 'n' && "rounded-b"@[4] == 'd' && "rounded-b"@[5] == 'e' && "rounded-b"@[6] == 'd');
    assert("rounded-b"@[7] == '-' && "rounded-b"@[8] == 'b');
    reveal_strlit("rounded-l");
    assert("rounded-l"@.len() == 9 && "rounded-l"@[0] == 'r' && "rounded-l"@[1] == 'o' && "rounded-l"@[2] == 'u');
    assert("rounded-l"@[3] == 'n' && "rounded-l"@[4] == 'd' && "rounded-l"@[5] == 'e' && "rounded-l"@[6] == 'd');
    assert("rounded-l"@[7] == '-' && "rounded-l"@[8] == 'l');
    reveal_strlit("rounded-tl");
    assert("rounded-tl"@.len() == 10 && "rounded-tl"@[0] == 'r' && "rounded-tl"@[1] == 'o' && "rounded-tl"@[2] == 'u');
    assert("rounded-tl"@[3] == 'n' && "rounded-tl"@[4] == 'd' && "rounded-tl"@[5] == 'e' && "rounded-tl"@[6] == 'd');
    assert("rounded-tl"@[7] == '-' && "rounded-tl"@[8] == 't' && "rounded-tl"@[9] == 'l');
    reveal_strlit("rounded-tr");
    assert("rounded-tr"@.len() == 10 && "rounded-tr"@[0] == 'r' && "rounded-tr"@[1] == 'o' && "rounded-tr"@[2] == 'u');
    assert("rounded-tr"@[3] == 'n' && "rounded-tr"@[4] == 'd' && "rounded-tr"@[5] == 'e' && "rounded-tr"@[6] == 'd');
    assert("rounded-tr"@[7] == '-' && "rounded-tr"@[8] == 't' && "rounded-tr"@[9] == 'r');
    reveal_strlit("rounded-br");
    assert("rounded-br"@.len() == 10 && "rounded-br"@[0] == 'r' && "rounded-br"@[1] == 'o' && "rounded-br"@[2] == 'u');
    assert("rounded-br"@[3] == 'n' && "rounded-br"@[4] == 'd' && "rounded-br"@[5] == 'e' && "rounded-br"@[6] == 'd');
    assert("rounded-br"@[7] == '-' && "rounded-br"@[8] == 'b' && "rounded-br"@[9] == 'r');
    reveal_strlit("rounded-bl");
    assert("rounded-bl"@.len() == 10 && "rounded-bl"@[0] == 'r' && "rounded-bl"@[1] == 'o' && "rounded-bl"@[2] == 'u');
    assert("rounded-bl"@[3] == 'n' && "rounded-bl"@[4] == 'd' && "rounded-bl"@[5] == 'e' && "rounded-bl"@[6] == 'd');
    assert("rounded-bl"@[7] == '-' && "rounded-bl"@[8] == 'b' && "rounded-bl"@[9] == 'l');
    reveal_strlit("0");
    assert("0"@.len() == 1 && "0"@[0] == '0');
    reveal_strlit("0.5");
    assert("0.5"@.len() == 3 && "0.5"@[0] == '0' && "0.5"@[1] == '.' && "0.5"@[2] == '5');
    reveal_strlit("1");
    assert("1"@.len() == 1 && "1"@[0] == '1');
    reveal_strlit("1.5");
    assert("1.5"@.len() == 3 && "1.5"@[0] == '1' && "1.5"@[1] == '.' && "1.5"@[2] == '5');
    reveal_strlit("2");
    assert("2"@.len() == 1 && "2"@[0] == '2');
    reveal_strlit("2.5");
    assert("2.5"@.len() == 3 && "2.5"@[0] == '2' && "2.5"@[1] == '.' && "2.5"@[2] == '5');
    reveal_strlit("3");
    assert("3"@.len() == 1 && "3"@[0] == '3');
    reveal_strlit("3.5");
    assert("3.5"@.len() == 3 && "3.5"@[0] == '3' && "3.5"@[1] == '.' && "3.5"@[2] == '5');
    reveal_strlit("4");
    assert("4"@.len() == 1 && "4"@[0] == '4');
    reveal_strlit("5");
    assert("5"@.len() == 1 && "5"@[0] == '5');
    reveal_strlit("6");
    assert("6"@.len() == 1 && "6"@[0] == '6');
    reveal_strlit("8");
    assert("8"@.len() == 1 && "8"@[0] == '8');
    reveal_strlit("10");
    assert("10"@.len() == 2 && "10"@[0] == '1' && "10"@[1] == '0');
    reveal_strlit("12");
    assert("12"@.len() == 2 && "12"@[0] == '1' && "12"@[1] == '2');
    reveal_strlit("16");
    assert("16"@.len() == 2 && "16"@[0] == '1' && "16"@[1] == '6');
    reveal_strlit("20");
    assert("20"@.len() == 2 && "20"@[0] == '2' && "20"@[1] == '0');
    reveal_strlit("24");
    assert("24"@.len() == 2 && "24"@[0] == '2' && "24"@[1] == '4');
    reveal_strlit("32");
    assert("32"@.len() == 2 && "32"@[0] == '3' && "32"@[1] == '2');
    reveal_strlit("40");
    assert("40"@.len() == 2 && "40"@[0] == '4' && "40"@[1] == '0');
    reveal_strlit("48");
    assert("48"@.len() == 2 && "48"@[0] == '4' && "48"@[1] == '8');
    reveal_strlit("56");
    assert("56"@.len() == 2 && "56"@[0] == '5' && "56"@[1] == '6');
    reveal_strlit("64");
    assert("64"@.len() == 2 && "64"@[0] == '6' && "64"@[1] == '4');
    reveal_strlit("72");
    assert("72"@.len() == 2 && "72"@[0] == '7' && "72"@[1] == '2');
    reveal_strlit("80");
    assert("80"@.len() == 2 && "80"@[0] == '8' && "80"@[1] == '0');
    reveal_strlit("96");
    assert("96"@.len() == 2 && "96"@[0] == '9' && "96"@[1] == '6');
    reveal_strlit("px");
    assert("px"@.len() == 2 && "px"@[0] == 'p' && "px"@[1] == 'x');
    reveal_strlit("auto");
    assert("auto"@.len() == 4 && "auto"@[0] == 'a' && "auto"@[1] == 'u' && "auto"@[2] == 't');
    assert("auto"@[3] == 'o');
    reveal_strlit("full");
    assert("full"@.len() == 4 && "full"@[0] == 'f' && "full"@[1] == 'u' && "full"@[2] == 'l');
    assert("full"@[3] == 'l');
    reveal_strlit("none");
    assert("none"@.len() == 4 && "none"@[0] == 'n' && "none"@[1] == 'o' && "none"@[2] == 'n');
    assert("none"@[3] == 'e');
    reveal_strlit("sm");
    assert("sm"@.len() == 2 && "sm"@[0] == 's' && "sm"@[1] == 'm');
    reveal_strlit("md");
    assert("md"@.len() == 2 && "md"@[0] == 'm' && "md"@[1] == 'd');
    reveal_strlit("lg");
    assert("lg"@.len() == 2 && "lg"@[0] == 'l' && "lg"@[1] == 'g');
    reveal_strlit("solid");
    assert("solid"@.len() == 5 && "solid"@[0] == 's' && "solid"@[1] == 'o' && "solid"@[2] == 'l');
    assert("solid"@[3] == 'i' && "solid"@[4] == 'd');
    reveal_strlit("1/2");
    assert("1/2"@.len() == 3 && "1/2"@[0] == '1' && "1/2"@[1] == '/' && "1/2"@[2] == '2');
    reveal_strlit("1/3");
    assert("1/3"@.len() == 3 && "1/3"@[0] == '1' && "1/3"@[1] == '/' && "1/3"@[2] == '3');
    reveal_strlit("2/3");
    assert("2/3"@.len() == 3 && "2/3"@[0] == '2' && "2/3"@[1] == '/' && "2/3"@[2] == '3');
    reveal_strlit("1/4");
    assert("1/4"@.len() == 3 && "1/4"@[0] == '1' && "1/4"@[1] == '/' && "1/4"@[2] == '4');
    reveal_strlit("2/4");
    assert("2/4"@.len() == 3 && "2/4"@[0] == '2' && "2/4"@[1] == '/' && "2/4"@[2] == '4');
    reveal_strlit("3/4");
    assert("3/4"@.len() == 3 && "3/4"@[0] == '3' && "3/4"@[1] == '/' && "3/4"@[2] == '4');
    reveal_strlit("1/5");
    assert("1/5"@.len() == 3 && "1/5"@[0] == '1' && "1/5"@[1] == '/' && "1/5"@[2] == '5');
    reveal_strlit("2/5");
    assert("2/5"@.len() == 3 && "2/5"@[0] == '2' && "2/5"@[1] == '/' && "2/5"@[2] == '5');
    reveal_strlit("3/5");
    assert("3/5"@.len() == 3 && "3/5"@[0] == '3' && "3/5"@[1] == '/' && "3/5"@[2] == '5');
    reveal_strlit("4/5");
    assert("4/5"@.len() == 3 && "4/5"@[0] == '4' && "4/5"@[1] == '/' && "4/5"@[2] == '5');
    reveal_strlit("1/6");
    assert("1/6"@.len() == 3 && "1/6"@[0] == '1' && "1/6"@[1] == '/' && "1/6"@[2] == '6');
    reveal_strlit("5/6");
    assert("5/6"@.len() == 3 && "5/6"@[0] == '5' && "5/6"@[1] == '/' && "5/6"@[2] == '6');
    reveal_strlit("1/12");
    assert("1/12"@.len() == 4 && "1/12"@[0] == '1' && "1/12"@[1] == '/' && "1/12"@[2] == '1');
    assert("1/12"@[3] == '2');
    let name = bare.name();
    let prefix = property.name();
    let longer = prefix + seq!['-'] + value;
    if name == longer {
        assert(name.len() == prefix.len() + 1 + value.len());
        assert(longer[prefix.len() as int] == '-');
        assert(value.len() > 0 ==> value[0] == longer[prefix.len() as int + 1]);
        if exists|amount: Amount| amount.is_named() && amount.name() == value {
            let amount = choose|amount: Amount| amount.is_named() && amount.name() == value;
            assert(amount.name().len() > 0 ==> amount.name()[0] == value[0]);
        } else {
            let (numerator, denominator) = choose|numerator: u8, denominator: u8|
                is_fraction(numerator, denominator) && fraction_name(numerator, denominator)
                    == value;
            let other = fraction_name(numerator, denominator);
            assert(other.len() > 0 ==> other[0] == value[0]);
        }
    }
}

/// What the lookups found for a token and for its parts on either side of its
/// last dash.
struct Findings {
    bare: Option<Property>,
    dash: Option<int>,
    head: Option<Property>,
    amount: Option<Amount>,
    fraction: Option<(u8, u8)>,
}

impl Findings {
    /// The findings are those of `token`.
    spec fn of(self, token: Seq<char>) -> bool {
        &&& forall|flag: Flag| #[trigger] flag.name() != token
        &&& match self.bare {
            Some(property) => property.name() == token,
            None => forall|property: Property| #[trigger] property.name() != token,
        }
        &&& match self.dash {
            Some(at) => {
                let before = token.subrange(0, at);
                let after = token.subrange(at + 1, token.len() as int);
                &&& 0 <= at < token.len()
                &&& token[at] == '-'
                &&& forall|i: int| at < i < token.len() ==> token[i] != '-'
                &&& match self.head {
                    Some(property) => property.name() == before,
                    None => forall|property: Property| #[trigger] property.name() != before,
                }
                &&& match self.amount {
                    Some(amount) => amount.is_named() && amount.name() == after,
                    None => forall|amount: Amount|
                        amount.is_named() ==> #[trigger] amount.name() != after,
                }
                &&& match self.fraction {
                    Some((numerator, denominator)) => is_fraction(numerator, denominator)
                        && fraction_name(numerator, denominator) == after,
                    None => forall|numerator: u8, denominator: u8|
                        is_fraction(numerator, denominator) ==> #[trigger] fraction_name(
                            numerator,
                            denominator,
                        ) != after,
                }
            },
            None => !token.contains('-') && self.head is None && self.amount is None
                && self.fraction is None,
        }
    }

    /// The operation that the findings amount to.
    spec fn operation(self) -> Option<StyleOperation> {
        if self.bare is Some && self.bare.unwrap().admits(Amount::Default) {
            Some(StyleOperation::Scalar { property: self.bare.unwrap(), amount: Amount::Default })
        } else if self.head is Some && self.amount is Some && self.head.unwrap().admits(
            self.amount.unwrap(),
        ) {
            Some(
                StyleOperation::Scalar {
                    property: self.head.unwrap(),
                    amount: self.amount.unwrap(),
                },
            )
        } else if self.head is Some && self.fraction is Some
            && self.head.unwrap().admits_fraction() {
            Some(
                StyleOperation::Fraction {
                    property: self.head.unwrap(),
                    numerator: self.fraction.unwrap().0,
                    denominator: self.fraction.unwrap().1,
                },
            )
        } else {
            None
        }
    }
}

/// A scalar or a fraction of the table that spells `token` is the one that the
/// findings amount to.
proof fn findings_are_complete(token: Seq<char>, findings: Findings, operation: StyleOperation)
    requires
        findings.of(token),
        operation.is_enumerated(),
        operation.spelling() == token,
    ensures
        findings.operation() == Some(operation),
{
    value_names_hold_no_dash();
    match operation {
        StyleOperation::Flag(flag) => {
            assert(flag.name() == token);
        },
        StyleOperation::Scalar { property, amount: Amount::Default } => {
            assert(property.name() == token);
            property_names_differ(property, findings.bare.unwrap());
        },
        StyleOperation::Scalar { property, amount } => {
            let value = amount.name();
            assert(token == property.name() + seq!['-'] + value);
            assert(token[property.name().len() as int] == '-');
            split_at_value(token, property.name(), value, findings.dash.unwrap());
            property_names_differ(property, findings.head.unwrap());
            amount_names_differ(amount, findings.amount.unwrap());
            if findings.bare is Some && findings.bare.unwrap().is_border() {
                border_holds_no_value(findings.bare.unwrap(), property, value);
            }
        },
        StyleOperation::Fraction { property, numerator, denominator } => {
            let value = fraction_name(numerator, denominator);
            assert(token == property.name() + seq!['-'] + value);
            assert(token[property.name().len() as int] == '-');
            split_at_value(token, property.name(), value, findings.dash.unwrap());
            property_names_differ(property, findings.head.unwrap());
            fraction_names_differ(
                numerator,
                denominator,
                findings.fraction.unwrap().0,
                findings.fraction.unwrap().1,
            );
            if findings.bare is Some && findings.bare.unwrap().is_border() {
                border_holds_no_value(findings.bare.unwrap(), property, value);
            }
            if findings.amount is Some {
                slash_marks_fractions(findings.amount.unwrap(), numerator, denominator);
            }
        },
        StyleOperation::Color { .. } => {},
    }
}

/// The operation of the fixed table that `token` spells, if any. There is at
/// most one: see `spelling_is_unambiguous`.
pub open spec fn enumerated_named(token: Seq<char>) -> Option<StyleOperation> {
    if exists|operation: StyleOperation|
        operation.is_enumerated() && #[trigger] operation.spelling() == token {
        Some(
            choose|operation: StyleOperation|
                operation.is_enumerated() && #[trigger] operation.spelling() == token,
        )
    } else {
        None
    }
}

/// The operation of the fixed table that `token` spells, if any.
pub fn enumerated_operation(token: &[char]) -> (found: Option<StyleOperation>)
    ensures
        found == enumerated_named(token@),
        match found {
            Some(operation) => operation.is_enumerated() && operation.spelling() == token@,
            None => forall|operation: StyleOperation|
                operation.is_enumerated() ==> #[trigger] operation.spelling() != token@,
        },
{
    if let Some(flag) = flag_named(token) {
        proof {
            named_is(token@, StyleOperation::Flag(flag));
        }
        return Some(StyleOperation::Flag(flag));
    }
    let bare = property_named(token);
    let dash = last_position(token, '-');
    let mut head: Option<Property> = None;
    let mut amount: Option<Amount> = None;
    let mut fraction: Option<(u8, u8)> = None;
    let length = token.len();
    if let Some(at) = dash {
        let value = &token[at + 1..length];
        head = property_named(&token[0..at]);
        amount = amount_named(value);
        fraction = fraction_named(value);
    }
    let ghost findings = Findings {
        bare,
        dash: match dash {
            Some(at) => Some(at as int),
            None => None,
        },
        head,
        amount,
        fraction,
    };
    let found = choose_operation(bare, head, amount, fraction);
    proof {
        assert(findings.of(token@));
        assert(found == findings.operation());
        match found {
            Some(operation) => {
                found_operation_spells(token@, findings);
                named_is(token@, operation);
            },
            None => {
                assert forall|operation: StyleOperation| operation.is_enumerated() implies
                    #[trigger] operation.spelling() != token@ by {
                    if operation.spelling() == token@ {
                        findings_are_complete(token@, findings, operation);
                    }
                }
            },
        }
    }
    found
}

/// The first of a bare property, a property with an amount and a property
/// with a fraction that the table holds.
fn choose_operation(
    bare: Option<Property>,
    head: Option<Property>,
    amount: Option<Amount>,
    fraction: Option<(u8, u8)>,
) -> (found: Option<StyleOperation>)
    ensures
        found == (Findings { bare, dash: None, head, amount, fraction }).operation(),
{
    if let Some(property) = bare {
        if admits_amount(property, Amount::Default) {
            return Some(StyleOperation::Scalar { property, amount: Amount::Default });
        }
    }
    if let (Some(property), Some(amount)) = (head, amount) {
        if admits_amount(property, amount) {
            return Some(StyleOperation::Scalar { property, amount });
        }
    }
    if let (Some(property), Some((numerator, denominator))) = (head, fraction) {
        if admits_any_fraction(property) {
            return Some(StyleOperation::Fraction { property, numerator, denominator });
        }
    }
    None
}

/// The operation that the findings amount to spells the token.
proof fn found_operation_spells(token: Seq<char>, findings: Findings)
    requires
        findings.of(token),
        findings.operation() is Some,
    ensures
        findings.operation().unwrap().is_enumerated(),
        findings.operation().unwrap().spelling() == token,
{
    if findings.dash is Some {
        let at = findings.dash.unwrap();
        assert(token =~= token.subrange(0, at) + seq!['-'] + token.subrange(
            at + 1,
            token.len() as int,
        ));
    }
}

/// How `token` falls apart at the dash at `at`, with whatever names its parts.
spec fn findings_at(token: Seq<char>, at: Option<int>) -> Findings {
    let before = token.subrange(0, at.unwrap());
    let after = token.subrange(at.unwrap() + 1, token.len() as int);
    Findings {
        bare: if exists|property: Property| property.name() == token {
            Some(choose|property: Property| property.name() == token)
        } else {
            None
        },
        dash: at,
        head: if at is Some && exists|property: Property| property.name() == before {
            Some(choose|property: Property| property.name() == before)
        } else {
            None
        },
        amount: if at is Some && exists|amount: Amount| amount.is_named() && amount.name() == after {
            Some(choose|amount: Amount| amount.is_named() && amount.name() == after)
        } else {
            None
        },
        fraction: if at is Some && exists|pair: (u8, u8)|
            is_fraction(pair.0, pair.1) && fraction_name(pair.0, pair.1) == after {
            Some(
                choose|pair: (u8, u8)|
                    is_fraction(pair.0, pair.1) && fraction_name(pair.0, pair.1) == after,
            )
        } else {
            None
        },
    }
}

/// No two operations of the fixed table are spelled alike.
pub proof fn spelling_is_unambiguous(first: StyleOperation, second: StyleOperation)
    requires
        first.is_enumerated(),
        second.is_enumerated(),
        first.spelling() == second.spelling(),
    ensures
        first == second,
{
    let token = first.spelling();
    match (first, second) {
        (StyleOperation::Flag(a), StyleOperation::Flag(b)) => {
            flag_names_differ(a, b);
        },
        (StyleOperation::Flag(flag), other) => {
            flag_differs_from_valued(flag, other);
        },
        (other, StyleOperation::Flag(flag)) => {
            flag_differs_from_valued(flag, other);
        },
        _ => {
            assert forall|flag: Flag| #[trigger] flag.name() != token by {
                if flag.name() == token {
                    flag_differs_from_valued(flag, first);
                }
            }
            value_names_hold_no_dash();
            let valued = if first matches StyleOperation::Scalar { amount: Amount::Default, .. } {
                second
            } else {
                first
            };
            let at: Option<int> = match valued {
                StyleOperation::Scalar { amount: Amount::Default, .. } => None,
                StyleOperation::Scalar { property, .. } => Some(property.name().len() as int),
                StyleOperation::Fraction { property, .. } => Some(property.name().len() as int),
                _ => None,
            };
            if at is None {
                property_names_differ(first->Scalar_property, second->Scalar_property);
            } else {
                let findings = findings_at(token, at);
                let value = match valued {
                    StyleOperation::Scalar { amount, .. } => amount.name(),
                    StyleOperation::Fraction { numerator, denominator, .. } => fraction_name(
                        numerator,
                        denominator,
                    ),
                    _ => Seq::empty(),
                };
                let prefix = match valued {
                    StyleOperation::Scalar { property, .. } => property.name(),
                    StyleOperation::Fraction { property, .. } => property.name(),
                    _ => Seq::empty(),
                };
                assert(token == prefix + seq!['-'] + value);
                assert(token[at.unwrap()] == '-');
                assert forall|i: int| at.unwrap() < i < token.len() implies token[i] != '-' by {
                    assert(token[i] == value[i - at.unwrap() - 1]);
                }
                let after = token.subrange(at.unwrap() + 1, token.len() as int);
                assert forall|numerator: u8, denominator: u8|
                    findings.fraction is None && is_fraction(
                        numerator,
                        denominator,
                    ) implies #[trigger] fraction_name(numerator, denominator) != after by {
                    let pair = (numerator, denominator);
                    assert(is_fraction(pair.0, pair.1));
                }
                assert(findings.of(token));
                findings_are_complete(token, findings, first);
                findings_are_complete(token, findings, second);
            }
        },
    }
}

/// An operation of the table is the one that its spelling names.
pub proof fn named_is(token: Seq<char>, operation: StyleOperation)
    requires
        operation.is_enumerated(),
        operation.spelling() == token,
    ensures
        enumerated_named(token) == Some(operation),
{
    let other = choose|other: StyleOperation|
        other.is_enumerated() && #[trigger] other.spelling() == token;
    spelling_is_unambiguous(operation, other);
}

/// A flag is spelled unlike any scalar or fraction of the table.
proof fn flag_differs_from_valued(flag: Flag, other: StyleOperation)
    requires
        !(other is Flag),
        other.is_enumerated(),
    ensures
        flag.name() != other.spelling(),
{
    {
        match other {
            StyleOperation::Scalar { property, amount: Amount::Default } => {
                flag_is_no_property(flag, property, Seq::empty());
            },
            StyleOperation::Scalar { property, amount } => {
                flag_is_no_property(flag, property, amount.name());
            },
            StyleOperation::Fraction { property, numerator, denominator } => {
                flag_is_no_property(flag, property, fraction_name(numerator, denominator));
            },
            _ => {},
        }
    }
}

} // verus!
