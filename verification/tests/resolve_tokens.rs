use xml2gpui::literal::{extract_length_from_class_name, hex_to_rgb, ResolveError, Rgb};
use xml2gpui::resolve::{resolve_class, resolve_token, set_attributes, Diagnostic, TokenResolution};
use xml2gpui::style::{
    AbsoluteLength, Amount, ColorTarget, Flag, Keyword, LengthUnit, Property, Slot, StyleOperation,
};

fn scalar(property: Property, amount: Amount) -> StyleOperation {
    StyleOperation::Scalar { property, amount }
}

fn step(property: Property, halves: u8) -> StyleOperation {
    scalar(property, Amount::Step { halves })
}

fn resolved(operation: StyleOperation) -> TokenResolution {
    TokenResolution { operation: Some(operation), error: None }
}

fn pairs(items: &[(&str, &str)]) -> Vec<(String, String)> {
    items.iter().map(|(k, v)| (k.to_string(), v.to_string())).collect()
}

#[test]
fn later_token_of_a_slot_wins() {
    let resolution = resolve_class("h-4 h-8");
    assert_eq!(resolution.operations, vec![step(Property::Height, 16)]);
    assert!(resolution.diagnostics.is_empty());
}

#[test]
fn distinct_slots_resolve_alike_in_any_order() {
    let one = resolve_class("h-4 w-8 flex");
    let other = resolve_class("flex h-4 w-8");
    assert_eq!(
        one.operations,
        vec![step(Property::Height, 8), step(Property::Width, 16), StyleOperation::Flag(Flag::Flex)]
    );
    assert_eq!(
        other.operations,
        vec![StyleOperation::Flag(Flag::Flex), step(Property::Height, 8), step(Property::Width, 16)]
    );
    let mut left: Vec<Slot> = one.operations.iter().map(|op| op.slot()).collect();
    let mut right: Vec<Slot> = other.operations.iter().map(|op| op.slot()).collect();
    assert_eq!(left.len(), 3);
    left.retain(|slot| right.contains(slot));
    right.retain(|slot| one.operations.iter().any(|op| op.slot() == *slot));
    assert_eq!(left.len(), 3);
    assert_eq!(right.len(), 3);
    for operation in &one.operations {
        assert!(other.operations.contains(operation));
    }
}

#[test]
fn background_color_token_carries_its_channels() {
    assert_eq!(
        resolve_token("bg-[#112233]"),
        resolved(StyleOperation::Color {
            target: ColorTarget::Background,
            red: 0x11,
            green: 0x22,
            blue: 0x33
        })
    );
    assert_eq!(
        resolve_token("text-color-[#A0b1C2]"),
        resolved(StyleOperation::Color {
            target: ColorTarget::Text,
            red: 0xa0,
            green: 0xb1,
            blue: 0xc2
        })
    );
}

#[test]
fn malformed_color_fails_for_its_token_only() {
    assert_eq!(
        resolve_token("bg-[zz0000]"),
        TokenResolution { operation: None, error: Some(ResolveError::InvalidColorLiteral) }
    );
    let with = resolve_class("flex bg-[zz0000] h-4");
    let without = resolve_class("flex h-4");
    assert_eq!(with.operations, without.operations);
    assert_eq!(
        with.operations,
        vec![StyleOperation::Flag(Flag::Flex), step(Property::Height, 8)]
    );
    assert_eq!(
        with.diagnostics,
        vec![Diagnostic { token: Some(1), error: ResolveError::InvalidColorLiteral }]
    );
    assert!(without.diagnostics.is_empty());
}

#[test]
fn unknown_token_is_ignored_without_error() {
    assert_eq!(resolve_token("frobnicate-9"), TokenResolution { operation: None, error: None });
    let resolution = resolve_class("frobnicate-9");
    assert!(resolution.operations.is_empty());
    assert!(resolution.diagnostics.is_empty());
    assert_eq!(resolve_token(""), TokenResolution { operation: None, error: None });
    assert_eq!(resolve_token("h-7"), TokenResolution { operation: None, error: None });
    assert_eq!(resolve_token("h-px"), TokenResolution { operation: None, error: None });
    assert_eq!(resolve_token("p-auto"), TokenResolution { operation: None, error: None });
    assert_eq!(resolve_token("border-t-solid"), TokenResolution { operation: None, error: None });
    assert_eq!(resolve_token("min-h-4"), TokenResolution { operation: None, error: None });
    assert_eq!(resolve_token("h-0.5"), TokenResolution { operation: None, error: None });
    assert_eq!(resolve_token("Flex"), TokenResolution { operation: None, error: None });
    assert_eq!(resolve_token("h--4"), TokenResolution { operation: None, error: None });
}

#[test]
fn enumerated_tokens_resolve_to_their_operations() {
    assert_eq!(resolve_token("flex"), resolved(StyleOperation::Flag(Flag::Flex)));
    assert_eq!(
        resolve_token("cursor-col-resize"),
        resolved(StyleOperation::Flag(Flag::CursorColResize))
    );
    assert_eq!(
        resolve_token("flex-col_reverse"),
        resolved(StyleOperation::Flag(Flag::FlexColReverse))
    );
    assert_eq!(resolve_token("shadow-2xl"), resolved(StyleOperation::Flag(Flag::Shadow2xl)));
    assert_eq!(resolve_token("h-96"), resolved(step(Property::Height, 192)));
    assert_eq!(resolve_token("size-0.5"), resolved(step(Property::Size, 1)));
    assert_eq!(resolve_token("size-3.5"), resolved(step(Property::Size, 7)));
    assert_eq!(resolve_token("min-w-0"), resolved(step(Property::MinWidth, 0)));
    assert_eq!(
        resolve_token("max-h-full"),
        resolved(scalar(Property::MaxHeight, Amount::Keyword(Keyword::Full)))
    );
    assert_eq!(
        resolve_token("mx-px"),
        resolved(scalar(Property::MarginX, Amount::Keyword(Keyword::Px)))
    );
    assert_eq!(
        resolve_token("m-auto"),
        resolved(scalar(Property::Margin, Amount::Keyword(Keyword::Auto)))
    );
    assert_eq!(
        resolve_token("w-2/3"),
        resolved(StyleOperation::Fraction { property: Property::Width, numerator: 2, denominator: 3 })
    );
    assert_eq!(
        resolve_token("py-1/12"),
        resolved(StyleOperation::Fraction {
            property: Property::PaddingY,
            numerator: 1,
            denominator: 12
        })
    );
    assert_eq!(resolve_token("border"), resolved(scalar(Property::Border, Amount::Default)));
    assert_eq!(resolve_token("border-t"), resolved(scalar(Property::BorderTop, Amount::Default)));
    assert_eq!(resolve_token("border-x-8"), resolved(step(Property::BorderX, 16)));
    assert_eq!(
        resolve_token("border-solid"),
        resolved(scalar(Property::Border, Amount::Keyword(Keyword::Solid)))
    );
    assert_eq!(
        resolve_token("rounded-tl-none"),
        resolved(scalar(Property::RoundedTopLeft, Amount::Keyword(Keyword::Nothing)))
    );
    assert_eq!(
        resolve_token("rounded-full"),
        resolved(scalar(Property::Rounded, Amount::Keyword(Keyword::Full)))
    );
}

#[test]
fn rounded_token_with_a_length() {
    let length = |unit, mantissa, scale| AbsoluteLength { unit, mantissa, scale };
    let fine = |property, written| resolved(scalar(property, Amount::Length(written)));
    let stand_in = |property, written| TokenResolution {
        operation: Some(scalar(property, Amount::Length(written))),
        error: Some(ResolveError::InvalidLengthLiteral),
    };
    assert_eq!(
        resolve_token("rounded-4px"),
        fine(Property::Rounded, length(LengthUnit::Pixels, 4, 0))
    );
    assert_eq!(
        resolve_token("rounded-0.25rem"),
        fine(Property::Rounded, length(LengthUnit::Rems, 25, 2))
    );
    assert_eq!(
        resolve_token("rounded-tl-2rem"),
        fine(Property::RoundedTopLeft, length(LengthUnit::Rems, 2, 0))
    );
    assert_eq!(
        resolve_token("rounded-t-4px"),
        fine(Property::RoundedTop, length(LengthUnit::Pixels, 4, 0))
    );
    assert_eq!(
        resolve_token("rounded-r-1.5px"),
        fine(Property::RoundedRight, length(LengthUnit::Pixels, 15, 1))
    );
    assert_eq!(
        resolve_token("rounded-b-.5rem"),
        fine(Property::RoundedBottom, length(LengthUnit::Rems, 5, 1))
    );
    assert_eq!(
        resolve_token("rounded-l-12px"),
        fine(Property::RoundedLeft, length(LengthUnit::Pixels, 12, 0))
    );
    assert_eq!(
        resolve_token("rounded-tr-3px"),
        fine(Property::RoundedTopRight, length(LengthUnit::Pixels, 3, 0))
    );
    assert_eq!(
        resolve_token("rounded-br-3rem"),
        fine(Property::RoundedBottomRight, length(LengthUnit::Rems, 3, 0))
    );
    assert_eq!(
        resolve_token("rounded-bl-0px"),
        fine(Property::RoundedBottomLeft, length(LengthUnit::Pixels, 0, 0))
    );
    assert_eq!(
        resolve_token("rounded-x-4px"),
        fine(Property::Rounded, length(LengthUnit::Pixels, 4, 0))
    );
    assert_eq!(
        resolve_token("rounded-bl"),
        stand_in(Property::RoundedBottomLeft, length(LengthUnit::Pixels, 0, 0))
    );
    assert_eq!(
        resolve_token("rounded-t-"),
        stand_in(Property::RoundedTop, length(LengthUnit::Pixels, 0, 0))
    );
    assert_eq!(
        resolve_token("rounded-t-4em"),
        stand_in(Property::RoundedTop, length(LengthUnit::Pixels, 0, 0))
    );
    assert_eq!(
        resolve_token("rounded-tl-rem"),
        stand_in(Property::RoundedTopLeft, length(LengthUnit::Pixels, 0, 0))
    );
    assert_eq!(
        resolve_token("rounded-tl-.rem"),
        stand_in(Property::RoundedTopLeft, length(LengthUnit::Rems, 0, 0))
    );
    assert_eq!(
        resolve_token("rounded-4em"),
        stand_in(Property::Rounded, length(LengthUnit::Pixels, 0, 0))
    );
    assert_eq!(
        resolve_token("rounded-xl"),
        stand_in(Property::Rounded, length(LengthUnit::Pixels, 0, 0))
    );
    assert_eq!(
        resolve_token("rounded-"),
        stand_in(Property::Rounded, length(LengthUnit::Pixels, 0, 0))
    );
    assert_eq!(
        resolve_token("rounded-1.2.3rem"),
        stand_in(Property::Rounded, length(LengthUnit::Rems, 0, 0))
    );
    assert_eq!(
        resolve_token("rounded-t-4px-2rem"),
        stand_in(Property::RoundedTop, length(LengthUnit::Pixels, 0, 0))
    );
}

#[test]
fn rounded_length_reaches_the_element() {
    let resolution = set_attributes(&pairs(&[("class", "rounded-tl-2rem")]));
    assert_eq!(
        resolution.operations,
        vec![scalar(
            Property::RoundedTopLeft,
            Amount::Length(AbsoluteLength { unit: LengthUnit::Rems, mantissa: 2, scale: 0 })
        )]
    );
    assert!(resolution.diagnostics.is_empty());
}

#[test]
fn lengths_of_class_names() {
    let length = |unit, mantissa, scale| AbsoluteLength { unit, mantissa, scale };
    assert_eq!(extract_length_from_class_name("12px"), length(LengthUnit::Pixels, 12, 0));
    assert_eq!(extract_length_from_class_name("12.5px"), length(LengthUnit::Pixels, 125, 1));
    assert_eq!(extract_length_from_class_name(".5rem"), length(LengthUnit::Rems, 5, 1));
    assert_eq!(extract_length_from_class_name("5.rem"), length(LengthUnit::Rems, 5, 0));
    assert_eq!(extract_length_from_class_name("007px"), length(LengthUnit::Pixels, 7, 0));
    assert_eq!(extract_length_from_class_name("t-4px"), length(LengthUnit::Pixels, 4, 0));
    assert_eq!(extract_length_from_class_name("tl-2rem"), length(LengthUnit::Rems, 2, 0));
    assert_eq!(extract_length_from_class_name("about 1.25rem"), length(LengthUnit::Rems, 125, 2));
    assert_eq!(extract_length_from_class_name("t-4px-2rem"), length(LengthUnit::Pixels, 0, 0));
    assert_eq!(extract_length_from_class_name("t-4 px"), length(LengthUnit::Pixels, 0, 0));
    assert_eq!(extract_length_from_class_name("t-px"), length(LengthUnit::Pixels, 0, 0));
    assert_eq!(extract_length_from_class_name("px"), length(LengthUnit::Pixels, 0, 0));
    assert_eq!(extract_length_from_class_name(".rem"), length(LengthUnit::Rems, 0, 0));
    assert_eq!(extract_length_from_class_name("4"), length(LengthUnit::Pixels, 0, 0));
    assert_eq!(extract_length_from_class_name("4pt"), length(LengthUnit::Pixels, 0, 0));
    assert_eq!(extract_length_from_class_name(""), length(LengthUnit::Pixels, 0, 0));
    assert_eq!(
        extract_length_from_class_name("18446744073709551615px"),
        length(LengthUnit::Pixels, u64::MAX, 0)
    );
    assert_eq!(
        extract_length_from_class_name("18446744073709551616px"),
        length(LengthUnit::Pixels, 0, 0)
    );
    assert_eq!(
        extract_length_from_class_name("1844674407370955161.6rem"),
        length(LengthUnit::Rems, 0, 0)
    );
}

#[test]
fn hex_colors() {
    assert_eq!(hex_to_rgb("#112233"), Ok(Rgb { red: 0x11, green: 0x22, blue: 0x33 }));
    assert_eq!(hex_to_rgb("ffFFff"), Ok(Rgb { red: 255, green: 255, blue: 255 }));
    assert_eq!(hex_to_rgb("##000a10"), Ok(Rgb { red: 0, green: 10, blue: 16 }));
    assert_eq!(hex_to_rgb("#12345"), Err(ResolveError::InvalidColorLiteral));
    assert_eq!(hex_to_rgb("#1234567"), Err(ResolveError::InvalidColorLiteral));
    assert_eq!(hex_to_rgb("#12345g"), Err(ResolveError::InvalidColorLiteral));
    assert_eq!(hex_to_rgb("#+12345"), Err(ResolveError::InvalidColorLiteral));
    assert_eq!(hex_to_rgb(""), Err(ResolveError::InvalidColorLiteral));
    assert_eq!(hex_to_rgb("zz0000"), Err(ResolveError::InvalidColorLiteral));
}

#[test]
fn bracket_tokens_at_their_edges() {
    let bad = TokenResolution { operation: None, error: Some(ResolveError::InvalidColorLiteral) };
    assert_eq!(resolve_token("bg-["), bad);
    assert_eq!(resolve_token("bg-[]"), bad);
    assert_eq!(resolve_token("bg-[#112233"), bad);
    assert_eq!(resolve_token("bg-[#112233x"), bad);
    assert_eq!(resolve_token("bg-[#1122334"), bad);
    assert_eq!(resolve_token("bg-[#112233]]"), bad);
    assert_eq!(resolve_token("text-color-[#112233"), bad);
    assert_eq!(resolve_token("text-color-["), bad);
    assert_eq!(
        resolve_token("text-color-[#112233]"),
        resolved(StyleOperation::Color {
            target: ColorTarget::Text,
            red: 0x11,
            green: 0x22,
            blue: 0x33
        })
    );
    assert_eq!(
        resolve_token("bg-[112233]"),
        resolved(StyleOperation::Color {
            target: ColorTarget::Background,
            red: 0x11,
            green: 0x22,
            blue: 0x33
        })
    );
    assert_eq!(resolve_token("bg-"), TokenResolution { operation: None, error: None });
}

#[test]
fn attributes_resolve_with_the_last_class_and_the_color() {
    let resolution = set_attributes(&pairs(&[
        ("class", "h-1"),
        ("color", "#010203"),
        ("id", "x"),
        ("class", "  w-2\t h-4\nw-3  bg-[#0a0b0c] "),
    ]));
    assert_eq!(
        resolution.operations,
        vec![
            StyleOperation::Color { target: ColorTarget::Attribute, red: 1, green: 2, blue: 3 },
            step(Property::Height, 8),
            step(Property::Width, 6),
            StyleOperation::Color { target: ColorTarget::Background, red: 10, green: 11, blue: 12 },
        ]
    );
    assert!(resolution.diagnostics.is_empty());
}

#[test]
fn attributes_report_every_error_with_its_place() {
    let resolution = set_attributes(&pairs(&[
        ("color", "red"),
        ("class", "text-color-[#12] flex rounded-9xp"),
    ]));
    assert_eq!(
        resolution.operations,
        vec![
            StyleOperation::Flag(Flag::Flex),
            scalar(
                Property::Rounded,
                Amount::Length(AbsoluteLength { unit: LengthUnit::Pixels, mantissa: 0, scale: 0 })
            ),
        ]
    );
    assert_eq!(
        resolution.diagnostics,
        vec![
            Diagnostic { token: None, error: ResolveError::InvalidColorLiteral },
            Diagnostic { token: Some(0), error: ResolveError::InvalidColorLiteral },
            Diagnostic { token: Some(2), error: ResolveError::InvalidLengthLiteral },
        ]
    );
    let none = set_attributes(&pairs(&[("id", "x")]));
    assert!(none.operations.is_empty());
    assert!(none.diagnostics.is_empty());
}

#[test]
fn repeated_flags_collapse_and_keep_their_last_place() {
    let resolution = resolve_class("flex block flex");
    assert_eq!(
        resolution.operations,
        vec![StyleOperation::Flag(Flag::Block), StyleOperation::Flag(Flag::Flex)]
    );
    let mixed = resolve_class("h-4 size-8 h-1/2 border-solid border-2");
    assert_eq!(
        mixed.operations,
        vec![
            step(Property::Size, 16),
            StyleOperation::Fraction { property: Property::Height, numerator: 1, denominator: 2 },
            step(Property::Border, 4),
        ]
    );
}

#[test]
fn class_tokens_split_on_unicode_white_space() {
    let resolution = resolve_class("flex\u{a0}block\u{2003}h-4\u{3000}\u{85}w-4");
    assert_eq!(resolution.operations.len(), 4);
    let glued = resolve_class("flex\u{200b}block");
    assert!(glued.operations.is_empty());
}

#[test]
fn white_space_is_what_separates_tokens() {
    let mut code: u32 = 0;
    while code < 0x3200 {
        if let Some(c) = char::from_u32(code) {
            let class = format!("flex{c}block");
            let split = resolve_class(&class).operations.len() == 2;
            assert_eq!(split, c.is_whitespace(), "U+{code:04X}");
        }
        code += 1;
    }
    for c in ['\u{feff}', '\u{e000}', '\u{1f600}', '\u{10ffff}'] {
        assert!(resolve_class(&format!("flex{c}block")).operations.is_empty());
    }
}
