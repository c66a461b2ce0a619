use std::collections::HashSet;
use xml2gpui::resolve::resolve_token;
use xml2gpui::style::{Amount, Property, StyleOperation};

const FLAGS: [&str; 52] = [
    "absolute", "relative", "block", "flex", "visible", "invisible", "overflow-hidden",
    "overflow-x-hidden", "overflow-y-hidden", "cursor-alias", "cursor-col-resize",
    "cursor-context-menu", "cursor-copy", "cursor-crosshair", "cursor-default", "cursor-e-resize",
    "cursor-grab", "cursor-grabbing", "cursor-move", "cursor-n-resize", "cursor-no-drop",
    "cursor-not-allowed", "cursor-pointer", "cursor-row-resize", "cursor-s-resize", "cursor-text",
    "cursor-vertical-text", "cursor-w-resize", "items-center", "items-end", "items-start",
    "justify-around", "justify-between", "justify-center", "justify-end", "justify-start",
    "flex-1", "flex-auto", "flex-col", "flex-col_reverse", "flex-grow", "flex-initial",
    "flex-none", "flex-row", "flex-row_reverse", "flex-shrink", "flex-shrink_0", "shadow-2xl",
    "shadow-lg", "shadow-md", "shadow-sm", "shadow-xl",
];

const STEPS: [&str; 21] = [
    "0", "1", "2", "3", "4", "5", "6", "8", "10", "12", "16", "20", "24", "32", "40", "48", "56",
    "64", "72", "80", "96",
];

const FRACTIONS: [(u8, u8); 13] = [
    (1, 2), (1, 3), (2, 3), (1, 4), (2, 4), (3, 4), (1, 5), (2, 5), (3, 5), (4, 5), (1, 6), (5, 6),
    (1, 12),
];

const SIDES: [&str; 7] = ["", "-t", "-r", "-b", "-l", "-x", "-y"];

const CORNERS: [&str; 9] = ["", "-t", "-r", "-b", "-l", "-tl", "-tr", "-br", "-bl"];

fn table() -> Vec<String> {
    let mut tokens: Vec<String> = FLAGS.iter().map(|flag| flag.to_string()).collect();
    let scaled = ["h", "w", "p", "px", "py", "m", "mx", "my", "mt", "mr", "mb", "ml", "size"];
    for property in scaled {
        for step in STEPS {
            tokens.push(format!("{property}-{step}"));
        }
        for (numerator, denominator) in FRACTIONS {
            tokens.push(format!("{property}-{numerator}/{denominator}"));
        }
    }
    for half in ["0.5", "1.5", "2.5", "3.5"] {
        tokens.push(format!("size-{half}"));
    }
    for property in ["h", "w", "m", "size"] {
        tokens.push(format!("{property}-auto"));
        tokens.push(format!("{property}-full"));
    }
    for property in ["p", "px", "py", "m", "mx", "my", "mt", "mr", "mb", "ml"] {
        tokens.push(format!("{property}-px"));
    }
    for property in ["min-h", "min-w", "max-h", "max-w"] {
        tokens.push(format!("{property}-0"));
        tokens.push(format!("{property}-full"));
    }
    for side in SIDES {
        tokens.push(format!("border{side}"));
        for width in ["0", "2", "4", "8"] {
            tokens.push(format!("border{side}-{width}"));
        }
    }
    tokens.push("border-solid".to_string());
    for corner in CORNERS {
        for radius in ["none", "sm", "md", "lg", "full"] {
            tokens.push(format!("rounded{corner}-{radius}"));
        }
    }
    tokens
}

#[test]
fn the_table_has_its_size() {
    let tokens = table();
    assert_eq!(tokens.len(), 605);
    let distinct: HashSet<&String> = tokens.iter().collect();
    assert_eq!(distinct.len(), 605);
}

#[test]
fn every_token_of_the_table_resolves() {
    for token in table() {
        let resolution = resolve_token(&token);
        assert!(resolution.operation.is_some(), "{token} resolves to nothing");
        assert_eq!(resolution.error, None, "{token} resolves with an error");
    }
}

#[test]
fn no_two_tokens_of_the_table_resolve_alike() {
    let mut seen = HashSet::new();
    for token in table() {
        let operation = resolve_token(&token).operation.unwrap();
        assert!(seen.insert(operation), "{token} resolves like another token");
    }
    assert_eq!(seen.len(), 605);
}

#[test]
fn tokens_of_the_table_resolve_by_their_shape() {
    for token in table() {
        let operation = resolve_token(&token).operation.unwrap();
        match operation {
            StyleOperation::Flag(_) => assert!(FLAGS.contains(&token.as_str())),
            StyleOperation::Scalar { amount: Amount::Length(_), .. } => {
                panic!("{token} is in the table and resolves to a length")
            },
            StyleOperation::Scalar { property, amount: Amount::Default } => {
                assert!(token.starts_with("border"));
                assert!(matches!(
                    property,
                    Property::Border
                        | Property::BorderTop
                        | Property::BorderRight
                        | Property::BorderBottom
                        | Property::BorderLeft
                        | Property::BorderX
                        | Property::BorderY
                ));
            },
            StyleOperation::Scalar { amount: Amount::Step { halves }, .. } => {
                let written = if halves % 2 == 0 {
                    format!("-{}", halves / 2)
                } else {
                    format!("-{}.5", halves / 2)
                };
                assert!(token.ends_with(&written), "{token} is no step of {halves} halves");
            },
            StyleOperation::Scalar { .. } => assert!(token.contains('-') && !token.contains('/')),
            StyleOperation::Fraction { numerator, denominator, .. } => {
                assert!(token.ends_with(&format!("-{numerator}/{denominator}")));
            },
            StyleOperation::Color { .. } => panic!("{token} resolves to a color"),
        }
    }
}

#[test]
fn near_misses_of_the_table_resolve_to_nothing() {
    for token in table() {
        let longer = format!("{token}x");
        if !longer.starts_with("rounded-") {
            assert_eq!(resolve_token(&longer).operation, None, "{longer} resolves");
        }
        let upper = token.to_uppercase();
        if upper != token {
            assert_eq!(resolve_token(&upper).operation, None, "{upper} resolves");
        }
    }
}
