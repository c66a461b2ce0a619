//! The attribute resolver: from an element's attributes to the style
//! operations they request. Class tokens are resolved one by one, left to
//! right; of two operations that write the same slot only the later stays.

use vstd::prelude::*;
use crate::literal::{
    color_of, color_of_literal, fallback_length, length_of, length_of_literal, ResolveError,
};
use crate::precedence::{keep_last, keep_last_of, order_is_immaterial, slots_are_distinct, winner};
use crate::style::{Amount, ColorTarget, Property, Slot, StyleOperation};
use crate::text::{prefix_len, prefix_len_is, prefix_len_is_bounded, spells, to_chars};
use crate::component::{attribute_of, find_attribute};
use crate::vocabulary::{enumerated_named, enumerated_operation};

verus! {

/// What one class token resolves to: an operation, an error, both (an
/// operation that stands in for a literal that could not be read) or neither
/// (an unknown token).
#[derive(Clone, Copy, Debug, PartialEq, Eq, Hash, Structural)]
pub struct TokenResolution {
    pub operation: Option<StyleOperation>,
    pub error: Option<ResolveError>,
}

/// An error of the resolver with the place it came from: the position of the
/// class token among the tokens of its class list, or no position for the
/// `color` attribute.
#[derive(Clone, Copy, Debug, PartialEq, Eq, Hash, Structural)]
pub struct Diagnostic {
    pub token: Option<usize>,
    pub error: ResolveError,
}

/// What an element's attributes resolve to.
#[derive(Debug, PartialEq, Eq)]
pub struct Resolution {
    pub operations: Vec<StyleOperation>,
    pub diagnostics: Vec<Diagnostic>,
}

/// White space as Unicode defines it, which is what separates class tokens.
pub open spec fn is_space(c: char) -> bool {
    ||| '\u{9}' <= c <= '\u{d}'
    ||| c == ' '
    ||| c == '\u{85}'
    ||| c == '\u{a0}'
    ||| c == '\u{1680}'
    ||| '\u{2000}' <= c <= '\u{200a}'
    ||| c == '\u{2028}'
    ||| c == '\u{2029}'
    ||| c == '\u{202f}'
    ||| c == '\u{205f}'
    ||| c == '\u{3000}'
}

/// The tokens of a class list: its maximal runs of characters that are not
/// white space, in order.
pub open spec fn class_tokens(class: Seq<char>) -> Seq<Seq<char>>
    decreases class.len(),
{
    let rest = class.skip(prefix_len(class, |c: char| is_space(c)) as int);
    let run = prefix_len(rest, |c: char| !is_space(c));
    if run == 0 {
        Seq::empty()
    } else {
        proof {
            prefix_len_is_bounded(class, |c: char| is_space(c));
            prefix_len_is_bounded(rest, |c: char| !is_space(c));
        }
        seq![rest.take(run as int)] + class_tokens(rest.skip(run as int))
    }
}

/// Whether `token` begins with `prefix`.
pub open spec fn begins_with(token: Seq<char>, prefix: Seq<char>) -> bool {
    prefix.len() <= token.len() && token.take(prefix.len() as int) == prefix
}

/// The literal that a bracket token carries: what stands between its prefix,
/// which ends in `[`, and the `]` at its end; nothing where the token does
/// not end in `]`.
pub open spec fn bracket_literal(token: Seq<char>, prefix: Seq<char>) -> Option<Seq<char>> {
    if token.len() > prefix.len() && token.last() == ']' {
        Some(token.subrange(prefix.len() as int, token.len() - 1))
    } else {
        None
    }
}

/// What a bracket token for a color resolves to: the color of its literal, or
/// the error and no operation where the bracket is not closed or the literal
/// is no color.
pub open spec fn bracket_resolution(target: ColorTarget, token: Seq<char>, prefix: Seq<char>)
    -> TokenResolution {
    match bracket_literal(token, prefix) {
        Some(literal) => color_resolution(target, literal),
        None => TokenResolution { operation: None, error: Some(ResolveError::InvalidColorLiteral) },
    }
}

/// What a color literal resolves to: its color, or the error and no
/// operation.
pub open spec fn color_resolution(target: ColorTarget, literal: Seq<char>) -> TokenResolution {
    match color_of(literal) {
        Some(rgb) => TokenResolution {
            operation: Some(
                StyleOperation::Color { target, red: rgb.red, green: rgb.green, blue: rgb.blue },
            ),
            error: None,
        },
        None => TokenResolution { operation: None, error: Some(ResolveError::InvalidColorLiteral) },
    }
}

/// The head of the suffix of a `rounded-` token: what stands before its first
/// dash.
pub open spec fn head_of(suffix: Seq<char>) -> Seq<char> {
    suffix.take(prefix_len(suffix, |c: char| c != '-') as int)
}

/// The corners that a direction names: `t`, `r`, `b`, `l`, `tl`, `tr`, `br` or
/// `bl`.
pub open spec fn direction_named(head: Seq<char>) -> Option<Property> {
    if head == "t"@ {
        Some(Property::RoundedTop)
    } else if head == "r"@ {
        Some(Property::RoundedRight)
    } else if head == "b"@ {
        Some(Property::RoundedBottom)
    } else if head == "l"@ {
        Some(Property::RoundedLeft)
    } else if head == "tl"@ {
        Some(Property::RoundedTopLeft)
    } else if head == "tr"@ {
        Some(Property::RoundedTopRight)
    } else if head == "br"@ {
        Some(Property::RoundedBottomRight)
    } else if head == "bl"@ {
        Some(Property::RoundedBottomLeft)
    } else {
        None
    }
}

/// The corners that a `rounded-` token rounds: those that the head of its
/// suffix names, and all corners where the head is no direction.
pub open spec fn rounded_property(suffix: Seq<char>) -> Property {
    match direction_named(head_of(suffix)) {
        Some(property) => property,
        None => Property::Rounded,
    }
}

/// The length literal of a `rounded-` token: what follows the direction and
/// its dash where the suffix begins with a direction, else the whole suffix.
pub open spec fn rounded_literal(suffix: Seq<char>) -> Seq<char> {
    if direction_named(head_of(suffix)) is None {
        suffix
    } else if suffix.len() > head_of(suffix).len() {
        suffix.skip(head_of(suffix).len() as int + 1)
    } else {
        Seq::empty()
    }
}

/// What a `rounded-` token outside the table resolves to: the corners by the
/// direction of its suffix, with the length that its literal writes, or with
/// the length that stands in for it and the error.
pub open spec fn rounded_resolution(suffix: Seq<char>) -> TokenResolution {
    let property = rounded_property(suffix);
    let literal = rounded_literal(suffix);
    match length_of(literal) {
        Some(length) => TokenResolution {
            operation: Some(StyleOperation::Scalar { property, amount: Amount::Length(length) }),
            error: None,
        },
        None => TokenResolution {
            operation: Some(
                StyleOperation::Scalar {
                    property,
                    amount: Amount::Length(fallback_length(literal)),
                },
            ),
            error: Some(ResolveError::InvalidLengthLiteral),
        },
    }
}

/// What a class token resolves to: the operation of the fixed table that it
/// spells; else, by its prefix, a background color, a text color or a
/// rounding with a length; else nothing.
pub open spec fn resolution_of(token: Seq<char>) -> TokenResolution {
    if enumerated_named(token) is Some {
        TokenResolution { operation: enumerated_named(token), error: None }
    } else if begins_with(token, "bg-["@) {
        bracket_resolution(ColorTarget::Background, token, "bg-["@)
    } else if begins_with(token, "text-color-["@) {
        bracket_resolution(ColorTarget::Text, token, "text-color-["@)
    } else if begins_with(token, "rounded-"@) {
        rounded_resolution(token.skip("rounded-"@.len() as int))
    } else {
        TokenResolution { operation: None, error: None }
    }
}

fn is_space_char(c: char) -> (space: bool)
    ensures
        space == is_space(c),
{
    ('\u{9}' <= c && c <= '\u{d}') || c == ' ' || c == '\u{85}' || c == '\u{a0}' || c == '\u{1680}'
        || ('\u{2000}' <= c && c <= '\u{200a}') || c == '\u{2028}' || c == '\u{2029}' || c
        == '\u{202f}' || c == '\u{205f}' || c == '\u{3000}'
}

/// The length of `prefix` if `token` begins with it.
fn strip_prefix(token: &[char], prefix: &str) -> (rest: Option<usize>)
    ensures
        rest is Some == begins_with(token@, prefix@),
        rest is Some ==> rest.unwrap() == prefix@.len(),
{
    let mut matched: usize = 0;
    for c in it: prefix.chars()
        invariant
            it.seq() == prefix@,
            matched == it.index(),
            matched <= token@.len(),
            token@.take(matched as int) == prefix@.take(matched as int),
    {
        if matched >= token.len() || token[matched] != c {
            proof {
                if prefix@.len() <= token@.len() {
                    assert(token@.take(prefix@.len() as int)[matched as int] != prefix@[matched as int]);
                }
            }
            return None;
        }
        proof {
            assert(token@.take(matched + 1) =~= token@.take(matched as int).push(token@[matched as int]));
            assert(prefix@.take(matched + 1) =~= prefix@.take(matched as int).push(prefix@[matched as int]));
        }
        matched = matched + 1;
    }
    proof {
        assert(prefix@.take(matched as int) =~= prefix@);
    }
    Some(matched)
}

fn resolve_color(target: ColorTarget, literal: &[char]) -> (resolution: TokenResolution)
    ensures
        resolution == color_resolution(target, literal@),
{
    match color_of_literal(literal) {
        Ok(rgb) => TokenResolution {
            operation: Some(
                StyleOperation::Color { target, red: rgb.red, green: rgb.green, blue: rgb.blue },
            ),
            error: None,
        },
        Err(error) => TokenResolution { operation: None, error: Some(error) },
    }
}

fn resolve_bracket(target: ColorTarget, token: &[char], prefix: usize) -> (resolution:
    TokenResolution)
    requires
        prefix <= token@.len(),
    ensures
        resolution == match (if token@.len() > prefix && token@.last() == ']' {
            Some(token@.subrange(prefix as int, token@.len() - 1))
        } else {
            None
        }) {
            Some(literal) => color_resolution(target, literal),
            None => TokenResolution {
                operation: None,
                error: Some(ResolveError::InvalidColorLiteral),
            },
        },
{
    let total = token.len();
    if total > prefix && token[total - 1] == ']' {
        resolve_color(target, &token[prefix..total - 1])
    } else {
        TokenResolution { operation: None, error: Some(ResolveError::InvalidColorLiteral) }
    }
}

/// The corners that the suffix of a `rounded-` token names, and where its
/// length literal begins.
fn rounded_corners(suffix: &[char]) -> (found: (Property, usize))
    ensures
        found.0 == rounded_property(suffix@),
        found.1 <= suffix@.len(),
        suffix@.skip(found.1 as int) == rounded_literal(suffix@),
{
    let mut end: usize = 0;
    while end < suffix.len() && suffix[end] != '-'
        invariant
            end <= suffix@.len(),
            forall|i: int| 0 <= i < end ==> suffix@[i] != '-',
        decreases suffix@.len() - end,
    {
        end = end + 1;
    }
    proof {
        prefix_len_is(suffix@, |c: char| c != '-', end as int);
        assert(suffix@.skip(0) =~= suffix@);
        assert(suffix@.skip(suffix@.len() as int) =~= Seq::<char>::empty());
    }
    let head = &suffix[0..end];
    let direction = if spells(head, "t") {
        Some(Property::RoundedTop)
    } else if spells(head, "r") {
        Some(Property::RoundedRight)
    } else if spells(head, "b") {
        Some(Property::RoundedBottom)
    } else if spells(head, "l") {
        Some(Property::RoundedLeft)
    } else if spells(head, "tl") {
        Some(Property::RoundedTopLeft)
    } else if spells(head, "tr") {
        Some(Property::RoundedTopRight)
    } else if spells(head, "br") {
        Some(Property::RoundedBottomRight)
    } else if spells(head, "bl") {
        Some(Property::RoundedBottomLeft)
    } else {
        None
    };
    match direction {
        Some(property) => if end < suffix.len() {
            (property, end + 1)
        } else {
            (property, end)
        },
        None => (Property::Rounded, 0),
    }
}

/// Resolves one class token, given by its characters.
pub fn resolve_token_chars(token: &[char]) -> (resolution: TokenResolution)
    ensures
        resolution == resolution_of(token@),
{
    let enumerated = enumerated_operation(token);
    if enumerated.is_some() {
        return TokenResolution { operation: enumerated, error: None };
    }
    if let Some(prefix) = strip_prefix(token, "bg-[") {
        return resolve_bracket(ColorTarget::Background, token, prefix);
    }
    if let Some(prefix) = strip_prefix(token, "text-color-[") {
        return resolve_bracket(ColorTarget::Text, token, prefix);
    }
    if let Some(prefix) = strip_prefix(token, "rounded-") {
        let suffix = &token[prefix..token.len()];
        let (property, from) = rounded_corners(suffix);
        return match length_of_literal(&suffix[from..suffix.len()]) {
            Ok(length) => TokenResolution {
                operation: Some(StyleOperation::Scalar { property, amount: Amount::Length(length) }),
                error: None,
            },
            Err(length) => TokenResolution {
                operation: Some(StyleOperation::Scalar { property, amount: Amount::Length(length) }),
                error: Some(ResolveError::InvalidLengthLiteral),
            },
        };
    }
    TokenResolution { operation: None, error: None }
}

/// Resolves one class token.
pub fn resolve_token(token: &str) -> (resolution: TokenResolution)
    ensures
        resolution == resolution_of(token@),
{
    let chars = to_chars(token);
    resolve_token_chars(chars.as_slice())
}

/// The operations that a list of class tokens requests, in the order of the
/// tokens.
pub open spec fn token_operations(tokens: Seq<Seq<char>>) -> Seq<StyleOperation>
    decreases tokens.len(),
{
    if tokens.len() == 0 {
        Seq::empty()
    } else {
        let before = token_operations(tokens.drop_last());
        match resolution_of(tokens.last()).operation {
            Some(operation) => before.push(operation),
            None => before,
        }
    }
}

/// The errors of a list of class tokens, each with the position of its token.
pub open spec fn token_diagnostics(tokens: Seq<Seq<char>>) -> Seq<Diagnostic>
    decreases tokens.len(),
{
    if tokens.len() == 0 {
        Seq::empty()
    } else {
        let before = token_diagnostics(tokens.drop_last());
        match resolution_of(tokens.last()).error {
            Some(error) => before.push(
                Diagnostic { token: Some((tokens.len() - 1) as usize), error },
            ),
            None => before,
        }
    }
}

/// The class tokens of an element: those of its `class` attribute.
pub open spec fn tokens_of(attributes: Seq<(Seq<char>, Seq<char>)>) -> Seq<Seq<char>> {
    match attribute_of(attributes, "class"@) {
        Some(class) => class_tokens(class),
        None => Seq::empty(),
    }
}

/// What the `color` attribute of an element resolves to.
pub open spec fn direct_resolution(attributes: Seq<(Seq<char>, Seq<char>)>) -> TokenResolution {
    match attribute_of(attributes, "color"@) {
        Some(literal) => color_resolution(ColorTarget::Attribute, literal),
        None => TokenResolution { operation: None, error: None },
    }
}

/// Every operation that an element's attributes request: that of the `color`
/// attribute, then those of the class tokens from left to right.
pub open spec fn requested(attributes: Seq<(Seq<char>, Seq<char>)>) -> Seq<StyleOperation> {
    let direct = match direct_resolution(attributes).operation {
        Some(operation) => seq![operation],
        None => Seq::empty(),
    };
    direct + token_operations(tokens_of(attributes))
}

/// Every error of an element's attributes: that of the `color` attribute, then
/// those of the class tokens from left to right.
pub open spec fn diagnostics_of(attributes: Seq<(Seq<char>, Seq<char>)>) -> Seq<Diagnostic> {
    let direct = match direct_resolution(attributes).error {
        Some(error) => seq![Diagnostic { token: None, error }],
        None => Seq::empty(),
    };
    direct + token_diagnostics(tokens_of(attributes))
}

/// Where the next class token at or after `from` begins and ends.
fn next_token(class: &[char], from: usize) -> (found: Option<(usize, usize)>)
    requires
        from <= class@.len(),
    ensures
        match found {
            Some((start, end)) => {
                &&& from <= start < end <= class@.len()
                &&& class_tokens(class@.skip(from as int)) == seq![
                    class@.subrange(start as int, end as int),
                ] + class_tokens(class@.skip(end as int))
            },
            None => class_tokens(class@.skip(from as int)) == Seq::<Seq<char>>::empty(),
        },
{
    let ghost tail = class@.skip(from as int);
    let mut start = from;
    while start < class.len() && is_space_char(class[start])
        invariant
            from <= start <= class@.len(),
            forall|i: int| from <= i < start ==> is_space(class@[i]),
        decreases class@.len() - start,
    {
        start = start + 1;
    }
    let mut end = start;
    while end < class.len() && !is_space_char(class[end])
        invariant
            start <= end <= class@.len(),
            forall|i: int| start <= i < end ==> !is_space(class@[i]),
        decreases class@.len() - end,
    {
        end = end + 1;
    }
    proof {
        assert forall|i: int| 0 <= i < start - from implies is_space(tail[i]) by {
            assert(tail[i] == class@[from + i]);
        }
        prefix_len_is(tail, |c: char| is_space(c), start - from);
        let rest = tail.skip(start - from);
        assert(rest =~= class@.skip(start as int));
        assert forall|i: int| 0 <= i < end - start implies !is_space(rest[i]) by {
            assert(rest[i] == class@[start + i]);
        }
        prefix_len_is(rest, |c: char| !is_space(c), end - start);
        assert(rest.take(end - start) =~= class@.subrange(start as int, end as int));
        assert(rest.skip(end - start) =~= class@.skip(end as int));
    }
    if end > start {
        Some((start, end))
    } else {
        None
    }
}

/// Resolves the class list `class`: the operations that its tokens request,
/// with those dropped that a later one overrides, and the errors of its tokens.
pub fn resolve_class(class: &str) -> (resolution: Resolution)
    ensures
        resolution.operations@ == keep_last(token_operations(class_tokens(class@))),
        resolution.diagnostics@ == token_diagnostics(class_tokens(class@)),
{
    let chars = to_chars(class);
    let mut operations: Vec<StyleOperation> = Vec::new();
    let mut diagnostics: Vec<Diagnostic> = Vec::new();
    resolve_tokens(chars.as_slice(), &mut operations, &mut diagnostics);
    proof {
        assert(Seq::<StyleOperation>::empty() + token_operations(class_tokens(class@))
            =~= token_operations(class_tokens(class@)));
        assert(Seq::<Diagnostic>::empty() + token_diagnostics(class_tokens(class@))
            =~= token_diagnostics(class_tokens(class@)));
    }
    Resolution { operations: keep_last_of(&operations), diagnostics }
}

/// Appends what the tokens of `class` resolve to.
fn resolve_tokens(
    class: &[char],
    operations: &mut Vec<StyleOperation>,
    diagnostics: &mut Vec<Diagnostic>,
)
    ensures
        final(operations)@ == old(operations)@ + token_operations(class_tokens(class@)),
        final(diagnostics)@ == old(diagnostics)@ + token_diagnostics(class_tokens(class@)),
{
    let ghost all = class_tokens(class@);
    let ghost mut done: Seq<Seq<char>> = Seq::empty();
    let mut from: usize = 0;
    let mut count: usize = 0;
    proof {
        assert(class@.skip(0) =~= class@);
        assert(done + all =~= all);
        assert(old(operations)@ + token_operations(done) =~= old(operations)@);
        assert(old(diagnostics)@ + token_diagnostics(done) =~= old(diagnostics)@);
    }
    loop
        invariant
            from <= class@.len(),
            count == done.len(),
            count <= from,
            all == class_tokens(class@),
            all == done + class_tokens(class@.skip(from as int)),
            operations@ == old(operations)@ + token_operations(done),
            diagnostics@ == old(diagnostics)@ + token_diagnostics(done),
        ensures
            done == all,
            operations@ == old(operations)@ + token_operations(done),
            diagnostics@ == old(diagnostics)@ + token_diagnostics(done),
        decreases class@.len() - from,
    {
        match next_token(class, from) {
            None => {
                proof {
                    assert(done + Seq::<Seq<char>>::empty() =~= done);
                }
                break ;
            },
            Some((start, end)) => {
                let resolution = resolve_token_chars(&class[start..end]);
                let ghost token = class@.subrange(start as int, end as int);
                proof {
                    assert(done.push(token).drop_last() =~= done);
                    assert(done.push(token) + class_tokens(class@.skip(end as int)) =~= done + (
                    seq![token] + class_tokens(class@.skip(end as int))));
                }
                if let Some(operation) = resolution.operation {
                    operations.push(operation);
                }
                if let Some(error) = resolution.error {
                    diagnostics.push(Diagnostic { token: Some(count), error });
                }
                proof {
                    done = done.push(token);
                    assert(operations@ =~= old(operations)@ + token_operations(done));
                    assert(diagnostics@ =~= old(diagnostics)@ + token_diagnostics(done));
                }
                count = count + 1;
                from = end;
            },
        }
    }
}

/// Resolves an element's attributes into the style operations that take
/// effect and the errors met on the way. The `color` attribute and each token
/// of the `class` attribute request at most one operation each; of two that
/// write the same slot the later one stays. A token that cannot be read never
/// affects what the others resolve to.
pub fn set_attributes(attributes: &Vec<(String, String)>) -> (resolution: Resolution)
    ensures
        resolution.operations@ == keep_last(requested(attributes.deep_view())),
        resolution.diagnostics@ == diagnostics_of(attributes.deep_view()),
{
    let mut operations: Vec<StyleOperation> = Vec::new();
    let mut diagnostics: Vec<Diagnostic> = Vec::new();
    if let Some(literal) = find_attribute(attributes, "color") {
        let chars = to_chars(literal.as_str());
        let direct = resolve_color(ColorTarget::Attribute, chars.as_slice());
        if let Some(operation) = direct.operation {
            operations.push(operation);
        }
        if let Some(error) = direct.error {
            diagnostics.push(Diagnostic { token: None, error });
        }
    }
    proof {
        let direct = direct_resolution(attributes.deep_view());
        assert(operations@ =~= match direct.operation {
            Some(operation) => seq![operation],
            None => Seq::empty(),
        });
        assert(diagnostics@ =~= match direct.error {
            Some(error) => seq![Diagnostic { token: None, error }],
            None => Seq::empty(),
        });
    }
    match find_attribute(attributes, "class") {
        Some(class) => {
            let chars = to_chars(class.as_str());
            resolve_tokens(chars.as_slice(), &mut operations, &mut diagnostics);
        },
        None => {
            proof {
                assert(operations@ + Seq::<StyleOperation>::empty() =~= operations@);
                assert(diagnostics@ + Seq::<Diagnostic>::empty() =~= diagnostics@);
            }
        },
    }
    Resolution { operations: keep_last_of(&operations), diagnostics }
}

/// The operations of a list of tokens are those of its first part followed by
/// those of its second part.
pub proof fn token_operations_concatenate(first: Seq<Seq<char>>, second: Seq<Seq<char>>)
    ensures
        token_operations(first + second) == token_operations(first) + token_operations(second),
    decreases second.len(),
{
    if second.len() == 0 {
        assert(first + second =~= first);
        assert(token_operations(first) + token_operations(second) =~= token_operations(first));
    } else {
        token_operations_concatenate(first, second.drop_last());
        assert((first + second).drop_last() =~= first + second.drop_last());
        assert((first + second).last() == second.last());
        match resolution_of(second.last()).operation {
            Some(operation) => {
                assert((token_operations(first) + token_operations(second.drop_last())).push(
                    operation,
                ) =~= token_operations(first) + token_operations(second.drop_last()).push(
                    operation,
                ));
            },
            None => {},
        }
    }
}

/// A token that resolves to no operation, be it unknown or a color that
/// cannot be read, leaves the operations of the other tokens as they are.
pub proof fn unresolved_token_changes_nothing(
    before: Seq<Seq<char>>,
    token: Seq<char>,
    after: Seq<Seq<char>>,
)
    requires
        resolution_of(token).operation is None,
    ensures
        token_operations(before + seq![token] + after) == token_operations(before + after),
{
    token_operations_concatenate(before + seq![token], after);
    token_operations_concatenate(before, seq![token]);
    token_operations_concatenate(before, after);
    assert(seq![token].drop_last() =~= Seq::<Seq<char>>::empty());
    assert(seq![token].last() == token);
    assert(token_operations(seq![token].drop_last()) =~= Seq::<StyleOperation>::empty());
    assert(token_operations(seq![token]) =~= Seq::<StyleOperation>::empty());
    assert(token_operations(before) + Seq::<StyleOperation>::empty() =~= token_operations(before));
}

/// Rearranged tokens request rearranged operations.
proof fn rearranged_tokens_request_alike(first: Seq<Seq<char>>, second: Seq<Seq<char>>)
    requires
        first.to_multiset() == second.to_multiset(),
    ensures
        token_operations(first).to_multiset() == token_operations(second).to_multiset(),
    decreases first.len(),
{
    broadcast use vstd::seq_lib::group_to_multiset_ensures;

    vstd::seq_lib::to_multiset_len(first);
    vstd::seq_lib::to_multiset_len(second);
    if first.len() == 0 {
        assert(second =~= first);
    } else {
        let last = first.last();
        let front = first.drop_last();
        assert(first.contains(last)) by {
            assert(first[first.len() - 1] == last);
        }
        vstd::seq_lib::to_multiset_contains(first, last);
        vstd::seq_lib::to_multiset_contains(second, last);
        let at = choose|at: int| 0 <= at < second.len() && second[at] == last;
        let rest = second.remove(at);
        assert(front =~= first.remove(first.len() - 1));
        vstd::seq_lib::to_multiset_remove(first, first.len() - 1);
        vstd::seq_lib::to_multiset_remove(second, at);
        rearranged_tokens_request_alike(front, rest);
        let head = second.take(at);
        let tail = second.skip(at + 1);
        assert(second =~= head + seq![last] + tail);
        assert(rest =~= head + tail);
        assert(first =~= front + seq![last]);
        token_operations_concatenate(front, seq![last]);
        token_operations_concatenate(head + seq![last], tail);
        token_operations_concatenate(head, seq![last]);
        token_operations_concatenate(head, tail);
        let one = token_operations(seq![last]);
        vstd::seq_lib::lemma_multiset_commutative(token_operations(front), one);
        vstd::seq_lib::lemma_multiset_commutative(token_operations(head), one);
        vstd::seq_lib::lemma_multiset_commutative(token_operations(head) + one, token_operations(tail));
        vstd::seq_lib::lemma_multiset_commutative(token_operations(head), token_operations(tail));
        assert(token_operations(first).to_multiset() =~= token_operations(second).to_multiset());
    }
}

/// Class tokens that request operations in distinct slots may stand in any
/// order: however they are rearranged, every requested operation takes effect
/// and each slot has the same winner.
pub proof fn class_order_is_immaterial(first: Seq<Seq<char>>, second: Seq<Seq<char>>)
    requires
        first.to_multiset() == second.to_multiset(),
        slots_are_distinct(token_operations(first)),
    ensures
        keep_last(token_operations(first)) == token_operations(first),
        keep_last(token_operations(second)) == token_operations(second),
        token_operations(first).to_multiset() == token_operations(second).to_multiset(),
        forall|slot: Slot|
            winner(keep_last(token_operations(first)), slot) == winner(
                keep_last(token_operations(second)),
                slot,
            ),
{
    rearranged_tokens_request_alike(first, second);
    order_is_immaterial(token_operations(first), token_operations(second));
}

} // verus!
