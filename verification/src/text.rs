//! Character-level helpers shared by the resolver and the tree builder.

use vstd::prelude::*;

verus! {

/// The characters of `s`, in order.
pub fn to_chars(s: &str) -> (chars: Vec<char>)
    ensures
        chars@ == s@,
{
    let mut chars: Vec<char> = Vec::new();
    for c in it: s.chars()
        invariant
            chars@ == it.seq().take(it.index()),
            it.seq() == s@,
    {
        chars.push(c);
    }
    chars
}

/// Whether the characters `chars` spell exactly the text `word`.
pub fn spells(chars: &[char], word: &str) -> (same: bool)
    ensures
        same == (chars@ == word@),
{
    let mut matched: usize = 0;
    for c in it: word.chars()
        invariant
            it.seq() == word@,
            matched == it.index(),
            matched <= chars@.len(),
            chars@.take(matched as int) == word@.take(matched as int),
    {
        if matched >= chars.len() || chars[matched] != c {
            return false;
        }
        matched = matched + 1;
    }
    proof {
        assert(word@.take(matched as int) =~= word@);
        if matched == chars@.len() {
            assert(chars@.take(matched as int) =~= chars@);
        }
    }
    matched == chars.len()
}

/// The position of the last `mark` in `chars`, if it holds one.
pub fn last_position(chars: &[char], mark: char) -> (found: Option<usize>)
    ensures
        match found {
            Some(at) => at < chars@.len() && chars@[at as int] == mark && forall|i: int|
                at < i < chars@.len() ==> chars@[i] != mark,
            None => !chars@.contains(mark),
        },
{
    let mut at: usize = chars.len();
    while at > 0
        invariant
            at <= chars@.len(),
            forall|i: int| at <= i < chars@.len() ==> chars@[i] != mark,
        decreases at,
    {
        at = at - 1;
        if chars[at] == mark {
            return Some(at);
        }
    }
    None
}

/// The length of the longest prefix of `s` whose characters all satisfy `holds`.
pub open spec fn prefix_len(s: Seq<char>, holds: spec_fn(char) -> bool) -> nat
    decreases s.len(),
{
    if s.len() > 0 && holds(s[0]) {
        1 + prefix_len(s.drop_first(), holds)
    } else {
        0
    }
}

/// `prefix_len` is the one position up to which every character satisfies
/// `holds` and at which the text ends or a character does not.
pub proof fn prefix_len_is(s: Seq<char>, holds: spec_fn(char) -> bool, n: int)
    requires
        0 <= n <= s.len(),
        forall|i: int| 0 <= i < n ==> holds(s[i]),
        n == s.len() || !holds(s[n]),
    ensures
        prefix_len(s, holds) == n,
    decreases s.len(),
{
    if n > 0 {
        let rest = s.drop_first();
        assert forall|i: int| 0 <= i < n - 1 implies holds(rest[i]) by {
            assert(rest[i] == s[i + 1]);
        }
        prefix_len_is(rest, holds, n - 1);
    }
}

/// A prefix is no longer than the text.
pub proof fn prefix_len_is_bounded(s: Seq<char>, holds: spec_fn(char) -> bool)
    ensures
        prefix_len(s, holds) <= s.len(),
    decreases s.len(),
{
    if s.len() > 0 && holds(s[0]) {
        prefix_len_is_bounded(s.drop_first(), holds);
    }
}

/// Whether `text` ends with `suffix`.
pub open spec fn ends_with(text: Seq<char>, suffix: Seq<char>) -> bool {
    suffix.len() <= text.len() && text.skip(text.len() - suffix.len()) == suffix
}

/// Whether the asset at `path` is a font to load: a file named `.ttf` at its
/// end.
pub fn is_font_file(path: &str) -> (font: bool)
    ensures
        font == ends_with(path@, ".ttf"@),
{
    let chars = to_chars(path);
    proof {
        reveal_strlit(".ttf");
    }
    let length = chars.len();
    if length < 4 {
        return false;
    }
    let end = &chars.as_slice()[length - 4..length];
    proof {
        assert(end@ =~= path@.skip(path@.len() - 4));
    }
    spells(end, ".ttf")
}

} // verus!
