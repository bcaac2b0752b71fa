//! Inference of the font family from the first font block of a rich text.
//!
//! A font block reads `\fFamily|b0|i0|c0|p34;`: the family name is what
//! stands before the first `|`.

use vstd::prelude::*;
use crate::chars::{chars_of, text_of, is_white_space};
use crate::mtext::{block_end, find_block_end, is_brace};

verus! {

/// What is stripped from both ends of a font family name.
#[derive(Clone, Copy, Debug, PartialEq, Eq, Structural)]
pub enum Margin {
    /// Characters with the Unicode `White_Space` property.
    WhiteSpace,
    /// The braces `{` and `}`.
    Braces,
}

impl Margin {
    /// Whether `c` belongs to this kind of margin.
    pub open spec fn holds(self, c: char) -> bool {
        match self {
            Margin::WhiteSpace => is_white_space(c),
            Margin::Braces => is_brace(c),
        }
    }

    /// Tells whether `c` belongs to this kind of margin.
    pub fn contains(self, c: char) -> (b: bool)
        ensures
            b == self.holds(c),
    {
        match self {
            Margin::WhiteSpace => c.is_whitespace(),
            Margin::Braces => c == '{' || c == '}',
        }
    }
}

/// The position of the first `\f` at or after `from` that has at least one
/// character behind it, or `s.len()` if there is none.
pub open spec fn font_code_from(s: Seq<char>, from: int) -> int
    decreases s.len() - from,
{
    if from < 0 || from + 2 >= s.len() {
        s.len() as int
    } else if s[from] == '\\' && s[from + 1] == 'f' {
        from
    } else {
        font_code_from(s, from + 1)
    }
}

/// The position of the first `|` in `block` at or after `from`, or
/// `block.len()` if there is none: the end of the first field.
pub open spec fn field_end(block: Seq<char>, from: int) -> int
    decreases block.len() - from,
{
    if from < 0 || from >= block.len() {
        block.len() as int
    } else if block[from] == '|' {
        from
    } else {
        field_end(block, from + 1)
    }
}

/// The position of the first character of `s` at or after `from` that is
/// not margin, or `s.len()` if all are.
pub open spec fn margin_start(s: Seq<char>, what: Margin, from: int) -> int
    decreases s.len() - from,
{
    if from < 0 || from >= s.len() {
        s.len() as int
    } else if !what.holds(s[from]) {
        from
    } else {
        margin_start(s, what, from + 1)
    }
}

/// The position behind the last character of `s` before `to` that is not
/// margin, or 0 if all are.
pub open spec fn margin_end(s: Seq<char>, what: Margin, to: int) -> int
    decreases to,
{
    if to <= 0 || to > s.len() {
        0
    } else if !what.holds(s[to - 1]) {
        to
    } else {
        margin_end(s, what, to - 1)
    }
}

/// `s` without the margin at both of its ends.
pub open spec fn stripped(s: Seq<char>, what: Margin) -> Seq<char> {
    let start = margin_start(s, what, 0);
    let end = margin_end(s, what, s.len() as int);
    if start < end {
        s.subrange(start, end)
    } else {
        Seq::empty()
    }
}

/// The family name that a font block with the content `block` gives: its
/// first field, without white space around it and then without braces
/// around that.
pub open spec fn family_of_block(block: Seq<char>) -> Seq<char> {
    stripped(stripped(block.subrange(0, field_end(block, 0)), Margin::WhiteSpace), Margin::Braces)
}

/// The font family that the rich text `s` names, if any: the family of its
/// first font block, unless that is empty. Later font blocks are not
/// looked at.
pub open spec fn font_family(s: Seq<char>) -> Option<Seq<char>> {
    let at = font_code_from(s, 0);
    if at >= s.len() {
        None
    } else {
        let family = family_of_block(s.subrange(at + 2, block_end(s, at + 2)));
        if family.len() == 0 {
            None
        } else {
            Some(family)
        }
    }
}

/// The margins lie inside the text.
proof fn lemma_margin_bounds(s: Seq<char>, what: Margin, from: int, to: int)
    requires
        0 <= from <= s.len(),
        0 <= to <= s.len(),
    ensures
        from <= margin_start(s, what, from) <= s.len(),
        0 <= margin_end(s, what, to) <= to,
    decreases s.len() - from, to,
{
    if from < s.len() && what.holds(s[from]) {
        lemma_margin_bounds(s, what, from + 1, 0);
    }
    if to > 0 && what.holds(s[to - 1]) {
        lemma_margin_bounds(s, what, s.len() as int, to - 1);
    }
}

/// Finds the first font code of `s`.
fn find_font_code(s: &Vec<char>) -> (at: usize)
    ensures
        at == font_code_from(s@, 0),
        at <= s.len(),
        at < s.len() ==> at + 2 < s.len(),
{
    if s.len() < 3 {
        return s.len();
    }
    let last: usize = s.len() - 2;
    let mut i: usize = 0;
    while i < last && !(s[i] == '\\' && s[i + 1] == 'f')
        invariant
            i <= last,
            last + 2 == s.len(),
            font_code_from(s@, i as int) == font_code_from(s@, 0),
        decreases last - i,
    {
        i += 1;
    }
    if i < last {
        i
    } else {
        s.len()
    }
}

/// Finds the end of the first field of the window `s[from..to]`.
fn find_field_end(s: &Vec<char>, from: usize, to: usize) -> (end: usize)
    requires
        from <= to <= s.len(),
    ensures
        from <= end <= to,
        end - from == field_end(s@.subrange(from as int, to as int), 0),
{
    let ghost block = s@.subrange(from as int, to as int);
    let mut j: usize = from;
    while j < to && s[j] != '|'
        invariant
            from <= j <= to <= s.len(),
            block == s@.subrange(from as int, to as int),
            field_end(block, j - from) == field_end(block, 0),
        decreases to - j,
    {
        assert(block[j - from] == s@[j as int]);
        j += 1;
    }
    assert(j < to ==> block[j - from] == s@[j as int]);
    j
}

/// Strips the margin from both ends of the window `s[from..to]` and
/// returns the window that is left; an empty one has `start == end`.
fn strip_window(s: &Vec<char>, what: Margin, from: usize, to: usize) -> (window: (usize, usize))
    requires
        from <= to <= s.len(),
    ensures
        from <= window.0 <= window.1 <= to,
        s@.subrange(window.0 as int, window.1 as int) == stripped(
            s@.subrange(from as int, to as int),
            what,
        ),
{
    let ghost w = s@.subrange(from as int, to as int);
    let mut a: usize = from;
    while a < to && what.contains(s[a])
        invariant
            from <= a <= to <= s.len(),
            w == s@.subrange(from as int, to as int),
            margin_start(w, what, a - from) == margin_start(w, what, 0),
        decreases to - a,
    {
        assert(w[a - from] == s@[a as int]);
        a += 1;
    }
    assert(a < to ==> w[a - from] == s@[a as int]);
    assert(a - from == margin_start(w, what, 0));
    let mut b: usize = to;
    while b > a && what.contains(s[b - 1])
        invariant
            from <= a <= b <= to <= s.len(),
            w == s@.subrange(from as int, to as int),
            margin_end(w, what, b - from) == margin_end(w, what, w.len() as int),
        decreases b,
    {
        assert(w[b - 1 - from] == s@[b - 1]);
        b -= 1;
    }
    proof {
        let end = margin_end(w, what, w.len() as int);
        if b > a {
            assert(w[b - 1 - from] == s@[b - 1]);
            assert(end == b - from);
            assert(s@.subrange(a as int, b as int) == w.subrange(a - from, b - from));
        } else {
            lemma_margin_bounds(w, what, 0, b - from);
            assert(end <= a - from);
            assert(s@.subrange(a as int, b as int) == Seq::<char>::empty());
        }
    }
    (a, b)
}

/// Infers the font family that a rich text names.
///
/// Returns the family name of the first font block `\f…;` of `input`: what
/// stands before its first `|`, without white space and then braces around
/// it. Returns `None` where `input` holds no font block with a character
/// behind `\f`, and where that name is empty.
pub fn extract_mtext_font(input: &str) -> (family: Option<String>)
    ensures
        match family {
            Some(name) => font_family(input@) == Some(name@),
            None => font_family(input@) is None,
        },
{
    let s = chars_of(input);
    let at = find_font_code(&s);
    if at >= s.len() {
        return None;
    }
    let start = at + 2;
    let end = find_block_end(&s, start);
    let bar = find_field_end(&s, start, end);
    let ghost block = s@.subrange(start as int, end as int);
    assert(s@.subrange(start as int, bar as int) == block.subrange(0, field_end(block, 0)));
    let (a, b) = strip_window(&s, Margin::WhiteSpace, start, bar);
    let (c, d) = strip_window(&s, Margin::Braces, a, b);
    assert(s@.subrange(c as int, d as int) == family_of_block(block));
    if c == d {
        None
    } else {
        Some(text_of(&s, c, d))
    }
}

} // verus!
