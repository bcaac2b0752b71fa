//! Rich-text annotations: stripping of inline formatting codes.
//!
//! A rich text is a sequence of characters in which a backslash introduces
//! a code. Everything here is stated over `Seq<char>`, the view of a string.

use vstd::prelude::*;
use crate::chars::chars_of;

verus! {

/// A grouping brace. Braces only scope formatting and never reach the output.
pub open spec fn is_brace(c: char) -> bool {
    c == '{' || c == '}'
}

/// The letters that open a control block which is dropped as a whole:
/// font, height and width.
pub open spec fn opens_dropped_block(c: char) -> bool {
    c == 'f' || c == 'H' || c == 'W'
}

/// The characters that, right after a backslash, form a code with it.
pub open spec fn is_code_letter(c: char) -> bool {
    c == 'P' || c == '~' || c == '\\' || opens_dropped_block(c) || c == 'S'
}

/// The separator between the two parts of a stacked block.
pub open spec fn is_stack_separator(c: char) -> bool {
    c == '^' || c == '#'
}

/// The position of the first `;` at or after `from`, or `s.len()` if there
/// is none: the end of the content of a block that starts at `from`.
pub open spec fn block_end(s: Seq<char>, from: int) -> int
    decreases s.len() - from,
{
    if from < 0 || from >= s.len() {
        s.len() as int
    } else if s[from] == ';' {
        from
    } else {
        block_end(s, from + 1)
    }
}

/// Where scanning goes on after a block whose content starts at `from`:
/// behind the terminating `;`, or at the end of the text if the block is
/// not terminated.
pub open spec fn after_block(s: Seq<char>, from: int) -> int {
    let end = block_end(s, from);
    if end < s.len() {
        end + 1
    } else {
        end
    }
}

/// The position of the first `^` or `#` in `content` at or after `from`, or
/// `content.len()` if there is none.
pub open spec fn stack_separator_from(content: Seq<char>, from: int) -> int
    decreases content.len() - from,
{
    if from < 0 || from >= content.len() {
        content.len() as int
    } else if is_stack_separator(content[from]) {
        from
    } else {
        stack_separator_from(content, from + 1)
    }
}

/// The plain form of the content of a stacked block: the first `^` or `#`
/// becomes `/`, so that `1^2` reads `1/2`; without a separator the content
/// stays as it is.
pub open spec fn stacked_plain(content: Seq<char>) -> Seq<char> {
    let at = stack_separator_from(content, 0);
    if at < content.len() {
        content.update(at, '/')
    } else {
        content
    }
}

/// The plain text that the rich text `s` yields from position `i` on.
pub open spec fn plain_from(s: Seq<char>, i: int) -> Seq<char>
    decreases s.len() - i,
{
    if i < 0 || i >= s.len() {
        Seq::empty()
    } else if is_brace(s[i]) {
        plain_from(s, i + 1)
    } else if s[i] != '\\' {
        seq![s[i]] + plain_from(s, i + 1)
    } else if i + 1 >= s.len() {
        seq!['\\']
    } else if s[i + 1] == 'P' {
        seq!['\n'] + plain_from(s, i + 2)
    } else if s[i + 1] == '~' {
        seq![' '] + plain_from(s, i + 2)
    } else if s[i + 1] == '\\' {
        seq!['\\'] + plain_from(s, i + 2)
    } else if opens_dropped_block(s[i + 1]) {
        proof {
            lemma_block_end_bounds(s, i + 2);
        }
        plain_from(s, after_block(s, i + 2))
    } else if s[i + 1] == 'S' {
        proof {
            lemma_block_end_bounds(s, i + 2);
        }
        stacked_plain(s.subrange(i + 2, block_end(s, i + 2))) + plain_from(
            s,
            after_block(s, i + 2),
        )
    } else {
        seq!['\\'] + plain_from(s, i + 1)
    }
}

/// The plain text of a rich text.
pub open spec fn plain_text(s: Seq<char>) -> Seq<char> {
    plain_from(s, 0)
}

/// A block never ends before it starts, nor behind the text.
pub proof fn lemma_block_end_bounds(s: Seq<char>, from: int)
    requires
        0 <= from <= s.len(),
    ensures
        from <= block_end(s, from) <= s.len(),
        from <= after_block(s, from) <= s.len(),
        block_end(s, from) < s.len() ==> s[block_end(s, from)] == ';',
        forall|k: int| from <= k < block_end(s, from) ==> s[k] != ';',
    decreases s.len() - from,
{
    if from < s.len() && s[from] != ';' {
        lemma_block_end_bounds(s, from + 1);
    }
}

/// The first separator lies inside the content or at its end, and nothing
/// before it is a separator.
pub proof fn lemma_stack_separator_bounds(content: Seq<char>, from: int)
    requires
        0 <= from <= content.len(),
    ensures
        from <= stack_separator_from(content, from) <= content.len(),
        stack_separator_from(content, from) < content.len() ==> is_stack_separator(
            content[stack_separator_from(content, from)],
        ),
        forall|k: int|
            from <= k < stack_separator_from(content, from) ==> !is_stack_separator(
                #[trigger] content[k],
            ),
    decreases content.len() - from,
{
    if from < content.len() && !is_stack_separator(content[from]) {
        lemma_stack_separator_bounds(content, from + 1);
    }
}

/// Whether position `i` of `s` is free of formatting: no brace stands
/// there, and no backslash that forms a code with the character behind it.
pub open spec fn plain_at(s: Seq<char>, i: int) -> bool {
    &&& !is_brace(s[i])
    &&& s[i] == '\\' && i + 1 < s.len() ==> !is_code_letter(s[i + 1])
}

/// A text without formatting: plain at every position.
pub open spec fn is_plain(s: Seq<char>) -> bool {
    forall|i: int| 0 <= i < s.len() ==> #[trigger] plain_at(s, i)
}

/// The plain form of stacked content is as long as the content.
pub proof fn lemma_stacked_plain_len(content: Seq<char>)
    ensures
        stacked_plain(content).len() == content.len(),
{
    lemma_stack_separator_bounds(content, 0);
}

/// From a position on which `s` is plain throughout, the text comes out
/// as it stands.
pub proof fn lemma_plain_from_keeps(s: Seq<char>, i: int)
    requires
        0 <= i <= s.len(),
        forall|k: int| i <= k < s.len() ==> #[trigger] plain_at(s, k),
    ensures
        plain_from(s, i) == s.subrange(i, s.len() as int),
    decreases s.len() - i,
{
    if i < s.len() {
        assert(plain_at(s, i));
        lemma_plain_from_keeps(s, i + 1);
        assert(s.subrange(i, s.len() as int) == seq![s[i]] + s.subrange(
            i + 1,
            s.len() as int,
        ));
    }
}

/// Stripping never lengthens a text, and it keeps the length only where
/// the text is plain.
pub proof fn lemma_plain_from_len(s: Seq<char>, i: int)
    requires
        0 <= i <= s.len(),
    ensures
        plain_from(s, i).len() <= s.len() - i,
        plain_from(s, i).len() == s.len() - i ==> forall|k: int|
            i <= k < s.len() ==> #[trigger] plain_at(s, k),
    decreases s.len() - i,
{
    if i < s.len() {
        if is_brace(s[i]) || s[i] != '\\' || i + 1 >= s.len() {
            lemma_plain_from_len(s, i + 1);
        } else if s[i + 1] == 'P' || s[i + 1] == '~' || s[i + 1] == '\\' {
            lemma_plain_from_len(s, i + 2);
        } else if opens_dropped_block(s[i + 1]) {
            lemma_block_end_bounds(s, i + 2);
            lemma_plain_from_len(s, after_block(s, i + 2));
        } else if s[i + 1] == 'S' {
            lemma_block_end_bounds(s, i + 2);
            lemma_stacked_plain_len(s.subrange(i + 2, block_end(s, i + 2)));
            lemma_plain_from_len(s, after_block(s, i + 2));
        } else {
            lemma_plain_from_len(s, i + 1);
        }
    }
}

/// The texts that normalizing leaves unchanged are exactly the plain ones.
pub proof fn lemma_unchanged_iff_plain(s: Seq<char>)
    ensures
        plain_text(s) == s <==> is_plain(s),
{
    if is_plain(s) {
        lemma_plain_from_keeps(s, 0);
        assert(s.subrange(0, s.len() as int) == s);
    }
    if plain_text(s) == s {
        lemma_plain_from_len(s, 0);
    }
}

/// Normalizing is idempotent on every text whose plain text holds no
/// formatting of its own: normalizing that plain text once more returns it
/// unchanged.
pub proof fn lemma_normalize_idempotent(s: Seq<char>)
    requires
        is_plain(plain_text(s)),
    ensures
        plain_text(plain_text(s)) == plain_text(s),
{
    lemma_unchanged_iff_plain(plain_text(s));
}

/// Finds the end of the block content that starts at `from`.
pub(crate) fn find_block_end(s: &Vec<char>, from: usize) -> (end: usize)
    requires
        from <= s.len(),
    ensures
        end == block_end(s@, from as int),
        from <= end <= s.len(),
{
    let mut j: usize = from;
    while j < s.len() && s[j] != ';'
        invariant
            from <= j <= s.len(),
            block_end(s@, j as int) == block_end(s@, from as int),
        decreases s.len() - j,
    {
        j += 1;
    }
    proof {
        lemma_block_end_bounds(s@, from as int);
    }
    j
}

/// Appends the plain form of the stacked content `s[from..to]` to `out`.
fn push_stacked(out: &mut String, s: &Vec<char>, from: usize, to: usize)
    requires
        from <= to <= s.len(),
    ensures
        final(out)@ == old(out)@ + stacked_plain(s@.subrange(from as int, to as int)),
{
    let ghost content = s@.subrange(from as int, to as int);
    let ghost at = stack_separator_from(content, 0);
    proof {
        lemma_stack_separator_bounds(content, 0);
    }
    let mut j: usize = from;
    let mut replaced = false;
    while j < to
        invariant
            from <= j <= to <= s.len(),
            content == s@.subrange(from as int, to as int),
            at == stack_separator_from(content, 0),
            0 <= at <= content.len(),
            at < content.len() ==> is_stack_separator(content[at]),
            forall|k: int| 0 <= k < at ==> !is_stack_separator(#[trigger] content[k]),
            replaced <==> at < j - from,
            out@ == old(out)@ + stacked_plain(content).take(j - from),
        decreases to - j,
    {
        let c = s[j];
        assert(c == content[j - from]);
        let ghost before = out@;
        if !replaced && (c == '^' || c == '#') {
            out.push('/');
            replaced = true;
            assert(at == j - from);
        } else {
            out.push(c);
            assert(at != j - from);
        }
        assert(stacked_plain(content).take(j - from + 1) == stacked_plain(content).take(
            j - from,
        ).push(stacked_plain(content)[j - from]));
        j += 1;
    }
    assert(stacked_plain(content).take(to - from) == stacked_plain(content));
}

/// Strips the inline formatting codes of a rich text and returns its plain
/// text.
///
/// Braces are dropped; `\P` becomes a newline, `\~` a space, `\\` a
/// backslash; a block `\f…;`, `\H…;` or `\W…;` is dropped; a stacked block
/// `\S…;` leaves its content, with the first `^` or `#` turned into `/`; a
/// backslash before anything else stays a backslash. No input is rejected.
pub fn normalize_mtext(input: &str) -> (out: String)
    ensures
        out@ == plain_text(input@),
{
    let s = chars_of(input);
    let mut out = String::new();
    let mut i: usize = 0;
    while i < s.len()
        invariant
            i <= s.len(),
            s@ == input@,
            out@ + plain_from(s@, i as int) == plain_text(s@),
        decreases s.len() - i,
    {
        let c = s[i];
        let ghost before = out@;
        let ghost rest = plain_from(s@, i as int);
        if c == '{' || c == '}' {
            i += 1;
        } else if c != '\\' {
            out.push(c);
            assert(out@ + plain_from(s@, i + 1) == before + rest);
            i += 1;
        } else if i + 1 >= s.len() {
            out.push('\\');
            assert(out@ + plain_from(s@, i + 1) == before + rest);
            i += 1;
        } else {
            let code = s[i + 1];
            if code == 'P' {
                out.push('\n');
                assert(out@ + plain_from(s@, i + 2) == before + rest);
                i += 2;
            } else if code == '~' {
                out.push(' ');
                assert(out@ + plain_from(s@, i + 2) == before + rest);
                i += 2;
            } else if code == '\\' {
                out.push('\\');
                assert(out@ + plain_from(s@, i + 2) == before + rest);
                i += 2;
            } else if code == 'f' || code == 'H' || code == 'W' {
                let end = find_block_end(&s, i + 2);
                i = if end < s.len() {
                    end + 1
                } else {
                    end
                };
            } else if code == 'S' {
                let end = find_block_end(&s, i + 2);
                push_stacked(&mut out, &s, i + 2, end);
                assert(out@ + plain_from(s@, after_block(s@, i + 2)) == before + rest);
                i = if end < s.len() {
                    end + 1
                } else {
                    end
                };
            } else {
                out.push('\\');
                assert(out@ + plain_from(s@, i + 1) == before + rest);
                i += 1;
            }
        }
    }
    out
}

} // verus!
