//! What one line of a drawn tree says: how deep its entry lies and what it is called.

use vstd::prelude::*;
use crate::glyphs::{
    is_decoration,
    is_decorative_glyph,
    is_space,
    is_structural,
    is_structural_glyph,
    is_whitespace,
    is_whitespace_char,
    SEPARATOR,
};
use crate::text::{
    all_match,
    count_where,
    leading_run,
    lemma_count_step,
    lemma_leading_run_is,
    lemma_trailing_run_is,
    strip_leading,
    strip_trailing,
};

verus! {

/// The class of the structural glyphs.
pub open spec fn structural() -> spec_fn(char) -> bool {
    |c: char| is_structural(c)
}

/// The class of the decorative glyphs.
pub open spec fn decoration() -> spec_fn(char) -> bool {
    |c: char| is_decoration(c)
}

/// The class that holds the space character alone.
pub open spec fn space() -> spec_fn(char) -> bool {
    |c: char| is_space(c)
}

/// The class of the white space characters.
pub open spec fn whitespace() -> spec_fn(char) -> bool {
    |c: char| is_whitespace(c)
}

/// A line is blank when it holds nothing but white space; the empty line is blank.
pub open spec fn is_blank(line: Seq<char>) -> bool {
    all_match(line, whitespace())
}

/// The number of structural glyphs anywhere in the line.
pub open spec fn glyph_count(line: Seq<char>) -> nat {
    count_where(line, structural())
}

/// The number of space characters anywhere in the line.
pub open spec fn space_count(line: Seq<char>) -> nat {
    count_where(line, space())
}

/// The number of space characters the line opens with.
pub open spec fn leading_spaces(line: Seq<char>) -> nat {
    leading_run(line, space())
}

/// The line's first character is a space.
pub open spec fn starts_with_space(line: Seq<char>) -> bool {
    line.len() > 0 && line[0] == ' '
}

/// The nesting depth of a line: its structural glyphs, and for a line that opens with a
/// space the remainder of its space count by four on top.
pub open spec fn line_depth(line: Seq<char>) -> nat {
    glyph_count(line) + if starts_with_space(line) {
        space_count(line) % 4
    } else {
        0
    }
}

/// `s` without the white space at either end.
pub open spec fn trimmed(s: Seq<char>) -> Seq<char> {
    strip_trailing(strip_leading(s, whitespace()), whitespace())
}

/// The name a line gives its entry: the line without the decorative glyphs it opens with,
/// then without the white space around what is left. Glyphs that follow the first
/// character of another kind stay in the name.
pub open spec fn clean_name(line: Seq<char>) -> Seq<char> {
    trimmed(strip_leading(line, decoration()))
}

/// A name that ends with the separator is that of a directory.
pub open spec fn names_directory(name: Seq<char>) -> bool {
    name.len() > 0 && name.last() == SEPARATOR
}

/// Tells whether the line holds nothing but white space.
pub fn blank(chars: &Vec<char>) -> (b: bool)
    ensures
        b == is_blank(chars@),
{
    let mut i: usize = 0;
    while i < chars.len()
        invariant
            i <= chars.len(),
            forall|j: int| 0 <= j < i ==> is_whitespace(#[trigger] chars@[j]),
        decreases chars.len() - i,
    {
        if !is_whitespace_char(chars[i]) {
            assert(!whitespace()(chars@[i as int]));
            return false;
        }
        i = i + 1;
    }
    true
}

/// Counts the structural glyphs and the space characters of the line.
pub fn measure(chars: &Vec<char>) -> (counts: (usize, usize))
    ensures
        counts.0 == glyph_count(chars@),
        counts.1 == space_count(chars@),
        counts.0 + counts.1 <= chars@.len(),
{
    let mut glyphs: usize = 0;
    let mut spaces: usize = 0;
    let mut i: usize = 0;
    while i < chars.len()
        invariant
            i <= chars.len(),
            glyphs == glyph_count(chars@.take(i as int)),
            spaces == space_count(chars@.take(i as int)),
            glyphs + spaces <= i,
        decreases chars.len() - i,
    {
        let c = chars[i];
        proof {
            lemma_count_step(chars@, structural(), i as int);
            lemma_count_step(chars@, space(), i as int);
        }
        if is_structural_glyph(c) {
            glyphs = glyphs + 1;
        } else if c == ' ' {
            spaces = spaces + 1;
        }
        i = i + 1;
    }
    assert(chars@.take(i as int) =~= chars@);
    (glyphs, spaces)
}

/// Counts the space characters the line opens with.
pub fn leading_space_count(chars: &Vec<char>) -> (n: usize)
    ensures
        n == leading_spaces(chars@),
{
    let mut n: usize = 0;
    while n < chars.len() && chars[n] == ' '
        invariant
            n <= chars.len(),
            forall|j: int| 0 <= j < n ==> is_space(#[trigger] chars@[j]),
        decreases chars.len() - n,
    {
        n = n + 1;
    }
    proof {
        lemma_leading_run_is(chars@, space(), n as int);
    }
    n
}

/// Finds where the entry's name stands in the line: from the first index to before the
/// second.
pub fn name_bounds(chars: &Vec<char>) -> (bounds: (usize, usize))
    ensures
        bounds.0 <= bounds.1 <= chars@.len(),
        chars@.subrange(bounds.0 as int, bounds.1 as int) == clean_name(chars@),
{
    let len = chars.len();
    let mut glyphs: usize = 0;
    while glyphs < len && is_decorative_glyph(chars[glyphs])
        invariant
            len == chars.len(),
            glyphs <= len,
            forall|j: int| 0 <= j < glyphs ==> is_decoration(#[trigger] chars@[j]),
        decreases len - glyphs,
    {
        glyphs = glyphs + 1;
    }
    let mut start: usize = glyphs;
    while start < len && is_whitespace_char(chars[start])
        invariant
            len == chars.len(),
            glyphs <= start <= len,
            forall|j: int| glyphs <= j < start ==> is_whitespace(#[trigger] chars@[j]),
        decreases len - start,
    {
        start = start + 1;
    }
    let mut end: usize = len;
    while end > start && is_whitespace_char(chars[end - 1])
        invariant
            len == chars.len(),
            start <= end <= len,
            forall|j: int| end <= j < len ==> is_whitespace(#[trigger] chars@[j]),
        decreases end,
    {
        end = end - 1;
    }
    proof {
        let line = chars@;
        lemma_leading_run_is(line, decoration(), glyphs as int);
        let undecorated = strip_leading(line, decoration());
        assert(undecorated =~= line.skip(glyphs as int));
        assert forall|j: int| 0 <= j < start - glyphs implies whitespace()(
            #[trigger] undecorated[j],
        ) by {
            assert(undecorated[j] == line[glyphs + j]);
        }
        lemma_leading_run_is(undecorated, whitespace(), start - glyphs);
        let opened = strip_leading(undecorated, whitespace());
        assert(opened =~= line.skip(start as int));
        assert forall|j: int| opened.len() - (len - end) <= j < opened.len() implies whitespace()(
            #[trigger] opened[j],
        ) by {
            assert(opened[j] == line[start + j]);
        }
        if end > start {
            assert(opened[end - start - 1] == line[end - 1]);
        }
        lemma_trailing_run_is(opened, whitespace(), len - end);
        assert(strip_trailing(opened, whitespace()) =~= line.subrange(start as int, end as int));
    }
    (start, end)
}

} // verus!
