//! The characters a drawn tree is made of, and the classes a line is read by.

use vstd::prelude::*;

verus! {

/// The vertical bar that continues an open branch.
pub const VERTICAL: char = '│';

/// The connector in front of an entry that has later siblings.
pub const BRANCH: char = '├';

/// The connector in front of the last entry of a directory.
pub const CORNER: char = '└';

/// The horizontal stroke between a connector and a name.
pub const FILL: char = '─';

/// The character that ends the name of a directory and joins the names of a path.
pub const SEPARATOR: char = '/';

/// A structural glyph is one of the three connectors that denote nesting.
pub open spec fn is_structural(c: char) -> bool {
    c == VERTICAL || c == BRANCH || c == CORNER
}

/// A decorative glyph is a structural glyph or the horizontal fill.
pub open spec fn is_decoration(c: char) -> bool {
    is_structural(c) || c == FILL
}

/// The plain space character, the only one that counts as indentation.
pub open spec fn is_space(c: char) -> bool {
    c == ' '
}

/// The characters that Unicode classes as white space.
pub open spec fn is_whitespace(c: char) -> bool {
    let n = c as u32;
    ||| 0x09 <= n <= 0x0D
    ||| n == 0x20
    ||| n == 0x85
    ||| n == 0xA0
    ||| n == 0x1680
    ||| 0x2000 <= n <= 0x200A
    ||| n == 0x2028
    ||| n == 0x2029
    ||| n == 0x202F
    ||| n == 0x205F
    ||| n == 0x3000
}

/// Tells whether `c` is one of the three connectors that denote nesting.
pub fn is_structural_glyph(c: char) -> (b: bool)
    ensures
        b == is_structural(c),
{
    c == VERTICAL || c == BRANCH || c == CORNER
}

/// Tells whether `c` is a connector or the horizontal fill.
pub fn is_decorative_glyph(c: char) -> (b: bool)
    ensures
        b == is_decoration(c),
{
    is_structural_glyph(c) || c == FILL
}

/// Tells whether `c` is white space in the sense of Unicode.
pub fn is_whitespace_char(c: char) -> (b: bool)
    ensures
        b == is_whitespace(c),
{
    let n: u32 = c as u32;
    (0x09 <= n && n <= 0x0D) || n == 0x20 || n == 0x85 || n == 0xA0 || n == 0x1680 || (0x2000 <= n
        && n <= 0x200A) || n == 0x2028 || n == 0x2029 || n == 0x202F || n == 0x205F || n == 0x3000
}

} // verus!
