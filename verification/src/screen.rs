//! Where a line of text goes on the display, and how wide it is made.

use vstd::prelude::*;
use vstd::string::StrSliceExecFns;
use vstd::string::StringExecFns;

verus! {

/// Number of characters in a line of the display.
pub const LINE_WIDTH: usize = 42;

/// Width of a character in pixels.
pub const CHAR_WIDTH: i32 = 6;

/// Height of a line in pixels.
pub const LINE_HEIGHT: i32 = 10;

/// A text filled up with spaces on the right to the width of a line. A text
/// that is as wide or wider stays as it is.
pub open spec fn padded(text: Seq<char>) -> Seq<char> {
    if text.len() < LINE_WIDTH {
        text + Seq::new((LINE_WIDTH - text.len()) as nat, |i: int| ' ')
    } else {
        text
    }
}

/// Fills a text up to the width of a line.
pub fn pad_line(text: &str) -> (line: String)
    ensures
        line@ == padded(text@),
{
    let mut line = String::from_str(text);
    let len = text.unicode_len();
    if len < LINE_WIDTH {
        let mut i = len;
        assert(line@ =~= text@ + Seq::new(0, |i: int| ' '));
        while i < LINE_WIDTH
            invariant
                len == text@.len(),
                len <= i <= LINE_WIDTH,
                line@ == text@ + Seq::new((i - len) as nat, |i: int| ' '),
            decreases LINE_WIDTH - i,
        {
            proof {
                reveal_strlit(" ");
            }
            line.append(" ");
            i = i + 1;
            assert(line@ =~= text@ + Seq::new((i - len) as nat, |i: int| ' '));
        }
    }
    line
}

/// The pixel at which the text of a row and column of characters begins:
/// its distance from the left edge, then from the top.
pub fn text_origin(row: i32, col: i32) -> (origin: (i32, i32))
    requires
        i32::MIN <= col * CHAR_WIDTH <= i32::MAX,
        i32::MIN <= row * LINE_HEIGHT <= i32::MAX,
    ensures
        origin.0 == col * CHAR_WIDTH,
        origin.1 == row * LINE_HEIGHT,
{
    (col * CHAR_WIDTH, row * LINE_HEIGHT)
}

} // verus!
