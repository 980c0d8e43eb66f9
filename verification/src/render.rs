//! Computed parts of the display: centering padding for the fixed-width
//! view, and the deterministic pseudo-noise frames of the built-in
//! screensaver. Printing them is left to the caller.

use vstd::prelude::*;

verus! {

/// Width of the centered text view, in characters.
pub const VIEW_WIDTH: usize = 60;

/// Number of spaces that centers a text of `len` characters in the view.
pub open spec fn padding_len_spec(len: int) -> int {
    if len >= VIEW_WIDTH {
        0
    } else {
        (VIEW_WIDTH - len) / 2
    }
}

/// The run of spaces that centers `text` in the view.
pub fn padding_for_text(text: &str) -> (r: String)
    ensures
        r@.len() == padding_len_spec(text@.len() as int),
        forall|k: int| 0 <= k < r@.len() ==> r@[k] == ' ',
{
    let n = text.unicode_len();
    let pad: usize = if n >= VIEW_WIDTH {
        0
    } else {
        (VIEW_WIDTH - n) / 2
    };
    let mut r = String::new();
    let mut i: usize = 0;
    while i < pad
        invariant
            0 <= i <= pad,
            r@.len() == i,
            forall|k: int| 0 <= k < r@.len() ==> r@[k] == ' ',
        decreases pad - i,
    {
        proof {
            reveal_strlit(" ");
        }
        r.append(" ");
        i = i + 1;
    }
    r
}

/// Columns of a screensaver frame.
pub const FRAME_WIDTH: usize = 50;

/// Rows of a screensaver frame.
pub const FRAME_HEIGHT: usize = 14;

/// The character bucket of one noise value in `0..97`.
pub open spec fn noise_char_spec(v: int) -> char {
    if v <= 10 {
        '.'
    } else if v <= 25 {
        '*'
    } else if v <= 40 {
        'o'
    } else if v <= 55 {
        '+'
    } else if v <= 70 {
        ' '
    } else if v <= 85 {
        '~'
    } else {
        '-'
    }
}

/// The noise character at a cell: the bucket of
/// `(x * 13 + y * 7 + frame * 5) % 97`.
pub open spec fn noise_at(x: int, y: int, frame: int) -> char {
    noise_char_spec((x * 13 + y * 7 + frame * 5) % 97)
}

/// One frame row, left to right.
pub open spec fn frame_row(y: int, frame: int) -> Seq<char> {
    Seq::new(FRAME_WIDTH as nat, |x: int| noise_at(x, y, frame))
}

/// The first `n` frame rows, each ended by a newline.
pub open spec fn frame_rows_upto(n: int, frame: int) -> Seq<char>
    decreases n,
{
    if n <= 0 {
        Seq::empty()
    } else {
        frame_rows_upto(n - 1, frame) + frame_row(n - 1, frame) + seq!['\n']
    }
}

fn noise_token(v: usize) -> (r: &'static str)
    requires
        v < 97,
    ensures
        r@ == seq![noise_char_spec(v as int)],
{
    let t: &'static str = if v <= 10 {
        "."
    } else if v <= 25 {
        "*"
    } else if v <= 40 {
        "o"
    } else if v <= 55 {
        "+"
    } else if v <= 70 {
        " "
    } else if v <= 85 {
        "~"
    } else {
        "-"
    };
    proof {
        reveal_strlit(".");
        reveal_strlit("*");
        reveal_strlit("o");
        reveal_strlit("+");
        reveal_strlit(" ");
        reveal_strlit("~");
        reveal_strlit("-");
        assert(t@ =~= seq![noise_char_spec(v as int)]);
    }
    t
}

/// Render one whole screensaver frame: `FRAME_HEIGHT` rows of
/// `FRAME_WIDTH` noise characters, each row ended by a newline.
pub fn render_screensaver_frame(frame: usize) -> (r: String)
    requires
        frame * 5 + 728 <= usize::MAX,
    ensures
        r@ == frame_rows_upto(FRAME_HEIGHT as int, frame as int),
{
    let mut out = String::new();
    let mut y: usize = 0;
    while y < FRAME_HEIGHT
        invariant
            0 <= y <= FRAME_HEIGHT,
            frame * 5 + 728 <= usize::MAX,
            out@ == frame_rows_upto(y as int, frame as int),
        decreases FRAME_HEIGHT - y,
    {
        let mut x: usize = 0;
        while x < FRAME_WIDTH
            invariant
                0 <= x <= FRAME_WIDTH,
                y < FRAME_HEIGHT,
                frame * 5 + 728 <= usize::MAX,
                out@ == frame_rows_upto(y as int, frame as int)
                    + frame_row(y as int, frame as int).subrange(0, x as int),
            decreases FRAME_WIDTH - x,
        {
            let v = (x * 13 + y * 7 + frame * 5) % 97;
            out.append(noise_token(v));
            proof {
                assert(frame_row(y as int, frame as int).subrange(0, x as int).push(
                    noise_at(x as int, y as int, frame as int),
                ) =~= frame_row(y as int, frame as int).subrange(0, x + 1));
            }
            x = x + 1;
        }
        proof {
            reveal_strlit("\n");
            assert(frame_row(y as int, frame as int).subrange(0, FRAME_WIDTH as int)
                =~= frame_row(y as int, frame as int));
        }
        out.append("\n");
        proof {
            assert(out@ =~= frame_rows_upto(y + 1, frame as int));
        }
        y = y + 1;
    }
    out
}

} // verus!
