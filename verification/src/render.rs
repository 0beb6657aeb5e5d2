//! The pure part of the render collaborator: packing a framebuffer snapshot
//! into half-block glyph rows, two logical rows per displayed text row.
//! Putting the glyphs on a terminal stays outside the library.

use vstd::prelude::*;

use crate::cpu::Frame;

verus! {

/// The glyph for one text cell: bit `n` of `upper` fills the top half, the
/// same bit of `lower` the bottom half.
pub open spec fn cell(upper: u64, lower: u64, n: u64) -> char
    recommends
        n < 64,
{
    let u = upper & (1u64 << n) != 0;
    let l = lower & (1u64 << n) != 0;
    if u && l {
        '\u{2588}'
    } else if u {
        '\u{2580}'
    } else if l {
        '\u{2584}'
    } else {
        ' '
    }
}

/// The glyph for bit `n` of a pair of framebuffer rows.
fn cell_glyph(upper: u64, lower: u64, n: u8) -> (c: char)
    requires
        n < 64,
    ensures
        c == cell(upper, lower, n as u64),
{
    let u = upper & (1u64 << (n as u64)) != 0;
    let l = lower & (1u64 << (n as u64)) != 0;
    if u && l {
        '\u{2588}'
    } else if u {
        '\u{2580}'
    } else if l {
        '\u{2584}'
    } else {
        ' '
    }
}

/// Renders a frame as 16 text rows of 64 glyphs: text row `i` packs
/// framebuffer rows `2i` (top half) and `2i + 1` (bottom half), leftmost
/// pixel (bit 63) first.
pub fn render_rows(f: &Frame) -> (rows: Vec<Vec<char>>)
    ensures
        rows@.len() == 16,
        forall|i: int| 0 <= i < 16 ==> rows@[i]@.len() == 64,
        forall|i: int, n: int|
            0 <= i < 16 && 0 <= n < 64 ==> rows@[i]@[n] == cell(
                f.0@[2 * i],
                f.0@[2 * i + 1],
                (63 - n) as u64,
            ),
{
    let mut rows: Vec<Vec<char>> = Vec::new();
    let mut i: usize = 0;
    while i < 16
        invariant
            i <= 16,
            rows@.len() == i,
            forall|a: int| 0 <= a < i ==> rows@[a]@.len() == 64,
            forall|a: int, n: int|
                0 <= a < i && 0 <= n < 64 ==> rows@[a]@[n] == cell(
                    f.0@[2 * a],
                    f.0@[2 * a + 1],
                    (63 - n) as u64,
                ),
        decreases 16 - i,
    {
        let upper = f.0[2 * i];
        let lower = f.0[2 * i + 1];
        let mut row: Vec<char> = Vec::new();
        let mut n: usize = 0;
        while n < 64
            invariant
                n <= 64,
                row@.len() == n,
                forall|m: int| 0 <= m < n ==> row@[m] == cell(upper, lower, (63 - m) as u64),
            decreases 64 - n,
        {
            row.push(cell_glyph(upper, lower, (63 - n) as u8));
            n += 1;
        }
        rows.push(row);
        i += 1;
    }
    rows
}

} // verus!
