//! The plain-text PPM ("P3") encoding of a finished pixel grid.
//!
//! The output is a three-line header (`P3`, the dimensions, the channel
//! maximum 255) followed by one `r g b` line per pixel, row-major,
//! top-to-bottom and left-to-right.  Each channel is clamped to `[0, 1]`,
//! scaled by 255 and truncated.  The encoding is pinned down byte for byte,
//! so equal pixel grids give equal files.

use vstd::prelude::*;
use crate::color::{Color, spec_channel_byte};

verus! {

/// The decimal digits of a nonnegative number, as ASCII bytes.
pub open spec fn spec_decimal(n: int) -> Seq<u8>
    recommends
        n >= 0,
    decreases n,
{
    if n < 10 {
        seq![(48 + if n < 0 { 0int } else { n }) as u8]
    } else {
        spec_decimal(n / 10) + seq![(48 + n % 10) as u8]
    }
}

/// One pixel's output line: the three quantized channels separated by
/// spaces, ended by a newline.
pub open spec fn spec_pixel_line(c: Color) -> Seq<u8> {
    spec_decimal(spec_channel_byte(c.red@)) + seq![32u8] + spec_decimal(
        spec_channel_byte(c.green@),
    ) + seq![32u8] + spec_decimal(spec_channel_byte(c.blue@)) + seq![10u8]
}

/// The output lines of one row from column `i` on.
pub open spec fn spec_row_lines(row: Seq<Color>, i: int) -> Seq<u8>
    decreases row.len() - i,
{
    if i < 0 || i >= row.len() {
        Seq::empty()
    } else {
        spec_pixel_line(row[i]) + spec_row_lines(row, i + 1)
    }
}

/// The output lines of all rows from row `j` on.
pub open spec fn spec_grid_lines(rows: Seq<Seq<Color>>, j: int) -> Seq<u8>
    decreases rows.len() - j,
{
    if j < 0 || j >= rows.len() {
        Seq::empty()
    } else {
        spec_row_lines(rows[j], 0) + spec_grid_lines(rows, j + 1)
    }
}

/// The header: `P3`, the dimensions, and the channel maximum, one per line.
pub open spec fn spec_ppm_header(width: int, height: int) -> Seq<u8> {
    seq![80u8, 51u8, 10u8] + spec_decimal(width) + seq![32u8] + spec_decimal(height) + seq![
        10u8,
        50u8,
        53u8,
        53u8,
        10u8,
    ]
}

/// The views of the rows of a pixel grid.
pub open spec fn spec_grid_view(rows: Seq<Vec<Color>>) -> Seq<Seq<Color>> {
    rows.map_values(|v: Vec<Color>| v@)
}

/// The whole file: the header followed by every pixel line.
pub open spec fn spec_ppm(width: int, height: int, rows: Seq<Seq<Color>>) -> Seq<u8> {
    spec_ppm_header(width, height) + spec_grid_lines(rows, 0)
}

/// Append the decimal digits of `n`.
fn push_decimal(out: &mut Vec<u8>, n: u64)
    ensures
        final(out)@ == old(out)@ + spec_decimal(n as int),
    decreases n,
{
    if n < 10 {
        out.push(48 + (n as u8));
    } else {
        push_decimal(out, n / 10);
        out.push(48 + ((n % 10) as u8));
    }
}

/// Append one pixel's `r g b` line.
fn push_pixel_line(out: &mut Vec<u8>, c: &Color)
    ensures
        final(out)@ == old(out)@ + spec_pixel_line(*c),
{
    let (r, g, b) = c.to_byte_rgb();
    push_decimal(out, r as u64);
    out.push(32);
    push_decimal(out, g as u64);
    out.push(32);
    push_decimal(out, b as u64);
    out.push(10);
}

/// Encode a finished pixel grid as a plain-text PPM file.
pub fn ppm_bytes(width: i64, height: i64, pixels: &Vec<Vec<Color>>) -> (r: Vec<u8>)
    requires
        0 <= width,
        0 <= height,
    ensures
        r@ == spec_ppm(width as int, height as int, spec_grid_view(pixels@)),
{
    let ghost grid = spec_grid_view(pixels@);
    let mut out: Vec<u8> = Vec::new();
    out.push(80);
    out.push(51);
    out.push(10);
    push_decimal(&mut out, width as u64);
    out.push(32);
    push_decimal(&mut out, height as u64);
    out.push(10);
    out.push(50);
    out.push(53);
    out.push(53);
    out.push(10);
    proof {
        assert(out@ =~= spec_ppm_header(width as int, height as int));
    }
    let mut j: usize = 0;
    while j < pixels.len()
        invariant
            j <= pixels@.len(),
            grid == spec_grid_view(pixels@),
            grid.len() == pixels@.len(),
            out@ + spec_grid_lines(grid, j as int) == spec_ppm(
                width as int,
                height as int,
                grid,
            ),
        decreases pixels@.len() - j,
    {
        proof {
            assert(grid[j as int] == pixels@[j as int]@);
        }
        let row = &pixels[j];
        let mut i: usize = 0;
        proof {
            assert(spec_grid_lines(grid, j as int) =~= spec_row_lines(grid[j as int], 0)
                + spec_grid_lines(grid, j as int + 1));
            assert(out@ + spec_row_lines(row@, 0) + spec_grid_lines(grid, j as int + 1)
                =~= out@ + spec_grid_lines(grid, j as int));
        }
        while i < row.len()
            invariant
                i <= row@.len(),
                out@ + spec_row_lines(row@, i as int) + spec_grid_lines(grid, j as int + 1)
                    == spec_ppm(width as int, height as int, grid),
            decreases row@.len() - i,
        {
            let ghost prev = out@;
            push_pixel_line(&mut out, &row[i]);
            proof {
                assert(spec_row_lines(row@, i as int) =~= spec_pixel_line(row@[i as int])
                    + spec_row_lines(row@, i as int + 1));
                assert(out@ + spec_row_lines(row@, i as int + 1) + spec_grid_lines(
                    grid,
                    j as int + 1,
                ) =~= prev + spec_row_lines(row@, i as int) + spec_grid_lines(grid, j as int + 1));
            }
            i = i + 1;
        }
        proof {
            assert(spec_row_lines(row@, row@.len() as int) =~= Seq::<u8>::empty());
            assert(out@ + Seq::<u8>::empty() =~= out@);
            assert(out@ + spec_grid_lines(grid, j as int + 1) == spec_ppm(
                width as int,
                height as int,
                grid,
            ));
        }
        j = j + 1;
    }
    proof {
        assert(out@ =~= spec_ppm(width as int, height as int, grid));
    }
    out
}

} // verus!
