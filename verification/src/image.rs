//! Regions of the decoded image.
//!
//! The decoded image is a buffer of RGBA pixels, four bytes each, row by row
//! without padding. A graphics update names a rectangle of it, borders included;
//! what is presented is a copy of the pixels inside that rectangle.

use crate::event::InclusiveRectangle;
use vstd::prelude::*;

verus! {

/// Bytes per pixel of the decoded image.
pub const BYTES_PER_PIXEL: usize = 4;

/// Number of pixel columns of a rectangle.
pub open spec fn region_width(region: InclusiveRectangle) -> int {
    region.right - region.left + 1
}

/// Number of pixel rows of a rectangle.
pub open spec fn region_height(region: InclusiveRectangle) -> int {
    region.bottom - region.top + 1
}

/// Whether a rectangle is not empty and lies inside an image of the given size.
pub open spec fn region_fits(region: InclusiveRectangle, width: int, height: int) -> bool {
    region.left <= region.right < width && region.top <= region.bottom < height
}

/// Where the pixels of row `row` of the rectangle start in the image buffer.
pub open spec fn row_start(width: int, region: InclusiveRectangle, row: int) -> int {
    ((region.top + row) * width + region.left) * 4
}

/// The bytes of row `row` of the rectangle: the part of the image row between the
/// rectangle's left and right border.
pub open spec fn row_pixels(data: Seq<u8>, width: int, region: InclusiveRectangle, row: int) -> Seq<
    u8,
> {
    data.subrange(
        row_start(width, region, row),
        row_start(width, region, row) + 4 * region_width(region),
    )
}

/// The bytes of the first `rows` rows of the rectangle, top to bottom.
pub open spec fn region_rows(
    data: Seq<u8>,
    width: int,
    region: InclusiveRectangle,
    rows: nat,
) -> Seq<u8>
    decreases rows,
{
    if rows == 0 {
        Seq::<u8>::empty()
    } else {
        region_rows(data, width, region, (rows - 1) as nat) + row_pixels(
            data,
            width,
            region,
            rows - 1,
        )
    }
}

/// The pixels inside the rectangle, row by row.
pub open spec fn region_pixels(data: Seq<u8>, width: int, region: InclusiveRectangle) -> Seq<u8> {
    region_rows(data, width, region, region_height(region) as nat)
}

/// Every row of a rectangle that fits lies inside the image buffer.
pub proof fn lemma_row_in_bounds(width: int, height: int, region: InclusiveRectangle, row: int)
    requires
        region_fits(region, width, height),
        0 <= row < region_height(region),
    ensures
        0 <= row_start(width, region, row),
        row_start(width, region, row) + 4 * region_width(region) <= 4 * width * height,
        0 <= (region.top + row) * width,
        (region.top + row) * width + region.left + region_width(region) <= width * height,
        0 <= width * height,
{
    let y = region.top + row;
    assert(0 <= y * width) by (nonlinear_arith)
        requires
            0 <= y,
            0 <= width,
    ;
    assert((y + 1) * width <= height * width) by (nonlinear_arith)
        requires
            y + 1 <= height,
            0 <= width,
    ;
    assert(y * width + width == (y + 1) * width) by (nonlinear_arith);
    assert(4 * (width * height) == 4 * width * height) by (nonlinear_arith);
    assert(height * width == width * height) by (nonlinear_arith);
    assert(0 <= width * height) by (nonlinear_arith)
        requires
            0 <= width,
            0 <= height,
    ;
}

/// The rows of a rectangle that fits add up to four bytes for each of its pixels.
pub proof fn lemma_region_rows_len(
    data: Seq<u8>,
    width: int,
    height: int,
    region: InclusiveRectangle,
    rows: nat,
)
    requires
        region_fits(region, width, height),
        data.len() == 4 * width * height,
        rows <= region_height(region),
    ensures
        region_rows(data, width, region, rows).len() == 4 * region_width(region) * rows,
    decreases rows,
{
    if rows > 0 {
        lemma_region_rows_len(data, width, height, region, (rows - 1) as nat);
        lemma_row_in_bounds(width, height, region, rows - 1);
        assert(4 * region_width(region) * (rows - 1) + 4 * region_width(region) == 4
            * region_width(region) * rows) by (nonlinear_arith);
    } else {
        assert(4 * region_width(region) * 0 == 0) by (nonlinear_arith);
    }
}

/// Copies the pixels inside a rectangle out of the image buffer, row by row.
///
/// There is something to copy exactly when the buffer holds `width * height`
/// pixels and the rectangle is not empty and lies inside the image.
pub fn extract_partial_image(
    data: &[u8],
    width: u16,
    height: u16,
    region: InclusiveRectangle,
) -> (r: Option<Vec<u8>>)
    ensures
        r is Some <==> region_fits(region, width as int, height as int) && data@.len() == 4
            * width * height,
        r matches Some(pixels) ==> pixels@ == region_pixels(data@, width as int, region)
            && pixels@.len() == 4 * region_width(region) * region_height(region),
{
    assert(0 <= width * height <= 0xFFFF * 0xFFFF) by (nonlinear_arith)
        requires
            0 <= width <= 0xFFFF,
            0 <= height <= 0xFFFF,
    ;
    assert(4 * (width * height) == 4 * width * height) by (nonlinear_arith);
    let expected: u64 = (width as u64) * (height as u64) * 4;
    if data.len() as u64 != expected {
        return None;
    }
    if !(region.left <= region.right && region.right < width && region.top <= region.bottom
        && region.bottom < height) {
        return None;
    }
    let rows: usize = (region.bottom - region.top) as usize + 1;
    let columns: usize = (region.right - region.left) as usize + 1;
    let mut pixels: Vec<u8> = Vec::new();
    let mut row: usize = 0;
    while row < rows
        invariant
            region_fits(region, width as int, height as int),
            data@.len() == 4 * width * height,
            data@.len() <= usize::MAX,
            rows == region_height(region),
            columns == region_width(region),
            row <= rows,
            pixels@ == region_rows(data@, width as int, region, row as nat),
        decreases rows - row,
    {
        proof {
            lemma_row_in_bounds(width as int, height as int, region, row as int);
            assert(4 * (width * height) == 4 * width * height) by (nonlinear_arith);
        }
        let line: usize = region.top as usize + row;
        let start: usize = (line * (width as usize) + region.left as usize) * BYTES_PER_PIXEL;
        let end: usize = start + columns * BYTES_PER_PIXEL;
        let mut at: usize = start;
        while at < end
            invariant
                start <= at <= end <= data@.len(),
                start == row_start(width as int, region, row as int),
                end == start + 4 * region_width(region),
                pixels@ == region_rows(data@, width as int, region, row as nat) + data@.subrange(
                    start as int,
                    at as int,
                ),
            decreases end - at,
        {
            pixels.push(data[at]);
            at = at + 1;
        }
        row = row + 1;
    }
    proof {
        lemma_region_rows_len(data@, width as int, height as int, region, rows as nat);
    }
    Some(pixels)
}

} // verus!
