//! The layout of a texture that was copied to a buffer.
//!
//! A copy puts each row of the texture at a multiple of [`ROW_ALIGNMENT`] bytes, so there may be
//! bytes between the end of one row and the start of the next that belong to no pixel.

use crate::constants::{copy_bytes_per_row_alignment, ROW_ALIGNMENT};
use vstd::arithmetic::div_mod::*;
use vstd::arithmetic::mul::*;
use vstd::prelude::*;

verus! {

/// The number of bytes that a row of `width` pixels takes: four for each pixel.
pub open spec fn row_bytes(width: int) -> int {
    4 * width
}

/// The least multiple of [`ROW_ALIGNMENT`] that a row of `width` pixels fits in.
pub open spec fn padded_row_bytes(width: int) -> int {
    (row_bytes(width) + ROW_ALIGNMENT - 1) / (ROW_ALIGNMENT as int) * ROW_ALIGNMENT
}

/// Whether the bytes of a texture that was copied to a buffer can be counted in a `u32`.
pub open spec fn capture_in_range(width: int, height: int) -> bool {
    &&& padded_row_bytes(width) <= u32::MAX
    &&& padded_row_bytes(width) * height <= u32::MAX
}

/// The number of rows in `len` bytes, the last of which may lack some of its padding.
pub open spec fn row_count(len: int, padded: int) -> int {
    (len + padded - 1) / padded
}

/// `bytes` without what stands between the end of each row and the start of the next.
///
/// Row `y` starts at `y * padded`, and its first `unpadded` bytes are kept.
pub open spec fn unpadded_rows(bytes: Seq<u8>, padded: int, unpadded: int) -> Seq<u8> {
    Seq::new(
        (row_count(bytes.len() as int, padded) * unpadded) as nat,
        |k: int| bytes[k / unpadded * padded + k % unpadded],
    )
}

/// Rows that start before the end of the bytes are counted, and no others; a row that starts
/// less than `padded` bytes before the end is the last one.
proof fn lemma_row_count(len: int, padded: int, row: int)
    requires
        0 <= len,
        0 < padded,
        0 <= row,
    ensures
        row < row_count(len, padded) <==> row * padded < len,
        row * padded < len <= (row + 1) * padded ==> {
            &&& row_count(len, padded) == row + 1
            &&& len < (row + 1) * padded ==> len - row * padded == len % padded
        },
{
    let rows = row_count(len, padded);
    lemma_mul_is_distributive_add_other_way(padded, row, 1);
    lemma_fundamental_div_mod(len + padded - 1, padded);
    lemma_mul_is_commutative(padded, rows);
    if row < rows {
        lemma_mul_inequality(row + 1, rows, padded);
    } else {
        lemma_mul_inequality(rows, row, padded);
    }
    if row * padded < len <= (row + 1) * padded {
        lemma_fundamental_div_mod_converse(
            len + padded - 1,
            padded,
            row + 1,
            len - row * padded - 1,
        );
        if len < (row + 1) * padded {
            lemma_fundamental_div_mod_converse(len, padded, row, len - row * padded);
        }
    }
}

/// The two lengths of a row: that of its pixels, and the distance to the next row.
#[derive(Clone, Copy, Debug, PartialEq, Eq)]
pub struct BufferPadding {
    pub unpadded_bytes_per_row: u32,
    pub padded_bytes_per_row: u32,
}

impl BufferPadding {
    /// Whether `bytes` is a list of such rows, each of which has at least all of its pixels.
    pub open spec fn divides(&self, bytes: Seq<u8>) -> bool {
        &&& 0 < self.padded_bytes_per_row
        &&& self.unpadded_bytes_per_row <= self.padded_bytes_per_row
        &&& {
            ||| bytes.len() % (self.padded_bytes_per_row as nat) == 0
            ||| bytes.len() % (self.padded_bytes_per_row as nat) >= self.unpadded_bytes_per_row
        }
    }

    /// The lengths for rows of `width` pixels.
    pub fn new(width: u32) -> (padding: Self)
        requires
            padded_row_bytes(width as int) <= u32::MAX,
        ensures
            padding.unpadded_bytes_per_row == row_bytes(width as int),
            padding.padded_bytes_per_row == padded_row_bytes(width as int),
    {
        let bytes_per_pixel: u32 = core::mem::size_of::<u32>() as u32;
        assert(bytes_per_pixel == 4) by {
            broadcast use vstd::layout::layout_of_primitives;

        }
        proof {
            lemma_next_multiple(row_bytes(width as int));
        }
        let unpadded_bytes_per_row: u32 = width * bytes_per_pixel;
        let align: u32 = copy_bytes_per_row_alignment();
        let padded_bytes_per_row_padding: u32 = (align - unpadded_bytes_per_row % align) % align;
        let padded_bytes_per_row: u32 = unpadded_bytes_per_row + padded_bytes_per_row_padding;
        BufferPadding { unpadded_bytes_per_row, padded_bytes_per_row }
    }

    /// Whether [`BufferPadding::new`] accepts `width`, and `height` such rows can be counted in a
    /// `u32`.
    pub fn fits(width: u32, height: u32) -> (fits: bool)
        ensures
            fits == capture_in_range(width as int, height as int),
    {
        let align: u64 = copy_bytes_per_row_alignment() as u64;
        let padded: u64 = (4 * width as u64 + align - 1) / align * align;
        if padded > u32::MAX as u64 {
            return false;
        }
        proof {
            lemma_mul_upper_bound(padded as int, u32::MAX as int, height as int, u32::MAX as int);
        }
        padded * height as u64 <= u32::MAX as u64
    }

    /// The pixels of `bytes`, row after row with nothing in between.
    pub fn remove(&self, bytes: &[u8]) -> (pixels: Vec<u8>)
        requires
            self.divides(bytes@),
        ensures
            pixels@ == unpadded_rows(
                bytes@,
                self.padded_bytes_per_row as int,
                self.unpadded_bytes_per_row as int,
            ),
    {
        let padded: usize = self.padded_bytes_per_row as usize;
        let unpadded: usize = self.unpadded_bytes_per_row as usize;
        let mut pixels: Vec<u8> = Vec::new();
        let mut start: usize = 0;
        let ghost mut row: int = 0;
        let ghost all = unpadded_rows(bytes@, padded as int, unpadded as int);
        let ghost rows = row_count(bytes@.len() as int, padded as int);
        proof {
            lemma_row_count(bytes@.len() as int, padded as int, 0);
        }
        while start < bytes.len()
            invariant
                padded == self.padded_bytes_per_row,
                unpadded == self.unpadded_bytes_per_row,
                self.divides(bytes@),
                rows == row_count(bytes@.len() as int, padded as int),
                all == unpadded_rows(bytes@, padded as int, unpadded as int),
                0 <= row <= rows,
                start <= bytes@.len(),
                start < bytes@.len() ==> start == row * padded,
                start == bytes@.len() ==> row == rows,
                pixels@.len() == row * unpadded,
                forall|k: int| 0 <= k < pixels@.len() ==> pixels@[k] == all[k],
            decreases bytes@.len() - start,
        {
            proof {
                lemma_row_count(bytes@.len() as int, padded as int, row);
                lemma_row_count(bytes@.len() as int, padded as int, row + 1);
                lemma_mul_inequality(row + 1, rows, unpadded as int);
                lemma_mul_is_distributive_add_other_way(unpadded as int, row, 1);
                lemma_mul_is_distributive_add_other_way(padded as int, row, 1);
            }
            let mut i: usize = 0;
            while i < unpadded
                invariant
                    start == row * padded,
                    start + unpadded <= bytes@.len(),
                    bytes@.len() == bytes.len(),
                    0 <= row,
                    0 <= i <= unpadded,
                    (row + 1) * unpadded == row * unpadded + unpadded,
                    (row + 1) * unpadded <= all.len(),
                    all == unpadded_rows(bytes@, padded as int, unpadded as int),
                    pixels@.len() == row * unpadded + i,
                    forall|k: int| 0 <= k < pixels@.len() ==> pixels@[k] == all[k],
                decreases unpadded - i,
            {
                proof {
                    lemma_fundamental_div_mod_converse(
                        row * unpadded + i,
                        unpadded as int,
                        row,
                        i as int,
                    );
                }
                pixels.push(bytes[start + i]);
                i = i + 1;
            }
            if bytes.len() - start <= padded {
                start = bytes.len();
            } else {
                start = start + padded;
            }
            proof {
                row = row + 1;
            }
        }
        pixels
    }
}

/// A row has four bytes for each pixel. The one multiple of 256 that holds them with less than 256
/// bytes to spare is the length of a padded row, and a texture can be captured exactly if such a row,
/// and all rows together, can be counted in a `u32`.
pub proof fn law_row_lengths(width: int, row: int)
    requires
        0 <= width,
        row % 256 == 0,
        4 * width <= row < 4 * width + 256,
    ensures
        row_bytes(width) == 4 * width,
        padded_row_bytes(width) == row,
        forall|height: int| #[trigger]
            capture_in_range(width, height) <==> row <= 0xffff_ffff && row * height <= 0xffff_ffff,
{
}

/// What is left of rows of any lengths: of each of the rows, the last of which may be short, its
/// first `unpadded` bytes as they are and nothing else.
pub proof fn law_unpadded_rows(
    bytes: Seq<u8>,
    padded: int,
    unpadded: int,
    rows: int,
    y: int,
    i: int,
)
    requires
        0 < unpadded <= padded,
        (rows - 1) * padded < bytes.len() <= rows * padded,
        0 <= y < rows,
        0 <= i < unpadded,
    ensures
        unpadded_rows(bytes, padded, unpadded).len() == rows * unpadded,
        0 <= y * unpadded + i < rows * unpadded,
        unpadded_rows(bytes, padded, unpadded)[y * unpadded + i] == bytes[y * padded + i],
{
    lemma_row_count(bytes.len() as int, padded, rows - 1);
    lemma_place(unpadded, rows, y, i);
    lemma_fundamental_div_mod_converse(y * unpadded + i, unpadded, y, i);
}

/// Nothing is left of no bytes, and nothing of rows without pixels.
pub proof fn law_nothing_left(bytes: Seq<u8>, padded: int, unpadded: int)
    requires
        0 < padded,
        0 <= unpadded,
        bytes.len() == 0 || unpadded == 0,
    ensures
        unpadded_rows(bytes, padded, unpadded).len() == 0,
{
    lemma_mul_by_zero_is_zero(unpadded);
    lemma_mul_by_zero_is_zero(row_count(bytes.len() as int, padded));
    if bytes.len() == 0 {
        lemma_fundamental_div_mod_converse(padded - 1, padded, 0, padded - 1);
    }
}

/// The padding can be removed from any number of whole rows followed by a part of one, as long as
/// that part is empty or has all its pixels.
pub proof fn law_divides(padding: BufferPadding, bytes: Seq<u8>, rows: int, rest: int)
    requires
        0 < padding.padded_bytes_per_row,
        padding.unpadded_bytes_per_row <= padding.padded_bytes_per_row,
        0 <= rows,
        0 <= rest < padding.padded_bytes_per_row,
        bytes.len() == rows * padding.padded_bytes_per_row + rest,
    ensures
        padding.divides(bytes) <==> rest == 0 || padding.unpadded_bytes_per_row <= rest,
{
    lemma_fundamental_div_mod_converse(
        bytes.len() as int,
        padding.padded_bytes_per_row as int,
        rows,
        rest,
    );
}

/// A padded row is aligned, holds its pixels, and is the shortest row of which this is true.
pub proof fn law_padding_is_least(width: int, other: int)
    requires
        0 <= width,
    ensures
        padded_row_bytes(width) % (ROW_ALIGNMENT as int) == 0,
        row_bytes(width) <= padded_row_bytes(width) < row_bytes(width) + ROW_ALIGNMENT,
        other % (ROW_ALIGNMENT as int) == 0 && row_bytes(width) <= other
            ==> padded_row_bytes(width) <= other,
{
}

/// The pixels of a copied texture are exactly as many as the texture has, and channel `c` of the
/// pixel in column `x` of row `y` is the byte that the copy put at that place of that row.
pub proof fn law_pixel_position(bytes: Seq<u8>, width: int, height: int, x: int, y: int, c: int)
    requires
        0 <= x < width,
        0 <= y < height,
        0 <= c < 4,
        bytes.len() == padded_row_bytes(width) * height,
    ensures
        unpadded_rows(bytes, padded_row_bytes(width), row_bytes(width)).len() == 4 * (width
            * height),
        0 <= (y * width + x) * 4 + c < 4 * (width * height),
        0 <= y * padded_row_bytes(width) + 4 * x + c < bytes.len(),
        unpadded_rows(bytes, padded_row_bytes(width), row_bytes(width))[(y * width + x) * 4 + c]
            == bytes[y * padded_row_bytes(width) + 4 * x + c],
{
    let padded = padded_row_bytes(width);
    let unpadded = row_bytes(width);
    law_padding_is_least(width, 0);
    lemma_whole_rows(padded, height);
    lemma_place(unpadded, height, y, 4 * x + c);
    lemma_place(padded, height, y, 4 * x + c);
    assert(y * unpadded == 4 * (y * width)) by (nonlinear_arith)
        requires
            unpadded == 4 * width,
    ;
    lemma_pixel_bytes(width, height);
    lemma_mul_is_commutative(padded, height);
    lemma_fundamental_div_mod_converse(y * unpadded + 4 * x + c, unpadded, y, 4 * x + c);
}

/// Taking the padding out of a copy gives back the texture: bytes whose rows start with the rows
/// of `pixels` yield `pixels`, whatever stands between the rows.
pub proof fn law_padding_round_trip(pixels: Seq<u8>, bytes: Seq<u8>, width: int, height: int)
    requires
        0 < width,
        0 <= height,
        pixels.len() == 4 * (width * height),
        bytes.len() == padded_row_bytes(width) * height,
        forall|y: int, i: int|
            0 <= y < height && 0 <= i < row_bytes(width) ==> #[trigger] bytes[y * padded_row_bytes(
                width,
            ) + i] == pixels[y * row_bytes(width) + i],
    ensures
        unpadded_rows(bytes, padded_row_bytes(width), row_bytes(width)) == pixels,
{
    let padded = padded_row_bytes(width);
    let unpadded = row_bytes(width);
    law_padding_is_least(width, 0);
    lemma_whole_rows(padded, height);
    lemma_mul_is_commutative(padded, height);
    lemma_pixel_bytes(width, height);
    let rows = unpadded_rows(bytes, padded, unpadded);
    assert forall|k: int| 0 <= k < pixels.len() implies rows[k] == pixels[k] by {
        let y = k / unpadded;
        let i = k % unpadded;
        lemma_fundamental_div_mod(k, unpadded);
        lemma_mul_is_commutative(unpadded, y);
        assert(0 <= y < height) by (nonlinear_arith)
            requires
                0 <= k < height * unpadded,
                k == y * unpadded + i,
                0 <= i < unpadded,
        ;
        assert(bytes[y * padded + i] == pixels[y * unpadded + i]);
    }
    assert(rows =~= pixels);
}

/// The copy of a texture takes a whole number of aligned rows.
pub(crate) proof fn lemma_capture_size(width: int, height: int)
    requires
        0 <= width,
        0 <= height,
    ensures
        0 <= padded_row_bytes(width),
        0 <= padded_row_bytes(width) * height,
        (padded_row_bytes(width) * height) % (ROW_ALIGNMENT as int) == 0,
        padded_row_bytes(width) == 0 <==> width == 0,
{
    let rows = (row_bytes(width) + ROW_ALIGNMENT - 1) / (ROW_ALIGNMENT as int);
    lemma_mul_nonnegative(padded_row_bytes(width), height);
    lemma_mul_is_associative(rows, ROW_ALIGNMENT as int, height);
    lemma_mul_is_commutative(ROW_ALIGNMENT as int, height);
    lemma_mul_is_associative(rows, height, ROW_ALIGNMENT as int);
    lemma_mod_multiples_basic(rows * height, ROW_ALIGNMENT as int);
}

/// The bytes of a copied texture are rows without a remainder, and as many as its height.
pub(crate) proof fn lemma_copied_rows(bytes: Seq<u8>, width: int, height: int)
    requires
        0 < width,
        0 <= height,
        bytes.len() == padded_row_bytes(width) * height,
    ensures
        row_bytes(width) <= padded_row_bytes(width),
        bytes.len() as int % padded_row_bytes(width) == 0,
        unpadded_rows(bytes, padded_row_bytes(width), row_bytes(width)).len() == 4 * (width
            * height),
{
    let padded = padded_row_bytes(width);
    let unpadded = row_bytes(width);
    lemma_whole_rows(padded, height);
    lemma_mul_is_commutative(padded, height);
    lemma_mod_multiples_basic(height, padded);
    lemma_pixel_bytes(width, height);
    lemma_mul_nonnegative(width, height);
}

/// The next multiple of the alignment, as it is computed from the remainder.
proof fn lemma_next_multiple(n: int)
    requires
        0 <= n,
    ensures
        n + (256 - n % 256) % 256 == (n + 255) / 256 * 256,
{
}

proof fn lemma_pixel_bytes(width: int, height: int)
    ensures
        height * row_bytes(width) == 4 * (width * height),
{
    assert(height * (4 * width) == 4 * (width * height)) by (nonlinear_arith);
}

proof fn lemma_whole_rows(padded: int, height: int)
    requires
        0 < padded,
        0 <= height,
    ensures
        row_count(padded * height, padded) == height,
{
    lemma_mul_is_commutative(padded, height);
    lemma_fundamental_div_mod_converse(
        padded * height + padded - 1,
        padded,
        height,
        padded - 1,
    );
}

proof fn lemma_place(row: int, height: int, y: int, i: int)
    requires
        0 <= y < height,
        0 <= i < row,
    ensures
        0 <= y * row + i < height * row,
{
    assert(0 <= y * row + i < height * row) by (nonlinear_arith)
        requires
            0 <= y < height,
            0 <= i < row,
    ;
}

} // verus!
