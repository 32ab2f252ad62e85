//! Packed 24-bit pixel buffers, their rows and their byte order.
//!
//! The platform hands an image over row by row, each row padded to a multiple
//! of four bytes, and each pixel as blue, green, red. The canonical buffer
//! holds the rows without padding and each pixel as red, green, blue.
//! Dropping the padding packs the rows; exchanging the first and third byte
//! of every whole pixel turns one byte order into the other.

use vstd::prelude::*;
use vstd::arithmetic::div_mod::lemma_fundamental_div_mod_converse;

verus! {

/// Bytes per pixel of a packed buffer.
pub const BYTES_PER_PIXEL: usize = 3;

/// Number of bytes of a packed row-major image of the given size.
pub open spec fn packed_len(width: int, height: int) -> int {
    width * height * 3
}

/// Number of bytes of one row as the platform hands it over: three for each
/// pixel, and padding up to the next multiple of four.
pub open spec fn row_stride(width: int) -> int {
    (3 * width + 3) / 4 * 4
}

/// Number of bytes of an image of the given size as the platform hands it
/// over.
pub open spec fn padded_len(width: int, height: int) -> int {
    row_stride(width) * height
}

/// The rows of an image of the given size without their padding.
pub open spec fn packed_rows(rows: Seq<u8>, width: int, height: int) -> Seq<u8> {
    Seq::new(
        packed_len(width, height) as nat,
        |i: int| rows[i / (3 * width) * row_stride(width) + i % (3 * width)],
    )
}

/// Position, before the exchange, of the byte that stands at `i` after it, in
/// a buffer of `len` bytes. Bytes past the last whole pixel stay in place.
pub open spec fn exchanged_index(i: int, len: int) -> int {
    if i >= len - len % 3 {
        i
    } else if i % 3 == 0 {
        i + 2
    } else if i % 3 == 2 {
        i - 2
    } else {
        i
    }
}

/// The buffer with the first and third byte of every whole pixel exchanged.
pub open spec fn swap_red_blue(bytes: Seq<u8>) -> Seq<u8> {
    Seq::new(bytes.len(), |i: int| bytes[exchanged_index(i, bytes.len() as int)])
}

/// The exchange moves bytes only within the buffer, and only within a pixel.
pub proof fn lemma_exchanged_index_in_range(i: int, len: int)
    requires
        0 <= i < len,
    ensures
        0 <= exchanged_index(i, len) < len,
        exchanged_index(i, len) / 3 == i / 3,
{
}

/// Exchanging red and blue twice gives every byte back: the byte-order
/// normalisation is its own inverse, on buffers of any length.
pub proof fn lemma_swap_red_blue_involution(bytes: Seq<u8>)
    ensures
        swap_red_blue(swap_red_blue(bytes)) == bytes,
{
    let once = swap_red_blue(bytes);
    let twice = swap_red_blue(once);
    let len = bytes.len() as int;
    assert forall|i: int| 0 <= i < len implies twice[i] == bytes[i] by {
        let j = exchanged_index(i, len);
        lemma_exchanged_index_in_range(i, len);
        assert(exchanged_index(j, len) == i);
        assert(twice[i] == once[j]);
        assert(once[j] == bytes[exchanged_index(j, len)]);
    }
    assert(twice =~= bytes);
}

/// The exchange keeps the length and the green byte of every pixel, and
/// trades red for blue.
pub proof fn lemma_swap_red_blue_pixels(bytes: Seq<u8>, p: int)
    requires
        0 <= p,
        3 * p + 3 <= bytes.len(),
    ensures
        swap_red_blue(bytes).len() == bytes.len(),
        swap_red_blue(bytes)[3 * p] == bytes[3 * p + 2],
        swap_red_blue(bytes)[3 * p + 1] == bytes[3 * p + 1],
        swap_red_blue(bytes)[3 * p + 2] == bytes[3 * p],
{
}

/// A row is padded by fewer than four bytes, and an image of one pixel or
/// more takes no fewer bytes padded than packed.
pub proof fn lemma_row_stride_bounds(width: int, height: int)
    requires
        0 < width,
        0 < height,
    ensures
        3 * width <= row_stride(width) < 3 * width + 4,
        row_stride(width) % 4 == 0,
        packed_len(width, height) == (3 * width) * height,
        packed_len(width, height) <= padded_len(width, height),
        row_stride(width) <= padded_len(width, height),
{
    let line = 3 * width;
    let stride = row_stride(width);
    assert(line <= stride < line + 4 && stride % 4 == 0);
    assert(line * height <= stride * height && stride <= stride * height) by (nonlinear_arith)
        requires
            0 <= line <= stride,
            0 < height,
    ;
    assert(width * height * 3 == (3 * width) * height) by (nonlinear_arith);
}

/// Row `row` of `height` rows of `stride` bytes each lies inside a buffer of
/// `stride * height` bytes.
proof fn lemma_row_fits(row: int, height: int, stride: int)
    by (nonlinear_arith)
    requires
        0 <= row < height,
        0 <= stride,
    ensures
        0 <= row * stride,
        row * stride + stride <= stride * height,
        (row + 1) * stride == row * stride + stride,
{
}

/// Byte `column` of row `row` stands at `row * stride + column` in the
/// padded buffer and at `row * 3 * width + column` in the packed one.
pub proof fn lemma_packed_rows_at(rows: Seq<u8>, width: int, height: int, row: int, column: int)
    requires
        0 < width,
        0 <= row < height,
        0 <= column < 3 * width,
    ensures
        0 <= row * (3 * width) + column < packed_rows(rows, width, height).len(),
        packed_rows(rows, width, height)[row * (3 * width) + column] == rows[row * row_stride(
            width,
        ) + column],
{
    let line = 3 * width;
    lemma_fundamental_div_mod_converse(row * line + column, line, row, column);
    lemma_row_fits(row, height, line);
    lemma_row_stride_bounds(width, height);
    assert(line * height == packed_len(width, height)) by (nonlinear_arith)
        requires
            packed_len(width, height) == (3 * width) * height,
            line == 3 * width,
    ;
}

/// Drops the padding of the rows of an image of the given size. There is a
/// result exactly if the image has an extent and the buffer holds its padded
/// rows, no byte more or less.
pub fn pack_rows(rows: &Vec<u8>, width: i32, height: i32) -> (packed: Option<Vec<u8>>)
    ensures
        packed is Some <==> width > 0 && height > 0 && rows@.len() == padded_len(
            width as int,
            height as int,
        ),
        packed matches Some(p) ==> p@ == packed_rows(rows@, width as int, height as int),
{
    if width <= 0 || height <= 0 {
        return None;
    }
    let line: u64 = 3 * (width as u64);
    let stride: u64 = (line + 3) / 4 * 4;
    proof {
        lemma_row_stride_bounds(width as int, height as int);
        assert(stride * height <= 0x1_8000_0004 * 0x7fff_ffff) by (nonlinear_arith)
            requires
                0 <= stride <= 0x1_8000_0004,
                0 < height <= 0x7fff_ffff,
        ;
    }
    if rows.len() as u64 != stride * (height as u64) {
        return None;
    }
    let line: usize = line as usize;
    let stride: usize = stride as usize;
    let rows_in_all: usize = height as usize;
    let ghost target = packed_rows(rows@, width as int, height as int);
    let mut packed: Vec<u8> = Vec::new();
    let mut row: usize = 0;
    assert(target.len() == line * rows_in_all) by (nonlinear_arith)
        requires
            target.len() == (3 * width) * height,
            line == 3 * width,
            rows_in_all == height,
    ;
    while row < rows_in_all
        invariant
            0 < width,
            0 < height,
            rows_in_all == height,
            line == 3 * width,
            stride == row_stride(width as int),
            line <= stride,
            rows@.len() == stride * rows_in_all,
            rows@.len() <= usize::MAX,
            row <= rows_in_all,
            target == packed_rows(rows@, width as int, height as int),
            target.len() == line * rows_in_all,
            packed@.len() == row * line,
            forall|i: int| 0 <= i < packed@.len() ==> packed@[i] == target[i],
        decreases rows_in_all - row,
    {
        proof {
            lemma_row_fits(row as int, rows_in_all as int, stride as int);
            lemma_row_fits(row as int, rows_in_all as int, line as int);
        }
        let start: usize = row * stride;
        let mut column: usize = 0;
        while column < line
            invariant
                0 < width,
                0 < height,
                rows_in_all == height,
                line == 3 * width,
                stride == row_stride(width as int),
                line <= stride,
                rows@.len() == stride * rows_in_all,
            rows@.len() <= usize::MAX,
                row < rows_in_all,
                start == row * stride,
                start + stride <= rows@.len(),
                column <= line,
                target == packed_rows(rows@, width as int, height as int),
                target.len() == line * rows_in_all,
                row * line + line <= line * rows_in_all,
                (row + 1) * line == row * line + line,
                packed@.len() == row * line + column,
                forall|i: int| 0 <= i < packed@.len() ==> packed@[i] == target[i],
            decreases line - column,
        {
            proof {
                lemma_packed_rows_at(
                    rows@,
                    width as int,
                    height as int,
                    row as int,
                    column as int,
                );
                assert(row * (3 * width) == row * line) by (nonlinear_arith)
                    requires
                        line == 3 * width,
                ;
            }
            packed.push(rows[start + column]);
            column = column + 1;
        }
        row = row + 1;
    }
    assert(packed@.len() == target.len()) by (nonlinear_arith)
        requires
            packed@.len() == row * line,
            row == rows_in_all,
            target.len() == line * rows_in_all,
    ;
    assert(packed@ =~= target);
    Some(packed)
}

/// Turns a buffer from the platform's blue-green-red layout into
/// red-green-blue, in place.
pub fn normalize_byte_order(data: &mut Vec<u8>)
    ensures
        final(data)@ == swap_red_blue(old(data)@),
{
    let ghost before = data@;
    let len = data.len();
    let mut i: usize = 0;
    while len - i >= BYTES_PER_PIXEL
        invariant
            i <= len,
            i % 3 == 0,
            data.len() == len,
            before.len() == len,
            forall|j: int| 0 <= j < i ==> data@[j] == before[exchanged_index(j, len as int)],
            forall|j: int| i <= j < len ==> data@[j] == before[j],
        decreases len - i,
    {
        let blue = data[i];
        let red = data[i + 2];
        data.set(i, red);
        data.set(i + 2, blue);
        i = i + BYTES_PER_PIXEL;
    }
    assert(data@ =~= swap_red_blue(before));
}

} // verus!
