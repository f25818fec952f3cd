use vstd::prelude::*;
use vstd::arithmetic::power2::{lemma2_to64, pow2};

verus! {

// The image data of an ICO entry is either a PNG file or a BMP without its
// file header: a 40-byte BITMAPINFOHEADER, a colour table of four bytes per
// colour, then the pixel rows from the bottom up, each padded to four bytes.
// An image of 1, 4 or 8 bits per pixel holds indices into the colour table;
// the header may declare fewer colours than such an index can reach.

/// The little-endian 16-bit number at `o`.
pub open spec fn le_u16(d: Seq<u8>, o: int) -> int {
    d[o] + 256 * d[o + 1]
}

/// The little-endian 32-bit number at `o`.
pub open spec fn le_u32(d: Seq<u8>, o: int) -> int {
    d[o] + 256 * d[o + 1] + 65536 * d[o + 2] + 16777216 * d[o + 3]
}

/// The data starts with the PNG signature (`\x89PNG`).
pub open spec fn is_png_data(d: Seq<u8>) -> bool {
    d.len() >= 4 && d[0] == 0x89 && d[1] == 0x50 && d[2] == 0x4e && d[3] == 0x47
}

/// The width that the header gives.
pub open spec fn bmp_width(d: Seq<u8>) -> int {
    le_u32(d, 4)
}

/// The height that the header gives: the stored height counts the rows of
/// the colour data and of the alpha mask, so it is halved.
pub open spec fn bmp_height(d: Seq<u8>) -> int {
    le_u32(d, 8) / 2
}

/// The bits per pixel.
pub open spec fn bmp_bpp(d: Seq<u8>) -> int {
    le_u16(d, 14)
}

/// How many colours an index of `bpp` bits can reach.
pub open spec fn max_colors(bpp: int) -> int {
    if bpp == 1 {
        2
    } else if bpp == 4 {
        16
    } else {
        256
    }
}

/// The colours in the table: those declared, or all an index can reach
/// where none or too many are declared.
pub open spec fn bmp_num_colors(d: Seq<u8>) -> int {
    let declared = le_u32(d, 32);
    if declared == 0 || declared > max_colors(bmp_bpp(d)) {
        max_colors(bmp_bpp(d))
    } else {
        declared
    }
}

/// The header is one that decoding reads past: a 40-byte header, a width of
/// at least one and a stored height of at least two that is even (both as
/// positive 32-bit signed numbers), 1, 4 or 8 bits per pixel, the whole
/// colour table present, and at most 8192 * 8192 pixels.
pub open spec fn bmp_indexed_header(d: Seq<u8>) -> bool {
    &&& d.len() >= 40
    &&& le_u32(d, 0) == 40
    &&& 1 <= bmp_width(d) <= 0x7fff_ffff
    &&& 2 <= le_u32(d, 8) <= 0x7fff_ffff
    &&& le_u32(d, 8) % 2 == 0
    &&& (bmp_bpp(d) == 1 || bmp_bpp(d) == 4 || bmp_bpp(d) == 8)
    &&& 40 + 4 * bmp_num_colors(d) <= d.len()
    &&& bmp_width(d) * bmp_height(d) <= 0x400_0000
}

/// The bytes of one pixel row, before padding.
pub open spec fn row_bytes(width: int, bpp: int) -> int {
    (width * bpp + 7) / 8
}

/// The bytes of one pixel row, with padding to four bytes.
pub open spec fn row_stride(width: int, bpp: int) -> int {
    (row_bytes(width, bpp) + 3) / 4 * 4
}

/// Where the byte of the pixel in column `j` lies within its row.
pub open spec fn byte_in_row(bpp: int, j: int) -> int {
    if bpp == 8 {
        j
    } else if bpp == 4 {
        j / 2
    } else {
        j / 8
    }
}

/// The byte of the pixel at row `r` (counted from the first row stored)
/// and column `j`.
pub open spec fn pixel_pos(d: Seq<u8>, r: int, j: int) -> int {
    40 + 4 * bmp_num_colors(d) + r * row_stride(bmp_width(d), bmp_bpp(d)) + byte_in_row(bmp_bpp(d), j)
}

/// `2` to the power `k`, for `k` below eight.
pub open spec fn bit_weight(k: int) -> int {
    if k == 0 {
        1
    } else if k == 1 {
        2
    } else if k == 2 {
        4
    } else if k == 3 {
        8
    } else if k == 4 {
        16
    } else if k == 5 {
        32
    } else if k == 6 {
        64
    } else {
        128
    }
}

/// The colour index of the pixel in column `j`, taken from its byte `b`:
/// the whole byte, the high nibble first, or the highest bit first.
pub open spec fn pixel_index(bpp: int, b: u8, j: int) -> int {
    if bpp == 8 {
        b as int
    } else if bpp == 4 {
        if j % 2 == 0 {
            (b as int) / 16
        } else {
            (b as int) % 16
        }
    } else {
        ((b as int) / bit_weight(7 - j % 8)) % 2
    }
}

/// The pixel at row `r` and column `j` is present in the data and its index
/// lies beyond the colour table.
pub open spec fn bad_pixel(d: Seq<u8>, r: int, j: int) -> bool {
    &&& 0 <= r < bmp_height(d)
    &&& 0 <= j < bmp_width(d)
    &&& pixel_pos(d, r, j) < d.len()
    &&& pixel_index(bmp_bpp(d), d[pixel_pos(d, r, j)], j) >= bmp_num_colors(d)
}

/// Decoding this image data would look a colour up beyond the colour table:
/// a BMP whose header decoding gets past, with a pixel present in the data
/// whose index the table does not hold.
pub open spec fn bmp_reads_past_color_table(d: Seq<u8>) -> bool {
    &&& !is_png_data(d)
    &&& bmp_indexed_header(d)
    &&& exists|r: int, j: int| bad_pixel(d, r, j)
}

/// An index of `b` bits (1, 4 or 8) reaches `2^b` colours: whatever its
/// byte, the index of a pixel lies below `2^b`.
pub proof fn lemma_index_below_table_size(bpp: int, b: u8, j: int)
    requires
        bpp == 1 || bpp == 4 || bpp == 8,
        0 <= j,
    ensures
        0 <= pixel_index(bpp, b, j) < pow2(bpp as nat),
{
    lemma2_to64();
    if bpp == 1 {
        assert(bit_weight(7 - j % 8) >= 1);
    }
}

/// A BMP of 1, 4 or 8 bits per pixel whose colour table holds all `2^b`
/// colours (declared as 0, which stands for all, or as `2^b`) is never
/// flagged: every index it holds lies in its table, so a well-formed
/// indexed image is never refused.
pub proof fn lemma_full_table_never_flagged(d: Seq<u8>)
    requires
        bmp_bpp(d) == 1 || bmp_bpp(d) == 4 || bmp_bpp(d) == 8,
        le_u32(d, 32) == 0 || le_u32(d, 32) == pow2(bmp_bpp(d) as nat),
    ensures
        !bmp_reads_past_color_table(d),
{
    lemma2_to64();
    assert(bmp_num_colors(d) == pow2(bmp_bpp(d) as nat));
    assert forall|r: int, j: int| !bad_pixel(d, r, j) by {
        if 0 <= j && 0 <= pixel_pos(d, r, j) < d.len() {
            lemma_index_below_table_size(bmp_bpp(d), d[pixel_pos(d, r, j)], j);
        }
    }
}

fn read_u16(d: &[u8], o: usize) -> (r: u64)
    requires
        o + 2 <= d@.len(),
    ensures
        r == le_u16(d@, o as int),
{
    (d[o] as u64) + 256 * (d[o + 1] as u64)
}

fn read_u32(d: &[u8], o: usize) -> (r: u64)
    requires
        o + 4 <= d@.len(),
    ensures
        r == le_u32(d@, o as int),
{
    (d[o] as u64) + 256 * (d[o + 1] as u64) + 65536 * (d[o + 2] as u64) + 16777216 * (d[o + 3] as u64)
}

fn weight(k: u64) -> (r: u64)
    requires
        k < 8,
    ensures
        r == bit_weight(k as int),
{
    if k == 0 {
        1
    } else if k == 1 {
        2
    } else if k == 2 {
        4
    } else if k == 3 {
        8
    } else if k == 4 {
        16
    } else if k == 5 {
        32
    } else if k == 6 {
        64
    } else {
        128
    }
}

proof fn lemma_rows_grow(r1: int, r2: int, stride: int)
    requires
        0 <= r1 <= r2,
        0 <= stride,
    ensures
        r1 * stride <= r2 * stride,
{
    assert(r1 * stride <= r2 * stride) by (nonlinear_arith)
        requires
            0 <= r1 <= r2,
            0 <= stride,
    ;
}

proof fn lemma_byte_in_row_grows(bpp: int, j1: int, j2: int)
    requires
        bpp == 1 || bpp == 4 || bpp == 8,
        0 <= j1 <= j2,
    ensures
        byte_in_row(bpp, j1) <= byte_in_row(bpp, j2),
{
}

/// Whether decoding the image data `d` would look a colour up beyond the
/// colour table.
pub fn reads_past_color_table(d: &[u8]) -> (r: bool)
    ensures
        r == bmp_reads_past_color_table(d@),
{
    let len = d.len();
    if len >= 4 && d[0] == 0x89 && d[1] == 0x50 && d[2] == 0x4e && d[3] == 0x47 {
        return false;
    }
    if len < 40 {
        return false;
    }
    if read_u32(d, 0) != 40 {
        return false;
    }
    let w = read_u32(d, 4);
    if w < 1 || w > 0x7fff_ffff {
        return false;
    }
    let stored_h = read_u32(d, 8);
    if stored_h < 2 || stored_h > 0x7fff_ffff || stored_h % 2 != 0 {
        return false;
    }
    let h = stored_h / 2;
    let bpp = read_u16(d, 14);
    if bpp != 1 && bpp != 4 && bpp != 8 {
        return false;
    }
    let max: u64 = if bpp == 1 {
        2
    } else if bpp == 4 {
        16
    } else {
        256
    };
    let declared = read_u32(d, 32);
    let nc = if declared == 0 || declared > max {
        max
    } else {
        declared
    };
    assert(nc == bmp_num_colors(d@));
    if 40 + 4 * nc > len as u64 {
        return false;
    }
    assert(w * h <= 0x7fff_ffff * 0x7fff_ffff) by (nonlinear_arith)
        requires
            w <= 0x7fff_ffff,
            h <= 0x7fff_ffff,
    ;
    if w * h > 0x400_0000 {
        return false;
    }
    assert(bmp_indexed_header(d@));
    assert(w <= 0x400_0000) by (nonlinear_arith)
        requires
            w * h <= 0x400_0000,
            h >= 1,
            w >= 1,
    ;
    let stride = ((w * bpp + 7) / 8 + 3) / 4 * 4;
    assert(stride == row_stride(bmp_width(d@), bmp_bpp(d@)));
    assert(stride >= 4);
    let start = 40 + 4 * nc;
    let mut row: u64 = 0;
    let mut base: u64 = start;
    let ghost mut row_start: int = start as int;
    let mut more = base < len as u64;
    while more && row < h
        invariant
            len == d@.len(),
            bmp_indexed_header(d@),
            w == bmp_width(d@),
            w <= 0x400_0000,
            h == bmp_height(d@),
            bpp == bmp_bpp(d@),
            nc == bmp_num_colors(d@),
            stride == row_stride(bmp_width(d@), bmp_bpp(d@)),
            4 <= stride,
            start == 40 + 4 * nc,
            row <= h,
            row_start == start + row * stride,
            more ==> base == row_start && base < len,
            !more ==> row_start >= len,
            forall|r: int, j: int| 0 <= r < row ==> !bad_pixel(d@, r, j),
        decreases h - row,
    {
        let mut col: u64 = 0;
        while col < w
            invariant
                len == d@.len(),
                bmp_indexed_header(d@),
                w == bmp_width(d@),
                w <= 0x400_0000,
                h == bmp_height(d@),
                bpp == bmp_bpp(d@),
                nc == bmp_num_colors(d@),
                stride == row_stride(bmp_width(d@), bmp_bpp(d@)),
                start == 40 + 4 * nc,
                row < h,
                base == start + row * stride,
                base < len,
                col <= w,
                forall|j: int| 0 <= j < col ==> !bad_pixel(d@, row as int, j),
            ensures
                forall|j: int| 0 <= j < w ==> !bad_pixel(d@, row as int, j),
            decreases w - col,
        {
            let offset = if bpp == 8 {
                col
            } else if bpp == 4 {
                col / 2
            } else {
                col / 8
            };
            assert(base + offset == pixel_pos(d@, row as int, col as int));
            if offset >= len as u64 - base {
                proof {
                    assert forall|j: int| 0 <= j < w implies !bad_pixel(d@, row as int, j) by {
                        if j >= col {
                            lemma_byte_in_row_grows(bpp as int, col as int, j);
                        }
                    }
                }
                break;
            }
            let pos = base + offset;
            let b = d[pos as usize];
            let index: u64 = if bpp == 8 {
                b as u64
            } else if bpp == 4 {
                if col % 2 == 0 {
                    (b / 16) as u64
                } else {
                    (b % 16) as u64
                }
            } else {
                ((b as u64) / weight(7 - col % 8)) % 2
            };
            assert(index == pixel_index(bpp as int, b, col as int));
            if index >= nc {
                assert(bad_pixel(d@, row as int, col as int));
                return true;
            }
            col = col + 1;
        }
        assert forall|r: int, j: int| 0 <= r < row + 1 implies !bad_pixel(d@, r, j) by {
            if r < row {
            } else if 0 <= j < w {
            }
        }
        assert((row + 1) * stride == row * stride + stride) by (nonlinear_arith);
        proof {
            row_start = row_start + stride;
        }
        if stride >= len as u64 - base {
            more = false;
        } else {
            base = base + stride;
        }
        row = row + 1;
    }
    proof {
        assert forall|r: int, j: int| !bad_pixel(d@, r, j) by {
            if 0 <= r && r >= row && r < h && 0 <= j < w {
                lemma_rows_grow(row as int, r, stride as int);
                lemma_byte_in_row_grows(bpp as int, 0, j);
            }
        }
    }
    false
}

} // verus!
