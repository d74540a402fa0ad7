//! Copying a rendered image into the window's pixel buffer.
//!
//! The image is a byte buffer of rows that are `stride` bytes apart, four bytes
//! to a pixel. The window's buffer holds one 32-bit word per pixel, row after
//! row without gaps.

use vstd::prelude::*;

verus! {

/// Bytes per pixel.
pub const PIXEL_BYTES: usize = 4;

/// Why bytes could not be read as 32-bit words.
#[derive(Clone, Copy, Debug, PartialEq, Eq)]
pub enum CastError {
    /// The bytes do not start at an address that a 32-bit word may have.
    Misaligned,
    /// The number of bytes is no multiple of four.
    PartialWord,
    /// A single value changed its size.
    SizeMismatch,
    /// An owned allocation changed its alignment.
    AlignmentMismatch,
}

/// The 32-bit word that the machine reads from the four bytes at `at`.
pub open spec fn word_at(bytes: Seq<u8>, at: int) -> u32 {
    let (b0, b1, b2, b3) = (
        bytes[at] as int,
        bytes[at + 1] as int,
        bytes[at + 2] as int,
        bytes[at + 3] as int,
    );
    match vstd::endian::endianness() {
        vstd::endian::Endian::Little => (b0 + 0x100 * b1 + 0x1_0000 * b2 + 0x100_0000 * b3) as u32,
        vstd::endian::Endian::Big => (b3 + 0x100 * b2 + 0x1_0000 * b1 + 0x100_0000 * b0) as u32,
    }
}

/// Whether `words` is what the machine reads from `bytes`, word by word.
pub open spec fn reads_as(bytes: Seq<u8>, words: Seq<u32>) -> bool {
    &&& bytes.len() == 4 * words.len()
    &&& forall|i: int| 0 <= i < words.len() ==> #[trigger] words[i] == word_at(bytes, 4 * i)
}

/// Calls `bytemuck::try_cast_slice::<u8, u32>`.
///
/// It is trusted that a successful cast shows the same memory as words in the
/// byte order of the machine, that a cast of a whole number of words fails for
/// misalignment alone, and that one of another number of bytes always fails.
/// Whether the bytes are aligned depends on their address and is left open.
#[verifier::external_body]
fn cast_words(bytes: &[u8]) -> (r: Result<&[u32], CastError>)
    ensures
        match r {
            Ok(words) => reads_as(bytes@, words@),
            Err(CastError::Misaligned) => true,
            Err(CastError::PartialWord) => bytes@.len() % 4 != 0,
            Err(_) => false,
        },
{
    match bytemuck::try_cast_slice::<u8, u32>(bytes) {
        Ok(words) => Ok(words),
        Err(bytemuck::PodCastError::TargetAlignmentGreaterAndInputNotAligned) => Err(CastError::Misaligned),
        Err(bytemuck::PodCastError::OutputSliceWouldHaveSlop) => Err(CastError::PartialWord),
        Err(bytemuck::PodCastError::SizeMismatch) => Err(CastError::SizeMismatch),
        Err(bytemuck::PodCastError::AlignmentMismatch) => Err(CastError::AlignmentMismatch),
    }
}

/// Replaces the words of `buffer` from `at` on by `source`.
pub fn place_words(buffer: &mut [u32], at: usize, source: &[u32])
    requires
        at + source@.len() <= old(buffer)@.len(),
    ensures
        final(buffer)@ == old(buffer)@.subrange(0, at as int) + source@
            + old(buffer)@.subrange(at + source@.len(), old(buffer)@.len() as int),
{
    let ghost before = buffer@;
    let count: usize = source.len();
    let total: usize = buffer.len();
    let mut i: usize = 0;
    while i < count
        invariant
            i <= count,
            count == source@.len(),
            at + count <= total,
            before.len() == total,
            buffer@.len() == total,
            forall|j: int| 0 <= j < before.len() ==> #[trigger] buffer@[j] == (if at <= j < at + i {
                source@[j - at]
            } else {
                before[j]
            }),
        decreases count - i,
    {
        buffer[at + i] = source[i];
        i = i + 1;
    }
    assert(buffer@ =~= before.subrange(0, at as int) + source@ + before.subrange(
        at + source@.len(),
        before.len() as int,
    ));
}

/// Takes the outcome of reading bytes as words: the words replace those of
/// `buffer` from `at` on, and a failure is handed on with the buffer as it was.
pub fn place_cast(buffer: &mut [u32], at: usize, cast: Result<&[u32], CastError>) -> (r: Result<
    (),
    CastError,
>)
    requires
        cast matches Ok(words) ==> at + words@.len() <= old(buffer)@.len(),
    ensures
        match cast {
            Ok(words) => r is Ok && final(buffer)@ == old(buffer)@.subrange(0, at as int) + words@
                + old(buffer)@.subrange(at + words@.len(), old(buffer)@.len() as int),
            Err(error) => r == Err::<(), CastError>(error) && final(buffer)@ == old(buffer)@,
        },
{
    match cast {
        Ok(words) => {
            place_words(buffer, at, words);
            Ok(())
        },
        Err(error) => Err(error),
    }
}

/// Whether these bytes were read as words and found misaligned. This is an
/// outcome of the call itself: nothing but the call shows it.
pub closed spec fn found_misaligned(bytes: Seq<u8>) -> bool {
    exists|slice: &[u8]| #[trigger]
        call_ensures(
            crate::frame::cast_words,
            (slice,),
            Err::<&[u32], CastError>(CastError::Misaligned),
        ) && slice@ == bytes
}

/// The bytes that are read as words once `rows` rows are copied: all of an image
/// without gaps between its rows, and the next row of any other.
pub open spec fn handed(data: Seq<u8>, width: int, height: int, stride: int, rows: int) -> Seq<u8> {
    if stride == 4 * width {
        data.subrange(0, height * stride)
    } else {
        data.subrange(rows * stride, rows * stride + 4 * width)
    }
}

/// The first `rows` rows of the image as the window shows them: pixel `i` of a
/// window that is `width` wide lies in row `i / width`, column `i % width`.
pub open spec fn frame_words(data: Seq<u8>, width: int, stride: int, rows: int) -> Seq<u32> {
    Seq::new(
        (rows * width) as nat,
        |i: int| word_at(data, (i / width) * stride + 4 * (i % width)),
    )
}

/// Whether `after` is `before` with its first `rows` rows taken from the image.
pub open spec fn rows_copied(
    before: Seq<u32>,
    after: Seq<u32>,
    data: Seq<u8>,
    width: int,
    stride: int,
    rows: int,
) -> bool {
    after == frame_words(data, width, stride, rows) + before.skip(rows * width)
}

/// Whether an image of `data_len` bytes holds `height` rows of `width` pixels
/// and a buffer of `buffer_len` words has room for them.
pub open spec fn fits(buffer_len: int, data_len: int, width: int, height: int, stride: int) -> bool {
    &&& 0 < width
    &&& 0 < height
    &&& width * height <= buffer_len
    &&& (height - 1) * stride + 4 * width <= data_len
}

/// Tells whether an image can be copied with `copy_frame`.
pub fn frame_fits(
    buffer_len: usize,
    data_len: usize,
    width: usize,
    height: usize,
    stride: usize,
) -> (r: bool)
    ensures
        r == fits(
            buffer_len as int,
            data_len as int,
            width as int,
            height as int,
            stride as int,
        ),
{
    if width == 0 || height == 0 {
        return false;
    }
    let pixels: usize = match width.checked_mul(height) {
        Some(pixels) => pixels,
        None => {
            return false;
        },
    };
    proof {
        vstd::arithmetic::mul::lemma_mul_nonnegative(height - 1, stride as int);
    }
    let skipped: usize = match (height - 1).checked_mul(stride) {
        Some(skipped) => skipped,
        None => {
            return false;
        },
    };
    let row: usize = match width.checked_mul(PIXEL_BYTES) {
        Some(row) => row,
        None => {
            return false;
        },
    };
    match skipped.checked_add(row) {
        Some(needed) => pixels <= buffer_len && needed <= data_len,
        None => false,
    }
}

/// The words of one row, set behind the rows above it, extend the copied image
/// by that row.
proof fn lemma_next_row(
    before: Seq<u32>,
    middle: Seq<u32>,
    after: Seq<u32>,
    data: Seq<u8>,
    row: Seq<u32>,
    width: int,
    stride: int,
    y: int,
)
    requires
        0 < width,
        0 <= y,
        0 <= stride,
        (y + 1) * width <= before.len(),
        y * stride + 4 * width <= data.len(),
        rows_copied(before, middle, data, width, stride, y),
        reads_as(data.subrange(y * stride, y * stride + 4 * width), row),
        after == middle.subrange(0, y * width) + row + middle.subrange(
            y * width + row.len(),
            middle.len() as int,
        ),
    ensures
        rows_copied(before, after, data, width, stride, y + 1),
{
    assert((y + 1) * width == y * width + width) by (nonlinear_arith);
    assert(0 <= y * width) by (nonlinear_arith)
        requires
            0 <= y,
            0 < width,
    ;
    assert(0 <= y * stride) by (nonlinear_arith)
        requires
            0 <= y,
            0 <= stride,
    ;
    let bytes = data.subrange(y * stride, y * stride + 4 * width);
    let target = frame_words(data, width, stride, y + 1) + before.skip((y + 1) * width);
    assert(row.len() == width);
    assert(middle.len() == before.len());
    assert forall|i: int| 0 <= i < after.len() implies #[trigger] after[i] == target[i] by {
        if i < y * width {
            assert(after[i] == middle[i]);
        } else if i < y * width + width {
            let x = i - y * width;
            vstd::arithmetic::div_mod::lemma_fundamental_div_mod_converse(i, width, y, x);
            assert(after[i] == row[x]);
            assert(row[x] == word_at(bytes, 4 * x));
            assert(bytes[4 * x] == data[y * stride + 4 * x]);
            assert(bytes[4 * x + 1] == data[y * stride + 4 * x + 1]);
            assert(bytes[4 * x + 2] == data[y * stride + 4 * x + 2]);
            assert(bytes[4 * x + 3] == data[y * stride + 4 * x + 3]);
        } else {
            assert(after[i] == middle[i]);
            assert(middle[i] == before[i]);
        }
    }
    assert(after =~= target);
}

/// Words that follow each other without gaps are the whole image.
proof fn lemma_whole_frame(
    before: Seq<u32>,
    after: Seq<u32>,
    data: Seq<u8>,
    words: Seq<u32>,
    width: int,
    height: int,
    stride: int,
)
    requires
        0 < width,
        0 < height,
        stride == 4 * width,
        height * width <= before.len(),
        height * stride <= data.len(),
        height * stride == 4 * (height * width),
        reads_as(data.subrange(0, height * stride), words),
        after == before.subrange(0, 0) + words + before.subrange(
            words.len() as int,
            before.len() as int,
        ),
    ensures
        rows_copied(before, after, data, width, stride, height),
{
    let bytes = data.subrange(0, height * stride);
    let target = frame_words(data, width, stride, height) + before.skip(height * width);
    assert forall|i: int| 0 <= i < after.len() implies #[trigger] after[i] == target[i] by {
        if i < height * width {
            vstd::arithmetic::div_mod::lemma_fundamental_div_mod(i, width);
            let (y, x) = (i / width, i % width);
            assert(y * stride + 4 * x == 4 * i) by (nonlinear_arith)
                requires
                    stride == 4 * width,
                    i == width * y + x,
            ;
            assert(words[i] == word_at(bytes, 4 * i));
            assert(bytes[4 * i] == data[4 * i]);
            assert(bytes[4 * i + 1] == data[4 * i + 1]);
            assert(bytes[4 * i + 2] == data[4 * i + 2]);
            assert(bytes[4 * i + 3] == data[4 * i + 3]);
        }
    }
    assert(after =~= target);
}

/// Copies an image of `height` rows of `width` pixels, whose rows are `stride`
/// bytes apart, to the front of `buffer`.
///
/// The only failure is that the bytes of the image, or of one of its rows, were
/// found not to be aligned for 32-bit words. The rows above are in the buffer by
/// then; an image without gaps between its rows is copied whole or not at all.
/// Whether bytes are aligned depends on their address, of which nothing is said.
pub fn copy_frame(
    buffer: &mut [u32],
    data: &[u8],
    width: usize,
    height: usize,
    stride: usize,
) -> (r: Result<(), CastError>)
    requires
        fits(
            old(buffer)@.len() as int,
            data@.len() as int,
            width as int,
            height as int,
            stride as int,
        ),
    ensures
        match r {
            Ok(()) => rows_copied(
                old(buffer)@,
                final(buffer)@,
                data@,
                width as int,
                stride as int,
                height as int,
            ),
            Err(error) => {
                &&& error == CastError::Misaligned
                &&& exists|rows: int|
                    0 <= rows < height && #[trigger] rows_copied(
                        old(buffer)@,
                        final(buffer)@,
                        data@,
                        width as int,
                        stride as int,
                        rows,
                    ) && found_misaligned(
                        handed(data@, width as int, height as int, stride as int, rows),
                    )
                &&& stride == 4 * width ==> final(buffer)@ == old(buffer)@
            },
        },
{
    let ghost before = buffer@;
    let total: usize = buffer.len();
    let bytes: usize = data.len();
    let ghost (w, h, s) = (width as int, height as int, stride as int);
    proof {
        vstd::arithmetic::mul::lemma_mul_is_commutative(w, h);
        vstd::arithmetic::mul::lemma_mul_nonnegative(h - 1, s);
        assert(before =~= frame_words(data@, w, s, 0) + before.skip(0 * w)) by {
            assert(0 * w == 0) by (nonlinear_arith);
        }
        assert(rows_copied(before, buffer@, data@, w, s, 0));
    }
    if stride == width * PIXEL_BYTES {
        proof {
            assert(h * s == (h - 1) * s + s) by (nonlinear_arith);
            assert(h * s == 4 * (h * w)) by (nonlinear_arith)
                requires
                    s == 4 * w,
            ;
        }
        let source: Result<&[u32], CastError> = cast_words(&data[0..height * stride]);
        place_cast(buffer, 0, source)?;
        proof {
            lemma_whole_frame(before, buffer@, data@, source->Ok_0@, w, h, s);
        }
    } else {
        let mut y: usize = 0;
        while y < height
            invariant
                y <= height,
                w == width,
                h == height,
                s == stride,
                fits(total as int, bytes as int, w, h, s),
                total == before.len(),
                bytes == data@.len(),
                stride != 4 * width,
                h * w == w * h,
                rows_copied(before, buffer@, data@, w, s, y as int),
                buffer@.len() == total,
                before == old(buffer)@,
            decreases height - y,
        {
            let ghost k = y as int;
            let ghost middle = buffer@;
            proof {
                assert(k * s <= (h - 1) * s) by (nonlinear_arith)
                    requires
                        k <= h - 1,
                        0 <= s,
                ;
                assert(0 <= k * s) by (nonlinear_arith)
                    requires
                        0 <= k,
                        0 <= s,
                ;
                assert((k + 1) * w <= h * w) by (nonlinear_arith)
                    requires
                        k + 1 <= h,
                        0 <= w,
                ;
                assert((k + 1) * w == k * w + w) by (nonlinear_arith);
                assert(0 <= k * w) by (nonlinear_arith)
                    requires
                        0 <= k,
                        0 < w,
                ;
            }
            let start: usize = y * stride;
            let source: Result<&[u32], CastError> = cast_words(
                &data[start..start + width * PIXEL_BYTES],
            );
            place_cast(buffer, y * width, source)?;
            proof {
                lemma_next_row(before, middle, buffer@, data@, source->Ok_0@, w, s, k);
            }
            y = y + 1;
        }
    }
    Ok(())
}

/// Byte `k` of row `y` of an image.
pub open spec fn row_byte(data: Seq<u8>, stride: int, y: int, k: int) -> u8 {
    data[y * stride + k]
}

/// Whether two images, each with its own distance between rows, hold the same
/// bytes wherever a pixel of the first `rows` rows lies.
pub open spec fn same_pixels(
    a: Seq<u8>,
    a_stride: int,
    b: Seq<u8>,
    b_stride: int,
    width: int,
    rows: int,
) -> bool {
    forall|y: int, k: int|
        0 <= y < rows && 0 <= k < 4 * width ==> #[trigger] row_byte(a, a_stride, y, k) == row_byte(
            b,
            b_stride,
            y,
            k,
        )
}

/// The pixel in column `x` of row `y` of the window is read from the four bytes
/// that lie `4 * x` bytes into row `y` of the image.
pub proof fn law_pixel_position(data: Seq<u8>, width: int, stride: int, rows: int, x: int, y: int)
    requires
        0 <= x < width,
        0 <= y < rows,
    ensures
        0 <= y * width + x < rows * width,
        frame_words(data, width, stride, rows)[y * width + x] == word_at(data, y * stride + 4 * x),
{
    assert(0 <= y * width + x < rows * width) by (nonlinear_arith)
        requires
            0 <= x < width,
            0 <= y < rows,
    ;
    vstd::arithmetic::div_mod::lemma_fundamental_div_mod_converse(y * width + x, width, y, x);
}

/// The frame depends on the pixels alone, not on how far apart the rows lie: an
/// image without gaps between its rows and one with gaps give the same frame if
/// they agree on their pixels.
pub proof fn law_frame_depends_on_pixels_alone(
    a: Seq<u8>,
    a_stride: int,
    b: Seq<u8>,
    b_stride: int,
    width: int,
    rows: int,
)
    requires
        0 < width,
        0 <= rows,
        same_pixels(a, a_stride, b, b_stride, width, rows),
    ensures
        frame_words(a, width, a_stride, rows) == frame_words(b, width, b_stride, rows),
{
    let (f, g) = (frame_words(a, width, a_stride, rows), frame_words(b, width, b_stride, rows));
    assert forall|i: int| 0 <= i < f.len() implies #[trigger] f[i] == g[i] by {
        let (y, x) = (i / width, i % width);
        vstd::arithmetic::div_mod::lemma_fundamental_div_mod(i, width);
        vstd::arithmetic::div_mod::lemma_mod_bound(i, width);
        vstd::arithmetic::div_mod::lemma_div_pos_is_pos(i, width);
        assert(y < rows) by (nonlinear_arith)
            requires
                i == width * y + x,
                0 <= x,
                0 < width,
                i < rows * width,
        ;
        assert(row_byte(a, a_stride, y, 4 * x) == row_byte(b, b_stride, y, 4 * x));
        assert(row_byte(a, a_stride, y, 4 * x + 1) == row_byte(b, b_stride, y, 4 * x + 1));
        assert(row_byte(a, a_stride, y, 4 * x + 2) == row_byte(b, b_stride, y, 4 * x + 2));
        assert(row_byte(a, a_stride, y, 4 * x + 3) == row_byte(b, b_stride, y, 4 * x + 3));
    }
    assert(f =~= g);
}

/// What lies between the end of one row and the start of the next is never
/// shown: images of one stride that agree on their pixels give the same frame.
pub proof fn law_padding_is_not_shown(
    a: Seq<u8>,
    b: Seq<u8>,
    width: int,
    stride: int,
    rows: int,
)
    requires
        0 < width,
        0 <= rows,
        same_pixels(a, stride, b, stride, width, rows),
    ensures
        frame_words(a, width, stride, rows) == frame_words(b, width, stride, rows),
{
    law_frame_depends_on_pixels_alone(a, stride, b, stride, width, rows);
}

/// Whether the pixel in column `x` of row `y` has its four bytes in the image and
/// its word in the buffer.
pub open spec fn pixel_has_room(
    buffer_len: int,
    data_len: int,
    width: int,
    stride: int,
    x: int,
    y: int,
) -> bool {
    y * stride + 4 * x + 4 <= data_len && y * width + x < buffer_len
}

/// An image fits exactly where every pixel that is shown has its four bytes in
/// the image and its word in the buffer.
pub proof fn law_fitting_means_room_for_every_pixel(
    buffer_len: int,
    data_len: int,
    width: int,
    height: int,
    stride: int,
)
    requires
        0 < width,
        0 < height,
        0 <= stride,
    ensures
        fits(buffer_len, data_len, width, height, stride) <==> forall|x: int, y: int|
            0 <= x < width && 0 <= y < height ==> #[trigger] pixel_has_room(
                buffer_len,
                data_len,
                width,
                stride,
                x,
                y,
            ),
{
    if fits(buffer_len, data_len, width, height, stride) {
        assert forall|x: int, y: int|
            0 <= x < width && 0 <= y < height implies #[trigger] pixel_has_room(
            buffer_len,
            data_len,
            width,
            stride,
            x,
            y,
        ) by {
            assert(y * stride <= (height - 1) * stride) by (nonlinear_arith)
                requires
                    y <= height - 1,
                    0 <= stride,
            ;
            assert(y * width + x < width * height) by (nonlinear_arith)
                requires
                    0 <= x < width,
                    y <= height - 1,
            ;
        }
    }
    if forall|x: int, y: int|
        0 <= x < width && 0 <= y < height ==> #[trigger] pixel_has_room(
            buffer_len,
            data_len,
            width,
            stride,
            x,
            y,
        ) {
        let (x, y) = (width - 1, height - 1);
        assert(pixel_has_room(buffer_len, data_len, width, stride, x, y));
        assert(y * width + x == width * height - 1) by (nonlinear_arith)
            requires
                x == width - 1,
                y == height - 1,
        ;
    }
}

/// An image is told to fit exactly where it has pixels and all of them have room.
pub proof fn law_fit_is_told(
    buffer_len: usize,
    data_len: usize,
    width: usize,
    height: usize,
    stride: usize,
    told: bool,
)
    requires
        call_ensures(frame_fits, (buffer_len, data_len, width, height, stride), told),
    ensures
        told <==> width > 0 && height > 0 && (forall|x: int, y: int|
            0 <= x < width && 0 <= y < height ==> #[trigger] pixel_has_room(
                buffer_len as int,
                data_len as int,
                width as int,
                stride as int,
                x,
                y,
            )),
{
    if width > 0 && height > 0 {
        law_fitting_means_room_for_every_pixel(
            buffer_len as int,
            data_len as int,
            width as int,
            height as int,
            stride as int,
        );
    }
}

/// After the rows are copied every pixel of them stands at its place in the
/// buffer, and every word behind them is as it was.
pub proof fn law_copied_rows_and_nothing_else(
    before: Seq<u32>,
    after: Seq<u32>,
    data: Seq<u8>,
    width: int,
    stride: int,
    rows: int,
    x: int,
    y: int,
    behind: int,
)
    requires
        0 < width,
        0 <= rows,
        rows * width <= before.len(),
        rows_copied(before, after, data, width, stride, rows),
    ensures
        after.len() == before.len(),
        0 <= x < width && 0 <= y < rows ==> after[y * width + x] == word_at(
            data,
            y * stride + 4 * x,
        ),
        rows * width <= behind < before.len() ==> after[behind] == before[behind],
{
    assert(0 <= rows * width) by (nonlinear_arith)
        requires
            0 <= rows,
            0 < width,
    ;
    if 0 <= x < width && 0 <= y < rows {
        law_pixel_position(data, width, stride, rows, x, y);
    }
}

/// The digits of a number of four digits to the base 256.
proof fn lemma_four_digits(a: int, b: int, c: int, d: int)
    requires
        0 <= a < 0x100,
        0 <= b < 0x100,
        0 <= c < 0x100,
        0 <= d < 0x100,
    ensures
        ({
            let n = a + 0x100 * b + 0x1_0000 * c + 0x100_0000 * d;
            &&& n % 0x100 == a
            &&& n / 0x100 % 0x100 == b
            &&& n / 0x1_0000 % 0x100 == c
            &&& n / 0x100_0000 == d
        }),
{
    let n = a + 0x100 * b + 0x1_0000 * c + 0x100_0000 * d;
    assert(n / 0x100 == b + 0x100 * c + 0x1_0000 * d);
    assert(n / 0x1_0000 == c + 0x100 * d);
}

/// A word holds the four bytes that it was read from, in the byte order of the
/// machine.
pub proof fn law_word_holds_its_bytes(bytes: Seq<u8>, at: int)
    ensures
        ({
            let word = word_at(bytes, at) as int;
            let (p0, p1, p2, p3) = (
                word % 0x100,
                word / 0x100 % 0x100,
                word / 0x1_0000 % 0x100,
                word / 0x100_0000,
            );
            match vstd::endian::endianness() {
                vstd::endian::Endian::Little => p0 == bytes[at] && p1 == bytes[at + 1] && p2
                    == bytes[at + 2] && p3 == bytes[at + 3],
                vstd::endian::Endian::Big => p3 == bytes[at] && p2 == bytes[at + 1] && p1
                    == bytes[at + 2] && p0 == bytes[at + 3],
            }
        }),
{
    let (b0, b1, b2, b3) = (
        bytes[at] as int,
        bytes[at + 1] as int,
        bytes[at + 2] as int,
        bytes[at + 3] as int,
    );
    lemma_four_digits(b0, b1, b2, b3);
    lemma_four_digits(b3, b2, b1, b0);
}

/// Words that are placed stand where they were put, in order, and every other
/// word of the buffer is as it was.
pub proof fn law_placed_words_and_nothing_else(
    buffer: &mut [u32],
    at: usize,
    source: &[u32],
    i: int,
)
    requires
        at + source@.len() <= old(buffer)@.len(),
        call_ensures(place_words, (buffer, at, source), ()),
    ensures
        final(buffer)@.len() == old(buffer)@.len(),
        0 <= i < source@.len() ==> final(buffer)@[at + i] == source@[i],
        0 <= i < at ==> final(buffer)@[i] == old(buffer)@[i],
        at + source@.len() <= i < old(buffer)@.len() ==> final(buffer)@[i] == old(buffer)@[i],
{
}

/// A failure to read words is handed on as it is and leaves the buffer alone.
pub proof fn law_failed_cast_changes_nothing(
    buffer: &mut [u32],
    at: usize,
    error: CastError,
    r: Result<(), CastError>,
)
    requires
        call_ensures(place_cast, (buffer, at, Err::<&[u32], CastError>(error)), r),
    ensures
        r == Err::<(), CastError>(error),
        final(buffer)@ == old(buffer)@,
{
}

/// An image that was copied shows every pixel in its row and column, and leaves
/// the words behind its last pixel as they were.
pub proof fn law_copied_image_shows_every_pixel(
    buffer: &mut [u32],
    data: &[u8],
    width: usize,
    height: usize,
    stride: usize,
    x: int,
    y: int,
    behind: int,
)
    requires
        fits(
            old(buffer)@.len() as int,
            data@.len() as int,
            width as int,
            height as int,
            stride as int,
        ),
        call_ensures(copy_frame, (buffer, data, width, height, stride), Ok::<(), CastError>(())),
    ensures
        final(buffer)@.len() == old(buffer)@.len(),
        0 <= x < width && 0 <= y < height ==> final(buffer)@[y * width + x] == word_at(
            data@,
            y * stride + 4 * x,
        ),
        width * height <= behind < old(buffer)@.len() ==> final(buffer)@[behind]
            == old(buffer)@[behind],
{
    vstd::arithmetic::mul::lemma_mul_is_commutative(width as int, height as int);
    law_copied_rows_and_nothing_else(
        old(buffer)@,
        final(buffer)@,
        data@,
        width as int,
        stride as int,
        height as int,
        x,
        y,
        behind,
    );
}

} // verus!
