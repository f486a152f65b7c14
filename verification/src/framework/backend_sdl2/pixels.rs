//! The upload of an image into the locked pixels of a texture, whose
//! rows may be longer than those of the image.

use vstd::arithmetic::div_mod::{lemma_fundamental_div_mod, lemma_fundamental_div_mod_converse};
use vstd::prelude::*;
use vstd::slice::SliceAdditionalSpecFns;

verus! {

/// Whether byte `i` of a pixel buffer is written once the first `rows`
/// rows of an image and the first `cols` pixels of the row after them are
/// uploaded. A row of the buffer is `pitch` bytes long, and the image takes
/// the first four times `width` bytes of it.
pub open spec fn image_byte(i: int, pitch: int, width: int, rows: int, cols: int) -> bool {
    &&& pitch > 0
    &&& 0 <= i
    &&& (i / pitch < rows && i % pitch < 4 * width) || (i / pitch == rows && i % pitch < 4 * cols)
}

/// The buffer after the upload of the first `rows` rows of an image and
/// of the first `cols` pixels of the next row. The image is `data`, its
/// rows one after the other without a gap. Bytes that are not the image's
/// stay as they were.
pub open spec fn partly_uploaded(
    before: Seq<u8>,
    pitch: int,
    width: int,
    rows: int,
    cols: int,
    data: Seq<u8>,
) -> Seq<u8> {
    Seq::new(
        before.len(),
        |i: int|
            if image_byte(i, pitch, width, rows, cols) {
                data[4 * ((i / pitch) * width) + i % pitch]
            } else {
                before[i]
            },
    )
}

/// The buffer after the upload of an image of `height` rows.
pub open spec fn uploaded(
    before: Seq<u8>,
    pitch: int,
    width: int,
    height: int,
    data: Seq<u8>,
) -> Seq<u8> {
    partly_uploaded(before, pitch, width, height, 0, data)
}

/// The image that a pixel buffer holds, its rows one after the other
/// without a gap.
pub open spec fn read_back(buffer: Seq<u8>, pitch: int, width: int, height: int) -> Seq<u8> {
    Seq::new(
        (4 * width * height) as nat,
        |j: int| buffer[(j / (4 * width)) * pitch + j % (4 * width)],
    )
}

/// Whether a buffer of `len` bytes has room for an image: a row of the
/// buffer holds a row of the image, and the last row of the image ends
/// within the buffer.
pub open spec fn image_fits(len: int, pitch: int, width: int, height: int) -> bool {
    &&& 4 * width <= pitch
    &&& width > 0 && height > 0 ==> (height - 1) * pitch + 4 * width <= len
}

/// Tests whether an image of `width` by `height` pixels, given as
/// `data_len` bytes, can be uploaded into a buffer of `buffer_len` bytes
/// whose rows are `pitch` bytes long.
pub fn can_upload(
    buffer_len: usize,
    pitch: usize,
    width: usize,
    height: usize,
    data_len: usize,
) -> (ok: bool)
    ensures
        ok == (image_fits(buffer_len as int, pitch as int, width as int, height as int)
            && 4 * (height * width) <= data_len),
{
    let row: usize = match width.checked_mul(4) {
        Some(row) => row,
        None => {
            return false;
        },
    };
    if row > pitch {
        return false;
    }
    if width > 0 && height > 0 {
        match (height - 1).checked_mul(pitch) {
            Some(rows) => {
                if rows > buffer_len || row > buffer_len - rows {
                    return false;
                }
            },
            None => {
                return false;
            },
        }
    }
    match height.checked_mul(width) {
        Some(pixels) => match pixels.checked_mul(4) {
            Some(bytes) => bytes <= data_len,
            None => false,
        },
        None => {
            assert(4 * (height * width) >= height * width) by (nonlinear_arith);
            false
        },
    }
}

proof fn lemma_row_begin(row: int, rows: int, length: int)
    by (nonlinear_arith)
    requires
        0 <= row < rows,
        0 <= length,
    ensures
        0 <= row * length <= (rows - 1) * length,
        row * length + length <= rows * length,
{
}

/// Copies an image of four bytes to the pixel into the locked pixels of a
/// texture, row by row. Bytes of the buffer beyond the image's part of a
/// row stay as they are.
pub fn upload_pixels(buffer: &mut [u8], pitch: usize, width: usize, height: usize, data: &[u8])
    requires
        image_fits(old(buffer)@.len() as int, pitch as int, width as int, height as int),
        4 * (height * width) <= data@.len(),
    ensures
        final(buffer)@ == uploaded(
            old(buffer)@,
            pitch as int,
            width as int,
            height as int,
            data@,
        ),
{
    let ghost before = buffer@;
    let buffer_len = buffer.len();
    let data_len = data.len();
    let mut y: usize = 0;
    assert(buffer@ =~= partly_uploaded(before, pitch as int, width as int, 0, 0, data@));
    while y < height
        invariant
            y <= height,
            image_fits(buffer_len as int, pitch as int, width as int, height as int),
            4 * (height * width) <= data_len,
            buffer_len == before.len(),
            data_len == data@.len(),
            buffer@ == partly_uploaded(before, pitch as int, width as int, y as int, 0, data@),
        decreases height - y,
    {
        let mut x: usize = 0;
        proof {
            lemma_row_begin(y as int, height as int, pitch as int);
            lemma_row_begin(y as int, height as int, width as int);
        }
        while x < width
            invariant
                y < height,
                x <= width,
                4 * width <= pitch,
                0 <= y * pitch,
                width > 0 ==> y * pitch + 4 * width <= buffer_len,
                0 <= y * width,
                4 * (y * width + width) <= data_len,
                buffer_len == before.len(),
                data_len == data@.len(),
                buffer@ == partly_uploaded(
                    before,
                    pitch as int,
                    width as int,
                    y as int,
                    x as int,
                    data@,
                ),
            decreases width - x,
        {
            let offset: usize = y * pitch + x * 4;
            let data_offset: usize = (y * width + x) * 4;
            let ghost row_begun = buffer@;

            buffer[offset] = data[data_offset];
            buffer[offset + 1] = data[data_offset + 1];
            buffer[offset + 2] = data[data_offset + 2];
            buffer[offset + 3] = data[data_offset + 3];

            proof {
                let p = pitch as int;
                let next = partly_uploaded(before, p, width as int, y as int, x + 1, data@);
                lemma_fundamental_div_mod_converse(offset as int, p, y as int, 4 * x);
                lemma_fundamental_div_mod_converse(offset + 1, p, y as int, 4 * x + 1);
                lemma_fundamental_div_mod_converse(offset + 2, p, y as int, 4 * x + 2);
                lemma_fundamental_div_mod_converse(offset + 3, p, y as int, 4 * x + 3);
                assert forall|i: int| 0 <= i < buffer@.len() implies buffer@[i] == next[i] by {
                    if !(offset <= i <= offset + 3) {
                        // A byte of this row is at y * p + i % p, so one that is
                        // not of this pixel is not of the part just written.
                        lemma_fundamental_div_mod(i, p);
                        assert(p * (i / p) == (i / p) * p) by (nonlinear_arith);
                        assert(buffer@[i] == row_begun[i]);
                    }
                }
                assert(buffer@ =~= next);
            }
            x += 1;
        }
        assert(buffer@ =~= partly_uploaded(
            before,
            pitch as int,
            width as int,
            y + 1,
            0,
            data@,
        ));
        y += 1;
    }
}

/// Reading an uploaded image back row by row, each row from where the
/// pitch puts it, gives the bytes that were uploaded.
pub proof fn lemma_upload_read_back(
    before: Seq<u8>,
    pitch: int,
    width: int,
    height: int,
    data: Seq<u8>,
)
    requires
        0 <= width,
        0 <= height,
        image_fits(before.len() as int, pitch, width, height),
        4 * (height * width) <= data.len(),
    ensures
        read_back(uploaded(before, pitch, width, height, data), pitch, width, height) == data.take(
            4 * width * height,
        ),
{
    let after = uploaded(before, pitch, width, height, data);
    let image = read_back(after, pitch, width, height);
    assert(4 * width * height == 4 * (height * width)) by (nonlinear_arith);
    assert forall|j: int| 0 <= j < image.len() implies image[j] == data[j] by {
        let row = j / (4 * width);
        let col = j % (4 * width);
        lemma_fundamental_div_mod(j, 4 * width);
        assert(0 <= row < height) by (nonlinear_arith)
            requires
                0 <= j < 4 * width * height,
                j == (4 * width) * row + col,
                0 <= col < 4 * width,
                0 <= height,
        ;
        lemma_row_begin(row, height, pitch);
        let i = row * pitch + col;
        lemma_fundamental_div_mod_converse(i, pitch, row, col);
        assert((4 * width) * row == 4 * (row * width)) by (nonlinear_arith);
        assert(image_byte(i, pitch, width, height, 0));
        assert(after[i] == data[4 * (row * width) + col]);
    }
    assert(image =~= data.take(4 * width * height));
}

} // verus!
