//! The frame-to-icon transform: crop the engine's frame buffer to a
//! centered-top sub-rectangle of fixed size, and rewrite each pixel from
//! packed ARGB to RGBA bytes with the alpha channel inverted (the engine's
//! alpha is transparency; the shell needs opacity).

use vstd::prelude::*;

verus! {

/// Width of the cropped output, in pixels.
pub const CROP_WIDTH: usize = 320;

/// Height of the cropped output, in pixels.
pub const CROP_HEIGHT: usize = 320;

/// The red byte of a packed ARGB pixel.
pub open spec fn chan_red(p: u32) -> u8 {
    ((p >> 16) & 0xFF) as u8
}

/// The green byte of a packed ARGB pixel.
pub open spec fn chan_green(p: u32) -> u8 {
    ((p >> 8) & 0xFF) as u8
}

/// The blue byte of a packed ARGB pixel.
pub open spec fn chan_blue(p: u32) -> u8 {
    (p & 0xFF) as u8
}

/// The alpha byte of a packed ARGB pixel, inverted.
pub open spec fn chan_alpha_inverted(p: u32) -> u8 {
    (255 - ((p >> 24) & 0xFF)) as u8
}

/// The four output bytes of one source pixel, in output order:
/// red, green, blue, inverted alpha.
pub open spec fn rgba_of(p: u32) -> (u8, u8, u8, u8) {
    (chan_red(p), chan_green(p), chan_blue(p), chan_alpha_inverted(p))
}

/// Leftmost source column of the crop window: horizontally centered.
pub open spec fn crop_left(xres: int) -> int {
    (xres - CROP_WIDTH) / 2
}

/// Index into the row-major source frame of the pixel that lands at
/// `(row, col)` of the output. The crop window is horizontally centered
/// and anchored to the top of the frame.
pub open spec fn source_index(xres: int, row: int, col: int) -> int {
    row * xres + crop_left(xres) + col
}

/// The four bytes of output pixel `(row, col)` in the row-major output.
pub open spec fn out_pixel(bytes: Seq<u8>, row: int, col: int) -> (u8, u8, u8, u8) {
    let base = 4 * (CROP_WIDTH * row + col);
    (bytes[base], bytes[base + 1], bytes[base + 2], bytes[base + 3])
}

/// `out` is exactly the cropped, reordered image of `frame`: one pixel's
/// four bytes for every cell of the crop window, and nothing else.
pub open spec fn is_cropped_rgba(frame: Seq<u32>, xres: int, out: Seq<u8>) -> bool {
    &&& out.len() == CROP_WIDTH * CROP_HEIGHT * 4
    &&& forall|row: int, col: int|
        0 <= row < CROP_HEIGHT && 0 <= col < CROP_WIDTH ==> #[trigger] out_pixel(out, row, col)
            == rgba_of(frame[source_index(xres, row, col)])
}

/// Crop `screen_buffer` (a row-major `xres` by `yres` ARGB frame, both
/// dimensions strictly larger than the crop window) to the centered-top
/// crop window, reordering every pixel to RGBA bytes with inverted alpha.
pub fn crop_to_rgba(screen_buffer: &[u32], xres: usize, yres: usize) -> (out: Vec<u8>)
    requires
        CROP_WIDTH < xres,
        CROP_HEIGHT < yres,
        screen_buffer@.len() == xres * yres,
    ensures
        is_cropped_rgba(screen_buffer@, xres as int, out@),
{
    let x0: usize = (xres - CROP_WIDTH) / 2;
    let n: usize = screen_buffer.len();
    let mut out: Vec<u8> = Vec::with_capacity(CROP_WIDTH * CROP_HEIGHT * 4);
    let mut row: usize = 0;
    while row < CROP_HEIGHT
        invariant
            CROP_WIDTH < xres,
            CROP_HEIGHT < yres,
            screen_buffer@.len() == xres * yres,
            n == screen_buffer@.len(),
            x0 == crop_left(xres as int),
            row <= CROP_HEIGHT,
            out@.len() == 4 * (CROP_WIDTH * row),
            forall|r: int, c: int|
                0 <= r < row && 0 <= c < CROP_WIDTH ==> #[trigger] out_pixel(out@, r, c)
                    == rgba_of(screen_buffer@[source_index(xres as int, r, c)]),
        decreases CROP_HEIGHT - row,
    {
        let mut col: usize = 0;
        while col < CROP_WIDTH
            invariant
                CROP_WIDTH < xres,
                CROP_HEIGHT < yres,
                screen_buffer@.len() == xres * yres,
                n == screen_buffer@.len(),
                x0 == crop_left(xres as int),
                row < CROP_HEIGHT,
                col <= CROP_WIDTH,
                out@.len() == 4 * (CROP_WIDTH * row + col),
                forall|r: int, c: int|
                    0 <= r < row && 0 <= c < CROP_WIDTH ==> #[trigger] out_pixel(out@, r, c)
                        == rgba_of(screen_buffer@[source_index(xres as int, r, c)]),
                forall|c: int|
                    0 <= c < col ==> #[trigger] out_pixel(out@, row as int, c)
                        == rgba_of(screen_buffer@[source_index(xres as int, row as int, c)]),
            decreases CROP_WIDTH - col,
        {
            proof {
                assert(x0 + col < xres);
                assert(row * xres + x0 + col < xres * yres) by (nonlinear_arith)
                    requires
                        0 <= row,
                        row < yres,
                        x0 + col < xres,
                        0 < xres,
                ;
            }
            let src: usize = row * xres + x0 + col;
            let argb: u32 = screen_buffer[src];
            proof {
                assert(((argb >> 16) & 0xFF) < 256 && ((argb >> 8) & 0xFF) < 256 && (argb & 0xFF)
                    < 256 && ((argb >> 24) & 0xFF) < 256) by (bit_vector);
            }
            let ghost pre = out@;
            out.push(((argb >> 16) & 0xFF) as u8);
            out.push(((argb >> 8) & 0xFF) as u8);
            out.push((argb & 0xFF) as u8);
            out.push((255 - ((argb >> 24) & 0xFF)) as u8);
            proof {
                assert(out@ =~= pre + seq![
                    chan_red(argb),
                    chan_green(argb),
                    chan_blue(argb),
                    chan_alpha_inverted(argb),
                ]);
                assert(out_pixel(out@, row as int, col as int) == rgba_of(argb));
                assert forall|r: int, c: int|
                    0 <= r < row && 0 <= c < CROP_WIDTH implies #[trigger] out_pixel(out@, r, c)
                    == rgba_of(screen_buffer@[source_index(xres as int, r, c)]) by {
                    assert(4 * (CROP_WIDTH * r + c) + 3 < pre.len());
                    assert(out_pixel(out@, r, c) == out_pixel(pre, r, c));
                }
                assert forall|c: int|
                    0 <= c < col + 1 implies #[trigger] out_pixel(out@, row as int, c)
                    == rgba_of(screen_buffer@[source_index(xres as int, row as int, c)]) by {
                    if c < col {
                        assert(4 * (CROP_WIDTH * (row as int) + c) + 3 < pre.len());
                        assert(out_pixel(out@, row as int, c) == out_pixel(pre, row as int, c));
                    }
                }
            }
            col = col + 1;
        }
        row = row + 1;
    }
    out
}

/// A frame of one uniform pixel crops to a uniform output: every output
/// pixel holds that pixel's red, green and blue bytes in that order,
/// followed by its alpha byte inverted.
pub proof fn lemma_uniform_frame(frame: Seq<u32>, xres: int, yres: int, out: Seq<u8>, p: u32)
    requires
        CROP_WIDTH < xres,
        CROP_HEIGHT < yres,
        frame.len() == xres * yres,
        forall|i: int| 0 <= i < frame.len() ==> frame[i] == p,
        is_cropped_rgba(frame, xres, out),
    ensures
        forall|row: int, col: int|
            0 <= row < CROP_HEIGHT && 0 <= col < CROP_WIDTH ==> #[trigger] out_pixel(out, row, col)
                == rgba_of(p),
{
    assert forall|row: int, col: int|
        0 <= row < CROP_HEIGHT && 0 <= col < CROP_WIDTH implies #[trigger] out_pixel(
        out,
        row,
        col,
    ) == rgba_of(p) by {
        assert(0 <= crop_left(xres) && crop_left(xres) + CROP_WIDTH <= xres);
        assert(0 <= source_index(xres, row, col) < frame.len()) by (nonlinear_arith)
            requires
                0 <= row < yres,
                0 <= crop_left(xres),
                crop_left(xres) + col < xres,
                0 <= col,
                0 < xres,
                frame.len() == xres * yres,
                source_index(xres, row, col) == row * xres + crop_left(xres) + col,
        ;
        assert(frame[source_index(xres, row, col)] == p);
    }
}

/// The uniform-pixel sample spelled out: a frame of pixels `0xAABBCCDD`
/// (alpha `0xAA`, red `0xBB`, green `0xCC`, blue `0xDD`) crops to output
/// pixels of exactly `(0xBB, 0xCC, 0xDD, 0x55)`, the last byte being the
/// inverted alpha `255 - 0xAA`.
pub proof fn lemma_uniform_frame_sample(frame: Seq<u32>, xres: int, yres: int, out: Seq<u8>)
    requires
        CROP_WIDTH < xres,
        CROP_HEIGHT < yres,
        frame.len() == xres * yres,
        forall|i: int| 0 <= i < frame.len() ==> frame[i] == 0xAABBCCDDu32,
        is_cropped_rgba(frame, xres, out),
    ensures
        forall|row: int, col: int|
            0 <= row < CROP_HEIGHT && 0 <= col < CROP_WIDTH ==> #[trigger] out_pixel(out, row, col)
                == (0xBBu8, 0xCCu8, 0xDDu8, 0x55u8),
{
    lemma_uniform_frame(frame, xres, yres, out, 0xAABBCCDDu32);
    assert((0xAABBCCDDu32 >> 16) & 0xFF == 0xBB) by (bit_vector);
    assert((0xAABBCCDDu32 >> 8) & 0xFF == 0xCC) by (bit_vector);
    assert(0xAABBCCDDu32 & 0xFF == 0xDD) by (bit_vector);
    assert((0xAABBCCDDu32 >> 24) & 0xFF == 0xAA) by (bit_vector);
    assert(rgba_of(0xAABBCCDDu32) == (0xBBu8, 0xCCu8, 0xDDu8, 0x55u8));
}

} // verus!
