use systray_doom::frame::crop_to_rgba;

const W: usize = 640;
const H: usize = 400;

#[test]
fn crop_output_is_fixed_size() {
    let frame = vec![0u32; W * H];
    let out = crop_to_rgba(&frame, W, H);
    assert_eq!(out.len(), 320 * 320 * 4);
}

#[test]
fn crop_output_is_fixed_size_at_minimal_frame() {
    let frame = vec![0x01020304u32; 321 * 321];
    let out = crop_to_rgba(&frame, 321, 321);
    assert_eq!(out.len(), 320 * 320 * 4);
}

#[test]
fn uniform_pixel_reorders_and_inverts_alpha() {
    let frame = vec![0xAABBCCDDu32; W * H];
    let out = crop_to_rgba(&frame, W, H);
    assert_eq!(out.len(), 320 * 320 * 4);
    for pixel in out.chunks(4) {
        assert_eq!(pixel, [0xBB, 0xCC, 0xDD, 0x55]);
    }
}

#[test]
fn crop_window_is_centered_and_top_anchored() {
    // The crop of a 640-wide frame starts at source column 160.
    let mut frame = vec![0u32; W * H];
    frame[160] = 0xFF112233;
    let out = crop_to_rgba(&frame, W, H);
    assert_eq!(&out[0..4], [0x11, 0x22, 0x33, 0x00]);

    // Output pixel (row 10, col 5) comes from source (row 10, col 165).
    let mut frame = vec![0u32; W * H];
    frame[10 * W + 165] = 0x00A0B0C0;
    let out = crop_to_rgba(&frame, W, H);
    let base = 4 * (320 * 10 + 5);
    assert_eq!(&out[base..base + 4], [0xA0, 0xB0, 0xC0, 0xFF]);
}

#[test]
fn rows_outside_the_crop_window_are_dropped() {
    // Everything below row 320 is cut off: marking the last source row
    // changes nothing in the output.
    let mut frame = vec![0u32; W * H];
    for x in 0..W {
        frame[399 * W + x] = 0xFFFFFFFF;
    }
    let out = crop_to_rgba(&frame, W, H);
    let blank = crop_to_rgba(&vec![0u32; W * H], W, H);
    assert_eq!(out, blank);
}

#[test]
fn zero_alpha_becomes_full_opacity() {
    let frame = vec![0x00000000u32; W * H];
    let out = crop_to_rgba(&frame, W, H);
    for pixel in out.chunks(4) {
        assert_eq!(pixel, [0x00, 0x00, 0x00, 0xFF]);
    }
}
