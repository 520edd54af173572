use isototest::errors::CaptureError;
use isototest::frame::{assemble, blend_channel, Frame, Rect};

fn rect(x: u16, y: u16, width: u16, height: u16, pixels: Vec<u8>) -> Rect {
    Rect { x, y, width, height, pixels }
}

fn solid(width: u16, height: u16, px: [u8; 4]) -> Vec<u8> {
    let mut v = Vec::new();
    for _ in 0..(width as usize * height as usize) {
        v.extend_from_slice(&px);
    }
    v
}

#[test]
fn stacked_tiles_concatenate() {
    let top: Vec<u8> = (0u8..8).collect();
    let bottom: Vec<u8> = (100u8..108).collect();
    let rects = vec![rect(0, 0, 2, 1, top.clone()), rect(0, 1, 2, 1, bottom.clone())];
    let frame = assemble(2, 2, &rects, None).unwrap();
    assert_eq!(frame.width, 2);
    assert_eq!(frame.height, 2);
    let mut expected = top;
    expected.extend(bottom);
    assert_eq!(frame.pixels, expected);
}

#[test]
fn side_by_side_tiles_in_either_order() {
    let left: Vec<u8> = (0u8..8).collect();
    let right: Vec<u8> = (50u8..58).collect();
    let expected: Vec<u8> = vec![0, 1, 2, 3, 50, 51, 52, 53, 4, 5, 6, 7, 54, 55, 56, 57];
    let a = rect(0, 0, 1, 2, left);
    let b = rect(1, 0, 1, 2, right);
    let f1 = assemble(2, 2, &vec![a.clone(), b.clone()], None).unwrap();
    let f2 = assemble(2, 2, &vec![b, a], None).unwrap();
    assert_eq!(f1.pixels, expected);
    assert_eq!(f2.pixels, expected);
}

#[test]
fn uncovered_pixels_stay_zero_and_later_rects_win() {
    let rects = vec![
        rect(0, 0, 2, 1, solid(2, 1, [1, 1, 1, 1])),
        rect(1, 0, 1, 1, solid(1, 1, [9, 9, 9, 9])),
    ];
    let frame = assemble(2, 2, &rects, None).unwrap();
    assert_eq!(
        frame.pixels,
        vec![1, 1, 1, 1, 9, 9, 9, 9, 0, 0, 0, 0, 0, 0, 0, 0]
    );
}

#[test]
fn no_rectangles_gives_blank_frame() {
    let frame = assemble(3, 1, &vec![], None).unwrap();
    assert_eq!(frame.pixels, vec![0u8; 12]);
}

#[test]
fn wrong_payload_length_is_malformed() {
    let rects = vec![rect(0, 0, 2, 2, vec![0u8; 15])];
    assert_eq!(assemble(2, 2, &rects, None).unwrap_err(), CaptureError::MalformedRectangle);
}

#[test]
fn rect_outside_frame_is_malformed() {
    let rects = vec![rect(1, 1, 2, 1, vec![0u8; 8])];
    assert_eq!(assemble(2, 2, &rects, None).unwrap_err(), CaptureError::MalformedRectangle);
}

#[test]
fn previous_frame_of_other_size_is_refused() {
    let prev = Frame { width: 1, height: 1, pixels: vec![0u8; 4] };
    let rects = vec![rect(0, 0, 1, 1, vec![0u8; 4])];
    assert_eq!(
        assemble(2, 2, &rects, Some(&prev)).unwrap_err(),
        CaptureError::FrameSizeMismatch
    );
}

#[test]
fn opaque_overlay_replaces_region() {
    let prev = Frame { width: 2, height: 1, pixels: vec![10, 20, 30, 40, 50, 60, 70, 80] };
    let rects = vec![rect(1, 0, 1, 1, vec![1, 2, 3, 255])];
    let frame = assemble(2, 1, &rects, Some(&prev)).unwrap();
    assert_eq!(frame.pixels, vec![10, 20, 30, 40, 1, 2, 3, 255]);
}

#[test]
fn transparent_overlay_leaves_opaque_region() {
    let prev = Frame { width: 2, height: 1, pixels: vec![10, 20, 30, 255, 50, 60, 70, 255] };
    let rects = vec![rect(0, 0, 2, 1, vec![200, 200, 200, 0, 7, 7, 7, 0])];
    let frame = assemble(2, 1, &rects, Some(&prev)).unwrap();
    assert_eq!(frame.pixels, prev.pixels);
}

#[test]
fn partial_alpha_blends_and_makes_opaque() {
    let prev = Frame { width: 1, height: 1, pixels: vec![100, 0, 255, 7] };
    let rects = vec![rect(0, 0, 1, 1, vec![200, 255, 0, 51])];
    let frame = assemble(1, 1, &rects, Some(&prev)).unwrap();
    // 100*204/255 + 200*51/255 = 120; 255*51/255 = 51; 255*204/255 = 204
    assert_eq!(frame.pixels, vec![120, 51, 204, 255]);
}

#[test]
fn blend_channel_formula() {
    assert_eq!(blend_channel(0, 255, 128), 128);
    assert_eq!(blend_channel(100, 200, 51), 120);
    assert_eq!(blend_channel(37, 99, 0), 37);
    assert_eq!(blend_channel(37, 99, 255), 99);
    assert_eq!(blend_channel(255, 255, 100), 255);
}
