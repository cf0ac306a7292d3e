use gaze::brightness::{mean_luma, LumaHistory};
use gaze::status::CaptureStatus;

fn frame(rows: i32, cols: i32, channels: usize, pixel: &[u8]) -> Vec<u8> {
    let mut out = Vec::new();
    for _ in 0..(rows * cols) {
        out.extend_from_slice(&pixel[..channels]);
    }
    out
}

#[test]
fn dark_frame_detection_rejects_black_frames() {
    let f = frame(12, 12, 3, &[0, 0, 0]);
    assert!(mean_luma(&f, 3, 12, 12) < 30);
}

#[test]
fn dark_frame_detection_accepts_lit_frames() {
    let f = frame(12, 12, 3, &[120, 120, 120]);
    assert!(mean_luma(&f, 3, 12, 12) >= 30);
}

#[test]
fn mean_luminance_threshold_is_an_exclusive_lower_bound() {
    let f = frame(8, 8, 3, &[50, 50, 50]);
    assert!(mean_luma(&f, 3, 8, 8) < 51);
    assert!(mean_luma(&f, 3, 8, 8) >= 50);
}

#[test]
fn mean_uses_bt601_weighting() {
    let blue = frame(8, 8, 3, &[255, 0, 0]);
    assert!(mean_luma(&blue, 3, 8, 8) < 30);
    let green = frame(8, 8, 3, &[0, 255, 0]);
    assert!(mean_luma(&green, 3, 8, 8) >= 30);
}

#[test]
fn single_channel_frames_use_raw_luminance() {
    let dark = frame(8, 8, 1, &[5]);
    assert!(mean_luma(&dark, 1, 8, 8) < 30);
    let lit = frame(8, 8, 1, &[120]);
    assert!(mean_luma(&lit, 1, 8, 8) >= 30);
}

#[test]
fn mean_is_robust_to_a_few_bright_pixels() {
    let mut f = frame(8, 8, 3, &[0, 0, 0]);
    for px in 0..4 {
        for c in 0..3 {
            f[px * 3 + c] = 255;
        }
    }
    assert!(mean_luma(&f, 3, 8, 8) < 30);
}

#[test]
fn empty_frame_is_treated_as_dark() {
    assert!(mean_luma(&[], 0, 0, 0) < 30);
}

#[test]
fn luma_exact_values() {
    assert_eq!(mean_luma(&frame(2, 2, 3, &[255, 255, 255]), 3, 2, 2), 255);
    assert_eq!(mean_luma(&frame(1, 1, 3, &[10, 20, 30]), 3, 1, 1), 21);
    assert_eq!(mean_luma(&frame(1, 2, 2, &[10, 21]), 2, 1, 2), 15);
    assert_eq!(mean_luma(&frame(1, 2, 4, &[0, 255, 0, 9]), 4, 1, 2), 149);
    // Fewer bytes than pixels: the missing pixels count as black.
    assert_eq!(mean_luma(&[100, 100], 1, 2, 2), 50);
    assert_eq!(mean_luma(&[100], 1, -3, 2), 0);
}

#[test]
fn darkness_over_recent_frames() {
    let mut h = LumaHistory::new();
    assert_eq!(h.observe(100, 30), CaptureStatus::Usable);
    // A dip stays ready while the average is still bright enough.
    assert_eq!(h.observe(10, 30), CaptureStatus::Ready);
    assert_eq!(h.observe(10, 30), CaptureStatus::Ready);
    assert_eq!(h.observe(10, 30), CaptureStatus::Ready);
    assert_eq!(h.observe(10, 30), CaptureStatus::TooDark);
    let mut h = LumaHistory::new();
    for _ in 0..5 {
        h.observe(0, 30);
    }
    for _ in 0..4 {
        h.observe(100, 30);
    }
    // Only the last five values count: 100, 100, 100, 100, 20.
    assert_eq!(h.observe(20, 30), CaptureStatus::Ready);
    assert_eq!(h.observe(0, 0), CaptureStatus::Usable);
}
