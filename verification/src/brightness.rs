//! Frame brightness: the mean luminance of a frame's pixels, and the
//! darkness verdict over the last few frames of a colour camera.

use vstd::prelude::*;
use crate::status::CaptureStatus;

verus! {

/// The luminance of the pixel at `i` of a frame with `channels` bytes per
/// pixel: BT.601 weights (the bytes in B, G, R order) when there are at
/// least three channels, else the mean of the channels.
pub open spec fn pixel_luma(bytes: Seq<u8>, channels: nat, i: int) -> int {
    let base = i * channels;
    if channels >= 3 {
        (77 * bytes[base + 2] + 150 * bytes[base + 1] + 29 * bytes[base]) / 256
    } else if channels == 2 {
        (bytes[base] + bytes[base + 1]) / 2
    } else {
        bytes[base] as int
    }
}

/// The summed luminance of the first `n` pixels.
pub open spec fn luma_sum(bytes: Seq<u8>, channels: nat, n: nat) -> int
    decreases n,
{
    if n == 0 {
        0
    } else {
        luma_sum(bytes, channels, (n - 1) as nat) + pixel_luma(bytes, channels, n - 1)
    }
}

/// The number of whole pixels among the bytes, at most `pixel_count`.
pub open spec fn pixels_read(len: nat, channels: nat, pixel_count: nat) -> nat {
    let whole = len / channels;
    if whole < pixel_count {
        whole
    } else {
        pixel_count
    }
}

/// The mean luminance of a frame of `pixel_count` pixels: the luminance of
/// the whole pixels present, summed and divided by `pixel_count`; zero for an
/// empty frame.
pub open spec fn mean_luma_of(bytes: Seq<u8>, channels: nat, pixel_count: nat) -> int {
    if pixel_count == 0 || channels == 0 {
        0
    } else {
        luma_sum(bytes, channels, pixels_read(bytes.len(), channels, pixel_count)) / pixel_count as int
    }
}

proof fn lemma_pixel_luma_bounds(bytes: Seq<u8>, channels: nat, i: int)
    ensures
        0 <= pixel_luma(bytes, channels, i) <= 255,
{
}

proof fn lemma_luma_sum_bounds(bytes: Seq<u8>, channels: nat, n: nat)
    ensures
        0 <= luma_sum(bytes, channels, n) <= 255 * n,
    decreases n,
{
    if n > 0 {
        lemma_luma_sum_bounds(bytes, channels, (n - 1) as nat);
        lemma_pixel_luma_bounds(bytes, channels, n - 1);
    }
}

/// The mean luminance of a frame given its pixel bytes, its number of
/// channels and its width and height; zero for an empty frame.
pub fn mean_luma(bytes: &[u8], channels: usize, width: i32, height: i32) -> (r: u8)
    requires
        (if width > 0 { width as int } else { 0 }) * (if height > 0 { height as int } else { 0 })
            <= i32::MAX,
        255 * bytes.len() <= u64::MAX,
    ensures
        r == mean_luma_of(
            bytes@,
            channels as nat,
            ((if width > 0 { width as int } else { 0 }) * (if height > 0 { height as int } else { 0 })) as nat,
        ),
{
    let w: i32 = if width > 0 { width } else { 0 };
    let h: i32 = if height > 0 { height } else { 0 };
    assert(0 <= w * h) by (nonlinear_arith)
        requires
            w >= 0,
            h >= 0,
    ;
    let pixel_count: usize = (w * h) as usize;
    if pixel_count == 0 || channels == 0 {
        return 0;
    }
    let whole = bytes.len() / channels;
    let n: usize = if whole < pixel_count { whole } else { pixel_count };
    assert(n * channels <= bytes.len()) by (nonlinear_arith)
        requires
            n <= whole,
            whole == bytes.len() / channels,
            channels > 0,
    ;
    assert(n <= bytes.len()) by (nonlinear_arith)
        requires
            n * channels <= bytes.len(),
            channels > 0,
    ;
    let mut total: u64 = 0;
    let mut i: usize = 0;
    while i < n
        invariant
            i <= n,
            n * channels <= bytes.len(),
            channels > 0,
            255 * bytes.len() <= u64::MAX,
            n <= bytes.len(),
            total == luma_sum(bytes@, channels as nat, i as nat),
        decreases n - i,
    {
        proof {
            assert((i + 1) * channels <= n * channels) by (nonlinear_arith)
                requires
                    i < n,
                    channels > 0,
            ;
            lemma_luma_sum_bounds(bytes@, channels as nat, i as nat);
            lemma_pixel_luma_bounds(bytes@, channels as nat, i as int);
            assert(i * channels <= (i + 1) * channels) by (nonlinear_arith)
                requires
                    channels > 0,
            ;
        }
        let base = i * channels;
        assert(base + channels == (i + 1) * channels) by (nonlinear_arith)
            requires
                base == i * channels,
        ;
        let lum: u32 = if channels >= 3 {
            let b = bytes[base] as u32;
            let g = bytes[base + 1] as u32;
            let r = bytes[base + 2] as u32;
            let x: u32 = 77 * r + 150 * g + 29 * b;
            assert(x >> 8 == x / 256) by (bit_vector);
            x >> 8
        } else if channels == 2 {
            (bytes[base] as u32 + bytes[base + 1] as u32) / 2
        } else {
            bytes[base] as u32
        };
        assert(lum == pixel_luma(bytes@, channels as nat, i as int));
        total = total + lum as u64;
        i = i + 1;
    }
    proof {
        lemma_luma_sum_bounds(bytes@, channels as nat, n as nat);
        assert(255 * n <= 255 * pixel_count) by (nonlinear_arith)
            requires
                n <= pixel_count,
        ;
        assert((total as int) / (pixel_count as int) <= 255) by (nonlinear_arith)
            requires
                total <= 255 * pixel_count,
                pixel_count > 0,
        ;
    }
    (total / (pixel_count as u64)) as u8
}

// ---------------------------------------------------------------------------
// Darkness over recent frames
// ---------------------------------------------------------------------------

/// How many recent face luminances the darkness verdict averages.
pub const LUMA_WINDOW: usize = 5;

pub open spec fn seq_sum(s: Seq<u8>) -> int
    decreases s.len(),
{
    if s.len() == 0 {
        0
    } else {
        seq_sum(s.drop_last()) + s.last()
    }
}

/// The window after adding a value: the last `LUMA_WINDOW` values.
pub open spec fn slide(window: Seq<u8>, luma: u8) -> Seq<u8> {
    let w = window.push(luma);
    if w.len() > LUMA_WINDOW {
        w.drop_first()
    } else {
        w
    }
}

/// How bright a face counts: usable when the current face is lit enough;
/// else dark when the mean of the window is under the threshold as well;
/// else ready, the dip being brief.
pub open spec fn darkness_verdict(window: Seq<u8>, luma: u8, threshold: u8) -> CaptureStatus {
    if luma >= threshold {
        CaptureStatus::Usable
    } else if seq_sum(window) < threshold * window.len() {
        CaptureStatus::TooDark
    } else {
        CaptureStatus::Ready
    }
}

fn window_sum(values: &Vec<u8>) -> (r: u32)
    requires
        values@.len() <= LUMA_WINDOW,
    ensures
        r == seq_sum(values@),
{
    let mut sum: u32 = 0;
    let mut i: usize = 0;
    while i < values.len()
        invariant
            i <= values.len() <= LUMA_WINDOW,
            sum == seq_sum(values@.take(i as int)),
            sum <= 255 * i,
        decreases values.len() - i,
    {
        assert(values@.take(i + 1).drop_last() == values@.take(i as int));
        sum = sum + values[i] as u32;
        i = i + 1;
    }
    assert(values@.take(values.len() as int) == values@);
    sum
}

/// The face luminances of the last few colour frames.
pub struct LumaHistory {
    values: Vec<u8>,
}

impl LumaHistory {
    pub closed spec fn window(&self) -> Seq<u8> {
        self.values@
    }

    #[verifier::type_invariant]
    closed spec fn inv(&self) -> bool {
        self.values@.len() <= LUMA_WINDOW
    }

    pub fn new() -> (r: Self)
        ensures
            r.window() == Seq::<u8>::empty(),
    {
        LumaHistory { values: Vec::new() }
    }

    /// Records the luminance of the current face and judges the brightness.
    /// The average of the window is compared exactly: it is below the
    /// threshold when the sum is below the threshold times the count.
    pub fn observe(&mut self, luma: u8, threshold: u8) -> (r: CaptureStatus)
        ensures
            final(self).window() == slide(old(self).window(), luma),
            final(self).window().len() <= LUMA_WINDOW,
            r == darkness_verdict(final(self).window(), luma, threshold),
    {
        proof {
            use_type_invariant(&*self);
        }
        let mut values: Vec<u8> = Vec::new();
        std::mem::swap(&mut values, &mut self.values);
        let ghost before = values@;
        values.push(luma);
        if values.len() > LUMA_WINDOW {
            values.remove(0);
            assert(values@ =~= before.push(luma).drop_first());
        }
        let sum = window_sum(&values);
        let count = values.len() as u32;
        assert((threshold as u32) * count <= 255 * 5) by (nonlinear_arith)
            requires
                threshold <= 255,
                count <= 5,
        ;
        let status = if luma >= threshold {
            CaptureStatus::Usable
        } else if sum < (threshold as u32) * count {
            CaptureStatus::TooDark
        } else {
            CaptureStatus::Ready
        };
        self.values = values;
        status
    }
}

} // verus!
