//! The video frame model and its fixed-coordinate pixel probes.
//!
//! The pipeline is calibrated to one capture resolution, 1280x720. A frame
//! is the raw RGB bytes of such an image in row-major order, three bytes
//! per pixel. The probes below read fixed coordinates of that layout: the
//! near-black top band of the course waiting room, the flag icon shown
//! while a race is running, and the yellow highlight of the player's row
//! on the result screen.

use vstd::prelude::*;

verus! {

/// Width of a capture frame in pixels.
pub const FRAME_WIDTH: usize = 1280;

/// Height of a capture frame in pixels.
pub const FRAME_HEIGHT: usize = 720;

/// One video frame: RGB bytes, row-major, three bytes per pixel.
pub struct Frame {
    pub pixels: Vec<u8>,
}

impl Frame {
    /// The byte buffer holds exactly one 1280x720 RGB image.
    pub open spec fn wf(&self) -> bool {
        self.pixels@.len() == 3 * FRAME_WIDTH * FRAME_HEIGHT
    }

    /// Channel `ch` (0 red, 1 green, 2 blue) of the pixel at (`x`, `y`).
    pub open spec fn spec_channel(&self, x: int, y: int, ch: int) -> u8 {
        self.pixels@[3 * (y * FRAME_WIDTH + x) + ch]
    }

    /// A frame from raw RGB bytes; `None` when the buffer is not exactly
    /// one 1280x720 RGB image.
    pub fn from_pixels(pixels: Vec<u8>) -> (r: Option<Frame>)
        ensures
            match r {
                Some(f) => f.pixels@ == pixels@ && f.wf(),
                None => pixels@.len() != 3 * FRAME_WIDTH * FRAME_HEIGHT,
            },
    {
        if pixels.len() == 3 * FRAME_WIDTH * FRAME_HEIGHT {
            Some(Frame { pixels })
        } else {
            None
        }
    }

    /// Channel `ch` of the pixel at (`x`, `y`).
    pub fn channel(&self, x: usize, y: usize, ch: usize) -> (v: u8)
        requires
            self.wf(),
            x < FRAME_WIDTH,
            y < FRAME_HEIGHT,
            ch < 3,
        ensures
            v == self.spec_channel(x as int, y as int, ch as int),
    {
        self.pixels[3 * (y * FRAME_WIDTH + x) + ch]
    }
}

/// A pixel is near-black when its luma is below a tenth of full scale.
/// The luma of an RGB pixel is 0.2126 r + 0.7152 g + 0.0722 b; both sides
/// are scaled by 10000 to keep the comparison integral.
pub open spec fn is_dark_rgb(r: u8, g: u8, b: u8) -> bool {
    2126 * r + 7152 * g + 722 * b < 255000
}

/// The yellow of the highlighted row on the result screen.
pub open spec fn is_yellow_rgb(r: u8, g: u8, b: u8) -> bool {
    r > 0xD0 && g > 0xC8 && b < 0x80
}

/// The whole top 50 rows of the frame are near-black: the blackout
/// signature of the course waiting room. The top 50 rows are exactly the
/// first `50 * FRAME_WIDTH` pixels of the row-major buffer.
pub open spec fn spec_blackout_top(f: Frame) -> bool {
    forall|i: int|
        0 <= i < 50 * FRAME_WIDTH ==> #[trigger] is_dark_rgb(
            f.pixels@[3 * i],
            f.pixels@[3 * i + 1],
            f.pixels@[3 * i + 2],
        )
}

fn is_dark_rgb_exec(r: u8, g: u8, b: u8) -> (res: bool)
    ensures
        res == is_dark_rgb(r, g, b),
{
    2126 * (r as u32) + 7152 * (g as u32) + 722 * (b as u32) < 255000
}

fn is_yellow_rgb_exec(r: u8, g: u8, b: u8) -> (res: bool)
    ensures
        res == is_yellow_rgb(r, g, b),
{
    r > 0xD0 && g > 0xC8 && b < 0x80
}

/// Whether the top 50 rows of the frame are uniformly near-black.
pub fn blackout_top(f: &Frame) -> (res: bool)
    requires
        f.wf(),
    ensures
        res == spec_blackout_top(*f),
{
    let n: usize = 50 * FRAME_WIDTH;
    let mut i: usize = 0;
    while i < n
        invariant
            f.wf(),
            n == 50 * FRAME_WIDTH,
            i <= n,
            forall|k: int|
                0 <= k < i ==> #[trigger] is_dark_rgb(
                    f.pixels@[3 * k],
                    f.pixels@[3 * k + 1],
                    f.pixels@[3 * k + 2],
                ),
        decreases n - i,
    {
        if !is_dark_rgb_exec(f.pixels[3 * i], f.pixels[3 * i + 1], f.pixels[3 * i + 2]) {
            return false;
        }
        i = i + 1;
    }
    true
}

/// The probe column for the result-screen rows, near the right edge.
pub const ROWS_PROBE_X: usize = 1133;

/// The first probe row of the topmost result-screen band.
pub const ROWS_PROBE_Y0: usize = 54;

/// The distance between consecutive result-screen bands.
pub const ROW_HEIGHT: usize = 52;

/// All five probe pixels of the given band are highlight yellow. Band `b`
/// is probed at five stacked pixels starting 54 + 52 b rows down, in the
/// fixed probe column.
pub open spec fn spec_band_yellow(f: Frame, b: int) -> bool {
    forall|k: int|
        0 <= k < 5 ==> #[trigger] is_yellow_rgb(
            f.spec_channel(ROWS_PROBE_X as int, ROWS_PROBE_Y0 + ROW_HEIGHT * b + k, 0),
            f.spec_channel(ROWS_PROBE_X as int, ROWS_PROBE_Y0 + ROW_HEIGHT * b + k, 1),
            f.spec_channel(ROWS_PROBE_X as int, ROWS_PROBE_Y0 + ROW_HEIGHT * b + k, 2),
        )
}

/// The first of the twelve result-screen bands shown highlighted, if any,
/// searching from the top.
pub open spec fn spec_yellow_band_from(f: Frame, b: int) -> Option<int>
    decreases 12 - b,
{
    if b < 0 || b >= 12 {
        None
    } else if spec_band_yellow(f, b) {
        Some(b)
    } else {
        spec_yellow_band_from(f, b + 1)
    }
}

/// The index of the highlighted row on the result screen, if any: the
/// first band whose five probe pixels are all highlight yellow.
pub open spec fn spec_yellow_band(f: Frame) -> Option<int> {
    spec_yellow_band_from(f, 0)
}

fn band_yellow(f: &Frame, b: usize) -> (res: bool)
    requires
        f.wf(),
        b < 12,
    ensures
        res == spec_band_yellow(*f, b as int),
{
    let y0: usize = ROWS_PROBE_Y0 + ROW_HEIGHT * b;
    let mut k: usize = 0;
    while k < 5
        invariant
            f.wf(),
            b < 12,
            y0 == ROWS_PROBE_Y0 + ROW_HEIGHT * b,
            k <= 5,
            forall|m: int|
                0 <= m < k ==> #[trigger] is_yellow_rgb(
                    f.spec_channel(ROWS_PROBE_X as int, ROWS_PROBE_Y0 + ROW_HEIGHT * b + m, 0),
                    f.spec_channel(ROWS_PROBE_X as int, ROWS_PROBE_Y0 + ROW_HEIGHT * b + m, 1),
                    f.spec_channel(ROWS_PROBE_X as int, ROWS_PROBE_Y0 + ROW_HEIGHT * b + m, 2),
                ),
        decreases 5 - k,
    {
        let r = f.channel(ROWS_PROBE_X, y0 + k, 0);
        let g = f.channel(ROWS_PROBE_X, y0 + k, 1);
        let bch = f.channel(ROWS_PROBE_X, y0 + k, 2);
        if !is_yellow_rgb_exec(r, g, bch) {
            return false;
        }
        k = k + 1;
    }
    true
}

/// The index of the highlighted row on the result screen, if any.
pub fn yellow_band_index(f: &Frame) -> (res: Option<usize>)
    requires
        f.wf(),
    ensures
        match res {
            Some(b) => b < 12 && spec_yellow_band(*f) == Some(b as int),
            None => spec_yellow_band(*f) is None,
        },
{
    let mut b: usize = 0;
    while b < 12
        invariant
            f.wf(),
            b <= 12,
            spec_yellow_band(*f) == spec_yellow_band_from(*f, b as int),
        decreases 12 - b,
    {
        if band_yellow(f, b) {
            return Some(b);
        }
        b = b + 1;
    }
    None
}

/// The flag icon is on view: one of its nine probe points shows its
/// expected near-black (even points) or bright (odd points) signature,
/// meaning the race is still running.
pub open spec fn spec_flag_visible(f: Frame) -> bool {
    ||| spec_flag_dark_at(f, 174, 659)
    ||| spec_flag_bright_at(f, 183, 659)
    ||| spec_flag_dark_at(f, 192, 659)
    ||| spec_flag_bright_at(f, 174, 667)
    ||| spec_flag_dark_at(f, 180, 667)
    ||| spec_flag_bright_at(f, 189, 667)
    ||| spec_flag_dark_at(f, 173, 675)
    ||| spec_flag_bright_at(f, 182, 675)
    ||| spec_flag_dark_at(f, 191, 675)
}

/// The flag probe at (`x`, `y`) reads near-black.
pub open spec fn spec_flag_dark_at(f: Frame, x: int, y: int) -> bool {
    f.spec_channel(x, y, 0) < 5 && f.spec_channel(x, y, 1) < 5 && f.spec_channel(x, y, 2) < 5
}

/// The flag probe at (`x`, `y`) reads bright.
pub open spec fn spec_flag_bright_at(f: Frame, x: int, y: int) -> bool {
    f.spec_channel(x, y, 0) > 0xD0 && f.spec_channel(x, y, 1) > 0xD0 && f.spec_channel(x, y, 2)
        > 0xD0
}

fn flag_dark_at(f: &Frame, x: usize, y: usize) -> (res: bool)
    requires
        f.wf(),
        x < FRAME_WIDTH,
        y < FRAME_HEIGHT,
    ensures
        res == spec_flag_dark_at(*f, x as int, y as int),
{
    f.channel(x, y, 0) < 5 && f.channel(x, y, 1) < 5 && f.channel(x, y, 2) < 5
}

fn flag_bright_at(f: &Frame, x: usize, y: usize) -> (res: bool)
    requires
        f.wf(),
        x < FRAME_WIDTH,
        y < FRAME_HEIGHT,
    ensures
        res == spec_flag_bright_at(*f, x as int, y as int),
{
    f.channel(x, y, 0) > 0xD0 && f.channel(x, y, 1) > 0xD0 && f.channel(x, y, 2) > 0xD0
}

/// Whether the flag icon shown during a running race is on view.
pub fn flag_visible(f: &Frame) -> (res: bool)
    requires
        f.wf(),
    ensures
        res == spec_flag_visible(*f),
{
    flag_dark_at(f, 174, 659) || flag_bright_at(f, 183, 659) || flag_dark_at(f, 192, 659)
        || flag_bright_at(f, 174, 667) || flag_dark_at(f, 180, 667) || flag_bright_at(f, 189, 667)
        || flag_dark_at(f, 173, 675) || flag_bright_at(f, 182, 675) || flag_dark_at(f, 191, 675)
}

} // verus!
