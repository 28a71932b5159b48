//! Frame conversion for the V4L2 loopback output.
//!
//! Loopback devices are negotiated in packed YUYV (`Y0 U Y1 V`), BT.601
//! limited range; incoming frames are BGRA. Chroma of each horizontal pixel
//! pair is the mean of the two pixels' chroma.
use vstd::prelude::*;

verus! {

/// Clamp an integer to the byte range.
pub open spec fn clamp_byte(x: int) -> int {
    if x < 0 {
        0
    } else if x > 255 {
        255
    } else {
        x
    }
}

/// BT.601 limited-range luma of an RGB triple (`>> 8` is floor division).
pub open spec fn yuv_y(r: int, g: int, b: int) -> int {
    clamp_byte((66 * r + 129 * g + 25 * b + 128) / 256 + 16)
}

/// BT.601 limited-range blue-difference chroma of an RGB triple.
pub open spec fn yuv_u(r: int, g: int, b: int) -> int {
    clamp_byte((-38 * r - 74 * g + 112 * b + 128) / 256 + 128)
}

/// BT.601 limited-range red-difference chroma of an RGB triple.
pub open spec fn yuv_v(r: int, g: int, b: int) -> int {
    clamp_byte((112 * r - 94 * g - 18 * b + 128) / 256 + 128)
}

/// Convert one RGB pixel to BT.601 limited-range YUV
/// (Y in [16, 235], Cb and Cr in [16, 240]).
pub fn rgb_to_yuv(r: u8, g: u8, b: u8) -> (yuv: (u8, u8, u8))
    ensures
        yuv.0 == yuv_y(r as int, g as int, b as int),
        yuv.1 == yuv_u(r as int, g as int, b as int),
        yuv.2 == yuv_v(r as int, g as int, b as int),
        16 <= yuv.0 <= 235,
        16 <= yuv.1 <= 240,
        16 <= yuv.2 <= 240,
{
    let r: i32 = r as i32;
    let g: i32 = g as i32;
    let b: i32 = b as i32;
    // The numerators of the chroma terms can be negative; an offset of a
    // multiple of 256 keeps the division on non-negative values, where
    // truncation and flooring agree.
    let ny: i32 = 66 * r + 129 * g + 25 * b + 128;
    let nu: i32 = 112 * b + 128 - 38 * r - 74 * g;
    let nv: i32 = 112 * r + 128 - 94 * g - 18 * b;
    let y: i32 = ny / 256 + 16;
    let u: i32 = (nu + 112 * 256) / 256 - 112 + 128;
    let v: i32 = (nv + 112 * 256) / 256 - 112 + 128;
    proof {
        assert((nu + 112 * 256) / 256 == nu / 256 + 112);
        assert((nv + 112 * 256) / 256 == nv / 256 + 112);
    }
    (clamp_to_byte(y), clamp_to_byte(u), clamp_to_byte(v))
}

/// Clamp an `i32` into the byte range.
fn clamp_to_byte(x: i32) -> (r: u8)
    ensures
        r == clamp_byte(x as int),
{
    if x < 0 {
        0
    } else if x > 255 {
        255
    } else {
        x as u8
    }
}

/// Luma of the BGRA pixel starting at byte `off`.
pub open spec fn pixel_y(bgra: Seq<u8>, off: int) -> int {
    yuv_y(bgra[off + 2] as int, bgra[off + 1] as int, bgra[off] as int)
}

/// Blue-difference chroma of the BGRA pixel starting at byte `off`.
pub open spec fn pixel_u(bgra: Seq<u8>, off: int) -> int {
    yuv_u(bgra[off + 2] as int, bgra[off + 1] as int, bgra[off] as int)
}

/// Red-difference chroma of the BGRA pixel starting at byte `off`.
pub open spec fn pixel_v(bgra: Seq<u8>, off: int) -> int {
    yuv_v(bgra[off + 2] as int, bgra[off + 1] as int, bgra[off] as int)
}

/// Byte `k` of the YUYV encoding of a row `width` pixels wide whose BGRA
/// data starts at byte `row_off`: below `4 * (width / 2)`, pixel pair
/// `k / 4`, component `k % 4` (`Y0`, `U`, `Y1`, `V`); a trailing unpaired
/// pixel of an odd width fills the last two bytes with its own `Y` and `U`.
pub open spec fn yuyv_row_byte(bgra: Seq<u8>, row_off: int, width: int, k: int) -> u8 {
    let pairs = width / 2;
    let lone = row_off + pairs * 8;
    if k < 4 * pairs {
        let p0 = row_off + (k / 4) * 8;
        let p1 = p0 + 4;
        let c = k % 4;
        (if c == 0 {
            pixel_y(bgra, p0)
        } else if c == 1 {
            (pixel_u(bgra, p0) + pixel_u(bgra, p1)) / 2
        } else if c == 2 {
            pixel_y(bgra, p1)
        } else {
            (pixel_v(bgra, p0) + pixel_v(bgra, p1)) / 2
        }) as u8
    } else if k == 4 * pairs {
        pixel_y(bgra, lone) as u8
    } else {
        pixel_u(bgra, lone) as u8
    }
}

/// The YUYV encoding (`2 * width` bytes) of row `row` of a BGRA image
/// `width` pixels wide.
pub open spec fn yuyv_row(bgra: Seq<u8>, width: int, row: int) -> Seq<u8> {
    Seq::new((2 * width) as nat, |k: int| yuyv_row_byte(bgra, row * (4 * width), width, k))
}

/// The YUYV encoding of the first `rows` rows of a BGRA image.
pub open spec fn yuyv_image(bgra: Seq<u8>, width: int, rows: int) -> Seq<u8>
    decreases rows,
{
    if rows <= 0 {
        Seq::empty()
    } else {
        yuyv_image(bgra, width, rows - 1) + yuyv_row(bgra, width, rows - 1)
    }
}

/// A YUYV image of `rows` rows of `width` pixels holds two bytes per
/// pixel.
pub proof fn lemma_yuyv_image_len(bgra: Seq<u8>, width: int, rows: int)
    requires
        width >= 0,
        rows >= 0,
    ensures
        yuyv_image(bgra, width, rows).len() == rows * (2 * width),
    decreases rows,
{
    if rows > 0 {
        lemma_yuyv_image_len(bgra, width, rows - 1);
        assert(yuyv_row(bgra, width, rows - 1).len() == 2 * width);
        assert((rows - 1) * (2 * width) + 2 * width == rows * (2 * width)) by (nonlinear_arith);
    } else {
        assert(rows * (2 * width) == 0) by (nonlinear_arith)
            requires rows == 0;
    }
}

/// Convert a BGRA frame to packed YUYV (`Y0 U Y1 V`), BT.601 limited range;
/// the chroma of each horizontal pixel pair is the mean of the pair's
/// chroma (rounded down).
///
/// `bgra` holds at least `width * height * 4` bytes and `yuyv` exactly
/// `width * height * 2`. Where the width is odd, the last pixel of each row
/// has no partner and its row only two bytes left: they take the pixel's
/// own `Y` and `U`.
pub fn bgra_to_yuyv(bgra: &[u8], yuyv: &mut Vec<u8>, width: u32, height: u32)
    requires
        bgra@.len() >= width * height * 4,
        old(yuyv)@.len() == width * height * 2,
    ensures
        final(yuyv)@ == yuyv_image(bgra@, width as int, height as int),
{
    let w: usize = width as usize;
    let h: usize = height as usize;
    let pairs: usize = w / 2;
    let ghost total: int = w * h * 2;
    let out_len: usize = yuyv.len();
    let in_len: usize = bgra.len();
    proof {
        lemma_yuyv_image_len(bgra@, w as int, 0);
        assert(w * h * 4 == 2 * (w * h * 2)) by (nonlinear_arith);
    }
    let mut row: usize = 0;
    let mut dst_base: usize = 0;
    let mut src_base: usize = 0;
    while row < h
        invariant
            w == width,
            h == height,
            pairs == w / 2,
            row <= h,
            total == w * h * 2,
            total == out_len,
            bgra@.len() == in_len,
            bgra@.len() >= w * h * 4,
            yuyv@.len() == total,
            dst_base == row * (2 * w),
            src_base == row * (4 * w),
            yuyv@.subrange(0, dst_base as int) == yuyv_image(bgra@, w as int, row as int),
        decreases h - row,
    {
        proof {
            assert((row + 1) * (2 * w) <= h * (2 * w)) by (nonlinear_arith)
                requires row < h;
            assert((row + 1) * (4 * w) <= h * (4 * w)) by (nonlinear_arith)
                requires row < h;
            assert((row + 1) * (2 * w) == row * (2 * w) + 2 * w) by (nonlinear_arith);
            assert((row + 1) * (4 * w) == row * (4 * w) + 4 * w) by (nonlinear_arith);
            assert(w * h * 2 == h * (2 * w)) by (nonlinear_arith);
            assert(w * h * 4 == h * (4 * w)) by (nonlinear_arith);
        }
        let ghost before = yuyv@;
        let mut x: usize = 0;
        while x < pairs
            invariant
                w == width,
                pairs == w / 2,
                x <= pairs,
                row < h,
                yuyv@.len() == total,
                total == out_len,
                bgra@.len() == in_len,
                dst_base + 2 * w <= total,
                src_base + 4 * w <= bgra@.len(),
                src_base == row * (4 * w),
                forall|i: int| 0 <= i < dst_base ==> yuyv@[i] == before[i],
                forall|k: int|
                    0 <= k < 4 * x ==> #[trigger] yuyv@[dst_base + k] == yuyv_row_byte(
                        bgra@,
                        src_base as int,
                        w as int,
                        k,
                    ),
            decreases pairs - x,
        {
            assert(8 * x + 8 <= 4 * w);
            let p0: usize = src_base + x * 8;
            let p1: usize = p0 + 4;
            let (y0, u0, v0) = rgb_to_yuv(bgra[p0 + 2], bgra[p0 + 1], bgra[p0]);
            let (y1, u1, v1) = rgb_to_yuv(bgra[p1 + 2], bgra[p1 + 1], bgra[p1]);
            let u: u8 = ((u0 as u16 + u1 as u16) / 2) as u8;
            let v: u8 = ((v0 as u16 + v1 as u16) / 2) as u8;
            let o: usize = dst_base + x * 4;
            yuyv.set(o, y0);
            yuyv.set(o + 1, u);
            yuyv.set(o + 2, y1);
            yuyv.set(o + 3, v);
            proof {
                assert forall|k: int| 0 <= k < 4 * (x + 1) implies #[trigger] yuyv@[dst_base + k]
                    == yuyv_row_byte(bgra@, src_base as int, w as int, k) by {
                    if k >= 4 * x {
                        assert(k / 4 == x);
                        assert(k % 4 == k - 4 * x);
                    }
                }
            }
            x = x + 1;
        }
        if w % 2 == 1 {
            let p: usize = src_base + pairs * 8;
            let (y, u, _v) = rgb_to_yuv(bgra[p + 2], bgra[p + 1], bgra[p]);
            let o: usize = dst_base + pairs * 4;
            yuyv.set(o, y);
            yuyv.set(o + 1, u);
            proof {
                assert forall|k: int| 0 <= k < 2 * w implies #[trigger] yuyv@[dst_base + k]
                    == yuyv_row_byte(bgra@, src_base as int, w as int, k) by {
                    if k < 4 * pairs {
                        assert(yuyv@[dst_base + k] == yuyv_row_byte(
                            bgra@,
                            src_base as int,
                            w as int,
                            k,
                        ));
                    }
                }
            }
        }
        proof {
            let row_seq = yuyv_row(bgra@, w as int, row as int);
            assert(yuyv@.subrange(dst_base as int, dst_base + 2 * w) =~= row_seq) by {
                assert forall|k: int| 0 <= k < 2 * w implies yuyv@.subrange(
                    dst_base as int,
                    dst_base + 2 * w,
                )[k] == row_seq[k] by {
                    assert(yuyv@[dst_base + k] == yuyv_row_byte(
                        bgra@,
                        src_base as int,
                        w as int,
                        k,
                    ));
                }
            }
            assert(yuyv@.subrange(0, dst_base as int) =~= before.subrange(0, dst_base as int));
            assert(yuyv@.subrange(0, dst_base + 2 * w) =~= yuyv@.subrange(0, dst_base as int)
                + yuyv@.subrange(dst_base as int, dst_base + 2 * w));
        }
        row = row + 1;
        dst_base = dst_base + 2 * w;
        src_base = src_base + 4 * w;
    }
    proof {
        assert(dst_base == total) by (nonlinear_arith)
            requires dst_base == row * (2 * w), row == h, total == w * h * 2;
        assert(yuyv@.subrange(0, total) =~= yuyv@);
    }
}

/// Errors of a frame conversion for the loopback device.
#[derive(Debug, Clone, Copy, PartialEq, Eq)]
pub enum V4l2FrameError {
    /// The BGRA frame holds fewer bytes than the configured size needs.
    FrameTooSmall { got: usize, expected: usize },
}

/// Outcome of writing a converted frame to the device.
#[derive(Debug, Clone, Copy, PartialEq, Eq)]
pub enum WriteOutcome {
    /// The frame was written.
    Written,
    /// The consumer went away or the write would block or was interrupted.
    Transient,
    /// Any other write error.
    Failed,
}

/// Result of handling a write outcome.
#[derive(Debug, Clone, Copy, PartialEq, Eq)]
pub enum WriteVerdict {
    /// Continue normally.
    Continue,
    /// Continue, and warn once about transient errors.
    ContinueWarn,
    /// Report a write error.
    Error,
}

/// Frame state of a loopback output: the negotiated size, the YUYV
/// scratch buffer (`width * height * 2` bytes, reused across frames) and
/// whether a transient write error was already reported.
pub struct V4l2FrameWriter {
    width: u32,
    height: u32,
    yuyv_scratch: Vec<u8>,
    warned_transient: bool,
}

impl V4l2FrameWriter {
    /// Well-formed: the scratch buffer has the size of one YUYV frame.
    pub closed spec fn wf(&self) -> bool {
        self.yuyv_scratch@.len() == self.width * self.height * 2
    }

    /// The negotiated width.
    pub closed spec fn spec_width(&self) -> u32 {
        self.width
    }

    /// The negotiated height.
    pub closed spec fn spec_height(&self) -> u32 {
        self.height
    }

    /// The YUYV bytes of the last converted frame.
    pub closed spec fn spec_frame(&self) -> Seq<u8> {
        self.yuyv_scratch@
    }

    /// Whether a transient write error has been reported since the last
    /// successful write or size change.
    pub closed spec fn spec_warned(&self) -> bool {
        self.warned_transient
    }

    /// State for a device negotiated at `width` x `height`.
    pub fn new(width: u32, height: u32) -> (r: Self)
        requires
            width * height * 4 <= usize::MAX,
        ensures
            r.wf(),
            r.spec_width() == width,
            r.spec_height() == height,
            !r.spec_warned(),
    {
        let n: usize = (width as usize) * (height as usize) * 2;
        V4l2FrameWriter { width, height, yuyv_scratch: vec![0u8; n], warned_transient: false }
    }

    /// Whether a frame of this size needs the device renegotiated.
    pub fn needs_reopen(&self, width: u32, height: u32) -> (r: bool)
        ensures
            r == (width != self.spec_width() || height != self.spec_height()),
    {
        width != self.width || height != self.height
    }

    /// Record that the device was renegotiated at a new size.
    pub fn resized(&mut self, width: u32, height: u32)
        requires
            width * height * 4 <= usize::MAX,
        ensures
            final(self).wf(),
            final(self).spec_width() == width,
            final(self).spec_height() == height,
            !final(self).spec_warned(),
    {
        let n: usize = (width as usize) * (height as usize) * 2;
        self.width = width;
        self.height = height;
        self.yuyv_scratch.resize(n, 0);
        self.warned_transient = false;
    }

    /// Convert a BGRA frame of the negotiated size into the scratch buffer;
    /// refused when it holds fewer than `width * height * 4` bytes (extra
    /// bytes are ignored).
    pub fn convert(&mut self, bgra: &[u8]) -> (r: Result<(), V4l2FrameError>)
        requires
            old(self).wf(),
            old(self).spec_width() * old(self).spec_height() * 4 <= usize::MAX,
        ensures
            final(self).wf(),
            final(self).spec_width() == old(self).spec_width(),
            final(self).spec_height() == old(self).spec_height(),
            final(self).spec_warned() == old(self).spec_warned(),
            bgra@.len() < old(self).spec_width() * old(self).spec_height() * 4 ==> (r
                == Err::<(), V4l2FrameError>(
                V4l2FrameError::FrameTooSmall {
                    got: bgra@.len() as usize,
                    expected: (old(self).spec_width() * old(self).spec_height() * 4) as usize,
                },
            ) && final(self).spec_frame() == old(self).spec_frame()),
            bgra@.len() >= old(self).spec_width() * old(self).spec_height() * 4 ==> (r is Ok
                && final(self).spec_frame() == yuyv_image(
                bgra@,
                old(self).spec_width() as int,
                old(self).spec_height() as int,
            )),
    {
        let expected: usize = (self.width as usize) * (self.height as usize) * 4;
        if bgra.len() < expected {
            return Err(V4l2FrameError::FrameTooSmall { got: bgra.len(), expected });
        }
        bgra_to_yuyv(bgra, &mut self.yuyv_scratch, self.width, self.height);
        proof {
            lemma_yuyv_image_len(bgra@, self.width as int, self.height as int);
            assert(self.height * (2 * self.width) == self.width * self.height * 2)
                by (nonlinear_arith);
        }
        Ok(())
    }

    /// The YUYV bytes to write to the device.
    pub fn frame_bytes(&self) -> (r: &[u8])
        ensures
            r@ == self.spec_frame(),
    {
        self.yuyv_scratch.as_slice()
    }

    /// Handle the outcome of a write: success clears the warning state; a
    /// transient error is tolerated and warned about once until the next
    /// success; any other error is reported.
    pub fn write_result(&mut self, outcome: WriteOutcome) -> (v: WriteVerdict)
        ensures
            final(self).wf() == old(self).wf(),
            final(self).spec_width() == old(self).spec_width(),
            final(self).spec_height() == old(self).spec_height(),
            final(self).spec_frame() == old(self).spec_frame(),
            outcome == WriteOutcome::Written ==> v == WriteVerdict::Continue
                && !final(self).spec_warned(),
            outcome == WriteOutcome::Transient ==> final(self).spec_warned() && v == (if old(
                self,
            ).spec_warned() {
                WriteVerdict::Continue
            } else {
                WriteVerdict::ContinueWarn
            }),
            outcome == WriteOutcome::Failed ==> v == WriteVerdict::Error
                && final(self).spec_warned() == old(self).spec_warned(),
    {
        match outcome {
            WriteOutcome::Written => {
                self.warned_transient = false;
                WriteVerdict::Continue
            },
            WriteOutcome::Transient => {
                if !self.warned_transient {
                    self.warned_transient = true;
                    WriteVerdict::ContinueWarn
                } else {
                    WriteVerdict::Continue
                }
            },
            WriteOutcome::Failed => WriteVerdict::Error,
        }
    }

    /// Current output resolution.
    pub fn resolution(&self) -> (r: (u32, u32))
        ensures
            r == (self.spec_width(), self.spec_height()),
    {
        (self.width, self.height)
    }
}

} // verus!
