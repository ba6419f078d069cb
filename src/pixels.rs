use vstd::prelude::*;

use crate::stream::PixelFormat;

verus! {

/// A frame whose first and third byte of every whole four-byte pixel changed
/// places; a trailing partial pixel is left as it is.
pub open spec fn channels_swapped(s: Seq<u8>) -> Seq<u8> {
    Seq::new(
        s.len(),
        |i: int|
            if i % 4 == 0 && i + 3 < s.len() {
                s[i + 2]
            } else if i % 4 == 2 && i + 1 < s.len() {
                s[i - 2]
            } else {
                s[i]
            },
    )
}

/// Normalises the channel order of a frame in place by swapping the first and
/// third byte of every four-byte pixel (blue-green-red-alpha becomes
/// red-green-blue-alpha, and back).
pub fn swap_red_blue(frame: &mut Vec<u8>)
    ensures
        final(frame)@ == channels_swapped(old(frame)@),
{
    let ghost orig = frame@;
    let len = frame.len();
    let mut i: usize = 0;
    while i < len && len - i >= 4
        invariant
            frame@.len() == len,
            len == orig.len(),
            i % 4 == 0,
            i <= len,
            forall|j: int| 0 <= j < i ==> frame@[j] == #[trigger] channels_swapped(orig)[j],
            forall|j: int| i <= j < len ==> frame@[j] == orig[j],
        decreases len - i,
    {
        let first = frame[i];
        let third = frame[i + 2];
        frame.set(i, third);
        frame.set(i + 2, first);
        assert forall|j: int| i <= j < i + 4 implies frame@[j] == #[trigger] channels_swapped(
            orig,
        )[j] by {
            assert(j % 4 == (j - i) % 4) by (nonlinear_arith)
                requires
                    i % 4 == 0,
                    i <= j,
            ;
        }
        i = i + 4;
    }
    assert forall|j: int| i <= j < len implies frame@[j] == #[trigger] channels_swapped(orig)[j] by {
        assert(j + 3 >= len);
        if j % 4 == 2 {
            assert(j - 2 >= i) by (nonlinear_arith)
                requires
                    i % 4 == 0,
                    j % 4 == 2,
                    i <= j,
            ;
        }
    }
    assert(frame@ =~= channels_swapped(orig));
}

/// The frame buffer after copying a decoded sample into it: as many leading
/// bytes as both hold come from the sample, the rest stay.
pub open spec fn copied_into(buffer: Seq<u8>, sample: Seq<u8>) -> Seq<u8> {
    Seq::new(buffer.len(), |i: int| if i < sample.len() { sample[i] } else { buffer[i] })
}

/// Copies a decoded sample into the reusable frame buffer, never past the end
/// of either.
pub fn copy_sample(buffer: &mut Vec<u8>, sample: &[u8])
    ensures
        final(buffer)@ == copied_into(old(buffer)@, sample@),
{
    let ghost orig = buffer@;
    let len = buffer.len();
    let count = if sample.len() < len {
        sample.len()
    } else {
        len
    };
    let mut i: usize = 0;
    while i < count
        invariant
            buffer@.len() == len,
            len == orig.len(),
            count <= len,
            count <= sample@.len(),
            count == len || count == sample@.len(),
            i <= count,
            forall|j: int| 0 <= j < i ==> buffer@[j] == sample@[j],
            forall|j: int| i <= j < len ==> buffer@[j] == orig[j],
        decreases count - i,
    {
        buffer.set(i, sample[i]);
        i = i + 1;
    }
    assert(buffer@ =~= copied_into(orig, sample@));
}

/// Size in bytes of a frame buffer of `width` by `height` four-byte pixels.
pub open spec fn frame_bytes(width: nat, height: nat) -> nat {
    width * height * 4
}

/// A zeroed frame buffer for frames of the given size, allocated once per
/// session and overwritten at every tick.
pub fn frame_buffer(width: u32, height: u32) -> (r: Vec<u8>)
    requires
        frame_bytes(width as nat, height as nat) <= usize::MAX,
    ensures
        r@.len() == frame_bytes(width as nat, height as nat),
        forall|i: int| 0 <= i < r@.len() ==> r@[i] == 0,
{
    let w = width as usize;
    let h = height as usize;
    assert(w * h <= w * h * 4) by (nonlinear_arith);
    let size = w * h * 4;
    let mut buffer: Vec<u8> = Vec::with_capacity(size);
    let mut i: usize = 0;
    while i < size
        invariant
            i <= size,
            buffer@.len() == i,
            forall|j: int| 0 <= j < i ==> buffer@[j] == 0,
        decreases size - i,
    {
        buffer.push(0);
        i = i + 1;
    }
    buffer
}

/// A value clamped into a byte.
pub open spec fn clamp_byte(x: int) -> u8 {
    if x < 0 {
        0
    } else if x > 255 {
        255
    } else {
        x as u8
    }
}

/// Blue, green and red of a limited-range BT.601 luma and chroma sample, in
/// the usual integer approximation.
pub open spec fn yuv_to_bgr(y: u8, u: u8, v: u8) -> (u8, u8, u8) {
    let c = y - 16;
    let d = u - 128;
    let e = v - 128;
    (
        clamp_byte((298 * c + 516 * d + 128) / 256),
        clamp_byte((298 * c - 100 * d - 208 * e + 128) / 256),
        clamp_byte((298 * c + 409 * e + 128) / 256),
    )
}

/// Blue, green and red of pixel `p` (row-major) of a `w`-pixel-wide frame
/// of `h` rows decoded in `format`, or `None` when the sample is too short to
/// hold it. 32- and 24-bit samples are blue-green-red already; NV12 has a
/// full luma plane followed by interleaved chroma at half resolution; YUY2
/// packs two pixels as luma, blue chroma, luma, red chroma.
pub open spec fn source_pixel(format: PixelFormat, s: Seq<u8>, w: int, h: int, p: int) -> Option<
    (u8, u8, u8),
> {
    match format {
        PixelFormat::Rgb32 => if 4 * p + 2 < s.len() {
            Some((s[4 * p], s[4 * p + 1], s[4 * p + 2]))
        } else {
            None
        },
        PixelFormat::Rgb24 => if 3 * p + 2 < s.len() {
            Some((s[3 * p], s[3 * p + 1], s[3 * p + 2]))
        } else {
            None
        },
        PixelFormat::Nv12 => {
            let uv = w * h + (p / w) / 2 * w + (p % w) / 2 * 2;
            if uv + 1 < s.len() && p < s.len() {
                Some(yuv_to_bgr(s[p], s[uv], s[uv + 1]))
            } else {
                None
            }
        },
        PixelFormat::Yuy2 => {
            let base = (p / 2) * 4;
            if base + 3 < s.len() {
                Some(yuv_to_bgr(s[base + (p % 2) * 2], s[base + 1], s[base + 3]))
            } else {
                None
            }
        },
    }
}

/// The frame buffer after converting a sample into it: each pixel the
/// sample holds becomes blue, green, red and a zero byte; the others stay.
pub open spec fn converted_into(
    buffer: Seq<u8>,
    format: PixelFormat,
    s: Seq<u8>,
    w: int,
    h: int,
) -> Seq<u8> {
    Seq::new(
        buffer.len(),
        |i: int|
            match source_pixel(format, s, w, h, i / 4) {
                Some(px) => if i % 4 == 0 {
                    px.0
                } else if i % 4 == 1 {
                    px.1
                } else if i % 4 == 2 {
                    px.2
                } else {
                    0
                },
                None => buffer[i],
            },
    )
}

/// One channel of the BT.601 conversion: `(t + 128) / 256`, clamped.
fn scaled_channel(t: i64) -> (r: u8)
    requires
        -1_000_000 <= t <= 1_000_000,
    ensures
        r == clamp_byte((t + 128) / 256),
{
    let v = t + 128;
    if v < 0 {
        assert((v as int) / 256 < 0);
        0
    } else {
        let q = v / 256;
        if q > 255 {
            255
        } else {
            q as u8
        }
    }
}

/// Blue, green and red of one luma and chroma sample.
pub fn yuv_pixel(y: u8, u: u8, v: u8) -> (r: (u8, u8, u8))
    ensures
        r == yuv_to_bgr(y, u, v),
{
    let c = y as i64 - 16;
    let d = u as i64 - 128;
    let e = v as i64 - 128;
    (
        scaled_channel(298 * c + 516 * d),
        scaled_channel(298 * c - 100 * d - 208 * e),
        scaled_channel(298 * c + 409 * e),
    )
}

/// Converts a decoded sample of a `width` by `height` frame in the
/// negotiated format into the blit's blue-green-red byte order, one fixed
/// map per format, writing the reusable frame buffer in place. Pixels the
/// sample is too short to hold keep what the buffer had.
pub fn convert_sample(
    buffer: &mut Vec<u8>,
    format: PixelFormat,
    sample: &[u8],
    width: u32,
    height: u32,
)
    requires
        old(buffer)@.len() == frame_bytes(width as nat, height as nat),
    ensures
        final(buffer)@ == converted_into(
            old(buffer)@,
            format,
            sample@,
            width as int,
            height as int,
        ),
{
    let ghost orig = buffer@;
    let ghost target = converted_into(orig, format, sample@, width as int, height as int);
    let w = width as u128;
    let h = height as u128;
    assert(w * h <= 0xffff_ffff_ffff_ffff_ffff_ffff) by (nonlinear_arith)
        requires
            w <= 0xffff_ffff,
            h <= 0xffff_ffff,
    ;
    let len = buffer.len();
    let n = len / 4;
    assert(n as int == (width as int) * (height as int));
    let slen = sample.len() as u128;
    let mut p: usize = 0;
    while p < n
        invariant
            n as int == (width as int) * (height as int),
            len == 4 * n,
            buffer@.len() == len,
            orig.len() == len,
            w == width as u128,
            h == height as u128,
            slen == sample@.len(),
            target == converted_into(orig, format, sample@, width as int, height as int),
            p <= n,
            forall|i: int| 0 <= i < 4 * p ==> buffer@[i] == #[trigger] target[i],
            forall|i: int| 4 * p <= i < len ==> buffer@[i] == orig[i],
        decreases n - p,
    {
        let pi = p as u128;
        let px: Option<(u8, u8, u8)> = match format {
            PixelFormat::Rgb32 => {
                if 4 * pi + 2 < slen {
                    let i = (4 * pi) as usize;
                    Some((sample[i], sample[i + 1], sample[i + 2]))
                } else {
                    None
                }
            },
            PixelFormat::Rgb24 => {
                if 3 * pi + 2 < slen {
                    let i = (3 * pi) as usize;
                    Some((sample[i], sample[i + 1], sample[i + 2]))
                } else {
                    None
                }
            },
            PixelFormat::Nv12 => {
                assert(w > 0) by (nonlinear_arith)
                    requires
                        (p as int) < (w as int) * (h as int),
                ;
                let row = pi / w;
                let col = pi % w;
                assert(row / 2 * w <= w * h && col / 2 * 2 <= w) by (nonlinear_arith)
                    requires
                        (pi as int) < (w as int) * (h as int),
                        row == pi / w,
                        col == pi % w,
                        w > 0,
                ;
                let uv = w * h + row / 2 * w + col / 2 * 2;
                if uv + 1 < slen && pi < slen {
                    let lu = sample[pi as usize];
                    let cu = sample[uv as usize];
                    let cv = sample[(uv + 1) as usize];
                    Some(yuv_pixel(lu, cu, cv))
                } else {
                    None
                }
            },
            PixelFormat::Yuy2 => {
                let base = (pi / 2) * 4;
                if base + 3 < slen {
                    let lu = sample[(base + (pi % 2) * 2) as usize];
                    let cu = sample[(base + 1) as usize];
                    let cv = sample[(base + 3) as usize];
                    Some(yuv_pixel(lu, cu, cv))
                } else {
                    None
                }
            },
        };
        assert(px == source_pixel(format, sample@, width as int, height as int, p as int));
        let at = 4 * p;
        match px {
            Some((b, g, r)) => {
                buffer.set(at, b);
                buffer.set(at + 1, g);
                buffer.set(at + 2, r);
                buffer.set(at + 3, 0);
            },
            None => {},
        }
        assert forall|i: int| 4 * p <= i < 4 * p + 4 implies buffer@[i] == #[trigger] target[i] by {
            assert(i / 4 == p as int);
            assert(i % 4 == i - 4 * p);
        }
        p = p + 1;
    }
    assert(buffer@ =~= target);
}

} // verus!
