//! Conversion of packed RGB24 pixels to planar YUV 4:2:0 (BT.601, studio
//! swing), the input format of the H.264 encoder.

use vstd::prelude::*;

verus! {

/// A value limited to the range of a byte.
pub open spec fn clamp_byte(v: int) -> int {
    if v < 0 {
        0
    } else if v > 255 {
        255
    } else {
        v
    }
}

/// Division that rounds toward zero, as Rust's `/` on signed integers does.
pub open spec fn trunc_div(a: int, d: int) -> int {
    if a >= 0 {
        a / d
    } else {
        -((-a) / d)
    }
}

/// Luma of one pixel.
pub open spec fn luma(r: int, g: int, b: int) -> int {
    clamp_byte(trunc_div(66 * r + 129 * g + 25 * b + 128, 256) + 16)
}

/// Blue-difference chroma of one pixel.
pub open spec fn chroma_u(r: int, g: int, b: int) -> int {
    clamp_byte(trunc_div(-38 * r - 74 * g + 112 * b + 128, 256) + 128)
}

/// Red-difference chroma of one pixel.
pub open spec fn chroma_v(r: int, g: int, b: int) -> int {
    clamp_byte(trunc_div(112 * r - 94 * g - 18 * b + 128, 256) + 128)
}

/// Luma is the ITU-R BT.601 studio-swing luma of the pixel, to within one
/// step: `16 + (65.738 r + 129.057 g + 25.064 b) / 256` (green weighs most,
/// blue least), and it stays in the studio range 16 to 235.
pub proof fn lemma_luma_is_bt601(r: int, g: int, b: int)
    requires
        0 <= r <= 255,
        0 <= g <= 255,
        0 <= b <= 255,
    ensures
        16 <= luma(r, g, b) <= 235,
        -256000 < 256000 * (luma(r, g, b) - 16) - (65738 * r + 129057 * g + 25064 * b) < 256000,
{
    let x = 66 * r + 129 * g + 25 * b + 128;
    let q = x / 256;
    assert(256 * q <= x < 256 * q + 256);
    assert(trunc_div(x, 256) == q);
}

/// The blue-difference chroma is BT.601's Cb of the pixel, to within two
/// steps: `128 + (-37.945 r - 74.494 g + 112.439 b) / 256`, in the studio
/// range 16 to 240.
pub proof fn lemma_chroma_u_is_bt601(r: int, g: int, b: int)
    requires
        0 <= r <= 255,
        0 <= g <= 255,
        0 <= b <= 255,
    ensures
        16 <= chroma_u(r, g, b) <= 240,
        -512000 < 256000 * (chroma_u(r, g, b) - 128) - (-37945 * r - 74494 * g + 112439 * b) < 512000,
{
    let x = -38 * r - 74 * g + 112 * b + 128;
    if x >= 0 {
        let q = x / 256;
        assert(256 * q <= x < 256 * q + 256);
    } else {
        let q = (-x) / 256;
        assert(256 * q <= -x < 256 * q + 256);
    }
}

/// The red-difference chroma is BT.601's Cr of the pixel, to within two
/// steps: `128 + (112.439 r - 94.154 g - 18.285 b) / 256`, in the studio
/// range 16 to 240.
pub proof fn lemma_chroma_v_is_bt601(r: int, g: int, b: int)
    requires
        0 <= r <= 255,
        0 <= g <= 255,
        0 <= b <= 255,
    ensures
        16 <= chroma_v(r, g, b) <= 240,
        -512000 < 256000 * (chroma_v(r, g, b) - 128) - (112439 * r - 94154 * g - 18285 * b) < 512000,
{
    let x = 112 * r - 94 * g - 18 * b + 128;
    if x >= 0 {
        let q = x / 256;
        assert(256 * q <= x < 256 * q + 256);
    } else {
        let q = (-x) / 256;
        assert(256 * q <= -x < 256 * q + 256);
    }
}

/// Luma of pixel `p` (in row-major order) of packed RGB data.
pub open spec fn luma_at(rgb: Seq<u8>, p: int) -> int {
    luma(rgb[3 * p] as int, rgb[3 * p + 1] as int, rgb[3 * p + 2] as int)
}

/// Blue-difference chroma of pixel `p` of packed RGB data.
pub open spec fn chroma_u_at(rgb: Seq<u8>, p: int) -> int {
    chroma_u(rgb[3 * p] as int, rgb[3 * p + 1] as int, rgb[3 * p + 2] as int)
}

/// Red-difference chroma of pixel `p` of packed RGB data.
pub open spec fn chroma_v_at(rgb: Seq<u8>, p: int) -> int {
    chroma_v(rgb[3 * p] as int, rgb[3 * p + 1] as int, rgb[3 * p + 2] as int)
}

/// Pixel `p` of a `w` by `h` image is converted: it lies in the image and all
/// three of its bytes are present in data of length `len`.
pub open spec fn pixel_done(len: int, w: int, h: int, p: int) -> bool {
    0 <= p < w * h && 3 * p + 2 < len
}

/// Pixel `p` of a `w`-wide image lies on an even column and an even row, and
/// so gives the chroma sample of its 2x2 block.
pub open spec fn samples_chroma(w: int, p: int) -> bool {
    (p % w) % 2 == 0 && (p / w) % 2 == 0
}

/// The position in each chroma plane that pixel `p` writes to.
pub open spec fn chroma_index(w: int, p: int) -> int {
    ((p / w) / 2 * w) / 2 + (p % w) / 2
}

/// Pixel `p` writes the chroma sample at position `c`.
pub open spec fn writes_chroma(len: int, w: int, h: int, p: int, c: int) -> bool {
    pixel_done(len, w, h, p) && samples_chroma(w, p) && chroma_index(w, p) == c
}

/// The last pixel before `k`, in row-major order, that writes the chroma
/// sample at position `c`.
pub open spec fn last_chroma_writer(len: int, w: int, h: int, k: nat, c: int) -> Option<nat>
    decreases k,
{
    if k == 0 {
        None
    } else if writes_chroma(len, w, h, k - 1, c) {
        Some((k - 1) as nat)
    } else {
        last_chroma_writer(len, w, h, (k - 1) as nat, c)
    }
}

/// Length of the luma plane.
pub open spec fn luma_len(w: int, h: int) -> int {
    w * h
}

/// Length of the U plane.
pub open spec fn chroma_len(w: int, h: int) -> int {
    (w * h) / 4
}

/// Length of the whole YUV 4:2:0 buffer.
pub open spec fn yuv_len(w: int, h: int) -> int {
    (w * h * 3) / 2
}

/// Every converted pixel that samples chroma writes inside the U plane (the
/// V plane is at least as long).
pub open spec fn chroma_fits(len: int, w: int, h: int) -> bool {
    forall|p: int|
        pixel_done(len, w, h, p) && samples_chroma(w, p) ==> #[trigger] chroma_index(w, p)
            < chroma_len(w, h)
}

/// The value that the conversion leaves at chroma position `c` of the U plane.
pub open spec fn u_sample(rgb: Seq<u8>, w: int, h: int, c: int) -> int {
    match last_chroma_writer(rgb.len() as int, w, h, (w * h) as nat, c) {
        Some(p) => chroma_u_at(rgb, p as int),
        None => 0,
    }
}

/// The value that the conversion leaves at chroma position `c` of the V plane.
pub open spec fn v_sample(rgb: Seq<u8>, w: int, h: int, c: int) -> int {
    match last_chroma_writer(rgb.len() as int, w, h, (w * h) as nat, c) {
        Some(p) => chroma_v_at(rgb, p as int),
        None => 0,
    }
}

proof fn lemma_plane_lengths(n: int)
    requires
        n >= 0,
    ensures
        (n * 3) / 2 - n - n / 4 >= n / 4,
        n + n / 4 <= (n * 3) / 2,
{
}

proof fn lemma_writer_unchanged(len: int, w: int, h: int, from: nat, to: nat, c: int)
    requires
        from <= to,
        forall|q: int| from <= q < to ==> !pixel_done(len, w, h, q),
    ensures
        last_chroma_writer(len, w, h, to, c) == last_chroma_writer(len, w, h, from, c),
    decreases to - from,
{
    if from < to {
        lemma_writer_unchanged(len, w, h, from, (to - 1) as nat, c);
    }
}

/// An image of even width and even height keeps every chroma write inside its
/// chroma planes, whatever the length of its RGB data.
pub proof fn lemma_even_size_fits(len: int, w: int, h: int)
    requires
        w >= 0,
        h >= 0,
        w % 2 == 0,
        h % 2 == 0,
    ensures
        chroma_fits(len, w, h),
{
    assert forall|p: int| pixel_done(len, w, h, p) && samples_chroma(w, p) implies #[trigger] chroma_index(w, p)
        < chroma_len(w, h) by {
        if w == 0 {
            assert(w * h == 0) by (nonlinear_arith)
                requires
                    w == 0,
            ;
        }
        assert(w > 0);
        let x = p % w;
        let y = p / w;
        assert(p == y * w + x && 0 <= x < w && y >= 0) by (nonlinear_arith)
            requires
                w > 0,
                p >= 0,
                x == p % w,
                y == p / w,
        ;
        assert(y < h) by (nonlinear_arith)
            requires
                p == y * w + x,
                0 <= x,
                p < w * h,
                w > 0,
        ;
        let ww = w / 2;
        let hh = h / 2;
        let yy = y / 2;
        let xx = x / 2;
        assert(y / 2 * w == yy * (2 * ww));
        assert((yy * (2 * ww)) / 2 == yy * ww) by (nonlinear_arith)
            requires
                yy >= 0,
                ww >= 0,
        ;
        assert(chroma_index(w, p) == yy * ww + xx);
        assert(yy < hh && xx < ww);
        assert(yy * ww + xx < hh * ww) by (nonlinear_arith)
            requires
                0 <= yy < hh,
                0 <= xx < ww,
        ;
        assert((w * h) / 4 == ww * hh) by (nonlinear_arith)
            requires
                w == 2 * ww,
                h == 2 * hh,
        ;
    }
}

/// Whether converting an image of `width` by `height` pixels from `rgb_len`
/// bytes of RGB data stays inside its chroma planes.
pub fn yuv420_layout_fits(rgb_len: usize, width: u32, height: u32) -> (r: bool)
    requires
        width * height * 3 <= u32::MAX,
    ensures
        r == chroma_fits(rgb_len as int, width as int, height as int),
{
    let w = width as usize;
    let npix = (width * height) as usize;
    let uv_size = npix / 4;
    assert(w as int == width as int);
    let mut p: usize = 0;
    let mut x: usize = 0;
    let mut y: usize = 0;
    proof {
        if w == 0 {
            assert(w * height == 0) by (nonlinear_arith)
                requires
                    w == 0,
            ;
        }
    }
    while p < npix
        invariant
            npix == w * height,
            w as int == width as int,
            uv_size == chroma_len(w as int, height as int),
            npix * 3 <= u32::MAX,
            p <= npix,
            p == y * w + x,
            p < npix ==> x < w,
            forall|q: int|
                0 <= q < p && pixel_done(rgb_len as int, w as int, height as int, q) && samples_chroma(
                    w as int,
                    q,
                ) ==> #[trigger] chroma_index(w as int, q) < uv_size,
        decreases npix - p,
    {
        if p * 3 + 2 >= rgb_len {
            assert forall|q: int|
                pixel_done(rgb_len as int, width as int, height as int, q) && samples_chroma(
                    width as int,
                    q,
                ) implies #[trigger] chroma_index(width as int, q) < chroma_len(
                width as int,
                height as int,
            ) by {
                assert(q < p);
            }
            assert(chroma_fits(rgb_len as int, width as int, height as int));
            return true;
        }
        proof {
            vstd::arithmetic::div_mod::lemma_fundamental_div_mod_converse(
                p as int,
                w as int,
                y as int,
                x as int,
            );
            vstd::arithmetic::mul::lemma_mul_inequality((y / 2) as int, y as int, w as int);
        }
        if x % 2 == 0 && y % 2 == 0 {
            let uvi = (y / 2 * w) / 2 + x / 2;
            if uvi >= uv_size {
                assert(pixel_done(rgb_len as int, w as int, height as int, p as int));
                assert(samples_chroma(w as int, p as int));
                assert(pixel_done(rgb_len as int, width as int, height as int, p as int));
                assert(chroma_index(width as int, p as int) >= chroma_len(width as int, height as int));
                assert(chroma_index(w as int, p as int) == uvi);
                assert(!chroma_fits(rgb_len as int, width as int, height as int));
                return false;
            }
        }
        p = p + 1;
        x = x + 1;
        if x == w {
            proof {
                assert((y + 1) * w == y * w + w) by (nonlinear_arith);
            }
            x = 0;
            y = y + 1;
        }
    }
    assert forall|q: int|
        pixel_done(rgb_len as int, width as int, height as int, q) && samples_chroma(
            width as int,
            q,
        ) implies #[trigger] chroma_index(width as int, q) < chroma_len(
        width as int,
        height as int,
    ) by {
        assert(q < p);
    }
    assert(chroma_fits(rgb_len as int, width as int, height as int));
    true
}

fn pixel_luma(r: u8, g: u8, b: u8) -> (v: u8)
    ensures
        v == luma(r as int, g as int, b as int),
{
    let (r, g, b) = (r as i32, g as i32, b as i32);
    let y_val = (66 * r + 129 * g + 25 * b + 128) / 256 + 16;
    if y_val < 0 {
        0
    } else if y_val > 255 {
        255
    } else {
        y_val as u8
    }
}

fn pixel_u(r: u8, g: u8, b: u8) -> (v: u8)
    ensures
        v == chroma_u(r as int, g as int, b as int),
{
    let (r, g, b) = (r as i32, g as i32, b as i32);
    let u_val = (112 * b + 128 - 38 * r - 74 * g) / 256 + 128;
    if u_val < 0 {
        0
    } else if u_val > 255 {
        255
    } else {
        u_val as u8
    }
}

fn pixel_v(r: u8, g: u8, b: u8) -> (v: u8)
    ensures
        v == chroma_v(r as int, g as int, b as int),
{
    let (r, g, b) = (r as i32, g as i32, b as i32);
    let v_val = (112 * r + 128 - 94 * g - 18 * b) / 256 + 128;
    if v_val < 0 {
        0
    } else if v_val > 255 {
        255
    } else {
        v_val as u8
    }
}

/// `yuv` is the YUV 4:2:0 conversion of `rgb`, an image `w` pixels wide and
/// `h` high: the luma plane, then the U plane, then the V plane. Each pixel
/// whose three bytes are present gets its luma; each such pixel on an even row
/// and column writes its chroma to its 2x2 block's position in the U and V
/// planes (the last writer wins where blocks share a position). What no pixel
/// writes is 0.
pub open spec fn is_yuv420_of(yuv: Seq<u8>, rgb: Seq<u8>, w: int, h: int) -> bool {
    &&& yuv.len() == yuv_len(w, h)
    &&& forall|p: int|
        0 <= p < luma_len(w, h) ==> #[trigger] yuv[p] == (if pixel_done(rgb.len() as int, w, h, p) {
            luma_at(rgb, p)
        } else {
            0
        })
    &&& forall|c: int|
        0 <= c < chroma_len(w, h) ==> yuv[luma_len(w, h) + c] == #[trigger] u_sample(rgb, w, h, c)
    &&& forall|c: int|
        0 <= c && luma_len(w, h) + chroma_len(w, h) + c < yuv_len(w, h) ==> yuv[luma_len(w, h)
            + chroma_len(w, h) + c] == #[trigger] v_sample(rgb, w, h, c)
}

/// Converts packed RGB24 pixels, row after row, to a YUV 4:2:0 buffer (see
/// `is_yuv420_of`).
pub fn rgb_to_yuv420p(rgb_data: &[u8], width: u32, height: u32) -> (yuv: Vec<u8>)
    requires
        width * height * 3 <= u32::MAX,
        chroma_fits(rgb_data@.len() as int, width as int, height as int),
    ensures
        is_yuv420_of(yuv@, rgb_data@, width as int, height as int),
{
    let ghost len = rgb_data@.len() as int;
    let ghost wi = width as int;
    let ghost hi = height as int;
    let w = width as usize;
    assert(w as int == width as int);
    let npix = (width * height) as usize;
    let total = ((width * height * 3) / 2) as usize;
    let uv_size = npix / 4;
    let v_base = npix + uv_size;
    proof {
        lemma_plane_lengths(npix as int);
        if w == 0 {
            assert(w * height == 0) by (nonlinear_arith)
                requires
                    w == 0,
            ;
        }
    }
    let mut yuv: Vec<u8> = vec![0u8; total];
    let mut p: usize = 0;
    let mut x: usize = 0;
    let mut y: usize = 0;
    while p < npix
        invariant
            npix == w * height,
            w as int == wi,
            hi == height as int,
            len == rgb_data@.len(),
            total == yuv_len(wi, hi),
            uv_size == chroma_len(wi, hi),
            v_base == npix + uv_size,
            v_base <= total,
            total - v_base >= uv_size,
            npix * 3 <= u32::MAX,
            chroma_fits(len, wi, hi),
            p <= npix,
            p == y * w + x,
            p < npix ==> x < w,
            forall|q: int| 0 <= q < p ==> pixel_done(len, wi, hi, q),
            yuv@.len() == total,
            forall|q: int|
                0 <= q < npix ==> #[trigger] yuv@[q] == (if q < p {
                    luma_at(rgb_data@, q)
                } else {
                    0
                }),
            forall|c: int|
                0 <= c < uv_size ==> yuv@[npix + c] == match #[trigger] last_chroma_writer(
                    len,
                    wi,
                    hi,
                    p as nat,
                    c,
                ) {
                    Some(q) => chroma_u_at(rgb_data@, q as int),
                    None => 0,
                },
            forall|c: int|
                0 <= c && v_base + c < total ==> yuv@[v_base + c] == match #[trigger] last_chroma_writer(
                    len,
                    wi,
                    hi,
                    p as nat,
                    c,
                ) {
                    Some(q) => chroma_v_at(rgb_data@, q as int),
                    None => 0,
                },
        ensures
            p == npix || p * 3 + 2 >= len,
        decreases npix - p,
    {
        if p * 3 + 2 >= rgb_data.len() {
            break;
        }
        proof {
            vstd::arithmetic::div_mod::lemma_fundamental_div_mod_converse(
                p as int,
                w as int,
                y as int,
                x as int,
            );
            vstd::arithmetic::mul::lemma_mul_inequality((y / 2) as int, y as int, w as int);
        }
        let ghost before = yuv@;
        let r = rgb_data[p * 3];
        let g = rgb_data[p * 3 + 1];
        let b = rgb_data[p * 3 + 2];
        let y_byte = pixel_luma(r, g, b);
        yuv.set(p, y_byte);
        assert(pixel_done(len, wi, hi, p as int));
        if x % 2 == 0 && y % 2 == 0 {
            let uvi = (y / 2 * w) / 2 + x / 2;
            assert(samples_chroma(wi, p as int));
            assert(chroma_index(wi, p as int) == uvi);
            assert(uvi < uv_size);
            let u_byte = pixel_u(r, g, b);
            let v_byte = pixel_v(r, g, b);
            yuv.set(npix + uvi, u_byte);
            let ghost mid = yuv@;
            yuv.set(v_base + uvi, v_byte);
            proof {
                assert(yuv@[npix + uvi] == mid[npix + uvi]);
                assert forall|c: int| 0 <= c < uv_size implies yuv@[npix + c] == match #[trigger] last_chroma_writer(
                    len,
                    wi,
                    hi,
                    (p + 1) as nat,
                    c,
                ) {
                    Some(q) => chroma_u_at(rgb_data@, q as int),
                    None => 0,
                } by {
                    assert(writes_chroma(len, wi, hi, p as int, c) == (c == uvi));
                    if c != uvi {
                        assert(yuv@[npix + c] == before[npix + c]);
                        assert(before[npix + c] == match last_chroma_writer(len, wi, hi, p as nat, c) {
                            Some(q) => chroma_u_at(rgb_data@, q as int),
                            None => 0,
                        });
                    } else {
                        assert(yuv@[npix + c] == u_byte);
                    }
                }
                assert forall|c: int| 0 <= c && v_base + c < total implies yuv@[v_base + c] == match #[trigger] last_chroma_writer(
                    len,
                    wi,
                    hi,
                    (p + 1) as nat,
                    c,
                ) {
                    Some(q) => chroma_v_at(rgb_data@, q as int),
                    None => 0,
                } by {
                    assert(writes_chroma(len, wi, hi, p as int, c) == (c == uvi));
                    if c != uvi {
                        assert(yuv@[v_base + c] == before[v_base + c]);
                        assert(before[v_base + c] == match last_chroma_writer(len, wi, hi, p as nat, c) {
                            Some(q) => chroma_v_at(rgb_data@, q as int),
                            None => 0,
                        });
                    } else {
                        assert(yuv@[v_base + c] == v_byte);
                    }
                }
            }
        } else {
            proof {
                assert(!samples_chroma(wi, p as int));
                assert forall|c: int| 0 <= c < uv_size implies yuv@[npix + c] == match #[trigger] last_chroma_writer(
                    len,
                    wi,
                    hi,
                    (p + 1) as nat,
                    c,
                ) {
                    Some(q) => chroma_u_at(rgb_data@, q as int),
                    None => 0,
                } by {
                    assert(!writes_chroma(len, wi, hi, p as int, c));
                    assert(yuv@[npix + c] == before[npix + c]);
                    assert(before[npix + c] == match last_chroma_writer(len, wi, hi, p as nat, c) {
                        Some(q) => chroma_u_at(rgb_data@, q as int),
                        None => 0,
                    });
                }
                assert forall|c: int| 0 <= c && v_base + c < total implies yuv@[v_base + c] == match #[trigger] last_chroma_writer(
                    len,
                    wi,
                    hi,
                    (p + 1) as nat,
                    c,
                ) {
                    Some(q) => chroma_v_at(rgb_data@, q as int),
                    None => 0,
                } by {
                    assert(!writes_chroma(len, wi, hi, p as int, c));
                    assert(yuv@[v_base + c] == before[v_base + c]);
                    assert(before[v_base + c] == match last_chroma_writer(len, wi, hi, p as nat, c) {
                        Some(q) => chroma_v_at(rgb_data@, q as int),
                        None => 0,
                    });
                }
            }
        }
        p = p + 1;
        x = x + 1;
        if x == w {
            proof {
                assert((y + 1) * w == y * w + w) by (nonlinear_arith);
            }
            x = 0;
            y = y + 1;
        }
    }
    proof {
        assert forall|q: int| p <= q < npix implies !pixel_done(len, wi, hi, q) by {
            if p < npix {
                assert(p * 3 + 2 >= len);
            }
        }
        assert forall|c: int| #[trigger] last_chroma_writer(len, wi, hi, npix as nat, c)
            == last_chroma_writer(len, wi, hi, p as nat, c) by {
            lemma_writer_unchanged(len, wi, hi, p as nat, npix as nat, c);
        }
        assert forall|c: int| 0 <= c < uv_size implies yuv@[npix + c] == #[trigger] u_sample(
            rgb_data@,
            wi,
            hi,
            c,
        ) by {
            assert(last_chroma_writer(len, wi, hi, npix as nat, c) == last_chroma_writer(
                len,
                wi,
                hi,
                p as nat,
                c,
            ));
        }
        assert forall|c: int| 0 <= c && v_base + c < total implies yuv@[v_base + c]
            == #[trigger] v_sample(rgb_data@, wi, hi, c) by {
            assert(last_chroma_writer(len, wi, hi, npix as nat, c) == last_chroma_writer(
                len,
                wi,
                hi,
                p as nat,
                c,
            ));
        }
    }
    yuv
}

} // verus!
