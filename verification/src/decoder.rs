//! Decoded YUV420P frames: taking the three planes out of a decoder's
//! buffers, whose rows may be padded beyond the visible width.

use vstd::prelude::*;

verus! {

/// A decoded frame in YUV420P.
#[derive(Debug)]
pub struct DecodedFrame {
    pub width: u32,
    pub height: u32,
    /// Luma, `width * height` bytes.
    pub y_plane: Vec<u8>,
    /// Blue-difference chroma, `(width / 2) * (height / 2)` bytes.
    pub u_plane: Vec<u8>,
    /// Red-difference chroma, `(width / 2) * (height / 2)` bytes.
    pub v_plane: Vec<u8>,
}

/// `plane` holds the visible `w` bytes of each of the `h` rows of `data`,
/// whose rows begin every `stride` bytes, row after row.
pub open spec fn is_plane_of(plane: Seq<u8>, data: Seq<u8>, stride: int, w: int, h: int) -> bool {
    &&& plane.len() == w * h
    &&& forall|r: int, c: int|
        0 <= r < h && 0 <= c < w ==> #[trigger] plane[r * w + c] == data[r * stride + c]
}

/// A buffer holds `h` rows of `w` visible bytes `stride` apart.
pub open spec fn holds_rows(data: Seq<u8>, stride: int, w: int, h: int) -> bool {
    h == 0 || (w <= stride && (h - 1) * stride + w <= data.len())
}

proof fn lemma_row_positions(r: int, c: int, rr: int, cc: int, w: int)
    requires
        0 <= rr,
        0 <= cc < w,
        0 <= c,
        (rr < r) || (rr == r && cc < c),
    ensures
        rr * w + cc < r * w + c,
        0 <= rr * w + cc,
{
    assert(rr * w + cc < r * w + c) by (nonlinear_arith)
        requires
            0 <= rr,
            0 <= cc < w,
            0 <= c,
            (rr < r) || (rr == r && cc < c),
    ;
    assert(0 <= rr * w + cc) by (nonlinear_arith)
        requires
            0 <= rr,
            0 <= cc,
            0 <= w,
    ;
}

proof fn lemma_row_bounds(r: int, c: int, stride: int, w: int, h: int, len: int)
    requires
        0 <= r < h,
        0 <= c < w,
        w <= stride,
        (h - 1) * stride + w <= len,
    ensures
        0 <= r * stride + c < len,
        r * stride + c + 1 <= (h - 1) * stride + w,
{
    assert(r * stride <= (h - 1) * stride) by (nonlinear_arith)
        requires
            0 <= r <= h - 1,
            0 <= stride,
    ;
    assert(0 <= r * stride) by (nonlinear_arith)
        requires
            0 <= r,
            0 <= stride,
    ;
}

fn copy_plane(data: &[u8], stride: usize, w: usize, h: usize) -> (plane: Vec<u8>)
    requires
        holds_rows(data@, stride as int, w as int, h as int),
        w * h <= usize::MAX,
    ensures
        is_plane_of(plane@, data@, stride as int, w as int, h as int),
{
    let mut plane: Vec<u8> = Vec::new();
    let mut r: usize = 0;
    while r < h
        invariant
            r <= h,
            holds_rows(data@, stride as int, w as int, h as int),
            w * h <= usize::MAX,
            plane@.len() == r * w,
            forall|rr: int, cc: int|
                0 <= rr < r && 0 <= cc < w ==> #[trigger] plane@[rr * w + cc] == data@[rr * stride + cc],
        decreases h - r,
    {
        let mut c: usize = 0;
        proof {
            assert(r * w + w <= w * h) by (nonlinear_arith)
                requires
                    r < h,
            ;
        }
        while c < w
            invariant
                r < h,
                c <= w,
                holds_rows(data@, stride as int, w as int, h as int),
                w * h <= usize::MAX,
                r * w + w <= w * h,
                plane@.len() == r * w + c,
                forall|rr: int, cc: int|
                    ((0 <= rr < r && 0 <= cc < w) || (rr == r && 0 <= cc < c)) ==> #[trigger] plane@[rr
                        * w + cc] == data@[rr * stride + cc],
            decreases w - c,
        {
            proof {
                lemma_row_bounds(r as int, c as int, stride as int, w as int, h as int, data@.len() as int);
                assert(data@.len() == data.len());
            }
            let idx: usize = r * stride + c;
            let ghost before = plane@;
            plane.push(data[idx]);
            proof {
                assert forall|rr: int, cc: int|
                    ((0 <= rr < r && 0 <= cc < w) || (rr == r && 0 <= cc < c + 1)) implies #[trigger] plane@[rr
                        * w + cc] == data@[rr * stride + cc] by {
                    if rr == r && cc == c {
                    } else {
                        lemma_row_positions(r as int, c as int, rr, cc, w as int);
                        assert(plane@[rr * w + cc] == before[rr * w + cc]);
                    }
                }
            }
            c += 1;
        }
        proof {
            assert((r + 1) * w == r * w + w) by (nonlinear_arith);
        }
        r += 1;
    }
    proof {
        assert(r * w == w * h) by (nonlinear_arith)
            requires
                r == h,
        ;
    }
    plane
}

/// The message for a decoded frame without pixels.
pub open spec fn zero_size_text() -> Seq<char> {
    "Decoded frame has zero dimensions"@
}

/// Takes the planes of a decoded `width`x`height` frame out of the decoder's
/// buffers: the luma at full size, the two chroma planes at half width and
/// half height, each row without its padding. A frame without pixels is
/// refused.
pub fn extract_frame(
    width: u32,
    height: u32,
    y_data: &[u8],
    y_stride: usize,
    u_data: &[u8],
    u_stride: usize,
    v_data: &[u8],
    v_stride: usize,
) -> (r: Result<DecodedFrame, String>)
    requires
        width * height <= u32::MAX,
        holds_rows(y_data@, y_stride as int, width as int, height as int),
        holds_rows(u_data@, u_stride as int, (width / 2) as int, (height / 2) as int),
        holds_rows(v_data@, v_stride as int, (width / 2) as int, (height / 2) as int),
    ensures
        (width == 0 || height == 0) ==> (r matches Err(e) && e@ == zero_size_text()),
        (width != 0 && height != 0) ==> {
            &&& r matches Ok(f)
            &&& f.width == width
            &&& f.height == height
            &&& is_plane_of(f.y_plane@, y_data@, y_stride as int, width as int, height as int)
            &&& is_plane_of(f.u_plane@, u_data@, u_stride as int, (width / 2) as int, (height / 2) as int)
            &&& is_plane_of(f.v_plane@, v_data@, v_stride as int, (width / 2) as int, (height / 2) as int)
        },
{
    if width == 0 || height == 0 {
        return Err("Decoded frame has zero dimensions".to_owned());
    }
    let w = width as usize;
    let h = height as usize;
    let cw = (width / 2) as usize;
    let ch = (height / 2) as usize;
    proof {
        assert((width / 2) * (height / 2) <= width * height) by (nonlinear_arith);
    }
    let y_plane = copy_plane(y_data, y_stride, w, h);
    let u_plane = copy_plane(u_data, u_stride, cw, ch);
    let v_plane = copy_plane(v_data, v_stride, cw, ch);
    Ok(DecodedFrame { width, height, y_plane, u_plane, v_plane })
}

} // verus!
