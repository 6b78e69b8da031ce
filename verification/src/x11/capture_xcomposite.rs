//! The pixel layout of frames captured from an X11 window: checking and
//! repacking what `GetImage` returns, the row stride of a pixmap format,
//! and the byte order written to PNG.
use vstd::prelude::*;

verus! {

/// A captured frame: tightly packed BGRA rows.
#[derive(Debug, Clone)]
pub struct CapturedFrame {
    pub width: u32,
    pub height: u32,
    pub stride: u32,
    pub bgra: Vec<u8>,
}

/// Why a captured image was refused.
#[derive(Debug, Clone, Copy, PartialEq, Eq, Structural)]
pub enum CaptureError {
    /// The image has fewer than 24 bits of depth.
    UnsupportedDepth(u8),
    /// The image holds fewer bytes than its size needs.
    ShortPayload { got: u64, expected: u64 },
    /// The pixmap format has fewer than 32 bits per pixel.
    UnsupportedBitsPerPixel(u8),
    /// The row stride is shorter than a packed row.
    InvalidStride { stride: usize, width: u16 },
}

/// Where byte `k` of row `r` of the packed frame comes from in an image
/// whose rows are `row_stride` bytes apart.
pub open spec fn repacked_from(data: Seq<u8>, row_bytes: int, row_stride: int, out: Seq<u8>, rows: int) -> bool {
    forall|r: int, k: int|
        0 <= r < rows && 0 <= k < row_bytes ==> #[trigger] out[r * row_bytes + k] == data[r
            * row_stride + k]
}

proof fn lemma_row_bounds(r: int, rows: int, row_bytes: int, row_stride: int, k: int)
    requires
        0 <= r < rows,
        0 <= k < row_bytes,
        row_bytes <= row_stride,
    ensures
        r * row_bytes + k < rows * row_bytes,
        r * row_stride + k < rows * row_stride,
        0 <= r * row_bytes + k,
        0 <= r * row_stride,
{
    assert(r * row_bytes + k < (r + 1) * row_bytes) by (nonlinear_arith)
        requires
            0 <= k < row_bytes,
    ;
    assert((r + 1) * row_bytes <= rows * row_bytes) by (nonlinear_arith)
        requires
            r + 1 <= rows,
            0 <= row_bytes,
    ;
    assert(r * row_stride + k < (r + 1) * row_stride) by (nonlinear_arith)
        requires
            0 <= k < row_bytes,
            row_bytes <= row_stride,
    ;
    assert((r + 1) * row_stride <= rows * row_stride) by (nonlinear_arith)
        requires
            r + 1 <= rows,
            0 <= row_stride,
    ;
    assert(0 <= r * row_bytes) by (nonlinear_arith)
        requires
            0 <= r,
            0 <= row_bytes,
    ;
    assert(0 <= r * row_stride) by (nonlinear_arith)
        requires
            0 <= r,
            0 <= row_stride,
    ;
}

/// Packs the rows of an image (`rows` rows of `row_bytes` bytes,
/// `row_stride` bytes apart in `data`) tightly.
fn repack_rows(data: &Vec<u8>, rows: usize, row_bytes: usize, row_stride: usize) -> (out: Vec<u8>)
    requires
        row_bytes <= row_stride,
        rows * row_stride <= data.len(),
        rows * row_bytes <= usize::MAX,
    ensures
        out.len() == rows * row_bytes,
        repacked_from(data@, row_bytes as int, row_stride as int, out@, rows as int),
{
    let mut out: Vec<u8> = Vec::new();
    let mut r: usize = 0;
    while r < rows
        invariant
            r <= rows,
            row_bytes <= row_stride,
            rows * row_stride <= data.len(),
            rows * row_bytes <= usize::MAX,
            out.len() == r * row_bytes,
            repacked_from(data@, row_bytes as int, row_stride as int, out@, r as int),
        decreases rows - r,
    {
        proof {
            assert(r * row_stride + row_stride <= rows * row_stride) by (nonlinear_arith)
                requires
                    r < rows,
            ;
            assert(r * row_bytes + row_bytes <= rows * row_bytes) by (nonlinear_arith)
                requires
                    r < rows,
            ;
            assert((r + 1) * row_bytes == r * row_bytes + row_bytes) by (nonlinear_arith);
        }
        let src_start = r * row_stride;
        let mut k: usize = 0;
        while k < row_bytes
            invariant
                r < rows,
                k <= row_bytes,
                row_bytes <= row_stride,
                src_start == r * row_stride,
                src_start + row_stride <= data.len(),
                out.len() == r * row_bytes + k,
                repacked_from(data@, row_bytes as int, row_stride as int, out@, r as int),
                forall|j: int| 0 <= j < k ==> #[trigger] out@[r * row_bytes + j] == data@[src_start + j],
            decreases row_bytes - k,
        {
            let ghost before = out@;
            out.push(data[src_start + k]);
            proof {
                assert forall|rr: int, kk: int|
                    0 <= rr < r && 0 <= kk < row_bytes implies #[trigger] out@[rr * row_bytes + kk]
                        == data@[rr * row_stride + kk] by {
                    lemma_row_bounds(rr, r as int, row_bytes as int, row_stride as int, kk);
                    assert(out@[rr * row_bytes + kk] == before[rr * row_bytes + kk]);
                }
                assert forall|j: int| 0 <= j < k + 1 implies #[trigger] out@[r * row_bytes + j]
                    == data@[src_start + j] by {
                    if j < k {
                        assert(out@[r * row_bytes + j] == before[r * row_bytes + j]);
                    }
                }
            }
            k += 1;
        }
        proof {
            assert forall|rr: int, kk: int|
                0 <= rr < r + 1 && 0 <= kk < row_bytes implies #[trigger] out@[rr * row_bytes + kk]
                    == data@[rr * row_stride + kk] by {
                if rr == r {
                    assert(out@[r * row_bytes + kk] == data@[src_start + kk]);
                }
            }
        }
        r += 1;
    }
    out
}

/// The frame made from what `GetImage` returned for a pixmap of the given
/// size (each side at least 1): refused below 24 bits of depth or when the
/// data is shorter than the packed frame; otherwise the data itself when
/// it is exactly that long, else its rows repacked (rows being the data's
/// length divided by the height apart).
pub open spec fn frame_from_image_ok(
    width: u16,
    height: u16,
    depth: u8,
    data: Seq<u8>,
    f: CapturedFrame,
) -> bool {
    let w = if width >= 1 {
        width as int
    } else {
        1
    };
    let h = if height >= 1 {
        height as int
    } else {
        1
    };
    let expected = w * h * 4;
    &&& depth >= 24
    &&& data.len() >= expected
    &&& f.width == w
    &&& f.height == h
    &&& f.stride == w * 4
    &&& f.bgra.len() == expected
    &&& (data.len() == expected ==> f.bgra@ == data)
    &&& repacked_from(data, w * 4, data.len() as int / h, f.bgra@, h)
}

/// Builds a packed frame from what `GetImage` returned.
pub fn frame_from_image(width: u16, height: u16, depth: u8, data: Vec<u8>) -> (r: Result<
    CapturedFrame,
    CaptureError,
>)
    ensures
        depth < 24 ==> r == Err::<CapturedFrame, CaptureError>(CaptureError::UnsupportedDepth(depth)),
        match r {
            Ok(f) => frame_from_image_ok(width, height, depth, data@, f),
            Err(CaptureError::ShortPayload { got, expected }) => depth >= 24 && got == data.len()
                && expected == (if width >= 1 {
                width as int
            } else {
                1
            }) * (if height >= 1 {
                height as int
            } else {
                1
            }) * 4 && data.len() < expected,
            Err(e) => e == CaptureError::UnsupportedDepth(depth) && depth < 24,
        },
{
    let w: usize = if width >= 1 {
        width as usize
    } else {
        1
    };
    let h: usize = if height >= 1 {
        height as usize
    } else {
        1
    };
    if depth < 24 {
        return Err(CaptureError::UnsupportedDepth(depth));
    }
    assert(w * h <= 65535 * 65535) by (nonlinear_arith)
        requires
            w <= 65535,
            h <= 65535,
    ;
    let expected64: u64 = (w as u64) * (h as u64) * 4;
    if (data.len() as u64) < expected64 {
        return Err(CaptureError::ShortPayload { got: data.len() as u64, expected: expected64 });
    }
    let expected: usize = expected64 as usize;
    let row_bytes = w * 4;
    proof {
        assert(expected == h * row_bytes) by (nonlinear_arith)
            requires
                expected == w * h * 4,
                row_bytes == w * 4,
        ;
    }
    if data.len() == expected {
        proof {
            assert forall|r: int, k: int|
                0 <= r < h && 0 <= k < row_bytes implies #[trigger] data@[r * row_bytes + k] == data@[r
                    * (data.len() as int / h as int) + k] by {
                assert(data.len() as int / h as int == row_bytes) by (nonlinear_arith)
                    requires
                        data.len() == h * row_bytes,
                        h >= 1,
                ;
            }
        }
        return Ok(
            CapturedFrame { width: w as u32, height: h as u32, stride: (w as u32) * 4, bgra: data },
        );
    }
    let row_stride = data.len() / h;
    proof {
        assert(row_stride * h <= data.len()) by (nonlinear_arith)
            requires
                row_stride == data.len() / h,
                h >= 1,
        ;
        assert(row_bytes <= row_stride) by (nonlinear_arith)
            requires
                row_stride == data.len() / h,
                h >= 1,
                data.len() >= h * row_bytes,
        ;
        assert(h * row_stride == row_stride * h) by (nonlinear_arith);
    }
    let packed = repack_rows(&data, h, row_bytes, row_stride);
    Ok(CapturedFrame { width: w as u32, height: h as u32, stride: (w as u32) * 4, bgra: packed })
}

/// The frame made from a shared-memory image of the given size (each side
/// at least 1) whose rows are `stride` bytes apart: refused below 24 bits
/// of depth or when the stride is shorter than a packed row; otherwise the
/// rows packed tightly.
pub fn frame_from_shm_rows(width: u16, height: u16, depth: u8, stride: usize, data: &Vec<u8>) -> (r:
    Result<CapturedFrame, CaptureError>)
    requires
        stride * (if height >= 1 {
            height as int
        } else {
            1
        }) <= data.len(),
    ensures
        depth < 24 ==> r == Err::<CapturedFrame, CaptureError>(CaptureError::UnsupportedDepth(depth)),
        depth >= 24 && stride < (if width >= 1 {
            width as int
        } else {
            1
        }) * 4 ==> r == Err::<CapturedFrame, CaptureError>(
            CaptureError::InvalidStride { stride, width: if width >= 1 {
                width
            } else {
                1
            } },
        ),
        match r {
            Ok(f) => {
                let w = if width >= 1 {
                    width as int
                } else {
                    1
                };
                let h = if height >= 1 {
                    height as int
                } else {
                    1
                };
                &&& depth >= 24
                &&& stride >= w * 4
                &&& f.width == w
                &&& f.height == h
                &&& f.stride == w * 4
                &&& f.bgra.len() == w * 4 * h
                &&& repacked_from(data@, w * 4, stride as int, f.bgra@, h)
            },
            Err(_) => depth < 24 || stride < (if width >= 1 {
                width as int
            } else {
                1
            }) * 4,
        },
{
    let w: u16 = if width >= 1 {
        width
    } else {
        1
    };
    let h: usize = if height >= 1 {
        height as usize
    } else {
        1
    };
    if depth < 24 {
        return Err(CaptureError::UnsupportedDepth(depth));
    }
    let row_bytes = (w as usize) * 4;
    if stride < row_bytes {
        return Err(CaptureError::InvalidStride { stride, width: w });
    }
    proof {
        assert(h * row_bytes <= h * stride) by (nonlinear_arith)
            requires
                row_bytes <= stride,
        ;
        assert(h * stride == stride * h) by (nonlinear_arith);
    }
    let packed = repack_rows(data, h, row_bytes, stride);
    proof {
        assert(h * row_bytes == row_bytes * h) by (nonlinear_arith);
    }
    Ok(CapturedFrame { width: w as u32, height: h as u32, stride: (w as u32) * 4, bgra: packed })
}

/// The row stride in bytes of a pixmap format: rows of `width` pixels of
/// `bits_per_pixel` bits, padded to a multiple of the scanline pad (taken
/// as at least 8 bits).
pub open spec fn stride_of(bits_per_pixel: nat, scanline_pad: nat, width: nat) -> nat {
    let pad: int = if scanline_pad >= 8 {
        scanline_pad as int
    } else {
        8
    };
    let row_bits: int = (width * bits_per_pixel) as int;
    ((((row_bits + pad - 1) / pad) * pad) / 8) as nat
}

/// The row stride in bytes of a pixmap format; refused below 32 bits per
/// pixel.
pub fn x11_stride_for_format(bits_per_pixel: u8, scanline_pad: u8, width: u16) -> (r: Result<
    usize,
    CaptureError,
>)
    ensures
        bits_per_pixel < 32 ==> r == Err::<usize, CaptureError>(
            CaptureError::UnsupportedBitsPerPixel(bits_per_pixel),
        ),
        bits_per_pixel >= 32 ==> r == Ok::<usize, CaptureError>(
            stride_of(bits_per_pixel as nat, scanline_pad as nat, width as nat) as usize,
        ),
{
    if bits_per_pixel < 32 {
        return Err(CaptureError::UnsupportedBitsPerPixel(bits_per_pixel));
    }
    let pad: usize = if scanline_pad >= 8 {
        scanline_pad as usize
    } else {
        8
    };
    let bpp = bits_per_pixel as usize;
    let wid = width as usize;
    assert(wid * bpp <= 65535 * 255) by (nonlinear_arith)
        requires
            wid <= 65535,
            bpp <= 255,
    ;
    let row_bits = wid * bpp;
    let units = (row_bits + pad - 1) / pad;
    assert(units * pad <= row_bits + pad) by (nonlinear_arith)
        requires
            units as int == (row_bits + pad - 1) as int / pad as int,
            pad >= 8,
    ;
    let stride_bits = units * pad;
    Ok(stride_bits / 8)
}

/// The RGBA bytes of a BGRA frame: in each whole pixel the first and third
/// bytes trade places; trailing bytes of a partial pixel stay.
pub open spec fn rgba_of(bgra: Seq<u8>, out: Seq<u8>) -> bool {
    &&& out.len() == bgra.len()
    &&& forall|i: int|
        0 <= i < bgra.len() ==> #[trigger] out[i] == if i >= bgra.len() - bgra.len() % 4 {
            bgra[i]
        } else if i % 4 == 0 {
            bgra[i + 2]
        } else if i % 4 == 2 {
            bgra[i - 2]
        } else {
            bgra[i]
        }
}

/// Turns BGRA bytes into RGBA bytes.
pub fn bgra_to_rgba(bgra: &Vec<u8>) -> (out: Vec<u8>)
    ensures
        rgba_of(bgra@, out@),
{
    let n = bgra.len();
    let whole = n - n % 4;
    let mut out: Vec<u8> = Vec::new();
    let mut i: usize = 0;
    while i < n
        invariant
            i <= n,
            n == bgra.len(),
            whole == n - n % 4,
            out.len() == i,
            forall|j: int|
                0 <= j < i ==> #[trigger] out@[j] == if j >= n - n % 4 {
                    bgra@[j]
                } else if j % 4 == 0 {
                    bgra@[j + 2]
                } else if j % 4 == 2 {
                    bgra@[j - 2]
                } else {
                    bgra@[j]
                },
        decreases n - i,
    {
        let b = if i >= whole {
            bgra[i]
        } else if i % 4 == 0 {
            assert(i + 2 < whole) by {
                assert(whole % 4 == 0);
            }
            bgra[i + 2]
        } else if i % 4 == 2 {
            bgra[i - 2]
        } else {
            bgra[i]
        };
        out.push(b);
        i += 1;
    }
    out
}

/// Swapping the colour order twice gives the frame back: turning BGRA into
/// RGBA and that again into BGRA restores every byte.
pub proof fn law_color_swap_twice_is_identity(a: Seq<u8>, b: Seq<u8>, c: Seq<u8>)
    requires
        rgba_of(a, b),
        rgba_of(b, c),
    ensures
        c == a,
{
    assert forall|i: int| 0 <= i < a.len() implies c[i] == a[i] by {
        let whole = a.len() - a.len() % 4;
        if i >= whole {
        } else if i % 4 == 0 {
            assert(b[i] == a[i + 2]);
            assert(c[i] == b[i + 2]);
            assert((i + 2) % 4 == 2);
            assert(i + 2 < whole) by {
                assert(whole % 4 == 0);
            }
            assert(b[i + 2] == a[i + 2 - 2]);
        } else if i % 4 == 2 {
            assert((i - 2) % 4 == 0);
            assert(c[i] == b[i - 2]);
            assert(b[i - 2] == a[i - 2 + 2]);
        }
    }
    assert(c =~= a);
}

} // verus!
