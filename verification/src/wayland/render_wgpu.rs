//! What a frame upload to the GPU texture must satisfy, and the size the
//! surface is configured with.
use vstd::prelude::*;

verus! {

/// Why a frame was not uploaded.
#[derive(Debug, Clone, Copy, PartialEq, Eq, Structural)]
pub enum UploadError {
    /// A side exceeds the GPU's texture limit.
    TooLarge { width: u32, height: u32, max: u32 },
    /// The row stride is shorter than a packed row.
    BadStride { got: u32, expected: u64 },
    /// The payload is shorter than the frame needs.
    ShortPayload { got: usize, expected: u64 },
}

/// The bytes a frame of `height` rows `stride` bytes apart needs: every
/// row but the last in full, and the packed last row.
pub open spec fn needed_bytes(width: u32, height: u32, stride: u32) -> int {
    if height == 0 {
        0
    } else {
        stride * (height - 1) + width * 4
    }
}

/// Checks a BGRA frame before upload and gives the number of its bytes
/// that are copied: refused when a side exceeds the texture limit, when
/// the stride is shorter than a packed row, or when the payload is shorter
/// than the frame needs.
pub fn check_bgra_upload(width: u32, height: u32, stride: u32, payload_len: usize, max_dimension: u32) -> (r:
    Result<usize, UploadError>)
    ensures
        (width > max_dimension || height > max_dimension) ==> r == Err::<usize, UploadError>(
            UploadError::TooLarge { width, height, max: max_dimension },
        ),
        !(width > max_dimension || height > max_dimension) && stride < width * 4 ==> r == Err::<
            usize,
            UploadError,
        >(UploadError::BadStride { got: stride, expected: (width * 4) as u64 }),
        !(width > max_dimension || height > max_dimension) && stride >= width * 4 && payload_len
            < needed_bytes(width, height, stride) ==> r == Err::<usize, UploadError>(
            UploadError::ShortPayload {
                got: payload_len,
                expected: needed_bytes(width, height, stride) as u64,
            },
        ),
        !(width > max_dimension || height > max_dimension) && stride >= width * 4 && payload_len
            >= needed_bytes(width, height, stride) ==> r == Ok::<usize, UploadError>(
            needed_bytes(width, height, stride) as usize,
        ),
{
    if width > max_dimension || height > max_dimension {
        return Err(UploadError::TooLarge { width, height, max: max_dimension });
    }
    let packed_row: u64 = (width as u64) * 4;
    if (stride as u64) < packed_row {
        return Err(UploadError::BadStride { got: stride, expected: packed_row });
    }
    let expected: u64 = if height == 0 {
        0
    } else {
        let s64: u64 = stride as u64;
        let h1: u64 = (height - 1) as u64;
        assert(s64 * h1 <= 0xffff_ffff * 0xffff_ffff) by (nonlinear_arith)
            requires
                s64 <= 0xffff_ffff,
                h1 <= 0xffff_ffff,
        ;
        s64 * h1 + packed_row
    };
    if (payload_len as u64) < expected {
        return Err(UploadError::ShortPayload { got: payload_len, expected });
    }
    Ok(expected as usize)
}

/// The size a surface is configured with: each side at least 1.
pub fn surface_size(width: u32, height: u32) -> (r: (u32, u32))
    ensures
        r.0 == if width >= 1 {
            width
        } else {
            1
        },
        r.1 == if height >= 1 {
            height
        } else {
            1
        },
{
    (if width >= 1 {
        width
    } else {
        1
    }, if height >= 1 {
        height
    } else {
        1
    })
}

} // verus!
