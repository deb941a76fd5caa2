//! Candidate frames and stride-padding removal.
//!
//! A delivered frame's rows may be padded: each row occupies `stride`
//! bytes of the buffer, of which only the first `width * 3` are pixel
//! data. Normalizing copies exactly those effective bytes into a tightly
//! packed buffer; no padding byte may leak into the output.

use vstd::prelude::*;

verus! {

use crate::arith::{lemma_mul_bound, lemma_row_col};

/// A decoded RGB8 frame as delivered by the media source: `height` rows of
/// `stride` bytes each, of which the first `width * 3` are pixel data.
#[derive(Debug)]
pub struct CandidateFrame {
    pub data: Vec<u8>,
    pub width: u32,
    pub height: u32,
    pub stride: u32,
}

/// Well-formedness of a delivered frame: positive dimensions, a stride
/// covering at least one row of pixels, a buffer covering all rows, and an
/// effective byte count small enough for exact score arithmetic.
pub open spec fn frame_wf(f: CandidateFrame) -> bool {
    &&& f.width >= 1
    &&& f.height >= 1
    &&& f.stride >= 3 * f.width
    &&& f.data@.len() >= f.stride * f.height
    &&& 3 * f.width * f.height <= u32::MAX
}

/// The effective bytes of a strided buffer, tightly packed: byte `k` of
/// the result is byte `k % (width * 3)` of row `k / (width * 3)`.
pub open spec fn tight_bytes(data: Seq<u8>, width: int, height: int, stride: int) -> Seq<u8> {
    Seq::new((3 * width * height) as nat, |k: int| data[(k / (3 * width)) * stride + k % (3 * width)])
}

/// Every byte of a tightly packed buffer comes from the effective region
/// of its source row: byte `col` of row `row` of the result is byte `col`
/// of that row in the strided buffer, and no byte at or beyond offset
/// `width * 3` within any source row appears in the result.
pub proof fn lemma_tight_bytes_index(data: Seq<u8>, width: int, height: int, stride: int, row: int, col: int)
    requires
        width >= 1,
        0 <= row < height,
        0 <= col < 3 * width,
    ensures
        0 <= row * (3 * width) + col < tight_bytes(data, width, height, stride).len(),
        tight_bytes(data, width, height, stride)[row * (3 * width) + col] == data[row * stride + col],
{
    lemma_row_col(row, col, 3 * width);
    assert(0 <= row * (3 * width) + col && (row * (3 * width)) + col < 3 * width * height)
        by (nonlinear_arith)
        requires 0 <= row < height, 0 <= col < 3 * width, width >= 1;
}

/// Copies the effective bytes of the frame into a tightly packed buffer of
/// exactly `height * width * 3` bytes, dropping every padding byte.
pub fn normalize_frame(frame: &CandidateFrame) -> (r: Vec<u8>)
    requires
        frame_wf(*frame),
    ensures
        r@.len() == 3 * frame.width * frame.height,
        r@ == tight_bytes(frame.data@, frame.width as int, frame.height as int, frame.stride as int),
{
    let w3: usize = (frame.width as usize) * 3;
    let dlen: usize = frame.data.len();
    let h: usize = frame.height as usize;
    let stride: usize = frame.stride as usize;
    let ghost tight = tight_bytes(
        frame.data@, frame.width as int, frame.height as int, frame.stride as int);
    proof {
        lemma_mul_bound(3 * frame.width as int, u32::MAX as int, frame.height as int, u32::MAX as int);
        lemma_mul_bound(frame.stride as int, u32::MAX as int, frame.height as int, u32::MAX as int);
        // 3 * width fits because 3 * width * height is bounded and height >= 1
        assert(3 * frame.width <= 3 * frame.width * frame.height) by (nonlinear_arith)
            requires frame.height >= 1, frame.width >= 0;
    }
    let mut out: Vec<u8> = Vec::new();
    let mut row: usize = 0;
    while row < h
        invariant
            row <= h,
            h == frame.height,
            w3 == 3 * frame.width,
            stride == frame.stride,
            frame_wf(*frame),
            dlen == frame.data@.len(),
            tight == tight_bytes(
                frame.data@, frame.width as int, frame.height as int, frame.stride as int),
            out@.len() == row * w3,
            out@.len() <= tight.len(),
            forall|k: int| 0 <= k < out@.len() ==> out@[k] == tight[k],
        decreases h - row,
    {
        proof {
            lemma_mul_bound(row + 1, frame.height as int, frame.stride as int, u32::MAX as int);
            lemma_mul_bound(row + 1, frame.height as int, 3 * frame.width as int, u32::MAX as int);
            assert((row + 1) * stride <= frame.height * frame.stride) by (nonlinear_arith)
                requires row + 1 <= frame.height, stride == frame.stride, 0 <= frame.stride;
            assert(frame.height * frame.stride == frame.stride * frame.height) by (nonlinear_arith);
            assert((row + 1) * w3 <= 3 * frame.width * frame.height) by (nonlinear_arith)
                requires row + 1 <= frame.height, w3 == 3 * frame.width, 0 <= w3;
            assert((row + 1) * stride == row * stride + stride) by (nonlinear_arith);
            assert((row + 1) * w3 == row * w3 + w3) by (nonlinear_arith);
        }
        let mut col: usize = 0;
        while col < w3
            invariant
                col <= w3,
                row < h,
                h == frame.height,
                w3 == 3 * frame.width,
                stride == frame.stride,
                frame_wf(*frame),
                tight == tight_bytes(
                    frame.data@, frame.width as int, frame.height as int, frame.stride as int),
                dlen == frame.data@.len(),
                (row + 1) * stride <= dlen,
                (row + 1) * w3 <= tight.len(),
                row * w3 + col <= row * w3 + w3,
                (row * w3 + w3) == (row + 1) * w3,
                (row * stride + w3) <= (row + 1) * stride,
                out@.len() == row * w3 + col,
                forall|k: int| 0 <= k < out@.len() ==> out@[k] == tight[k],
            decreases w3 - col,
        {
            proof {
                lemma_row_col(row as int, col as int, w3 as int);
                assert(row * stride + stride == (row + 1) * stride) by (nonlinear_arith);
                assert(row * stride + col < (row + 1) * stride);
                assert(row * stride + col < dlen);
                assert(tight[row as int * w3 as int + col as int]
                    == frame.data@[row as int * stride as int + col as int]);
            }
            let b = frame.data[row * stride + col];
            out.push(b);
            col = col + 1;
        }
        row = row + 1;
        proof {
            assert(row * w3 == (row - 1) * w3 + w3) by (nonlinear_arith);
        }
    }
    proof {
        assert(out@.len() == h * w3 == tight.len()) by (nonlinear_arith)
            requires out@.len() == h * w3, h == frame.height, w3 == 3 * frame.width,
                tight.len() == 3 * frame.width * frame.height;
        assert(out@ =~= tight);
    }
    out
}

} // verus!
