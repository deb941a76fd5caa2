//! The one thumbnail source produced per request, and best-frame
//! extraction from a set of scored candidates.

use vstd::prelude::*;

verus! {

use crate::encode::{
    cover_png_outcome, cover_thumbnail_png, encode_frame_png, png_image_of, text_views,
};
use crate::error::{Error, ErrorKind};
use crate::frame::{frame_wf, normalize_frame, tight_bytes, CandidateFrame};
use crate::score::{score_le, score_lt, select_best, variance, variance_num, FrameScore};

/// What a request produces: either a decoded, tightly packed video frame
/// with its dimensions, or the raw bytes of an embedded cover image.
/// Exactly one is produced per successful request.
#[derive(Debug)]
pub enum ThumbnailSource {
    VideoFrame(u32, u32, Vec<u8>),
    CoverArt(Vec<u8>),
}

/// A video-frame source carries a tightly packed RGB8 buffer: exactly
/// three bytes per pixel, no stride padding.
pub open spec fn thumbnail_source_wf(s: ThumbnailSource) -> bool {
    match s {
        ThumbnailSource::VideoFrame(w, h, buf) => buf@.len() == 3 * w * h,
        ThumbnailSource::CoverArt(_) => true,
    }
}

/// The exact variance score of a candidate frame's effective bytes.
pub open spec fn frame_score(f: CandidateFrame) -> FrameScore {
    FrameScore {
        num: variance_num(
            tight_bytes(f.data@, f.width as int, f.height as int, f.stride as int)) as u128,
        count: (3 * f.width * f.height) as u32,
    }
}

/// The scores of a sequence of candidate frames.
pub open spec fn frame_scores(frames: Seq<CandidateFrame>) -> Seq<FrameScore> {
    frames.map_values(|f: CandidateFrame| frame_score(f))
}

/// Whether index `b` holds the first maximum of the score sequence: no
/// score is higher, and every earlier score is strictly lower.
pub open spec fn is_first_max(scores: Seq<FrameScore>, b: int) -> bool {
    &&& 0 <= b < scores.len()
    &&& forall|j: int| 0 <= j < scores.len() ==> score_le(#[trigger] scores[j], scores[b])
    &&& forall|j: int| 0 <= j < b ==> score_lt(#[trigger] scores[j], scores[b])
}

/// Best-frame selection is deterministic: at most one index can hold the
/// first maximum of a score sequence, so repeated runs over identical
/// candidates in identical order pick the same frame.
pub proof fn lemma_first_max_unique(scores: Seq<FrameScore>, b1: int, b2: int)
    requires
        is_first_max(scores, b1),
        is_first_max(scores, b2),
    ensures
        b1 == b2,
{
    if b1 < b2 {
        assert(score_lt(scores[b1], scores[b2]));
        assert(score_le(scores[b2], scores[b1]));
    } else if b2 < b1 {
        assert(score_lt(scores[b2], scores[b1]));
        assert(score_le(scores[b1], scores[b2]));
    }
}

/// Scores every candidate frame by the variance of its effective bytes
/// and returns the best one — the highest score wins, an exact tie goes
/// to the earliest candidate — as a tightly packed video-frame source.
/// Fails exactly when there is no candidate at all.
pub fn pick_best_frame(frames: &Vec<CandidateFrame>) -> (r: Result<ThumbnailSource, Error>)
    requires
        forall|i: int| 0 <= i < frames@.len() ==> frame_wf(#[trigger] frames@[i]),
    ensures
        frames@.len() == 0 <==> (r matches Err(e) && e.kind == ErrorKind::ExtractionFailed),
        frames@.len() > 0 ==> (r matches Ok(src) && exists|b: int|
            {
                &&& #[trigger] is_first_max(frame_scores(frames@), b)
                &&& src matches ThumbnailSource::VideoFrame(w, h, buf)
                    && w == frames@[b].width
                    && h == frames@[b].height
                    && buf@ == tight_bytes(
                        frames@[b].data@,
                        frames@[b].width as int,
                        frames@[b].height as int,
                        frames@[b].stride as int)
            }),
        r matches Ok(src) ==> thumbnail_source_wf(src),
{
    let mut scores: Vec<FrameScore> = Vec::new();
    let mut i: usize = 0;
    while i < frames.len()
        invariant
            i <= frames@.len(),
            scores@.len() == i,
            forall|k: int| 0 <= k < frames@.len() ==> frame_wf(#[trigger] frames@[k]),
            forall|j: int| 0 <= j < i ==> scores@[j] == frame_score(#[trigger] frames@[j]),
        decreases frames@.len() - i,
    {
        let f = &frames[i];
        let s = variance(f.data.as_slice(), f.width, f.stride, f.height);
        proof {
            assert(s == frame_score(frames@[i as int]));
        }
        scores.push(s);
        i = i + 1;
    }
    proof {
        assert(scores@ =~= frame_scores(frames@));
        assert forall|k: int| 0 <= k < scores@.len()
            implies crate::score::score_wf(#[trigger] scores@[k]) by {
            assert(frame_wf(frames@[k]));
            assert(3 * frames@[k].width as int * frames@[k].height as int >= 1) by (nonlinear_arith)
                requires frames@[k].width >= 1, frames@[k].height >= 1;
        }
    }
    match select_best(&scores) {
        None => Err(Error::new(
            ErrorKind::ExtractionFailed,
            String::from_str("No candidate frame could be extracted"),
        )),
        Some(best) => {
            let chosen = &frames[best];
            let buf = normalize_frame(chosen);
            proof {
                assert(is_first_max(frame_scores(frames@), best as int));
            }
            Ok(ThumbnailSource::VideoFrame(chosen.width, chosen.height, buf))
        }
    }
}

impl ThumbnailSource {
    /// Serializes this source as a PNG image within the given maximum
    /// dimension. A video frame is already at its target size and is
    /// encoded as delivered; cover art is decoded, scaled by the two-pass
    /// resample, and re-encoded.
    pub fn encode_png(&self, size: u16) -> (r: Result<Vec<u8>, Error>)
        requires
            thumbnail_source_wf(*self),
            size >= 1,
        ensures
            match *self {
                ThumbnailSource::VideoFrame(w, h, buf) => {
                    &&& (r is Ok) <==> (w >= 1 && h >= 1)
                    &&& (r matches Ok(b) ==> b@ == png_image_of(
                        w as int, h as int, buf@, Seq::<(Seq<char>, Seq<char>)>::empty()))
                    &&& (r matches Err(e) ==> e.kind == ErrorKind::EncodeFailed)
                }
                ThumbnailSource::CoverArt(bytes) => cover_png_outcome(bytes@, size as int, r),
            },
    {
        match self {
            ThumbnailSource::VideoFrame(w, h, buf) => {
                let texts: Vec<(String, String)> = Vec::new();
                proof {
                    assert(text_views(texts@) =~= Seq::<(Seq<char>, Seq<char>)>::empty());
                }
                encode_frame_png(*w, *h, buf, &texts)
            }
            ThumbnailSource::CoverArt(bytes) => cover_thumbnail_png(bytes, size),
        }
    }
}

} // verus!
