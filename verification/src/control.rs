//! The preroll control decisions: one synchronous state machine driven by
//! typed events pulled from the media source.
//!
//! The first usable video pad wins and its outcome is remembered; the
//! outcome is committed at the streams-selected milestone. Tag images are
//! examined for an embedded cover as they arrive; a front cover ends the
//! request at once.

use vstd::prelude::*;

verus! {

use crate::cover::{has_fallback, has_front, is_cover_choice, select_cover, TagImage};
use crate::dims::{scale_thumbnail_dimensions, scaled_dims};
use crate::error::{Error, ErrorKind};

/// The kind of elementary stream a pad delivers.
#[derive(Clone, Copy, Debug, PartialEq, Eq, Structural)]
pub enum StreamKind {
    Video,
    Audio,
    Text,
    Unknown,
}

/// What the media source reports about a newly appearing stream pad: its
/// kind, its native dimensions, and its pixel aspect ratio if it has one.
#[derive(Clone, Copy, Debug)]
pub struct PadInfo {
    pub kind: StreamKind,
    pub width: u32,
    pub height: u32,
    pub par: Option<(u32, u32)>,
}

/// A reported pixel aspect ratio has a nonzero denominator.
pub open spec fn pad_wf(p: PadInfo) -> bool {
    match p.par {
        Some(f) => f.1 >= 1,
        None => true,
    }
}

/// The pixel aspect ratio of a pad, with 1/1 for square pixels.
pub open spec fn pad_par(p: PadInfo) -> (int, int) {
    match p.par {
        Some(f) => (f.0 as int, f.1 as int),
        None => (1, 1),
    }
}

/// One event of the preroll phase, pulled synchronously by the control
/// loop.
#[derive(Debug)]
pub enum PrerollEvent {
    /// A stream pad appeared, with its reported properties.
    PadAdded(PadInfo),
    /// A tag event delivered embedded images.
    TagImages(Vec<TagImage>),
    /// All pads of the selected streams are present.
    StreamsSelected,
    /// The source reached its paused, seek-ready state.
    AsyncDone,
    /// The source failed, with its message.
    SourceError(String),
}

/// Whether a video pad has been accepted yet: the first usable pad wins
/// and is remembered; a rejection keeps its reason until a later pad is
/// accepted; the outcome is committed when the streams are selected.
#[derive(Debug)]
pub enum LinkState {
    /// No pad has appeared yet.
    AwaitingLink,
    /// A video pad was accepted, with the thumbnail dimensions its decoded
    /// output is configured to.
    Linked(u32, u32),
    /// Every pad so far was unusable, for this reason.
    Rejected(Error),
}

/// What the control loop must do after handling one preroll event.
#[derive(Debug)]
pub enum PrerollStep {
    /// Keep pulling events.
    Continue,
    /// Configure the decoder to output this size, then keep pulling.
    ConfigureCaps(u32, u32),
    /// An embedded cover was found: finish with it.
    UseCover(Vec<u8>),
    /// Preroll is done and no cover was found: proceed to frame
    /// extraction.
    ProceedToFrames,
    /// The request fails.
    Fail(Error),
}

/// The message naming the kind of a non-video stream.
pub open spec fn wrong_kind_message(k: StreamKind) -> Seq<char> {
    match k {
        StreamKind::Audio => "Stream is of type 'audio' instead of 'video'"@,
        StreamKind::Text => "Stream is of type 'text' instead of 'video'"@,
        _ => "Stream is of type 'unknown' instead of 'video'"@,
    }
}

/// The decision for a newly appearing pad: once a pad is linked, later
/// pads are ignored; a non-video pad records a wrong-stream-type
/// rejection (a later video pad may still be accepted); a video pad is
/// accepted, and the decoder is configured to produce frames already
/// scaled to the thumbnail dimensions.
pub fn on_pad_added(state: LinkState, pad: &PadInfo, size: u16) -> (r: (LinkState, PrerollStep))
    requires
        pad_wf(*pad),
        size >= 1,
    ensures
        state matches LinkState::Linked(w, h) ==> (
            r.0 == LinkState::Linked(w, h) && r.1 is Continue),
        !(state is Linked) && !(pad.kind is Video) ==> (
            r.0 matches LinkState::Rejected(e)
                && e.kind == ErrorKind::WrongStreamType
                && e.message@ == wrong_kind_message(pad.kind)
                && r.1 is Continue),
        !(state is Linked) && pad.kind is Video ==> {
            let dims = scaled_dims(
                pad.width as int, pad.height as int,
                pad_par(*pad).0, pad_par(*pad).1, size as int);
            &&& r.0 == LinkState::Linked(dims.0 as u32, dims.1 as u32)
            &&& r.1 == PrerollStep::ConfigureCaps(dims.0 as u32, dims.1 as u32)
        },
{
    match state {
        LinkState::Linked(w, h) => (LinkState::Linked(w, h), PrerollStep::Continue),
        _ => {
            match pad.kind {
                StreamKind::Video => {
                    let (pn, pd) = match pad.par {
                        Some(f) => f,
                        None => (1, 1),
                    };
                    let (tw, th) = scale_thumbnail_dimensions(pad.width, pad.height, pn, pd, size);
                    (LinkState::Linked(tw, th), PrerollStep::ConfigureCaps(tw, th))
                }
                StreamKind::Audio => (
                    LinkState::Rejected(Error::new(
                        ErrorKind::WrongStreamType,
                        String::from_str("Stream is of type 'audio' instead of 'video'"),
                    )),
                    PrerollStep::Continue,
                ),
                StreamKind::Text => (
                    LinkState::Rejected(Error::new(
                        ErrorKind::WrongStreamType,
                        String::from_str("Stream is of type 'text' instead of 'video'"),
                    )),
                    PrerollStep::Continue,
                ),
                StreamKind::Unknown => (
                    LinkState::Rejected(Error::new(
                        ErrorKind::WrongStreamType,
                        String::from_str("Stream is of type 'unknown' instead of 'video'"),
                    )),
                    PrerollStep::Continue,
                ),
            }
        }
    }
}

/// The decision for a tag event: the first front cover wins immediately;
/// otherwise the first undefined or unclassified image is the fallback;
/// other classifications are ignored and the loop continues.
pub fn on_tag_images(tags: Vec<TagImage>) -> (r: PrerollStep)
    ensures
        has_front(tags@) || has_fallback(tags@) ==> (r matches PrerollStep::UseCover(data)
            && exists|i: int| #[trigger] is_cover_choice(tags@, i) && data@ == tags@[i].data@),
        !has_front(tags@) && !has_fallback(tags@) ==> r is Continue,
{
    let mut tags = tags;
    let ghost orig = tags@;
    match select_cover(&tags) {
        Some(i) => {
            let chosen = tags.remove(i);
            proof {
                assert(chosen.data@ == orig[i as int].data@);
            }
            PrerollStep::UseCover(chosen.data)
        }
        None => PrerollStep::Continue,
    }
}

/// The decision at the streams-selected milestone: the remembered link
/// outcome is committed. A linked pad continues; no pad at all is a
/// source failure; a recorded rejection surfaces now. (After a failure
/// the returned state is a fresh one; the request is over.)
pub fn commit_streams_selected(state: LinkState) -> (r: (LinkState, PrerollStep))
    ensures
        state matches LinkState::Linked(w, h) ==> (
            r.0 == LinkState::Linked(w, h) && r.1 is Continue),
        state is AwaitingLink ==> {
            &&& r.0 is AwaitingLink
            &&& r.1 matches PrerollStep::Fail(e)
                && e.kind == ErrorKind::SourceUnavailable
                && e.message@ == "No pad added for source."@
        },
        state matches LinkState::Rejected(e) ==> {
            &&& r.0 is AwaitingLink
            &&& r.1 == PrerollStep::Fail(e)
        },
{
    match state {
        LinkState::Linked(w, h) => (LinkState::Linked(w, h), PrerollStep::Continue),
        LinkState::AwaitingLink => (
            LinkState::AwaitingLink,
            PrerollStep::Fail(Error::new(
                ErrorKind::SourceUnavailable,
                String::from_str("No pad added for source."),
            )),
        ),
        LinkState::Rejected(e) => (LinkState::AwaitingLink, PrerollStep::Fail(e)),
    }
}

/// The decision for one preroll event of a video request.
pub fn video_preroll_step(
    state: LinkState,
    event: PrerollEvent,
    size: u16,
) -> (r: (LinkState, PrerollStep))
    requires
        size >= 1,
        event matches PrerollEvent::PadAdded(p) ==> pad_wf(p),
    ensures
        event matches PrerollEvent::AsyncDone ==> r.1 is ProceedToFrames,
        event matches PrerollEvent::SourceError(m) ==> (
            r.1 matches PrerollStep::Fail(e)
                && e.kind == ErrorKind::SourceUnavailable
                && e.message@ == "Failed pre-rolling pipeline: "@ + m@),
        event matches PrerollEvent::TagImages(tags) ==> {
            &&& (has_front(tags@) || has_fallback(tags@)) ==> (
                r.1 matches PrerollStep::UseCover(data)
                    && exists|i: int| #[trigger] is_cover_choice(tags@, i) && data@ == tags@[i].data@)
            &&& (!has_front(tags@) && !has_fallback(tags@)) ==> r.1 is Continue
        },
        event matches PrerollEvent::PadAdded(p) ==> {
            &&& (state matches LinkState::Linked(w, h) ==> (
                r.0 == LinkState::Linked(w, h) && r.1 is Continue))
            &&& (!(state is Linked) && !(p.kind is Video) ==> (
                r.0 matches LinkState::Rejected(e)
                    && e.kind == ErrorKind::WrongStreamType
                    && e.message@ == wrong_kind_message(p.kind)
                    && r.1 is Continue))
            &&& (!(state is Linked) && p.kind is Video ==> {
                let dims = scaled_dims(
                    p.width as int, p.height as int, pad_par(p).0, pad_par(p).1, size as int);
                &&& r.0 == LinkState::Linked(dims.0 as u32, dims.1 as u32)
                &&& r.1 == PrerollStep::ConfigureCaps(dims.0 as u32, dims.1 as u32)
            })
        },
        event matches PrerollEvent::StreamsSelected ==> {
            &&& (state matches LinkState::Linked(w, h) ==> (
                r.0 == LinkState::Linked(w, h) && r.1 is Continue))
            &&& (state is AwaitingLink ==> (
                r.1 matches PrerollStep::Fail(e)
                    && e.kind == ErrorKind::SourceUnavailable
                    && e.message@ == "No pad added for source."@))
            &&& (state matches LinkState::Rejected(e) ==> r.1 == PrerollStep::Fail(e))
        },
{
    match event {
        PrerollEvent::PadAdded(pad) => on_pad_added(state, &pad, size),
        PrerollEvent::TagImages(tags) => (state, on_tag_images(tags)),
        PrerollEvent::StreamsSelected => commit_streams_selected(state),
        PrerollEvent::AsyncDone => (state, PrerollStep::ProceedToFrames),
        PrerollEvent::SourceError(m) => (
            state,
            PrerollStep::Fail(Error::new(
                ErrorKind::SourceUnavailable,
                String::from_str("Failed pre-rolling pipeline: ").concat(m.as_str()),
            )),
        ),
    }
}

/// The decision for one preroll event of an audio request: only tag
/// images matter; preroll finishing without a cover means no cover exists.
pub fn audio_preroll_step(event: PrerollEvent) -> (r: PrerollStep)
    ensures
        event matches PrerollEvent::AsyncDone ==> (
            r matches PrerollStep::Fail(e)
                && e.kind == ErrorKind::NoCoverFound
                && e.message@ == "No tag image found"@),
        event matches PrerollEvent::SourceError(m) ==> (
            r matches PrerollStep::Fail(e)
                && e.kind == ErrorKind::SourceUnavailable
                && e.message@ == "Failed pre-rolling pipeline: "@ + m@),
        event matches PrerollEvent::TagImages(tags) ==> {
            &&& (has_front(tags@) || has_fallback(tags@)) ==> (
                r matches PrerollStep::UseCover(data)
                    && exists|i: int| #[trigger] is_cover_choice(tags@, i) && data@ == tags@[i].data@)
            &&& (!has_front(tags@) && !has_fallback(tags@)) ==> r is Continue
        },
        event is PadAdded || event is StreamsSelected ==> r is Continue,
{
    match event {
        PrerollEvent::TagImages(tags) => on_tag_images(tags),
        PrerollEvent::AsyncDone => PrerollStep::Fail(Error::new(
            ErrorKind::NoCoverFound,
            String::from_str("No tag image found"),
        )),
        PrerollEvent::SourceError(m) => PrerollStep::Fail(Error::new(
            ErrorKind::SourceUnavailable,
            String::from_str("Failed pre-rolling pipeline: ").concat(m.as_str()),
        )),
        PrerollEvent::PadAdded(_) => PrerollStep::Continue,
        PrerollEvent::StreamsSelected => PrerollStep::Continue,
    }
}

/// What the media source reported for the request to reach its paused,
/// seek-ready state.
#[derive(Debug)]
pub enum PrerollOutcome {
    /// The source prerolled normally.
    Success,
    /// The source cannot preroll: it is live.
    NoPreroll,
    /// The state change failed, with the gathered detail.
    Failure(String),
}

/// The decision on the preroll outcome: a live source is rejected, a
/// failed state change is a source failure, and only a normal preroll
/// proceeds.
pub fn check_preroll_outcome(outcome: PrerollOutcome) -> (r: Result<(), Error>)
    ensures
        outcome is Success <==> r is Ok,
        outcome is NoPreroll ==> (r matches Err(e)
            && e.kind == ErrorKind::LiveStreamUnsupported
            && e.message@ == "Error: thumbnails of live streams make little sense"@),
        outcome matches PrerollOutcome::Failure(d) ==> (r matches Err(e)
            && e.kind == ErrorKind::SourceUnavailable
            && e.message@ == d@),
{
    match outcome {
        PrerollOutcome::Success => Ok(()),
        PrerollOutcome::NoPreroll => Err(Error::new(
            ErrorKind::LiveStreamUnsupported,
            String::from_str("Error: thumbnails of live streams make little sense"),
        )),
        PrerollOutcome::Failure(d) => Err(Error::new(ErrorKind::SourceUnavailable, d)),
    }
}

} // verus!
