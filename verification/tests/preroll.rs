use gst_thumbnailers::control::{
    audio_preroll_step, check_preroll_outcome, video_preroll_step, LinkState, PadInfo,
    PrerollEvent, PrerollOutcome, PrerollStep, StreamKind,
};
use gst_thumbnailers::cover::{select_cover, TagImage, TagImageType};
use gst_thumbnailers::{Error, ErrorKind};

fn tag(image_type: TagImageType, marker: u8) -> TagImage {
    TagImage { image_type, data: vec![marker] }
}

#[test]
fn cover_selection_prefers_front_cover() {
    let tags = vec![
        tag(TagImageType::Undefined, 1),
        tag(TagImageType::FrontCover, 2),
        tag(TagImageType::Other, 3),
    ];
    assert_eq!(select_cover(&tags), Some(1));
}

#[test]
fn cover_selection_falls_back_to_undefined() {
    let tags = vec![tag(TagImageType::Undefined, 1), tag(TagImageType::Other, 2)];
    assert_eq!(select_cover(&tags), Some(0));
}

#[test]
fn cover_selection_of_no_tags_is_none() {
    assert_eq!(select_cover(&Vec::new()), None);
}

#[test]
fn cover_selection_treats_absent_type_as_fallback() {
    let tags = vec![tag(TagImageType::Other, 1), tag(TagImageType::Absent, 2)];
    assert_eq!(select_cover(&tags), Some(1));
}

#[test]
fn cover_selection_first_front_cover_wins() {
    let tags = vec![
        tag(TagImageType::FrontCover, 1),
        tag(TagImageType::FrontCover, 2),
    ];
    assert_eq!(select_cover(&tags), Some(0));
}

#[test]
fn preroll_tag_event_yields_cover_bytes() {
    let tags = vec![
        tag(TagImageType::Undefined, 1),
        tag(TagImageType::FrontCover, 2),
        tag(TagImageType::Other, 3),
    ];
    let (_, step) = video_preroll_step(LinkState::AwaitingLink, PrerollEvent::TagImages(tags), 128);
    match step {
        PrerollStep::UseCover(data) => assert_eq!(data, vec![2]),
        other => panic!("expected a cover, got {other:?}"),
    }
}

#[test]
fn preroll_video_pad_links_and_configures_caps() {
    let pad = PadInfo { kind: StreamKind::Video, width: 3840, height: 2160, par: None };
    let (state, step) =
        video_preroll_step(LinkState::AwaitingLink, PrerollEvent::PadAdded(pad), 256);
    match (state, step) {
        (LinkState::Linked(w, h), PrerollStep::ConfigureCaps(cw, ch)) => {
            assert_eq!((w, h), (256, 144));
            assert_eq!((cw, ch), (256, 144));
        }
        other => panic!("expected a linked pad, got {other:?}"),
    }
}

#[test]
fn preroll_audio_pad_records_wrong_stream_type() {
    let pad = PadInfo { kind: StreamKind::Audio, width: 0, height: 0, par: None };
    let (state, step) =
        video_preroll_step(LinkState::AwaitingLink, PrerollEvent::PadAdded(pad), 256);
    assert!(matches!(step, PrerollStep::Continue));
    // the rejection surfaces at the streams-selected milestone
    let (_, committed) = video_preroll_step(state, PrerollEvent::StreamsSelected, 256);
    match committed {
        PrerollStep::Fail(e) => {
            assert_eq!(e.kind, ErrorKind::WrongStreamType);
            assert_eq!(e.message(), "Stream is of type 'audio' instead of 'video'");
        }
        other => panic!("expected a failure, got {other:?}"),
    }
}

#[test]
fn preroll_later_video_pad_recovers_from_rejection() {
    let audio = PadInfo { kind: StreamKind::Audio, width: 0, height: 0, par: None };
    let video = PadInfo { kind: StreamKind::Video, width: 640, height: 480, par: None };
    let (state, _) = video_preroll_step(LinkState::AwaitingLink, PrerollEvent::PadAdded(audio), 128);
    let (state, _) = video_preroll_step(state, PrerollEvent::PadAdded(video), 128);
    let (_, committed) = video_preroll_step(state, PrerollEvent::StreamsSelected, 128);
    assert!(matches!(committed, PrerollStep::Continue));
}

#[test]
fn preroll_linked_pad_ignores_later_pads() {
    let video = PadInfo { kind: StreamKind::Video, width: 640, height: 480, par: None };
    let audio = PadInfo { kind: StreamKind::Audio, width: 0, height: 0, par: None };
    let (state, _) = video_preroll_step(LinkState::AwaitingLink, PrerollEvent::PadAdded(video), 128);
    let (state, step) = video_preroll_step(state, PrerollEvent::PadAdded(audio), 128);
    assert!(matches!(step, PrerollStep::Continue));
    match state {
        LinkState::Linked(w, h) => assert_eq!((w, h), (128, 96)),
        other => panic!("expected to stay linked, got {other:?}"),
    }
}

#[test]
fn preroll_without_any_pad_fails_commit() {
    let (_, committed) =
        video_preroll_step(LinkState::AwaitingLink, PrerollEvent::StreamsSelected, 128);
    match committed {
        PrerollStep::Fail(e) => {
            assert_eq!(e.kind, ErrorKind::SourceUnavailable);
            assert_eq!(e.message(), "No pad added for source.");
        }
        other => panic!("expected a failure, got {other:?}"),
    }
}

#[test]
fn preroll_async_done_proceeds_to_frames() {
    let (_, step) = video_preroll_step(LinkState::Linked(10, 10), PrerollEvent::AsyncDone, 128);
    assert!(matches!(step, PrerollStep::ProceedToFrames));
}

#[test]
fn preroll_source_error_fails() {
    let (_, step) = video_preroll_step(
        LinkState::AwaitingLink,
        PrerollEvent::SourceError(String::from("demuxer exploded")),
        128,
    );
    match step {
        PrerollStep::Fail(e) => {
            assert_eq!(e.kind, ErrorKind::SourceUnavailable);
            assert_eq!(e.message(), "Failed pre-rolling pipeline: demuxer exploded");
        }
        other => panic!("expected a failure, got {other:?}"),
    }
}

#[test]
fn audio_preroll_without_cover_reports_no_cover() {
    match audio_preroll_step(PrerollEvent::AsyncDone) {
        PrerollStep::Fail(e) => {
            assert_eq!(e.kind, ErrorKind::NoCoverFound);
            assert_eq!(e.message(), "No tag image found");
        }
        other => panic!("expected a failure, got {other:?}"),
    }
}

#[test]
fn audio_preroll_takes_cover_from_tags() {
    let tags = vec![tag(TagImageType::Undefined, 7), tag(TagImageType::Other, 8)];
    match audio_preroll_step(PrerollEvent::TagImages(tags)) {
        PrerollStep::UseCover(data) => assert_eq!(data, vec![7]),
        other => panic!("expected a cover, got {other:?}"),
    }
}

#[test]
fn live_stream_is_rejected() {
    match check_preroll_outcome(PrerollOutcome::NoPreroll) {
        Err(e) => {
            assert_eq!(e.kind, ErrorKind::LiveStreamUnsupported);
            assert_eq!(e.message(), "Error: thumbnails of live streams make little sense");
        }
        Ok(()) => panic!("a live stream must be rejected"),
    }
}

#[test]
fn failed_state_change_is_source_unavailable() {
    match check_preroll_outcome(PrerollOutcome::Failure(String::from("no plugin"))) {
        Err(e) => {
            assert_eq!(e.kind, ErrorKind::SourceUnavailable);
            assert_eq!(e.message(), "no plugin");
        }
        Ok(()) => panic!("a failed state change must fail the request"),
    }
}

#[test]
fn successful_preroll_continues() {
    assert!(check_preroll_outcome(PrerollOutcome::Success).is_ok());
}

#[test]
fn io_error_kind_is_carried() {
    let e = Error::new(ErrorKind::IoError, String::from("disk full"));
    assert_eq!(e.kind(), ErrorKind::IoError);
    assert_eq!(e.message(), "disk full");
}
