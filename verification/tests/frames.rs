use gst_thumbnailers::frame::{normalize_frame, CandidateFrame};
use gst_thumbnailers::thumbnail::{pick_best_frame, ThumbnailSource};
use gst_thumbnailers::ErrorKind;

const PAD: u8 = 0xEE;

fn strided_frame(width: u32, height: u32, stride: u32, pattern: impl Fn(u32, u32) -> u8) -> CandidateFrame {
    let mut data = vec![PAD; (stride * height) as usize];
    for row in 0..height {
        for col in 0..(3 * width) {
            data[(row * stride + col) as usize] = pattern(row, col);
        }
    }
    CandidateFrame { data, width, height, stride }
}

#[test]
fn normalize_strips_all_padding() {
    let frame = strided_frame(3, 4, 13, |row, col| (row * 16 + col) as u8);
    let out = normalize_frame(&frame);
    assert_eq!(out.len(), (3 * 3 * 4) as usize);
    // the padding marker never appears in the output
    assert!(out.iter().all(|&b| b != PAD));
    // every byte is the matching effective byte of its source row
    for row in 0..4u32 {
        for col in 0..9u32 {
            assert_eq!(out[(row * 9 + col) as usize], (row * 16 + col) as u8);
        }
    }
}

#[test]
fn normalize_keeps_tight_buffer_as_is() {
    let frame = strided_frame(2, 2, 6, |row, col| (10 * row + col) as u8);
    let out = normalize_frame(&frame);
    assert_eq!(out, frame.data);
}

#[test]
fn pick_best_frame_of_no_candidates_fails() {
    let r = pick_best_frame(&Vec::new());
    match r {
        Err(e) => assert_eq!(e.kind, ErrorKind::ExtractionFailed),
        Ok(_) => panic!("no candidates must not produce a thumbnail"),
    }
}

#[test]
fn pick_best_frame_takes_high_contrast_candidate() {
    // six sampled candidates; exactly one shows a high-contrast pattern,
    // and it must win whichever of the six positions it occupies
    for contrast_at in 0..6usize {
        let mut frames = Vec::new();
        for i in 0..6usize {
            if i == contrast_at {
                frames.push(strided_frame(2, 2, 8, |row, col| {
                    if (row + col) % 2 == 0 { 0 } else { 255 }
                }));
            } else {
                frames.push(strided_frame(2, 2, 8, |_, _| 64));
            }
        }
        let expected = normalize_frame(&frames[contrast_at]);
        match pick_best_frame(&frames) {
            Ok(ThumbnailSource::VideoFrame(w, h, buf)) => {
                assert_eq!((w, h), (2, 2));
                assert_eq!(buf, expected, "contrast at index {contrast_at}");
            }
            other => panic!("expected a video frame, got {other:?}"),
        }
    }
}

#[test]
fn pick_best_frame_tie_takes_first() {
    let frames = vec![
        strided_frame(2, 2, 6, |_, col| if col % 2 == 0 { 0 } else { 200 }),
        strided_frame(2, 2, 6, |_, col| if col % 2 == 0 { 0 } else { 200 }),
    ];
    match pick_best_frame(&frames) {
        Ok(ThumbnailSource::VideoFrame(_, _, buf)) => {
            assert_eq!(buf, normalize_frame(&frames[0]));
        }
        other => panic!("expected a video frame, got {other:?}"),
    }
}
