use gst_thumbnailers::dims::scale_thumbnail_dimensions;
use gst_thumbnailers::schedule::plan_seek_schedule;

#[test]
fn scale_large_frame_down_to_budget() {
    assert_eq!(scale_thumbnail_dimensions(3840, 2160, 1, 1, 256), (256, 144));
}

#[test]
fn scale_small_frame_unchanged() {
    assert_eq!(scale_thumbnail_dimensions(100, 50, 1, 1, 256), (100, 50));
}

#[test]
fn scale_exact_budget_unchanged() {
    assert_eq!(scale_thumbnail_dimensions(256, 256, 1, 1, 256), (256, 256));
}

#[test]
fn scale_portrait_uses_height() {
    // height is the larger axis: it becomes the budget, width keeps ratio
    assert_eq!(scale_thumbnail_dimensions(2160, 3840, 1, 1, 256), (144, 256));
}

#[test]
fn scale_applies_pixel_aspect_ratio() {
    // anamorphic: 720x576 with 64/45 PAR has effective width 1024
    assert_eq!(scale_thumbnail_dimensions(720, 576, 64, 45, 256), (256, 144));
}

#[test]
fn scale_rounds_half_up() {
    // 333x222 scaled to 100: height 222 * 100 / 333 = 66.66... -> 67
    assert_eq!(scale_thumbnail_dimensions(333, 222, 1, 1, 100), (100, 67));
    // 200x301 scaled to 100: width 200 * 100 / 301 = 66.44... -> 66
    assert_eq!(scale_thumbnail_dimensions(200, 301, 1, 1, 100), (66, 100));
}

#[test]
fn scale_square_prefers_width_axis() {
    // equal effective axes scale the width to the budget exactly
    assert_eq!(scale_thumbnail_dimensions(500, 500, 1, 1, 128), (128, 128));
}

#[test]
fn schedule_long_video_samples_first_third() {
    let targets = plan_seek_schedule(200_000_000_000);
    assert_eq!(
        targets,
        vec![
            20_000_000_000,
            30_000_000_000,
            40_000_000_000,
            50_000_000_000,
            60_000_000_000
        ]
    );
}

#[test]
fn schedule_short_video_samples_whole_range() {
    let targets = plan_seek_schedule(60_000_000_000);
    assert_eq!(
        targets,
        vec![
            6_000_000_000,
            12_000_000_000,
            18_000_000_000,
            36_000_000_000,
            54_000_000_000
        ]
    );
}

#[test]
fn schedule_unknown_duration_stays_at_start() {
    assert_eq!(plan_seek_schedule(0), vec![0, 0, 0, 0, 0]);
}

#[test]
fn schedule_threshold_is_exclusive() {
    // exactly 180 s still uses the whole-range fractions
    let at = plan_seek_schedule(180_000_000_000);
    assert_eq!(at[4], 162_000_000_000);
    // one nanosecond more switches to the first-third fractions
    let over = plan_seek_schedule(180_000_000_001);
    assert_eq!(over[4], 54_000_000_001);
}

#[test]
fn schedule_rounds_targets_up() {
    // 10% of 15 ns is 1.5 ns: the target is 2, never 1
    let targets = plan_seek_schedule(15);
    assert_eq!(targets[0], 2);
}
