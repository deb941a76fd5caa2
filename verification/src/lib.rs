//! Core logic for extracting a representative thumbnail from a media source:
//! cover-art tag selection, seek-schedule planning, frame scoring and
//! selection, aspect-preserving dimension scaling, pixel-buffer
//! normalization, and thumbnail encoding.
//!
//! The media decode engine itself is an external collaborator; this crate
//! holds the decision logic and numeric algorithms, with their contracts.

pub mod arith;
pub mod control;
pub mod cover;
pub mod dims;
pub mod encode;
pub mod error;
pub mod frame;
pub mod schedule;
pub mod score;
pub mod thumbnail;

pub use control::{audio_preroll_step, check_preroll_outcome, video_preroll_step,
    LinkState, PadInfo, PrerollEvent, PrerollOutcome, PrerollStep, StreamKind};
pub use cover::{select_cover, TagImage, TagImageType};
pub use dims::scale_thumbnail_dimensions;
pub use frame::{normalize_frame, CandidateFrame};
pub use error::{Error, ErrorKind};
pub use schedule::plan_seek_schedule;
pub use score::{select_best, variance, FrameScore};
pub use thumbnail::{pick_best_frame, ThumbnailSource};
