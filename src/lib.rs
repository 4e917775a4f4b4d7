//! A timeline evaluation and compositing engine for programmatic video:
//! easing curves, keyframe tracks, scene graphs, speed ramps, blend modes,
//! masks, colour grading, transitions and multi-camera cut resolution, all in
//! fixed-point arithmetic.
pub mod fixed;
pub mod text;
pub mod errors;
pub mod easing;
pub mod animation;
pub mod geometry;
pub mod node;
pub mod scene;
pub mod speed_ramping;
pub mod blend_modes;
pub mod masking;
pub mod color_grading;
pub mod compositing;
pub mod transitions;
pub mod multicam;
pub mod time;
pub mod renderer;
pub mod utils;
pub mod project;
pub mod streaming;
