//! Control logic of a live audio/video switching server: named mixers,
//! their input and output tables, active-input switching, and the
//! decisions taken around the media engine that runs each mixer's graph.

pub mod config;
pub mod error;
pub mod input;
pub mod mixer;
pub mod output;
pub mod pad;
pub mod pattern;
pub mod registry;
pub mod text;

pub use config::{
    AudioConfig, AudioEncoder, AudioEncoderConfig, Format, Mux, VideoConfig, VideoEncoder,
    VideoEncoderConfig, VideoEncoderPreset, VideoEncoderProfile, VideoEncoderSpeed,
};
pub use error::gst_create_element;
