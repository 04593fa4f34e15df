use switcher::error::Error;
use switcher::text::{same_text, starts_with};
use switcher::{
    gst_create_element, AudioConfig, AudioEncoder, AudioEncoderConfig, Format, Mux, VideoConfig,
    VideoEncoder, VideoEncoderConfig, VideoEncoderPreset, VideoEncoderProfile, VideoEncoderSpeed,
};

#[test]
fn video_config_defaults() {
    let v = VideoConfig::default();
    assert_eq!(v.framerate, 30);
    assert_eq!(v.format, Format::I420);
    assert_eq!(v.width, 1920);
    assert_eq!(v.height, 1080);
    assert_eq!(v.xpos, 0);
    assert_eq!(v.ypos, 0);
    assert_eq!(v.zorder, None);
    assert_eq!(v.alpha, 1000);
    assert!(!v.repeat);
    assert_eq!(AudioConfig::default().volume, 1000);
}

#[test]
fn encoder_defaults() {
    assert_eq!(VideoEncoderConfig::encoder_default(), VideoEncoder::H264);
    assert_eq!(AudioEncoderConfig::encoder_default(), AudioEncoder::AAC);
    let v = VideoEncoderConfig::default();
    assert_eq!(v.encoder, VideoEncoder::H264);
    assert_eq!(v.profile, Some(VideoEncoderProfile::High));
    assert_eq!(v.speed, Some(VideoEncoderSpeed::Medium));
    assert_eq!(v.preset, None);
    assert_eq!(AudioEncoderConfig::default().encoder, AudioEncoder::AAC);
}

#[test]
fn element_and_property_names() {
    assert_eq!(VideoEncoder::H264.to_string(), "x264enc");
    assert_eq!(VideoEncoder::NVENC.to_string(), "nvh264enc");
    assert_eq!(VideoEncoder::VP9.to_string(), "vp9enc");
    assert_eq!(AudioEncoder::AAC.to_string(), "fdkaacenc");
    assert_eq!(AudioEncoder::MP3.to_string(), "lamemp3enc");
    assert_eq!(AudioEncoder::Vorbis.to_string(), "vorbisenc");
    assert_eq!(Mux::FLV.to_string(), "flvmux");
    assert_eq!(Mux::MKV.to_string(), "matroskamux");
    assert_eq!(VideoEncoderPreset::LowLatencyHighQuality.to_string(), "low-latency-hq");
    assert_eq!(VideoEncoderPreset::HighPerformance.to_string(), "hp");
    assert_eq!(VideoEncoderProfile::Baseline.to_string(), "baseline");
    assert_eq!(VideoEncoderSpeed::NoPreset.to_string(), "none");
    assert_eq!(VideoEncoderSpeed::UltraFast.to_string(), "ultrafast");
    assert_eq!(Format::I420.to_string(), "I420");
    assert_eq!(Format::GBRA_12LE.to_string(), "GBRA_12LE");
    assert_eq!(Format::v210.to_string(), "v210");
    assert_eq!(Format::GRAY8.to_string(), "GRAY8");
}

#[test]
fn create_element_outcome() {
    assert_eq!(gst_create_element("q", Some(7u8)).unwrap(), 7);
    match gst_create_element::<u8>("mixer_main_video_tee", None) {
        Err(Error::Gstreamer(t)) => assert_eq!(t, "Failed to create element: mixer_main_video_tee"),
        other => panic!("unexpected {:?}", other),
    }
}

#[test]
fn text_helpers() {
    assert!(same_text("abc", "abc"));
    assert!(!same_text("abc", "abd"));
    assert!(!same_text("abc", "ab"));
    assert!(same_text("", ""));
    assert!(starts_with("video/x-raw(memory)", "video/x-raw"));
    assert!(!starts_with("video/x-ra", "video/x-raw"));
    assert!(starts_with("anything", ""));
}

#[test]
fn format_names_round_trip() {
    assert_eq!(Format::from_name("I420"), Some(Format::I420));
    assert_eq!(Format::from_name("NV12_10LE40"), Some(Format::NV12_10LE40));
    assert_eq!(Format::from_name("v308"), Some(Format::v308));
    assert_eq!(Format::from_name("i420"), None);
    assert_eq!(Format::from_name(""), None);
    assert_eq!(Format::from_name(&Format::BGRx.to_string()), Some(Format::BGRx));
}

#[test]
fn parser_and_encoder_fallbacks() {
    assert!(VideoEncoder::H264.needs_parser());
    assert!(VideoEncoder::NVENC.needs_parser());
    assert!(!VideoEncoder::VP9.needs_parser());
    let mut c = VideoEncoderConfig::default();
    assert_eq!(c.profile_or_default(), VideoEncoderProfile::High);
    assert_eq!(c.speed_or_default(), VideoEncoderSpeed::Medium);
    c.profile = Some(VideoEncoderProfile::Main);
    c.speed = None;
    assert_eq!(c.profile_or_default(), VideoEncoderProfile::Main);
    assert_eq!(c.speed_or_default(), VideoEncoderSpeed::NoPreset);
    c.profile = None;
    assert_eq!(c.profile_or_default(), VideoEncoderProfile::High);
}
