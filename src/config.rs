use vstd::prelude::*;

use crate::text::same_text;

verus! {

/// Gain and opacity are held in thousandths: 1000 is unity gain or full opacity.
pub const UNIT: u32 = 1000;

/// Video encoders that an output can use.
#[derive(PartialEq, Eq, Structural, Clone, Copy, Debug)]
pub enum VideoEncoder {
    H264,
    NVENC,
    VP9,
}

/// The media element type that implements a video encoder.
pub open spec fn video_encoder_element(v: VideoEncoder) -> Seq<char> {
    match v {
        VideoEncoder::H264 => "x264enc"@,
        VideoEncoder::NVENC => "nvh264enc"@,
        VideoEncoder::VP9 => "vp9enc"@,
    }
}

impl VideoEncoder {
    /// Whether this encoder's stream goes through an H.264 parser before
    /// it is muxed.
    pub fn needs_parser(&self) -> (r: bool)
        ensures
            r == (*self == VideoEncoder::H264 || *self == VideoEncoder::NVENC),
    {
        match self {
            VideoEncoder::H264 => true,
            VideoEncoder::NVENC => true,
            VideoEncoder::VP9 => false,
        }
    }

    /// The media element type that implements this encoder.
    pub fn to_string(&self) -> (r: String)
        ensures
            r@ == video_encoder_element(*self),
    {
        match self {
            VideoEncoder::H264 => String::from_str("x264enc"),
            VideoEncoder::NVENC => String::from_str("nvh264enc"),
            VideoEncoder::VP9 => String::from_str("vp9enc"),
        }
    }
}

/// Encoder presets, as the hardware encoders name them.
#[derive(PartialEq, Eq, Structural, Clone, Copy, Debug)]
pub enum VideoEncoderPreset {
    Default,
    HighPerformance,
    HighQuality,
    LowLatency,
    LowLatencyHighQuality,
}

/// The property value that selects a preset.
pub open spec fn video_encoder_preset_value(v: VideoEncoderPreset) -> Seq<char> {
    match v {
        VideoEncoderPreset::Default => "default"@,
        VideoEncoderPreset::HighPerformance => "hp"@,
        VideoEncoderPreset::HighQuality => "hq"@,
        VideoEncoderPreset::LowLatency => "low-latency"@,
        VideoEncoderPreset::LowLatencyHighQuality => "low-latency-hq"@,
    }
}

impl VideoEncoderPreset {
    /// The property value that selects this preset.
    pub fn to_string(&self) -> (r: String)
        ensures
            r@ == video_encoder_preset_value(*self),
    {
        match self {
            VideoEncoderPreset::Default => String::from_str("default"),
            VideoEncoderPreset::HighPerformance => String::from_str("hp"),
            VideoEncoderPreset::HighQuality => String::from_str("hq"),
            VideoEncoderPreset::LowLatency => String::from_str("low-latency"),
            VideoEncoderPreset::LowLatencyHighQuality => String::from_str("low-latency-hq"),
        }
    }
}

/// Encoding profiles.
#[derive(PartialEq, Eq, Structural, Clone, Copy, Debug)]
pub enum VideoEncoderProfile {
    High,
    Main,
    Baseline,
}

/// The property value that selects a profile.
pub open spec fn video_encoder_profile_value(v: VideoEncoderProfile) -> Seq<char> {
    match v {
        VideoEncoderProfile::High => "high"@,
        VideoEncoderProfile::Main => "main"@,
        VideoEncoderProfile::Baseline => "baseline"@,
    }
}

impl VideoEncoderProfile {
    /// The property value that selects this profile.
    pub fn to_string(&self) -> (r: String)
        ensures
            r@ == video_encoder_profile_value(*self),
    {
        match self {
            VideoEncoderProfile::High => String::from_str("high"),
            VideoEncoderProfile::Main => String::from_str("main"),
            VideoEncoderProfile::Baseline => String::from_str("baseline"),
        }
    }
}

/// Speed/quality trade-offs of a software encoder.
#[derive(PartialEq, Eq, Structural, Clone, Copy, Debug)]
pub enum VideoEncoderSpeed {
    NoPreset,
    UltraFast,
    SuperFast,
    VeryFast,
    Faster,
    Fast,
    Medium,
    Slow,
    Slower,
    VerySlow,
    Placebo,
}

/// The property value that selects a speed preset.
pub open spec fn video_encoder_speed_value(v: VideoEncoderSpeed) -> Seq<char> {
    match v {
        VideoEncoderSpeed::NoPreset => "none"@,
        VideoEncoderSpeed::UltraFast => "ultrafast"@,
        VideoEncoderSpeed::SuperFast => "superfast"@,
        VideoEncoderSpeed::VeryFast => "veryfast"@,
        VideoEncoderSpeed::Faster => "faster"@,
        VideoEncoderSpeed::Fast => "fast"@,
        VideoEncoderSpeed::Medium => "medium"@,
        VideoEncoderSpeed::Slow => "slow"@,
        VideoEncoderSpeed::Slower => "slower"@,
        VideoEncoderSpeed::VerySlow => "veryslow"@,
        VideoEncoderSpeed::Placebo => "placebo"@,
    }
}

impl VideoEncoderSpeed {
    /// The property value that selects this speed preset.
    pub fn to_string(&self) -> (r: String)
        ensures
            r@ == video_encoder_speed_value(*self),
    {
        match self {
            VideoEncoderSpeed::NoPreset => String::from_str("none"),
            VideoEncoderSpeed::UltraFast => String::from_str("ultrafast"),
            VideoEncoderSpeed::SuperFast => String::from_str("superfast"),
            VideoEncoderSpeed::VeryFast => String::from_str("veryfast"),
            VideoEncoderSpeed::Faster => String::from_str("faster"),
            VideoEncoderSpeed::Fast => String::from_str("fast"),
            VideoEncoderSpeed::Medium => String::from_str("medium"),
            VideoEncoderSpeed::Slow => String::from_str("slow"),
            VideoEncoderSpeed::Slower => String::from_str("slower"),
            VideoEncoderSpeed::VerySlow => String::from_str("veryslow"),
            VideoEncoderSpeed::Placebo => String::from_str("placebo"),
        }
    }
}

/// Audio encoders that an output can use.
#[derive(PartialEq, Eq, Structural, Clone, Copy, Debug)]
pub enum AudioEncoder {
    AAC,
    MP3,
    Vorbis,
}

/// The media element type that implements an audio encoder.
pub open spec fn audio_encoder_element(v: AudioEncoder) -> Seq<char> {
    match v {
        AudioEncoder::AAC => "fdkaacenc"@,
        AudioEncoder::MP3 => "lamemp3enc"@,
        AudioEncoder::Vorbis => "vorbisenc"@,
    }
}

impl AudioEncoder {
    /// The media element type that implements this encoder.
    pub fn to_string(&self) -> (r: String)
        ensures
            r@ == audio_encoder_element(*self),
    {
        match self {
            AudioEncoder::AAC => String::from_str("fdkaacenc"),
            AudioEncoder::MP3 => String::from_str("lamemp3enc"),
            AudioEncoder::Vorbis => String::from_str("vorbisenc"),
        }
    }
}

/// Container formats for published and recorded streams.
#[derive(PartialEq, Eq, Structural, Clone, Copy, Debug)]
pub enum Mux {
    FLV,
    MP4,
    MKV,
}

/// The media element type that writes a container format.
pub open spec fn mux_element(v: Mux) -> Seq<char> {
    match v {
        Mux::FLV => "flvmux"@,
        Mux::MP4 => "mp4mux"@,
        Mux::MKV => "matroskamux"@,
    }
}

impl Mux {
    /// The media element type that writes this container format.
    pub fn to_string(&self) -> (r: String)
        ensures
            r@ == mux_element(*self),
    {
        match self {
            Mux::FLV => String::from_str("flvmux"),
            Mux::MP4 => String::from_str("mp4mux"),
            Mux::MKV => String::from_str("matroskamux"),
        }
    }
}

/// Raw video pixel formats of the canvas.
#[allow(non_camel_case_types)]
#[derive(PartialEq, Eq, Structural, Clone, Copy, Debug)]
pub enum Format {
    AYUV64,
    ARGB64,
    GBRA_12LE,
    GBRA_12BE,
    Y412_LE,
    Y412_BE,
    A444_10LE,
    GBRA_10LE,
    A444_10BE,
    GBRA_10BE,
    A422_10LE,
    A422_10BE,
    A420_10LE,
    A420_10BE,
    RGB10A2_LE,
    BGR10A2_LE,
    Y410,
    GBRA,
    ABGR,
    VUYA,
    BGRA,
    AYUV,
    ARGB,
    RGBA,
    A420,
    Y444_16LE,
    Y444_16BE,
    v216,
    P016_LE,
    P016_BE,
    Y444_12LE,
    GBR_12LE,
    Y444_12BE,
    GBR_12BE,
    I422_12LE,
    I422_12BE,
    Y212_LE,
    Y212_BE,
    I420_12LE,
    I420_12BE,
    P012_LE,
    P012_BE,
    Y444_10LE,
    GBR_10LE,
    Y444_10BE,
    GBR_10BE,
    r210,
    I422_10LE,
    I422_10BE,
    NV16_10LE32,
    Y210,
    v210,
    UYVP,
    I420_10LE,
    I420_10BE,
    P010_10LE,
    NV12_10LE32,
    NV12_10LE40,
    P010_10BE,
    Y444,
    GBR,
    NV24,
    xBGR,
    BGRx,
    xRGB,
    RGBx,
    BGR,
    IYU2,
    v308,
    RGB,
    Y42B,
    NV61,
    NV16,
    VYUY,
    UYVY,
    YVYU,
    YUY2,
    I420,
    YV12,
    NV21,
    NV12,
    NV12_64Z32,
    NV12_4L4,
    NV12_32L32,
    Y41B,
    IYU1,
    YVU9,
    YUV9,
    RGB16,
    BGR16,
    RGB15,
    BGR15,
    RGB8P,
    GRAY16_LE,
    GRAY16_BE,
    GRAY10_LE32,
    GRAY8,
}

/// The caps name of a pixel format.
pub open spec fn format_name(v: Format) -> Seq<char> {
    match v {
        Format::AYUV64 => "AYUV64"@,
        Format::ARGB64 => "ARGB64"@,
        Format::GBRA_12LE => "GBRA_12LE"@,
        Format::GBRA_12BE => "GBRA_12BE"@,
        Format::Y412_LE => "Y412_LE"@,
        Format::Y412_BE => "Y412_BE"@,
        Format::A444_10LE => "A444_10LE"@,
        Format::GBRA_10LE => "GBRA_10LE"@,
        Format::A444_10BE => "A444_10BE"@,
        Format::GBRA_10BE => "GBRA_10BE"@,
        Format::A422_10LE => "A422_10LE"@,
        Format::A422_10BE => "A422_10BE"@,
        Format::A420_10LE => "A420_10LE"@,
        Format::A420_10BE => "A420_10BE"@,
        Format::RGB10A2_LE => "RGB10A2_LE"@,
        Format::BGR10A2_LE => "BGR10A2_LE"@,
        Format::Y410 => "Y410"@,
        Format::GBRA => "GBRA"@,
        Format::ABGR => "ABGR"@,
        Format::VUYA => "VUYA"@,
        Format::BGRA => "BGRA"@,
        Format::AYUV => "AYUV"@,
        Format::ARGB => "ARGB"@,
        Format::RGBA => "RGBA"@,
        Format::A420 => "A420"@,
        Format::Y444_16LE => "Y444_16LE"@,
        Format::Y444_16BE => "Y444_16BE"@,
        Format::v216 => "v216"@,
        Format::P016_LE => "P016_LE"@,
        Format::P016_BE => "P016_BE"@,
        Format::Y444_12LE => "Y444_12LE"@,
        Format::GBR_12LE => "GBR_12LE"@,
        Format::Y444_12BE => "Y444_12BE"@,
        Format::GBR_12BE => "GBR_12BE"@,
        Format::I422_12LE => "I422_12LE"@,
        Format::I422_12BE => "I422_12BE"@,
        Format::Y212_LE => "Y212_LE"@,
        Format::Y212_BE => "Y212_BE"@,
        Format::I420_12LE => "I420_12LE"@,
        Format::I420_12BE => "I420_12BE"@,
        Format::P012_LE => "P012_LE"@,
        Format::P012_BE => "P012_BE"@,
        Format::Y444_10LE => "Y444_10LE"@,
        Format::GBR_10LE => "GBR_10LE"@,
        Format::Y444_10BE => "Y444_10BE"@,
        Format::GBR_10BE => "GBR_10BE"@,
        Format::r210 => "r210"@,
        Format::I422_10LE => "I422_10LE"@,
        Format::I422_10BE => "I422_10BE"@,
        Format::NV16_10LE32 => "NV16_10LE32"@,
        Format::Y210 => "Y210"@,
        Format::v210 => "v210"@,
        Format::UYVP => "UYVP"@,
        Format::I420_10LE => "I420_10LE"@,
        Format::I420_10BE => "I420_10BE"@,
        Format::P010_10LE => "P010_10LE"@,
        Format::NV12_10LE32 => "NV12_10LE32"@,
        Format::NV12_10LE40 => "NV12_10LE40"@,
        Format::P010_10BE => "P010_10BE"@,
        Format::Y444 => "Y444"@,
        Format::GBR => "GBR"@,
        Format::NV24 => "NV24"@,
        Format::xBGR => "xBGR"@,
        Format::BGRx => "BGRx"@,
        Format::xRGB => "xRGB"@,
        Format::RGBx => "RGBx"@,
        Format::BGR => "BGR"@,
        Format::IYU2 => "IYU2"@,
        Format::v308 => "v308"@,
        Format::RGB => "RGB"@,
        Format::Y42B => "Y42B"@,
        Format::NV61 => "NV61"@,
        Format::NV16 => "NV16"@,
        Format::VYUY => "VYUY"@,
        Format::UYVY => "UYVY"@,
        Format::YVYU => "YVYU"@,
        Format::YUY2 => "YUY2"@,
        Format::I420 => "I420"@,
        Format::YV12 => "YV12"@,
        Format::NV21 => "NV21"@,
        Format::NV12 => "NV12"@,
        Format::NV12_64Z32 => "NV12_64Z32"@,
        Format::NV12_4L4 => "NV12_4L4"@,
        Format::NV12_32L32 => "NV12_32L32"@,
        Format::Y41B => "Y41B"@,
        Format::IYU1 => "IYU1"@,
        Format::YVU9 => "YVU9"@,
        Format::YUV9 => "YUV9"@,
        Format::RGB16 => "RGB16"@,
        Format::BGR16 => "BGR16"@,
        Format::RGB15 => "RGB15"@,
        Format::BGR15 => "BGR15"@,
        Format::RGB8P => "RGB8P"@,
        Format::GRAY16_LE => "GRAY16_LE"@,
        Format::GRAY16_BE => "GRAY16_BE"@,
        Format::GRAY10_LE32 => "GRAY10_LE32"@,
        Format::GRAY8 => "GRAY8"@,
    }
}

impl Format {
    /// The pixel format whose caps name is `s`, if any.
    pub fn from_name(s: &str) -> (r: Option<Format>)
        ensures
            r matches Some(f) ==> format_name(f) == s@,
            r is None ==> forall|f: Format| format_name(f) != s@,
    {
        if same_text(s, "AYUV64") {
            Some(Format::AYUV64)
        } else if same_text(s, "ARGB64") {
            Some(Format::ARGB64)
        } else if same_text(s, "GBRA_12LE") {
            Some(Format::GBRA_12LE)
        } else if same_text(s, "GBRA_12BE") {
            Some(Format::GBRA_12BE)
        } else if same_text(s, "Y412_LE") {
            Some(Format::Y412_LE)
        } else if same_text(s, "Y412_BE") {
            Some(Format::Y412_BE)
        } else if same_text(s, "A444_10LE") {
            Some(Format::A444_10LE)
        } else if same_text(s, "GBRA_10LE") {
            Some(Format::GBRA_10LE)
        } else if same_text(s, "A444_10BE") {
            Some(Format::A444_10BE)
        } else if same_text(s, "GBRA_10BE") {
            Some(Format::GBRA_10BE)
        } else if same_text(s, "A422_10LE") {
            Some(Format::A422_10LE)
        } else if same_text(s, "A422_10BE") {
            Some(Format::A422_10BE)
        } else if same_text(s, "A420_10LE") {
            Some(Format::A420_10LE)
        } else if same_text(s, "A420_10BE") {
            Some(Format::A420_10BE)
        } else if same_text(s, "RGB10A2_LE") {
            Some(Format::RGB10A2_LE)
        } else if same_text(s, "BGR10A2_LE") {
            Some(Format::BGR10A2_LE)
        } else if same_text(s, "Y410") {
            Some(Format::Y410)
        } else if same_text(s, "GBRA") {
            Some(Format::GBRA)
        } else if same_text(s, "ABGR") {
            Some(Format::ABGR)
        } else if same_text(s, "VUYA") {
            Some(Format::VUYA)
        } else if same_text(s, "BGRA") {
            Some(Format::BGRA)
        } else if same_text(s, "AYUV") {
            Some(Format::AYUV)
        } else if same_text(s, "ARGB") {
            Some(Format::ARGB)
        } else if same_text(s, "RGBA") {
            Some(Format::RGBA)
        } else if same_text(s, "A420") {
            Some(Format::A420)
        } else if same_text(s, "Y444_16LE") {
            Some(Format::Y444_16LE)
        } else if same_text(s, "Y444_16BE") {
            Some(Format::Y444_16BE)
        } else if same_text(s, "v216") {
            Some(Format::v216)
        } else if same_text(s, "P016_LE") {
            Some(Format::P016_LE)
        } else if same_text(s, "P016_BE") {
            Some(Format::P016_BE)
        } else if same_text(s, "Y444_12LE") {
            Some(Format::Y444_12LE)
        } else if same_text(s, "GBR_12LE") {
            Some(Format::GBR_12LE)
        } else if same_text(s, "Y444_12BE") {
            Some(Format::Y444_12BE)
        } else if same_text(s, "GBR_12BE") {
            Some(Format::GBR_12BE)
        } else if same_text(s, "I422_12LE") {
            Some(Format::I422_12LE)
        } else if same_text(s, "I422_12BE") {
            Some(Format::I422_12BE)
        } else if same_text(s, "Y212_LE") {
            Some(Format::Y212_LE)
        } else if same_text(s, "Y212_BE") {
            Some(Format::Y212_BE)
        } else if same_text(s, "I420_12LE") {
            Some(Format::I420_12LE)
        } else if same_text(s, "I420_12BE") {
            Some(Format::I420_12BE)
        } else if same_text(s, "P012_LE") {
            Some(Format::P012_LE)
        } else if same_text(s, "P012_BE") {
            Some(Format::P012_BE)
        } else if same_text(s, "Y444_10LE") {
            Some(Format::Y444_10LE)
        } else if same_text(s, "GBR_10LE") {
            Some(Format::GBR_10LE)
        } else if same_text(s, "Y444_10BE") {
            Some(Format::Y444_10BE)
        } else if same_text(s, "GBR_10BE") {
            Some(Format::GBR_10BE)
        } else if same_text(s, "r210") {
            Some(Format::r210)
        } else if same_text(s, "I422_10LE") {
            Some(Format::I422_10LE)
        } else if same_text(s, "I422_10BE") {
            Some(Format::I422_10BE)
        } else if same_text(s, "NV16_10LE32") {
            Some(Format::NV16_10LE32)
        } else if same_text(s, "Y210") {
            Some(Format::Y210)
        } else if same_text(s, "v210") {
            Some(Format::v210)
        } else if same_text(s, "UYVP") {
            Some(Format::UYVP)
        } else if same_text(s, "I420_10LE") {
            Some(Format::I420_10LE)
        } else if same_text(s, "I420_10BE") {
            Some(Format::I420_10BE)
        } else if same_text(s, "P010_10LE") {
            Some(Format::P010_10LE)
        } else if same_text(s, "NV12_10LE32") {
            Some(Format::NV12_10LE32)
        } else if same_text(s, "NV12_10LE40") {
            Some(Format::NV12_10LE40)
        } else if same_text(s, "P010_10BE") {
            Some(Format::P010_10BE)
        } else if same_text(s, "Y444") {
            Some(Format::Y444)
        } else if same_text(s, "GBR") {
            Some(Format::GBR)
        } else if same_text(s, "NV24") {
            Some(Format::NV24)
        } else if same_text(s, "xBGR") {
            Some(Format::xBGR)
        } else if same_text(s, "BGRx") {
            Some(Format::BGRx)
        } else if same_text(s, "xRGB") {
            Some(Format::xRGB)
        } else if same_text(s, "RGBx") {
            Some(Format::RGBx)
        } else if same_text(s, "BGR") {
            Some(Format::BGR)
        } else if same_text(s, "IYU2") {
            Some(Format::IYU2)
        } else if same_text(s, "v308") {
            Some(Format::v308)
        } else if same_text(s, "RGB") {
            Some(Format::RGB)
        } else if same_text(s, "Y42B") {
            Some(Format::Y42B)
        } else if same_text(s, "NV61") {
            Some(Format::NV61)
        } else if same_text(s, "NV16") {
            Some(Format::NV16)
        } else if same_text(s, "VYUY") {
            Some(Format::VYUY)
        } else if same_text(s, "UYVY") {
            Some(Format::UYVY)
        } else if same_text(s, "YVYU") {
            Some(Format::YVYU)
        } else if same_text(s, "YUY2") {
            Some(Format::YUY2)
        } else if same_text(s, "I420") {
            Some(Format::I420)
        } else if same_text(s, "YV12") {
            Some(Format::YV12)
        } else if same_text(s, "NV21") {
            Some(Format::NV21)
        } else if same_text(s, "NV12") {
            Some(Format::NV12)
        } else if same_text(s, "NV12_64Z32") {
            Some(Format::NV12_64Z32)
        } else if same_text(s, "NV12_4L4") {
            Some(Format::NV12_4L4)
        } else if same_text(s, "NV12_32L32") {
            Some(Format::NV12_32L32)
        } else if same_text(s, "Y41B") {
            Some(Format::Y41B)
        } else if same_text(s, "IYU1") {
            Some(Format::IYU1)
        } else if same_text(s, "YVU9") {
            Some(Format::YVU9)
        } else if same_text(s, "YUV9") {
            Some(Format::YUV9)
        } else if same_text(s, "RGB16") {
            Some(Format::RGB16)
        } else if same_text(s, "BGR16") {
            Some(Format::BGR16)
        } else if same_text(s, "RGB15") {
            Some(Format::RGB15)
        } else if same_text(s, "BGR15") {
            Some(Format::BGR15)
        } else if same_text(s, "RGB8P") {
            Some(Format::RGB8P)
        } else if same_text(s, "GRAY16_LE") {
            Some(Format::GRAY16_LE)
        } else if same_text(s, "GRAY16_BE") {
            Some(Format::GRAY16_BE)
        } else if same_text(s, "GRAY10_LE32") {
            Some(Format::GRAY10_LE32)
        } else if same_text(s, "GRAY8") {
            Some(Format::GRAY8)
        } else {
            None
        }
    }

    /// The caps name of this pixel format.
    pub fn to_string(&self) -> (r: String)
        ensures
            r@ == format_name(*self),
    {
        match self {
            Format::AYUV64 => String::from_str("AYUV64"),
            Format::ARGB64 => String::from_str("ARGB64"),
            Format::GBRA_12LE => String::from_str("GBRA_12LE"),
            Format::GBRA_12BE => String::from_str("GBRA_12BE"),
            Format::Y412_LE => String::from_str("Y412_LE"),
            Format::Y412_BE => String::from_str("Y412_BE"),
            Format::A444_10LE => String::from_str("A444_10LE"),
            Format::GBRA_10LE => String::from_str("GBRA_10LE"),
            Format::A444_10BE => String::from_str("A444_10BE"),
            Format::GBRA_10BE => String::from_str("GBRA_10BE"),
            Format::A422_10LE => String::from_str("A422_10LE"),
            Format::A422_10BE => String::from_str("A422_10BE"),
            Format::A420_10LE => String::from_str("A420_10LE"),
            Format::A420_10BE => String::from_str("A420_10BE"),
            Format::RGB10A2_LE => String::from_str("RGB10A2_LE"),
            Format::BGR10A2_LE => String::from_str("BGR10A2_LE"),
            Format::Y410 => String::from_str("Y410"),
            Format::GBRA => String::from_str("GBRA"),
            Format::ABGR => String::from_str("ABGR"),
            Format::VUYA => String::from_str("VUYA"),
            Format::BGRA => String::from_str("BGRA"),
            Format::AYUV => String::from_str("AYUV"),
            Format::ARGB => String::from_str("ARGB"),
            Format::RGBA => String::from_str("RGBA"),
            Format::A420 => String::from_str("A420"),
            Format::Y444_16LE => String::from_str("Y444_16LE"),
            Format::Y444_16BE => String::from_str("Y444_16BE"),
            Format::v216 => String::from_str("v216"),
            Format::P016_LE => String::from_str("P016_LE"),
            Format::P016_BE => String::from_str("P016_BE"),
            Format::Y444_12LE => String::from_str("Y444_12LE"),
            Format::GBR_12LE => String::from_str("GBR_12LE"),
            Format::Y444_12BE => String::from_str("Y444_12BE"),
            Format::GBR_12BE => String::from_str("GBR_12BE"),
            Format::I422_12LE => String::from_str("I422_12LE"),
            Format::I422_12BE => String::from_str("I422_12BE"),
            Format::Y212_LE => String::from_str("Y212_LE"),
            Format::Y212_BE => String::from_str("Y212_BE"),
            Format::I420_12LE => String::from_str("I420_12LE"),
            Format::I420_12BE => String::from_str("I420_12BE"),
            Format::P012_LE => String::from_str("P012_LE"),
            Format::P012_BE => String::from_str("P012_BE"),
            Format::Y444_10LE => String::from_str("Y444_10LE"),
            Format::GBR_10LE => String::from_str("GBR_10LE"),
            Format::Y444_10BE => String::from_str("Y444_10BE"),
            Format::GBR_10BE => String::from_str("GBR_10BE"),
            Format::r210 => String::from_str("r210"),
            Format::I422_10LE => String::from_str("I422_10LE"),
            Format::I422_10BE => String::from_str("I422_10BE"),
            Format::NV16_10LE32 => String::from_str("NV16_10LE32"),
            Format::Y210 => String::from_str("Y210"),
            Format::v210 => String::from_str("v210"),
            Format::UYVP => String::from_str("UYVP"),
            Format::I420_10LE => String::from_str("I420_10LE"),
            Format::I420_10BE => String::from_str("I420_10BE"),
            Format::P010_10LE => String::from_str("P010_10LE"),
            Format::NV12_10LE32 => String::from_str("NV12_10LE32"),
            Format::NV12_10LE40 => String::from_str("NV12_10LE40"),
            Format::P010_10BE => String::from_str("P010_10BE"),
            Format::Y444 => String::from_str("Y444"),
            Format::GBR => String::from_str("GBR"),
            Format::NV24 => String::from_str("NV24"),
            Format::xBGR => String::from_str("xBGR"),
            Format::BGRx => String::from_str("BGRx"),
            Format::xRGB => String::from_str("xRGB"),
            Format::RGBx => String::from_str("RGBx"),
            Format::BGR => String::from_str("BGR"),
            Format::IYU2 => String::from_str("IYU2"),
            Format::v308 => String::from_str("v308"),
            Format::RGB => String::from_str("RGB"),
            Format::Y42B => String::from_str("Y42B"),
            Format::NV61 => String::from_str("NV61"),
            Format::NV16 => String::from_str("NV16"),
            Format::VYUY => String::from_str("VYUY"),
            Format::UYVY => String::from_str("UYVY"),
            Format::YVYU => String::from_str("YVYU"),
            Format::YUY2 => String::from_str("YUY2"),
            Format::I420 => String::from_str("I420"),
            Format::YV12 => String::from_str("YV12"),
            Format::NV21 => String::from_str("NV21"),
            Format::NV12 => String::from_str("NV12"),
            Format::NV12_64Z32 => String::from_str("NV12_64Z32"),
            Format::NV12_4L4 => String::from_str("NV12_4L4"),
            Format::NV12_32L32 => String::from_str("NV12_32L32"),
            Format::Y41B => String::from_str("Y41B"),
            Format::IYU1 => String::from_str("IYU1"),
            Format::YVU9 => String::from_str("YVU9"),
            Format::YUV9 => String::from_str("YUV9"),
            Format::RGB16 => String::from_str("RGB16"),
            Format::BGR16 => String::from_str("BGR16"),
            Format::RGB15 => String::from_str("RGB15"),
            Format::BGR15 => String::from_str("BGR15"),
            Format::RGB8P => String::from_str("RGB8P"),
            Format::GRAY16_LE => String::from_str("GRAY16_LE"),
            Format::GRAY16_BE => String::from_str("GRAY16_BE"),
            Format::GRAY10_LE32 => String::from_str("GRAY10_LE32"),
            Format::GRAY8 => String::from_str("GRAY8"),
        }
    }
}

/// Encoder choices of an output's video stream.
#[derive(Clone, Copy, Debug)]
pub struct VideoEncoderConfig {
    pub encoder: VideoEncoder,
    pub profile: Option<VideoEncoderProfile>,
    pub speed: Option<VideoEncoderSpeed>,
    pub preset: Option<VideoEncoderPreset>,
}

impl VideoEncoderConfig {
    /// The profile asked for, `High` where none is.
    pub fn profile_or_default(&self) -> (r: VideoEncoderProfile)
        ensures
            r == (match self.profile {
                Some(p) => p,
                None => VideoEncoderProfile::High,
            }),
    {
        match self.profile {
            Some(p) => p,
            None => VideoEncoderProfile::High,
        }
    }

    /// The speed preset asked for, `NoPreset` where none is.
    pub fn speed_or_default(&self) -> (r: VideoEncoderSpeed)
        ensures
            r == (match self.speed {
                Some(v) => v,
                None => VideoEncoderSpeed::NoPreset,
            }),
    {
        match self.speed {
            Some(v) => v,
            None => VideoEncoderSpeed::NoPreset,
        }
    }

    /// The encoder used where a request names none.
    pub fn encoder_default() -> (r: VideoEncoder)
        ensures
            r == VideoEncoder::H264,
    {
        VideoEncoder::H264
    }
}

impl Default for VideoEncoderConfig {
    fn default() -> (r: Self)
        ensures
            r.encoder == VideoEncoder::H264,
            r.profile == Some(VideoEncoderProfile::High),
            r.preset == None::<VideoEncoderPreset>,
            r.speed == Some(VideoEncoderSpeed::Medium),
    {
        VideoEncoderConfig {
            encoder: VideoEncoderConfig::encoder_default(),
            profile: Some(VideoEncoderProfile::High),
            preset: None,
            speed: Some(VideoEncoderSpeed::Medium),
        }
    }
}

/// Encoder choice of an output's audio stream.
#[derive(Clone, Copy, Debug)]
pub struct AudioEncoderConfig {
    pub encoder: AudioEncoder,
}

impl AudioEncoderConfig {
    /// The encoder used where a request names none.
    pub fn encoder_default() -> (r: AudioEncoder)
        ensures
            r == AudioEncoder::AAC,
    {
        AudioEncoder::AAC
    }
}

impl Default for AudioEncoderConfig {
    fn default() -> (r: Self)
        ensures
            r.encoder == AudioEncoder::AAC,
    {
        AudioEncoderConfig { encoder: AudioEncoderConfig::encoder_default() }
    }
}

/// Placement of a picture on the canvas, or the canvas itself.
#[derive(Clone, Copy, Debug)]
pub struct VideoConfig {
    pub framerate: i32,
    pub format: Format,
    pub width: i32,
    pub height: i32,
    pub xpos: i32,
    pub ypos: i32,
    pub zorder: Option<u32>,
    /// Opacity in thousandths of full opacity.
    pub alpha: u32,
    pub repeat: bool,
}

impl Default for VideoConfig {
    fn default() -> (r: Self)
        ensures
            r.framerate == 30,
            r.format == Format::I420,
            r.width == 1920,
            r.height == 1080,
            r.xpos == 0,
            r.ypos == 0,
            r.zorder == None::<u32>,
            r.alpha == UNIT,
            !r.repeat,
    {
        VideoConfig {
            framerate: 30,
            format: Format::I420,
            width: 1920,
            height: 1080,
            xpos: 0,
            ypos: 0,
            zorder: None,
            alpha: UNIT,
            repeat: false,
        }
    }
}

/// Gain of a sound source.
#[derive(Clone, Copy, Debug)]
pub struct AudioConfig {
    /// Gain in thousandths of unity gain.
    pub volume: u32,
}

impl Default for AudioConfig {
    fn default() -> (r: Self)
        ensures
            r.volume == UNIT,
    {
        AudioConfig { volume: UNIT }
    }
}

} // verus!
