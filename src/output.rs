use vstd::prelude::*;

use crate::config::{AudioConfig, AudioEncoderConfig, VideoConfig, VideoEncoderConfig};
use crate::text::same_text;

verus! {

/// The kinds of destination subgraph that a mixer can feed.
#[derive(PartialEq, Eq, Structural, Clone, Copy, Debug)]
pub enum OutputKind {
    /// Encodes, muxes and publishes to a network address.
    RTMP,
    /// Shows the raw composite in a local preview.
    Auto,
    /// Discards what it receives.
    Fake,
    /// Encodes, muxes and writes to a file.
    File,
}

/// The name under which a kind of output is requested and reported.
pub open spec fn output_kind_name(k: OutputKind) -> Seq<char> {
    match k {
        OutputKind::RTMP => "RTMP"@,
        OutputKind::Auto => "Auto"@,
        OutputKind::Fake => "Fake"@,
        OutputKind::File => "File"@,
    }
}

/// The kind of output that a requested type name selects, if any.
pub open spec fn output_kind_of(s: Seq<char>) -> Option<OutputKind> {
    if s == "RTMP"@ {
        Some(OutputKind::RTMP)
    } else if s == "Auto"@ {
        Some(OutputKind::Auto)
    } else if s == "Fake"@ {
        Some(OutputKind::Fake)
    } else if s == "File"@ {
        Some(OutputKind::File)
    } else {
        None
    }
}

/// Whether an output of this kind writes to a location of its own.
pub open spec fn keeps_location(k: OutputKind) -> bool {
    k == OutputKind::RTMP || k == OutputKind::File
}

impl OutputKind {
    /// The name under which this kind is reported.
    pub fn to_string(&self) -> (r: String)
        ensures
            r@ == output_kind_name(*self),
    {
        match self {
            OutputKind::RTMP => String::from_str("RTMP"),
            OutputKind::Auto => String::from_str("Auto"),
            OutputKind::Fake => String::from_str("Fake"),
            OutputKind::File => String::from_str("File"),
        }
    }

    /// The kind that a requested type name selects.
    pub fn from_name(s: &str) -> (r: Option<OutputKind>)
        ensures
            r == output_kind_of(s@),
    {
        if same_text(s, "RTMP") {
            Some(OutputKind::RTMP)
        } else if same_text(s, "Auto") {
            Some(OutputKind::Auto)
        } else if same_text(s, "Fake") {
            Some(OutputKind::Fake)
        } else if same_text(s, "File") {
            Some(OutputKind::File)
        } else {
            None
        }
    }
}

/// Encoders of an output's two streams.
#[derive(Clone, Copy, Debug)]
pub struct EncoderConfig {
    pub video: VideoEncoderConfig,
    pub audio: AudioEncoderConfig,
}

/// What an output was configured with.
#[derive(Clone, Debug)]
pub struct Config {
    pub name: String,
    pub video: VideoConfig,
    pub audio: AudioConfig,
    pub encoder: EncoderConfig,
}

/// The value of an output configuration.
pub struct ConfigModel {
    pub name: Seq<char>,
    pub video: VideoConfig,
    pub audio: AudioConfig,
    pub encoder: EncoderConfig,
}

impl View for Config {
    type V = ConfigModel;

    open spec fn view(&self) -> ConfigModel {
        ConfigModel {
            name: self.name@,
            video: self.video,
            audio: self.audio,
            encoder: self.encoder,
        }
    }
}

impl Config {
    /// A copy of this configuration.
    pub fn copied(&self) -> (r: Config)
        ensures
            r@ == self@,
    {
        Config {
            name: self.name.clone(),
            video: self.video,
            audio: self.audio,
            encoder: self.encoder,
        }
    }
}

/// A named destination subgraph of a mixer, as the control layer sees it.
#[derive(Debug)]
pub struct Output {
    kind: OutputKind,
    location: String,
    config: Config,
}

/// The value of an output.
pub struct OutputModel {
    pub kind: OutputKind,
    pub location: Seq<char>,
    pub config: ConfigModel,
}

impl OutputModel {
    pub open spec fn name(self) -> Seq<char> {
        self.config.name
    }
}

impl View for Output {
    type V = OutputModel;

    closed spec fn view(&self) -> OutputModel {
        OutputModel { kind: self.kind, location: self.location@, config: self.config@ }
    }
}

/// The output that a request for `kind` at `location` builds: kinds without
/// a location of their own report an empty one.
pub open spec fn fresh_output(kind: OutputKind, location: Seq<char>, config: ConfigModel) -> OutputModel {
    OutputModel {
        kind,
        location: if keeps_location(kind) { location } else { Seq::empty() },
        config,
    }
}

impl Output {
    fn build(kind: OutputKind, location: &str, config: Config) -> (r: Output)
        ensures
            r@ == (OutputModel { kind, location: location@, config: config@ }),
    {
        Output { kind, location: String::from_str(location), config }
    }

    fn build_unplaced(kind: OutputKind, config: Config) -> (r: Output)
        requires
            !keeps_location(kind),
        ensures
            r@ == fresh_output(kind, Seq::empty(), config@),
    {
        proof {
            reveal_strlit("");
            assert(""@ =~= Seq::<char>::empty());
        }
        Output::build(kind, "", config)
    }

    /// Publishes to the network address `location`.
    pub fn create_rtmp(config: Config, location: &str) -> (r: Output)
        ensures
            r@ == fresh_output(OutputKind::RTMP, location@, config@),
    {
        Output::build(OutputKind::RTMP, location, config)
    }

    /// A local preview.
    pub fn create_auto(config: Config) -> (r: Output)
        ensures
            r@ == fresh_output(OutputKind::Auto, Seq::empty(), config@),
    {
        Output::build_unplaced(OutputKind::Auto, config)
    }

    /// A sink that discards.
    pub fn create_fake(config: Config) -> (r: Output)
        ensures
            r@ == fresh_output(OutputKind::Fake, Seq::empty(), config@),
    {
        Output::build_unplaced(OutputKind::Fake, config)
    }

    /// Records to the file at `location`.
    pub fn create_file(config: Config, location: &str) -> (r: Output)
        ensures
            r@ == fresh_output(OutputKind::File, location@, config@),
    {
        Output::build(OutputKind::File, location, config)
    }

    /// An output of the kind that `output_type` names; `None` where it names
    /// no kind.
    pub fn create(output_type: &str, config: Config, location: &str) -> (r: Option<Output>)
        ensures
            output_kind_of(output_type@) is None <==> r is None,
            output_kind_of(output_type@) is Some ==> r is Some && r.unwrap()@ == fresh_output(
                output_kind_of(output_type@).unwrap(),
                location@,
                config@,
            ),
    {
        match OutputKind::from_name(output_type) {
            Some(OutputKind::RTMP) => Some(Output::create_rtmp(config, location)),
            Some(OutputKind::Auto) => Some(Output::create_auto(config)),
            Some(OutputKind::Fake) => Some(Output::create_fake(config)),
            Some(OutputKind::File) => Some(Output::create_file(config, location)),
            None => None,
        }
    }

    pub fn name(&self) -> (r: String)
        ensures
            r@ == self@.name(),
    {
        self.config.name.clone()
    }

    pub fn name_ref(&self) -> (r: &str)
        ensures
            r@ == self@.name(),
    {
        self.config.name.as_str()
    }

    pub fn kind(&self) -> (r: OutputKind)
        ensures
            r == self@.kind,
    {
        self.kind
    }

    /// The name of the output's kind.
    pub fn output_type(&self) -> (r: String)
        ensures
            r@ == output_kind_name(self@.kind),
    {
        self.kind.to_string()
    }

    /// Where the output writes to; empty for kinds without a location.
    pub fn location(&self) -> (r: String)
        ensures
            r@ == self@.location,
    {
        self.location.clone()
    }

    pub fn config(&self) -> (r: Config)
        ensures
            r@ == self@.config,
    {
        self.config.copied()
    }
}

} // verus!
