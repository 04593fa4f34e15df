use vstd::prelude::*;

use crate::config::{AudioConfig, VideoConfig};
use crate::text::same_text;

verus! {

/// The kinds of source subgraph that can feed a mixer.
#[derive(PartialEq, Eq, Structural, Clone, Copy, Debug)]
pub enum InputKind {
    /// A network or container source whose streams are found while it runs.
    URI,
    /// A generated test pattern and tone.
    Test,
    /// Sources that produce empty buffers.
    Fake,
}

/// The name under which a kind of input is requested and reported.
pub open spec fn input_kind_name(k: InputKind) -> Seq<char> {
    match k {
        InputKind::URI => "URI"@,
        InputKind::Test => "Test"@,
        InputKind::Fake => "Fake"@,
    }
}

/// The kind of input that a requested type name selects, if any.
pub open spec fn input_kind_of(s: Seq<char>) -> Option<InputKind> {
    if s == "URI"@ {
        Some(InputKind::URI)
    } else if s == "Test"@ {
        Some(InputKind::Test)
    } else if s == "Fake"@ {
        Some(InputKind::Fake)
    } else {
        None
    }
}

impl InputKind {
    /// The name under which this kind is reported.
    pub fn to_string(&self) -> (r: String)
        ensures
            r@ == input_kind_name(*self),
    {
        match self {
            InputKind::URI => String::from_str("URI"),
            InputKind::Test => String::from_str("Test"),
            InputKind::Fake => String::from_str("Fake"),
        }
    }

    /// The kind that a requested type name selects.
    pub fn from_name(s: &str) -> (r: Option<InputKind>)
        ensures
            r == input_kind_of(s@),
    {
        if same_text(s, "URI") {
            Some(InputKind::URI)
        } else if same_text(s, "Test") {
            Some(InputKind::Test)
        } else if same_text(s, "Fake") {
            Some(InputKind::Fake)
        } else {
            None
        }
    }
}

/// What an input was configured with: its identity, placement, gain and
/// whether it records itself.
#[derive(Clone, Debug)]
pub struct Config {
    pub name: String,
    pub video: VideoConfig,
    pub audio: AudioConfig,
    pub record: bool,
}

/// The value of an input configuration.
pub struct ConfigModel {
    pub name: Seq<char>,
    pub video: VideoConfig,
    pub audio: AudioConfig,
    pub record: bool,
}

impl View for Config {
    type V = ConfigModel;

    open spec fn view(&self) -> ConfigModel {
        ConfigModel {
            name: self.name@,
            video: self.video,
            audio: self.audio,
            record: self.record,
        }
    }
}

impl Config {
    /// A copy of this configuration.
    pub fn copied(&self) -> (r: Config)
        ensures
            r@ == self@,
    {
        Config {
            name: self.name.clone(),
            video: self.video,
            audio: self.audio,
            record: self.record,
        }
    }
}

/// A named source subgraph of a mixer, as the control layer sees it: its
/// kind, where it reads from, its configuration, and the gain it is
/// currently mixed at.
#[derive(Debug)]
pub struct Input {
    kind: InputKind,
    location: String,
    config: Config,
    volume: u32,
}

/// The value of an input.
pub struct InputModel {
    pub kind: InputKind,
    pub location: Seq<char>,
    pub config: ConfigModel,
    /// The gain the input is mixed at now; the configured gain is in `config`.
    pub volume: u32,
}

impl InputModel {
    pub open spec fn name(self) -> Seq<char> {
        self.config.name
    }
}

impl View for Input {
    type V = InputModel;

    closed spec fn view(&self) -> InputModel {
        InputModel {
            kind: self.kind,
            location: self.location@,
            config: self.config@,
            volume: self.volume,
        }
    }
}

/// A freshly built input: mixed at its configured gain.
pub open spec fn fresh_input(kind: InputKind, location: Seq<char>, config: ConfigModel) -> InputModel {
    InputModel { kind, location, config, volume: config.audio.volume }
}

/// An input reconfigured from a request's `video` and `audio`.
pub open spec fn updated(m: InputModel, video: VideoConfig, audio: AudioConfig) -> InputModel {
    InputModel {
        config: ConfigModel {
            video: VideoConfig {
                zorder: if video.zorder is Some { video.zorder } else { m.config.video.zorder },
                width: video.width,
                height: video.height,
                xpos: video.xpos,
                ypos: video.ypos,
                alpha: video.alpha,
                ..m.config.video
            },
            audio: AudioConfig { volume: audio.volume },
            ..m.config
        },
        volume: audio.volume,
        ..m
    }
}

impl Input {
    fn build(kind: InputKind, location: &str, config: Config) -> (r: Input)
        ensures
            r@ == fresh_input(kind, location@, config@),
    {
        let volume = config.audio.volume;
        Input { kind, location: String::from_str(location), config, volume }
    }

    /// A source that reads the stream at `uri`.
    pub fn create_uri(config: Config, uri: &str) -> (r: Input)
        ensures
            r@ == fresh_input(InputKind::URI, uri@, config@),
    {
        Input::build(InputKind::URI, uri, config)
    }

    /// A test pattern and tone source.
    pub fn create_test(config: Config) -> (r: Input)
        ensures
            r@ == fresh_input(InputKind::Test, Seq::empty(), config@),
    {
        proof {
            reveal_strlit("");
            assert(""@ =~= Seq::<char>::empty());
        }
        Input::build(InputKind::Test, "", config)
    }

    /// A source of empty buffers.
    pub fn create_fake(config: Config) -> (r: Input)
        ensures
            r@ == fresh_input(InputKind::Fake, Seq::empty(), config@),
    {
        proof {
            reveal_strlit("");
            assert(""@ =~= Seq::<char>::empty());
        }
        Input::build(InputKind::Fake, "", config)
    }

    /// An input of the kind that `input_type` names; `None` where it names
    /// no kind. Only a URI source keeps `location`.
    pub fn create(input_type: &str, config: Config, location: &str) -> (r: Option<Input>)
        ensures
            input_kind_of(input_type@) is None <==> r is None,
            input_kind_of(input_type@) == Some(InputKind::URI) ==> r is Some && r.unwrap()@
                == fresh_input(InputKind::URI, location@, config@),
            input_kind_of(input_type@) == Some(InputKind::Test) ==> r is Some && r.unwrap()@
                == fresh_input(InputKind::Test, Seq::empty(), config@),
            input_kind_of(input_type@) == Some(InputKind::Fake) ==> r is Some && r.unwrap()@
                == fresh_input(InputKind::Fake, Seq::empty(), config@),
    {
        match InputKind::from_name(input_type) {
            Some(InputKind::URI) => Some(Input::create_uri(config, location)),
            Some(InputKind::Test) => Some(Input::create_test(config)),
            Some(InputKind::Fake) => Some(Input::create_fake(config)),
            None => None,
        }
    }

    pub fn name(&self) -> (r: String)
        ensures
            r@ == self@.name(),
    {
        self.config.name.clone()
    }

    pub fn name_ref(&self) -> (r: &str)
        ensures
            r@ == self@.name(),
    {
        self.config.name.as_str()
    }

    /// Where the input reads from; empty for generated sources.
    pub fn location(&self) -> (r: String)
        ensures
            r@ == self@.location,
    {
        self.location.clone()
    }

    pub fn kind(&self) -> (r: InputKind)
        ensures
            r == self@.kind,
    {
        self.kind
    }

    /// The name of the input's kind.
    pub fn input_type(&self) -> (r: String)
        ensures
            r@ == input_kind_name(self@.kind),
    {
        self.kind.to_string()
    }

    /// The configuration, with the gain last configured.
    pub fn config(&self) -> (r: Config)
        ensures
            r@ == self@.config,
    {
        self.config.copied()
    }

    /// The gain the input is mixed at now.
    pub fn volume(&self) -> (r: u32)
        ensures
            r == self@.volume,
    {
        self.volume
    }

    /// The gain last configured.
    pub fn configured_volume(&self) -> (r: u32)
        ensures
            r == self@.config.audio.volume,
    {
        self.config.audio.volume
    }

    /// Configures the gain and mixes the input at it.
    pub fn set_volume(&mut self, volume: u32)
        ensures
            final(self)@ == (InputModel {
                config: ConfigModel {
                    audio: AudioConfig { volume },
                    ..old(self)@.config
                },
                volume,
                ..old(self)@
            }),
    {
        self.config.audio.volume = volume;
        self.volume = volume;
    }

    /// Mixes the input at `volume` and keeps the configured gain.
    pub(crate) fn mix_at(&mut self, volume: u32)
        ensures
            final(self)@ == (InputModel { volume, ..old(self)@ }),
    {
        self.volume = volume;
    }

    pub fn set_zorder(&mut self, zorder: u32)
        ensures
            final(self)@ == (InputModel {
                config: ConfigModel {
                    video: VideoConfig { zorder: Some(zorder), ..old(self)@.config.video },
                    ..old(self)@.config
                },
                ..old(self)@
            }),
    {
        self.config.video.zorder = Some(zorder);
    }

    pub fn set_width(&mut self, width: i32)
        ensures
            final(self)@ == (InputModel {
                config: ConfigModel {
                    video: VideoConfig { width, ..old(self)@.config.video },
                    ..old(self)@.config
                },
                ..old(self)@
            }),
    {
        self.config.video.width = width;
    }

    pub fn set_height(&mut self, height: i32)
        ensures
            final(self)@ == (InputModel {
                config: ConfigModel {
                    video: VideoConfig { height, ..old(self)@.config.video },
                    ..old(self)@.config
                },
                ..old(self)@
            }),
    {
        self.config.video.height = height;
    }

    pub fn set_xpos(&mut self, xpos: i32)
        ensures
            final(self)@ == (InputModel {
                config: ConfigModel {
                    video: VideoConfig { xpos, ..old(self)@.config.video },
                    ..old(self)@.config
                },
                ..old(self)@
            }),
    {
        self.config.video.xpos = xpos;
    }

    pub fn set_ypos(&mut self, ypos: i32)
        ensures
            final(self)@ == (InputModel {
                config: ConfigModel {
                    video: VideoConfig { ypos, ..old(self)@.config.video },
                    ..old(self)@.config
                },
                ..old(self)@
            }),
    {
        self.config.video.ypos = ypos;
    }

    /// Sets the opacity, in thousandths of full opacity.
    pub fn set_alpha(&mut self, alpha: u32)
        ensures
            final(self)@ == (InputModel {
                config: ConfigModel {
                    video: VideoConfig { alpha, ..old(self)@.config.video },
                    ..old(self)@.config
                },
                ..old(self)@
            }),
    {
        self.config.video.alpha = alpha;
    }

    /// Whether this input records itself to a file beside feeding the mixer:
    /// only a network source configured to record does.
    pub fn records(&self) -> (r: bool)
        ensures
            r == (self@.kind == InputKind::URI && self@.config.record),
    {
        self.kind == InputKind::URI && self.config.record
    }

    /// Reconfigures gain, size, position and opacity from `video` and
    /// `audio`; the z-order only where `video` gives one.
    pub fn update(&mut self, video: VideoConfig, audio: AudioConfig)
        ensures
            final(self)@ == updated(old(self)@, video, audio),
    {
        self.set_volume(audio.volume);
        if let Some(z) = video.zorder {
            self.set_zorder(z);
        }
        self.set_width(video.width);
        self.set_height(video.height);
        self.set_xpos(video.xpos);
        self.set_ypos(video.ypos);
        self.set_alpha(video.alpha);
    }

    /// The name of the file output that records this input.
    pub fn recording_name(&self) -> (r: String)
        ensures
            r@ == "record_"@ + self@.name(),
    {
        let mut r = String::from_str("record_");
        r.append(self.config.name.as_str());
        r
    }

    /// Where the file output that records this input writes.
    pub fn recording_location(&self) -> (r: String)
        ensures
            r@ == "./recordings/input_"@ + self@.name() + ".mkv"@,
    {
        let mut r = String::from_str("./recordings/input_");
        r.append(self.config.name.as_str());
        r.append(".mkv");
        r
    }
}

} // verus!
