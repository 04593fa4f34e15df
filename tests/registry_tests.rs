use switcher::error::Error as MixerError;
use switcher::input::{self, Input};
use switcher::mixer;
use switcher::pad::{media_kind, MediaKind, PadAction, PadGuard};
use switcher::registry::{Error, Mixers};
use switcher::{AudioConfig, VideoConfig};

fn mixer_config(name: &str) -> mixer::Config {
    mixer::Config {
        name: name.to_string(),
        video: VideoConfig::default(),
        audio: AudioConfig::default(),
    }
}

fn input_config(name: &str) -> input::Config {
    input::Config {
        name: name.to_string(),
        video: VideoConfig::default(),
        audio: AudioConfig::default(),
        record: false,
    }
}

#[test]
fn created_mixer_has_no_nodes() {
    let mut ms = Mixers::new();
    assert!(ms.mixer_create(mixer_config("studio-1_a"), Ok(())).is_ok());
    let m = ms.mixer_get("studio-1_a").unwrap();
    assert_eq!(m.input_count(), 0);
    assert_eq!(m.output_count(), 0);
    assert_eq!(m.state(), mixer::State::Playing);
    assert_eq!(ms.mixer_config("studio-1_a").unwrap().name, "studio-1_a");
}

#[test]
fn duplicate_mixer_is_exists() {
    let mut ms = Mixers::new();
    ms.mixer_create(mixer_config("main"), Ok(())).unwrap();
    assert!(matches!(ms.mixer_create(mixer_config("main"), Ok(())), Err(Error::Exists)));
    assert_eq!(ms.mixer_count(), 1);
}

#[test]
fn invalid_mixer_names_are_refused() {
    let mut ms = Mixers::new();
    assert!(matches!(ms.mixer_create(mixer_config("a/b"), Ok(())), Err(Error::InvalidName)));
    assert!(matches!(ms.mixer_create(mixer_config("a b"), Ok(())), Err(Error::InvalidName)));
    assert!(matches!(ms.mixer_create(mixer_config(""), Ok(())), Err(Error::InvalidName)));
    assert!(matches!(ms.mixer_create(mixer_config("tab\tname"), Ok(())), Err(Error::InvalidName)));
    assert_eq!(ms.mixer_count(), 0);
    assert!(ms.mixer_get("a/b").is_none());
}

#[test]
fn name_grammar_through_the_pattern() {
    assert_eq!(Mixers::name_matches("abc-DEF_09"), Some(true));
    assert_eq!(Mixers::name_matches("a/b"), Some(false));
    let ms = Mixers::new();
    assert!(ms.mixer_create_check("ok_name").is_ok());
    assert!(matches!(ms.mixer_create_check("no way"), Err(Error::InvalidName)));
    assert!(matches!(ms.mixer_create_check_with("x", None), Err(Error::Unknown)));
}

#[test]
fn failed_start_registers_nothing() {
    let mut ms = Mixers::new();
    let r = ms.mixer_create(mixer_config("m"), Err(MixerError::Gstreamer("boom".to_string())));
    assert!(matches!(r, Err(Error::Mixer(MixerError::Gstreamer(_)))));
    assert_eq!(ms.mixer_count(), 0);
}

#[test]
fn inputs_on_distinct_mixers_do_not_interfere() {
    let mut ms = Mixers::new();
    ms.mixer_create(mixer_config("one"), Ok(())).unwrap();
    ms.mixer_create(mixer_config("two"), Ok(())).unwrap();
    assert!(ms.input_add("one", Input::create_fake(input_config("cam")), Ok(())).is_ok());
    assert!(ms.input_add("two", Input::create_fake(input_config("cam")), Ok(())).is_ok());
    assert_eq!(ms.mixer_get("one").unwrap().input_count(), 1);
    assert_eq!(ms.mixer_get("two").unwrap().input_count(), 1);
    let r = ms.input_add("one", Input::create_fake(input_config("cam")), Ok(()));
    assert!(matches!(r, Err(Error::Mixer(MixerError::Exists(_, _)))));
    assert_eq!(ms.mixer_get("one").unwrap().input_count(), 1);
}

#[test]
fn operations_on_absent_mixer_are_not_found() {
    let mut ms = Mixers::new();
    assert!(matches!(ms.input_add("nope", Input::create_fake(input_config("c")), Ok(())), Err(Error::NotFound)));
    assert!(matches!(ms.input_remove("nope", "c", Ok(())), Err(Error::NotFound)));
    assert!(matches!(ms.input_set_active("nope", "c"), Err(Error::NotFound)));
    assert!(matches!(ms.mixer_config("nope"), Err(Error::NotFound)));
    assert!(matches!(ms.input_add_state("nope", "c"), Err(Error::NotFound)));
}

#[test]
fn registry_routes_node_operations() {
    let mut ms = Mixers::new();
    ms.mixer_create(mixer_config("m"), Ok(())).unwrap();
    assert_eq!(ms.input_add_state("m", "a").unwrap(), mixer::State::Playing);
    ms.input_add("m", Input::create_fake(input_config("a")), Ok(())).unwrap();
    ms.input_add("m", Input::create_fake(input_config("b")), Ok(())).unwrap();
    assert!(ms.input_set_active("m", "b").is_ok());
    assert_eq!(ms.mixer_get("m").unwrap().input_get("a").unwrap().volume(), 0);
    assert!(ms.input_remove("m", "a", Ok(())).is_ok());
    assert!(matches!(ms.input_remove("m", "a", Ok(())), Err(Error::Mixer(MixerError::NotFound(_, _)))));
    assert_eq!(ms.mixer_get("m").unwrap().input_count(), 1);
}

#[test]
fn status_codes() {
    assert_eq!(Error::Exists.status_code(), 400);
    assert_eq!(Error::InvalidName.status_code(), 400);
    assert_eq!(Error::NotFound.status_code(), 404);
    assert_eq!(Error::Unknown.status_code(), 500);
    assert_eq!(Error::Mixer(MixerError::NotFound("input".into(), "x".into())).status_code(), 404);
    assert_eq!(Error::Mixer(MixerError::Exists("input".into(), "x".into())).status_code(), 400);
    assert_eq!(Error::Mixer(MixerError::Gstreamer("e".into())).status_code(), 500);
}

#[test]
fn detached_guard_ignores_late_pads() {
    let mut g = PadGuard::new();
    g.attach();
    g.detach();
    assert_eq!(g.on_pad_added("video/x-raw"), PadAction::Ignore);
    assert_eq!(g.on_pad_added("audio/x-raw"), PadAction::Ignore);
    assert!(!g.is_live());
}

#[test]
fn live_guard_links_one_pad_per_kind() {
    let mut g = PadGuard::new();
    assert_eq!(g.on_pad_added("audio/x-raw"), PadAction::Ignore);
    g.attach();
    assert_eq!(g.on_pad_added("audio/x-raw"), PadAction::LinkAudio);
    assert_eq!(g.on_pad_added("audio/x-raw"), PadAction::Ignore);
    assert_eq!(g.on_pad_added("text/x-raw"), PadAction::Ignore);
    assert_eq!(g.on_pad_added("video/x-raw"), PadAction::LinkVideo);
    assert_eq!(g.on_pad_added("video/x-raw"), PadAction::Ignore);
    g.link_failed(MediaKind::Video);
    assert_eq!(g.on_pad_added("video/x-raw"), PadAction::LinkVideo);
}

#[test]
fn pad_caps_classification() {
    assert_eq!(media_kind("audio/x-raw"), Some(MediaKind::Audio));
    assert_eq!(media_kind("video/x-raw, format=I420"), Some(MediaKind::Video));
    assert_eq!(media_kind("video/x-h264"), None);
    assert_eq!(media_kind(""), None);
}

#[test]
fn valid_free_name_is_created_through_the_pattern() {
    let mut ms = Mixers::new();
    assert!(ms.mixer_create_check("fresh").is_ok());
    assert!(Mixers::name_matches("fresh").is_some());
    assert!(ms.mixer_create(mixer_config("fresh"), Ok(())).is_ok());
    assert!(matches!(ms.mixer_create_check("fresh"), Err(Error::Exists)));
    assert_eq!(ms.mixer_count(), 1);
}
