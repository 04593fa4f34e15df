use switcher::error::Error;
use switcher::input::{self, Input, InputKind};
use switcher::mixer::{self, element_name, watch_bus_step, BusEvent, Mixer, State, ACTIVE_ZORDER};
use switcher::output::{self, EncoderConfig, Output, OutputKind};
use switcher::{AudioConfig, AudioEncoderConfig, VideoConfig, VideoEncoderConfig};

fn mixer_config(name: &str) -> mixer::Config {
    mixer::Config {
        name: name.to_string(),
        video: VideoConfig::default(),
        audio: AudioConfig::default(),
    }
}

fn input_config(name: &str, volume: u32) -> input::Config {
    input::Config {
        name: name.to_string(),
        video: VideoConfig::default(),
        audio: AudioConfig { volume },
        record: false,
    }
}

fn output_config(name: &str) -> output::Config {
    output::Config {
        name: name.to_string(),
        video: VideoConfig::default(),
        audio: AudioConfig::default(),
        encoder: EncoderConfig {
            video: VideoEncoderConfig::default(),
            audio: AudioEncoderConfig::default(),
        },
    }
}

fn engine_failure() -> Error {
    Error::Gstreamer("link failed".to_string())
}

#[test]
fn new_mixer_is_empty_with_silent_background() {
    let m = Mixer::new(mixer_config("main"));
    assert_eq!(m.input_count(), 0);
    assert_eq!(m.output_count(), 0);
    assert_eq!(m.name(), "main");
    assert_eq!(m.state(), State::Null);
    let bg = m.background();
    assert_eq!(bg.name(), "background");
    assert_eq!(bg.volume(), 0);
    assert_eq!(bg.input_type(), "Test");
    assert_eq!(bg.config().video.width, 1920);
}

#[test]
fn input_add_then_remove_restores_count() {
    let mut m = Mixer::new(mixer_config("main"));
    let before = m.input_count();
    let i = Input::create_fake(input_config("cam", 1000));
    assert!(m.input_add(i, Ok(())).is_ok());
    assert_eq!(m.input_count(), before + 1);
    assert!(m.input_remove("cam", Ok(())).is_ok());
    assert_eq!(m.input_count(), before);
    assert!(m.input_get("cam").is_none());
}

#[test]
fn input_remove_absent_is_not_found() {
    let mut m = Mixer::new(mixer_config("main"));
    m.input_add(Input::create_fake(input_config("a", 1000)), Ok(())).unwrap();
    match m.input_remove("zzz", Ok(())) {
        Err(Error::NotFound(kind, name)) => {
            assert_eq!(kind, "input");
            assert_eq!(name, "zzz");
        }
        other => panic!("unexpected {:?}", other),
    }
    assert_eq!(m.input_count(), 1);
}

#[test]
fn input_add_twice_same_name_is_exists() {
    let mut m = Mixer::new(mixer_config("main"));
    assert!(m.input_add(Input::create_fake(input_config("dup", 1000)), Ok(())).is_ok());
    match m.input_add(Input::create_test(input_config("dup", 500)), Ok(())) {
        Err(Error::Exists(kind, name)) => {
            assert_eq!(kind, "input");
            assert_eq!(name, "dup");
        }
        other => panic!("unexpected {:?}", other),
    }
    assert_eq!(m.input_count(), 1);
    assert_eq!(m.input_get("dup").unwrap().input_type(), "Fake");
}

#[test]
fn failed_link_registers_nothing() {
    let mut m = Mixer::new(mixer_config("main"));
    let r = m.input_add(Input::create_fake(input_config("x", 1000)), Err(engine_failure()));
    assert!(matches!(r, Err(Error::Gstreamer(_))));
    assert_eq!(m.input_count(), 0);
    let r = m.output_add(Output::create_fake(output_config("y")), Err(engine_failure()));
    assert!(matches!(r, Err(Error::Gstreamer(_))));
    assert_eq!(m.output_count(), 0);
}

#[test]
fn failed_unlink_keeps_node() {
    let mut m = Mixer::new(mixer_config("main"));
    m.input_add(Input::create_fake(input_config("x", 1000)), Ok(())).unwrap();
    assert!(m.input_remove("x", Err(engine_failure())).is_err());
    assert_eq!(m.input_count(), 1);
}

#[test]
fn input_add_state_reports_graph_state_or_exists() {
    let mut m = Mixer::new(mixer_config("main"));
    assert_eq!(m.input_add_state("a").unwrap(), State::Null);
    m.play();
    assert_eq!(m.input_add_state("a").unwrap(), State::Playing);
    m.input_add(Input::create_fake(input_config("a", 1000)), Ok(())).unwrap();
    assert!(matches!(m.input_add_state("a"), Err(Error::Exists(_, _))));
    m.stop();
    assert_eq!(m.state(), State::Null);
}

#[test]
fn set_active_promotes_one_and_demotes_others() {
    let mut m = Mixer::new(mixer_config("main"));
    m.input_add(Input::create_fake(input_config("A", 700)), Ok(())).unwrap();
    m.input_add(Input::create_fake(input_config("B", 800)), Ok(())).unwrap();
    m.input_add(Input::create_fake(input_config("C", 900)), Ok(())).unwrap();
    assert!(m.input_set_active("A").is_ok());
    let a = m.input_get("A").unwrap();
    assert_eq!(a.volume(), 700);
    assert_eq!(a.config().video.zorder, Some(ACTIVE_ZORDER));
    assert_eq!(a.config().video.zorder, Some(1000));
    assert_eq!(a.config().video.xpos, 0);
    assert_eq!(a.config().video.ypos, 0);
    assert_eq!(a.config().video.width, 1920);
    assert_eq!(a.config().video.height, 1080);
    for n in ["B", "C"] {
        let q = m.input_get(n).unwrap();
        assert_eq!(q.volume(), 0);
        assert_eq!(q.config().video.zorder, a.config().video.zorder);
    }
    // a mute by demotion does not persist once the input is promoted again
    assert!(m.input_set_active("B").is_ok());
    assert_eq!(m.input_get("B").unwrap().volume(), 800);
    assert_eq!(m.input_get("A").unwrap().volume(), 0);
    assert_eq!(m.input_get("A").unwrap().config().audio.volume, 700);
}

#[test]
fn set_active_absent_is_not_found() {
    let mut m = Mixer::new(mixer_config("main"));
    m.input_add(Input::create_fake(input_config("A", 700)), Ok(())).unwrap();
    assert!(matches!(m.input_set_active("Z"), Err(Error::NotFound(_, _))));
    assert_eq!(m.input_get("A").unwrap().volume(), 700);
    assert_eq!(m.input_get("A").unwrap().config().video.zorder, None);
}

#[test]
fn output_add_get_remove() {
    let mut m = Mixer::new(mixer_config("main"));
    let o = Output::create("Fake", output_config("x"), "ignored").unwrap();
    assert!(m.output_add(o, Ok(())).is_ok());
    let got = m.output_get("x").unwrap();
    assert_eq!(got.name(), "x");
    assert_eq!(got.output_type(), "Fake");
    assert_eq!(got.location(), "");
    assert!(m.output_remove("x", Ok(())).is_ok());
    assert!(m.output_get("x").is_none());
    assert!(matches!(m.output_remove("x", Ok(())), Err(Error::NotFound(_, _))));
}

#[test]
fn output_add_twice_is_exists() {
    let mut m = Mixer::new(mixer_config("main"));
    m.output_add(Output::create_fake(output_config("x")), Ok(())).unwrap();
    match m.output_add(Output::create_auto(output_config("x")), Ok(())) {
        Err(Error::Exists(kind, name)) => {
            assert_eq!(kind, "output");
            assert_eq!(name, "x");
        }
        other => panic!("unexpected {:?}", other),
    }
    assert_eq!(m.output_count(), 1);
}

#[test]
fn output_kinds_and_locations() {
    let rtmp = Output::create_rtmp(output_config("r"), "rtmp://host/live");
    assert_eq!(rtmp.output_type(), "RTMP");
    assert_eq!(rtmp.location(), "rtmp://host/live");
    let file = Output::create("File", output_config("f"), "/tmp/out.mkv").unwrap();
    assert_eq!(file.kind(), OutputKind::File);
    assert_eq!(file.location(), "/tmp/out.mkv");
    let auto = Output::create("Auto", output_config("a"), "somewhere").unwrap();
    assert_eq!(auto.location(), "");
    assert!(Output::create("Bogus", output_config("b"), "").is_none());
    assert_eq!(OutputKind::from_name("RTMP"), Some(OutputKind::RTMP));
    assert_eq!(OutputKind::from_name("rtmp"), None);
}

#[test]
fn input_kinds_and_locations() {
    let u = Input::create("URI", input_config("u", 1000), "http://nowhere").unwrap();
    assert_eq!(u.input_type(), "URI");
    assert_eq!(u.location(), "http://nowhere");
    let t = Input::create("Test", input_config("t", 1000), "http://nowhere").unwrap();
    assert_eq!(t.kind(), InputKind::Test);
    assert_eq!(t.location(), "");
    assert!(Input::create("Fake", input_config("f", 1000), "").is_some());
    assert!(Input::create("uri", input_config("x", 1000), "").is_none());
    assert_eq!(InputKind::from_name("Fake"), Some(InputKind::Fake));
}

#[test]
fn input_setters_update_configuration() {
    let mut i = Input::create_fake(input_config("i", 1000));
    i.set_zorder(3);
    i.set_width(640);
    i.set_height(360);
    i.set_xpos(10);
    i.set_ypos(20);
    i.set_alpha(500);
    i.set_volume(250);
    let c = i.config();
    assert_eq!(c.video.zorder, Some(3));
    assert_eq!(c.video.width, 640);
    assert_eq!(c.video.height, 360);
    assert_eq!(c.video.xpos, 10);
    assert_eq!(c.video.ypos, 20);
    assert_eq!(c.video.alpha, 500);
    assert_eq!(c.audio.volume, 250);
    assert_eq!(i.volume(), 250);
    assert_eq!(i.configured_volume(), 250);
}

#[test]
fn element_names_join_scope_node_and_role() {
    assert_eq!(element_name("mixer", "main", "video_tee"), "mixer_main_video_tee");
    assert_eq!(element_name("output", "x", "mux"), "output_x_mux");
}

#[test]
fn bus_watcher_stops_on_error_eos_and_null() {
    assert!(!watch_bus_step(BusEvent::Error));
    assert!(!watch_bus_step(BusEvent::EndOfStream));
    assert!(watch_bus_step(BusEvent::Other));
    assert!(!watch_bus_step(BusEvent::StateChanged { of_graph: true, current: State::Null }));
    assert!(watch_bus_step(BusEvent::StateChanged { of_graph: false, current: State::Null }));
    assert!(watch_bus_step(BusEvent::StateChanged { of_graph: true, current: State::Playing }));
}

#[test]
fn recording_only_for_network_sources_that_ask() {
    let mut c = input_config("cam", 1000);
    c.record = true;
    let u = Input::create_uri(c.clone(), "rtmp://x/live");
    assert!(u.records());
    assert_eq!(u.recording_name(), "record_cam");
    assert_eq!(u.recording_location(), "./recordings/input_cam.mkv");
    assert!(!Input::create_test(c).records());
    assert!(!Input::create_uri(input_config("cam", 1000), "rtmp://x/live").records());
}

#[test]
fn input_update_reconfigures_and_keeps_zorder_when_absent() {
    let mut m = Mixer::new(mixer_config("main"));
    m.input_add(Input::create_fake(input_config("a", 1000)), Ok(())).unwrap();
    let mut v = VideoConfig::default();
    v.width = 320;
    v.zorder = Some(4);
    m.input_update("a", v, AudioConfig { volume: 300 }).unwrap();
    let mut v2 = VideoConfig::default();
    v2.xpos = 7;
    m.input_update("a", v2, AudioConfig { volume: 400 }).unwrap();
    let a = m.input_get("a").unwrap();
    assert_eq!(a.config().video.zorder, Some(4));
    assert_eq!(a.config().video.width, 1920);
    assert_eq!(a.config().video.xpos, 7);
    assert_eq!(a.volume(), 400);
    assert!(matches!(m.input_update("zz", v2, AudioConfig { volume: 1 }), Err(Error::NotFound(_, _))));
}

#[test]
fn set_active_on_default_inputs() {
    let mut m = Mixer::new(mixer_config("main"));
    for n in ["A", "B", "C"] {
        let c = input::Config {
            name: n.to_string(),
            video: VideoConfig::default(),
            audio: AudioConfig::default(),
            record: false,
        };
        m.input_add(Input::create_test(c), Ok(())).unwrap();
    }
    m.input_set_active("A").unwrap();
    let a = m.input_get("A").unwrap();
    assert_eq!(a.volume(), AudioConfig::default().volume);
    assert_eq!(a.config().video.zorder, Some(ACTIVE_ZORDER));
    for n in ["B", "C"] {
        let q = m.input_get(n).unwrap();
        assert_eq!(q.volume(), 0);
        assert_eq!(q.config().video.zorder, Some(ACTIVE_ZORDER));
    }
    assert_eq!(m.input_count(), 3);
}
