use vstd::prelude::*;

use crate::error::Error as MixerError;
use crate::text::same_text;
use crate::input::{Input, InputModel};
use crate::mixer::{
    background_of, has_input, input_add_post, input_remove_post, output_add_post, output_remove_post,
    input_update_post, set_active_post, Config, Mixer, MixerModel, State,
};
use crate::config::{AudioConfig, VideoConfig};
use crate::output::Output;
use crate::pattern::{pattern_matches, regex_compiles, regex_matches};

verus! {

/// The grammar of mixer names: one or more ASCII letters, digits, `-` or `_`.
pub open spec fn name_pattern() -> Seq<char> {
    "^[a-zA-Z0-9-_]+$"@
}

/// Failures of an operation on the registry of mixers.
#[derive(Debug)]
pub enum Error {
    /// A failure that fits no other variant.
    Unknown,
    /// A mixer of that name is already registered.
    Exists,
    /// No mixer of that name is registered.
    NotFound,
    /// The name does not follow the grammar of mixer names.
    InvalidName,
    /// The mixer refused the operation.
    Mixer(MixerError),
}

/// The status that the control layer reports for an error: 400 for a
/// request it refuses, 404 for something absent, 500 for a failure of its own.
pub open spec fn status_of(e: Error) -> u16 {
    match e {
        Error::Exists => 400,
        Error::InvalidName => 400,
        Error::Unknown => 500,
        Error::NotFound => 404,
        Error::Mixer(m) => match m {
            MixerError::Exists(_, _) => 400,
            MixerError::Unknown => 500,
            MixerError::NotFound(_, _) => 404,
            MixerError::Gstreamer(_) => 500,
        },
    }
}

impl Error {
    /// The status that the control layer reports for this error.
    pub fn status_code(&self) -> (r: u16)
        ensures
            r == status_of(*self),
    {
        match self {
            Error::Exists => 400,
            Error::InvalidName => 400,
            Error::Unknown => 500,
            Error::NotFound => 404,
            Error::Mixer(m) => match m {
                MixerError::Exists(_, _) => 400,
                MixerError::Unknown => 500,
                MixerError::NotFound(_, _) => 404,
                MixerError::Gstreamer(_) => 500,
            },
        }
    }
}

/// The registry's result for a mixer's result `r`.
pub open spec fn lift(r: Result<(), MixerError>) -> Result<(), Error> {
    match r {
        Ok(()) => Ok(()),
        Err(e) => Err(Error::Mixer(e)),
    }
}

/// Whether a mixer in `s` is named `name`.
pub open spec fn has_mixer(s: Seq<MixerModel>, name: Seq<char>) -> bool {
    exists|i: int| 0 <= i < s.len() && #[trigger] s[i].config.name == name
}

/// No two mixers of `s` share a name, and each is well formed.
pub open spec fn registry_wf(s: Seq<MixerModel>) -> bool {
    &&& forall|i: int| 0 <= i < s.len() ==> (#[trigger] s[i]).wf()
    &&& forall|i: int, j: int|
        0 <= i < s.len() && 0 <= j < s.len() && i != j ==> #[trigger] s[i].config.name
            != #[trigger] s[j].config.name
}

/// Whether a mixer named `name` may be created, given what the name grammar
/// said of it (`None` where the grammar could not be applied).
pub open spec fn create_decision(s: Seq<MixerModel>, name: Seq<char>, matched: Option<bool>) -> Result<(), Error> {
    match matched {
        None => Err(Error::Unknown),
        Some(false) => Err(Error::InvalidName),
        Some(true) => if has_mixer(s, name) {
            Err(Error::Exists)
        } else {
            Ok(())
        },
    }
}

/// A mixer just created from `c` and set playing.
pub open spec fn started_mixer(c: crate::mixer::ConfigModel) -> MixerModel {
    MixerModel {
        config: c,
        background: background_of(c),
        inputs: Seq::empty(),
        outputs: Seq::empty(),
        state: State::Playing,
    }
}

/// What creating a mixer from `c` does to the registry `s`, given what the
/// name grammar said of its name and how building and starting its graph
/// went: it returns `r` and leaves `s2`.
pub open spec fn create_post(
    s: Seq<MixerModel>,
    c: crate::mixer::ConfigModel,
    matched: Option<bool>,
    started: Result<(), MixerError>,
    r: Result<(), Error>,
    s2: Seq<MixerModel>,
) -> bool {
    if create_decision(s, c.name, matched) is Err {
        r == create_decision(s, c.name, matched) && s2 == s
    } else if started is Err {
        r == lift(started) && s2 == s
    } else {
        r is Ok && s2 == s.push(started_mixer(c))
    }
}

/// `s2` is `s` with only the mixer at `k`, named `name`, changed.
pub open spec fn changed_at(s: Seq<MixerModel>, name: Seq<char>, k: int, s2: Seq<MixerModel>) -> bool {
    0 <= k < s.len() && s[k].config.name == name && s2.len() == s.len() && s2 == s.update(k, s2[k])
}

/// What `Mixers::input_add` does: from `s`, adding `input` to the mixer
/// named `mixer` with the link outcome `linked`, it returns `r` and leaves `s2`.
pub open spec fn registry_input_add_post(
    s: Seq<MixerModel>,
    mixer: Seq<char>,
    input: InputModel,
    linked: Result<(), MixerError>,
    r: Result<(), Error>,
    s2: Seq<MixerModel>,
) -> bool {
    if !has_mixer(s, mixer) {
        r == Err::<(), Error>(Error::NotFound) && s2 == s
    } else {
        exists|k: int, rm: Result<(), MixerError>|
            changed_at(s, mixer, k, s2) && #[trigger] input_add_post(s[k], input, linked, rm, s2[k])
                && r == lift(rm)
    }
}

/// A mixer created with a name that the grammar accepts and that is free,
/// its graph started, is registered under that name with no inputs and no
/// outputs.
pub proof fn lemma_created_mixer_is_empty(
    s: Seq<MixerModel>,
    c: crate::mixer::ConfigModel,
    r: Result<(), Error>,
    s2: Seq<MixerModel>,
)
    requires
        !has_mixer(s, c.name),
        create_post(s, c, Some(true), Ok(()), r, s2),
    ensures
        r is Ok,
        has_mixer(s2, c.name),
        forall|k: int|
            0 <= k < s2.len() && #[trigger] s2[k].config.name == c.name ==> s2[k].inputs.len() == 0
                && s2[k].outputs.len() == 0,
{
    let n = s.len() as int;
    assert(s2[n].config.name == c.name);
    assert forall|k: int|
        0 <= k < s2.len() && #[trigger] s2[k].config.name == c.name implies s2[k].inputs.len() == 0
        && s2[k].outputs.len() == 0 by {
        if k < n {
            assert(s2[k] == s[k]);
        }
    }
}

/// Creating a mixer under a name that is taken gives `Exists`, under a name
/// that the grammar refuses gives `InvalidName`; either way the registry
/// stays as it was.
pub proof fn lemma_create_refusals(
    s: Seq<MixerModel>,
    c: crate::mixer::ConfigModel,
    matched: Option<bool>,
    started: Result<(), MixerError>,
    r: Result<(), Error>,
    s2: Seq<MixerModel>,
)
    requires
        create_post(s, c, matched, started, r, s2),
    ensures
        matched == Some(false) ==> r == Err::<(), Error>(Error::InvalidName) && s2 == s,
        matched == Some(true) && has_mixer(s, c.name) ==> r == Err::<(), Error>(Error::Exists) && s2 == s,
{
}

/// Inputs added to two different mixers, each under a name free there and
/// each linked, are both taken, and each lands in its own mixer only.
pub proof fn lemma_adds_on_distinct_mixers(
    s: Seq<MixerModel>,
    a: Seq<char>,
    b: Seq<char>,
    ia: InputModel,
    ib: InputModel,
    r1: Result<(), Error>,
    s1: Seq<MixerModel>,
    r2: Result<(), Error>,
    s2: Seq<MixerModel>,
)
    requires
        registry_wf(s),
        a != b,
        has_mixer(s, a),
        has_mixer(s, b),
        forall|k: int| 0 <= k < s.len() && #[trigger] s[k].config.name == a ==> !has_input(s[k].inputs, ia.name()),
        forall|k: int| 0 <= k < s.len() && #[trigger] s[k].config.name == b ==> !has_input(s[k].inputs, ib.name()),
        registry_input_add_post(s, a, ia, Ok(()), r1, s1),
        registry_input_add_post(s1, b, ib, Ok(()), r2, s2),
    ensures
        r1 is Ok,
        r2 is Ok,
        s2.len() == s.len(),
        forall|k: int|
            0 <= k < s.len() ==> #[trigger] s2[k] == (if s[k].config.name == a {
                MixerModel { inputs: s[k].inputs.push(ia), ..s[k] }
            } else if s[k].config.name == b {
                MixerModel { inputs: s[k].inputs.push(ib), ..s[k] }
            } else {
                s[k]
            }),
{
    let (k1, rm1) = choose|k: int, rm: Result<(), MixerError>|
        changed_at(s, a, k, s1) && #[trigger] input_add_post(s[k], ia, Ok(()), rm, s1[k]) && r1 == lift(rm);
    assert(!has_input(s[k1].inputs, ia.name()));
    assert(s1[k1].config.name == a);
    let kb = choose|i: int| 0 <= i < s.len() && #[trigger] s[i].config.name == b;
    assert(kb != k1);
    assert(s1[kb] == s[kb]);
    assert(has_mixer(s1, b));
    let (k2, rm2) = choose|k: int, rm: Result<(), MixerError>|
        changed_at(s1, b, k, s2) && #[trigger] input_add_post(s1[k], ib, Ok(()), rm, s2[k]) && r2 == lift(rm);
    assert(s1[k2].config.name == b);
    if k2 != kb {
        if k2 == k1 {
            assert(false);
        } else {
            assert(s1[k2] == s[k2]);
            assert(false);
        }
    }
    assert(!has_input(s1[k2].inputs, ib.name()));
    assert forall|k: int| 0 <= k < s.len() implies #[trigger] s2[k] == (if s[k].config.name == a {
        MixerModel { inputs: s[k].inputs.push(ia), ..s[k] }
    } else if s[k].config.name == b {
        MixerModel { inputs: s[k].inputs.push(ib), ..s[k] }
    } else {
        s[k]
    }) by {
        if k != k1 && k != k2 {
            assert(s2[k] == s1[k]);
            assert(s1[k] == s[k]);
            assert(s[k].config.name != a);
            assert(s[k].config.name != b);
        } else if k == k1 {
            assert(s2[k] == s1[k]);
        } else {
            assert(s1[k] == s[k]);
        }
    }
}

/// Two inputs of one name added to the same mixer, one after the other as
/// the registry's lock orders them: the first (linked) is taken, the second
/// is refused with `Exists` and changes nothing.
pub proof fn lemma_same_name_on_one_mixer(
    s: Seq<MixerModel>,
    a: Seq<char>,
    i1: InputModel,
    i2: InputModel,
    linked: Result<(), MixerError>,
    r1: Result<(), Error>,
    s1: Seq<MixerModel>,
    r2: Result<(), Error>,
    s2: Seq<MixerModel>,
)
    requires
        registry_wf(s),
        has_mixer(s, a),
        i1.name() == i2.name(),
        forall|k: int| 0 <= k < s.len() && #[trigger] s[k].config.name == a ==> !has_input(s[k].inputs, i1.name()),
        registry_input_add_post(s, a, i1, Ok(()), r1, s1),
        registry_input_add_post(s1, a, i2, linked, r2, s2),
    ensures
        r1 is Ok,
        r2 matches Err(Error::Mixer(e)) && crate::error::is_exists(e, "input"@, i1.name()),
        s2 == s1,
{
    let (k1, rm1) = choose|k: int, rm: Result<(), MixerError>|
        changed_at(s, a, k, s1) && #[trigger] input_add_post(s[k], i1, Ok(()), rm, s1[k]) && r1 == lift(rm);
    assert(!has_input(s[k1].inputs, i1.name()));
    assert(s1[k1].config.name == a);
    assert(has_mixer(s1, a));
    let (k2, rm2) = choose|k: int, rm: Result<(), MixerError>|
        changed_at(s1, a, k, s2) && #[trigger] input_add_post(s1[k], i2, linked, rm, s2[k]) && r2 == lift(rm);
    if k2 != k1 {
        assert(s1[k2] == s[k2]);
        assert(s[k2].config.name == s[k1].config.name);
        assert(false);
    }
    let n = s[k1].inputs.len() as int;
    assert(s1[k1].inputs[n] == i1);
    assert(has_input(s1[k1].inputs, i2.name()));
    assert(s2 =~= s1);
}

/// The process-wide table of named mixers.
#[derive(Debug)]
pub struct Mixers {
    mixers: Vec<Mixer>,
}

impl View for Mixers {
    type V = Seq<MixerModel>;

    closed spec fn view(&self) -> Seq<MixerModel> {
        self.mixers@.map_values(|m: Mixer| m@)
    }
}

impl Mixers {
    /// An empty registry.
    pub fn new() -> (r: Mixers)
        ensures
            r@.len() == 0,
            registry_wf(r@),
    {
        let r = Mixers { mixers: Vec::new() };
        assert(r@ =~= Seq::<MixerModel>::empty());
        r
    }

    pub fn mixer_count(&self) -> (r: usize)
        ensures
            r == self@.len(),
    {
        self.mixers.len()
    }

    /// The mixers, in the order they were created.
    pub fn mixers(&self) -> (r: &Vec<Mixer>)
        ensures
            r@.map_values(|m: Mixer| m@) == self@,
    {
        &self.mixers
    }

    /// The position of the mixer named `name`.
    pub fn find_mixer(&self, name: &str) -> (r: Option<usize>)
        ensures
            r matches Some(k) ==> k < self@.len() && self@[k as int].config.name == name@,
            r is None <==> !has_mixer(self@, name@),
    {
        let mut k: usize = 0;
        while k < self.mixers.len()
            invariant
                k <= self.mixers@.len(),
                forall|j: int| 0 <= j < k ==> #[trigger] self@[j].config.name != name@,
            decreases self.mixers@.len() - k,
        {
            let n = self.mixers[k].name();
            if same_text(n.as_str(), name) {
                assert(self@[k as int].config.name == name@);
                return Some(k);
            }
            k += 1;
        }
        None
    }

    /// The mixer named `name`, if any.
    pub fn mixer_get(&self, name: &str) -> (r: Option<&Mixer>)
        ensures
            r matches Some(m) ==> exists|k: int|
                0 <= k < self@.len() && #[trigger] self@[k] == m@ && m@.config.name == name@,
            r is None <==> !has_mixer(self@, name@),
    {
        match self.find_mixer(name) {
            Some(k) => {
                assert(self@[k as int] == self.mixers@[k as int]@);
                Some(&self.mixers[k])
            },
            None => None,
        }
    }

    /// The configuration of the mixer named `name`.
    pub fn mixer_config(&self, name: &str) -> (r: Result<Config, Error>)
        ensures
            r matches Ok(c) ==> exists|k: int|
                0 <= k < self@.len() && #[trigger] self@[k].config == c@ && c@.name == name@,
            r is Err <==> !has_mixer(self@, name@),
            r matches Err(e) ==> e == Error::NotFound,
    {
        match self.mixer_get(name) {
            Some(m) => Ok(m.config()),
            None => Err(Error::NotFound),
        }
    }

    /// Whether a mixer named `name` may be created, given what the name
    /// grammar said of it.
    pub fn mixer_create_check_with(&self, name: &str, matched: Option<bool>) -> (r: Result<(), Error>)
        ensures
            r == create_decision(self@, name@, matched),
    {
        match matched {
            None => Err(Error::Unknown),
            Some(false) => Err(Error::InvalidName),
            Some(true) => if self.find_mixer(name).is_some() {
                Err(Error::Exists)
            } else {
                Ok(())
            },
        }
    }

    /// Applies the name grammar to `name`: `None` where the grammar could
    /// not be compiled.
    pub fn name_matches(name: &str) -> (r: Option<bool>)
        ensures
            r is Some <==> regex_compiles(name_pattern()),
            r matches Some(b) ==> b == regex_matches(name_pattern(), name@),
    {
        pattern_matches("^[a-zA-Z0-9-_]+$", name)
    }

    /// Whether a mixer named `name` may be created: it must follow the name
    /// grammar and be free.
    pub fn mixer_create_check(&self, name: &str) -> (r: Result<(), Error>)
        ensures
            regex_compiles(name_pattern()) ==> r == create_decision(
                self@,
                name@,
                Some(regex_matches(name_pattern(), name@)),
            ),
            !regex_compiles(name_pattern()) ==> r == Err::<(), Error>(Error::Unknown),
    {
        let matched = Mixers::name_matches(name);
        self.mixer_create_check_with(name, matched)
    }

    /// Registers a mixer built from `config`, given what the name grammar
    /// said of its name and how building and starting its graph went. A
    /// refused name or a failed start leaves the registry as it was.
    pub fn mixer_create_with(
        &mut self,
        config: Config,
        matched: Option<bool>,
        started: Result<(), MixerError>,
    ) -> (r: Result<(), Error>)
        requires
            registry_wf(old(self)@),
        ensures
            registry_wf(final(self)@),
            create_post(old(self)@, config@, matched, started, r, final(self)@),
    {
        let decision = self.mixer_create_check_with(config.name.as_str(), matched);
        match decision {
            Err(e) => Err(e),
            Ok(()) => match started {
                Err(e) => Err(Error::Mixer(e)),
                Ok(()) => {
                    let ghost before = self@;
                    let mut mixer = Mixer::new(config);
                    mixer.play();
                    proof {
                        assert(mixer@.inputs =~= Seq::<crate::input::InputModel>::empty());
                        assert(mixer@.outputs =~= Seq::<crate::output::OutputModel>::empty());
                    }
                    self.mixers.push(mixer);
                    proof {
                        assert(self@ =~= before.push(mixer@));
                        assert forall|i: int, j: int|
                            0 <= i < self@.len() && 0 <= j < self@.len() && i != j
                            implies #[trigger] self@[i].config.name != #[trigger] self@[j].config.name by {
                            if i < before.len() && j < before.len() {
                            } else if i < before.len() {
                                assert(before[i] == self@[i]);
                            } else {
                                assert(before[j] == self@[j]);
                            }
                        }
                        assert forall|i: int| 0 <= i < self@.len() implies (#[trigger] self@[i]).wf() by {
                            if i < before.len() {
                                assert(before[i] == self@[i]);
                            }
                        }
                    }
                    Ok(())
                },
            },
        }
    }

    /// Creates and registers a mixer from `config`, whose graph the caller
    /// built and started with the outcome `started`. The name must follow
    /// the name grammar (`InvalidName`) and be free (`Exists`); `Unknown`
    /// where the grammar could not be applied.
    pub fn mixer_create(&mut self, config: Config, started: Result<(), MixerError>) -> (r: Result<(), Error>)
        requires
            registry_wf(old(self)@),
        ensures
            registry_wf(final(self)@),
            regex_compiles(name_pattern()) ==> create_post(
                old(self)@,
                config@,
                Some(regex_matches(name_pattern(), config@.name)),
                started,
                r,
                final(self)@,
            ),
            !regex_compiles(name_pattern()) ==> r == Err::<(), Error>(Error::Unknown) && final(self)@
                == old(self)@,
    {
        let matched = Mixers::name_matches(config.name.as_str());
        self.mixer_create_with(config, matched, started)
    }

    /// Adds `input` to the mixer named `mixer`, whose graph the caller linked it
    /// into with the outcome `linked`. An absent mixer gives `NotFound`; the mixer's own refusals come
    /// back wrapped in `Mixer`. No other mixer changes.
    pub fn input_add(&mut self, mixer: &str, input: Input, linked: Result<(), MixerError>) -> (r: Result<(), Error>)
        requires
            registry_wf(old(self)@),
        ensures
            registry_wf(final(self)@),
            registry_input_add_post(old(self)@, mixer@, input@, linked, r, final(self)@),
    {
        match self.find_mixer(mixer) {
            None => Err(Error::NotFound),
            Some(k) => {
                let ghost before = self@;
                proof {
                    assert(self.mixers@[k as int]@ == before[k as int]);
                }
                let rm = self.mixers[k].input_add(input, linked);
                proof {
                    self.lemma_changed_one(before, k as int);
                    assert(input_add_post(before[k as int], input@, linked, rm, self@[k as int]));
                }
                match rm {
                    Ok(()) => Ok(()),
                    Err(e) => Err(Error::Mixer(e)),
                }
            },
        }
    }

    /// Removes the input `name` from the mixer named `mixer`, whose graph the
    /// caller unlinked it from with the outcome `unlinked`. An absent mixer gives `NotFound`; the mixer's own refusals come
    /// back wrapped in `Mixer`. No other mixer changes.
    pub fn input_remove(&mut self, mixer: &str, name: &str, unlinked: Result<(), MixerError>) -> (r: Result<(), Error>)
        requires
            registry_wf(old(self)@),
        ensures
            registry_wf(final(self)@),
            !has_mixer(old(self)@, mixer@) ==> r == Err::<(), Error>(Error::NotFound) && final(self)@
                == old(self)@,
            has_mixer(old(self)@, mixer@) ==> exists|k: int, rm: Result<(), MixerError>|
                changed_at(old(self)@, mixer@, k, final(self)@) && #[trigger] input_remove_post(old(self)@[k], name@, unlinked, rm, final(self)@[k])
                    && r == lift(rm),
    {
        match self.find_mixer(mixer) {
            None => Err(Error::NotFound),
            Some(k) => {
                let ghost before = self@;
                proof {
                    assert(self.mixers@[k as int]@ == before[k as int]);
                }
                let rm = self.mixers[k].input_remove(name, unlinked);
                proof {
                    self.lemma_changed_one(before, k as int);
                    assert(input_remove_post(before[k as int], name@, unlinked, rm, self@[k as int]));
                }
                match rm {
                    Ok(()) => Ok(()),
                    Err(e) => Err(Error::Mixer(e)),
                }
            },
        }
    }

    /// Adds `output` to the mixer named `mixer`, whose graph the caller linked
    /// it to with the outcome `linked`. An absent mixer gives `NotFound`; the mixer's own refusals come
    /// back wrapped in `Mixer`. No other mixer changes.
    pub fn output_add(&mut self, mixer: &str, output: Output, linked: Result<(), MixerError>) -> (r: Result<(), Error>)
        requires
            registry_wf(old(self)@),
        ensures
            registry_wf(final(self)@),
            !has_mixer(old(self)@, mixer@) ==> r == Err::<(), Error>(Error::NotFound) && final(self)@
                == old(self)@,
            has_mixer(old(self)@, mixer@) ==> exists|k: int, rm: Result<(), MixerError>|
                changed_at(old(self)@, mixer@, k, final(self)@) && #[trigger] output_add_post(old(self)@[k], output@, linked, rm, final(self)@[k])
                    && r == lift(rm),
    {
        match self.find_mixer(mixer) {
            None => Err(Error::NotFound),
            Some(k) => {
                let ghost before = self@;
                proof {
                    assert(self.mixers@[k as int]@ == before[k as int]);
                }
                let rm = self.mixers[k].output_add(output, linked);
                proof {
                    self.lemma_changed_one(before, k as int);
                    assert(output_add_post(before[k as int], output@, linked, rm, self@[k as int]));
                }
                match rm {
                    Ok(()) => Ok(()),
                    Err(e) => Err(Error::Mixer(e)),
                }
            },
        }
    }

    /// Removes the output `name` from the mixer named `mixer`, whose graph the
    /// caller unlinked it from with the outcome `unlinked`. An absent mixer gives `NotFound`; the mixer's own refusals come
    /// back wrapped in `Mixer`. No other mixer changes.
    pub fn output_remove(&mut self, mixer: &str, name: &str, unlinked: Result<(), MixerError>) -> (r: Result<(), Error>)
        requires
            registry_wf(old(self)@),
        ensures
            registry_wf(final(self)@),
            !has_mixer(old(self)@, mixer@) ==> r == Err::<(), Error>(Error::NotFound) && final(self)@
                == old(self)@,
            has_mixer(old(self)@, mixer@) ==> exists|k: int, rm: Result<(), MixerError>|
                changed_at(old(self)@, mixer@, k, final(self)@) && #[trigger] output_remove_post(old(self)@[k], name@, unlinked, rm, final(self)@[k])
                    && r == lift(rm),
    {
        match self.find_mixer(mixer) {
            None => Err(Error::NotFound),
            Some(k) => {
                let ghost before = self@;
                proof {
                    assert(self.mixers@[k as int]@ == before[k as int]);
                }
                let rm = self.mixers[k].output_remove(name, unlinked);
                proof {
                    self.lemma_changed_one(before, k as int);
                    assert(output_remove_post(before[k as int], name@, unlinked, rm, self@[k as int]));
                }
                match rm {
                    Ok(()) => Ok(()),
                    Err(e) => Err(Error::Mixer(e)),
                }
            },
        }
    }

    /// Makes the input `name` the active one of the mixer named `mixer`. An absent mixer gives `NotFound`; the mixer's own refusals come
    /// back wrapped in `Mixer`. No other mixer changes.
    pub fn input_set_active(&mut self, mixer: &str, name: &str) -> (r: Result<(), Error>)
        requires
            registry_wf(old(self)@),
        ensures
            registry_wf(final(self)@),
            !has_mixer(old(self)@, mixer@) ==> r == Err::<(), Error>(Error::NotFound) && final(self)@
                == old(self)@,
            has_mixer(old(self)@, mixer@) ==> exists|k: int, rm: Result<(), MixerError>|
                changed_at(old(self)@, mixer@, k, final(self)@) && #[trigger] set_active_post(old(self)@[k], name@, rm, final(self)@[k])
                    && r == lift(rm),
    {
        match self.find_mixer(mixer) {
            None => Err(Error::NotFound),
            Some(k) => {
                let ghost before = self@;
                proof {
                    assert(self.mixers@[k as int]@ == before[k as int]);
                }
                let rm = self.mixers[k].input_set_active(name);
                proof {
                    self.lemma_changed_one(before, k as int);
                    assert(set_active_post(before[k as int], name@, rm, self@[k as int]));
                }
                match rm {
                    Ok(()) => Ok(()),
                    Err(e) => Err(Error::Mixer(e)),
                }
            },
        }
    }

    /// Whether an input named `name` may be added to the mixer named
    /// `mixer`, and if so the graph state to prime its elements to.
    pub fn input_add_state(&self, mixer: &str, name: &str) -> (r: Result<State, Error>)
        ensures
            !has_mixer(self@, mixer@) ==> r == Err::<State, Error>(Error::NotFound),
            has_mixer(self@, mixer@) ==> exists|k: int|
                0 <= k < self@.len() && #[trigger] self@[k].config.name == mixer@ && (if crate::mixer::has_input(
                    self@[k].inputs,
                    name@,
                ) {
                    r matches Err(Error::Mixer(e)) && crate::error::is_exists(e, "input"@, name@)
                } else {
                    r == Ok::<State, Error>(self@[k].state)
                }),
    {
        match self.find_mixer(mixer) {
            None => Err(Error::NotFound),
            Some(k) => {
                assert(self.mixers@[k as int]@ == self@[k as int]);
                match self.mixers[k].input_add_state(name) {
                    Ok(st) => Ok(st),
                    Err(e) => Err(Error::Mixer(e)),
                }
            },
        }
    }

    /// Whether an output named `name` may be added to the mixer named
    /// `mixer`, and if so the graph state to prime its elements to.
    pub fn output_add_state(&self, mixer: &str, name: &str) -> (r: Result<State, Error>)
        ensures
            !has_mixer(self@, mixer@) ==> r == Err::<State, Error>(Error::NotFound),
            has_mixer(self@, mixer@) ==> exists|k: int|
                0 <= k < self@.len() && #[trigger] self@[k].config.name == mixer@ && (if crate::mixer::has_output(
                    self@[k].outputs,
                    name@,
                ) {
                    r matches Err(Error::Mixer(e)) && crate::error::is_exists(e, "output"@, name@)
                } else {
                    r == Ok::<State, Error>(self@[k].state)
                }),
    {
        match self.find_mixer(mixer) {
            None => Err(Error::NotFound),
            Some(k) => {
                assert(self.mixers@[k as int]@ == self@[k as int]);
                match self.mixers[k].output_add_state(name) {
                    Ok(st) => Ok(st),
                    Err(e) => Err(Error::Mixer(e)),
                }
            },
        }
    }

    /// After the mixer at `k` of `before` changed and kept its configuration
    /// and well-formedness, the registry is `before` with that one entry
    /// replaced, and is still well formed.
    proof fn lemma_changed_one(&self, before: Seq<MixerModel>, k: int)
        requires
            registry_wf(before),
            0 <= k < before.len(),
            self.mixers@.len() == before.len(),
            forall|j: int| 0 <= j < before.len() && j != k ==> #[trigger] self.mixers@[j]@ == before[j],
            self.mixers@[k]@.config == before[k].config,
            self.mixers@[k]@.wf(),
        ensures
            registry_wf(self@),
            changed_at(before, before[k].config.name, k, self@),
            self@[k] == self.mixers@[k]@,
    {
        assert(self@ =~= before.update(k, self.mixers@[k]@));
        assert forall|i: int| 0 <= i < self@.len() implies (#[trigger] self@[i]).wf() by {
            if i != k {
                assert(self@[i] == before[i]);
            }
        }
        assert forall|i: int, j: int|
            0 <= i < self@.len() && 0 <= j < self@.len() && i != j
            implies #[trigger] self@[i].config.name != #[trigger] self@[j].config.name by {
            assert(self@[i].config.name == before[i].config.name);
            assert(self@[j].config.name == before[j].config.name);
        }
    }

    /// Reconfigures the input `name` of the mixer named `mixer` from `video`
    /// and `audio`. An absent mixer gives `NotFound`; the mixer's own
    /// refusals come back wrapped in `Mixer`. No other mixer changes.
    pub fn input_update(&mut self, mixer: &str, name: &str, video: VideoConfig, audio: AudioConfig) -> (r: Result<(), Error>)
        requires
            registry_wf(old(self)@),
        ensures
            registry_wf(final(self)@),
            !has_mixer(old(self)@, mixer@) ==> r == Err::<(), Error>(Error::NotFound) && final(self)@
                == old(self)@,
            has_mixer(old(self)@, mixer@) ==> exists|k: int, rm: Result<(), MixerError>|
                changed_at(old(self)@, mixer@, k, final(self)@) && #[trigger] input_update_post(old(self)@[k], name@, video, audio, rm, final(self)@[k])
                    && r == lift(rm),
    {
        match self.find_mixer(mixer) {
            None => Err(Error::NotFound),
            Some(k) => {
                let ghost before = self@;
                proof {
                    assert(self.mixers@[k as int]@ == before[k as int]);
                }
                let rm = self.mixers[k].input_update(name, video, audio);
                proof {
                    self.lemma_changed_one(before, k as int);
                    assert(input_update_post(before[k as int], name@, video, audio, rm, self@[k as int]));
                }
                match rm {
                    Ok(()) => Ok(()),
                    Err(e) => Err(Error::Mixer(e)),
                }
            },
        }
    }
}

} // verus!
