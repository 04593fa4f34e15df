use vstd::prelude::*;

use crate::config::{AudioConfig, VideoConfig};
use crate::error::{exists_error, is_exists, is_not_found, not_found_error, Error};
use crate::text::same_text;
use crate::input::{self, Input, InputKind, InputModel};
use crate::output::{Output, OutputModel};

verus! {

/// The z-order that the active input is raised to, above every configured one.
pub const ACTIVE_ZORDER: u32 = 1000;

/// The state of a media graph, from stopped to running.
#[derive(PartialEq, Eq, Structural, Clone, Copy, Debug)]
pub enum State {
    Null,
    Ready,
    Paused,
    Playing,
}

/// What a mixer was configured with: its name and its canvas.
#[derive(Clone, Debug)]
pub struct Config {
    pub name: String,
    pub video: VideoConfig,
    pub audio: AudioConfig,
}

/// The value of a mixer configuration.
pub struct ConfigModel {
    pub name: Seq<char>,
    pub video: VideoConfig,
    pub audio: AudioConfig,
}

impl View for Config {
    type V = ConfigModel;

    open spec fn view(&self) -> ConfigModel {
        ConfigModel { name: self.name@, video: self.video, audio: self.audio }
    }
}

impl Config {
    /// A copy of this configuration.
    pub fn copied(&self) -> (r: Config)
        ensures
            r@ == self@,
    {
        Config { name: self.name.clone(), video: self.video, audio: self.audio }
    }
}

/// Whether some input in `s` is named `name`.
pub open spec fn has_input(s: Seq<InputModel>, name: Seq<char>) -> bool {
    exists|i: int| 0 <= i < s.len() && #[trigger] s[i].name() == name
}

/// Whether some output in `s` is named `name`.
pub open spec fn has_output(s: Seq<OutputModel>, name: Seq<char>) -> bool {
    exists|i: int| 0 <= i < s.len() && #[trigger] s[i].name() == name
}

/// No two inputs of `s` share a name.
pub open spec fn inputs_unique(s: Seq<InputModel>) -> bool {
    forall|i: int, j: int|
        0 <= i < s.len() && 0 <= j < s.len() && i != j ==> #[trigger] s[i].name() != #[trigger] s[j].name()
}

/// No two outputs of `s` share a name.
pub open spec fn outputs_unique(s: Seq<OutputModel>) -> bool {
    forall|i: int, j: int|
        0 <= i < s.len() && 0 <= j < s.len() && i != j ==> #[trigger] s[i].name() != #[trigger] s[j].name()
}

/// The value of a mixer: its configuration, its background filler, its
/// input and output tables in the order the nodes were added, and the
/// state of its graph.
pub struct MixerModel {
    pub config: ConfigModel,
    pub background: InputModel,
    pub inputs: Seq<InputModel>,
    pub outputs: Seq<OutputModel>,
    pub state: State,
}

impl MixerModel {
    /// Node names are unique within each table.
    pub open spec fn wf(self) -> bool {
        inputs_unique(self.inputs) && outputs_unique(self.outputs)
    }
}

/// The background filler of a mixer with configuration `c`: a test source
/// on the whole canvas, silenced.
pub open spec fn background_of(c: ConfigModel) -> InputModel {
    input::fresh_input(
        InputKind::Test,
        Seq::empty(),
        input::ConfigModel {
            name: "background"@,
            video: c.video,
            audio: AudioConfig { volume: 0 },
            record: false,
        },
    )
}

/// The input promoted to active on a canvas: raised above all others,
/// placed at the origin, stretched to the canvas, and mixed at its
/// configured gain.
pub open spec fn promoted(m: InputModel, canvas: VideoConfig) -> InputModel {
    InputModel {
        config: input::ConfigModel {
            video: VideoConfig {
                zorder: Some(ACTIVE_ZORDER),
                xpos: 0,
                ypos: 0,
                width: canvas.width,
                height: canvas.height,
                ..m.config.video
            },
            ..m.config
        },
        volume: m.config.audio.volume,
        ..m
    }
}

/// An input demoted beside the active one: silenced and given the active
/// input's z-order.
pub open spec fn demoted(m: InputModel, zorder: u32) -> InputModel {
    InputModel {
        config: input::ConfigModel {
            video: VideoConfig { zorder: Some(zorder), ..m.config.video },
            ..m.config
        },
        volume: 0,
        ..m
    }
}

/// The inputs after `name` is made active on `canvas`.
pub open spec fn activated(s: Seq<InputModel>, name: Seq<char>, canvas: VideoConfig) -> Seq<InputModel> {
    s.map_values(
        |m: InputModel|
            if m.name() == name {
                promoted(m, canvas)
            } else {
                demoted(m, ACTIVE_ZORDER)
            },
    )
}

/// What `Mixer::input_add` does: from `m`, adding `input` whose link had the
/// outcome `linked`, it returns `r` and leaves `m2`.
pub open spec fn input_add_post(
    m: MixerModel,
    input: InputModel,
    linked: Result<(), Error>,
    r: Result<(), Error>,
    m2: MixerModel,
) -> bool {
    if has_input(m.inputs, input.name()) {
        (r matches Err(e) && is_exists(e, "input"@, input.name())) && m2 == m
    } else if linked is Err {
        r == linked && m2 == m
    } else {
        r is Ok && m2 == (MixerModel { inputs: m.inputs.push(input), ..m })
    }
}

/// What `Mixer::input_remove` does: from `m`, removing `name` whose unlink
/// had the outcome `unlinked`, it returns `r` and leaves `m2`.
pub open spec fn input_remove_post(
    m: MixerModel,
    name: Seq<char>,
    unlinked: Result<(), Error>,
    r: Result<(), Error>,
    m2: MixerModel,
) -> bool {
    if !has_input(m.inputs, name) {
        (r matches Err(e) && is_not_found(e, "input"@, name)) && m2 == m
    } else if unlinked is Err {
        r == unlinked && m2 == m
    } else {
        r is Ok && exists|k: int|
            0 <= k < m.inputs.len() && #[trigger] m.inputs[k].name() == name && m2 == (MixerModel {
                inputs: m.inputs.remove(k),
                ..m
            })
    }
}

/// What `Mixer::output_add` does: from `m`, adding `output` whose link had
/// the outcome `linked`, it returns `r` and leaves `m2`.
pub open spec fn output_add_post(
    m: MixerModel,
    output: OutputModel,
    linked: Result<(), Error>,
    r: Result<(), Error>,
    m2: MixerModel,
) -> bool {
    if has_output(m.outputs, output.name()) {
        (r matches Err(e) && is_exists(e, "output"@, output.name())) && m2 == m
    } else if linked is Err {
        r == linked && m2 == m
    } else {
        r is Ok && m2 == (MixerModel { outputs: m.outputs.push(output), ..m })
    }
}

/// What `Mixer::output_remove` does: from `m`, removing `name` whose unlink
/// had the outcome `unlinked`, it returns `r` and leaves `m2`.
pub open spec fn output_remove_post(
    m: MixerModel,
    name: Seq<char>,
    unlinked: Result<(), Error>,
    r: Result<(), Error>,
    m2: MixerModel,
) -> bool {
    if !has_output(m.outputs, name) {
        (r matches Err(e) && is_not_found(e, "output"@, name)) && m2 == m
    } else if unlinked is Err {
        r == unlinked && m2 == m
    } else {
        r is Ok && exists|k: int|
            0 <= k < m.outputs.len() && #[trigger] m.outputs[k].name() == name && m2 == (MixerModel {
                outputs: m.outputs.remove(k),
                ..m
            })
    }
}

/// What `Mixer::input_update` does: from `m`, reconfiguring `name` from
/// `video` and `audio`, it returns `r` and leaves `m2`.
pub open spec fn input_update_post(
    m: MixerModel,
    name: Seq<char>,
    video: VideoConfig,
    audio: AudioConfig,
    r: Result<(), Error>,
    m2: MixerModel,
) -> bool {
    if !has_input(m.inputs, name) {
        (r matches Err(e) && is_not_found(e, "input"@, name)) && m2 == m
    } else {
        r is Ok && exists|k: int|
            0 <= k < m.inputs.len() && #[trigger] m.inputs[k].name() == name && m2 == (MixerModel {
                inputs: m.inputs.update(k, input::updated(m.inputs[k], video, audio)),
                ..m
            })
    }
}

/// What `Mixer::input_set_active` does: from `m`, activating `name`, it
/// returns `r` and leaves `m2`.
pub open spec fn set_active_post(m: MixerModel, name: Seq<char>, r: Result<(), Error>, m2: MixerModel) -> bool {
    if !has_input(m.inputs, name) {
        (r matches Err(e) && is_not_found(e, "input"@, name)) && m2 == m
    } else {
        r is Ok && m2 == (MixerModel { inputs: activated(m.inputs, name, m.config.video), ..m })
    }
}

/// The number of inputs of `s` named `name`.
pub open spec fn input_name_count(s: Seq<InputModel>, name: Seq<char>) -> nat {
    s.filter(|m: InputModel| m.name() == name).len()
}

/// Adding an input whose link succeeded keeps the input names unique.
proof fn lemma_add_keeps_wf(m: MixerModel, input: InputModel, r: Result<(), Error>, m1: MixerModel)
    requires
        m.wf(),
        input_add_post(m, input, Ok(()), r, m1),
    ensures
        m1.wf(),
{
    if !has_input(m.inputs, input.name()) {
        assert forall|i: int, j: int|
            0 <= i < m1.inputs.len() && 0 <= j < m1.inputs.len() && i != j
            implies #[trigger] m1.inputs[i].name() != #[trigger] m1.inputs[j].name() by {
            if i < m.inputs.len() && j < m.inputs.len() {
                assert(m1.inputs[i] == m.inputs[i]);
                assert(m1.inputs[j] == m.inputs[j]);
            } else if i < m.inputs.len() {
                assert(m1.inputs[i] == m.inputs[i]);
            } else {
                assert(m1.inputs[j] == m.inputs[j]);
            }
        }
    }
}

/// Adding an input and then removing it by name, both engine steps having
/// succeeded, gives back the mixer as it was; removing a name that is not
/// there is refused with `NotFound` and changes nothing.
pub proof fn lemma_input_add_remove_restores(
    m: MixerModel,
    input: InputModel,
    r1: Result<(), Error>,
    m1: MixerModel,
    r2: Result<(), Error>,
    m2: MixerModel,
)
    requires
        m.wf(),
        !has_input(m.inputs, input.name()),
        input_add_post(m, input, Ok(()), r1, m1),
        input_remove_post(m1, input.name(), Ok(()), r2, m2),
    ensures
        r1 is Ok,
        r2 is Ok,
        m2 == m,
        m2.inputs.len() == m.inputs.len(),
{
    lemma_add_keeps_wf(m, input, r1, m1);
    let n = m.inputs.len() as int;
    assert(m1.inputs[n] == input);
    assert(has_input(m1.inputs, input.name()));
    let k = choose|k: int|
        0 <= k < m1.inputs.len() && #[trigger] m1.inputs[k].name() == input.name() && m2 == (MixerModel {
            inputs: m1.inputs.remove(k),
            ..m1
        });
    assert(k == n);
    assert(m1.inputs.remove(n) =~= m.inputs);
}

/// Removing an input name that the mixer does not have is refused with
/// `NotFound` and leaves the input count as it was.
pub proof fn lemma_input_remove_absent(
    m: MixerModel,
    name: Seq<char>,
    unlinked: Result<(), Error>,
    r: Result<(), Error>,
    m2: MixerModel,
)
    requires
        !has_input(m.inputs, name),
        input_remove_post(m, name, unlinked, r, m2),
    ensures
        r matches Err(e) && is_not_found(e, "input"@, name),
        m2.inputs.len() == m.inputs.len(),
{
}

/// Adding two inputs of the same name: the first (linked) is taken, the
/// second is refused with `Exists` and changes nothing, and the mixer then
/// holds exactly one input of that name.
pub proof fn lemma_input_add_twice(
    m: MixerModel,
    a: InputModel,
    b: InputModel,
    linked: Result<(), Error>,
    r1: Result<(), Error>,
    m1: MixerModel,
    r2: Result<(), Error>,
    m2: MixerModel,
)
    requires
        m.wf(),
        !has_input(m.inputs, a.name()),
        a.name() == b.name(),
        input_add_post(m, a, Ok(()), r1, m1),
        input_add_post(m1, b, linked, r2, m2),
    ensures
        r1 is Ok,
        r2 matches Err(e) && is_exists(e, "input"@, a.name()),
        m2 == m1,
        input_name_count(m2.inputs, a.name()) == 1,
{
    let n = m.inputs.len() as int;
    assert(m1.inputs[n] == a);
    assert(has_input(m1.inputs, b.name()));
    let f = |x: InputModel| x.name() == a.name();
    assert(m.inputs.filter(f) =~= Seq::<InputModel>::empty()) by {
        assert forall|i: int| 0 <= i < m.inputs.len() implies !f(m.inputs[i]) by {
            assert(m.inputs[i].name() != a.name());
        }
        lemma_filter_none(m.inputs, f);
    }
    assert(m1.inputs =~= m.inputs.push(a));
    assert(m1.inputs.drop_last() =~= m.inputs);
    reveal(Seq::filter);
    assert(m1.inputs.filter(f) == m.inputs.filter(f).push(a));
}

proof fn lemma_filter_none(s: Seq<InputModel>, f: spec_fn(InputModel) -> bool)
    requires
        forall|i: int| 0 <= i < s.len() ==> !f(#[trigger] s[i]),
    ensures
        s.filter(f) =~= Seq::<InputModel>::empty(),
    decreases s.len(),
{
    reveal(Seq::filter);
    if s.len() > 0 {
        lemma_filter_none(s.drop_last(), f);
        assert(!f(s.last()));
    }
}

/// After `name` is made active: it is mixed at its configured gain, raised
/// to `ACTIVE_ZORDER` and spread over the canvas; every other input is
/// silent and shares the active input's new z-order; no input is added or
/// lost.
pub proof fn lemma_set_active_effect(m: MixerModel, name: Seq<char>, r: Result<(), Error>, m2: MixerModel)
    requires
        has_input(m.inputs, name),
        set_active_post(m, name, r, m2),
    ensures
        r is Ok,
        m2.inputs.len() == m.inputs.len(),
        forall|i: int|
            0 <= i < m.inputs.len() && #[trigger] m.inputs[i].name() == name ==> {
                &&& m2.inputs[i].volume == m.inputs[i].config.audio.volume
                &&& m2.inputs[i].config.video.zorder == Some(ACTIVE_ZORDER)
                &&& m2.inputs[i].config.video.xpos == 0
                &&& m2.inputs[i].config.video.ypos == 0
                &&& m2.inputs[i].config.video.width == m.config.video.width
                &&& m2.inputs[i].config.video.height == m.config.video.height
            },
        forall|i: int, j: int|
            0 <= i < m.inputs.len() && 0 <= j < m.inputs.len() && #[trigger] m.inputs[i].name() == name
                && #[trigger] m.inputs[j].name() != name ==> m2.inputs[j].volume == 0
                && m2.inputs[j].config.video.zorder == m2.inputs[i].config.video.zorder,
{
}

/// Adding an output whose link succeeded makes it retrievable by name with
/// its kind; removing it then, unlinked successfully, leaves no output of
/// that name.
pub proof fn lemma_output_add_get_remove(
    m: MixerModel,
    output: OutputModel,
    r1: Result<(), Error>,
    m1: MixerModel,
    r2: Result<(), Error>,
    m2: MixerModel,
)
    requires
        m.wf(),
        !has_output(m.outputs, output.name()),
        output_add_post(m, output, Ok(()), r1, m1),
        output_remove_post(m1, output.name(), Ok(()), r2, m2),
    ensures
        r1 is Ok,
        has_output(m1.outputs, output.name()),
        forall|k: int|
            0 <= k < m1.outputs.len() && #[trigger] m1.outputs[k].name() == output.name() ==> m1.outputs[k]
                == output,
        r2 is Ok,
        !has_output(m2.outputs, output.name()),
{
    let n = m.outputs.len() as int;
    assert(m1.outputs[n] == output);
    assert forall|k: int|
        0 <= k < m1.outputs.len() && #[trigger] m1.outputs[k].name() == output.name() implies m1.outputs[k]
        == output by {
        if k < n {
            assert(m1.outputs[k] == m.outputs[k]);
        }
    }
    let k = choose|k: int|
        0 <= k < m1.outputs.len() && #[trigger] m1.outputs[k].name() == output.name() && m2 == (MixerModel {
            outputs: m1.outputs.remove(k),
            ..m1
        });
    assert(k == n);
    assert(m2.outputs =~= m.outputs);
}

/// The name of one element of a node's subgraph: the scope (`mixer`,
/// `input`, `output`), the node's name and the element's role, joined by `_`.
pub fn element_name(scope: &str, name: &str, role: &str) -> (r: String)
    ensures
        r@ == scope@ + "_"@ + name@ + "_"@ + role@,
{
    let mut r = String::from_str(scope);
    r.append("_");
    r.append(name);
    r.append("_");
    r.append(role);
    r
}

/// What a mixer's graph reports on its event bus.
#[derive(PartialEq, Eq, Structural, Clone, Copy, Debug)]
pub enum BusEvent {
    /// An element failed.
    Error,
    /// An element changed state; `of_graph` tells whether it was the graph itself.
    StateChanged { of_graph: bool, current: State },
    /// The stream ended.
    EndOfStream,
    /// Anything else.
    Other,
}

/// Whether the bus watcher goes on after `e`: it stops at the first error,
/// at the end of the stream, and once the graph itself reaches `Null`.
pub open spec fn watch_continues(e: BusEvent) -> bool {
    match e {
        BusEvent::Error => false,
        BusEvent::EndOfStream => false,
        BusEvent::StateChanged { of_graph, current } => !(of_graph && current == State::Null),
        BusEvent::Other => true,
    }
}

/// Decides whether the bus watcher goes on after `e`.
pub fn watch_bus_step(e: BusEvent) -> (r: bool)
    ensures
        r == watch_continues(e),
{
    match e {
        BusEvent::Error => false,
        BusEvent::EndOfStream => false,
        BusEvent::StateChanged { of_graph, current } => !(of_graph && current == State::Null),
        BusEvent::Other => true,
    }
}

/// One live compositing channel: the tables of its nodes and the decisions
/// taken on them. The media graph itself is driven by the caller, who
/// reports each engine step's outcome back to the mixer.
#[derive(Debug)]
pub struct Mixer {
    config: Config,
    background: Input,
    inputs: Vec<Input>,
    outputs: Vec<Output>,
    state: State,
}

impl View for Mixer {
    type V = MixerModel;

    closed spec fn view(&self) -> MixerModel {
        MixerModel {
            config: self.config@,
            background: self.background@,
            inputs: self.inputs@.map_values(|i: Input| i@),
            outputs: self.outputs@.map_values(|o: Output| o@),
            state: self.state,
        }
    }
}

impl Mixer {
    /// A stopped mixer with no inputs or outputs but its background filler.
    pub fn new(config: Config) -> (r: Mixer)
        ensures
            r@.wf(),
            r@.config == config@,
            r@.background == background_of(config@),
            r@.inputs.len() == 0,
            r@.outputs.len() == 0,
            r@.state == State::Null,
    {
        let background_config = input::Config {
            name: String::from_str("background"),
            video: config.video,
            audio: AudioConfig { volume: 0 },
            record: false,
        };
        let background = Input::create_test(background_config);
        let r = Mixer { config, background, inputs: Vec::new(), outputs: Vec::new(), state: State::Null };
        assert(r@.inputs =~= Seq::<InputModel>::empty());
        assert(r@.outputs =~= Seq::<OutputModel>::empty());
        r
    }

    pub fn name(&self) -> (r: String)
        ensures
            r@ == self@.config.name,
    {
        self.config.name.clone()
    }

    pub fn config(&self) -> (r: Config)
        ensures
            r@ == self@.config,
    {
        self.config.copied()
    }

    /// The state the graph was last set to.
    pub fn state(&self) -> (r: State)
        ensures
            r == self@.state,
    {
        self.state
    }

    pub fn background(&self) -> (r: &Input)
        ensures
            r@ == self@.background,
    {
        &self.background
    }

    pub fn input_count(&self) -> (r: usize)
        ensures
            r == self@.inputs.len(),
    {
        self.inputs.len()
    }

    pub fn output_count(&self) -> (r: usize)
        ensures
            r == self@.outputs.len(),
    {
        self.outputs.len()
    }

    /// The inputs, in the order they were added.
    pub fn inputs(&self) -> (r: &Vec<Input>)
        ensures
            r@.map_values(|i: Input| i@) == self@.inputs,
    {
        &self.inputs
    }

    /// The outputs, in the order they were added.
    pub fn outputs(&self) -> (r: &Vec<Output>)
        ensures
            r@.map_values(|o: Output| o@) == self@.outputs,
    {
        &self.outputs
    }

    /// The position of the input named `name`.
    pub fn find_input(&self, name: &str) -> (r: Option<usize>)
        ensures
            r matches Some(k) ==> k < self@.inputs.len() && self@.inputs[k as int].name() == name@,
            r is None <==> !has_input(self@.inputs, name@),
    {
        let mut k: usize = 0;
        while k < self.inputs.len()
            invariant
                k <= self.inputs@.len(),
                forall|j: int| 0 <= j < k ==> #[trigger] self@.inputs[j].name() != name@,
            decreases self.inputs@.len() - k,
        {
            if same_text(self.inputs[k].name_ref(), name) {
                assert(self@.inputs[k as int].name() == name@);
                return Some(k);
            }
            k += 1;
        }
        None
    }

    /// The position of the output named `name`.
    pub fn find_output(&self, name: &str) -> (r: Option<usize>)
        ensures
            r matches Some(k) ==> k < self@.outputs.len() && self@.outputs[k as int].name() == name@,
            r is None <==> !has_output(self@.outputs, name@),
    {
        let mut k: usize = 0;
        while k < self.outputs.len()
            invariant
                k <= self.outputs@.len(),
                forall|j: int| 0 <= j < k ==> #[trigger] self@.outputs[j].name() != name@,
            decreases self.outputs@.len() - k,
        {
            if same_text(self.outputs[k].name_ref(), name) {
                assert(self@.outputs[k as int].name() == name@);
                return Some(k);
            }
            k += 1;
        }
        None
    }

    /// The input named `name`, if any.
    pub fn input_get(&self, name: &str) -> (r: Option<&Input>)
        ensures
            r matches Some(i) ==> has_input(self@.inputs, name@) && i@.name() == name@ && exists|k: int|
                0 <= k < self@.inputs.len() && #[trigger] self@.inputs[k] == i@,
            r is None <==> !has_input(self@.inputs, name@),
    {
        match self.find_input(name) {
            Some(k) => {
                assert(self@.inputs[k as int] == self.inputs@[k as int]@);
                Some(&self.inputs[k])
            },
            None => None,
        }
    }

    /// The output named `name`, if any.
    pub fn output_get(&self, name: &str) -> (r: Option<&Output>)
        ensures
            r matches Some(o) ==> has_output(self@.outputs, name@) && o@.name() == name@ && exists|k: int|
                0 <= k < self@.outputs.len() && #[trigger] self@.outputs[k] == o@,
            r is None <==> !has_output(self@.outputs, name@),
    {
        match self.find_output(name) {
            Some(k) => {
                assert(self@.outputs[k as int] == self.outputs@[k as int]@);
                Some(&self.outputs[k])
            },
            None => None,
        }
    }

    /// Whether an input named `name` may be added, and if so the graph state
    /// that its elements are to be brought to before they are linked.
    pub fn input_add_state(&self, name: &str) -> (r: Result<State, Error>)
        ensures
            has_input(self@.inputs, name@) ==> (r matches Err(e) && is_exists(e, "input"@, name@)),
            !has_input(self@.inputs, name@) ==> r == Ok::<State, Error>(self@.state),
    {
        if self.find_input(name).is_some() {
            proof {
                reveal_strlit("input");
            }
            Err(exists_error("input", name))
        } else {
            Ok(self.state)
        }
    }

    /// Registers `input`, whose elements the caller has primed and linked
    /// into the trunk with the outcome `linked`. A name already taken gives
    /// `Exists`, a failed link gives its error; either way nothing changes.
    pub fn input_add(&mut self, input: Input, linked: Result<(), Error>) -> (r: Result<(), Error>)
        requires
            old(self)@.wf(),
        ensures
            final(self)@.wf(),
            input_add_post(old(self)@, input@, linked, r, final(self)@),
    {
        if self.find_input(input.name_ref()).is_some() {
            proof {
                reveal_strlit("input");
            }
            return Err(exists_error("input", input.name_ref()));
        }
        match linked {
            Err(e) => Err(e),
            Ok(()) => {
                let ghost before = self@;
                self.inputs.push(input);
                proof {
                    assert(self@.inputs =~= before.inputs.push(input@));
                    assert forall|i: int, j: int|
                        0 <= i < self@.inputs.len() && 0 <= j < self@.inputs.len() && i != j
                        implies #[trigger] self@.inputs[i].name() != #[trigger] self@.inputs[j].name() by {
                        if i < before.inputs.len() && j < before.inputs.len() {
                        } else if i < before.inputs.len() {
                            assert(before.inputs[i] == self@.inputs[i]);
                        } else {
                            assert(before.inputs[j] == self@.inputs[j]);
                        }
                    }
                }
                Ok(())
            },
        }
    }

    /// Unregisters the input named `name`, whose elements the caller has
    /// brought to `Null` and unlinked with the outcome `unlinked`. An absent
    /// name gives `NotFound`, a failed unlink gives its error; either way
    /// nothing changes.
    pub fn input_remove(&mut self, name: &str, unlinked: Result<(), Error>) -> (r: Result<(), Error>)
        requires
            old(self)@.wf(),
        ensures
            final(self)@.wf(),
            input_remove_post(old(self)@, name@, unlinked, r, final(self)@),
    {
        match self.find_input(name) {
            None => {
                proof {
                    reveal_strlit("input");
                }
                Err(not_found_error("input", name))
            },
            Some(k) => {
                match unlinked {
                    Err(e) => Err(e),
                    Ok(()) => {
                        let ghost before = self@;
                        let _ = self.inputs.remove(k);
                        proof {
                            assert(self@.inputs =~= before.inputs.remove(k as int));
                            assert forall|i: int, j: int|
                                0 <= i < self@.inputs.len() && 0 <= j < self@.inputs.len() && i != j
                                implies #[trigger] self@.inputs[i].name()
                                != #[trigger] self@.inputs[j].name() by {
                                let i2 = if i < k { i } else { i + 1 };
                                let j2 = if j < k { j } else { j + 1 };
                                assert(self@.inputs[i] == before.inputs[i2]);
                                assert(self@.inputs[j] == before.inputs[j2]);
                            }
                        }
                        Ok(())
                    },
                }
            },
        }
    }

    /// Whether an output named `name` may be added, and if so the graph
    /// state that its elements are to be brought to before they are linked.
    pub fn output_add_state(&self, name: &str) -> (r: Result<State, Error>)
        ensures
            has_output(self@.outputs, name@) ==> (r matches Err(e) && is_exists(e, "output"@, name@)),
            !has_output(self@.outputs, name@) ==> r == Ok::<State, Error>(self@.state),
    {
        if self.find_output(name).is_some() {
            proof {
                reveal_strlit("output");
            }
            Err(exists_error("output", name))
        } else {
            Ok(self.state)
        }
    }

    /// Registers `output`, whose elements the caller has primed and linked
    /// to the trunk's fan-out with the outcome `linked`. A name already
    /// taken gives `Exists`, a failed link gives its error; either way
    /// nothing changes.
    pub fn output_add(&mut self, output: Output, linked: Result<(), Error>) -> (r: Result<(), Error>)
        requires
            old(self)@.wf(),
        ensures
            final(self)@.wf(),
            output_add_post(old(self)@, output@, linked, r, final(self)@),
    {
        if self.find_output(output.name_ref()).is_some() {
            proof {
                reveal_strlit("output");
            }
            return Err(exists_error("output", output.name_ref()));
        }
        match linked {
            Err(e) => Err(e),
            Ok(()) => {
                let ghost before = self@;
                self.outputs.push(output);
                proof {
                    assert(self@.outputs =~= before.outputs.push(output@));
                    assert forall|i: int, j: int|
                        0 <= i < self@.outputs.len() && 0 <= j < self@.outputs.len() && i != j
                        implies #[trigger] self@.outputs[i].name() != #[trigger] self@.outputs[j].name() by {
                        if i < before.outputs.len() && j < before.outputs.len() {
                        } else if i < before.outputs.len() {
                            assert(before.outputs[i] == self@.outputs[i]);
                        } else {
                            assert(before.outputs[j] == self@.outputs[j]);
                        }
                    }
                }
                Ok(())
            },
        }
    }

    /// Unregisters the output named `name`, whose elements the caller has
    /// brought to `Null` and unlinked with the outcome `unlinked`. An absent
    /// name gives `NotFound`, a failed unlink gives its error; either way
    /// nothing changes.
    pub fn output_remove(&mut self, name: &str, unlinked: Result<(), Error>) -> (r: Result<(), Error>)
        requires
            old(self)@.wf(),
        ensures
            final(self)@.wf(),
            output_remove_post(old(self)@, name@, unlinked, r, final(self)@),
    {
        match self.find_output(name) {
            None => {
                proof {
                    reveal_strlit("output");
                }
                Err(not_found_error("output", name))
            },
            Some(k) => {
                match unlinked {
                    Err(e) => Err(e),
                    Ok(()) => {
                        let ghost before = self@;
                        let _ = self.outputs.remove(k);
                        proof {
                            assert(self@.outputs =~= before.outputs.remove(k as int));
                            assert forall|i: int, j: int|
                                0 <= i < self@.outputs.len() && 0 <= j < self@.outputs.len() && i != j
                                implies #[trigger] self@.outputs[i].name()
                                != #[trigger] self@.outputs[j].name() by {
                                let i2 = if i < k { i } else { i + 1 };
                                let j2 = if j < k { j } else { j + 1 };
                                assert(self@.outputs[i] == before.outputs[i2]);
                                assert(self@.outputs[j] == before.outputs[j2]);
                            }
                        }
                        Ok(())
                    },
                }
            },
        }
    }

    /// Records that the graph was set playing.
    pub fn play(&mut self)
        ensures
            final(self)@ == (MixerModel { state: State::Playing, ..old(self)@ }),
    {
        self.state = State::Playing;
    }

    /// Records that the graph was stopped.
    pub fn stop(&mut self)
        ensures
            final(self)@ == (MixerModel { state: State::Null, ..old(self)@ }),
    {
        self.state = State::Null;
    }

    /// Makes the input named `name` the active one: it is raised to
    /// `ACTIVE_ZORDER`, placed full-screen on the canvas and mixed at its
    /// configured gain; every other input is silenced and given the same
    /// z-order. An absent name gives `NotFound` and changes nothing.
    pub fn input_set_active(&mut self, name: &str) -> (r: Result<(), Error>)
        requires
            old(self)@.wf(),
        ensures
            final(self)@.wf(),
            set_active_post(old(self)@, name@, r, final(self)@),
    {
        if self.find_input(name).is_none() {
            proof {
                reveal_strlit("input");
            }
            return Err(not_found_error("input", name));
        }
        let ghost before = self@;
        let canvas = self.config.video;
        let n = self.inputs.len();
        let mut k: usize = 0;
        while k < n
            invariant
                n == before.inputs.len(),
                self.inputs@.len() == n,
                k <= n,
                canvas == before.config.video,
                self.config@ == before.config,
                self.background@ == before.background,
                self.outputs@.map_values(|o: Output| o@) == before.outputs,
                self.state == before.state,
                forall|j: int| 0 <= j < k ==> #[trigger] self.inputs@[j]@ == (if before.inputs[j].name()
                    == name@ {
                    promoted(before.inputs[j], canvas)
                } else {
                    demoted(before.inputs[j], ACTIVE_ZORDER)
                }),
                forall|j: int| k <= j < n ==> #[trigger] self.inputs@[j]@ == before.inputs[j],
            decreases n - k,
        {
            if same_text(self.inputs[k].name_ref(), name) {
                let volume = self.inputs[k].configured_volume();
                self.inputs[k].set_zorder(ACTIVE_ZORDER);
                self.inputs[k].set_xpos(0);
                self.inputs[k].set_ypos(0);
                self.inputs[k].set_width(canvas.width);
                self.inputs[k].set_height(canvas.height);
                self.inputs[k].mix_at(volume);
            } else {
                self.inputs[k].mix_at(0);
                self.inputs[k].set_zorder(ACTIVE_ZORDER);
            }
            k += 1;
        }
        proof {
            assert(self@.inputs =~= activated(before.inputs, name@, canvas));
        }
        Ok(())
    }

    /// Reconfigures the input named `name` from `video` and `audio`. An
    /// absent name gives `NotFound` and changes nothing.
    pub fn input_update(&mut self, name: &str, video: VideoConfig, audio: AudioConfig) -> (r: Result<(), Error>)
        requires
            old(self)@.wf(),
        ensures
            final(self)@.wf(),
            input_update_post(old(self)@, name@, video, audio, r, final(self)@),
    {
        match self.find_input(name) {
            None => {
                proof {
                    reveal_strlit("input");
                }
                Err(not_found_error("input", name))
            },
            Some(k) => {
                let ghost before = self@;
                self.inputs[k].update(video, audio);
                proof {
                    assert(self@.inputs =~= before.inputs.update(
                        k as int,
                        input::updated(before.inputs[k as int], video, audio),
                    ));
                    assert forall|i: int, j: int|
                        0 <= i < self@.inputs.len() && 0 <= j < self@.inputs.len() && i != j
                        implies #[trigger] self@.inputs[i].name() != #[trigger] self@.inputs[j].name() by {
                        assert(self@.inputs[i].name() == before.inputs[i].name());
                        assert(self@.inputs[j].name() == before.inputs[j].name());
                    }
                }
                Ok(())
            },
        }
    }
}

} // verus!
