use vstd::prelude::*;

use crate::text::starts_with;

verus! {

/// The two kinds of elementary stream a source can expose.
#[derive(PartialEq, Eq, Structural, Clone, Copy, Debug)]
pub enum MediaKind {
    Audio,
    Video,
}

/// The kind of raw stream whose caps are named `caps`, if it is one.
pub open spec fn media_kind_of(caps: Seq<char>) -> Option<MediaKind> {
    if "audio/x-raw"@.len() <= caps.len() && caps.subrange(0, "audio/x-raw"@.len() as int)
        == "audio/x-raw"@ {
        Some(MediaKind::Audio)
    } else if "video/x-raw"@.len() <= caps.len() && caps.subrange(0, "video/x-raw"@.len() as int)
        == "video/x-raw"@ {
        Some(MediaKind::Video)
    } else {
        None
    }
}

/// Classifies a newly found pad by the name of its caps.
pub fn media_kind(caps: &str) -> (r: Option<MediaKind>)
    ensures
        r == media_kind_of(caps@),
{
    if starts_with(caps, "audio/x-raw") {
        Some(MediaKind::Audio)
    } else if starts_with(caps, "video/x-raw") {
        Some(MediaKind::Video)
    } else {
        None
    }
}

/// What to do with a newly found pad.
#[derive(PartialEq, Eq, Structural, Clone, Copy, Debug)]
pub enum PadAction {
    /// Leave it unlinked.
    Ignore,
    /// Link it into the node's audio chain.
    LinkAudio,
    /// Link it into the node's video chain, then apply the node's placement.
    LinkVideo,
}

/// The guard between a source's pad-discovery callbacks and its node: the
/// callbacks act only while the node is registered, and link at most one
/// pad of each kind.
#[derive(Clone, Copy, Debug)]
pub struct PadGuard {
    live: bool,
    audio_linked: bool,
    video_linked: bool,
}

/// The value of a pad guard.
pub struct PadGuardModel {
    pub live: bool,
    pub audio_linked: bool,
    pub video_linked: bool,
}

impl View for PadGuard {
    type V = PadGuardModel;

    closed spec fn view(&self) -> PadGuardModel {
        PadGuardModel { live: self.live, audio_linked: self.audio_linked, video_linked: self.video_linked }
    }
}

/// One pad found with caps named `caps`: the guard that follows and the action.
pub open spec fn pad_step(g: PadGuardModel, caps: Seq<char>) -> (PadGuardModel, PadAction) {
    if !g.live {
        (g, PadAction::Ignore)
    } else {
        match media_kind_of(caps) {
            Some(MediaKind::Audio) => if g.audio_linked {
                (g, PadAction::Ignore)
            } else {
                (PadGuardModel { audio_linked: true, ..g }, PadAction::LinkAudio)
            },
            Some(MediaKind::Video) => if g.video_linked {
                (g, PadAction::Ignore)
            } else {
                (PadGuardModel { video_linked: true, ..g }, PadAction::LinkVideo)
            },
            None => (g, PadAction::Ignore),
        }
    }
}

/// Pads found one after another: the guard that follows and the actions, in order.
pub open spec fn pad_run(g: PadGuardModel, pads: Seq<Seq<char>>) -> (PadGuardModel, Seq<PadAction>)
    decreases pads.len(),
{
    if pads.len() == 0 {
        (g, Seq::empty())
    } else {
        let (g1, a) = pad_step(g, pads[0]);
        let (g2, rest) = pad_run(g1, pads.drop_first());
        (g2, seq![a].add(rest))
    }
}

impl PadGuard {
    /// A guard of a node not yet registered, with nothing linked.
    pub fn new() -> (r: PadGuard)
        ensures
            r@ == (PadGuardModel { live: false, audio_linked: false, video_linked: false }),
    {
        PadGuard { live: false, audio_linked: false, video_linked: false }
    }

    /// Whether the node is registered.
    pub fn is_live(&self) -> (r: bool)
        ensures
            r == self@.live,
    {
        self.live
    }

    /// The node has been linked into its mixer.
    pub fn attach(&mut self)
        ensures
            final(self)@ == (PadGuardModel { live: true, ..old(self)@ }),
    {
        self.live = true;
    }

    /// The node has been unlinked from its mixer.
    pub fn detach(&mut self)
        ensures
            final(self)@ == (PadGuardModel { live: false, ..old(self)@ }),
    {
        self.live = false;
    }

    /// A link chosen by `on_pad_added` failed: a later pad of that kind may
    /// be linked instead.
    pub fn link_failed(&mut self, kind: MediaKind)
        ensures
            kind == MediaKind::Audio ==> final(self)@ == (PadGuardModel {
                audio_linked: false,
                ..old(self)@
            }),
            kind == MediaKind::Video ==> final(self)@ == (PadGuardModel {
                video_linked: false,
                ..old(self)@
            }),
    {
        match kind {
            MediaKind::Audio => self.audio_linked = false,
            MediaKind::Video => self.video_linked = false,
        }
    }

    /// Decides what to do with a pad found with caps named `caps`.
    pub fn on_pad_added(&mut self, caps: &str) -> (r: PadAction)
        ensures
            (final(self)@, r) == pad_step(old(self)@, caps@),
    {
        if !self.live {
            return PadAction::Ignore;
        }
        match media_kind(caps) {
            Some(MediaKind::Audio) => {
                if self.audio_linked {
                    PadAction::Ignore
                } else {
                    self.audio_linked = true;
                    PadAction::LinkAudio
                }
            },
            Some(MediaKind::Video) => {
                if self.video_linked {
                    PadAction::Ignore
                } else {
                    self.video_linked = true;
                    PadAction::LinkVideo
                }
            },
            None => PadAction::Ignore,
        }
    }
}

/// Once a node is detached, whatever pads its source still finds, the guard
/// takes no action and stays as it is.
pub proof fn lemma_detached_guard_is_inert(g: PadGuardModel, pads: Seq<Seq<char>>)
    requires
        !g.live,
    ensures
        pad_run(g, pads).0 == g,
        forall|i: int| 0 <= i < pads.len() ==> #[trigger] pad_run(g, pads).1[i] == PadAction::Ignore,
        pad_run(g, pads).1.len() == pads.len(),
    decreases pads.len(),
{
    if pads.len() > 0 {
        lemma_detached_guard_is_inert(g, pads.drop_first());
        let rest = pad_run(g, pads.drop_first()).1;
        assert forall|i: int| 0 <= i < pads.len() implies #[trigger] pad_run(g, pads).1[i]
            == PadAction::Ignore by {
            if i > 0 {
                assert(pad_run(g, pads).1[i] == rest[i - 1]);
            }
        }
    }
}

/// The number of times `a` occurs in `s`.
pub open spec fn count_action(s: Seq<PadAction>, a: PadAction) -> nat
    decreases s.len(),
{
    if s.len() == 0 {
        0
    } else {
        (if s[0] == a { 1nat } else { 0nat }) + count_action(s.drop_first(), a)
    }
}

/// However many pads a source finds, a guard links at most one of each kind,
/// and none of a kind it has already linked.
pub proof fn lemma_one_pad_per_kind(g: PadGuardModel, pads: Seq<Seq<char>>)
    ensures
        count_action(pad_run(g, pads).1, PadAction::LinkAudio) <= (if g.audio_linked { 0nat } else { 1nat }),
        count_action(pad_run(g, pads).1, PadAction::LinkVideo) <= (if g.video_linked { 0nat } else { 1nat }),
        g.audio_linked ==> pad_run(g, pads).0.audio_linked,
        g.video_linked ==> pad_run(g, pads).0.video_linked,
    decreases pads.len(),
{
    if pads.len() > 0 {
        let (g1, a) = pad_step(g, pads[0]);
        lemma_one_pad_per_kind(g1, pads.drop_first());
        let run = pad_run(g, pads).1;
        assert(run.drop_first() =~= pad_run(g1, pads.drop_first()).1);
    }
}

} // verus!
