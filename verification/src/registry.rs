//! The strip registry and the control loop's command handling.
//!
//! The control loop applies each command in two phases. `plan` decides,
//! without touching the registry, whether the command succeeds, which engine
//! calls it takes and what the reply is; the caller then performs those calls
//! against the audio engine and, only once they all succeeded, makes the
//! mutation permanent with `commit`. A rejected engine call therefore leaves
//! the registry in its last valid state.

use crate::errors::MixerCommandError;
use crate::strip::{
    channel_plan, spec_channel_plan, spec_state_line, PortAction, Strip, StripModel,
    DEFAULT_CHANNELS, MAX_CHANNELS,
};
use vstd::prelude::*;

verus! {

/// A command for the control loop, produced once per remote call and consumed
/// exactly once. The gain travels as an integer percentage.
pub enum MixerCommand {
    SetGainFactor(String, u32),
    AddStrip(String),
    RemoveStrip(String),
    SetChannels(String, i32),
    GetState,
}

/// The reply the control loop sends back for one command.
pub enum MixerResponse {
    EMPTY,
    STATE(Vec<String>),
}

/// The models of a sequence of strips.
pub open spec fn models_of(strips: Seq<Strip>) -> Seq<StripModel> {
    strips.map_values(|s: Strip| s@)
}

/// Pointwise reading of `models_of`.
pub broadcast proof fn lemma_models_of_index(strips: Seq<Strip>, i: int)
    requires
        0 <= i < strips.len(),
    ensures
        #[trigger] models_of(strips)[i] == strips[i]@,
        models_of(strips).len() == strips.len(),
{
}

/// Whether some strip of the model carries this name.
pub open spec fn has_strip(m: Seq<StripModel>, name: Seq<char>) -> bool {
    exists|i: int| 0 <= i < m.len() && m[i].name == name
}

/// The index of the strip with this name; with unique names there is at most
/// one.
pub open spec fn strip_index(m: Seq<StripModel>, name: Seq<char>) -> int {
    choose|i: int| 0 <= i < m.len() && m[i].name == name
}

/// The strip of the model that carries this name.
pub open spec fn strip_of(m: Seq<StripModel>, name: Seq<char>) -> StripModel {
    m[strip_index(m, name)]
}

/// A well-formed registry model: every gain and channel count within bounds,
/// and no two strips with the same name.
pub open spec fn wf_model(m: Seq<StripModel>) -> bool {
    &&& forall|i: int|
        0 <= i < m.len() ==> {
            &&& 0 <= (#[trigger] m[i]).gain_percent <= 200
            &&& 0 <= m[i].channels <= MAX_CHANNELS as int
        }
    &&& forall|i: int, j: int| 0 <= i < j < m.len() ==> m[i].name != m[j].name
}

/// The full state report: one line per strip, in registry order.
pub open spec fn spec_state_lines(m: Seq<StripModel>) -> Seq<Seq<char>> {
    m.map_values(|s: StripModel| spec_state_line(s))
}

/// Whether the command succeeds against this registry model.
pub open spec fn spec_plan_ok(m: Seq<StripModel>, cmd: MixerCommand) -> bool {
    match cmd {
        MixerCommand::SetGainFactor(name, g) => g <= 200 && has_strip(m, name@),
        MixerCommand::AddStrip(name) => !has_strip(m, name@),
        MixerCommand::RemoveStrip(name) => has_strip(m, name@),
        MixerCommand::SetChannels(name, c) => 0 <= c <= MAX_CHANNELS as int && has_strip(
            m,
            name@,
        ),
        MixerCommand::GetState => true,
    }
}

/// The registry model after a successful command.
pub open spec fn spec_step(m: Seq<StripModel>, cmd: MixerCommand) -> Seq<StripModel>
    recommends
        spec_plan_ok(m, cmd),
{
    match cmd {
        MixerCommand::SetGainFactor(name, g) => {
            let i = strip_index(m, name@);
            m.update(i, StripModel { gain_percent: g as int, ..m[i] })
        },
        MixerCommand::AddStrip(name) => m.push(
            StripModel { name: name@, gain_percent: 100int, channels: DEFAULT_CHANNELS as int },
        ),
        MixerCommand::RemoveStrip(name) => m.remove(strip_index(m, name@)),
        MixerCommand::SetChannels(name, c) => {
            let i = strip_index(m, name@);
            m.update(i, StripModel { channels: c as int, ..m[i] })
        },
        MixerCommand::GetState => m,
    }
}

/// The engine calls a successful command performs, in order.
pub open spec fn spec_actions(m: Seq<StripModel>, cmd: MixerCommand) -> Seq<PortAction>
    recommends
        spec_plan_ok(m, cmd),
{
    match cmd {
        MixerCommand::SetGainFactor(..) => Seq::<PortAction>::empty(),
        MixerCommand::AddStrip(..) => spec_channel_plan(0, DEFAULT_CHANNELS as int),
        MixerCommand::RemoveStrip(name) => spec_channel_plan(strip_of(m, name@).channels, 0),
        MixerCommand::SetChannels(name, c) => spec_channel_plan(
            strip_of(m, name@).channels,
            c as int,
        ),
        MixerCommand::GetState => Seq::<PortAction>::empty(),
    }
}

/// With unique names, the strip found at `i` is the strip the name selects.
pub proof fn lemma_strip_index(m: Seq<StripModel>, name: Seq<char>, i: int)
    requires
        forall|p: int, q: int| 0 <= p < q < m.len() ==> m[p].name != m[q].name,
        0 <= i < m.len(),
        m[i].name == name,
    ensures
        has_strip(m, name),
        strip_index(m, name) == i,
{
    assert(has_strip(m, name));
    let j = strip_index(m, name);
    if j != i {
        if j < i {
            assert(m[j].name != m[i].name);
        } else {
            assert(m[i].name != m[j].name);
        }
    }
}

/// The registry: every known strip, keyed by its unique name. Only the
/// control loop mutates it.
pub struct Registry {
    strips: Vec<Strip>,
}

impl View for Registry {
    type V = Seq<StripModel>;

    closed spec fn view(&self) -> Seq<StripModel> {
        models_of(self.strips@)
    }
}

/// Finds the index of the strip with this name.
fn find_strip(strips: &Vec<Strip>, name: &String) -> (r: Option<usize>)
    ensures
        r matches Some(i) ==> i < strips@.len() && strips@[i as int]@.name == name@,
        r is None ==> !has_strip(models_of(strips@), name@),
{
    broadcast use lemma_models_of_index;

    let mut i: usize = 0;
    while i < strips.len()
        invariant
            i <= strips@.len(),
            forall|j: int| 0 <= j < i ==> models_of(strips@)[j].name != name@,
        decreases strips@.len() - i,
    {
        if *strips[i].name() == *name {
            return Some(i);
        }
        i = i + 1;
    }
    None
}

impl Registry {
    /// A well-formed registry: bounds respected and names unique.
    pub open spec fn wf(&self) -> bool {
        wf_model(self@)
    }

    /// An empty registry.
    pub fn new() -> (r: Registry)
        ensures
            r@ == Seq::<StripModel>::empty(),
            r.wf(),
    {
        let r = Registry { strips: Vec::new() };
        proof {
            assert(r@ =~= Seq::<StripModel>::empty());
        }
        r
    }

    /// The names of all strips, in registry order.
    pub fn names(&self) -> (r: Vec<String>)
        ensures
            r@.len() == self@.len(),
            forall|j: int| 0 <= j < r@.len() ==> r@[j]@ == self@[j].name,
    {
        broadcast use lemma_models_of_index;

        let mut r: Vec<String> = Vec::new();
        let mut i: usize = 0;
        while i < self.strips.len()
            invariant
                i <= self.strips@.len(),
                r@.len() == i,
                forall|j: int| 0 <= j < i ==> r@[j]@ == self@[j].name,
        decreases self.strips@.len() - i,
        {
            r.push(self.strips[i].name().clone());
            i = i + 1;
        }
        r
    }

    /// Decides one command: whether it succeeds, the engine calls it takes and
    /// the reply it earns. Leaves the registry untouched; the caller performs
    /// the calls and then makes the mutation permanent with `commit`.
    ///
    /// A gain or channel count outside its range is rejected as
    /// `InvalidArgument`; a command that names an absent strip fails with
    /// `UnknownStrip`, and adding a present name fails with `AlreadyExists`.
    pub fn plan(&self, cmd: &MixerCommand) -> (r: Result<
        (MixerResponse, Vec<PortAction>),
        MixerCommandError,
    >)
        requires
            self.wf(),
        ensures
            r is Ok <==> spec_plan_ok(self@, *cmd),
            r matches Ok(p) ==> p.1@ == spec_actions(self@, *cmd),
            r matches Ok(p) ==> match *cmd {
                MixerCommand::GetState => p.0 matches MixerResponse::STATE(lines)
                    && lines@.map_values(|l: String| l@) == spec_state_lines(self@),
                _ => p.0 is EMPTY,
            },
            r matches Err(e) ==> match *cmd {
                MixerCommand::SetGainFactor(name, g) => {
                    if g > 200 {
                        e is InvalidArgument
                    } else {
                        e matches MixerCommandError::UnknownStrip { name: n } && n@ == name@
                    }
                },
                MixerCommand::AddStrip(name) => e matches MixerCommandError::AlreadyExists {
                    name: n,
                } && n@ == name@,
                MixerCommand::RemoveStrip(name) => e matches MixerCommandError::UnknownStrip {
                    name: n,
                } && n@ == name@,
                MixerCommand::SetChannels(name, c) => {
                    if c < 0 || c > MAX_CHANNELS as int {
                        e is InvalidArgument
                    } else {
                        e matches MixerCommandError::UnknownStrip { name: n } && n@ == name@
                    }
                },
                MixerCommand::GetState => false,
            },
    {
        broadcast use lemma_models_of_index;

        match cmd {
            MixerCommand::SetGainFactor(name, g) => {
                if *g > 200 {
                    return Err(MixerCommandError::InvalidArgument);
                }
                match find_strip(&self.strips, name) {
                    Some(i) => {
                        proof {
                            lemma_strip_index(self@, name@, i as int);
                        }
                        Ok((MixerResponse::EMPTY, Vec::new()))
                    },
                    None => Err(MixerCommandError::UnknownStrip { name: name.clone() }),
                }
            },
            MixerCommand::AddStrip(name) => {
                match find_strip(&self.strips, name) {
                    Some(i) => {
                        proof {
                            lemma_strip_index(self@, name@, i as int);
                        }
                        Err(MixerCommandError::AlreadyExists { name: name.clone() })
                    },
                    None => Ok((MixerResponse::EMPTY, channel_plan(0, DEFAULT_CHANNELS))),
                }
            },
            MixerCommand::RemoveStrip(name) => {
                match find_strip(&self.strips, name) {
                    Some(i) => {
                        proof {
                            lemma_strip_index(self@, name@, i as int);
                        }
                        let from = self.strips[i].get_channels();
                        Ok((MixerResponse::EMPTY, channel_plan(from, 0)))
                    },
                    None => Err(MixerCommandError::UnknownStrip { name: name.clone() }),
                }
            },
            MixerCommand::SetChannels(name, c) => {
                if *c < 0 || *c > MAX_CHANNELS as i32 {
                    return Err(MixerCommandError::InvalidArgument);
                }
                match find_strip(&self.strips, name) {
                    Some(i) => {
                        proof {
                            lemma_strip_index(self@, name@, i as int);
                        }
                        let from = self.strips[i].get_channels();
                        Ok((MixerResponse::EMPTY, channel_plan(from, *c as usize)))
                    },
                    None => Err(MixerCommandError::UnknownStrip { name: name.clone() }),
                }
            },
            MixerCommand::GetState => {
                let mut lines: Vec<String> = Vec::new();
                let mut i: usize = 0;
                while i < self.strips.len()
                    invariant
                        self.wf(),
                        i <= self.strips@.len(),
                        lines@.len() == i,
                        forall|j: int|
                            0 <= j < i ==> (#[trigger] lines@[j])@ == spec_state_line(self@[j]),
                    decreases self.strips@.len() - i,
                {
                    proof {
                        lemma_models_of_index(self.strips@, i as int);
                        assert(self.strips@[i as int].wf());
                    }
                    lines.push(self.strips[i].state_line());
                    i = i + 1;
                }
                proof {
                    assert(lines@.map_values(|l: String| l@) =~= spec_state_lines(self@));
                }
                Ok((MixerResponse::STATE(lines), Vec::new()))
            },
        }
    }

    /// Makes a planned command permanent. To be called only after `plan`
    /// succeeded for the same command on this registry state and every planned
    /// engine call went through.
    pub fn commit(&mut self, cmd: &MixerCommand)
        requires
            old(self).wf(),
            spec_plan_ok(old(self)@, *cmd),
        ensures
            final(self).wf(),
            final(self)@ == spec_step(old(self)@, *cmd),
    {
        broadcast use lemma_models_of_index;

        match cmd {
            MixerCommand::SetGainFactor(name, g) => {
                match find_strip(&self.strips, name) {
                    Some(i) => {
                        proof {
                            lemma_strip_index(self@, name@, i as int);
                        }
                        let mut s = self.strips.remove(i);
                        s.set_gain_factor(*g);
                        self.strips.insert(i, s);
                        proof {
                            assert(self@ =~= spec_step(old(self)@, *cmd));
                        }
                    },
                    None => {
                        proof {
                            assert(false);
                        }
                    },
                }
            },
            MixerCommand::AddStrip(name) => {
                let mut s = Strip::new(name.clone());
                let r = s.set_channels(DEFAULT_CHANNELS as i32);
                proof {
                    assert(r is Ok);
                }
                self.strips.push(s);
                proof {
                    assert(self@ =~= spec_step(old(self)@, *cmd));
                }
            },
            MixerCommand::RemoveStrip(name) => {
                match find_strip(&self.strips, name) {
                    Some(i) => {
                        proof {
                            lemma_strip_index(self@, name@, i as int);
                        }
                        let s = self.strips.remove(i);
                        let _acts = s.destroy();
                        proof {
                            assert(self@ =~= spec_step(old(self)@, *cmd));
                        }
                    },
                    None => {
                        proof {
                            assert(false);
                        }
                    },
                }
            },
            MixerCommand::SetChannels(name, c) => {
                match find_strip(&self.strips, name) {
                    Some(i) => {
                        proof {
                            lemma_strip_index(self@, name@, i as int);
                        }
                        let mut s = self.strips.remove(i);
                        let r = s.set_channels(*c);
                        proof {
                            assert(r is Ok);
                        }
                        self.strips.insert(i, s);
                        proof {
                            assert(self@ =~= spec_step(old(self)@, *cmd));
                        }
                    },
                    None => {
                        proof {
                            assert(false);
                        }
                    },
                }
            },
            MixerCommand::GetState => {
            },
        }
    }
}

} // verus!
