//! One mixing strip: a named group with a gain percentage and an ordered list
//! of input/output port pairs. The strip owns the deterministic naming of its
//! ports and plans every register/unregister call against the audio engine as
//! an explicit [`PortAction`]; the surrounding binary performs those calls.

use crate::errors::MixerCommandError;
use crate::text::{decimal_string, gain_string, spec_decimal, spec_gain_string};
use vstd::prelude::*;

verus! {

/// The channel count a freshly added strip grows to.
pub const DEFAULT_CHANNELS: usize = 2;

/// The largest channel count a strip may hold.
pub const MAX_CHANNELS: usize = 100;

/// Whether a port carries audio into or out of the mixer.
#[derive(Clone, Copy, PartialEq, Eq, Structural, Debug)]
pub enum PortDirection {
    Input,
    Output,
}

/// One register or unregister call against the audio engine. The port is
/// identified by its direction and the one-based index of its pair within the
/// strip; the engine-facing port name follows deterministically.
#[derive(Clone, Copy, PartialEq, Eq, Structural, Debug)]
pub enum PortAction {
    Register { direction: PortDirection, index: usize },
    Unregister { direction: PortDirection, index: usize },
}

/// A register action for the input port of pair `k`.
pub open spec fn reg_in(k: int) -> PortAction {
    PortAction::Register { direction: PortDirection::Input, index: k as usize }
}

/// A register action for the output port of pair `k`.
pub open spec fn reg_out(k: int) -> PortAction {
    PortAction::Register { direction: PortDirection::Output, index: k as usize }
}

/// An unregister action for the input port of pair `k`.
pub open spec fn unreg_in(k: int) -> PortAction {
    PortAction::Unregister { direction: PortDirection::Input, index: k as usize }
}

/// An unregister action for the output port of pair `k`.
pub open spec fn unreg_out(k: int) -> PortAction {
    PortAction::Unregister { direction: PortDirection::Output, index: k as usize }
}

/// The engine-facing name of a port: `in-<k>` or `out-<k>` for pair `k`.
pub open spec fn spec_port_name(direction: PortDirection, k: int) -> Seq<char> {
    match direction {
        PortDirection::Input => "in-"@ + spec_decimal(k),
        PortDirection::Output => "out-"@ + spec_decimal(k),
    }
}

/// The actions that grow a strip from `from` pairs to `to` pairs: for each new
/// pair, in ascending order, register its input port and then its output port.
pub open spec fn spec_grow_plan(from: int, to: int) -> Seq<PortAction>
    recommends
        0 <= from <= to,
    decreases to - from,
{
    if from >= to {
        Seq::<PortAction>::empty()
    } else {
        spec_grow_plan(from, to - 1) + seq![reg_in(to), reg_out(to)]
    }
}

/// The actions that shrink a strip from `from` pairs to `to` pairs: for each
/// dropped pair, last pair first, unregister its input port and then its
/// output port.
pub open spec fn spec_shrink_plan(from: int, to: int) -> Seq<PortAction>
    recommends
        0 <= to <= from,
    decreases from - to,
{
    if from <= to {
        Seq::<PortAction>::empty()
    } else {
        spec_shrink_plan(from, to + 1) + seq![unreg_in(to + 1), unreg_out(to + 1)]
    }
}

/// The engine calls that take a strip from `from` pairs to `to` pairs.
/// Equal counts yield the empty plan, which makes the operation idempotent.
pub open spec fn spec_channel_plan(from: int, to: int) -> Seq<PortAction> {
    if from < to {
        spec_grow_plan(from, to)
    } else {
        spec_shrink_plan(from, to)
    }
}

impl PortAction {
    /// The direction of the port this action touches.
    pub open spec fn direction(self) -> PortDirection {
        match self {
            PortAction::Register { direction, .. } => direction,
            PortAction::Unregister { direction, .. } => direction,
        }
    }

    /// The one-based pair index of the port this action touches.
    pub open spec fn index(self) -> int {
        match self {
            PortAction::Register { index, .. } => index as int,
            PortAction::Unregister { index, .. } => index as int,
        }
    }

    /// The engine-facing name of the port this action touches.
    pub fn port_name(&self) -> (r: String)
        ensures
            r@ == spec_port_name(self.direction(), self.index()),
    {
        let (direction, index) = match self {
            PortAction::Register { direction, index } => (*direction, *index),
            PortAction::Unregister { direction, index } => (*direction, *index),
        };
        let mut s = match direction {
            PortDirection::Input => String::from_str("in-"),
            PortDirection::Output => String::from_str("out-"),
        };
        let d = decimal_string(index as u64);
        s.append(d.as_str());
        s
    }
}

/// Builds the channel plan as executable data: the exact sequence of engine
/// calls that takes a strip from `from` pairs to `to` pairs.
pub fn channel_plan(from: usize, to: usize) -> (r: Vec<PortAction>)
    ensures
        r@ == spec_channel_plan(from as int, to as int),
{
    let mut acts: Vec<PortAction> = Vec::new();
    if from < to {
        let mut k = from;
        while k < to
            invariant
                from <= k <= to,
                acts@ == spec_grow_plan(from as int, k as int),
            decreases to - k,
        {
            k = k + 1;
            acts.push(PortAction::Register { direction: PortDirection::Input, index: k });
            acts.push(PortAction::Register { direction: PortDirection::Output, index: k });
            proof {
                assert(acts@ =~= spec_grow_plan(from as int, k as int));
            }
        }
    } else {
        let mut k = from;
        while k > to
            invariant
                to <= k <= from,
                acts@ == spec_shrink_plan(from as int, k as int),
            decreases k - to,
        {
            acts.push(PortAction::Unregister { direction: PortDirection::Input, index: k });
            acts.push(PortAction::Unregister { direction: PortDirection::Output, index: k });
            k = k - 1;
            proof {
                assert(acts@ =~= spec_shrink_plan(from as int, k as int));
            }
        }
    }
    acts
}

/// The line reported for one strip by a state query.
pub open spec fn spec_state_line(s: StripModel) -> Seq<char> {
    s.name + ": channels: "@ + spec_decimal(s.channels) + " gain-factor: "@ + spec_gain_string(
        s.gain_percent,
    )
}

/// The shared mutable state of one strip: its name, the gain as an integer
/// percentage, and how many port pairs are currently registered.
pub struct StripState {
    pub name: String,
    pub gain_percent: u32,
    pub channels: usize,
}

/// The mathematical model of one strip.
pub struct StripModel {
    pub name: Seq<char>,
    pub gain_percent: int,
    pub channels: int,
}

impl View for StripState {
    type V = StripModel;

    open spec fn view(&self) -> StripModel {
        StripModel {
            name: self.name@,
            gain_percent: self.gain_percent as int,
            channels: self.channels as int,
        }
    }
}

impl StripState {
    /// A fresh strip state: gain of one hundred percent and no channels yet.
    pub fn new(name: String) -> (s: StripState)
        ensures
            s@ == (StripModel { name: name@, gain_percent: 100int, channels: 0int }),
    {
        StripState { name, gain_percent: 100, channels: 0 }
    }
}

/// One named mixing group. In the running daemon the strip also owns an
/// activated audio-engine client; the engine calls themselves are performed by
/// the caller, driven by the [`PortAction`] values these methods return.
pub struct Strip {
    state: StripState,
}

impl View for Strip {
    type V = StripModel;

    closed spec fn view(&self) -> StripModel {
        self.state@
    }
}

impl Strip {
    /// A strip is well formed when its gain percentage and channel count stay
    /// within the configured bounds.
    pub open spec fn wf(&self) -> bool {
        &&& 0 <= self@.gain_percent <= 200
        &&& 0 <= self@.channels <= MAX_CHANNELS as int
    }

    /// A fresh strip with the default gain of one hundred percent and no
    /// channels yet; the caller grows it with `set_channels`.
    pub fn new(name: String) -> (s: Strip)
        ensures
            s@ == (StripModel { name: name@, gain_percent: 100int, channels: 0int }),
            s.wf(),
    {
        Strip { state: StripState::new(name) }
    }

    /// The strip's name.
    pub fn name(&self) -> (r: &String)
        ensures
            r@ == self@.name,
    {
        &self.state.name
    }

    /// The number of registered port pairs.
    pub fn get_channels(&self) -> (n: usize)
        ensures
            n as int == self@.channels,
    {
        self.state.channels
    }

    /// The gain as the stored integer percentage; the factor the engine
    /// applies is this value over one hundred.
    pub fn get_gain_factor(&self) -> (g: u32)
        ensures
            g as int == self@.gain_percent,
    {
        self.state.gain_percent
    }

    /// Stores a new gain percentage. The caller validates the range first;
    /// this is the only field the real-time callback reads concurrently.
    pub fn set_gain_factor(&mut self, percent: u32)
        requires
            old(self).wf(),
            percent <= 200,
        ensures
            final(self).wf(),
            final(self)@ == (StripModel { gain_percent: percent as int, ..old(self)@ }),
    {
        self.state.gain_percent = percent;
    }

    /// Appends one port pair and returns the two register calls to perform,
    /// input port first.
    pub fn add_channel(&mut self) -> (acts: (PortAction, PortAction))
        requires
            old(self).wf(),
            old(self)@.channels < MAX_CHANNELS as int,
        ensures
            final(self).wf(),
            final(self)@ == (StripModel { channels: old(self)@.channels + 1, ..old(self)@ }),
            acts.0 == reg_in(old(self)@.channels + 1),
            acts.1 == reg_out(old(self)@.channels + 1),
    {
        let id = self.state.channels + 1;
        self.state.channels = id;
        (
            PortAction::Register { direction: PortDirection::Input, index: id },
            PortAction::Register { direction: PortDirection::Output, index: id },
        )
    }

    /// Pops the last port pair and returns the two unregister calls to
    /// perform, input port first.
    pub fn remove_channel(&mut self) -> (acts: (PortAction, PortAction))
        requires
            old(self).wf(),
            old(self)@.channels >= 1,
        ensures
            final(self).wf(),
            final(self)@ == (StripModel { channels: old(self)@.channels - 1, ..old(self)@ }),
            acts.0 == unreg_in(old(self)@.channels),
            acts.1 == unreg_out(old(self)@.channels),
    {
        let id = self.state.channels;
        self.state.channels = id - 1;
        (
            PortAction::Unregister { direction: PortDirection::Input, index: id },
            PortAction::Unregister { direction: PortDirection::Output, index: id },
        )
    }

    /// Brings the strip to exactly `count` port pairs and returns the engine
    /// calls to perform, or rejects a count outside the allowed range and
    /// leaves the strip untouched. Asking for the current count returns the
    /// empty plan.
    #[verifier::loop_isolation(false)]
    pub fn set_channels(&mut self, count: i32) -> (r: Result<Vec<PortAction>, MixerCommandError>)
        requires
            old(self).wf(),
        ensures
            final(self).wf(),
            r is Ok <==> 0 <= count <= MAX_CHANNELS as int,
            r matches Ok(acts) ==> {
                &&& final(self)@ == (StripModel { channels: count as int, ..old(self)@ })
                &&& acts@ == spec_channel_plan(old(self)@.channels, count as int)
            },
            r matches Err(e) ==> *final(self) == *old(self) && e is InvalidArgument,
    {
        if count < 0 || count > MAX_CHANNELS as i32 {
            return Err(MixerCommandError::InvalidArgument);
        }
        let target = count as usize;
        let ghost from = self@.channels;
        let mut acts: Vec<PortAction> = Vec::new();
        if self.get_channels() > target {
            while self.get_channels() > target
                invariant
                    self.wf(),
                    target as int <= self@.channels <= from,
                    self@.name == old(self)@.name,
                    self@.gain_percent == old(self)@.gain_percent,
                    acts@ == spec_shrink_plan(from, self@.channels),
                decreases self@.channels,
            {
                let (a, b) = self.remove_channel();
                acts.push(a);
                acts.push(b);
                proof {
                    assert(acts@ =~= spec_shrink_plan(from, self@.channels));
                }
            }
        } else {
            while self.get_channels() < target
                invariant
                    self.wf(),
                    from <= self@.channels <= target as int,
                    self@.name == old(self)@.name,
                    self@.gain_percent == old(self)@.gain_percent,
                    acts@ == spec_grow_plan(from, self@.channels),
                decreases target as int - self@.channels,
            {
                let (a, b) = self.add_channel();
                acts.push(a);
                acts.push(b);
                proof {
                    assert(acts@ =~= spec_grow_plan(from, self@.channels));
                }
            }
            proof {
                if from == target as int {
                    assert(spec_channel_plan(from, count as int) =~= acts@);
                }
            }
        }
        Ok(acts)
    }

    /// The strip's line in the state report, e.g.
    /// `music: channels: 2 gain-factor: 1`.
    pub fn state_line(&self) -> (r: String)
        requires
            self.wf(),
        ensures
            r@ == spec_state_line(self@),
    {
        let mut s = self.state.name.clone();
        s.append(": channels: ");
        let c = decimal_string(self.state.channels as u64);
        s.append(c.as_str());
        s.append(" gain-factor: ");
        let g = gain_string(self.state.gain_percent);
        s.append(g.as_str());
        s
    }

    /// Tears the strip down: returns the unregister calls for every remaining
    /// port pair. The caller performs them and then deactivates the strip's
    /// engine client; the strip value must not be discarded without this.
    pub fn destroy(self) -> (acts: Vec<PortAction>)
        requires
            self.wf(),
        ensures
            acts@ == spec_channel_plan(self@.channels, 0),
    {
        channel_plan(self.get_channels(), 0)
    }
}

} // verus!
