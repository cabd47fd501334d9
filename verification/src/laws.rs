//! The laws the mixer's command handling obeys, stated over the registry
//! model and proved once and for all. Each law speaks about `plan`/`commit`
//! through the spec functions their contracts use.

use crate::registry::{
    has_strip, lemma_strip_index, spec_actions, spec_plan_ok, spec_state_lines, spec_step,
    strip_index, strip_of, wf_model, MixerCommand,
};
use crate::strip::{
    spec_channel_plan, spec_shrink_plan, spec_state_line, PortAction, StripModel,
    DEFAULT_CHANNELS, MAX_CHANNELS,
};
use crate::text::{spec_decimal, spec_gain_string};
use vstd::prelude::*;

verus! {

/// Shrinking a strip from `from` pairs to `to` pairs unregisters a port for
/// every port it gives up: two calls per dropped pair, all of them
/// unregistrations.
pub proof fn lemma_shrink_plan_ports(from: int, to: int)
    requires
        0 <= to <= from,
    ensures
        spec_shrink_plan(from, to).len() == 2 * (from - to),
        forall|k: int|
            0 <= k < spec_shrink_plan(from, to).len() ==> (#[trigger] spec_shrink_plan(from, to)[k])
                is Unregister,
    decreases from - to,
{
    if from > to {
        lemma_shrink_plan_ports(from, to + 1);
    }
}

/// Law: after a successful `SetGainFactor(name, g)`, a state query reports the
/// named strip with a gain of exactly `g` percent — its line carries the
/// decimal fraction `g/100` and its channel count is untouched.
pub proof fn lemma_set_gain_then_state(m: Seq<StripModel>, name: String, g: u32)
    requires
        wf_model(m),
        g <= 200,
        has_strip(m, name@),
    ensures
        ({
            let m2 = spec_step(m, MixerCommand::SetGainFactor(name, g));
            let i = strip_index(m, name@);
            &&& 0 <= i < m2.len()
            &&& m2[i].name == name@
            &&& m2[i].gain_percent == g as int
            &&& m2[i].channels == m[i].channels
            &&& spec_state_lines(m2)[i] == name@ + ": channels: "@ + spec_decimal(m[i].channels)
                + " gain-factor: "@ + spec_gain_string(g as int)
        }),
{
    let m2 = spec_step(m, MixerCommand::SetGainFactor(name, g));
    let i = strip_index(m, name@);
    assert(0 <= i < m.len() && m[i].name == name@);
    assert(spec_state_lines(m2)[i] == spec_state_line(m2[i]));
}

/// Law: `SetChannels` is idempotent. Once a strip stands at `n` pairs, the
/// same command is still accepted, plans no engine call at all, and leaves the
/// whole registry exactly as it is.
pub proof fn lemma_set_channels_idempotent(m: Seq<StripModel>, name: String, n: i32)
    requires
        wf_model(m),
        0 <= n <= MAX_CHANNELS as int,
        has_strip(m, name@),
    ensures
        ({
            let cmd = MixerCommand::SetChannels(name, n);
            let m2 = spec_step(m, cmd);
            &&& spec_plan_ok(m2, cmd)
            &&& spec_actions(m2, cmd) == Seq::<PortAction>::empty()
            &&& spec_step(m2, cmd) == m2
        }),
{
    let cmd = MixerCommand::SetChannels(name, n);
    let i = strip_index(m, name@);
    assert(0 <= i < m.len() && m[i].name == name@);
    let m2 = spec_step(m, cmd);
    lemma_strip_index(m2, name@, i);
    assert(strip_of(m2, name@).channels == n as int);
    assert(spec_actions(m2, cmd) =~= Seq::<PortAction>::empty());
    assert(spec_step(m2, cmd) =~= m2);
}

/// Law: removing a strip with `k` port pairs plans exactly `2k` engine calls,
/// all of them unregistrations, and afterwards the name is gone from the
/// registry — and with it from the state report.
pub proof fn lemma_remove_strip_ports(m: Seq<StripModel>, name: String)
    requires
        wf_model(m),
        has_strip(m, name@),
    ensures
        ({
            let cmd = MixerCommand::RemoveStrip(name);
            let m2 = spec_step(m, cmd);
            &&& spec_actions(m, cmd).len() == 2 * strip_of(m, name@).channels
            &&& forall|k: int|
                0 <= k < spec_actions(m, cmd).len() ==> (#[trigger] spec_actions(m, cmd)[k])
                    is Unregister
            &&& !has_strip(m2, name@)
        }),
{
    let cmd = MixerCommand::RemoveStrip(name);
    let i = strip_index(m, name@);
    assert(0 <= i < m.len() && m[i].name == name@);
    let ch = strip_of(m, name@).channels;
    assert(spec_channel_plan(ch, 0) == spec_shrink_plan(ch, 0));
    lemma_shrink_plan_ports(ch, 0);
    let m2 = spec_step(m, cmd);
    assert forall|j: int| 0 <= j < m2.len() implies m2[j].name != name@ by {
        if j < i {
            assert(m2[j] == m[j]);
            assert(m[j].name != m[i].name);
        } else {
            assert(m2[j] == m[j + 1]);
            assert(m[i].name != m[j + 1].name);
        }
    }
}

/// Law: adding a name that already exists is rejected — the plan fails (with
/// `AlreadyExists`, by `plan`'s contract) — and since a rejected command is
/// never committed, the existing strip's gain and channels stay as they are.
pub proof fn lemma_add_existing_rejected(m: Seq<StripModel>, name: String)
    requires
        wf_model(m),
        has_strip(m, name@),
    ensures
        !spec_plan_ok(m, MixerCommand::AddStrip(name)),
{
}

/// Law: a completed command never leaves a strip at an intermediate channel
/// count. Every strip of the new registry either kept the count it had, or
/// stands exactly at the explicit target of the command that touched it: the
/// `SetChannels` target, or the default count of a fresh `AddStrip`.
pub proof fn lemma_no_intermediate_counts(m: Seq<StripModel>, cmd: MixerCommand)
    requires
        wf_model(m),
        spec_plan_ok(m, cmd),
    ensures
        forall|j: int|
            0 <= j < spec_step(m, cmd).len() ==> {
                let s2 = #[trigger] spec_step(m, cmd)[j];
                ||| (has_strip(m, s2.name) && strip_of(m, s2.name).channels == s2.channels)
                ||| (cmd matches MixerCommand::SetChannels(name, n) && s2.name == name@
                    && s2.channels == n as int)
                ||| (cmd matches MixerCommand::AddStrip(name) && s2.name == name@ && s2.channels
                    == DEFAULT_CHANNELS as int)
            },
{
    let m2 = spec_step(m, cmd);
    assert forall|j: int| 0 <= j < m2.len() implies {
        let s2 = #[trigger] m2[j];
        ||| (has_strip(m, s2.name) && strip_of(m, s2.name).channels == s2.channels)
        ||| (cmd matches MixerCommand::SetChannels(name, n) && s2.name == name@ && s2.channels
            == n as int)
        ||| (cmd matches MixerCommand::AddStrip(name) && s2.name == name@ && s2.channels
            == DEFAULT_CHANNELS as int)
    } by {
        match cmd {
            MixerCommand::SetGainFactor(name, g) => {
                let i = strip_index(m, name@);
                assert(0 <= i < m.len() && m[i].name == name@);
                assert(m2[j].name == m[j].name && m2[j].channels == m[j].channels);
                lemma_strip_index(m, m[j].name, j);
            },
            MixerCommand::AddStrip(name) => {
                if j < m.len() {
                    assert(m2[j] == m[j]);
                    lemma_strip_index(m, m[j].name, j);
                }
            },
            MixerCommand::RemoveStrip(name) => {
                let i = strip_index(m, name@);
                assert(0 <= i < m.len() && m[i].name == name@);
                if j < i {
                    assert(m2[j] == m[j]);
                    lemma_strip_index(m, m[j].name, j);
                } else {
                    assert(m2[j] == m[j + 1]);
                    lemma_strip_index(m, m[j + 1].name, j + 1);
                }
            },
            MixerCommand::SetChannels(name, n) => {
                let i = strip_index(m, name@);
                assert(0 <= i < m.len() && m[i].name == name@);
                if j != i {
                    assert(m2[j] == m[j]);
                    lemma_strip_index(m, m[j].name, j);
                }
            },
            MixerCommand::GetState => {
                lemma_strip_index(m, m[j].name, j);
            },
        }
    }
}

} // verus!
