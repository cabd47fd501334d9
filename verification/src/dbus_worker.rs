//! The command worker's side of the control plane: the route names of the
//! remote-call interface and the wire-boundary validation that turns a raw
//! remote argument into a command, before anything is queued for the control
//! loop.

use crate::errors::MixerCommandError;
use crate::registry::MixerCommand;
use vstd::prelude::*;

verus! {

/// The remote methods the single-instance service exposes.
pub enum DbusRoute {
    InstanceRunning,
    AddStrip,
    RemoveStrip,
    SetGainFactor,
    GetState,
}

impl DbusRoute {
    /// The wire-facing method name of the route.
    pub fn to_string(&self) -> (r: &'static str)
        ensures
            r@ == match *self {
                DbusRoute::InstanceRunning => "InstanceRunning"@,
                DbusRoute::SetGainFactor => "SetGainFactor"@,
                DbusRoute::AddStrip => "AddStrip"@,
                DbusRoute::RemoveStrip => "RemoveStrip"@,
                DbusRoute::GetState => "GetState"@,
            },
    {
        match *self {
            DbusRoute::InstanceRunning => "InstanceRunning",
            DbusRoute::SetGainFactor => "SetGainFactor",
            DbusRoute::AddStrip => "AddStrip",
            DbusRoute::RemoveStrip => "RemoveStrip",
            DbusRoute::GetState => "GetState",
        }
    }
}

/// The well-known service identity the single running instance claims.
pub fn service_name() -> (r: &'static str)
    ensures
        r@ == "com.jackAutoconnect.jackAutoconnect"@,
{
    "com.jackAutoconnect.jackAutoconnect"
}

/// Wire-boundary validation of a gain argument: accepted exactly when it
/// decodes as an integer percentage from zero to two hundred. Rejected values
/// never reach the command queue.
pub fn parse_gain(gain: i32) -> (r: Result<u32, MixerCommandError>)
    ensures
        r is Ok <==> 0 <= gain <= 200,
        r matches Ok(g) ==> g == gain as u32,
        r matches Err(e) ==> e is InvalidArgument,
{
    if 0 <= gain && gain <= 200 {
        Ok(gain as u32)
    } else {
        Err(MixerCommandError::InvalidArgument)
    }
}

/// Decodes one inbound gain call into the command handed to the control loop.
pub fn decode_set_gain_factor(name: &str, gain: i32) -> (r: Result<
    MixerCommand,
    MixerCommandError,
>)
    ensures
        r is Ok <==> 0 <= gain <= 200,
        r matches Ok(c) ==> c matches MixerCommand::SetGainFactor(n, g) && n@ == name@ && g
            == gain as u32,
        r matches Err(e) ==> e is InvalidArgument,
{
    match parse_gain(gain) {
        Ok(g) => Ok(MixerCommand::SetGainFactor(name.to_owned(), g)),
        Err(e) => Err(e),
    }
}

} // verus!
