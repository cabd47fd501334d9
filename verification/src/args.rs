//! The command-line intent and its translation into a single remote call.
//!
//! Parsing the command line itself is the binary's job; the library owns the
//! validation of the numeric arguments and the precedence rule that picks the
//! one action a client invocation performs.

use vstd::prelude::*;

verus! {

/// The parsed command-line intent.
pub struct Args {
    pub strip_name: Option<String>,
    pub gain_factor: Option<i32>,
    pub add_strip: bool,
    pub remove_strip: bool,
    pub set_strips: Option<i32>,
}

/// The command-line fields, named as they are registered with the parser.
pub enum ArgFields {
    StripName,
    GainFactor,
    AddStrip,
    RemoveStrip,
    SetStrips,
}

impl ArgFields {
    /// The parser-facing name of the field.
    pub fn to_string(&self) -> (r: &'static str)
        ensures
            r@ == match *self {
                ArgFields::StripName => "StripName"@,
                ArgFields::GainFactor => "GainFactor"@,
                ArgFields::AddStrip => "AddStrip"@,
                ArgFields::RemoveStrip => "RemoveStrip"@,
                ArgFields::SetStrips => "SetStrips"@,
            },
    {
        match *self {
            ArgFields::StripName => "StripName",
            ArgFields::GainFactor => "GainFactor",
            ArgFields::AddStrip => "AddStrip",
            ArgFields::RemoveStrip => "RemoveStrip",
            ArgFields::SetStrips => "SetStrips",
        }
    }
}

/// Validates the gain argument: accepted exactly when it is an integer
/// percentage from zero to two hundred.
pub fn validate_gain_arg(n: i32) -> (r: Option<i32>)
    ensures
        r == if 0 <= n <= 200 {
            Some(n)
        } else {
            None::<i32>
        },
{
    if 0 <= n && n <= 200 {
        Some(n)
    } else {
        None
    }
}

/// Validates the strip-count argument: accepted exactly when it is positive.
pub fn validate_set_strips_arg(n: i32) -> (r: Option<i32>)
    ensures
        r == if n > 0 {
            Some(n)
        } else {
            None::<i32>
        },
{
    if n > 0 {
        Some(n)
    } else {
        None
    }
}

/// The one remote call a client invocation forwards to the running owner.
pub enum RemoteAction {
    SetGainFactor(String, i32),
    AddStrip(String),
    RemoveStrip(String),
    GetState,
}

/// The precedence rule over the parsed intent: setting the gain wins, then
/// adding a strip, then removing one; anything else falls back to a state
/// query. Every action but the query needs a target strip name.
pub open spec fn spec_remote_action(args: Args) -> RemoteAction {
    if args.strip_name is Some && args.gain_factor is Some {
        RemoteAction::SetGainFactor(args.strip_name->0, args.gain_factor->0)
    } else if args.strip_name is Some && args.add_strip {
        RemoteAction::AddStrip(args.strip_name->0)
    } else if args.strip_name is Some && args.remove_strip {
        RemoteAction::RemoveStrip(args.strip_name->0)
    } else {
        RemoteAction::GetState
    }
}

/// Picks the remote call the parsed intent translates to.
pub fn choose_remote_action(args: &Args) -> (r: RemoteAction)
    ensures
        r == spec_remote_action(*args),
{
    match &args.strip_name {
        Some(name) => {
            if let Some(g) = args.gain_factor {
                RemoteAction::SetGainFactor(name.clone(), g)
            } else if args.add_strip {
                RemoteAction::AddStrip(name.clone())
            } else if args.remove_strip {
                RemoteAction::RemoveStrip(name.clone())
            } else {
                RemoteAction::GetState
            }
        },
        None => RemoteAction::GetState,
    }
}

} // verus!
