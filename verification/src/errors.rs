//! Error types of the mixer's control plane.

use vstd::prelude::*;

verus! {

/// An error returned to the caller of a mixer command.
#[derive(Debug)]
pub enum MixerCommandError {
    /// The named strip is not present in the registry.
    UnknownStrip { name: String },
    /// An `AddStrip` named a strip that already exists.
    AlreadyExists { name: String },
    /// A gain or channel count outside its allowed range.
    InvalidArgument,
    /// The audio engine rejected a port registration or unregistration;
    /// the strip keeps its last valid state.
    PortOperationFailed,
    /// A lock or channel failure in the control-plane bridge.
    Internal,
}

/// An error raised by a strip-level operation.
#[derive(Debug)]
pub enum StripError {
    /// A lock failure while reading or mutating the shared strip state.
    Internal,
}

/// The message text of a command error, as sent back to the remote caller.
pub open spec fn spec_command_error_message(e: MixerCommandError) -> Seq<char> {
    match e {
        MixerCommandError::UnknownStrip { name } => "unknown strip: "@ + name@,
        MixerCommandError::AlreadyExists { name } => "strip already exists: "@ + name@,
        MixerCommandError::InvalidArgument => "invalid argument"@,
        MixerCommandError::PortOperationFailed => "port operation failed"@,
        MixerCommandError::Internal => "internal error"@,
    }
}

impl MixerCommandError {
    /// The human-readable message carried back over the control channel.
    pub fn message(&self) -> (r: String)
        ensures
            r@ == spec_command_error_message(*self),
    {
        match self {
            MixerCommandError::UnknownStrip { name } => {
                let mut s = String::from_str("unknown strip: ");
                s.append(name.as_str());
                s
            },
            MixerCommandError::AlreadyExists { name } => {
                let mut s = String::from_str("strip already exists: ");
                s.append(name.as_str());
                s
            },
            MixerCommandError::InvalidArgument => String::from_str("invalid argument"),
            MixerCommandError::PortOperationFailed => String::from_str("port operation failed"),
            MixerCommandError::Internal => String::from_str("internal error"),
        }
    }
}

impl StripError {
    /// The human-readable message of a strip-level error.
    pub fn message(&self) -> (r: String)
        ensures
            r@ == "internal error"@,
    {
        String::from_str("internal error")
    }
}

} // verus!
