use vstd::prelude::*;

use crate::protocol::NativeError;

verus! {

/// A configuration field, named where it cannot be handed to the native stack.
#[derive(PartialEq, Eq, Structural, Clone, Copy, Debug)]
pub enum ConfigField {
    Dir,
    Hostname,
    AuthKey,
    ControlUrl,
    Address,
}

/// The stage of the bridge at which a native call failed.
#[derive(PartialEq, Eq, Structural, Clone, Copy, Debug)]
pub enum Stage {
    BringUp,
    Listen,
    Accept,
}

/// What the bridge reports when it cannot go on.
#[derive(PartialEq, Eq, Debug)]
pub enum BridgeError {
    /// A string field holds a zero byte, which the native string boundary cannot carry.
    ConfigurationError(ConfigField),
    BringUpFailure(String),
    ListenFailure(String),
    AcceptFailure(String),
    /// A native call failed, and its message could not be fetched either.
    InternalProtocolError,
    /// The worker pool that runs blocking calls failed on its own account.
    OffloadFailure,
}

/// Whether `b` is how a native failure `e` at stage `s` is reported.
pub open spec fn reports(b: BridgeError, s: Stage, e: NativeError) -> bool {
    match e {
        NativeError::Unexplained => b == BridgeError::InternalProtocolError,
        NativeError::Failed(m) => match s {
            Stage::BringUp => b == BridgeError::BringUpFailure(m),
            Stage::Listen => b == BridgeError::ListenFailure(m),
            Stage::Accept => b == BridgeError::AcceptFailure(m),
        },
    }
}

/// Reports a native failure at the given stage.
pub fn at_stage(s: Stage, e: NativeError) -> (r: BridgeError)
    ensures
        reports(r, s, e),
{
    match e {
        NativeError::Unexplained => BridgeError::InternalProtocolError,
        NativeError::Failed(m) => match s {
            Stage::BringUp => BridgeError::BringUpFailure(m),
            Stage::Listen => BridgeError::ListenFailure(m),
            Stage::Accept => BridgeError::AcceptFailure(m),
        },
    }
}

} // verus!
