//! The bridge's handle on one native stack instance: its raw token and where
//! it stands in its lifecycle.
use vstd::prelude::*;

use crate::config::{first_bad_field, has_terminator, passable, settings_of, Config, Setting};
use crate::error::{at_stage, reports, BridgeError, ConfigField, Stage};
use crate::network::{network_name, TSNetwork};
use crate::protocol::NativeError;

verus! {

/// Where a stack stands in its lifecycle.
#[derive(PartialEq, Eq, Structural, Clone, Copy, Debug)]
pub enum Phase {
    /// Created and perhaps configured, not yet brought up.
    Created,
    /// Brought up: listeners may be asked for.
    Up,
    /// Bring-up was attempted and failed; it is not attempted again on this
    /// stack, whose native behaviour on a second attempt is unknown.
    Failed,
    /// Released; nothing more may be asked of it.
    Closed,
}

/// One native stack instance, owned by one holder that closes it once: its
/// token, a plain integer that may be copied to every task that calls into
/// the stack, and its lifecycle phase.
#[derive(Debug)]
pub struct Tailscale {
    ts: i32,
    phase: Phase,
}

/// A listening endpoint that the stack handed out.
#[derive(PartialEq, Eq, Structural, Clone, Copy, Debug)]
pub struct Listener {
    pub id: i32,
}

/// A listen call to make: on which stack, for which transport and address.
pub struct ListenCall {
    pub ts: i32,
    pub network: String,
    pub addr: String,
}

impl Tailscale {
    pub closed spec fn token(&self) -> i32 {
        self.ts
    }

    pub closed spec fn phase_of(&self) -> Phase {
        self.phase
    }

    /// Takes charge of a freshly created native stack.
    pub fn new(ts: i32) -> (r: Tailscale)
        ensures
            r.token() == ts,
            r.phase_of() == Phase::Created,
    {
        Tailscale { ts, phase: Phase::Created }
    }

    /// Takes charge of a freshly created native stack, with the setter calls
    /// that configure it; or the first field that cannot be passed on.
    pub fn new_with_args(ts: i32, config: Config) -> (r: Result<(Tailscale, Vec<Setting>), BridgeError>)
        ensures
            match first_bad_field(config) {
                Some(f) => r == Err::<(Tailscale, Vec<Setting>), BridgeError>(
                    BridgeError::ConfigurationError(f),
                ),
                None => r is Ok && r->Ok_0.0.token() == ts && r->Ok_0.0.phase_of() == Phase::Created
                    && r->Ok_0.1@ == settings_of(config),
            },
    {
        match config.settings() {
            Ok(v) => Ok((Tailscale::new(ts), v)),
            Err(e) => Err(e),
        }
    }

    /// The native token, for a call into the stack.
    pub fn handle(&self) -> (r: i32)
        ensures
            r == self.token(),
    {
        self.ts
    }

    pub fn phase(&self) -> (r: Phase)
        ensures
            r == self.phase_of(),
    {
        self.phase
    }

    /// Whether bring-up may still be attempted: only before any attempt, and
    /// while the stack is not released.
    pub fn can_bring_up(&self) -> (r: bool)
        ensures
            r == (self.phase_of() == Phase::Created),
    {
        self.phase == Phase::Created
    }

    /// Records the outcome of the one blocking bring-up call. Success moves the
    /// stack up; a failure is reported and marks the stack failed. Either way
    /// bring-up is not attempted again.
    pub fn up(&mut self, outcome: Result<(), NativeError>) -> (r: Result<(), BridgeError>)
        requires
            old(self).phase_of() == Phase::Created,
        ensures
            final(self).token() == old(self).token(),
            match outcome {
                Ok(_) => r is Ok && final(self).phase_of() == Phase::Up,
                Err(e) => r is Err && reports(r->Err_0, Stage::BringUp, e)
                    && final(self).phase_of() == Phase::Failed,
            },
    {
        match outcome {
            Ok(()) => {
                self.phase = Phase::Up;
                Ok(())
            },
            Err(e) => {
                self.phase = Phase::Failed;
                Err(at_stage(Stage::BringUp, e))
            },
        }
    }

    /// The worker pool failed while it ran the bring-up call, which may have
    /// reached the stack: the stack is marked failed, as after a failed
    /// bring-up, and the pool's failure is reported.
    pub fn up_offload_failed(&mut self) -> (r: BridgeError)
        requires
            old(self).phase_of() == Phase::Created,
        ensures
            r == BridgeError::OffloadFailure,
            final(self).token() == old(self).token(),
            final(self).phase_of() == Phase::Failed,
    {
        self.phase = Phase::Failed;
        BridgeError::OffloadFailure
    }

    /// The listen call for a transport and an address, which is passed on
    /// verbatim; or a configuration error where the address holds a zero
    /// character.
    pub fn listen(&self, network: TSNetwork, addr: &str) -> (r: Result<ListenCall, BridgeError>)
        requires
            self.phase_of() == Phase::Up,
        ensures
            passable(addr@) ==> r is Ok && r->Ok_0.ts == self.token()
                && r->Ok_0.network@ == network_name(network) && r->Ok_0.addr@ == addr@,
            !passable(addr@) ==> r == Err::<ListenCall, BridgeError>(
                BridgeError::ConfigurationError(ConfigField::Address),
            ),
    {
        if has_terminator(addr) {
            return Err(BridgeError::ConfigurationError(ConfigField::Address));
        }
        Ok(ListenCall { ts: self.ts, network: network.to_string(), addr: addr.to_string() })
    }

    /// Records the outcome of a listen call: the listener it yielded, or the
    /// failure reported.
    pub fn listened(&self, outcome: Result<i32, NativeError>) -> (r: Result<Listener, BridgeError>)
        requires
            self.phase_of() == Phase::Up,
        ensures
            match outcome {
                Ok(id) => r == Ok::<Listener, BridgeError>(Listener { id }),
                Err(e) => r is Err && reports(r->Err_0, Stage::Listen, e),
            },
    {
        match outcome {
            Ok(id) => Ok(Listener { id }),
            Err(e) => Err(at_stage(Stage::Listen, e)),
        }
    }

    /// Releases the stack, once: returns the token to hand to the native close
    /// call.
    pub fn close(&mut self) -> (r: i32)
        requires
            old(self).phase_of() != Phase::Closed,
        ensures
            r == old(self).token(),
            final(self).token() == old(self).token(),
            final(self).phase_of() == Phase::Closed,
    {
        self.phase = Phase::Closed;
        self.ts
    }
}

} // verus!
