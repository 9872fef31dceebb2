use vstd::prelude::*;
use crate::config::Config;
use crate::gate::{AuthorizationGate, GateAction};
use crate::net::{IpAddr, SockAddr};
use crate::registry::ConnectionManager;

verus! {

/// The passthrough listener's lifecycle: bind, accept until drained or the
/// runtime shuts down, stop.
#[derive(Clone, Copy, PartialEq, Eq, Structural, Debug)]
pub enum ListenerPhase {
    /// About to bind the configured plaintext address.
    Binding,
    /// Accepting connections, one gate per accepted socket.
    Listening,
    /// The drain signal arrived: acceptance has stopped, nothing else has.
    Draining,
    /// Terminal: the listener's task exits.
    Stopped,
}

/// The plaintext inbound listener. The bound socket and the accept loop
/// live with the runtime outside the library; this machine pins every
/// decision the loop takes, so that acceptance, drain and shutdown cannot
/// be reordered or widened.
pub struct InboundPassthrough {
    pub phase: ListenerPhase,
}

impl InboundPassthrough {
    /// A listener that has not bound yet.
    pub fn new() -> (r: InboundPassthrough)
        ensures
            r.phase == ListenerPhase::Binding,
    {
        InboundPassthrough { phase: ListenerPhase::Binding }
    }

    /// Applies the bind attempt's result. On success the listener starts
    /// accepting, and the configuration records whether transparent mode
    /// was established, overriding the configured original-source flag — the
    /// rest of the configuration is untouched. A bind failure is fatal to
    /// this listener: it stops without ever accepting.
    pub fn on_bound(&mut self, cfg: &mut Config, bound: bool, transparent: bool)
        requires
            old(self).phase == ListenerPhase::Binding,
        ensures
            final(self).phase == (if bound {
                ListenerPhase::Listening
            } else {
                ListenerPhase::Stopped
            }),
            bound ==> *final(cfg) == (Config {
                enable_original_source: Some(transparent),
                ..*old(cfg)
            }),
            !bound ==> *final(cfg) == *old(cfg),
    {
        if bound {
            self.phase = ListenerPhase::Listening;
            cfg.enable_original_source = Some(transparent);
        } else {
            self.phase = ListenerPhase::Stopped;
        }
    }

    /// Whether new connections are being accepted.
    pub fn accepting(&self) -> (r: bool)
        ensures
            r == (self.phase == ListenerPhase::Listening),
    {
        match self.phase {
            ListenerPhase::Listening => true,
            _ => false,
        }
    }

    /// Hands one accepted socket to a fresh authorization gate; acceptance
    /// itself decides nothing about the connection.
    pub fn on_accepted(
        &self,
        cfg: &Config,
        source: SockAddr,
        orig_dst: SockAddr,
        original_source: Option<IpAddr>,
    ) -> (r: (AuthorizationGate, GateAction))
        requires
            self.phase == ListenerPhase::Listening,
        ensures
            r == AuthorizationGate::spec_begin(*cfg, source, orig_dst, original_source),
    {
        AuthorizationGate::begin(cfg, source, orig_dst, original_source)
    }

    /// Applies a failed accept: an error that means the runtime is shutting
    /// down ends the loop silently; any other is logged by the caller and
    /// acceptance continues — one bad accept must not stop the listener.
    pub fn on_accept_error(&mut self, runtime_shutdown: bool)
        requires
            old(self).phase == ListenerPhase::Listening,
        ensures
            final(self).phase == (if runtime_shutdown {
                ListenerPhase::Stopped
            } else {
                ListenerPhase::Listening
            }),
    {
        if runtime_shutdown {
            self.phase = ListenerPhase::Stopped;
        }
    }

    /// The process-wide drain signal: stops acceptance at once, and only
    /// that. The registry — the connections still authorizing or relaying —
    /// is exactly as it was: draining never fires a per-connection signal
    /// and never releases an entry, so in-flight relays run on to their own
    /// end. A listener that was not accepting is left as it is.
    pub fn on_drain(&mut self, registry: &mut ConnectionManager)
        ensures
            !final(self).accepting_now(),
            final(registry)@ == old(registry)@,
            final(self).phase == (if old(self).phase == ListenerPhase::Listening {
                ListenerPhase::Draining
            } else {
                old(self).phase
            }),
    {
        if self.accepting() {
            self.phase = ListenerPhase::Draining;
        }
    }

    /// Whether the phase is one that accepts new connections.
    pub open spec fn accepting_now(self) -> bool {
        self.phase == ListenerPhase::Listening
    }

    /// The drained listener's task exits.
    pub fn finish(&mut self)
        requires
            old(self).phase == ListenerPhase::Draining,
        ensures
            final(self).phase == ListenerPhase::Stopped,
    {
        self.phase = ListenerPhase::Stopped;
    }
}

} // verus!
