use vstd::prelude::*;
use crate::config::{Config, ProxyMode};
use crate::net::{IpAddr, NetworkAddress, SockAddr};
use crate::rbac::{Connection, Identity, ProxyRbacContext, Service, Upstream, Workload, WorkloadInfo};
use crate::registry::ConnectionManager;
use crate::relay::RelayEnd;

verus! {

/// The connection-open telemetry record; the sink owes a matching close
/// record for each one emitted.
#[derive(Clone, Copy, PartialEq, Eq, Structural, Debug)]
pub struct ConnectionOpen {
    pub source: Option<Workload>,
    pub src_identity: Option<Identity>,
    pub destination: Option<Workload>,
    pub destination_service: Option<Service>,
}

/// How one connection's lifecycle ended.
#[derive(Clone, Copy, PartialEq, Eq, Structural, Debug)]
pub enum GateOutcome {
    /// The redirected destination was the proxy itself: logged and dropped.
    SelfCall,
    /// The directory knows nothing of the destination: logged and dropped.
    UnknownDestination,
    /// An entry for an equal connection already existed; this attempt
    /// observes it and drops silently rather than disturbing it.
    DuplicateConnection,
    /// The policy said no: a silent drop, not an error.
    Denied,
    /// The entry vanished between registration and tracking — revoked while
    /// the decision was pending. Treated as a denial.
    Revoked,
    /// The upstream connect failed: propagated as a connection error.
    UpstreamConnectFailed,
    /// The relay ran and finished cleanly.
    Completed,
    /// The relay ran and ended in an I/O error: propagated.
    RelayFailed,
    /// The cancellation signal won the race against the relay: a clean
    /// administrative termination, not a fault.
    AdministrativelyClosed,
}

/// Where one connection stands between acceptance and its end.
#[derive(Clone, Copy, PartialEq, Eq, Structural, Debug)]
pub enum GatePhase {
    /// Waiting for the directory to answer for the destination.
    Resolving,
    /// Registered; waiting for the authorization engine's decision.
    Authorizing,
    /// Tracked; waiting for the upstream connect.
    Connecting,
    /// Connected; waiting for best-effort source attribution.
    Attributing,
    /// The relay is running, racing the cancellation receiver.
    Relaying,
    Done(GateOutcome),
}

/// What the surrounding runtime reports back into the lifecycle.
#[derive(Clone, Copy, PartialEq, Eq, Structural, Debug)]
pub enum GateEvent {
    /// The directory's answer for the destination address.
    Resolved(Option<Upstream>),
    /// The authorization engine's decision.
    Authorized(bool),
    /// Whether the upstream connect succeeded.
    UpstreamConnected(bool),
    /// The directory's best-effort answer for the original source.
    SourceResolved(Option<Workload>),
    /// The relay ended on its own, cleanly or by I/O error.
    RelayFinished(RelayEnd),
    /// The per-connection cancellation signal fired first.
    CancelFired,
}

/// What the machine asks the surrounding runtime to do next.
#[derive(Clone, Copy, PartialEq, Eq, Structural, Debug)]
pub enum GateAction {
    /// Look the destination up in the directory.
    Lookup(NetworkAddress),
    /// Ask the authorization engine to assert this context.
    Authorize(ProxyRbacContext),
    /// Open the upstream connection, free-binding the given source when
    /// original-source preservation is on.
    ConnectUpstream { bind: Option<IpAddr>, dst: SockAddr },
    /// Look the original source up in the directory, if one was recovered;
    /// absence must not block proceeding.
    LookupSource(Option<NetworkAddress>),
    /// Emit the open record, then relay until close, error or cancellation.
    OpenAndRelay(ConnectionOpen),
    /// Emit the close record and close both sockets.
    EmitClose,
    /// Close the inbound socket; nothing was relayed.
    Close,
    /// The event does not apply to the current phase.
    Ignore,
}

/// The redirection-loop test: under shared proxy mode a destination equal
/// to the process's own address would re-enter the proxy forever, so it must
/// be refused before any further work.
pub open spec fn spec_is_self_call(cfg: Config, orig_dst: SockAddr) -> bool {
    cfg.proxy_mode == ProxyMode::Shared && cfg.local_ip == Some(orig_dst.ip)
}

/// Exactly the redirection-loop test of `spec_is_self_call`.
pub fn is_self_call(cfg: &Config, orig_dst: SockAddr) -> (r: bool)
    ensures
        r == spec_is_self_call(*cfg, orig_dst),
{
    match cfg.proxy_mode {
        ProxyMode::Shared => match cfg.local_ip {
            Some(ip) => ip == orig_dst.ip,
            None => false,
        },
        ProxyMode::Dedicated => false,
    }
}

/// The per-connection orchestration, one accepted socket each: it decides
/// every transition of the lifecycle — resolve, register, authorize, track,
/// connect, attribute, relay, release — while the surrounding runtime
/// performs the I/O between steps and feeds the outcomes back as events.
#[derive(Clone, Copy, PartialEq, Eq, Structural, Debug)]
pub struct AuthorizationGate {
    /// The peer address of the accepted socket.
    pub source: SockAddr,
    /// The original destination recovered from the redirection metadata.
    pub dest: SockAddr,
    /// The original source recovered from the redirection metadata, if any.
    pub original_source: Option<IpAddr>,
    /// The local network; passthrough traffic never leaves it.
    pub network: u64,
    /// Descriptor of the workload this proxy fronts.
    pub workload_info: Option<WorkloadInfo>,
    /// Whether the upstream connect preserves the original source address.
    pub preserve_source: bool,
    pub phase: GatePhase,
    /// The directory's answer for the destination, once it arrived.
    pub upstream: Option<Upstream>,
    /// The directory's best-effort answer for the source, once it arrived.
    pub source_workload: Option<Workload>,
    /// Whether the open telemetry record has been emitted.
    pub open_emitted: bool,
    /// Whether the close telemetry record has been emitted.
    pub close_emitted: bool,
    pub bytes_sent: u64,
    pub bytes_received: u64,
}

impl AuthorizationGate {
    /// The connection value this attempt is keyed by. Plaintext passthrough
    /// carries no source identity, and the destination is on the local
    /// network by definition — without a gateway hop the source must be too.
    pub open spec fn connection(self) -> Connection {
        Connection {
            src_identity: None,
            src: self.source,
            dst_network: self.network,
            dst: self.dest,
        }
    }

    /// The registration/authorization context: the connection plus the
    /// fronted workload's descriptor.
    pub open spec fn ctx(self) -> ProxyRbacContext {
        ProxyRbacContext { conn: self.connection(), dest_workload_info: self.workload_info }
    }

    /// Exactly `self.ctx()`, for callers outside ghost code.
    pub fn make_ctx(&self) -> (c: ProxyRbacContext)
        ensures
            c == self.ctx(),
    {
        ProxyRbacContext {
            conn: Connection {
                src_identity: None,
                src: self.source,
                dst_network: self.network,
                dst: self.dest,
            },
            dest_workload_info: self.workload_info,
        }
    }

    /// The open telemetry record: best-effort source attribution, the
    /// (absent) source identity, and the resolved destination.
    pub open spec fn spec_open_record(self) -> ConnectionOpen {
        ConnectionOpen {
            source: self.source_workload,
            src_identity: self.connection().src_identity,
            destination: match self.upstream {
                Some(u) => Some(u.workload),
                None => None,
            },
            destination_service: match self.upstream {
                Some(u) => Some(u.service),
                None => None,
            },
        }
    }

    /// Exactly `self.spec_open_record()`, for callers outside ghost code.
    pub fn open_record(&self) -> (r: ConnectionOpen)
        ensures
            r == self.spec_open_record(),
    {
        ConnectionOpen {
            source: self.source_workload,
            src_identity: None,
            destination: match self.upstream {
                Some(u) => Some(u.workload),
                None => None,
            },
            destination_service: match self.upstream {
                Some(u) => Some(u.service),
                None => None,
            },
        }
    }

    /// The state a freshly accepted socket starts with, and its first action:
    /// the self-call test is applied before anything else — a self-call is
    /// born terminal and never reaches the directory or the registry —
    /// otherwise the lifecycle opens with the destination lookup.
    pub open spec fn spec_begin(
        cfg: Config,
        source: SockAddr,
        orig_dst: SockAddr,
        original_source: Option<IpAddr>,
    ) -> (AuthorizationGate, GateAction) {
        let g = AuthorizationGate {
            source,
            dest: orig_dst,
            original_source,
            network: cfg.network,
            workload_info: cfg.proxy_workload_info,
            preserve_source: cfg.enable_original_source == Some(true),
            phase: GatePhase::Resolving,
            upstream: None,
            source_workload: None,
            open_emitted: false,
            close_emitted: false,
            bytes_sent: 0,
            bytes_received: 0,
        };
        if spec_is_self_call(cfg, orig_dst) {
            (
                AuthorizationGate { phase: GatePhase::Done(GateOutcome::SelfCall), ..g },
                GateAction::Close,
            )
        } else {
            (g, GateAction::Lookup(NetworkAddress { network: cfg.network, address: orig_dst.ip }))
        }
    }

    /// Accepts one redirected socket; exactly `spec_begin`.
    pub fn begin(
        cfg: &Config,
        source: SockAddr,
        orig_dst: SockAddr,
        original_source: Option<IpAddr>,
    ) -> (r: (AuthorizationGate, GateAction))
        ensures
            r == Self::spec_begin(*cfg, source, orig_dst, original_source),
    {
        let preserve = match cfg.enable_original_source {
            Some(true) => true,
            _ => false,
        };
        let g = AuthorizationGate {
            source,
            dest: orig_dst,
            original_source,
            network: cfg.network,
            workload_info: cfg.proxy_workload_info,
            preserve_source: preserve,
            phase: GatePhase::Resolving,
            upstream: None,
            source_workload: None,
            open_emitted: false,
            close_emitted: false,
            bytes_sent: 0,
            bytes_received: 0,
        };
        if is_self_call(cfg, orig_dst) {
            (
                AuthorizationGate { phase: GatePhase::Done(GateOutcome::SelfCall), ..g },
                GateAction::Close,
            )
        } else {
            let lookup = NetworkAddress { network: cfg.network, address: orig_dst.ip };
            (g, GateAction::Lookup(lookup))
        }
    }

    /// One transition of the lifecycle: the new gate, the new registry
    /// content, and the action the runtime must perform next. Events that do
    /// not apply to the current phase are ignored; a terminal gate ignores
    /// everything.
    pub open spec fn spec_step(
        g: AuthorizationGate,
        m: Map<Connection, bool>,
        ev: GateEvent,
    ) -> (AuthorizationGate, Map<Connection, bool>, GateAction) {
        let conn = g.connection();
        match (g.phase, ev) {
            (GatePhase::Resolving, GateEvent::Resolved(None)) => (
                // no directory entry: refused before registration
                AuthorizationGate { phase: GatePhase::Done(GateOutcome::UnknownDestination), ..g },
                m,
                GateAction::Close,
            ),
            (GatePhase::Resolving, GateEvent::Resolved(Some(up))) => if m.contains_key(conn) {
                (
                    AuthorizationGate { phase: GatePhase::Done(GateOutcome::DuplicateConnection), ..g },
                    m,
                    GateAction::Close,
                )
            } else {
                // register before the check, so a racing policy change sees
                // this connection while its decision is still pending
                (
                    AuthorizationGate {
                        phase: GatePhase::Authorizing,
                        upstream: Some(up),
                        ..g
                    },
                    m.insert(conn, false),
                    GateAction::Authorize(g.ctx()),
                )
            },
            (GatePhase::Authorizing, GateEvent::Authorized(false)) => (
                AuthorizationGate { phase: GatePhase::Done(GateOutcome::Denied), ..g },
                m.remove(conn),
                GateAction::Close,
            ),
            (GatePhase::Authorizing, GateEvent::Authorized(true)) => if m.contains_key(conn) {
                (
                    AuthorizationGate { phase: GatePhase::Connecting, ..g },
                    m.insert(conn, true),
                    GateAction::ConnectUpstream {
                        bind: if g.preserve_source {
                            g.original_source
                        } else {
                            None
                        },
                        dst: g.dest,
                    },
                )
            } else {
                // revoked while the decision was pending: never relays
                (
                    AuthorizationGate { phase: GatePhase::Done(GateOutcome::Revoked), ..g },
                    m,
                    GateAction::Close,
                )
            },
            (GatePhase::Connecting, GateEvent::UpstreamConnected(false)) => (
                AuthorizationGate { phase: GatePhase::Done(GateOutcome::UpstreamConnectFailed), ..g },
                m.remove(conn),
                GateAction::Close,
            ),
            (GatePhase::Connecting, GateEvent::UpstreamConnected(true)) => (
                AuthorizationGate { phase: GatePhase::Attributing, ..g },
                m,
                GateAction::LookupSource(
                    match g.original_source {
                        Some(ip) => Some(NetworkAddress { network: g.network, address: ip }),
                        None => None,
                    },
                ),
            ),
            (GatePhase::Attributing, GateEvent::SourceResolved(w)) => {
                let g2 = AuthorizationGate {
                    phase: GatePhase::Relaying,
                    source_workload: w,
                    open_emitted: true,
                    ..g
                };
                (g2, m, GateAction::OpenAndRelay(g2.spec_open_record()))
            },
            (GatePhase::Relaying, GateEvent::RelayFinished(end)) => (
                AuthorizationGate {
                    phase: GatePhase::Done(
                        if end.failed {
                            GateOutcome::RelayFailed
                        } else {
                            GateOutcome::Completed
                        },
                    ),
                    close_emitted: true,
                    bytes_sent: end.sent,
                    bytes_received: end.received,
                    ..g
                },
                m.remove(conn),
                GateAction::EmitClose,
            ),
            (GatePhase::Relaying, GateEvent::CancelFired) => (
                // an administrative termination: the revocation that fired
                // the signal already removed the entry, and removing an
                // absent key is a no-op, so release stands on this exit
                // path like on every other
                AuthorizationGate {
                    phase: GatePhase::Done(GateOutcome::AdministrativelyClosed),
                    close_emitted: true,
                    ..g
                },
                m.remove(conn),
                GateAction::EmitClose,
            ),
            _ => (g, m, GateAction::Ignore),
        }
    }

    /// Applies one event; exactly `spec_step` on this machine and the registry.
    /// The second result carries the cancellation receiver, handed out
    /// exactly when an approval finds the entry still present.
    pub fn step(&mut self, ev: GateEvent, cm: &mut ConnectionManager) -> (r: (
        GateAction,
        Option<tokio::sync::watch::Receiver<bool>>,
    ))
        ensures
            ({
                let s = Self::spec_step(*old(self), old(cm)@, ev);
                *final(self) == s.0 && final(cm)@ == s.1 && r.0 == s.2
            }),
            r.1.is_some() == (old(self).phase == GatePhase::Authorizing
                && ev == GateEvent::Authorized(true) && old(cm)@.contains_key(
                old(self).connection(),
            )),
    {
        match (self.phase, ev) {
            (GatePhase::Resolving, GateEvent::Resolved(None)) => {
                self.phase = GatePhase::Done(GateOutcome::UnknownDestination);
                (GateAction::Close, None)
            }
            (GatePhase::Resolving, GateEvent::Resolved(Some(up))) => {
                let ctx = self.make_ctx();
                let fresh = cm.register(&ctx);
                if fresh {
                    self.phase = GatePhase::Authorizing;
                    self.upstream = Some(up);
                    (GateAction::Authorize(ctx), None)
                } else {
                    self.phase = GatePhase::Done(GateOutcome::DuplicateConnection);
                    (GateAction::Close, None)
                }
            }
            (GatePhase::Authorizing, GateEvent::Authorized(false)) => {
                let ctx = self.make_ctx();
                cm.release(&ctx);
                self.phase = GatePhase::Done(GateOutcome::Denied);
                (GateAction::Close, None)
            }
            (GatePhase::Authorizing, GateEvent::Authorized(true)) => {
                let ctx = self.make_ctx();
                match cm.track(&ctx) {
                    Some(rx) => {
                        self.phase = GatePhase::Connecting;
                        let bind = if self.preserve_source {
                            self.original_source
                        } else {
                            None
                        };
                        (GateAction::ConnectUpstream { bind, dst: self.dest }, Some(rx))
                    }
                    None => {
                        self.phase = GatePhase::Done(GateOutcome::Revoked);
                        (GateAction::Close, None)
                    }
                }
            }
            (GatePhase::Connecting, GateEvent::UpstreamConnected(false)) => {
                let ctx = self.make_ctx();
                cm.release(&ctx);
                self.phase = GatePhase::Done(GateOutcome::UpstreamConnectFailed);
                (GateAction::Close, None)
            }
            (GatePhase::Connecting, GateEvent::UpstreamConnected(true)) => {
                self.phase = GatePhase::Attributing;
                let lookup = match self.original_source {
                    Some(ip) => Some(NetworkAddress { network: self.network, address: ip }),
                    None => None,
                };
                (GateAction::LookupSource(lookup), None)
            }
            (GatePhase::Attributing, GateEvent::SourceResolved(w)) => {
                self.phase = GatePhase::Relaying;
                self.source_workload = w;
                self.open_emitted = true;
                (GateAction::OpenAndRelay(self.open_record()), None)
            }
            (GatePhase::Relaying, GateEvent::RelayFinished(end)) => {
                let ctx = self.make_ctx();
                cm.release(&ctx);
                self.phase = GatePhase::Done(
                    if end.failed {
                        GateOutcome::RelayFailed
                    } else {
                        GateOutcome::Completed
                    },
                );
                self.close_emitted = true;
                self.bytes_sent = end.sent;
                self.bytes_received = end.received;
                (GateAction::EmitClose, None)
            }
            (GatePhase::Relaying, GateEvent::CancelFired) => {
                let ctx = self.make_ctx();
                cm.release(&ctx);
                self.phase = GatePhase::Done(GateOutcome::AdministrativelyClosed);
                self.close_emitted = true;
                (GateAction::EmitClose, None)
            }
            _ => (GateAction::Ignore, None),
        }
    }

    /// The machine and the registry after a whole sequence of events, applied
    /// in order through `spec_step`.
    pub open spec fn spec_run(
        g: AuthorizationGate,
        m: Map<Connection, bool>,
        evs: Seq<GateEvent>,
    ) -> (AuthorizationGate, Map<Connection, bool>)
        decreases evs.len(),
    {
        if evs.len() == 0 {
            (g, m)
        } else {
            let s = Self::spec_step(g, m, evs[0]);
            Self::spec_run(s.0, s.1, evs.subrange(1, evs.len() as int))
        }
    }

    /// What one connection's lifecycle is allowed to do to the registry,
    /// relative to the content `m0` it found: exactly its own key is
    /// present while it is registered — tentatively during authorization,
    /// confirmed from tracking onward — and nothing else ever differs.
    pub open spec fn registry_effect(
        g: AuthorizationGate,
        m: Map<Connection, bool>,
        m0: Map<Connection, bool>,
    ) -> bool {
        match g.phase {
            GatePhase::Resolving => m == m0,
            GatePhase::Authorizing => m == m0.insert(g.connection(), false),
            GatePhase::Connecting => m == m0.insert(g.connection(), true),
            GatePhase::Attributing => m == m0.insert(g.connection(), true),
            GatePhase::Relaying => m == m0.insert(g.connection(), true),
            GatePhase::Done(_) => m == m0,
        }
    }

    proof fn lemma_step_registry_effect(
        g: AuthorizationGate,
        m: Map<Connection, bool>,
        m0: Map<Connection, bool>,
        ev: GateEvent,
    )
        requires
            !m0.contains_key(g.connection()),
            Self::registry_effect(g, m, m0),
        ensures
            ({
                let s = Self::spec_step(g, m, ev);
                s.0.connection() == g.connection() && Self::registry_effect(s.0, s.1, m0)
            }),
    {
        let conn = g.connection();
        assert(m0.insert(conn, false).remove(conn) =~= m0);
        assert(m0.insert(conn, true).remove(conn) =~= m0);
        assert(m0.insert(conn, false).insert(conn, true) =~= m0.insert(conn, true));
        assert(m0.remove(conn) =~= m0);
    }

    /// No leak: whatever the directory answers, the policy decides, the
    /// upstream connect and the relay do, and whenever a cancellation fires,
    /// a lifecycle that found its key absent from the registry leaves the
    /// registry exactly as it found it once it is terminal — one release per
    /// registration, on every exit path — and never touches another
    /// connection's entry along the way.
    pub proof fn lemma_run_no_leak(
        g: AuthorizationGate,
        m: Map<Connection, bool>,
        m0: Map<Connection, bool>,
        evs: Seq<GateEvent>,
    )
        requires
            !m0.contains_key(g.connection()),
            Self::registry_effect(g, m, m0),
        ensures
            ({
                let r = Self::spec_run(g, m, evs);
                r.0.connection() == g.connection() && Self::registry_effect(r.0, r.1, m0) && (
                r.0.phase is Done ==> r.1 == m0)
            }),
        decreases evs.len(),
    {
        if evs.len() > 0 {
            Self::lemma_step_registry_effect(g, m, m0, evs[0]);
            let s = Self::spec_step(g, m, evs[0]);
            Self::lemma_run_no_leak(s.0, s.1, m0, evs.subrange(1, evs.len() as int));
        }
    }

    /// The lifecycle law for a fresh connection: from acceptance on, under
    /// every sequence of events, the registry the lifecycle leaves behind at
    /// any terminal phase is the registry it found. With this, a registry
    /// that is empty when all lifecycles have completed is empty.
    pub proof fn lemma_lifecycle_no_leak(
        cfg: Config,
        source: SockAddr,
        orig_dst: SockAddr,
        original_source: Option<IpAddr>,
        m0: Map<Connection, bool>,
        evs: Seq<GateEvent>,
    )
        requires
            !m0.contains_key(Self::spec_begin(cfg, source, orig_dst, original_source).0.connection()),
        ensures
            ({
                let g0 = Self::spec_begin(cfg, source, orig_dst, original_source).0;
                let r = Self::spec_run(g0, m0, evs);
                Self::registry_effect(r.0, r.1, m0) && (r.0.phase is Done ==> r.1 == m0)
            }),
    {
        let g0 = Self::spec_begin(cfg, source, orig_dst, original_source).0;
        Self::lemma_run_no_leak(g0, m0, m0, evs);
    }

    /// The phases in which this connection holds a registry entry it must
    /// still release.
    pub open spec fn registered_phase(self) -> bool {
        ||| self.phase == GatePhase::Authorizing
        ||| self.phase == GatePhase::Connecting
        ||| self.phase == GatePhase::Attributing
        ||| self.phase == GatePhase::Relaying
    }

    /// How many registrations one step performs: one, exactly when a
    /// resolved destination is registered afresh.
    pub open spec fn spec_step_registers(
        g: AuthorizationGate,
        m: Map<Connection, bool>,
        ev: GateEvent,
    ) -> int {
        match (g.phase, ev) {
            (GatePhase::Resolving, GateEvent::Resolved(Some(_))) => if m.contains_key(
                g.connection(),
            ) {
                0
            } else {
                1
            },
            _ => 0,
        }
    }

    /// How many releases one step performs: one on each exit path out of a
    /// registered phase — denial, connect failure, relay end, cancellation.
    pub open spec fn spec_step_releases(
        g: AuthorizationGate,
        m: Map<Connection, bool>,
        ev: GateEvent,
    ) -> int {
        match (g.phase, ev) {
            (GatePhase::Authorizing, GateEvent::Authorized(false)) => 1,
            (GatePhase::Connecting, GateEvent::UpstreamConnected(false)) => 1,
            (GatePhase::Relaying, GateEvent::RelayFinished(_)) => 1,
            (GatePhase::Relaying, GateEvent::CancelFired) => 1,
            _ => 0,
        }
    }

    /// Registrations performed over a whole run.
    pub open spec fn run_registers(
        g: AuthorizationGate,
        m: Map<Connection, bool>,
        evs: Seq<GateEvent>,
    ) -> int
        decreases evs.len(),
    {
        if evs.len() == 0 {
            0
        } else {
            let s = Self::spec_step(g, m, evs[0]);
            Self::spec_step_registers(g, m, evs[0]) + Self::run_registers(
                s.0,
                s.1,
                evs.subrange(1, evs.len() as int),
            )
        }
    }

    /// Releases performed over a whole run.
    pub open spec fn run_releases(
        g: AuthorizationGate,
        m: Map<Connection, bool>,
        evs: Seq<GateEvent>,
    ) -> int
        decreases evs.len(),
    {
        if evs.len() == 0 {
            0
        } else {
            let s = Self::spec_step(g, m, evs[0]);
            Self::spec_step_releases(g, m, evs[0]) + Self::run_releases(
                s.0,
                s.1,
                evs.subrange(1, evs.len() as int),
            )
        }
    }

    /// The bookkeeping behind the no-leak guarantee, counted the way the
    /// registry sees it: over any run of a fresh connection, the releases
    /// performed balance the registrations — while the connection is
    /// registered the difference is exactly one, and from the moment the
    /// lifecycle is terminal the two counts are equal.
    pub proof fn lemma_release_balances_register(
        g: AuthorizationGate,
        m: Map<Connection, bool>,
        m0: Map<Connection, bool>,
        evs: Seq<GateEvent>,
    )
        requires
            !m0.contains_key(g.connection()),
            Self::registry_effect(g, m, m0),
        ensures
            Self::run_registers(g, m, evs) - Self::run_releases(g, m, evs) == (
            if Self::spec_run(g, m, evs).0.registered_phase() {
                1int
            } else {
                0int
            }) - (if g.registered_phase() {
                1int
            } else {
                0int
            }),
        decreases evs.len(),
    {
        if evs.len() > 0 {
            Self::lemma_step_registry_effect(g, m, m0, evs[0]);
            let s = Self::spec_step(g, m, evs[0]);
            Self::lemma_release_balances_register(s.0, s.1, m0, evs.subrange(1, evs.len() as int));
        }
    }

    /// A terminal gate is absorbing: every further event is ignored and the
    /// registry is left alone.
    pub proof fn lemma_done_absorbs(
        g: AuthorizationGate,
        m: Map<Connection, bool>,
        evs: Seq<GateEvent>,
    )
        requires
            g.phase is Done,
        ensures
            Self::spec_run(g, m, evs) == (g, m),
        decreases evs.len(),
    {
        if evs.len() > 0 {
            Self::lemma_done_absorbs(g, m, evs.subrange(1, evs.len() as int));
        }
    }

    /// The revocation race: a connection revoked between registration and
    /// the end of its authorization never reaches the relay stage, even
    /// though the decision approved it — the approval finds the entry gone,
    /// the lifecycle ends `Revoked` at once, and stays there under every later
    /// event.
    pub proof fn lemma_revocation_wins(
        g: AuthorizationGate,
        m: Map<Connection, bool>,
        evs: Seq<GateEvent>,
    )
        requires
            g.phase == GatePhase::Authorizing,
            !m.contains_key(g.connection()),
        ensures
            ({
                let s = Self::spec_step(g, m, GateEvent::Authorized(true));
                s.0.phase == GatePhase::Done(GateOutcome::Revoked) && s.1 == m
                    && Self::spec_run(s.0, s.1, evs).0.phase == GatePhase::Done(
                    GateOutcome::Revoked,
                )
            }),
    {
        let s = Self::spec_step(g, m, GateEvent::Authorized(true));
        Self::lemma_done_absorbs(s.0, s.1, evs);
    }

    /// Registry exclusivity during resolution: a second attempt for an equal
    /// connection, arriving while the first still holds its entry, observes
    /// the existing entry — the registry is unchanged, no second
    /// cancellation channel appears — and the attempt ends as a duplicate
    /// instead of proceeding to authorization.
    pub proof fn lemma_duplicate_observed(
        g: AuthorizationGate,
        m: Map<Connection, bool>,
        up: Upstream,
    )
        requires
            g.phase == GatePhase::Resolving,
            m.contains_key(g.connection()),
        ensures
            ({
                let s = Self::spec_step(g, m, GateEvent::Resolved(Some(up)));
                s.0.phase == GatePhase::Done(GateOutcome::DuplicateConnection) && s.1 == m
            }),
    {
    }

    /// Self-call loop prevention: under shared proxy mode a destination
    /// equal to the process's own address is rejected before any directory
    /// lookup, registration or upstream connect — the machine is born terminal
    /// with `SelfCall`, its only action is to close the socket, and no later
    /// event moves it or the registry.
    pub proof fn lemma_self_call_rejected(
        cfg: Config,
        source: SockAddr,
        orig_dst: SockAddr,
        original_source: Option<IpAddr>,
        m: Map<Connection, bool>,
        evs: Seq<GateEvent>,
    )
        requires
            spec_is_self_call(cfg, orig_dst),
        ensures
            ({
                let b = Self::spec_begin(cfg, source, orig_dst, original_source);
                b.0.phase == GatePhase::Done(GateOutcome::SelfCall) && b.1 == GateAction::Close
                    && Self::spec_run(b.0, m, evs) == (b.0, m)
            }),
    {
        let b = Self::spec_begin(cfg, source, orig_dst, original_source);
        Self::lemma_done_absorbs(b.0, m, evs);
    }

    /// Which phases lie at or beyond the open telemetry record.
    pub open spec fn past_open(self) -> bool {
        ||| self.phase == GatePhase::Relaying
        ||| self.phase == GatePhase::Done(GateOutcome::Completed)
        ||| self.phase == GatePhase::Done(GateOutcome::RelayFailed)
        ||| self.phase == GatePhase::Done(GateOutcome::AdministrativelyClosed)
    }

    /// The telemetry marks agree with the phase: the open record is emitted
    /// exactly on entering the relay stage, the close record exactly on
    /// leaving it, whichever way it is left.
    pub open spec fn telemetry_consistent(self) -> bool {
        &&& self.open_emitted == self.past_open()
        &&& self.close_emitted == (self.past_open() && self.phase is Done)
    }

    /// The telemetry pairing law: a fresh gate has emitted nothing, every
    /// step keeps the marks consistent with the phase, and at any terminal
    /// phase the close record has been emitted exactly when the open record
    /// was — one close per open, none without, on every exit path including
    /// administrative cancellation.
    pub proof fn lemma_telemetry_pairing(
        g: AuthorizationGate,
        m: Map<Connection, bool>,
        evs: Seq<GateEvent>,
    )
        requires
            g.telemetry_consistent(),
        ensures
            ({
                let r = Self::spec_run(g, m, evs);
                r.0.telemetry_consistent() && (r.0.phase is Done ==> r.0.close_emitted
                    == r.0.open_emitted)
            }),
        decreases evs.len(),
    {
        if evs.len() > 0 {
            let s = Self::spec_step(g, m, evs[0]);
            Self::lemma_telemetry_pairing(s.0, s.1, evs.subrange(1, evs.len() as int));
        }
    }

    /// A gate fresh from `spec_begin` starts with consistent telemetry
    /// marks, so the pairing law covers whole lifecycles from acceptance.
    pub proof fn lemma_begin_telemetry(
        cfg: Config,
        source: SockAddr,
        orig_dst: SockAddr,
        original_source: Option<IpAddr>,
    )
        ensures
            Self::spec_begin(cfg, source, orig_dst, original_source).0.telemetry_consistent(),
    {
    }
}

} // verus!
