use ztunnel::config::{Config, ProxyMode};
use ztunnel::gate::{AuthorizationGate, GateAction, GateEvent, GateOutcome, GatePhase};
use ztunnel::relay::RelayEnd;
use ztunnel::net::{IpAddr, NetworkAddress, SockAddr};
use ztunnel::rbac::{Service, Upstream, Workload};
use ztunnel::registry::ConnectionManager;

fn test_config() -> Config {
    Config {
        proxy_mode: ProxyMode::Shared,
        local_ip: Some(IpAddr::V4(0x0a000001)),
        network: 1,
        inbound_plaintext_addr: SockAddr { ip: IpAddr::V4(0x0a000001), port: 15006 },
        enable_original_source: Some(false),
        proxy_workload_info: None,
    }
}

fn src_addr(port: u16) -> SockAddr {
    SockAddr { ip: IpAddr::V4(0x0a000009), port }
}

fn dst_addr() -> SockAddr {
    // 10.0.0.5
    SockAddr { ip: IpAddr::V4(0x0a000005), port: 8080 }
}

fn upstream() -> Upstream {
    Upstream { workload: Workload { id: 3 }, service: Service { id: 4 } }
}

/// Drives a fresh gate up to the relay stage and returns it with its
/// cancellation receiver.
fn gate_at_relay(
    cfg: &Config,
    port: u16,
    cm: &mut ConnectionManager,
) -> (AuthorizationGate, tokio::sync::watch::Receiver<bool>) {
    let (mut gate, action) = AuthorizationGate::begin(cfg, src_addr(port), dst_addr(), None);
    assert!(matches!(action, GateAction::Lookup(_)));
    let (action, _) = gate.step(GateEvent::Resolved(Some(upstream())), cm);
    assert!(matches!(action, GateAction::Authorize(_)));
    let (action, rx) = gate.step(GateEvent::Authorized(true), cm);
    assert!(matches!(action, GateAction::ConnectUpstream { .. }));
    let rx = rx.expect("tracked");
    let (action, _) = gate.step(GateEvent::UpstreamConnected(true), cm);
    assert!(matches!(action, GateAction::LookupSource(_)));
    let (action, _) = gate.step(GateEvent::SourceResolved(None), cm);
    assert!(matches!(action, GateAction::OpenAndRelay(_)));
    assert_eq!(gate.phase, GatePhase::Relaying);
    assert!(gate.open_emitted);
    (gate, rx)
}

#[test]
fn self_call_is_rejected_before_any_lookup() {
    let cfg = test_config();
    let own = SockAddr { ip: IpAddr::V4(0x0a000001), port: 8080 };
    let (gate, action) = AuthorizationGate::begin(&cfg, src_addr(41000), own, None);
    assert_eq!(gate.phase, GatePhase::Done(GateOutcome::SelfCall));
    assert_eq!(action, GateAction::Close);
    assert!(!gate.open_emitted);
}

#[test]
fn dedicated_mode_has_no_self_call() {
    let mut cfg = test_config();
    cfg.proxy_mode = ProxyMode::Dedicated;
    let own = SockAddr { ip: IpAddr::V4(0x0a000001), port: 8080 };
    let (gate, action) = AuthorizationGate::begin(&cfg, src_addr(41000), own, None);
    assert_eq!(gate.phase, GatePhase::Resolving);
    assert_eq!(
        action,
        GateAction::Lookup(NetworkAddress { network: 1, address: IpAddr::V4(0x0a000001) })
    );
}

#[test]
fn unknown_destination_refused_before_registration() {
    let cfg = test_config();
    let mut cm = ConnectionManager::new();
    let (mut gate, action) = AuthorizationGate::begin(&cfg, src_addr(41000), dst_addr(), None);
    assert_eq!(
        action,
        GateAction::Lookup(NetworkAddress { network: 1, address: IpAddr::V4(0x0a000005) })
    );
    let (action, rx) = gate.step(GateEvent::Resolved(None), &mut cm);
    assert_eq!(action, GateAction::Close);
    assert!(rx.is_none());
    assert_eq!(gate.phase, GatePhase::Done(GateOutcome::UnknownDestination));
    assert!(!gate.open_emitted);
    assert_eq!(cm.len(), 0);
}

#[test]
fn denial_returns_registry_to_baseline() {
    let cfg = test_config();
    let mut cm = ConnectionManager::new();
    let (mut gate, _) = AuthorizationGate::begin(&cfg, src_addr(41000), dst_addr(), None);
    let (action, _) = gate.step(GateEvent::Resolved(Some(upstream())), &mut cm);
    assert_eq!(action, GateAction::Authorize(gate.make_ctx()));
    assert_eq!(cm.len(), 1);
    let (action, rx) = gate.step(GateEvent::Authorized(false), &mut cm);
    assert_eq!(action, GateAction::Close);
    assert!(rx.is_none());
    assert_eq!(gate.phase, GatePhase::Done(GateOutcome::Denied));
    assert_eq!(cm.len(), 0);
    assert!(!gate.open_emitted);
    assert_eq!(gate.bytes_sent, 0);
    assert_eq!(gate.bytes_received, 0);
}

#[test]
fn completed_relay_reports_counters_and_releases() {
    let cfg = test_config();
    let mut cm = ConnectionManager::new();
    let (mut gate, _rx) = gate_at_relay(&cfg, 41000, &mut cm);
    assert_eq!(cm.len(), 1);
    let end = RelayEnd { failed: false, sent: 1000, received: 500 };
    let (action, _) = gate.step(GateEvent::RelayFinished(end), &mut cm);
    assert_eq!(action, GateAction::EmitClose);
    assert_eq!(gate.phase, GatePhase::Done(GateOutcome::Completed));
    assert_eq!(gate.bytes_sent, 1000);
    assert_eq!(gate.bytes_received, 500);
    assert!(gate.open_emitted);
    assert!(gate.close_emitted);
    assert_eq!(cm.len(), 0);
}

#[test]
fn relay_error_still_releases_and_closes() {
    let cfg = test_config();
    let mut cm = ConnectionManager::new();
    let (mut gate, _rx) = gate_at_relay(&cfg, 41000, &mut cm);
    let end = RelayEnd { failed: true, sent: 17, received: 0 };
    let (action, _) = gate.step(GateEvent::RelayFinished(end), &mut cm);
    assert_eq!(action, GateAction::EmitClose);
    assert_eq!(gate.phase, GatePhase::Done(GateOutcome::RelayFailed));
    assert!(gate.close_emitted);
    assert_eq!(cm.len(), 0);
}

#[test]
fn revocation_during_authorization_blocks_relay() {
    let cfg = test_config();
    let mut cm = ConnectionManager::new();
    let (mut gate, _) = AuthorizationGate::begin(&cfg, src_addr(41000), dst_addr(), None);
    let _ = gate.step(GateEvent::Resolved(Some(upstream())), &mut cm);
    assert_eq!(cm.len(), 1);
    cm.revoke(&gate.make_ctx().conn);
    assert_eq!(cm.len(), 0);
    let (action, rx) = gate.step(GateEvent::Authorized(true), &mut cm);
    assert_eq!(action, GateAction::Close);
    assert!(rx.is_none());
    assert_eq!(gate.phase, GatePhase::Done(GateOutcome::Revoked));
    assert!(!gate.open_emitted);
    assert_eq!(cm.len(), 0);
}

#[test]
fn concurrent_equal_connection_ends_duplicate() {
    let cfg = test_config();
    let mut cm = ConnectionManager::new();
    let (mut first, _) = AuthorizationGate::begin(&cfg, src_addr(41000), dst_addr(), None);
    let _ = first.step(GateEvent::Resolved(Some(upstream())), &mut cm);
    assert_eq!(cm.len(), 1);

    let (mut second, _) = AuthorizationGate::begin(&cfg, src_addr(41000), dst_addr(), None);
    let (action, rx) = second.step(GateEvent::Resolved(Some(upstream())), &mut cm);
    assert_eq!(action, GateAction::Close);
    assert!(rx.is_none());
    assert_eq!(second.phase, GatePhase::Done(GateOutcome::DuplicateConnection));
    // the first attempt's entry is untouched, and its own release clears it
    assert_eq!(cm.len(), 1);
    let _ = first.step(GateEvent::Authorized(false), &mut cm);
    assert_eq!(cm.len(), 0);
}

#[test]
fn upstream_connect_failure_releases_entry() {
    let cfg = test_config();
    let mut cm = ConnectionManager::new();
    let (mut gate, _) = AuthorizationGate::begin(&cfg, src_addr(41000), dst_addr(), None);
    let _ = gate.step(GateEvent::Resolved(Some(upstream())), &mut cm);
    let _ = gate.step(GateEvent::Authorized(true), &mut cm);
    let (action, _) = gate.step(GateEvent::UpstreamConnected(false), &mut cm);
    assert_eq!(action, GateAction::Close);
    assert_eq!(gate.phase, GatePhase::Done(GateOutcome::UpstreamConnectFailed));
    assert!(!gate.open_emitted);
    assert_eq!(cm.len(), 0);
}

#[test]
fn cancellation_mid_relay_closes_cleanly() {
    let cfg = test_config();
    let mut cm = ConnectionManager::new();
    let (mut gate, rx) = gate_at_relay(&cfg, 41000, &mut cm);
    cm.revoke(&gate.make_ctx().conn);
    assert!(*rx.borrow());
    assert_eq!(cm.len(), 0);
    let (action, _) = gate.step(GateEvent::CancelFired, &mut cm);
    assert_eq!(action, GateAction::EmitClose);
    assert_eq!(gate.phase, GatePhase::Done(GateOutcome::AdministrativelyClosed));
    assert!(gate.close_emitted);
    assert_eq!(cm.len(), 0);
}

#[test]
fn original_source_binds_upstream_when_preserved() {
    let mut cfg = test_config();
    cfg.enable_original_source = Some(true);
    let mut cm = ConnectionManager::new();
    let orig_src = IpAddr::V4(0x0a000009);
    let (mut gate, _) =
        AuthorizationGate::begin(&cfg, src_addr(41000), dst_addr(), Some(orig_src));
    let _ = gate.step(GateEvent::Resolved(Some(upstream())), &mut cm);
    let (action, _) = gate.step(GateEvent::Authorized(true), &mut cm);
    assert_eq!(action, GateAction::ConnectUpstream { bind: Some(orig_src), dst: dst_addr() });
    let (action, _) = gate.step(GateEvent::UpstreamConnected(true), &mut cm);
    assert_eq!(
        action,
        GateAction::LookupSource(Some(NetworkAddress { network: 1, address: orig_src }))
    );
}

#[test]
fn original_source_not_bound_when_preservation_off() {
    let cfg = test_config();
    let mut cm = ConnectionManager::new();
    let orig_src = IpAddr::V4(0x0a000009);
    let (mut gate, _) =
        AuthorizationGate::begin(&cfg, src_addr(41000), dst_addr(), Some(orig_src));
    let _ = gate.step(GateEvent::Resolved(Some(upstream())), &mut cm);
    let (action, _) = gate.step(GateEvent::Authorized(true), &mut cm);
    // not bound upstream, but source attribution still uses the address
    assert_eq!(action, GateAction::ConnectUpstream { bind: None, dst: dst_addr() });
    let (action, _) = gate.step(GateEvent::UpstreamConnected(true), &mut cm);
    assert_eq!(
        action,
        GateAction::LookupSource(Some(NetworkAddress { network: 1, address: orig_src }))
    );
}

#[test]
fn open_record_carries_attribution() {
    let cfg = test_config();
    let mut cm = ConnectionManager::new();
    let (mut gate, _) = AuthorizationGate::begin(&cfg, src_addr(41000), dst_addr(), None);
    let _ = gate.step(GateEvent::Resolved(Some(upstream())), &mut cm);
    let _ = gate.step(GateEvent::Authorized(true), &mut cm);
    let _ = gate.step(GateEvent::UpstreamConnected(true), &mut cm);
    let source_workload = Workload { id: 11 };
    let (action, _) = gate.step(GateEvent::SourceResolved(Some(source_workload)), &mut cm);
    match action {
        GateAction::OpenAndRelay(record) => {
            assert_eq!(record.source, Some(source_workload));
            assert_eq!(record.src_identity, None);
            assert_eq!(record.destination, Some(Workload { id: 3 }));
            assert_eq!(record.destination_service, Some(Service { id: 4 }));
        }
        other => panic!("expected the relay to open, got {:?}", other),
    }
}

#[test]
fn events_out_of_phase_are_ignored() {
    let cfg = test_config();
    let mut cm = ConnectionManager::new();
    let (mut gate, _) = AuthorizationGate::begin(&cfg, src_addr(41000), dst_addr(), None);
    let (action, rx) = gate.step(GateEvent::Authorized(true), &mut cm);
    assert_eq!(action, GateAction::Ignore);
    assert!(rx.is_none());
    assert_eq!(gate.phase, GatePhase::Resolving);
    assert_eq!(cm.len(), 0);
}
