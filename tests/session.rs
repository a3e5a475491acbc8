use std::time::Duration;

use libp2p::multiaddr::Protocol;
use libp2p::{Multiaddr, PeerId};
use p2p_notes::record::Note;
use p2p_notes::session::{
    discovers, plan_startup, Action, DiscoveryMode, Phase, Session, SessionEvent, StartupError, StartupPlan,
};

fn addr(s: &str) -> Multiaddr {
    s.parse().unwrap()
}

fn started(plan: StartupPlan) -> Session {
    let mut s = Session::new();
    s.start(plan);
    s
}

fn plain_plan() -> StartupPlan {
    plan_startup(DiscoveryMode::Automatic, None).unwrap()
}

#[test]
fn listen_address_is_any_interface_any_port() {
    let plan = plain_plan();
    assert_eq!(plan.listen, addr("/ip4/0.0.0.0/tcp/0"));
    assert!(plan.dial.is_none());
}

#[test]
fn manual_without_argument_plans_no_dial() {
    let plan = plan_startup(DiscoveryMode::Manual, None).unwrap();
    assert!(plan.dial.is_none());
    let acts = Session::new().start(plan);
    assert_eq!(acts.len(), 1);
    assert!(matches!(acts[0], Action::Listen(_)));
}

#[test]
fn manual_with_address_plans_one_dial() {
    let plan = plan_startup(DiscoveryMode::Manual, Some("/ip4/127.0.0.1/tcp/4001")).unwrap();
    assert_eq!(plan.dial, Some(addr("/ip4/127.0.0.1/tcp/4001")));
    let acts = Session::new().start(plan);
    assert_eq!(acts.len(), 2);
    match &acts[0] {
        Action::Listen(a) => assert_eq!(*a, addr("/ip4/0.0.0.0/tcp/0")),
        _ => panic!("first action must bind the listener"),
    }
    match &acts[1] {
        Action::Dial(a) => assert_eq!(*a, addr("/ip4/127.0.0.1/tcp/4001")),
        _ => panic!("second action must dial"),
    }
}

#[test]
fn manual_with_malformed_address_fails() {
    let r = plan_startup(DiscoveryMode::Manual, Some("not-an-address"));
    assert!(matches!(r, Err(StartupError::BadPeerAddress)));
    let r = plan_startup(DiscoveryMode::Manual, Some("/ip4/999.0.0.1/tcp/1"));
    assert!(matches!(r, Err(StartupError::BadPeerAddress)));
}

#[test]
fn automatic_mode_ignores_argument() {
    let plan = plan_startup(DiscoveryMode::Automatic, Some("not-an-address")).unwrap();
    assert!(plan.dial.is_none());
}

#[test]
fn start_moves_idle_to_listening_once() {
    let mut s = Session::new();
    assert_eq!(s.phase(), Phase::Idle);
    assert_eq!(s.start(plain_plan()).len(), 1);
    assert_eq!(s.phase(), Phase::Listening);
    assert_eq!(s.start(plain_plan()).len(), 0);
    assert_eq!(s.phase(), Phase::Listening);
}

#[test]
fn idle_session_reports_nothing() {
    let s = Session::new();
    let acts = s.handle_event(SessionEvent::NewListenAddr(addr("/ip4/127.0.0.1/tcp/5000")));
    assert!(acts.is_empty());
}

#[test]
fn listen_address_is_reported() {
    let s = started(plain_plan());
    let acts = s.handle_event(SessionEvent::NewListenAddr(addr("/ip4/127.0.0.1/tcp/5000")));
    assert_eq!(acts.len(), 1);
    match &acts[0] {
        Action::ReportListening(a) => assert_eq!(*a, addr("/ip4/127.0.0.1/tcp/5000")),
        _ => panic!("expected a listen report"),
    }
}

#[test]
fn ping_is_reported() {
    let s = started(plain_plan());
    let peer = PeerId::random();
    let ev = libp2p::ping::Event {
        peer,
        connection: libp2p::swarm::ConnectionId::new_unchecked(7),
        result: Ok(Duration::from_millis(12)),
    };
    let acts = s.handle_event(SessionEvent::Ping(ev));
    assert_eq!(acts.len(), 1);
    match &acts[0] {
        Action::ReportPing(e) => {
            assert_eq!(e.peer, peer);
            assert_eq!(*e.result.as_ref().unwrap(), Duration::from_millis(12));
        }
        _ => panic!("expected a ping report"),
    }
}

#[test]
fn discovered_peers_are_reported_and_dialed_in_order() {
    let s = started(plain_plan());
    let p1 = PeerId::random();
    let p2 = PeerId::random();
    let a1 = addr("/ip4/192.168.1.2/tcp/4001");
    let a2 = addr("/ip4/192.168.1.3/tcp/4002");
    let acts = s.handle_event(SessionEvent::Discovered(vec![(p1, a1.clone()), (p2, a2.clone())]));
    assert_eq!(acts.len(), 4);
    match &acts[0] {
        Action::ReportDiscovered(p, a) => {
            assert_eq!(*p, p1);
            assert_eq!(*a, a1);
        }
        _ => panic!("expected a discovery report"),
    }
    match &acts[1] {
        Action::Dial(a) => {
            assert_ne!(*a, a1);
            assert_eq!(*a, a1.clone().with(Protocol::P2p(p1)));
        }
        _ => panic!("expected a dial"),
    }
    match &acts[2] {
        Action::ReportDiscovered(p, a) => {
            assert_eq!(*p, p2);
            assert_eq!(*a, a2);
        }
        _ => panic!("expected a discovery report"),
    }
    match &acts[3] {
        Action::Dial(a) => assert_eq!(*a, a2.clone().with(Protocol::P2p(p2))),
        _ => panic!("expected a dial"),
    }
}

#[test]
fn no_peers_discovered_means_no_action() {
    let s = started(plain_plan());
    assert!(s.handle_event(SessionEvent::Discovered(Vec::new())).is_empty());
}

#[test]
fn expired_peers_are_reported_without_dial() {
    let s = started(plain_plan());
    let p1 = PeerId::random();
    let a1 = addr("/ip4/192.168.1.2/tcp/4001");
    let acts = s.handle_event(SessionEvent::Expired(vec![(p1, a1.clone())]));
    assert_eq!(acts.len(), 1);
    match &acts[0] {
        Action::ReportExpired(p, a) => {
            assert_eq!(*p, p1);
            assert_eq!(*a, a1);
        }
        _ => panic!("expected an expiry report"),
    }
}

#[test]
fn other_events_are_ignored() {
    let s = started(plain_plan());
    assert!(s.handle_event(SessionEvent::Other).is_empty());
}

#[test]
fn note_holds_its_fields() {
    let n = Note::new(1, "Test Note".to_string(), "Hello DOC - Physics efficient storage".to_string());
    assert_eq!(n.id, 1);
    assert_eq!(n.title, "Test Note");
    assert_eq!(n.content, "Hello DOC - Physics efficient storage");
}

#[test]
fn only_automatic_mode_discovers() {
    assert!(discovers(DiscoveryMode::Automatic));
    assert!(!discovers(DiscoveryMode::Manual));
}
