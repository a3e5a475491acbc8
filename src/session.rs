use vstd::prelude::*;

use crate::address::{multiaddr_accepts, multiaddr_of, parse_multiaddr, with_peer};

verus! {

#[verifier::external_type_specification]
#[verifier::external_body]
pub struct ExPingEvent(libp2p::ping::Event);

/// How a session finds the peers it connects to.
#[derive(Clone, Copy, Debug, PartialEq, Eq, Structural)]
pub enum DiscoveryMode {
    /// Peers announce themselves on the local network and are dialed as found.
    Automatic,
    /// At most one peer address is given on the command line.
    Manual,
}

/// Why a session could not start.
#[derive(Clone, Copy, Debug, PartialEq, Eq, Structural)]
pub enum StartupError {
    /// The local listen address is not a well-formed address.
    BadListenAddress,
    /// The manually given peer address is not a well-formed address.
    BadPeerAddress,
}

/// Whether a session in this mode looks for peers on the local network; in
/// manual mode discovery is off, so only the given peer is dialed.
pub fn discovers(mode: DiscoveryMode) -> (r: bool)
    ensures
        r == (mode == DiscoveryMode::Automatic),
{
    match mode {
        DiscoveryMode::Automatic => true,
        DiscoveryMode::Manual => false,
    }
}

/// The address the listener binds to: every interface, a port the system picks.
pub open spec fn listen_text() -> Seq<char> {
    "/ip4/0.0.0.0/tcp/0"@
}

/// What a session does before it consumes any event.
pub struct StartupPlan {
    pub listen: libp2p::Multiaddr,
    pub dial: Option<libp2p::Multiaddr>,
}

/// Whether startup owes success: the listen address parses, and a manual peer
/// address, where one is given, parses too.
pub open spec fn startup_succeeds(mode: DiscoveryMode, arg: Option<Seq<char>>) -> bool {
    multiaddr_accepts(listen_text()) && match (mode, arg) {
        (DiscoveryMode::Manual, Some(s)) => multiaddr_accepts(s),
        _ => true,
    }
}

/// The text of an optional argument.
pub open spec fn opt_view(arg: Option<&str>) -> Option<Seq<char>> {
    match arg {
        Some(s) => Some(s@),
        None => None,
    }
}

/// Decides the startup of a session: the address to listen on, and in manual
/// mode the one peer to dial, if an address was given. A malformed address ends
/// startup with an error, before any event is consumed.
pub fn plan_startup(mode: DiscoveryMode, arg: Option<&str>) -> (r: Result<StartupPlan, StartupError>)
    ensures
        r.is_ok() == startup_succeeds(mode, opt_view(arg)),
        !multiaddr_accepts(listen_text()) ==> r == Err::<StartupPlan, StartupError>(
            StartupError::BadListenAddress,
        ),
        multiaddr_accepts(listen_text()) && !startup_succeeds(mode, opt_view(arg)) ==> r
            == Err::<StartupPlan, StartupError>(StartupError::BadPeerAddress),
        r matches Ok(p) ==> (p.dial.is_some() <==> (mode == DiscoveryMode::Manual && arg.is_some())),
        r matches Ok(p) ==> p.listen == multiaddr_of(listen_text()),
        r matches Ok(p) ==> (p.dial matches Some(d) ==> (arg matches Some(s) && d == multiaddr_of(
            s@,
        ))),
{
    let listen_str = "/ip4/0.0.0.0/tcp/0";
    proof {
        reveal_strlit("/ip4/0.0.0.0/tcp/0");
    }
    let listen = match parse_multiaddr(listen_str) {
        Ok(a) => a,
        Err(_) => {
            return Err(StartupError::BadListenAddress);
        },
    };
    let dial = match (mode, arg) {
        (DiscoveryMode::Manual, Some(s)) => match parse_multiaddr(s) {
            Ok(a) => Some(a),
            Err(_) => {
                return Err(StartupError::BadPeerAddress);
            },
        },
        _ => None,
    };
    Ok(StartupPlan { listen, dial })
}

/// An occurrence reported by the network stack, as the session sees it.
pub enum SessionEvent {
    /// The listener is bound to this address.
    NewListenAddr(libp2p::Multiaddr),
    /// A liveness probe completed, or failed.
    Ping(libp2p::ping::Event),
    /// Peers found on the local network, each with an address.
    Discovered(Vec<(libp2p::PeerId, libp2p::Multiaddr)>),
    /// Peers whose announcement is no longer valid.
    Expired(Vec<(libp2p::PeerId, libp2p::Multiaddr)>),
    /// Any other event: connection-level events and the like.
    Other,
}

/// What the session asks its runner to do: bind, connect, or print a report.
pub enum Action {
    /// Bind the listener to this address.
    Listen(libp2p::Multiaddr),
    /// Connect to this address.
    Dial(libp2p::Multiaddr),
    /// Report the address the listener is bound to.
    ReportListening(libp2p::Multiaddr),
    /// Report the outcome of a liveness probe.
    ReportPing(libp2p::ping::Event),
    /// Report a peer found on the local network, at an address.
    ReportDiscovered(libp2p::PeerId, libp2p::Multiaddr),
    /// Report a peer whose announcement expired.
    ReportExpired(libp2p::PeerId, libp2p::Multiaddr),
}

#[derive(Clone, Copy, Debug, PartialEq, Eq, Structural)]
pub enum Phase {
    /// Nothing is bound yet.
    Idle,
    /// The listener is up and events are consumed; this phase has no end.
    Listening,
}

/// The lifecycle of a peer session.
pub struct Session {
    phase: Phase,
}

/// The actions of startup: bind the listener first, then dial the given peer.
pub open spec fn start_actions(plan: StartupPlan) -> Seq<Action> {
    match plan.dial {
        Some(d) => seq![Action::Listen(plan.listen), Action::Dial(d)],
        None => seq![Action::Listen(plan.listen)],
    }
}

/// The actions that answer one event, in the order of the event's contents.
/// Each discovered peer is reported and then dialed.
pub open spec fn event_actions(ev: SessionEvent, acts: Seq<Action>) -> bool {
    match ev {
        SessionEvent::NewListenAddr(a) => acts == seq![Action::ReportListening(a)],
        SessionEvent::Ping(e) => acts == seq![Action::ReportPing(e)],
        SessionEvent::Discovered(list) => {
            &&& acts.len() == 2 * list@.len()
            &&& forall|k: int|
                0 <= k < acts.len() ==> {
                    &&& k % 2 == 0 ==> #[trigger] acts[k] == Action::ReportDiscovered(
                        list@[k / 2].0,
                        list@[k / 2].1,
                    )
                    &&& k % 2 == 1 ==> acts[k] is Dial
                }
        },
        SessionEvent::Expired(list) => {
            &&& acts.len() == list@.len()
            &&& forall|j: int|
                0 <= j < list@.len() ==> acts[j] == Action::ReportExpired(
                    (#[trigger] list@[j]).0,
                    list@[j].1,
                )
        },
        SessionEvent::Other => acts.len() == 0,
    }
}


impl Session {
    pub closed spec fn phase_of(&self) -> Phase {
        self.phase
    }

    pub fn new() -> (r: Session)
        ensures
            r.phase_of() == Phase::Idle,
    {
        Session { phase: Phase::Idle }
    }

    pub fn phase(&self) -> (r: Phase)
        ensures
            r == self.phase_of(),
    {
        self.phase
    }

    /// Leaves `Idle` for `Listening` and returns the startup actions; a session
    /// that already listens stays as it is and does nothing.
    pub fn start(&mut self, plan: StartupPlan) -> (r: Vec<Action>)
        ensures
            final(self).phase_of() == Phase::Listening,
            old(self).phase_of() == Phase::Idle ==> r@ == start_actions(plan),
            old(self).phase_of() == Phase::Listening ==> r@.len() == 0,
    {
        match self.phase {
            Phase::Idle => {
                self.phase = Phase::Listening;
                let mut out: Vec<Action> = Vec::new();
                out.push(Action::Listen(plan.listen));
                match plan.dial {
                    Some(d) => out.push(Action::Dial(d)),
                    None => {},
                }
                proof {
                    assert(out@ =~= start_actions(plan));
                }
                out
            },
            Phase::Listening => Vec::new(),
        }
    }

    /// Answers one event. Before startup nothing is consumed, so nothing is
    /// reported.
    pub fn handle_event(&self, ev: SessionEvent) -> (r: Vec<Action>)
        ensures
            self.phase_of() == Phase::Idle ==> r@.len() == 0,
            self.phase_of() == Phase::Listening ==> event_actions(ev, r@),
    {
        let mut out: Vec<Action> = Vec::new();
        if self.phase == Phase::Idle {
            return out;
        }
        match ev {
            SessionEvent::NewListenAddr(a) => {
                out.push(Action::ReportListening(a));
                proof {
                    assert(out@ =~= seq![Action::ReportListening(a)]);
                }
            },
            SessionEvent::Ping(e) => {
                out.push(Action::ReportPing(e));
                proof {
                    assert(out@ =~= seq![Action::ReportPing(e)]);
                }
            },
            SessionEvent::Discovered(list) => {
                let n = list.len();
                let mut i: usize = 0;
                while i < n
                    invariant
                        n == list@.len(),
                        i <= n,
                        out@.len() == 2 * i,
                        forall|k: int|
                            0 <= k < out@.len() ==> {
                                &&& k % 2 == 0 ==> #[trigger] out@[k] == Action::ReportDiscovered(
                                    list@[k / 2].0,
                                    list@[k / 2].1,
                                )
                                &&& k % 2 == 1 ==> out@[k] is Dial
                            },
                    decreases n - i,
                {
                    let peer = list[i].0;
                    let addr = list[i].1.clone();
                    out.push(Action::ReportDiscovered(peer, addr));
                    let target = with_peer(list[i].1.clone(), peer);
                    out.push(Action::Dial(target));
                    i = i + 1;
                }
            },
            SessionEvent::Expired(list) => {
                let n = list.len();
                let mut i: usize = 0;
                while i < n
                    invariant
                        n == list@.len(),
                        i <= n,
                        out@.len() == i,
                        forall|j: int|
                            0 <= j < i ==> out@[j] == Action::ReportExpired(
                                (#[trigger] list@[j]).0,
                                list@[j].1,
                            ),
                    decreases n - i,
                {
                    let peer = list[i].0;
                    let addr = list[i].1.clone();
                    out.push(Action::ReportExpired(peer, addr));
                    i = i + 1;
                }
            },
            SessionEvent::Other => {},
        }
        out
    }
}

/// Startup binds the listener before anything else: its first action is
/// `Listen` on the planned address, and every later action is a dial.
pub proof fn lemma_listen_comes_first(plan: StartupPlan)
    ensures
        start_actions(plan).len() >= 1,
        start_actions(plan)[0] == Action::Listen(plan.listen),
        forall|i: int| 1 <= i < start_actions(plan).len() ==> #[trigger] start_actions(plan)[i] is Dial,
{
}

/// Startup dials once for a planned peer and not at all without one.
pub proof fn lemma_startup_dials(plan: StartupPlan)
    ensures
        plan.dial is None ==> forall|i: int|
            0 <= i < start_actions(plan).len() ==> !(#[trigger] start_actions(plan)[i] is Dial),
        plan.dial is Some ==> exists|i: int|
            0 <= i < start_actions(plan).len() && #[trigger] start_actions(plan)[i] is Dial
                && forall|j: int|
                0 <= j < start_actions(plan).len() && j != i ==> !(#[trigger] start_actions(plan)[j] is Dial),
{
    if plan.dial is Some {
        assert(start_actions(plan)[1] is Dial);
    }
}

} // verus!
