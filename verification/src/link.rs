//! The network link's retry state machine. The manager first associates
//! with the access point, then keeps exactly one outbound TCP connection
//! alive and sends a fixed heartbeat line once a second. Every failure at
//! every layer is retried forever with a fixed one-second delay: an
//! association failure retries association, a connect or write failure
//! discards the socket and retries the connect, and nothing bubbles up.
//! The radio, the network stack and the socket I/O live outside this
//! crate; the loop out there asks `next_action` what to attempt, performs
//! it, and reports the outcome through `on_event`.

use vstd::prelude::*;

verus! {

/// Delay before retrying after an association or connect failure.
pub const RETRY_DELAY_MS: u64 = 1000;

/// Delay between two successful heartbeat writes.
pub const HEARTBEAT_PERIOD_MS: u64 = 1000;

/// Idle/connect timeout set on every socket before connecting.
pub const CONNECT_TIMEOUT_MS: u64 = 5000;

/// Capacity of the send and receive buffers allocated for each socket's
/// lifetime; a fresh socket gets fresh buffers.
pub const SOCKET_BUFFER_SIZE: usize = 128;

/// TCP port of the fixed telemetry peer.
pub const SERVER_PORT: u16 = 9001;

/// Lifecycle of the network layer. A connect or write failure falls back
/// to `Disconnected` without redoing association; association never has
/// to be redone once it succeeded.
#[derive(Clone, Copy, PartialEq, Eq, Structural, Debug)]
pub enum LinkState {
    /// Not yet associated with the access point.
    Associating,
    /// Associated, no live connection.
    Disconnected,
    /// Associated with a live connection, sending heartbeats.
    Connected,
}

/// The outcome of one attempt the manager asked for.
#[derive(Clone, Copy, PartialEq, Eq, Structural, Debug)]
pub enum LinkEvent {
    AssocOk,
    AssocFailed,
    ConnectOk,
    ConnectFailed,
    WriteOk,
    WriteFailed,
}

/// What the manager attempts next in each state.
#[derive(Clone, Copy, PartialEq, Eq, Structural, Debug)]
pub enum LinkAction {
    /// Join the access point with the configured credentials.
    Associate,
    /// Open a fresh socket (new buffers, `CONNECT_TIMEOUT_MS` timeout) to
    /// the fixed peer.
    Connect,
    /// Write the heartbeat payload on the live socket.
    SendHeartbeat,
}

/// Which outcomes can be reported in which state: each state has exactly
/// one attempt in flight, and only that attempt's outcome fits.
pub open spec fn event_fits(state: LinkState, event: LinkEvent) -> bool {
    match state {
        LinkState::Associating => event is AssocOk || event is AssocFailed,
        LinkState::Disconnected => event is ConnectOk || event is ConnectFailed,
        LinkState::Connected => event is WriteOk || event is WriteFailed,
    }
}

/// The transition table: successes move forward, an association failure
/// stays in `Associating`, and a connect or write failure lands in
/// `Disconnected`.
pub open spec fn next_state(state: LinkState, event: LinkEvent) -> LinkState {
    match event {
        LinkEvent::AssocOk => LinkState::Disconnected,
        LinkEvent::AssocFailed => LinkState::Associating,
        LinkEvent::ConnectOk => LinkState::Connected,
        LinkEvent::ConnectFailed => LinkState::Disconnected,
        LinkEvent::WriteOk => LinkState::Connected,
        LinkEvent::WriteFailed => LinkState::Disconnected,
    }
}

/// How long to wait before the next attempt: the fixed retry delay after
/// a failed association or connect, the heartbeat period after a
/// successful write, and no delay otherwise (a failed write reconnects at
/// once with a fresh socket). The delay never grows with repeated
/// failures.
pub open spec fn delay_after(event: LinkEvent) -> u64 {
    match event {
        LinkEvent::AssocOk => 0,
        LinkEvent::AssocFailed => RETRY_DELAY_MS,
        LinkEvent::ConnectOk => 0,
        LinkEvent::ConnectFailed => RETRY_DELAY_MS,
        LinkEvent::WriteOk => HEARTBEAT_PERIOD_MS,
        LinkEvent::WriteFailed => 0,
    }
}

/// The action attempted in each state.
pub open spec fn action_for(state: LinkState) -> LinkAction {
    match state {
        LinkState::Associating => LinkAction::Associate,
        LinkState::Disconnected => LinkAction::Connect,
        LinkState::Connected => LinkAction::SendHeartbeat,
    }
}

/// The state left after a whole sequence of outcomes.
pub open spec fn run_events(state: LinkState, events: Seq<LinkEvent>) -> LinkState
    decreases events.len(),
{
    if events.len() == 0 {
        state
    } else {
        run_events(next_state(state, events[0]), events.skip(1))
    }
}

/// The manager's whole persistent state: where in the lifecycle it
/// stands. Sockets, buffers and the radio handle are owned by the loop
/// outside; the manager only decides.
pub struct Connection {
    pub state: LinkState,
}

impl Connection {
    /// A fresh manager starts by associating.
    pub fn init() -> (c: Connection)
        ensures
            c.state == LinkState::Associating,
    {
        Connection { state: LinkState::Associating }
    }

    /// What to attempt now.
    pub fn next_action(&self) -> (action: LinkAction)
        ensures
            action == action_for(self.state),
    {
        match self.state {
            LinkState::Associating => LinkAction::Associate,
            LinkState::Disconnected => LinkAction::Connect,
            LinkState::Connected => LinkAction::SendHeartbeat,
        }
    }

    /// Record one attempt's outcome; the result is how many milliseconds
    /// to wait before the next attempt.
    pub fn on_event(&mut self, event: LinkEvent) -> (delay_ms: u64)
        requires
            event_fits(old(self).state, event),
        ensures
            final(self).state == next_state(old(self).state, event),
            delay_ms == delay_after(event),
    {
        match event {
            LinkEvent::AssocOk => {
                self.state = LinkState::Disconnected;
                0
            },
            LinkEvent::AssocFailed => {
                self.state = LinkState::Associating;
                RETRY_DELAY_MS
            },
            LinkEvent::ConnectOk => {
                self.state = LinkState::Connected;
                0
            },
            LinkEvent::ConnectFailed => {
                self.state = LinkState::Disconnected;
                RETRY_DELAY_MS
            },
            LinkEvent::WriteOk => {
                self.state = LinkState::Connected;
                HEARTBEAT_PERIOD_MS
            },
            LinkEvent::WriteFailed => {
                self.state = LinkState::Disconnected;
                0
            },
        }
    }
}

/// The heartbeat payload written once a second: one fixed ASCII line.
pub open spec fn heartbeat_bytes() -> Seq<u8> {
    seq![72u8, 101u8, 108u8, 108u8, 111u8, 32u8, 119u8, 111u8, 114u8, 108u8, 100u8, 33u8, 10u8]
}

/// The heartbeat payload as bytes ready to write: the ASCII line
/// "Hello world!" with a trailing newline.
pub fn heartbeat() -> (r: Vec<u8>)
    ensures
        r@ == heartbeat_bytes(),
{
    let mut v: Vec<u8> = Vec::new();
    v.push(72u8);
    v.push(101u8);
    v.push(108u8);
    v.push(108u8);
    v.push(111u8);
    v.push(32u8);
    v.push(119u8);
    v.push(111u8);
    v.push(114u8);
    v.push(108u8);
    v.push(100u8);
    v.push(33u8);
    v.push(10u8);
    proof {
        assert(v@ =~= heartbeat_bytes());
    }
    v
}

/// The fixed IPv4 address of the telemetry peer, one octet per element.
pub fn server_address() -> (r: (u8, u8, u8, u8))
    ensures
        r == (10u8, 128u8, 4u8, 179u8),
{
    (10u8, 128u8, 4u8, 179u8)
}

/// Any number of consecutive connect failures leaves the manager still
/// disconnected and still attempting to connect, each retry after the
/// same fixed delay with no growth; one subsequent success reaches the
/// send loop.
pub proof fn lemma_connect_retry_fixed(n: nat)
    ensures
        run_events(LinkState::Disconnected, Seq::new(n, |i: int| LinkEvent::ConnectFailed))
            == LinkState::Disconnected,
        action_for(
            run_events(LinkState::Disconnected, Seq::new(n, |i: int| LinkEvent::ConnectFailed)),
        ) == LinkAction::Connect,
        delay_after(LinkEvent::ConnectFailed) == RETRY_DELAY_MS,
        next_state(
            run_events(LinkState::Disconnected, Seq::new(n, |i: int| LinkEvent::ConnectFailed)),
            LinkEvent::ConnectOk,
        ) == LinkState::Connected,
    decreases n,
{
    let failures = Seq::new(n, |i: int| LinkEvent::ConnectFailed);
    if n > 0 {
        let shorter = Seq::new((n - 1) as nat, |i: int| LinkEvent::ConnectFailed);
        assert(failures.skip(1) =~= shorter);
        lemma_connect_retry_fixed((n - 1) as nat);
    }
}

} // verus!
