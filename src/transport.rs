//! The decisions of the connection to the collector: when to connect, how long
//! to wait after a failure, when to give up and when to stop.
//!
//! The caller performs each action (opening the connection, sleeping, closing)
//! and hands the outcome back as an event.
use vstd::prelude::*;

verus! {

/// How a connection attempt failed.
#[derive(Clone, Copy, Debug, PartialEq, Eq, Structural)]
pub enum ConnectFailure {
    /// A local I/O error: name resolution, socket, refused connection.
    Io,
    /// The server answered the handshake with this HTTP status.
    Http(u16),
    /// Anything else: protocol, TLS, or URL errors.
    Other,
}

/// What a failure calls for.
#[derive(Clone, Copy, Debug, PartialEq, Eq, Structural)]
pub enum FailureClass {
    /// Retried after a short wait.
    Transient,
    /// A server error: retried after a longer wait.
    Server,
    /// Not retried: handed to the caller.
    Fatal,
}

pub open spec fn classify_spec(f: ConnectFailure) -> FailureClass {
    match f {
        ConnectFailure::Io => FailureClass::Transient,
        ConnectFailure::Http(s) => if 500 <= s && s <= 599 {
            FailureClass::Server
        } else {
            FailureClass::Fatal
        },
        ConnectFailure::Other => FailureClass::Fatal,
    }
}

/// I/O errors are transient, 5xx answers are server errors, the rest is fatal.
pub fn classify_failure(f: ConnectFailure) -> (c: FailureClass)
    ensures
        c == classify_spec(f),
{
    match f {
        ConnectFailure::Io => FailureClass::Transient,
        ConnectFailure::Http(s) => if 500 <= s && s <= 599 {
            FailureClass::Server
        } else {
            FailureClass::Fatal
        },
        ConnectFailure::Other => FailureClass::Fatal,
    }
}

/// Waits between attempts, in milliseconds.
#[derive(Clone, Copy, Debug, PartialEq, Eq, Structural)]
pub struct BackoffPolicy {
    /// Wait after the first transient failure; it doubles with each further one.
    pub base_delay_ms: u64,
    /// Longest wait after a transient failure.
    pub max_delay_ms: u64,
    /// Wait after a server error.
    pub server_delay_ms: u64,
}

pub open spec fn policy_well_formed(p: BackoffPolicy) -> bool {
    p.base_delay_ms <= p.max_delay_ms && p.base_delay_ms <= p.server_delay_ms
}

/// The wait after the `failures`-th transient failure in a row (counted from
/// zero): `base * 2^failures`, at most `max`.
pub open spec fn transient_delay_spec(p: BackoffPolicy, failures: u32) -> u64
    decreases failures,
{
    if failures == 0 {
        p.base_delay_ms
    } else {
        let prev = transient_delay_spec(p, (failures - 1) as u32);
        if prev as int * 2 <= p.max_delay_ms {
            (prev * 2) as u64
        } else {
            p.max_delay_ms
        }
    }
}

proof fn lemma_transient_delay_bounds(p: BackoffPolicy, failures: u32)
    requires
        policy_well_formed(p),
    ensures
        p.base_delay_ms <= transient_delay_spec(p, failures) <= p.max_delay_ms,
    decreases failures,
{
    if failures > 0 {
        lemma_transient_delay_bounds(p, (failures - 1) as u32);
    }
}

pub fn transient_delay(p: BackoffPolicy, failures: u32) -> (d: u64)
    requires
        policy_well_formed(p),
    ensures
        d == transient_delay_spec(p, failures),
        p.base_delay_ms <= d <= p.max_delay_ms,
{
    let mut d: u64 = p.base_delay_ms;
    let mut k: u32 = 0;
    proof {
        lemma_transient_delay_bounds(p, 0);
    }
    while k < failures
        invariant
            policy_well_formed(p),
            k <= failures,
            d == transient_delay_spec(p, k),
            p.base_delay_ms <= d <= p.max_delay_ms,
        decreases failures - k,
    {
        proof {
            lemma_transient_delay_bounds(p, (k + 1) as u32);
        }
        if d <= p.max_delay_ms / 2 {
            d = d * 2;
        } else {
            d = p.max_delay_ms;
        }
        k = k + 1;
    }
    d
}

/// Where the connection stands.
#[derive(Clone, Copy, Debug, PartialEq, Eq, Structural)]
pub enum ConnState {
    Disconnected,
    /// An attempt is under way; `failures` transient failures came before it.
    Connecting { failures: u32 },
    /// Waiting before the next attempt.
    BackingOff { failures: u32 },
    Connected,
    /// A fatal failure ended the attempts.
    Failed,
    /// Shut down: nothing more happens.
    Closed,
}

/// What happened.
#[derive(Clone, Copy, Debug, PartialEq, Eq, Structural)]
pub enum TransportEvent {
    /// The owner wants a connection.
    ConnectRequested,
    ConnectSucceeded,
    ConnectFailed(ConnectFailure),
    /// The wait before the next attempt is over.
    BackoffElapsed,
    /// Reading or writing the open connection failed.
    IoFailed,
    /// The peer asked for a fresh session.
    RefreshRequested,
    ShutdownRequested,
}

/// What the owner of the connection is to do next.
#[derive(Clone, Copy, Debug, PartialEq, Eq, Structural)]
pub enum TransportAction {
    /// Open a connection.
    Connect,
    /// Drop the open connection, then open a new one.
    Reconnect,
    /// Wait this long, then report `BackoffElapsed`, unless shut down first.
    Wait { delay_ms: u64 },
    /// The connection is up: sending may resume.
    Ready,
    /// Stop retrying and hand this failure to the caller.
    Fail { failure: ConnectFailure },
    /// Close the connection and stop.
    Close,
    Nothing,
}

/// The step of the state machine: the next state and the action, for an event.
pub open spec fn transition(p: BackoffPolicy, s: ConnState, e: TransportEvent) -> (ConnState, TransportAction) {
    match (s, e) {
        (ConnState::Closed, _) => (ConnState::Closed, TransportAction::Nothing),
        (_, TransportEvent::ShutdownRequested) => (ConnState::Closed, TransportAction::Close),
        (ConnState::Failed, _) => (ConnState::Failed, TransportAction::Nothing),
        (ConnState::Disconnected, TransportEvent::ConnectRequested) => (
            ConnState::Connecting { failures: 0 },
            TransportAction::Connect,
        ),
        (ConnState::Connecting { failures }, TransportEvent::ConnectSucceeded) => (
            ConnState::Connected,
            TransportAction::Ready,
        ),
        (ConnState::Connecting { failures }, TransportEvent::ConnectFailed(f)) => match classify_spec(f) {
            FailureClass::Transient => (
                ConnState::BackingOff { failures: if failures < u32::MAX { (failures + 1) as u32 } else { failures } },
                TransportAction::Wait { delay_ms: transient_delay_spec(p, failures) },
            ),
            FailureClass::Server => (
                ConnState::BackingOff { failures },
                TransportAction::Wait { delay_ms: p.server_delay_ms },
            ),
            FailureClass::Fatal => (ConnState::Failed, TransportAction::Fail { failure: f }),
        },
        (ConnState::BackingOff { failures }, TransportEvent::BackoffElapsed) => (
            ConnState::Connecting { failures },
            TransportAction::Connect,
        ),
        (ConnState::Connected, TransportEvent::IoFailed) => (
            ConnState::Connecting { failures: 0 },
            TransportAction::Reconnect,
        ),
        (ConnState::Connected, TransportEvent::RefreshRequested) => (
            ConnState::Connecting { failures: 0 },
            TransportAction::Reconnect,
        ),
        _ => (s, TransportAction::Nothing),
    }
}

/// The connection's state and retry policy.
pub struct ConnectionMachine {
    pub state: ConnState,
    pub policy: BackoffPolicy,
}

impl ConnectionMachine {
    pub open spec fn well_formed(&self) -> bool {
        policy_well_formed(self.policy)
    }

    pub fn new(policy: BackoffPolicy) -> (m: Self)
        requires
            policy_well_formed(policy),
        ensures
            m.well_formed(),
            m.state == ConnState::Disconnected,
            m.policy == policy,
    {
        ConnectionMachine { state: ConnState::Disconnected, policy }
    }

    /// Whether reports can be sent now.
    pub fn is_connected(&self) -> (r: bool)
        ensures
            r == (self.state == ConnState::Connected),
    {
        match self.state {
            ConnState::Connected => true,
            _ => false,
        }
    }

    /// Takes one event and says what to do.
    pub fn step(&mut self, e: TransportEvent) -> (a: TransportAction)
        requires
            old(self).well_formed(),
        ensures
            final(self).well_formed(),
            final(self).policy == old(self).policy,
            (final(self).state, a) == transition(old(self).policy, old(self).state, e),
    {
        let p = self.policy;
        let (s, a) = match (self.state, e) {
            (ConnState::Closed, _) => (ConnState::Closed, TransportAction::Nothing),
            (_, TransportEvent::ShutdownRequested) => (ConnState::Closed, TransportAction::Close),
            (ConnState::Failed, _) => (ConnState::Failed, TransportAction::Nothing),
            (ConnState::Disconnected, TransportEvent::ConnectRequested) => (
                ConnState::Connecting { failures: 0 },
                TransportAction::Connect,
            ),
            (ConnState::Connecting { failures }, TransportEvent::ConnectSucceeded) => (
                ConnState::Connected,
                TransportAction::Ready,
            ),
            (ConnState::Connecting { failures }, TransportEvent::ConnectFailed(f)) => match classify_failure(f) {
                FailureClass::Transient => {
                    let next = if failures < u32::MAX { failures + 1 } else { failures };
                    (ConnState::BackingOff { failures: next }, TransportAction::Wait { delay_ms: transient_delay(p, failures) })
                },
                FailureClass::Server => (
                    ConnState::BackingOff { failures },
                    TransportAction::Wait { delay_ms: p.server_delay_ms },
                ),
                FailureClass::Fatal => (ConnState::Failed, TransportAction::Fail { failure: f }),
            },
            (ConnState::BackingOff { failures }, TransportEvent::BackoffElapsed) => (
                ConnState::Connecting { failures },
                TransportAction::Connect,
            ),
            (ConnState::Connected, TransportEvent::IoFailed) => (
                ConnState::Connecting { failures: 0 },
                TransportAction::Reconnect,
            ),
            (ConnState::Connected, TransportEvent::RefreshRequested) => (
                ConnState::Connecting { failures: 0 },
                TransportAction::Reconnect,
            ),
            _ => (self.state, TransportAction::Nothing),
        };
        self.state = s;
        a
    }
}

/// A failed attempt never leads straight to another: a transient failure
/// waits at least the base delay, a server error at least as long, and a
/// fatal failure stops the attempts and is handed to the caller.
pub proof fn lemma_failure_waits_or_stops(p: BackoffPolicy, failures: u32, f: ConnectFailure)
    requires
        policy_well_formed(p),
    ensures
        ({
            let (s, a) = transition(p, ConnState::Connecting { failures }, TransportEvent::ConnectFailed(f));
            match classify_spec(f) {
                FailureClass::Fatal => s == ConnState::Failed && a == TransportAction::Fail { failure: f },
                _ => a matches TransportAction::Wait { delay_ms } && delay_ms >= p.base_delay_ms
                    && s matches ConnState::BackingOff { failures: _ },
            }
        }),
{
    lemma_transient_delay_bounds(p, failures);
}

/// After a fatal failure no event brings another attempt.
pub proof fn lemma_failed_never_connects(p: BackoffPolicy, e: TransportEvent)
    ensures
        transition(p, ConnState::Failed, e).1 != TransportAction::Connect,
        transition(p, ConnState::Failed, e).1 != TransportAction::Reconnect,
        transition(p, ConnState::Failed, e).0 == ConnState::Failed || transition(
            p,
            ConnState::Failed,
            e,
        ).0 == ConnState::Closed,
{
}

/// A shutdown ends any state, waits and attempts included, at once.
pub proof fn lemma_shutdown_closes(p: BackoffPolicy, s: ConnState)
    ensures
        transition(p, s, TransportEvent::ShutdownRequested).0 == ConnState::Closed,
        s != ConnState::Closed ==> transition(p, s, TransportEvent::ShutdownRequested).1
            == TransportAction::Close,
{
}

} // verus!
