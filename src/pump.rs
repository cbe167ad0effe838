use vstd::prelude::*;

use crate::error::PumpError;

verus! {

/// Fixed delay between two failed connection attempts, in milliseconds.
pub const BACKOFF_MS: u64 = 5000;

/// Where the pump stands.
///
/// `Connecting` covers the whole retry sequence of one reconnection: `attempt`
/// numbers the attempt in flight. The three other phases make up one connected
/// session; `run_count` counts its cycles, starting from 1.
#[derive(Clone, Copy, Debug, PartialEq, Eq, Structural)]
pub enum Phase {
    Connecting { attempt: u64 },
    Idle { run_count: u64 },
    Reading { run_count: u64 },
    Sending { run_count: u64 },
}

/// How one send went: a liveness probe, then the payload.
#[derive(Clone, Copy, Debug, PartialEq, Eq, Structural)]
pub enum SendReport {
    Delivered,
    ProbeFailed,
    DataFailed,
}

/// What the caller observed after performing the last action.
#[derive(Debug, PartialEq, Eq)]
pub enum Event {
    Connected,
    ConnectFailed,
    /// A timer tick (`None`) or a file-change notification with its correlation token.
    Trigger { token: Option<u64> },
    /// The prepared payload, or why none could be read.
    ReadDone(Result<String, PumpError>),
    SendDone(SendReport),
}

/// What the caller is to do next.
#[derive(Debug, PartialEq, Eq)]
pub enum Action {
    /// Wait `delay_ms` milliseconds, then try to connect.
    Connect { attempt: u64, delay_ms: u64 },
    /// Keep the connection and wait for the next trigger.
    AwaitTrigger,
    /// Read the watched file and prepare its payload.
    Read,
    /// Probe the connection, then send this payload.
    Send(String),
    /// Report this failure, keep the connection and wait for the next trigger.
    Skip(PumpError),
    /// The event does not belong to the current phase; nothing changes.
    Ignore,
}

/// The pump's control state: a supervisor that reconnects forever around a
/// delivery loop. At most one connection is live: the one of the current
/// session, held by the caller while the phase is not `Connecting`.
#[derive(Clone, Copy, Debug, PartialEq, Eq)]
pub struct Pump {
    pub phase: Phase,
    /// The correlation token of the last trigger that started a cycle.
    pub last_token: Option<u64>,
}

pub open spec fn sat_inc(n: u64) -> u64 {
    if n < u64::MAX {
        (n + 1) as u64
    } else {
        n
    }
}

/// A trigger repeats the last one when both carry the same token.
pub open spec fn is_repeat(last: Option<u64>, token: Option<u64>) -> bool {
    token is Some && last == token
}

pub open spec fn remember(last: Option<u64>, token: Option<u64>) -> Option<u64> {
    if token is Some {
        token
    } else {
        last
    }
}

pub open spec fn start_spec() -> (Pump, Action) {
    (
        Pump { phase: Phase::Connecting { attempt: 1 }, last_token: None },
        Action::Connect { attempt: 1, delay_ms: 0 },
    )
}

/// The transition function of the pump.
pub open spec fn next(s: Pump, e: Event) -> (Pump, Action) {
    match e {
        Event::Connected => match s.phase {
            Phase::Connecting { .. } => (
                Pump { phase: Phase::Idle { run_count: 1 }, ..s },
                Action::AwaitTrigger,
            ),
            _ => (s, Action::Ignore),
        },
        Event::ConnectFailed => match s.phase {
            Phase::Connecting { attempt } => (
                Pump { phase: Phase::Connecting { attempt: sat_inc(attempt) }, ..s },
                Action::Connect { attempt: sat_inc(attempt), delay_ms: BACKOFF_MS },
            ),
            _ => (s, Action::Ignore),
        },
        Event::Trigger { token } => match s.phase {
            Phase::Idle { run_count } => if is_repeat(s.last_token, token) {
                (s, Action::AwaitTrigger)
            } else {
                (
                    Pump {
                        phase: Phase::Reading { run_count },
                        last_token: remember(s.last_token, token),
                    },
                    Action::Read,
                )
            },
            _ => (s, Action::Ignore),
        },
        Event::ReadDone(res) => match s.phase {
            Phase::Reading { run_count } => match res {
                Ok(p) => (Pump { phase: Phase::Sending { run_count }, ..s }, Action::Send(p)),
                Err(err) => (Pump { phase: Phase::Idle { run_count }, ..s }, Action::Skip(err)),
            },
            _ => (s, Action::Ignore),
        },
        Event::SendDone(rep) => match s.phase {
            Phase::Sending { run_count } => match rep {
                SendReport::Delivered => (
                    Pump { phase: Phase::Idle { run_count: sat_inc(run_count) }, ..s },
                    Action::AwaitTrigger,
                ),
                _ => (
                    Pump { phase: Phase::Connecting { attempt: 1 }, ..s },
                    Action::Connect { attempt: 1, delay_ms: 0 },
                ),
            },
            _ => (s, Action::Ignore),
        },
    }
}

fn saturating_inc(n: u64) -> (r: u64)
    ensures
        r == sat_inc(n),
{
    if n < u64::MAX {
        n + 1
    } else {
        n
    }
}

fn repeats(last: Option<u64>, token: Option<u64>) -> (r: bool)
    ensures
        r == is_repeat(last, token),
{
    match token {
        Some(t) => match last {
            Some(l) => l == t,
            None => false,
        },
        None => false,
    }
}

impl Pump {
    /// Counters start from 1.
    pub open spec fn wf(self) -> bool {
        match self.phase {
            Phase::Connecting { attempt } => attempt >= 1,
            Phase::Idle { run_count } => run_count >= 1,
            Phase::Reading { run_count } => run_count >= 1,
            Phase::Sending { run_count } => run_count >= 1,
        }
    }

    /// A session is under way: the caller holds a live connection.
    pub open spec fn connected(self) -> bool {
        !(self.phase is Connecting)
    }

    /// A fresh pump, and its first action: connect at once.
    pub fn start() -> (r: (Pump, Action))
        ensures
            r == start_spec(),
            r.0.wf(),
    {
        (
            Pump { phase: Phase::Connecting { attempt: 1 }, last_token: None },
            Action::Connect { attempt: 1, delay_ms: 0 },
        )
    }

    /// Takes the outcome of the last action and decides the next one.
    pub fn step(&mut self, e: Event) -> (r: Action)
        ensures
            (*final(self), r) == next(*old(self), e),
            old(self).wf() ==> final(self).wf(),
    {
        match e {
            Event::Connected => match self.phase {
                Phase::Connecting { .. } => {
                    self.phase = Phase::Idle { run_count: 1 };
                    Action::AwaitTrigger
                },
                _ => Action::Ignore,
            },
            Event::ConnectFailed => match self.phase {
                Phase::Connecting { attempt } => {
                    let a = saturating_inc(attempt);
                    self.phase = Phase::Connecting { attempt: a };
                    Action::Connect { attempt: a, delay_ms: BACKOFF_MS }
                },
                _ => Action::Ignore,
            },
            Event::Trigger { token } => match self.phase {
                Phase::Idle { run_count } => {
                    if repeats(self.last_token, token) {
                        Action::AwaitTrigger
                    } else {
                        if token.is_some() {
                            self.last_token = token;
                        }
                        self.phase = Phase::Reading { run_count };
                        Action::Read
                    }
                },
                _ => Action::Ignore,
            },
            Event::ReadDone(res) => match self.phase {
                Phase::Reading { run_count } => match res {
                    Ok(p) => {
                        self.phase = Phase::Sending { run_count };
                        Action::Send(p)
                    },
                    Err(err) => {
                        self.phase = Phase::Idle { run_count };
                        Action::Skip(err)
                    },
                },
                _ => Action::Ignore,
            },
            Event::SendDone(rep) => match self.phase {
                Phase::Sending { run_count } => match rep {
                    SendReport::Delivered => {
                        self.phase = Phase::Idle { run_count: saturating_inc(run_count) };
                        Action::AwaitTrigger
                    },
                    _ => {
                        self.phase = Phase::Connecting { attempt: 1 };
                        Action::Connect { attempt: 1, delay_ms: 0 }
                    },
                },
                _ => Action::Ignore,
            },
        }
    }
}

} // verus!
