//! The connection life cycle of a service: connect lazily, give up a
//! connect that takes too long, and connect afresh after a failure.
//!
//! The service itself performs no I/O. Whoever drives it reports what
//! happened as an `Event` and carries out the `Action` that comes back.

use vstd::prelude::*;

verus! {

/// Where a service stands with its connection.
#[derive(Clone, Copy, Debug, PartialEq, Eq, Hash, Structural)]
pub enum State {
    /// No connection and no attempt under way.
    Idle,
    /// A connect attempt is under way and its timer is running.
    Connecting,
    /// The connection is established.
    Connected,
}

/// Why an invocation of a service failed.
#[derive(Clone, Copy, Debug, PartialEq, Eq, Hash, Structural)]
pub enum ServiceError {
    /// The connect timeout elapsed before the connector had an outcome.
    ConnectTimeout,
    /// The connector failed: refused, unreachable, reset.
    Connect,
    /// The established connection failed.
    Connection,
}

/// What happened outside the service. Each event but `Invoked` names the
/// attempt that it belongs to.
#[derive(Clone, Copy, Debug, PartialEq, Eq, Hash, Structural)]
pub enum Event {
    /// The service is asked to carry a request.
    Invoked,
    /// The connector established the connection.
    ConnectSucceeded(u64),
    /// The connector failed.
    ConnectFailed(u64),
    /// The connect timer ran out.
    TimerExpired(u64),
    /// The established connection failed.
    ConnectionFailed(u64),
}

/// What the driver is to do next.
#[derive(Clone, Copy, Debug, PartialEq, Eq, Hash, Structural)]
pub enum Action {
    /// Start the connect attempt with this number and arm its timer.
    Connect(u64),
    /// The attempt is still under way: ask again when it has an outcome.
    Wait,
    /// The connection stands: send the request over it.
    Send,
    /// The connection stands now: cancel the timer.
    Ready,
    /// Drop what belongs to the attempt and report the error.
    Fail(ServiceError),
    /// The event belongs to an attempt that was given up: do nothing.
    Ignore,
}

impl Event {
    /// The attempt that the event belongs to, if it names one.
    pub open spec fn attempt(self) -> Option<u64> {
        match self {
            Event::Invoked => None,
            Event::ConnectSucceeded(n) => Some(n),
            Event::ConnectFailed(n) => Some(n),
            Event::TimerExpired(n) => Some(n),
            Event::ConnectionFailed(n) => Some(n),
        }
    }
}

/// A service's state together with the number of its latest attempt.
pub struct Phase {
    pub state: State,
    pub attempt: u64,
}

/// The number of the attempt after `attempt`. Numbers wrap around, so two
/// attempts in a row never have the same one.
pub open spec fn next_attempt(attempt: u64) -> u64 {
    if attempt == u64::MAX {
        0
    } else {
        (attempt + 1) as u64
    }
}

/// The phase that follows `phase` on `event`, and the action to take.
///
/// An idle service starts a fresh attempt when invoked. The first outcome
/// of the current attempt settles it: success connects, a failure or the
/// timer makes the service idle again. The failure of the established
/// connection makes it idle too. Every other event is out of date.
pub open spec fn transition(phase: Phase, event: Event) -> (Phase, Action) {
    let current = event.attempt() == Some(phase.attempt);
    let idle = Phase { state: State::Idle, attempt: phase.attempt };
    match (phase.state, event) {
        (State::Idle, Event::Invoked) => (
            Phase { state: State::Connecting, attempt: next_attempt(phase.attempt) },
            Action::Connect(next_attempt(phase.attempt)),
        ),
        (State::Connecting, Event::Invoked) => (phase, Action::Wait),
        (State::Connected, Event::Invoked) => (phase, Action::Send),
        (State::Connecting, Event::ConnectSucceeded(_)) if current => (
            Phase { state: State::Connected, attempt: phase.attempt },
            Action::Ready,
        ),
        (State::Connecting, Event::ConnectFailed(_)) if current => (
            idle,
            Action::Fail(ServiceError::Connect),
        ),
        (State::Connecting, Event::TimerExpired(_)) if current => (
            idle,
            Action::Fail(ServiceError::ConnectTimeout),
        ),
        (State::Connected, Event::ConnectionFailed(_)) if current => (
            idle,
            Action::Fail(ServiceError::Connection),
        ),
        _ => (phase, Action::Ignore),
    }
}

/// Wraps a recipe for a service, `new_service`, and connects it on demand.
#[derive(Debug)]
pub struct Reconnect<T> {
    new_service: T,
    state: State,
    attempt: u64,
}

impl<T> Reconnect<T> {
    /// The state and the latest attempt's number.
    pub closed spec fn phase(&self) -> Phase {
        Phase { state: self.state, attempt: self.attempt }
    }

    /// The recipe that each attempt starts from.
    pub closed spec fn inner(&self) -> T {
        self.new_service
    }

    /// A service that is not connected and has made no attempt.
    pub fn new(new_service: T) -> (service: Reconnect<T>)
        ensures
            service.phase() == (Phase { state: State::Idle, attempt: 0 }),
            service.inner() == new_service,
    {
        Reconnect { new_service, state: State::Idle, attempt: 0 }
    }

    /// The recipe that each attempt starts from.
    pub fn get_ref(&self) -> (new_service: &T)
        ensures
            *new_service == self.inner(),
    {
        &self.new_service
    }

    /// Where the service stands.
    pub fn state(&self) -> (state: State)
        ensures
            state == self.phase().state,
    {
        self.state
    }

    /// The number of the latest attempt.
    pub fn attempt(&self) -> (attempt: u64)
        ensures
            attempt == self.phase().attempt,
    {
        self.attempt
    }

    /// Takes in `event` and says what to do. The recipe is never changed.
    pub fn step(&mut self, event: Event) -> (action: Action)
        ensures
            (final(self).phase(), action) == transition(old(self).phase(), event),
            final(self).inner() == old(self).inner(),
    {
        match (self.state, event) {
            (State::Idle, Event::Invoked) => {
                let fresh: u64 = if self.attempt == u64::MAX {
                    0
                } else {
                    self.attempt + 1
                };
                self.attempt = fresh;
                self.state = State::Connecting;
                Action::Connect(fresh)
            },
            (State::Connecting, Event::Invoked) => Action::Wait,
            (State::Connected, Event::Invoked) => Action::Send,
            (State::Connecting, Event::ConnectSucceeded(n)) => {
                if n == self.attempt {
                    self.state = State::Connected;
                    Action::Ready
                } else {
                    Action::Ignore
                }
            },
            (State::Connecting, Event::ConnectFailed(n)) => {
                if n == self.attempt {
                    self.state = State::Idle;
                    Action::Fail(ServiceError::Connect)
                } else {
                    Action::Ignore
                }
            },
            (State::Connecting, Event::TimerExpired(n)) => {
                if n == self.attempt {
                    self.state = State::Idle;
                    Action::Fail(ServiceError::ConnectTimeout)
                } else {
                    Action::Ignore
                }
            },
            (State::Connected, Event::ConnectionFailed(n)) => {
                if n == self.attempt {
                    self.state = State::Idle;
                    Action::Fail(ServiceError::Connection)
                } else {
                    Action::Ignore
                }
            },
            _ => Action::Ignore,
        }
    }
}

} // verus!
