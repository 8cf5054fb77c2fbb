//! The supervisory loop's policy: keep the server alive across bind and
//! connection failures, with a fixed one-second backoff, forever. The
//! unverified loop acquires the listener, runs the handler, and asks this
//! module what to do after each outcome; every outcome yields a next step,
//! so the loop never gives up.

use vstd::prelude::*;

verus! {

/// What the supervisory loop just observed.
#[derive(PartialEq, Eq, Structural, Clone, Copy, Debug)]
pub enum ServerEvent {
    /// Acquiring the listening acceptor failed.
    BindFailed,
    /// The listening acceptor is up; the handler can run.
    Bound,
    /// The running server returned with an error.
    ServerError,
}

/// What the supervisory loop does next.
#[derive(PartialEq, Eq, Structural, Clone, Copy, Debug)]
pub enum ServerAction {
    /// Wait the backoff interval, then try to bind again.
    RetryAfterSecs(u64),
    /// Run the protocol handler's server loop.
    Serve,
}

/// The supervisory policy: a failure to bind and a server error both wait
/// the fixed one-second backoff and retry; a successful bind runs the
/// handler. Total over every event: the loop never gives up.
pub fn supervise(event: ServerEvent) -> (r: ServerAction)
    ensures
        event == ServerEvent::BindFailed ==> r == ServerAction::RetryAfterSecs(1),
        event == ServerEvent::ServerError ==> r == ServerAction::RetryAfterSecs(1),
        event == ServerEvent::Bound ==> r == ServerAction::Serve,
{
    match event {
        ServerEvent::BindFailed => ServerAction::RetryAfterSecs(1),
        ServerEvent::Bound => ServerAction::Serve,
        ServerEvent::ServerError => ServerAction::RetryAfterSecs(1),
    }
}

} // verus!
