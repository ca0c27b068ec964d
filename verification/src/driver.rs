//! The activity that brings the broker session up and keeps it up. It waits
//! for the network, opens the transport, shakes hands, subscribes, and then
//! publishes on a fixed cadence; every failure, and the loss of the session,
//! leads back to opening the transport after a fixed delay. The activity is written as a phase and two
//! pure functions: the action that a phase asks for, and the phase that
//! follows once the action's outcome is known. Whoever runs it performs the
//! action and reports the outcome.

use vstd::prelude::*;

verus! {

/// Pause between two looks at the link or at the address, in milliseconds.
pub const NETWORK_POLL_MILLIS: u64 = 500;

/// Delay before the transport is opened again after it failed to open, or
/// after the session was lost, in milliseconds.
pub const RECONNECT_DELAY_MILLIS: u64 = 5000;

/// Delay before the transport is opened again after the handshake failed, in
/// milliseconds.
pub const HANDSHAKE_RETRY_MILLIS: u64 = 10000;

/// Pause between the handshake and the subscription, in milliseconds.
pub const SUBSCRIBE_DELAY_MILLIS: u64 = 2000;

/// Pause before each publication, in milliseconds.
pub const PUBLISH_PERIOD_MILLIS: u64 = 2000;

/// Time allowed for the transport to connect, in seconds.
pub const CONNECT_TIMEOUT_SECS: u64 = 30;

/// Keep-alive interval announced in the handshake, in seconds.
pub const KEEP_ALIVE_SECS: u16 = 60;

/// The broker's port.
pub const BROKER_PORT: u16 = 1883;

/// What the activity asks its runner to do next.
#[derive(Clone, Copy, Debug, PartialEq, Eq, Structural)]
pub enum Action {
    /// Report whether the network link is up.
    CheckLink,
    /// Report whether the interface has an address.
    CheckAddress,
    /// Let this many milliseconds pass.
    Wait { millis: u64 },
    /// Connect the transport to the broker's port within the timeout.
    OpenTransport { port: u16, timeout_secs: u64 },
    /// Enqueue the handshake with this keep-alive interval.
    Connect { keep_alive_secs: u16 },
    /// Subscribe to the command topic.
    Subscribe,
    /// Publish the current reading.
    Publish,
}

/// What came of an action.
#[derive(Clone, Copy, Debug, PartialEq, Eq, Structural)]
pub enum Outcome {
    /// The link is up, or not.
    Link { up: bool },
    /// The interface has an address, or not.
    Address { known: bool },
    /// The wait is over.
    Elapsed,
    /// The transport connected, or failed to.
    Opened { ok: bool },
    /// The handshake was enqueued, or failed.
    Connected { ok: bool },
    /// The subscription was enqueued, or failed.
    Subscribed { ok: bool },
    /// The publication was enqueued, or failed.
    Published { ok: bool },
    /// The session was lost: the transport failed while the action went on.
    Lost,
}

/// Where the activity stands.
#[derive(Clone, Copy, Debug, PartialEq, Eq, Structural)]
pub enum Phase {
    /// Asking whether the link is up.
    LinkQuery,
    /// Pausing before asking for the link again.
    LinkPause,
    /// Asking whether the interface has an address.
    AddressQuery,
    /// Pausing before asking for the address again.
    AddressPause,
    /// Opening the transport.
    Opening,
    /// Pausing after the transport failed to open.
    OpenBackoff,
    /// Shaking hands.
    Handshake,
    /// Pausing after the handshake failed.
    HandshakeBackoff,
    /// Pausing before the subscription.
    SubscribePause,
    /// Subscribing.
    Subscribing,
    /// Pausing before a publication.
    PublishPause,
    /// Publishing.
    Publishing,
    /// Pausing after a publication failed.
    PublishBackoff,
    /// Pausing before a new session is attempted.
    SessionBackoff,
}

/// The action that a phase asks for.
pub open spec fn action_of(phase: Phase) -> Action {
    match phase {
        Phase::LinkQuery => Action::CheckLink,
        Phase::AddressQuery => Action::CheckAddress,
        Phase::LinkPause | Phase::AddressPause => Action::Wait { millis: NETWORK_POLL_MILLIS },
        Phase::Opening => Action::OpenTransport {
            port: BROKER_PORT,
            timeout_secs: CONNECT_TIMEOUT_SECS,
        },
        Phase::OpenBackoff | Phase::PublishBackoff | Phase::SessionBackoff => Action::Wait {
            millis: RECONNECT_DELAY_MILLIS,
        },
        Phase::Handshake => Action::Connect { keep_alive_secs: KEEP_ALIVE_SECS },
        Phase::HandshakeBackoff => Action::Wait { millis: HANDSHAKE_RETRY_MILLIS },
        Phase::SubscribePause => Action::Wait { millis: SUBSCRIBE_DELAY_MILLIS },
        Phase::Subscribing => Action::Subscribe,
        Phase::PublishPause => Action::Wait { millis: PUBLISH_PERIOD_MILLIS },
        Phase::Publishing => Action::Publish,
    }
}

/// Whether the session is up in this phase: the handshake is done and no
/// failure has been seen since.
pub open spec fn session_up(phase: Phase) -> bool {
    phase is SubscribePause || phase is Subscribing || phase is PublishPause || phase is Publishing
}

/// Whether `outcome` is the kind of outcome that the action of `phase` has.
/// The loss of the session is the outcome of none.
pub open spec fn answers(phase: Phase, outcome: Outcome) -> bool {
    match action_of(phase) {
        Action::CheckLink => outcome is Link,
        Action::CheckAddress => outcome is Address,
        Action::Wait { .. } => outcome is Elapsed,
        Action::OpenTransport { .. } => outcome is Opened,
        Action::Connect { .. } => outcome is Connected,
        Action::Subscribe => outcome is Subscribed,
        Action::Publish => outcome is Published,
    }
}

/// The phase that follows `phase` once its action has come to `outcome`. The
/// loss of the session, while it is up or while hands are shaken, leads to
/// the pause before a new session. Any other outcome that is not one of the
/// phase's action changes nothing.
pub open spec fn next_phase(phase: Phase, outcome: Outcome) -> Phase {
    match (phase, outcome) {
        (_, Outcome::Lost) => if session_up(phase) || phase is Handshake {
            Phase::SessionBackoff
        } else {
            phase
        },
        (Phase::LinkQuery, Outcome::Link { up }) => if up {
            Phase::AddressQuery
        } else {
            Phase::LinkPause
        },
        (Phase::LinkPause, Outcome::Elapsed) => Phase::LinkQuery,
        (Phase::AddressQuery, Outcome::Address { known }) => if known {
            Phase::Opening
        } else {
            Phase::AddressPause
        },
        (Phase::AddressPause, Outcome::Elapsed) => Phase::AddressQuery,
        (Phase::Opening, Outcome::Opened { ok }) => if ok {
            Phase::Handshake
        } else {
            Phase::OpenBackoff
        },
        (Phase::OpenBackoff, Outcome::Elapsed) => Phase::Opening,
        (Phase::Handshake, Outcome::Connected { ok }) => if ok {
            Phase::SubscribePause
        } else {
            Phase::HandshakeBackoff
        },
        (Phase::HandshakeBackoff, Outcome::Elapsed) => Phase::Opening,
        (Phase::SubscribePause, Outcome::Elapsed) => Phase::Subscribing,
        (Phase::Subscribing, Outcome::Subscribed { .. }) => Phase::PublishPause,
        (Phase::PublishPause, Outcome::Elapsed) => Phase::Publishing,
        (Phase::Publishing, Outcome::Published { ok }) => if ok {
            Phase::PublishPause
        } else {
            Phase::PublishBackoff
        },
        (Phase::PublishBackoff, Outcome::Elapsed) => Phase::SessionBackoff,
        (Phase::SessionBackoff, Outcome::Elapsed) => Phase::Opening,
        _ => phase,
    }
}

impl Phase {
    /// The phase in which the activity starts.
    pub fn start() -> (p: Phase)
        ensures
            p == Phase::LinkQuery,
    {
        Phase::LinkQuery
    }

    /// The action that this phase asks for.
    pub fn action(&self) -> (a: Action)
        ensures
            a == action_of(*self),
    {
        match self {
            Phase::LinkQuery => Action::CheckLink,
            Phase::AddressQuery => Action::CheckAddress,
            Phase::LinkPause => Action::Wait { millis: NETWORK_POLL_MILLIS },
            Phase::AddressPause => Action::Wait { millis: NETWORK_POLL_MILLIS },
            Phase::Opening => Action::OpenTransport {
                port: BROKER_PORT,
                timeout_secs: CONNECT_TIMEOUT_SECS,
            },
            Phase::OpenBackoff => Action::Wait { millis: RECONNECT_DELAY_MILLIS },
            Phase::PublishBackoff => Action::Wait { millis: RECONNECT_DELAY_MILLIS },
            Phase::SessionBackoff => Action::Wait { millis: RECONNECT_DELAY_MILLIS },
            Phase::Handshake => Action::Connect { keep_alive_secs: KEEP_ALIVE_SECS },
            Phase::HandshakeBackoff => Action::Wait { millis: HANDSHAKE_RETRY_MILLIS },
            Phase::SubscribePause => Action::Wait { millis: SUBSCRIBE_DELAY_MILLIS },
            Phase::Subscribing => Action::Subscribe,
            Phase::PublishPause => Action::Wait { millis: PUBLISH_PERIOD_MILLIS },
            Phase::Publishing => Action::Publish,
        }
    }

    /// The phase that follows once this phase's action has come to
    /// `outcome`.
    pub fn step(self, outcome: Outcome) -> (p: Phase)
        ensures
            p == next_phase(self, outcome),
    {
        if let Outcome::Lost = outcome {
            return match self {
                Phase::Handshake => Phase::SessionBackoff,
                Phase::SubscribePause => Phase::SessionBackoff,
                Phase::Subscribing => Phase::SessionBackoff,
                Phase::PublishPause => Phase::SessionBackoff,
                Phase::Publishing => Phase::SessionBackoff,
                _ => self,
            };
        }
        match self {
            Phase::LinkQuery => match outcome {
                Outcome::Link { up: true } => Phase::AddressQuery,
                Outcome::Link { up: false } => Phase::LinkPause,
                _ => self,
            },
            Phase::AddressQuery => match outcome {
                Outcome::Address { known: true } => Phase::Opening,
                Outcome::Address { known: false } => Phase::AddressPause,
                _ => self,
            },
            Phase::Opening => match outcome {
                Outcome::Opened { ok: true } => Phase::Handshake,
                Outcome::Opened { ok: false } => Phase::OpenBackoff,
                _ => self,
            },
            Phase::Handshake => match outcome {
                Outcome::Connected { ok: true } => Phase::SubscribePause,
                Outcome::Connected { ok: false } => Phase::HandshakeBackoff,
                _ => self,
            },
            Phase::Subscribing => match outcome {
                Outcome::Subscribed { .. } => Phase::PublishPause,
                _ => self,
            },
            Phase::Publishing => match outcome {
                Outcome::Published { ok: true } => Phase::PublishPause,
                Outcome::Published { ok: false } => Phase::PublishBackoff,
                _ => self,
            },
            _ => match outcome {
                Outcome::Elapsed => self.after_wait(),
                _ => self,
            },
        }
    }

    /// The phase that follows a wait.
    fn after_wait(self) -> (p: Phase)
        requires
            action_of(self) is Wait,
        ensures
            p == next_phase(self, Outcome::Elapsed),
    {
        match self {
            Phase::LinkPause => Phase::LinkQuery,
            Phase::AddressPause => Phase::AddressQuery,
            Phase::SubscribePause => Phase::Subscribing,
            Phase::PublishPause => Phase::Publishing,
            Phase::PublishBackoff => Phase::SessionBackoff,
            _ => Phase::Opening,
        }
    }
}

/// After a failure the transport is opened again only once a wait has
/// passed: a phase that follows a failed action asks for a wait of at least
/// the reconnect delay, and the handshake's failure for the longer one.
pub proof fn lemma_failure_backs_off(phase: Phase, outcome: Outcome)
    requires
        outcome == (Outcome::Opened { ok: false }) || outcome == (Outcome::Connected { ok: false })
            || outcome == (Outcome::Published { ok: false }),
        answers(phase, outcome),
    ensures
        action_of(next_phase(phase, outcome)) matches Action::Wait { millis } && millis
            >= RECONNECT_DELAY_MILLIS,
        outcome is Connected ==> action_of(next_phase(phase, outcome)) == (Action::Wait {
            millis: HANDSHAKE_RETRY_MILLIS,
        }),
        !session_up(next_phase(phase, outcome)),
{
}

/// An outcome that is neither one of the phase's action nor the loss of the
/// session changes nothing.
pub proof fn lemma_foreign_outcome_changes_nothing(phase: Phase, outcome: Outcome)
    requires
        !answers(phase, outcome),
        !(outcome is Lost),
    ensures
        next_phase(phase, outcome) == phase,
{
}

/// A session that is lost is opened again after the reconnect delay: the
/// loss leads out of every phase in which the session is up, into a wait of
/// that length, and from there to opening the transport.
pub proof fn lemma_lost_session_is_reopened(phase: Phase)
    requires
        session_up(phase),
    ensures
        !session_up(next_phase(phase, Outcome::Lost)),
        action_of(next_phase(phase, Outcome::Lost)) == (Action::Wait {
            millis: RECONNECT_DELAY_MILLIS,
        }),
        next_phase(next_phase(phase, Outcome::Lost), Outcome::Elapsed) == Phase::Opening,
{
}

/// The session is up only after a handshake that succeeded: a step leads
/// from a phase without a session into one with a session only on that
/// outcome.
pub proof fn lemma_session_needs_handshake(phase: Phase, outcome: Outcome)
    requires
        !session_up(phase),
        session_up(next_phase(phase, outcome)),
    ensures
        phase == Phase::Handshake,
        outcome == (Outcome::Connected { ok: true }),
{
}

} // verus!
