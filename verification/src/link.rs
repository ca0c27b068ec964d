//! The activity that keeps the node on the wireless network. While the node
//! is connected it waits for the connection to drop; otherwise it starts the
//! radio if need be and joins the network, and says so when it has joined.
//! After a drop and after a failed attempt it pauses before it tries again.
//! Like the session's activity it is a phase and two pure functions; its
//! runner performs the action and reports the outcome.

use vstd::prelude::*;

verus! {

/// Pause after the connection dropped and after an attempt to join failed,
/// in milliseconds.
pub const REJOIN_DELAY_MILLIS: u64 = 5000;

/// What the activity asks its runner to do next.
#[derive(Clone, Copy, Debug, PartialEq, Eq, Structural)]
pub enum LinkAction {
    /// Report whether the station is connected.
    CheckConnected,
    /// Wait until the station is disconnected.
    AwaitDisconnect,
    /// Let this many milliseconds pass.
    Wait { millis: u64 },
    /// Report whether the radio is started.
    CheckStarted,
    /// Configure the station and start the radio.
    Start,
    /// Join the network.
    Join,
    /// Post the event that the node is on the network.
    Announce,
    /// Give up: the radio could not be started.
    Abort,
}

/// What came of an action.
#[derive(Clone, Copy, Debug, PartialEq, Eq, Structural)]
pub enum LinkOutcome {
    /// The station is connected, or not.
    Connected { yes: bool },
    /// The station is disconnected now.
    Disconnected,
    /// The wait is over.
    Elapsed,
    /// The radio is started, or not.
    Started { yes: bool },
    /// The radio was started, or could not be.
    StartDone { ok: bool },
    /// The network was joined, or the attempt failed.
    Joined { ok: bool },
    /// The event was posted.
    Announced,
}

/// Where the activity stands.
#[derive(Clone, Copy, Debug, PartialEq, Eq, Structural)]
pub enum LinkPhase {
    /// Asking whether the station is connected.
    Inspect,
    /// Connected: waiting for the connection to drop.
    Online,
    /// Pausing after the connection dropped.
    Cooldown,
    /// Asking whether the radio is started.
    Radio,
    /// Starting the radio.
    Starting,
    /// Joining the network.
    Joining,
    /// Saying that the network was joined.
    Announcing,
    /// Pausing after an attempt to join failed.
    Retry,
    /// Terminal: the radio could not be started.
    Aborted,
}

/// The action that a phase asks for.
pub open spec fn link_action_of(phase: LinkPhase) -> LinkAction {
    match phase {
        LinkPhase::Inspect => LinkAction::CheckConnected,
        LinkPhase::Online => LinkAction::AwaitDisconnect,
        LinkPhase::Cooldown | LinkPhase::Retry => LinkAction::Wait { millis: REJOIN_DELAY_MILLIS },
        LinkPhase::Radio => LinkAction::CheckStarted,
        LinkPhase::Starting => LinkAction::Start,
        LinkPhase::Joining => LinkAction::Join,
        LinkPhase::Announcing => LinkAction::Announce,
        LinkPhase::Aborted => LinkAction::Abort,
    }
}

/// The phase that follows `phase` once its action has come to `outcome`. An
/// outcome of another action changes nothing, and nothing leads out of
/// `Aborted`.
pub open spec fn next_link_phase(phase: LinkPhase, outcome: LinkOutcome) -> LinkPhase {
    match (phase, outcome) {
        (LinkPhase::Inspect, LinkOutcome::Connected { yes }) => if yes {
            LinkPhase::Online
        } else {
            LinkPhase::Radio
        },
        (LinkPhase::Online, LinkOutcome::Disconnected) => LinkPhase::Cooldown,
        (LinkPhase::Cooldown, LinkOutcome::Elapsed) => LinkPhase::Radio,
        (LinkPhase::Radio, LinkOutcome::Started { yes }) => if yes {
            LinkPhase::Joining
        } else {
            LinkPhase::Starting
        },
        (LinkPhase::Starting, LinkOutcome::StartDone { ok }) => if ok {
            LinkPhase::Joining
        } else {
            LinkPhase::Aborted
        },
        (LinkPhase::Joining, LinkOutcome::Joined { ok }) => if ok {
            LinkPhase::Announcing
        } else {
            LinkPhase::Retry
        },
        (LinkPhase::Announcing, LinkOutcome::Announced) => LinkPhase::Inspect,
        (LinkPhase::Retry, LinkOutcome::Elapsed) => LinkPhase::Inspect,
        _ => phase,
    }
}

impl LinkPhase {
    /// The phase in which the activity starts.
    pub fn start() -> (p: LinkPhase)
        ensures
            p == LinkPhase::Inspect,
    {
        LinkPhase::Inspect
    }

    /// The action that this phase asks for.
    pub fn action(&self) -> (a: LinkAction)
        ensures
            a == link_action_of(*self),
    {
        match self {
            LinkPhase::Inspect => LinkAction::CheckConnected,
            LinkPhase::Online => LinkAction::AwaitDisconnect,
            LinkPhase::Cooldown => LinkAction::Wait { millis: REJOIN_DELAY_MILLIS },
            LinkPhase::Retry => LinkAction::Wait { millis: REJOIN_DELAY_MILLIS },
            LinkPhase::Radio => LinkAction::CheckStarted,
            LinkPhase::Starting => LinkAction::Start,
            LinkPhase::Joining => LinkAction::Join,
            LinkPhase::Announcing => LinkAction::Announce,
            LinkPhase::Aborted => LinkAction::Abort,
        }
    }

    /// The phase that follows once this phase's action has come to
    /// `outcome`.
    pub fn step(self, outcome: LinkOutcome) -> (p: LinkPhase)
        ensures
            p == next_link_phase(self, outcome),
    {
        match self {
            LinkPhase::Inspect => match outcome {
                LinkOutcome::Connected { yes: true } => LinkPhase::Online,
                LinkOutcome::Connected { yes: false } => LinkPhase::Radio,
                _ => self,
            },
            LinkPhase::Online => match outcome {
                LinkOutcome::Disconnected => LinkPhase::Cooldown,
                _ => self,
            },
            LinkPhase::Cooldown => match outcome {
                LinkOutcome::Elapsed => LinkPhase::Radio,
                _ => self,
            },
            LinkPhase::Radio => match outcome {
                LinkOutcome::Started { yes: true } => LinkPhase::Joining,
                LinkOutcome::Started { yes: false } => LinkPhase::Starting,
                _ => self,
            },
            LinkPhase::Starting => match outcome {
                LinkOutcome::StartDone { ok: true } => LinkPhase::Joining,
                LinkOutcome::StartDone { ok: false } => LinkPhase::Aborted,
                _ => self,
            },
            LinkPhase::Joining => match outcome {
                LinkOutcome::Joined { ok: true } => LinkPhase::Announcing,
                LinkOutcome::Joined { ok: false } => LinkPhase::Retry,
                _ => self,
            },
            LinkPhase::Announcing => match outcome {
                LinkOutcome::Announced => LinkPhase::Inspect,
                _ => self,
            },
            LinkPhase::Retry => match outcome {
                LinkOutcome::Elapsed => LinkPhase::Inspect,
                _ => self,
            },
            LinkPhase::Aborted => self,
        }
    }
}

/// The node says that it is on the network only after it joined: a step
/// leads into `Announcing` only from `Joining`, on a join that succeeded.
pub proof fn lemma_announce_follows_join(phase: LinkPhase, outcome: LinkOutcome)
    requires
        phase != LinkPhase::Announcing,
        next_link_phase(phase, outcome) == LinkPhase::Announcing,
    ensures
        phase == LinkPhase::Joining,
        outcome == (LinkOutcome::Joined { ok: true }),
{
}

/// A failed start of the radio ends the activity for good.
pub proof fn lemma_aborted_is_terminal(outcome: LinkOutcome)
    ensures
        next_link_phase(LinkPhase::Starting, LinkOutcome::StartDone { ok: false })
            == LinkPhase::Aborted,
        next_link_phase(LinkPhase::Aborted, outcome) == LinkPhase::Aborted,
{
}

} // verus!
