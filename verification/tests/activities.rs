use embsens::driver::{
    Action, Outcome, Phase, BROKER_PORT, CONNECT_TIMEOUT_SECS, HANDSHAKE_RETRY_MILLIS,
    KEEP_ALIVE_SECS, NETWORK_POLL_MILLIS, PUBLISH_PERIOD_MILLIS, RECONNECT_DELAY_MILLIS,
    SUBSCRIBE_DELAY_MILLIS,
};
use embsens::link::{LinkAction, LinkOutcome, LinkPhase, REJOIN_DELAY_MILLIS};

fn run(mut phase: Phase, outcomes: &[Outcome]) -> Vec<Action> {
    let mut actions = vec![phase.action()];
    for outcome in outcomes {
        phase = phase.step(*outcome);
        actions.push(phase.action());
    }
    actions
}

#[test]
fn the_delays_and_defaults() {
    assert_eq!(NETWORK_POLL_MILLIS, 500);
    assert_eq!(RECONNECT_DELAY_MILLIS, 5000);
    assert_eq!(HANDSHAKE_RETRY_MILLIS, 10000);
    assert_eq!(SUBSCRIBE_DELAY_MILLIS, 2000);
    assert_eq!(PUBLISH_PERIOD_MILLIS, 2000);
    assert_eq!(CONNECT_TIMEOUT_SECS, 30);
    assert_eq!(KEEP_ALIVE_SECS, 60);
    assert_eq!(BROKER_PORT, 1883);
    assert_eq!(REJOIN_DELAY_MILLIS, 5000);
}

#[test]
fn the_session_comes_up_when_all_goes_well() {
    let actions = run(
        Phase::start(),
        &[
            Outcome::Link { up: false },
            Outcome::Elapsed,
            Outcome::Link { up: true },
            Outcome::Address { known: false },
            Outcome::Elapsed,
            Outcome::Address { known: true },
            Outcome::Opened { ok: true },
            Outcome::Connected { ok: true },
            Outcome::Elapsed,
            Outcome::Subscribed { ok: true },
            Outcome::Elapsed,
            Outcome::Published { ok: true },
            Outcome::Elapsed,
        ],
    );
    assert_eq!(
        actions,
        vec![
            Action::CheckLink,
            Action::Wait { millis: 500 },
            Action::CheckLink,
            Action::CheckAddress,
            Action::Wait { millis: 500 },
            Action::CheckAddress,
            Action::OpenTransport { port: 1883, timeout_secs: 30 },
            Action::Connect { keep_alive_secs: 60 },
            Action::Wait { millis: 2000 },
            Action::Subscribe,
            Action::Wait { millis: 2000 },
            Action::Publish,
            Action::Wait { millis: 2000 },
            Action::Publish,
        ]
    );
}

#[test]
fn a_transport_that_does_not_open_is_tried_again_after_five_seconds() {
    let actions = run(Phase::Opening, &[Outcome::Opened { ok: false }, Outcome::Elapsed]);
    assert_eq!(
        actions,
        vec![
            Action::OpenTransport { port: 1883, timeout_secs: 30 },
            Action::Wait { millis: 5000 },
            Action::OpenTransport { port: 1883, timeout_secs: 30 },
        ]
    );
}

#[test]
fn a_failed_handshake_is_tried_again_after_ten_seconds() {
    let actions = run(Phase::Handshake, &[Outcome::Connected { ok: false }, Outcome::Elapsed]);
    assert_eq!(
        actions,
        vec![
            Action::Connect { keep_alive_secs: 60 },
            Action::Wait { millis: 10000 },
            Action::OpenTransport { port: 1883, timeout_secs: 30 },
        ]
    );
}

#[test]
fn a_failed_publication_ends_the_session_after_two_pauses() {
    let actions = run(
        Phase::Publishing,
        &[Outcome::Published { ok: false }, Outcome::Elapsed, Outcome::Elapsed],
    );
    assert_eq!(
        actions,
        vec![
            Action::Publish,
            Action::Wait { millis: 5000 },
            Action::Wait { millis: 5000 },
            Action::OpenTransport { port: 1883, timeout_secs: 30 },
        ]
    );
}

#[test]
fn a_lost_session_is_opened_again_after_five_seconds() {
    let actions = run(Phase::PublishPause, &[Outcome::Lost, Outcome::Elapsed, Outcome::Opened { ok: true }]);
    assert_eq!(
        actions,
        vec![
            Action::Wait { millis: 2000 },
            Action::Wait { millis: 5000 },
            Action::OpenTransport { port: 1883, timeout_secs: 30 },
            Action::Connect { keep_alive_secs: 60 },
        ]
    );
}

#[test]
fn a_failed_subscription_does_not_end_the_session() {
    assert_eq!(Phase::Subscribing.step(Outcome::Subscribed { ok: false }), Phase::PublishPause);
    assert_eq!(Phase::Subscribing.step(Outcome::Subscribed { ok: true }), Phase::PublishPause);
}

#[test]
fn an_outcome_of_another_action_changes_nothing() {
    let phases = [
        Phase::LinkQuery,
        Phase::LinkPause,
        Phase::AddressQuery,
        Phase::AddressPause,
        Phase::Opening,
        Phase::OpenBackoff,
        Phase::Handshake,
        Phase::HandshakeBackoff,
        Phase::SubscribePause,
        Phase::Subscribing,
        Phase::PublishPause,
        Phase::Publishing,
        Phase::PublishBackoff,
        Phase::SessionBackoff,
    ];
    let outcomes = [
        Outcome::Link { up: true },
        Outcome::Address { known: true },
        Outcome::Elapsed,
        Outcome::Opened { ok: true },
        Outcome::Connected { ok: true },
        Outcome::Subscribed { ok: true },
        Outcome::Published { ok: true },
    ];
    for phase in phases {
        let up = matches!(
            phase,
            Phase::Handshake
                | Phase::SubscribePause
                | Phase::Subscribing
                | Phase::PublishPause
                | Phase::Publishing
        );
        assert_eq!(phase.step(Outcome::Lost), if up { Phase::SessionBackoff } else { phase });
        let mut moved = 0;
        for outcome in outcomes {
            let fits = matches!(
                (phase.action(), outcome),
                (Action::CheckLink, Outcome::Link { .. })
                    | (Action::CheckAddress, Outcome::Address { .. })
                    | (Action::Wait { .. }, Outcome::Elapsed)
                    | (Action::OpenTransport { .. }, Outcome::Opened { .. })
                    | (Action::Connect { .. }, Outcome::Connected { .. })
                    | (Action::Subscribe, Outcome::Subscribed { .. })
                    | (Action::Publish, Outcome::Published { .. })
            );
            if fits {
                assert_ne!(phase.step(outcome), phase);
                moved += 1;
            } else {
                assert_eq!(phase.step(outcome), phase);
            }
        }
        assert_eq!(moved, 1);
    }
}

fn run_link(mut phase: LinkPhase, outcomes: &[LinkOutcome]) -> Vec<LinkAction> {
    let mut actions = vec![phase.action()];
    for outcome in outcomes {
        phase = phase.step(*outcome);
        actions.push(phase.action());
    }
    actions
}

#[test]
fn the_node_joins_the_network_and_says_so() {
    let actions = run_link(
        LinkPhase::start(),
        &[
            LinkOutcome::Connected { yes: false },
            LinkOutcome::Started { yes: false },
            LinkOutcome::StartDone { ok: true },
            LinkOutcome::Joined { ok: true },
            LinkOutcome::Announced,
            LinkOutcome::Connected { yes: true },
            LinkOutcome::Disconnected,
            LinkOutcome::Elapsed,
            LinkOutcome::Started { yes: true },
        ],
    );
    assert_eq!(
        actions,
        vec![
            LinkAction::CheckConnected,
            LinkAction::CheckStarted,
            LinkAction::Start,
            LinkAction::Join,
            LinkAction::Announce,
            LinkAction::CheckConnected,
            LinkAction::AwaitDisconnect,
            LinkAction::Wait { millis: 5000 },
            LinkAction::CheckStarted,
            LinkAction::Join,
        ]
    );
}

#[test]
fn a_failed_join_is_tried_again_after_five_seconds() {
    let actions = run_link(
        LinkPhase::Joining,
        &[LinkOutcome::Joined { ok: false }, LinkOutcome::Elapsed],
    );
    assert_eq!(
        actions,
        vec![LinkAction::Join, LinkAction::Wait { millis: 5000 }, LinkAction::CheckConnected]
    );
}

#[test]
fn a_radio_that_does_not_start_ends_the_activity() {
    let mut phase = LinkPhase::Starting.step(LinkOutcome::StartDone { ok: false });
    assert_eq!(phase, LinkPhase::Aborted);
    assert_eq!(phase.action(), LinkAction::Abort);
    for outcome in [
        LinkOutcome::Connected { yes: true },
        LinkOutcome::Disconnected,
        LinkOutcome::Elapsed,
        LinkOutcome::Started { yes: true },
        LinkOutcome::StartDone { ok: true },
        LinkOutcome::Joined { ok: true },
        LinkOutcome::Announced,
    ] {
        phase = phase.step(outcome);
        assert_eq!(phase, LinkPhase::Aborted);
    }
}

#[test]
fn a_link_outcome_of_another_action_changes_nothing() {
    assert_eq!(LinkPhase::Inspect.step(LinkOutcome::Elapsed), LinkPhase::Inspect);
    assert_eq!(LinkPhase::Online.step(LinkOutcome::Joined { ok: true }), LinkPhase::Online);
    assert_eq!(LinkPhase::Joining.step(LinkOutcome::Announced), LinkPhase::Joining);
    assert_eq!(LinkPhase::Retry.step(LinkOutcome::Disconnected), LinkPhase::Retry);
    assert_eq!(LinkPhase::Cooldown.step(LinkOutcome::Elapsed), LinkPhase::Radio);
}
