//! What the node says to its broker: where the broker is, the topics, and
//! the packets that open a session, carry a sample and ask for commands.

use vstd::prelude::*;
use vstd::string::StringExecFns;
use vstd::utf8::{decode_utf8, encode_utf8, valid_utf8};
use crate::codec::{filters_of, text_bytes};
use crate::driver::KEEP_ALIVE_SECS;
use crate::error::TinyMqttError;
use crate::fsm::{Effect, EffectView, Event, EventView, SampleKind};
use crate::packet::{Publish, QoS, SubscribeTopic, TopicFilter};
use crate::session::{connected, published, subscribed, TinyMqtt, TinyMqttView};
use crate::text::text_of;

verus! {

/// The scheme of a broker's address.
pub const URL_SCHEME: &'static str = "mqtt://";

/// The topic of temperature samples.
pub const TEMPERATURE_TOPIC: &'static str = "/rust/temperature";

/// The topic of humidity samples.
pub const HUMIDITY_TOPIC: &'static str = "/rust/humidity";

/// The topic of acceleration and rotation samples.
pub const MOTION_TOPIC: &'static str = "/rust/motion";

/// The topic on which commands arrive.
pub const COMMAND_TOPIC: &'static str = "/rust/command";

/// The topic of the message that announces the node.
pub const WELCOME_TOPIC: &'static str = "/rust/test";

/// The message that announces the node.
pub const WELCOME_MESSAGE: &'static str = "Rust sensor node connected to MQTT.";

/// The address of the broker at `host`: with user and password before the
/// host where both are given, without either otherwise.
pub open spec fn broker_url_of(
    host: Seq<char>,
    user: Option<Seq<char>>,
    passwd: Option<Seq<char>>,
) -> Seq<char> {
    if user is Some && passwd is Some {
        URL_SCHEME@ + user->0 + ":"@ + passwd->0 + "@"@ + host
    } else {
        URL_SCHEME@ + host
    }
}

/// The view of a text that may be missing.
pub open spec fn str_view(text: Option<&str>) -> Option<Seq<char>> {
    match text {
        Some(t) => Some(t@),
        None => None,
    }
}

/// The address of the broker at `host`.
pub fn broker_url(host: &str, user: Option<&str>, passwd: Option<&str>) -> (url: String)
    ensures
        url@ == broker_url_of(host@, str_view(user), str_view(passwd)),
{
    let mut url = String::from_str(URL_SCHEME);
    if let (Some(user), Some(passwd)) = (user, passwd) {
        url.append(user);
        url.append(":");
        url.append(passwd);
        url.append("@");
    }
    url.append(host);
    url
}

/// The topic on which samples of a kind are published.
pub open spec fn topic_of(kind: SampleKind) -> Seq<char> {
    match kind {
        SampleKind::Temperature => TEMPERATURE_TOPIC@,
        SampleKind::Humidity => HUMIDITY_TOPIC@,
        SampleKind::Accel6Axis => MOTION_TOPIC@,
    }
}

/// The topic on which samples of a kind are published.
pub fn sample_topic(kind: SampleKind) -> (topic: &'static str)
    ensures
        topic@ == topic_of(kind),
{
    match kind {
        SampleKind::Temperature => TEMPERATURE_TOPIC,
        SampleKind::Humidity => HUMIDITY_TOPIC,
        SampleKind::Accel6Axis => MOTION_TOPIC,
    }
}

/// Enqueues the PUBLISH packet of a sample: on the topic of its kind, with
/// the sample's values as payload, sent at least once, to be retained by the
/// broker.
pub fn send_sample(mqtt: &mut TinyMqtt, kind: SampleKind, values: &str) -> (r: Result<
    (),
    TinyMqttError,
>)
    requires
        old(mqtt).wf(),
    ensures
        final(mqtt).wf(),
        (final(mqtt)@, r) == published(
            old(mqtt)@,
            None,
            encode_utf8(topic_of(kind)),
            encode_utf8(values@),
            QoS::AtLeastOnce,
            true,
        ),
{
    mqtt.publish_message(None, sample_topic(kind), values.as_bytes(), QoS::AtLeastOnce, true)
}

/// Enqueues the PUBLISH packet of a temperature reading, given as the text
/// to publish.
pub fn send_temperature(mqtt: &mut TinyMqtt, reading: &str) -> (r: Result<(), TinyMqttError>)
    requires
        old(mqtt).wf(),
    ensures
        final(mqtt).wf(),
        (final(mqtt)@, r) == published(
            old(mqtt)@,
            None,
            encode_utf8(TEMPERATURE_TOPIC@),
            encode_utf8(reading@),
            QoS::AtLeastOnce,
            true,
        ),
{
    send_sample(mqtt, SampleKind::Temperature, reading)
}

/// The one topic filter of the subscription to commands.
pub open spec fn command_filters() -> Seq<TopicFilter> {
    seq![TopicFilter { path: encode_utf8(COMMAND_TOPIC@), qos: QoS::AtLeastOnce }]
}

/// Enqueues the SUBSCRIBE packet for the command topic, to be delivered at
/// least once.
pub fn subscribe_commands(mqtt: &mut TinyMqtt) -> (r: Result<(), TinyMqttError>)
    requires
        old(mqtt).wf(),
    ensures
        final(mqtt).wf(),
        (final(mqtt)@, r) == subscribed(old(mqtt)@, command_filters()),
{
    let mut topics: Vec<SubscribeTopic> = Vec::new();
    topics.push(
        SubscribeTopic { topic_path: String::from_str(COMMAND_TOPIC), qos: QoS::AtLeastOnce },
    );
    assert(filters_of(topics@) =~= command_filters());
    mqtt.subscribe(topics.as_slice())
}

/// The user name that goes into the handshake: the one given, if a password
/// is given too.
pub open spec fn session_user(user: Option<&str>, passwd: Option<&str>) -> Option<Seq<u8>> {
    if user is Some && passwd is Some {
        text_bytes(user)
    } else {
        None
    }
}

/// The password that goes into the handshake: the one given, if a user name
/// is given too.
pub open spec fn session_password(user: Option<&str>, passwd: Option<&str>) -> Option<Seq<u8>> {
    if user is Some && passwd is Some {
        text_bytes(passwd)
    } else {
        None
    }
}

/// The engine and the result of opening a session at the time `now`: the
/// handshake, then the message that announces the node, then the
/// subscription to commands. The first step that fails ends it; what was
/// enqueued before stays enqueued.
pub open spec fn session_started(
    engine: TinyMqttView,
    username: Option<Seq<u8>>,
    password: Option<Seq<u8>>,
    now: u64,
) -> (TinyMqttView, Result<(), TinyMqttError>) {
    let (greeted, hello) = connected(engine, KEEP_ALIVE_SECS, username, password, now);
    if hello is Err {
        (greeted, hello)
    } else {
        let (announced, welcome) = published(
            greeted,
            None,
            encode_utf8(WELCOME_TOPIC@),
            encode_utf8(WELCOME_MESSAGE@),
            QoS::AtLeastOnce,
            true,
        );
        if welcome is Err {
            (announced, welcome)
        } else {
            subscribed(announced, command_filters())
        }
    }
}

/// Opens a session: enqueues the handshake, with user name and password
/// where both are given, then the message that announces the node, then the
/// subscription to commands.
pub fn start_mqtt_client(
    mqtt: &mut TinyMqtt,
    user: Option<&str>,
    passwd: Option<&str>,
    now: u64,
) -> (r: Result<(), TinyMqttError>)
    requires
        old(mqtt).wf(),
    ensures
        final(mqtt).wf(),
        (final(mqtt)@, r) == session_started(
            old(mqtt)@,
            session_user(user, passwd),
            session_password(user, passwd),
            now,
        ),
{
    match (user, passwd) {
        (Some(user), Some(passwd)) => {
            mqtt.connect(KEEP_ALIVE_SECS, Some(user), Some(passwd.as_bytes()), now)?;
        },
        _ => {
            mqtt.connect(KEEP_ALIVE_SECS, None, None, now)?;
        },
    }
    mqtt.publish_message(
        None,
        WELCOME_TOPIC,
        WELCOME_MESSAGE.as_bytes(),
        QoS::AtLeastOnce,
        true,
    )?;
    subscribe_commands(mqtt)?;
    Ok(())
}

/// The bytes of a text that may be missing.
pub open spec fn opt_bytes(text: Option<Seq<char>>) -> Option<Seq<u8>> {
    match text {
        Some(t) => Some(encode_utf8(t)),
        None => None,
    }
}

/// An engine's result with the note that the effect was one for the engine.
pub open spec fn done(outcome: (TinyMqttView, Result<(), TinyMqttError>)) -> (
    TinyMqttView,
    Result<bool, TinyMqttError>,
) {
    match outcome.1 {
        Ok(_) => (outcome.0, Ok(true)),
        Err(e) => (outcome.0, Err(e)),
    }
}

/// The engine and the result once an effect of the state machine was
/// carried out on it at the time `now`. Opening the session enqueues the
/// handshake, with user name and password where both are given; the
/// subscription to commands and the publication of a sample enqueue their
/// packets. Any other effect is none for the engine, which stays as it is.
pub open spec fn carried_out(engine: TinyMqttView, effect: EffectView, now: u64) -> (
    TinyMqttView,
    Result<bool, TinyMqttError>,
) {
    match effect {
        EffectView::OpenSession { user, password, .. } => if user is Some && password is Some {
            done(connected(engine, KEEP_ALIVE_SECS, opt_bytes(user), opt_bytes(password), now))
        } else {
            done(connected(engine, KEEP_ALIVE_SECS, None, None, now))
        },
        EffectView::SubscribeCommands => done(subscribed(engine, command_filters())),
        EffectView::PublishSample { kind, values } => done(
            published(
                engine,
                None,
                encode_utf8(topic_of(kind)),
                encode_utf8(values),
                QoS::AtLeastOnce,
                true,
            ),
        ),
        _ => (engine, Ok(false)),
    }
}

/// Carries out on the engine an effect of the state machine, if it is one
/// for the engine, and says whether it was.
pub fn carry_out(mqtt: &mut TinyMqtt, effect: &Effect, now: u64) -> (r: Result<bool, TinyMqttError>)
    requires
        old(mqtt).wf(),
    ensures
        final(mqtt).wf(),
        (final(mqtt)@, r) == carried_out(old(mqtt)@, effect@, now),
{
    match effect {
        Effect::OpenSession { user, password, .. } => {
            match (user, password) {
                (Some(user), Some(password)) => {
                    mqtt.connect(
                        KEEP_ALIVE_SECS,
                        Some(user.as_str()),
                        Some(password.as_str().as_bytes()),
                        now,
                    )?;
                },
                _ => {
                    mqtt.connect(KEEP_ALIVE_SECS, None, None, now)?;
                },
            }
            Ok(true)
        },
        Effect::SubscribeCommands => {
            subscribe_commands(mqtt)?;
            Ok(true)
        },
        Effect::PublishSample { kind, values } => {
            send_sample(mqtt, *kind, values.as_str())?;
            Ok(true)
        },
        _ => Ok(false),
    }
}

/// The event that a command's bytes stand for: a remote command with the
/// bytes as its text, if they are valid UTF-8.
pub fn command_event(data: &[u8]) -> (event: Option<Event>)
    ensures
        event is Some <==> valid_utf8(data@),
        event is Some ==> event->0@ == (EventView::RemoteCommand { text: decode_utf8(data@) }),
{
    match text_of(data) {
        Some(text) => Some(Event::RemoteCommand { text }),
        None => None,
    }
}

/// The event that a received message stands for: a remote command, if the
/// message came on the command topic and its payload is valid UTF-8.
pub fn command_of(message: &Publish) -> (event: Option<Event>)
    ensures
        event is Some <==> message.topic_name@ == COMMAND_TOPIC@ && valid_utf8(message.payload@),
        event is Some ==> event->0@ == (EventView::RemoteCommand {
            text: decode_utf8(message.payload@),
        }),
{
    let topic = String::from_str(COMMAND_TOPIC);
    if message.topic_name == topic {
        command_event(message.payload.as_slice())
    } else {
        None
    }
}

} // verus!
