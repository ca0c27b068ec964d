//! The connectivity state machine. It owns the node's connection state and
//! consumes events one at a time. A transition is a pure function of state
//! and event; what has to happen on entering a state is handed back as a
//! list of effects for the caller to carry out.

use vstd::prelude::*;
use crate::error::FsmError;
use crate::store::{clone_text, text_view, CredentialStore, StoreKey};

verus! {

/// What a sensor measures.
#[derive(Clone, Copy, Debug, PartialEq, Eq, Structural)]
pub enum SampleKind {
    /// Temperature in degrees Celsius.
    Temperature,
    /// Relative humidity in percent.
    Humidity,
    /// Acceleration and rotation, three axes each.
    Accel6Axis,
}

/// The connection state of the node.
#[derive(Clone, Debug, PartialEq, Eq)]
pub enum State {
    /// No credentials are in use yet.
    Unprovisioned,
    /// Credentials are known; the node joins the network.
    Provisioned {
        wifi_ssid: String,
        wifi_psk: String,
        broker_host: String,
        broker_user: Option<String>,
        broker_password: Option<String>,
    },
    /// The node is on the network; the broker session is being opened.
    NetworkAttached,
    /// The broker session is up.
    SessionActive,
    /// Terminal: an unrecoverable local error.
    Failed,
}

/// A connection state as mathematics.
pub enum StateView {
    Unprovisioned,
    Provisioned {
        wifi_ssid: Seq<char>,
        wifi_psk: Seq<char>,
        broker_host: Seq<char>,
        broker_user: Option<Seq<char>>,
        broker_password: Option<Seq<char>>,
    },
    NetworkAttached,
    SessionActive,
    Failed,
}

impl View for State {
    type V = StateView;

    open spec fn view(&self) -> StateView {
        match *self {
            State::Unprovisioned => StateView::Unprovisioned,
            State::Provisioned { wifi_ssid, wifi_psk, broker_host, broker_user, broker_password } => {
                StateView::Provisioned {
                    wifi_ssid: wifi_ssid@,
                    wifi_psk: wifi_psk@,
                    broker_host: broker_host@,
                    broker_user: text_view(broker_user),
                    broker_password: text_view(broker_password),
                }
            },
            State::NetworkAttached => StateView::NetworkAttached,
            State::SessionActive => StateView::SessionActive,
            State::Failed => StateView::Failed,
        }
    }
}

/// What can happen to the node.
#[derive(Clone, Debug, PartialEq, Eq)]
pub enum Event {
    /// Credentials were provided, by the provisioning page or from the store.
    CredentialsProvided {
        wifi_ssid: String,
        wifi_psk: String,
        broker_host: String,
        broker_user: Option<String>,
        broker_password: Option<String>,
    },
    /// The node joined the network.
    NetworkAttached,
    /// The node left the network.
    NetworkDetached,
    /// The broker session is up.
    SessionEstablished,
    /// The broker session was lost.
    SessionLost,
    /// A sensor delivered a sample; `values` is its reading as the text that
    /// is published.
    SensorSample { kind: SampleKind, values: String },
    /// A command arrived from the broker.
    RemoteCommand { text: String },
}

/// An event as mathematics.
pub enum EventView {
    CredentialsProvided {
        wifi_ssid: Seq<char>,
        wifi_psk: Seq<char>,
        broker_host: Seq<char>,
        broker_user: Option<Seq<char>>,
        broker_password: Option<Seq<char>>,
    },
    NetworkAttached,
    NetworkDetached,
    SessionEstablished,
    SessionLost,
    SensorSample { kind: SampleKind, values: Seq<char> },
    RemoteCommand { text: Seq<char> },
}

impl View for Event {
    type V = EventView;

    open spec fn view(&self) -> EventView {
        match *self {
            Event::CredentialsProvided {
                wifi_ssid,
                wifi_psk,
                broker_host,
                broker_user,
                broker_password,
            } => EventView::CredentialsProvided {
                wifi_ssid: wifi_ssid@,
                wifi_psk: wifi_psk@,
                broker_host: broker_host@,
                broker_user: text_view(broker_user),
                broker_password: text_view(broker_password),
            },
            Event::NetworkAttached => EventView::NetworkAttached,
            Event::NetworkDetached => EventView::NetworkDetached,
            Event::SessionEstablished => EventView::SessionEstablished,
            Event::SessionLost => EventView::SessionLost,
            Event::SensorSample { kind, values } => EventView::SensorSample { kind, values: values@ },
            Event::RemoteCommand { text } => EventView::RemoteCommand { text: text@ },
        }
    }
}

/// Something that has to happen because a state was entered. The state
/// machine decides it; its caller does it.
#[derive(Clone, Debug, PartialEq, Eq)]
pub enum Effect {
    /// Post this event to the event channel.
    Emit(Event),
    /// Start access-point mode and the provisioning page.
    StartAccessPoint,
    /// Stop the provisioning page if it runs.
    StopProvisioning,
    /// Write this value under this key of the persistent store.
    Persist { key: StoreKey, value: String },
    /// Join this network in station mode.
    StartStation { wifi_ssid: String, wifi_psk: String },
    /// Open the broker session.
    OpenSession { host: String, user: Option<String>, password: Option<String> },
    /// Subscribe to the command topic.
    SubscribeCommands,
    /// Hand this command to the application.
    DispatchCommand { text: String },
    /// Publish this sample.
    PublishSample { kind: SampleKind, values: String },
}

/// An effect as mathematics.
pub enum EffectView {
    Emit(EventView),
    StartAccessPoint,
    StopProvisioning,
    Persist { key: StoreKey, value: Seq<char> },
    StartStation { wifi_ssid: Seq<char>, wifi_psk: Seq<char> },
    OpenSession { host: Seq<char>, user: Option<Seq<char>>, password: Option<Seq<char>> },
    SubscribeCommands,
    DispatchCommand { text: Seq<char> },
    PublishSample { kind: SampleKind, values: Seq<char> },
}

impl View for Effect {
    type V = EffectView;

    open spec fn view(&self) -> EffectView {
        match *self {
            Effect::Emit(event) => EffectView::Emit(event@),
            Effect::StartAccessPoint => EffectView::StartAccessPoint,
            Effect::StopProvisioning => EffectView::StopProvisioning,
            Effect::Persist { key, value } => EffectView::Persist { key, value: value@ },
            Effect::StartStation { wifi_ssid, wifi_psk } => EffectView::StartStation {
                wifi_ssid: wifi_ssid@,
                wifi_psk: wifi_psk@,
            },
            Effect::OpenSession { host, user, password } => EffectView::OpenSession {
                host: host@,
                user: text_view(user),
                password: text_view(password),
            },
            Effect::SubscribeCommands => EffectView::SubscribeCommands,
            Effect::DispatchCommand { text } => EffectView::DispatchCommand { text: text@ },
            Effect::PublishSample { kind, values } => EffectView::PublishSample { kind, values: values@ },
        }
    }
}

/// A list of effects as mathematics.
pub open spec fn effects_view(effects: Seq<Effect>) -> Seq<EffectView> {
    effects.map_values(|e: Effect| e@)
}

/// The rows of the transition table: the pairs of state and event on which
/// the machine moves.
pub open spec fn in_table(state: StateView, event: EventView) -> bool {
    ||| state is Unprovisioned && event is CredentialsProvided
    ||| state is Provisioned && event is NetworkAttached
    ||| state is NetworkAttached && event is SessionEstablished
    ||| state is SessionActive && event is RemoteCommand
    ||| state is SessionActive && event is SensorSample
}

/// The state that follows `state` on `event`, or none where the event means
/// nothing in that state.
pub open spec fn transition(state: StateView, event: EventView) -> Option<StateView> {
    match (state, event) {
        (
            StateView::Unprovisioned,
            EventView::CredentialsProvided {
                wifi_ssid,
                wifi_psk,
                broker_host,
                broker_user,
                broker_password,
            },
        ) => Some(
            StateView::Provisioned { wifi_ssid, wifi_psk, broker_host, broker_user, broker_password },
        ),
        (StateView::Provisioned { .. }, EventView::NetworkAttached) => Some(StateView::NetworkAttached),
        (StateView::NetworkAttached, EventView::SessionEstablished) => Some(StateView::SessionActive),
        (StateView::SessionActive, EventView::RemoteCommand { .. }) => Some(StateView::SessionActive),
        (StateView::SessionActive, EventView::SensorSample { .. }) => Some(StateView::SessionActive),
        _ => None,
    }
}

/// The writes to the persistent store that provisioning asks for: the three
/// values that are always there, and user and password where both are given.
pub open spec fn persist_effects(
    wifi_ssid: Seq<char>,
    wifi_psk: Seq<char>,
    broker_host: Seq<char>,
    broker_user: Option<Seq<char>>,
    broker_password: Option<Seq<char>>,
) -> Seq<EffectView> {
    let always = seq![
        EffectView::Persist { key: StoreKey::WifiSsid, value: wifi_ssid },
        EffectView::Persist { key: StoreKey::WifiPsk, value: wifi_psk },
        EffectView::Persist { key: StoreKey::MqttHost, value: broker_host },
    ];
    if broker_user is Some && broker_password is Some {
        always + seq![
            EffectView::Persist { key: StoreKey::MqttUser, value: broker_user->0 },
            EffectView::Persist { key: StoreKey::MqttPasswd, value: broker_password->0 },
        ]
    } else {
        always
    }
}

/// The effects of taking `event` in `state`, in the order in which they are
/// to happen. Where the machine does not move there are none.
pub open spec fn effects_of(state: StateView, event: EventView) -> Seq<EffectView> {
    match (state, event) {
        (
            StateView::Unprovisioned,
            EventView::CredentialsProvided {
                wifi_ssid,
                wifi_psk,
                broker_host,
                broker_user,
                broker_password,
            },
        ) => seq![EffectView::StopProvisioning] + persist_effects(
            wifi_ssid,
            wifi_psk,
            broker_host,
            broker_user,
            broker_password,
        ) + seq![EffectView::StartStation { wifi_ssid, wifi_psk }],
        (
            StateView::Provisioned { broker_host, broker_user, broker_password, .. },
            EventView::NetworkAttached,
        ) => seq![
            EffectView::OpenSession { host: broker_host, user: broker_user, password: broker_password },
        ],
        (StateView::NetworkAttached, EventView::SessionEstablished) => seq![
            EffectView::SubscribeCommands,
        ],
        (StateView::SessionActive, EventView::RemoteCommand { text }) => seq![
            EffectView::DispatchCommand { text },
        ],
        (StateView::SessionActive, EventView::SensorSample { kind, values }) => seq![
            EffectView::PublishSample { kind, values },
        ],
        _ => Seq::<EffectView>::empty(),
    }
}

/// What the store holds under `key` once `event` was taken in `state`,
/// `before` being what it held until then.
pub open spec fn stored_after(
    before: Option<Seq<char>>,
    key: StoreKey,
    state: StateView,
    event: EventView,
) -> Option<Seq<char>> {
    match (state, event) {
        (
            StateView::Unprovisioned,
            EventView::CredentialsProvided {
                wifi_ssid,
                wifi_psk,
                broker_host,
                broker_user,
                broker_password,
            },
        ) => match key {
            StoreKey::WifiSsid => Some(wifi_ssid),
            StoreKey::WifiPsk => Some(wifi_psk),
            StoreKey::MqttHost => Some(broker_host),
            StoreKey::MqttUser => if broker_user is Some && broker_password is Some {
                broker_user
            } else {
                before
            },
            StoreKey::MqttPasswd => if broker_user is Some && broker_password is Some {
                broker_password
            } else {
                before
            },
        },
        _ => before,
    }
}

/// The effects of starting up with this store: with network name, network
/// key and broker host all stored, the stored credentials are provided as an
/// event; otherwise access-point mode and the provisioning page start.
pub open spec fn startup_effects(store: CredentialStore) -> Seq<EffectView> {
    if store.value(StoreKey::WifiSsid) is Some && store.value(StoreKey::WifiPsk) is Some
        && store.value(StoreKey::MqttHost) is Some {
        seq![
            EffectView::Emit(
                EventView::CredentialsProvided {
                    wifi_ssid: store.value(StoreKey::WifiSsid)->0,
                    wifi_psk: store.value(StoreKey::WifiPsk)->0,
                    broker_host: store.value(StoreKey::MqttHost)->0,
                    broker_user: store.value(StoreKey::MqttUser),
                    broker_password: store.value(StoreKey::MqttPasswd),
                },
            ),
        ]
    } else {
        seq![EffectView::StartAccessPoint]
    }
}

impl State {
    /// The state that follows this one on `event`, or none where the event
    /// means nothing in this state. Neither the state nor the event changes.
    pub fn apply(&self, event: &Event) -> (next: Option<State>)
        ensures
            match next {
                Some(state) => transition(self@, event@) == Some(state@),
                None => transition(self@, event@) is None,
            },
    {
        match self {
            State::Unprovisioned => match event {
                Event::CredentialsProvided {
                    wifi_ssid,
                    wifi_psk,
                    broker_host,
                    broker_user,
                    broker_password,
                } => Some(
                    State::Provisioned {
                        wifi_ssid: wifi_ssid.clone(),
                        wifi_psk: wifi_psk.clone(),
                        broker_host: broker_host.clone(),
                        broker_user: clone_text(broker_user),
                        broker_password: clone_text(broker_password),
                    },
                ),
                _ => None,
            },
            State::Provisioned { .. } => match event {
                Event::NetworkAttached => Some(State::NetworkAttached),
                _ => None,
            },
            State::NetworkAttached => match event {
                Event::SessionEstablished => Some(State::SessionActive),
                _ => None,
            },
            State::SessionActive => match event {
                Event::RemoteCommand { .. } => Some(State::SessionActive),
                Event::SensorSample { .. } => Some(State::SessionActive),
                _ => None,
            },
            State::Failed => None,
        }
    }
}

/// The state machine with the credential record that it keeps.
#[derive(Debug)]
pub struct Fsm {
    state: State,
    store: CredentialStore,
}

impl Fsm {
    /// The machine's current state.
    pub closed spec fn current(&self) -> StateView {
        self.state@
    }

    /// The machine's current state.
    pub fn state(&self) -> (state: &State)
        ensures
            state@ == self.current(),
    {
        &self.state
    }

    /// What the machine's credential record holds under `key`.
    pub closed spec fn stored(&self, key: StoreKey) -> Option<Seq<char>> {
        self.store.value(key)
    }

    /// The machine's credential record.
    pub fn store(&self) -> (store: &CredentialStore)
        ensures
            forall|key: StoreKey| store.value(key) == self.stored(key),
    {
        &self.store
    }

    /// A machine in the state `Unprovisioned` that keeps `store`, which holds
    /// what the persistent store held at startup, and the effects of
    /// starting up.
    pub fn new(store: CredentialStore) -> (r: (Fsm, Vec<Effect>))
        ensures
            r.0.current() == StateView::Unprovisioned,
            forall|key: StoreKey| r.0.stored(key) == store.value(key),
            effects_view(r.1@) == startup_effects(store),
    {
        let effects = startup(&store);
        (Fsm { state: State::Unprovisioned, store }, effects)
    }

    /// Takes one event. On a row of the transition table the machine moves
    /// to the row's state, writes provided credentials into its record, and
    /// returns the effects of the move. Any other event is dropped with
    /// `FsmError::State`, and the machine stays as it is.
    pub fn process_event(&mut self, event: Event) -> (r: Result<Vec<Effect>, FsmError>)
        ensures
            match transition(old(self).current(), event@) {
                Some(next) => final(self).current() == next && r is Ok && effects_view(r->Ok_0@)
                    == effects_of(old(self).current(), event@),
                None => final(self).current() == old(self).current() && r is Err && r->Err_0
                    == FsmError::State,
            },
            forall|key: StoreKey|
                final(self).stored(key) == stored_after(
                    old(self).stored(key),
                    key,
                    old(self).current(),
                    event@,
                ),
    {
        match self.state.apply(&event) {
            None => Err(FsmError::State),
            Some(next) => {
                if let Event::CredentialsProvided {
                    wifi_ssid,
                    wifi_psk,
                    broker_host,
                    broker_user,
                    broker_password,
                } = &event {
                    self.store.set(StoreKey::WifiSsid, wifi_ssid.clone());
                    self.store.set(StoreKey::WifiPsk, wifi_psk.clone());
                    self.store.set(StoreKey::MqttHost, broker_host.clone());
                    if let (Some(user), Some(password)) = (broker_user, broker_password) {
                        self.store.set(StoreKey::MqttUser, user.clone());
                        self.store.set(StoreKey::MqttPasswd, password.clone());
                    }
                }
                let effects = enter(&self.state, event);
                self.state = next;
                Ok(effects)
            },
        }
    }
}

/// The effects of starting up with `store`.
fn startup(store: &CredentialStore) -> (effects: Vec<Effect>)
    ensures
        effects_view(effects@) == startup_effects(*store),
{
    let mut effects: Vec<Effect> = Vec::new();
    match (store.get(StoreKey::WifiSsid), store.get(StoreKey::WifiPsk), store.get(StoreKey::MqttHost)) {
        (Some(wifi_ssid), Some(wifi_psk), Some(broker_host)) => {
            let broker_user = match store.get(StoreKey::MqttUser) {
                Some(user) => Some(user.clone()),
                None => None,
            };
            let broker_password = match store.get(StoreKey::MqttPasswd) {
                Some(password) => Some(password.clone()),
                None => None,
            };
            effects.push(
                Effect::Emit(
                    Event::CredentialsProvided {
                        wifi_ssid: wifi_ssid.clone(),
                        wifi_psk: wifi_psk.clone(),
                        broker_host: broker_host.clone(),
                        broker_user,
                        broker_password,
                    },
                ),
            );
        },
        _ => {
            effects.push(Effect::StartAccessPoint);
        },
    }
    assert(effects_view(effects@) =~= startup_effects(*store));
    effects
}

/// The effects of taking `event` in `state`, in the order in which they are
/// to happen; none where the machine does not move.
pub fn enter(state: &State, event: Event) -> (effects: Vec<Effect>)
    ensures
        effects_view(effects@) == effects_of(state@, event@),
{
    let mut effects: Vec<Effect> = Vec::new();
    match state {
        State::Unprovisioned => {
            if let Event::CredentialsProvided {
                wifi_ssid,
                wifi_psk,
                broker_host,
                broker_user,
                broker_password,
            } = event {
                effects.push(Effect::StopProvisioning);
                effects.push(Effect::Persist { key: StoreKey::WifiSsid, value: wifi_ssid.clone() });
                effects.push(Effect::Persist { key: StoreKey::WifiPsk, value: wifi_psk.clone() });
                effects.push(Effect::Persist { key: StoreKey::MqttHost, value: broker_host });
                if let (Some(user), Some(password)) = (broker_user, broker_password) {
                    effects.push(Effect::Persist { key: StoreKey::MqttUser, value: user });
                    effects.push(Effect::Persist { key: StoreKey::MqttPasswd, value: password });
                }
                effects.push(Effect::StartStation { wifi_ssid, wifi_psk });
            }
        },
        State::Provisioned { broker_host, broker_user, broker_password, .. } => {
            if let Event::NetworkAttached = event {
                effects.push(
                    Effect::OpenSession {
                        host: broker_host.clone(),
                        user: clone_text(broker_user),
                        password: clone_text(broker_password),
                    },
                );
            }
        },
        State::NetworkAttached => {
            if let Event::SessionEstablished = event {
                effects.push(Effect::SubscribeCommands);
            }
        },
        State::SessionActive => {
            match event {
                Event::RemoteCommand { text } => {
                    effects.push(Effect::DispatchCommand { text });
                },
                Event::SensorSample { kind, values } => {
                    effects.push(Effect::PublishSample { kind, values });
                },
                _ => {},
            }
        },
        State::Failed => {},
    }
    assert(effects_view(effects@) =~= effects_of(state@, event@));
    effects
}

/// An event outside the transition table is dropped: the machine does not
/// move on it and nothing happens.
pub proof fn lemma_unlisted_event_is_dropped(state: StateView, event: EventView)
    requires
        !in_table(state, event),
    ensures
        transition(state, event) is None,
        effects_of(state, event) == Seq::<EffectView>::empty(),
{
}

/// On every row of the transition table the machine moves.
pub proof fn lemma_listed_event_moves(state: StateView, event: EventView)
    requires
        in_table(state, event),
    ensures
        transition(state, event) is Some,
{
}

/// The transition is a function: equal states and equal events give equal
/// results.
pub proof fn lemma_transition_is_a_function(
    state: StateView,
    event: EventView,
    state_again: StateView,
    event_again: EventView,
)
    requires
        state == state_again,
        event == event_again,
    ensures
        transition(state, event) == transition(state_again, event_again),
{
}

/// A sensor sample moves the machine only while the session is active;
/// anywhere else it is dropped and nothing is published.
pub proof fn lemma_sample_needs_session(state: StateView, event: EventView)
    requires
        event is SensorSample,
        !(state is SessionActive),
    ensures
        transition(state, event) is None,
        effects_of(state, event) == Seq::<EffectView>::empty(),
{
}

} // verus!
