use embsens::error::FsmError;
use embsens::fsm::{Effect, Event, Fsm, SampleKind, State};
use embsens::store::{CredentialStore, StoreKey};

fn credentials(user: Option<&str>, password: Option<&str>) -> Event {
    Event::CredentialsProvided {
        wifi_ssid: "net1".to_string(),
        wifi_psk: "pw1".to_string(),
        broker_host: "broker.local".to_string(),
        broker_user: user.map(|u| u.to_string()),
        broker_password: password.map(|p| p.to_string()),
    }
}

fn provisioned() -> State {
    State::Provisioned {
        wifi_ssid: "net1".to_string(),
        wifi_psk: "pw1".to_string(),
        broker_host: "broker.local".to_string(),
        broker_user: None,
        broker_password: None,
    }
}

fn sample() -> Event {
    Event::SensorSample { kind: SampleKind::Temperature, values: "21.5".to_string() }
}

fn all_events() -> Vec<Event> {
    vec![
        credentials(None, None),
        Event::NetworkAttached,
        Event::NetworkDetached,
        Event::SessionEstablished,
        Event::SessionLost,
        sample(),
        Event::RemoteCommand { text: "reboot".to_string() },
    ]
}

fn all_states() -> Vec<State> {
    vec![
        State::Unprovisioned,
        provisioned(),
        State::NetworkAttached,
        State::SessionActive,
        State::Failed,
    ]
}

fn machine_in_session() -> Fsm {
    let (mut fsm, _) = Fsm::new(CredentialStore::new());
    fsm.process_event(credentials(None, None)).unwrap();
    fsm.process_event(Event::NetworkAttached).unwrap();
    fsm.process_event(Event::SessionEstablished).unwrap();
    assert_eq!(fsm.state(), &State::SessionActive);
    fsm
}

#[test]
fn credentials_provision_the_node_and_are_persisted() {
    let (mut fsm, startup) = Fsm::new(CredentialStore::new());
    assert_eq!(startup, vec![Effect::StartAccessPoint]);
    assert_eq!(fsm.state(), &State::Unprovisioned);
    let effects = fsm.process_event(credentials(None, None)).unwrap();
    assert_eq!(fsm.state(), &provisioned());
    assert_eq!(fsm.store().get(StoreKey::WifiSsid), Some(&"net1".to_string()));
    assert_eq!(fsm.store().get(StoreKey::WifiPsk), Some(&"pw1".to_string()));
    assert_eq!(fsm.store().get(StoreKey::MqttHost), Some(&"broker.local".to_string()));
    assert_eq!(fsm.store().get(StoreKey::MqttUser), None);
    assert_eq!(fsm.store().get(StoreKey::MqttPasswd), None);
    assert_eq!(
        effects,
        vec![
            Effect::StopProvisioning,
            Effect::Persist { key: StoreKey::WifiSsid, value: "net1".to_string() },
            Effect::Persist { key: StoreKey::WifiPsk, value: "pw1".to_string() },
            Effect::Persist { key: StoreKey::MqttHost, value: "broker.local".to_string() },
            Effect::StartStation { wifi_ssid: "net1".to_string(), wifi_psk: "pw1".to_string() },
        ]
    );
}

#[test]
fn broker_credentials_are_persisted_only_as_a_pair() {
    let (mut fsm, _) = Fsm::new(CredentialStore::new());
    let effects = fsm.process_event(credentials(Some("me"), Some("secret"))).unwrap();
    assert_eq!(effects.len(), 7);
    assert_eq!(effects[4], Effect::Persist { key: StoreKey::MqttUser, value: "me".to_string() });
    assert_eq!(
        effects[5],
        Effect::Persist { key: StoreKey::MqttPasswd, value: "secret".to_string() }
    );
    assert_eq!(fsm.store().get(StoreKey::MqttUser), Some(&"me".to_string()));
    assert_eq!(fsm.store().get(StoreKey::MqttPasswd), Some(&"secret".to_string()));

    let (mut fsm, _) = Fsm::new(CredentialStore::new());
    let effects = fsm.process_event(credentials(Some("me"), None)).unwrap();
    assert_eq!(effects.len(), 5);
    assert_eq!(fsm.store().get(StoreKey::MqttUser), None);
    assert_eq!(fsm.store().get(StoreKey::MqttPasswd), None);
}

#[test]
fn network_then_session() {
    let (mut fsm, _) = Fsm::new(CredentialStore::new());
    fsm.process_event(credentials(Some("me"), Some("secret"))).unwrap();
    let effects = fsm.process_event(Event::NetworkAttached).unwrap();
    assert_eq!(fsm.state(), &State::NetworkAttached);
    assert_eq!(
        effects,
        vec![Effect::OpenSession {
            host: "broker.local".to_string(),
            user: Some("me".to_string()),
            password: Some("secret".to_string()),
        }]
    );
    let effects = fsm.process_event(Event::SessionEstablished).unwrap();
    assert_eq!(fsm.state(), &State::SessionActive);
    assert_eq!(effects, vec![Effect::SubscribeCommands]);
}

#[test]
fn sample_before_provisioning_is_dropped() {
    let (mut fsm, _) = Fsm::new(CredentialStore::new());
    let r = fsm.process_event(sample());
    assert_eq!(r, Err(FsmError::State));
    assert_eq!(fsm.state(), &State::Unprovisioned);
}

#[test]
fn sample_is_dropped_in_every_state_without_a_session() {
    for state in [State::Unprovisioned, provisioned(), State::NetworkAttached, State::Failed] {
        assert_eq!(state.apply(&sample()), None);
    }
}

#[test]
fn sample_in_session_is_published() {
    let mut fsm = machine_in_session();
    let effects = fsm.process_event(sample()).unwrap();
    assert_eq!(fsm.state(), &State::SessionActive);
    assert_eq!(
        effects,
        vec![Effect::PublishSample { kind: SampleKind::Temperature, values: "21.5".to_string() }]
    );
}

#[test]
fn command_in_session_is_dispatched() {
    let mut fsm = machine_in_session();
    let effects = fsm.process_event(Event::RemoteCommand { text: "reboot".to_string() }).unwrap();
    assert_eq!(fsm.state(), &State::SessionActive);
    assert_eq!(effects, vec![Effect::DispatchCommand { text: "reboot".to_string() }]);
}

#[test]
fn the_machine_moves_exactly_on_the_rows_of_the_table() {
    for state in all_states() {
        for event in all_events() {
            let listed = matches!(
                (&state, &event),
                (State::Unprovisioned, Event::CredentialsProvided { .. })
                    | (State::Provisioned { .. }, Event::NetworkAttached)
                    | (State::NetworkAttached, Event::SessionEstablished)
                    | (State::SessionActive, Event::RemoteCommand { .. })
                    | (State::SessionActive, Event::SensorSample { .. })
            );
            assert_eq!(state.apply(&event).is_some(), listed, "{:?} {:?}", state, event);
        }
    }
}

#[test]
fn the_transition_targets_are_those_of_the_table() {
    assert_eq!(State::Unprovisioned.apply(&credentials(None, None)), Some(provisioned()));
    assert_eq!(provisioned().apply(&Event::NetworkAttached), Some(State::NetworkAttached));
    assert_eq!(
        State::NetworkAttached.apply(&Event::SessionEstablished),
        Some(State::SessionActive)
    );
    assert_eq!(State::SessionActive.apply(&sample()), Some(State::SessionActive));
    assert_eq!(
        State::SessionActive.apply(&Event::RemoteCommand { text: "x".to_string() }),
        Some(State::SessionActive)
    );
}

#[test]
fn apply_gives_the_same_result_twice_and_changes_nothing() {
    for state in all_states() {
        for event in all_events() {
            let state_before = state.clone();
            let event_before = event.clone();
            let first = state.apply(&event);
            let second = state.apply(&event);
            assert_eq!(first, second);
            assert_eq!(state, state_before);
            assert_eq!(event, event_before);
        }
    }
}

#[test]
fn a_dropped_event_leaves_machine_and_store_alone() {
    let (mut fsm, _) = Fsm::new(CredentialStore::new());
    fsm.process_event(credentials(None, None)).unwrap();
    let store_before = fsm.store().clone();
    for event in [
        credentials(Some("other"), Some("pair")),
        Event::NetworkDetached,
        Event::SessionEstablished,
        Event::SessionLost,
        sample(),
        Event::RemoteCommand { text: "x".to_string() },
    ] {
        assert_eq!(fsm.process_event(event), Err(FsmError::State));
        assert_eq!(fsm.state(), &provisioned());
        assert_eq!(fsm.store(), &store_before);
    }
}

#[test]
fn failed_is_terminal() {
    for event in all_events() {
        assert_eq!(State::Failed.apply(&event), None);
    }
}

#[test]
fn startup_with_stored_credentials_provides_them() {
    let mut store = CredentialStore::new();
    store.set(StoreKey::WifiSsid, "home".to_string());
    store.set(StoreKey::WifiPsk, "key".to_string());
    store.set(StoreKey::MqttHost, "test.mosquitto.org".to_string());
    store.set(StoreKey::MqttUser, "me".to_string());
    let (fsm, effects) = Fsm::new(store);
    assert_eq!(fsm.state(), &State::Unprovisioned);
    assert_eq!(
        effects,
        vec![Effect::Emit(Event::CredentialsProvided {
            wifi_ssid: "home".to_string(),
            wifi_psk: "key".to_string(),
            broker_host: "test.mosquitto.org".to_string(),
            broker_user: Some("me".to_string()),
            broker_password: None,
        })]
    );
}

#[test]
fn startup_without_a_required_value_starts_the_access_point() {
    for missing in [StoreKey::WifiSsid, StoreKey::WifiPsk, StoreKey::MqttHost] {
        let mut store = CredentialStore::new();
        for key in [StoreKey::WifiSsid, StoreKey::WifiPsk, StoreKey::MqttHost, StoreKey::MqttUser] {
            if key != missing {
                store.set(key, "value".to_string());
            }
        }
        let (_, effects) = Fsm::new(store);
        assert_eq!(effects, vec![Effect::StartAccessPoint]);
    }
}

#[test]
fn store_keeps_values_by_key() {
    let mut store = CredentialStore::new();
    assert_eq!(store.get(StoreKey::WifiSsid), None);
    store.set(StoreKey::WifiSsid, "a".to_string());
    store.set(StoreKey::MqttPasswd, "b".to_string());
    store.set(StoreKey::WifiSsid, "c".to_string());
    assert_eq!(store.get(StoreKey::WifiSsid), Some(&"c".to_string()));
    assert_eq!(store.get(StoreKey::MqttPasswd), Some(&"b".to_string()));
    assert_eq!(store.get(StoreKey::WifiPsk), None);
}

#[test]
fn store_key_names() {
    assert_eq!(StoreKey::WifiSsid.name(), "wifi_ssid");
    assert_eq!(StoreKey::WifiPsk.name(), "wifi_psk");
    assert_eq!(StoreKey::MqttHost.name(), "mqtt_host");
    assert_eq!(StoreKey::MqttUser.name(), "mqtt_user");
    assert_eq!(StoreKey::MqttPasswd.name(), "mqtt_passwd");
}

#[test]
fn raw_store_values_must_be_text() {
    let mut store = CredentialStore::new();
    assert_eq!(store.set_raw(StoreKey::WifiSsid, b"net1"), Ok(()));
    assert_eq!(store.get(StoreKey::WifiSsid), Some(&"net1".to_string()));
    assert_eq!(store.set_raw(StoreKey::WifiSsid, &[0xff, 0xfe]), Err(FsmError::Provisioning));
    assert_eq!(store.get(StoreKey::WifiSsid), Some(&"net1".to_string()));
    assert_eq!(store.set_raw(StoreKey::WifiPsk, &[0xc3]), Err(FsmError::Provisioning));
    assert_eq!(store.get(StoreKey::WifiPsk), None);
    assert_eq!(store.set_raw(StoreKey::WifiPsk, "pä".as_bytes()), Ok(()));
    assert_eq!(store.get(StoreKey::WifiPsk), Some(&"pä".to_string()));
}
