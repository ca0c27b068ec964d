//! The credential record as the node keeps it in its key-value store: five
//! keys, each with a text value or none.

use vstd::prelude::*;
use vstd::utf8::{decode_utf8, valid_utf8};
use crate::error::FsmError;
use crate::text::text_of;

verus! {

/// The keys of the credential record.
#[derive(Clone, Copy, Debug, PartialEq, Eq, Structural)]
pub enum StoreKey {
    WifiSsid,
    WifiPsk,
    MqttHost,
    MqttUser,
    MqttPasswd,
}

impl StoreKey {
    /// The key's name in the key-value store.
    pub fn name(&self) -> (name: &'static str)
        ensures
            name@ == match *self {
                StoreKey::WifiSsid => "wifi_ssid"@,
                StoreKey::WifiPsk => "wifi_psk"@,
                StoreKey::MqttHost => "mqtt_host"@,
                StoreKey::MqttUser => "mqtt_user"@,
                StoreKey::MqttPasswd => "mqtt_passwd"@,
            },
    {
        match self {
            StoreKey::WifiSsid => "wifi_ssid",
            StoreKey::WifiPsk => "wifi_psk",
            StoreKey::MqttHost => "mqtt_host",
            StoreKey::MqttUser => "mqtt_user",
            StoreKey::MqttPasswd => "mqtt_passwd",
        }
    }
}

/// The view of a text that may be missing.
pub open spec fn text_view(text: Option<String>) -> Option<Seq<char>> {
    match text {
        Some(t) => Some(t@),
        None => None,
    }
}

/// A copy of a text that may be missing.
pub fn clone_text(text: &Option<String>) -> (copy: Option<String>)
    ensures
        text_view(copy) == text_view(*text),
{
    match text {
        Some(t) => Some(t.clone()),
        None => None,
    }
}

/// The credential record.
#[derive(Clone, Debug, PartialEq, Eq)]
pub struct CredentialStore {
    wifi_ssid: Option<String>,
    wifi_psk: Option<String>,
    mqtt_host: Option<String>,
    mqtt_user: Option<String>,
    mqtt_passwd: Option<String>,
}

impl CredentialStore {
    /// The value kept under `key`, if there is one.
    pub closed spec fn value(&self, key: StoreKey) -> Option<Seq<char>> {
        match key {
            StoreKey::WifiSsid => text_view(self.wifi_ssid),
            StoreKey::WifiPsk => text_view(self.wifi_psk),
            StoreKey::MqttHost => text_view(self.mqtt_host),
            StoreKey::MqttUser => text_view(self.mqtt_user),
            StoreKey::MqttPasswd => text_view(self.mqtt_passwd),
        }
    }

    /// A record without any value.
    pub fn new() -> (store: CredentialStore)
        ensures
            forall|key: StoreKey| store.value(key) is None,
    {
        CredentialStore {
            wifi_ssid: None,
            wifi_psk: None,
            mqtt_host: None,
            mqtt_user: None,
            mqtt_passwd: None,
        }
    }

    /// The value kept under `key`, if there is one.
    pub fn get(&self, key: StoreKey) -> (value: Option<&String>)
        ensures
            match value {
                Some(v) => self.value(key) == Some(v@),
                None => self.value(key) is None,
            },
    {
        match key {
            StoreKey::WifiSsid => self.wifi_ssid.as_ref(),
            StoreKey::WifiPsk => self.wifi_psk.as_ref(),
            StoreKey::MqttHost => self.mqtt_host.as_ref(),
            StoreKey::MqttUser => self.mqtt_user.as_ref(),
            StoreKey::MqttPasswd => self.mqtt_passwd.as_ref(),
        }
    }

    /// Keeps under `key` the text that the bytes `raw` encode, as they come
    /// from the persistent store. Bytes that are not valid UTF-8 are refused
    /// with `FsmError::Provisioning`, and the record stays as it is.
    pub fn set_raw(&mut self, key: StoreKey, raw: &[u8]) -> (r: Result<(), FsmError>)
        ensures
            valid_utf8(raw@) ==> r is Ok && final(self).value(key) == Some(decode_utf8(raw@)),
            !valid_utf8(raw@) ==> r is Err && r->Err_0 == FsmError::Provisioning
                && final(self).value(key) == old(self).value(key),
            forall|other: StoreKey| other != key ==> final(self).value(other) == old(self).value(other),
    {
        match text_of(raw) {
            Some(text) => {
                self.set(key, text);
                Ok(())
            },
            None => Err(FsmError::Provisioning),
        }
    }

    /// Keeps `value` under `key`, in place of what was there; the other keys
    /// keep their values.
    pub fn set(&mut self, key: StoreKey, value: String)
        ensures
            final(self).value(key) == Some(value@),
            forall|other: StoreKey| other != key ==> final(self).value(other) == old(self).value(other),
    {
        match key {
            StoreKey::WifiSsid => {
                self.wifi_ssid = Some(value);
            },
            StoreKey::WifiPsk => {
                self.wifi_psk = Some(value);
            },
            StoreKey::MqttHost => {
                self.mqtt_host = Some(value);
            },
            StoreKey::MqttUser => {
                self.mqtt_user = Some(value);
            },
            StoreKey::MqttPasswd => {
                self.mqtt_passwd = Some(value);
            },
        }
    }
}

} // verus!
