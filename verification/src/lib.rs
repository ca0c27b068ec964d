//! Connectivity lifecycle of a sensor node: the state machine that takes the
//! device from unprovisioned to an active broker session, and the small MQTT
//! session engine that keeps that session over one stream connection.
//!
//! Nothing in this crate does I/O. The state machine returns the effects of
//! a transition, the session engine hands out the packets to write and takes
//! in the bytes that were read, and the two activities that drive network and
//! session are phases with the action that each asks for.

pub mod broker;
pub mod buffer;
pub mod codec;
pub mod decode;
pub mod delivery;
pub mod driver;
pub mod error;
pub mod fsm;
pub mod link;
pub mod packet;
pub mod page;
pub mod pid;
pub mod queue;
pub mod roundtrip;
pub mod session;
pub mod store;
pub mod text;
pub mod wire;

pub use broker::{send_temperature, start_mqtt_client};
pub use buffer::PacketBuffer;
pub use error::{FsmError, TinyMqttError};
pub use fsm::{Effect, Event, Fsm, SampleKind, State};
pub use page::{index_html, templated};
pub use session::TinyMqtt;
