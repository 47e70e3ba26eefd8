//! The parameters of the broker session that a bridge opens once.

use crate::config::{BridgeConfig, ConfigView};
use vstd::prelude::*;

verus! {

/// Seconds of silence after which the broker is pinged.
pub const KEEP_ALIVE_SECS: u64 = 5;

/// The number of requests that may wait for the broker connection.
pub const REQUEST_CAPACITY: usize = 10;

/// The delivery guarantee of a subscription or of a publish.
#[derive(Clone, Copy, Debug, PartialEq, Eq, Structural)]
pub enum Qos {
    /// Delivered once or not at all, never acknowledged.
    AtMostOnce,
    /// Delivered again until acknowledged.
    AtLeastOnce,
    /// Delivered once, by a handshake.
    ExactlyOnce,
}

/// What it takes to open the session: where and as whom to connect, how
/// often to ping, and the one subscription to make.
#[derive(Debug, PartialEq, Eq)]
pub struct BrokerSession {
    pub host: String,
    pub port: u16,
    pub client_id: String,
    pub keep_alive_secs: u64,
    pub request_capacity: usize,
    pub subscribe_topic: String,
    pub subscribe_qos: Qos,
}

/// The mathematical content of a [`BrokerSession`].
pub ghost struct SessionView {
    pub host: Seq<char>,
    pub port: u16,
    pub client_id: Seq<char>,
    pub keep_alive_secs: nat,
    pub request_capacity: nat,
    pub subscribe_topic: Seq<char>,
    pub subscribe_qos: Qos,
}

impl View for BrokerSession {
    type V = SessionView;

    open spec fn view(&self) -> SessionView {
        SessionView {
            host: self.host@,
            port: self.port,
            client_id: self.client_id@,
            keep_alive_secs: self.keep_alive_secs as nat,
            request_capacity: self.request_capacity as nat,
            subscribe_topic: self.subscribe_topic@,
            subscribe_qos: self.subscribe_qos,
        }
    }
}

/// The session that a configuration asks for: the configured broker and
/// client, a ping every five seconds, and a subscription to the inbound
/// topic that is delivered at most once.
pub open spec fn session_for(config: ConfigView) -> SessionView {
    SessionView {
        host: config.broker_host,
        port: config.broker_port,
        client_id: config.client_id,
        keep_alive_secs: KEEP_ALIVE_SECS as nat,
        request_capacity: REQUEST_CAPACITY as nat,
        subscribe_topic: config.inbound_topic,
        subscribe_qos: Qos::AtMostOnce,
    }
}

impl BrokerSession {
    /// The session that `config` asks for.
    pub fn new(config: &BridgeConfig) -> (session: Self)
        ensures
            session@ == session_for(config@),
    {
        BrokerSession {
            host: config.broker_host().to_owned(),
            port: config.broker_port(),
            client_id: config.client_id().to_owned(),
            keep_alive_secs: KEEP_ALIVE_SECS,
            request_capacity: REQUEST_CAPACITY,
            subscribe_topic: config.inbound_topic().to_owned(),
            subscribe_qos: Qos::AtMostOnce,
        }
    }
}

} // verus!
