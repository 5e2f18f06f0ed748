//! The MQTT consumer, kept beside the Kafka consumer for brokers of the
//! earlier kind: how its client is set up and what its event loop does with
//! each event.

use crate::logging::LogLevel;
use crate::models::DeviceMessage;
use crate::text::{decimal_digits, format_decimal};
use vstd::prelude::*;
use vstd::string::StringExecFns;

verus! {

/// The largest packet that the client takes or sends, in bytes.
pub const MAX_PACKET_SIZE: usize = 1048576;

/// How many messages may be in flight at once.
pub const INFLIGHT: u16 = 100;

/// How long the event loop waits after an error, in seconds.
pub const RECONNECT_DELAY_SECS: u64 = 5;

/// What was found about the credentials when the client was set up.
#[derive(Debug, Clone, Copy, PartialEq, Eq, Structural)]
pub enum CredentialNote {
    /// User name and password are both there and are used.
    Configured,
    /// A user name without a password; neither is used.
    MissingPassword,
    /// A password without a user name; neither is used.
    MissingUsername,
    /// Neither is there; the client connects without them.
    Anonymous,
}

/// The MQTT consumer: everything its client is set up with.
#[derive(Debug, Clone, PartialEq, Eq)]
pub struct MqttConsumerService {
    pub client_id: String,
    pub broker: String,
    pub port: u16,
    pub topic: String,
    pub keep_alive_secs: u64,
    pub clean_session: bool,
    pub max_packet_size: usize,
    pub inflight: u16,
    pub request_channel_capacity: usize,
    /// User name and password, where both were given.
    pub credentials: Option<(String, String)>,
}

/// What the event loop of the client met.
#[derive(Debug, Clone, PartialEq, Eq)]
pub enum MqttEvent {
    /// A message was published on the topic.
    Publish { topic: String, payload_len: usize },
    /// The broker accepted the connection.
    ConnAck,
    /// The broker confirmed the subscription.
    SubAck,
    /// The broker answered a ping.
    PingResp,
    /// The client sent something.
    Outgoing,
    /// Any other event.
    Other,
    /// The loop failed, with the words of the client.
    Error(String),
}

/// What the event loop does next.
#[derive(Debug, Clone, PartialEq, Eq)]
pub enum MqttAction {
    /// Parse the payload and hand the message on; the line is logged first.
    Process { line: String },
    /// Log the line and poll again.
    Log { level: LogLevel, line: String },
    /// Poll again.
    Nothing,
    /// Log the line, wait so many seconds and poll again.
    Backoff { seconds: u64, line: String },
}

/// What is made of a payload once it has been parsed.
#[derive(Debug, Clone, PartialEq, Eq)]
pub enum ParsedPayload {
    /// The payload is a device message; it goes on to the batcher.
    Forward(DeviceMessage),
    /// The payload is no device message; the two lines are logged and the
    /// loop goes on.
    Reject { error_line: String, payload_line: String },
}

/// Whether `note` is what holds of the two credentials.
pub open spec fn notes(note: CredentialNote, username: Option<&str>, password: Option<&str>) -> bool {
    note == match (username, password) {
        (Some(_), Some(_)) => CredentialNote::Configured,
        (Some(_), None) => CredentialNote::MissingPassword,
        (None, Some(_)) => CredentialNote::MissingUsername,
        (None, None) => CredentialNote::Anonymous,
    }
}

/// Whether `action` is what the loop does on `event`.
pub open spec fn reacts(action: MqttAction, event: MqttEvent) -> bool {
    match event {
        MqttEvent::Publish { topic, payload_len } => action matches MqttAction::Process { line }
            && line@ == "📨 Mensaje recibido en topic '"@ + topic@ + "': "@ + decimal_digits(
            payload_len as nat,
        ) + " bytes"@,
        MqttEvent::ConnAck => action matches MqttAction::Log { level, line } && level
            == LogLevel::Info && line@ == "✅ Conectado a broker MQTT"@,
        MqttEvent::SubAck => action matches MqttAction::Log { level, line } && level
            == LogLevel::Info && line@ == "✅ Suscripción confirmada"@,
        MqttEvent::PingResp => action matches MqttAction::Log { level, line } && level
            == LogLevel::Debug && line@ == "📡 Ping response recibido"@,
        MqttEvent::Outgoing => action is Nothing,
        MqttEvent::Other => action matches MqttAction::Log { level, line } && level
            == LogLevel::Debug && line@ == "Evento MQTT recibido"@,
        MqttEvent::Error(words) => action matches MqttAction::Backoff { seconds, line } && seconds
            == RECONNECT_DELAY_SECS && line@ == "Error en MQTT event loop: "@ + words@,
    }
}

impl MqttConsumerService {
    /// Sets the client of a consumer up. The credentials are used only where
    /// user name and password are both given; the note tells what was found.
    pub fn new(
        broker: &str,
        port: u16,
        topic: &str,
        username: Option<&str>,
        password: Option<&str>,
        client_id: &str,
        keep_alive_secs: u64,
        clean_session: bool,
        buffer_size: usize,
    ) -> (out: (MqttConsumerService, CredentialNote))
        ensures
            out.0.client_id@ == client_id@,
            out.0.broker@ == broker@,
            out.0.port == port,
            out.0.topic@ == topic@,
            out.0.keep_alive_secs == keep_alive_secs,
            out.0.clean_session == clean_session,
            out.0.max_packet_size == MAX_PACKET_SIZE,
            out.0.inflight == INFLIGHT,
            out.0.request_channel_capacity == buffer_size,
            notes(out.1, username, password),
            match (username, password) {
                (Some(user), Some(pass)) => out.0.credentials matches Some(pair) && pair.0@
                    == user@ && pair.1@ == pass@,
                _ => out.0.credentials is None,
            },
    {
        let (credentials, note) = match (username, password) {
            (Some(user), Some(pass)) => (
                Some((String::from_str(user), String::from_str(pass))),
                CredentialNote::Configured,
            ),
            (Some(_), None) => (None, CredentialNote::MissingPassword),
            (None, Some(_)) => (None, CredentialNote::MissingUsername),
            (None, None) => (None, CredentialNote::Anonymous),
        };
        (
            MqttConsumerService {
                client_id: String::from_str(client_id),
                broker: String::from_str(broker),
                port,
                topic: String::from_str(topic),
                keep_alive_secs,
                clean_session,
                max_packet_size: MAX_PACKET_SIZE,
                inflight: INFLIGHT,
                request_channel_capacity: buffer_size,
                credentials,
            },
            note,
        )
    }

    /// Decides what the event loop does on an event. No event ends the loop:
    /// an error is waited out.
    pub fn start_consuming(event: MqttEvent) -> (action: MqttAction)
        ensures
            reacts(action, event),
    {
        match event {
            MqttEvent::Publish { topic, payload_len } => {
                let mut line = String::from_str("📨 Mensaje recibido en topic '");
                line.append(topic.as_str());
                line.append("': ");
                line.append(format_decimal(payload_len as u64).as_str());
                line.append(" bytes");
                MqttAction::Process { line }
            },
            MqttEvent::ConnAck => MqttAction::Log {
                level: LogLevel::Info,
                line: String::from_str("✅ Conectado a broker MQTT"),
            },
            MqttEvent::SubAck => MqttAction::Log {
                level: LogLevel::Info,
                line: String::from_str("✅ Suscripción confirmada"),
            },
            MqttEvent::PingResp => MqttAction::Log {
                level: LogLevel::Debug,
                line: String::from_str("📡 Ping response recibido"),
            },
            MqttEvent::Outgoing => MqttAction::Nothing,
            MqttEvent::Other => MqttAction::Log {
                level: LogLevel::Debug,
                line: String::from_str("Evento MQTT recibido"),
            },
            MqttEvent::Error(words) => {
                let mut line = String::from_str("Error en MQTT event loop: ");
                line.append(words.as_str());
                MqttAction::Backoff { seconds: RECONNECT_DELAY_SECS, line }
            },
        }
    }

    /// Decides what becomes of a payload, given its text and what the parser
    /// made of it: the message, or the words of the parser.
    pub fn process_message(text: &str, parsed: Result<DeviceMessage, String>) -> (out:
        ParsedPayload)
        ensures
            match parsed {
                Ok(message) => out == ParsedPayload::Forward(message),
                Err(words) => out matches ParsedPayload::Reject { error_line, payload_line }
                    && error_line@ == "❌ Error parseando JSON de dispositivo: "@ + words@
                    && payload_line@ == "Payload recibido: "@ + text@,
            },
    {
        match parsed {
            Ok(message) => ParsedPayload::Forward(message),
            Err(words) => {
                let mut error_line = String::from_str("❌ Error parseando JSON de dispositivo: ");
                error_line.append(words.as_str());
                let mut payload_line = String::from_str("Payload recibido: ");
                payload_line.append(text);
                ParsedPayload::Reject { error_line, payload_line }
            },
        }
    }
}

} // verus!
