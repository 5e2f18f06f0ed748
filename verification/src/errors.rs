//! The errors of the service, by where they come from.

use vstd::prelude::*;
use vstd::string::StringExecFns;

verus! {

/// An error of the service. Each kind carries the words of the error that
/// caused it.
#[derive(Debug, Clone, PartialEq, Eq)]
pub enum TrackingConsumerError {
    Config(String),
    Database(String),
    Mqtt(String),
    Kafka(String),
    Json(String),
    Internal(String),
}

impl TrackingConsumerError {
    /// The words of the error: what kind it is, then the words of its cause.
    pub open spec fn text(self) -> Seq<char> {
        match self {
            TrackingConsumerError::Config(cause) => "Error de configuración: "@ + cause@,
            TrackingConsumerError::Database(cause) => "Error de base de datos: "@ + cause@,
            TrackingConsumerError::Mqtt(cause) => "Error de MQTT: "@ + cause@,
            TrackingConsumerError::Kafka(cause) => "Error de Kafka: "@ + cause@,
            TrackingConsumerError::Json(cause) => "Error de serialización JSON: "@ + cause@,
            TrackingConsumerError::Internal(cause) => "Error interno: "@ + cause@,
        }
    }

    /// Writes the words of the error.
    pub fn message(&self) -> (words: String)
        ensures
            words@ == self.text(),
    {
        let (kind, cause) = match self {
            TrackingConsumerError::Config(cause) => ("Error de configuración: ", cause),
            TrackingConsumerError::Database(cause) => ("Error de base de datos: ", cause),
            TrackingConsumerError::Mqtt(cause) => ("Error de MQTT: ", cause),
            TrackingConsumerError::Kafka(cause) => ("Error de Kafka: ", cause),
            TrackingConsumerError::Json(cause) => ("Error de serialización JSON: ", cause),
            TrackingConsumerError::Internal(cause) => ("Error interno: ", cause),
        };
        let mut words = String::from_str(kind);
        words.append(cause.as_str());
        words
    }
}

} // verus!
