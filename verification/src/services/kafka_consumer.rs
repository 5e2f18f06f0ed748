//! The consumer side of the pipeline: how a delivered record becomes a
//! device message, and what the poll loop does with each delivery.

use crate::config::BrokerConfig;
use crate::fields::{
    all_empty, field_value, filled_from, has_key, lemma_absent_key_is_empty, FieldSeq,
};
use crate::models::{
    DecodedData, Decoded, DeviceData, DeviceMessage, DeviceMetadata, KafkaMessage, QueclinkRaw,
    SuntechRaw,
};
use vstd::prelude::*;
use vstd::string::StringExecFns;

verus! {

/// Why a delivered record was rejected.
#[derive(Debug, Clone, Copy, PartialEq, Eq, Structural)]
pub enum DecodeError {
    /// The record has no `metadata` sub-message.
    MissingMetadata,
}

impl DecodeError {
    /// The diagnostic that goes with the rejection.
    pub fn message(&self) -> (text: String)
        ensures
            text@ == "Missing metadata in KafkaMessage"@,
    {
        String::from_str("Missing metadata in KafkaMessage")
    }
}

/// The signed number with the bits of `x`: `x` itself where it fits, and
/// `x` less two to the power of 32 where it does not.
pub open spec fn signed_32(x: u32) -> int {
    if x <= i32::MAX {
        x as int
    } else {
        x - 0x1_0000_0000
    }
}

/// The signed number with the bits of `x`: `x` itself where it fits, and
/// `x` less two to the power of 64 where it does not.
pub open spec fn signed_64(x: u64) -> int {
    if x <= i64::MAX {
        x as int
    } else {
        x - 0x1_0000_0000_0000_0000
    }
}

/// Reads the 32 bits of an unsigned number as a signed one.
fn to_signed_32(x: u32) -> (out: i32)
    ensures
        out == signed_32(x),
{
    if x <= 0x7fff_ffff {
        x as i32
    } else {
        ((x - 0x8000_0000) as i32) + i32::MIN
    }
}

/// Reads the 64 bits of an unsigned number as a signed one.
fn to_signed_64(x: u64) -> (out: i64)
    ensures
        out == signed_64(x),
{
    if x <= 0x7fff_ffff_ffff_ffff {
        x as i64
    } else {
        ((x - 0x8000_0000_0000_0000) as i64) + i64::MIN
    }
}

/// Whether `message` is what the record `record` decodes to: the record has
/// its metadata, whose numbers keep their bits; every normalized field and
/// every field of the vendor block holds the value that the record gives to
/// its key; and a record without a vendor block counts as Suntech with an
/// empty block.
pub open spec fn decodes_to(record: KafkaMessage, message: DeviceMessage) -> bool {
    &&& record.metadata matches Some(metadata)
    &&& message.metadata.bytes == signed_32(metadata.bytes)
    &&& message.metadata.client_ip@ == metadata.client_ip@
    &&& message.metadata.client_port == signed_32(metadata.client_port)
    &&& message.metadata.decoded_epoch == signed_64(metadata.decoded_epoch)
    &&& message.metadata.received_epoch == signed_64(metadata.received_epoch)
    &&& message.metadata.worker_id == signed_32(metadata.worker_id)
    &&& message.uuid@ == record.uuid@
    &&& message.raw@ == record.raw@
    &&& filled_from(message.data.fields(), record.data.deep_view())
    &&& match record.decoded {
        Some(Decoded::Suntech { fields }) => {
            &&& message.decoded matches DecodedData::Suntech { suntech_raw }
            &&& filled_from(suntech_raw.fields(), fields.deep_view())
        },
        Some(Decoded::Queclink { fields }) => {
            &&& message.decoded matches DecodedData::Queclink { queclink_raw }
            &&& filled_from(queclink_raw.fields(), fields.deep_view())
        },
        None => {
            &&& message.decoded matches DecodedData::Suntech { suntech_raw }
            &&& all_empty(suntech_raw.fields())
        },
    }
}

/// How long the poll loop waits after the broker failed to deliver, in
/// seconds.
pub const RECONNECT_DELAY_SECS: u64 = 1;

/// The settings that every consumer has: where the broker is, the consumer
/// group, reading from the newest offset, and offsets committed by the client
/// itself once a second.
pub open spec fn base_settings(config: BrokerConfig) -> FieldSeq {
    seq![
        ("bootstrap.servers"@, config.host@),
        ("group.id"@, config.group_id@),
        ("auto.offset.reset"@, "latest"@),
        ("enable.auto.commit"@, "true"@),
        ("auto.commit.interval.ms"@, "1000"@),
        ("session.timeout.ms"@, "6000"@),
    ]
}

/// One setting, where it has a value.
pub open spec fn optional_setting(key: Seq<char>, value: Option<String>) -> FieldSeq {
    match value {
        Some(text) => seq![(key, text@)],
        None => Seq::empty(),
    }
}

/// The settings of the client of a consumer, in the order in which they are
/// applied: the base settings, then each security setting that is there.
pub open spec fn client_settings(config: BrokerConfig) -> FieldSeq {
    base_settings(config) + optional_setting("security.protocol"@, config.security_protocol)
        + optional_setting("sasl.mechanism"@, config.sasl_mechanism) + optional_setting(
        "sasl.username"@,
        config.username,
    ) + optional_setting("sasl.password"@, config.password)
}

/// The Kafka consumer of the pipeline: the topic it subscribes to and the
/// settings of its client.
#[derive(Debug, Clone, PartialEq, Eq)]
pub struct KafkaConsumerService {
    /// The topic that the consumer subscribes to.
    pub topic: String,
    /// The settings of the client, as pairs of key and value.
    pub settings: Vec<(String, String)>,
}

/// What the poll loop of the consumer met.
#[derive(Debug, Clone, PartialEq, Eq)]
pub enum Delivery {
    /// A record arrived and its framing could be taken apart.
    Record(KafkaMessage),
    /// A payload arrived that is no record, with the words of the decoder.
    Undecodable(String),
    /// A message arrived without a payload.
    Empty,
    /// The broker failed to deliver, with the words of the client.
    ReceiveError(String),
    /// The channel to the batcher no longer takes messages.
    ChannelClosed,
}

/// What the poll loop does next.
#[derive(Debug, Clone, PartialEq, Eq)]
pub enum ConsumerAction {
    /// Send the message to the batcher and poll again.
    Forward(DeviceMessage),
    /// Log the diagnostic, drop the payload and poll again.
    Drop { diagnostic: String },
    /// Poll again.
    Skip,
    /// Log the diagnostic, wait so many seconds and poll again.
    Backoff { seconds: u64, diagnostic: String },
    /// Leave the loop.
    Stop,
}

/// Whether `action` is what the loop does on `delivery`. A record that
/// decodes is forwarded; one that does not, and a payload that is no record,
/// is dropped with a diagnostic; a failure of the broker is waited out; and
/// only the close of the channel ends the loop.
pub open spec fn answers(action: ConsumerAction, delivery: Delivery) -> bool {
    match delivery {
        Delivery::Record(record) => match record.metadata {
            Some(_) => action matches ConsumerAction::Forward(message) && decodes_to(
                record,
                message,
            ),
            None => action matches ConsumerAction::Drop { diagnostic } && diagnostic@
                == "❌ Error convirtiendo mensaje protobuf a DeviceMessage: "@
                + "Missing metadata in KafkaMessage"@,
        },
        Delivery::Undecodable(words) => action matches ConsumerAction::Drop { diagnostic }
            && diagnostic@ == "❌ Error decodificando mensaje protobuf: "@ + words@,
        Delivery::Empty => action is Skip,
        Delivery::ReceiveError(words) => action matches ConsumerAction::Backoff {
            seconds,
            diagnostic,
        } && seconds == RECONNECT_DELAY_SECS && diagnostic@
            == "Error recibiendo mensaje de Kafka: "@ + words@,
        Delivery::ChannelClosed => action is Stop,
    }
}

/// Appends one setting where it has a value.
fn push_optional(settings: &mut Vec<(String, String)>, key: &str, value: &Option<String>)
    ensures
        final(settings).deep_view() == old(settings).deep_view() + optional_setting(key@, *value),
{
    let ghost held = settings.deep_view();
    match value {
        Some(text) => {
            settings.push((String::from_str(key), text.clone()));
            assert(settings.deep_view() =~= held + seq![(key@, text@)]);
        },
        None => {
            assert(settings.deep_view() =~= held + Seq::empty());
        },
    }
}

impl KafkaConsumerService {
    /// Sets a consumer up for a broker. Nothing is subscribed yet.
    pub fn new(config: &BrokerConfig) -> (service: KafkaConsumerService)
        ensures
            service.topic@ == config.topic@,
            service.settings.deep_view() == client_settings(*config),
    {
        let mut settings: Vec<(String, String)> = Vec::new();
        settings.push((String::from_str("bootstrap.servers"), config.host.clone()));
        settings.push((String::from_str("group.id"), config.group_id.clone()));
        settings.push((String::from_str("auto.offset.reset"), String::from_str("latest")));
        settings.push((String::from_str("enable.auto.commit"), String::from_str("true")));
        settings.push((String::from_str("auto.commit.interval.ms"), String::from_str("1000")));
        settings.push((String::from_str("session.timeout.ms"), String::from_str("6000")));
        assert(settings.deep_view() =~= base_settings(*config));
        push_optional(&mut settings, "security.protocol", &config.security_protocol);
        push_optional(&mut settings, "sasl.mechanism", &config.sasl_mechanism);
        push_optional(&mut settings, "sasl.username", &config.username);
        push_optional(&mut settings, "sasl.password", &config.password);
        KafkaConsumerService { topic: config.topic.clone(), settings }
    }

    /// Decides what the poll loop does on a delivery. No delivery ends the
    /// loop but the close of the channel.
    pub fn on_delivery(delivery: Delivery) -> (action: ConsumerAction)
        ensures
            answers(action, delivery),
    {
        match delivery {
            Delivery::Record(record) => match Self::kafka_message_to_device_message(&record) {
                Ok(message) => ConsumerAction::Forward(message),
                Err(error) => {
                    let mut diagnostic = String::from_str(
                        "❌ Error convirtiendo mensaje protobuf a DeviceMessage: ",
                    );
                    diagnostic.append(error.message().as_str());
                    ConsumerAction::Drop { diagnostic }
                },
            },
            Delivery::Undecodable(words) => {
                let mut diagnostic = String::from_str("❌ Error decodificando mensaje protobuf: ");
                diagnostic.append(words.as_str());
                ConsumerAction::Drop { diagnostic }
            },
            Delivery::Empty => ConsumerAction::Skip,
            Delivery::ReceiveError(words) => {
                let mut diagnostic = String::from_str("Error recibiendo mensaje de Kafka: ");
                diagnostic.append(words.as_str());
                ConsumerAction::Backoff { seconds: RECONNECT_DELAY_SECS, diagnostic }
            },
            Delivery::ChannelClosed => ConsumerAction::Stop,
        }
    }

    /// Turns a delivered record into a device message. The record is rejected
    /// exactly when it has no metadata. Nothing numeric is parsed here, so no
    /// content of a field can make the decoding fail.
    pub fn kafka_message_to_device_message(kafka_msg: &KafkaMessage) -> (out: Result<
        DeviceMessage,
        DecodeError,
    >)
        ensures
            out is Err <==> kafka_msg.metadata is None,
            out matches Err(e) ==> e == DecodeError::MissingMetadata,
            out matches Ok(message) ==> decodes_to(*kafka_msg, message),
    {
        let metadata = match &kafka_msg.metadata {
            Some(metadata) => metadata,
            None => {
                return Err(DecodeError::MissingMetadata);
            },
        };
        let decoded = match &kafka_msg.decoded {
            Some(Decoded::Suntech { fields }) => DecodedData::Suntech {
                suntech_raw: SuntechRaw::from_fields(fields),
            },
            Some(Decoded::Queclink { fields }) => DecodedData::Queclink {
                queclink_raw: QueclinkRaw::from_fields(fields),
            },
            None => DecodedData::Suntech { suntech_raw: SuntechRaw::default() },
        };
        Ok(
            DeviceMessage {
                data: DeviceData::from_fields(&kafka_msg.data),
                decoded,
                metadata: DeviceMetadata {
                    bytes: to_signed_32(metadata.bytes),
                    client_ip: metadata.client_ip.clone(),
                    client_port: to_signed_32(metadata.client_port),
                    decoded_epoch: to_signed_64(metadata.decoded_epoch),
                    received_epoch: to_signed_64(metadata.received_epoch),
                    worker_id: to_signed_32(metadata.worker_id),
                },
                raw: kafka_msg.raw.clone(),
                uuid: kafka_msg.uuid.clone(),
            },
        )
    }
}

/// Decoding a record and writing its normalized payload back as a field list
/// gives the pairs that the record held: a pair with a non-empty value is
/// written exactly when its key is canonical and the record gave that value
/// to the key. Keys that the record lacks, or holds with an empty value, come
/// back with the empty value and are not counted.
pub proof fn lemma_normalized_fields_round_trip(
    record: KafkaMessage,
    message: DeviceMessage,
    key: Seq<char>,
    value: Seq<char>,
)
    requires
        decodes_to(record, message),
        value.len() > 0,
    ensures
        message.data.fields().contains((key, value)) <==> (DeviceData::canonical_keys().contains(
            key,
        ) && has_key(record.data.deep_view(), key) && field_value(record.data.deep_view(), key)
            == value),
{
    let written = message.data.fields();
    let keys = DeviceData::canonical_keys();
    let entries = record.data.deep_view();
    if written.contains((key, value)) {
        let i = choose|i: int| 0 <= i < written.len() && written[i] == (key, value);
        assert(written[i].1 == field_value(entries, written[i].0));
        assert(keys[i] == key);
        if !has_key(entries, key) {
            lemma_absent_key_is_empty(entries, key);
        }
    }
    if keys.contains(key) && field_value(entries, key) == value {
        let i = choose|i: int| 0 <= i < keys.len() && keys[i] == key;
        assert(written[i].1 == field_value(entries, written[i].0));
        assert(written[i] == (key, value));
    }
}

} // verus!
