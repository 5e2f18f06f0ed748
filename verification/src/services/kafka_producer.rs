//! The producer side: which messages go out to which topic, how they wait in
//! the buffer, and what is made of the outcome of a send.

use crate::fields::FieldSeq;
use crate::logging::ProbeResult;
use crate::models::DeviceMessage;
use crate::text::{
    decimal_digits, format_decimal, format_signed, join, joined, same_text, signed_digits,
};
use vstd::prelude::*;
use vstd::string::StringExecFns;

verus! {

/// A message that waits to be published.
#[derive(Debug, Clone, PartialEq, Eq)]
pub struct OutgoingMessage {
    pub topic: String,
    /// The key by which the broker partitions: the device.
    pub key: String,
    /// The message, serialized.
    pub payload: String,
}

impl DeepView for OutgoingMessage {
    type V = (Seq<char>, Seq<char>, Seq<char>);

    /// Topic, key and payload.
    open spec fn deep_view(&self) -> (Seq<char>, Seq<char>, Seq<char>) {
        (self.topic@, self.key@, self.payload@)
    }
}

/// The message class that is published as a notification.
pub open spec fn is_alert(message: DeviceMessage) -> bool {
    message.data.msg_class@ == "ALERT"@
}

/// The settings of the client of a producer, in the order in which they are
/// applied. The compression is set only where one is asked for.
pub open spec fn producer_settings(
    brokers: Seq<Seq<char>>,
    compression: Option<Seq<char>>,
    retries: int,
) -> FieldSeq {
    seq![
        ("bootstrap.servers"@, joined(brokers, ","@)),
        ("message.timeout.ms"@, "30000"@),
        ("retries"@, signed_digits(retries)),
        ("retry.backoff.ms"@, "1000"@),
        ("queue.buffering.max.kbytes"@, "32768"@),
        ("linger.ms"@, "100"@),
    ] + (match compression {
        Some(kind) => seq![("compression.type"@, kind)],
        None => Seq::empty(),
    }) + seq![("acks"@, "1"@)]
}

/// What goes out for a list of messages with their payloads: every message
/// to the position topic, and every alert to the notifications topic as
/// well, right behind.
pub open spec fn outgoing_of(
    messages: Seq<(DeviceMessage, String)>,
    position_topic: Seq<char>,
    notifications_topic: Seq<char>,
) -> Seq<(Seq<char>, Seq<char>, Seq<char>)>
    decreases messages.len(),
{
    if messages.len() == 0 {
        Seq::empty()
    } else {
        let (message, payload) = messages.last();
        let before = outgoing_of(messages.drop_last(), position_topic, notifications_topic);
        let position = before.push((position_topic, message.data.device_id@, payload@));
        if is_alert(message) {
            position.push((notifications_topic, message.data.device_id@, payload@))
        } else {
            position
        }
    }
}

/// The failures among the outcomes of a send, each with the place of its
/// message: an outcome is the words of the error, or nothing where the
/// message was delivered.
pub open spec fn failures_of(outcomes: Seq<Option<String>>) -> Seq<(int, Seq<char>)>
    decreases outcomes.len(),
{
    if outcomes.len() == 0 {
        Seq::empty()
    } else {
        match outcomes.last() {
            Some(words) => failures_of(outcomes.drop_last()).push((outcomes.len() - 1, words@)),
            None => failures_of(outcomes.drop_last()),
        }
    }
}

/// The line that reports one failed message.
pub open spec fn failure_line(place: int, words: Seq<char>) -> Seq<char> {
    "Error enviando mensaje "@ + decimal_digits(place as nat) + ": "@ + words
}

/// The line that sums the failures of a send up.
pub open spec fn summary_line(errors: nat) -> Seq<char> {
    "Se produjeron "@ + decimal_digits(errors) + " errores al enviar lote de mensajes"@
}

/// What is made of the outcome of a send.
#[derive(Debug, Clone, PartialEq, Eq)]
pub struct DeliveryReport {
    /// How many messages failed.
    pub errors: usize,
    /// One line for every failed message, in their order.
    pub lines: Vec<String>,
    /// The line that sums up, where anything failed.
    pub summary: Option<String>,
}

/// The producer of the pipeline: its two topics, the settings of its client
/// and the messages that wait to be published.
pub struct KafkaProducerService {
    position_topic: String,
    notifications_topic: String,
    buffer: Vec<OutgoingMessage>,
    batch_size: usize,
    settings: Vec<(String, String)>,
}

impl KafkaProducerService {
    /// The messages that wait in the buffer, oldest first.
    pub closed spec fn buffered(&self) -> Seq<(Seq<char>, Seq<char>, Seq<char>)> {
        self.buffer.deep_view()
    }

    /// The topic of the positions.
    pub closed spec fn position_topic(&self) -> Seq<char> {
        self.position_topic@
    }

    /// The topic of the notifications.
    pub closed spec fn notifications_topic(&self) -> Seq<char> {
        self.notifications_topic@
    }

    /// The size at which the buffer counts as full.
    pub closed spec fn threshold(&self) -> usize {
        self.batch_size
    }

    /// The settings of the client.
    pub closed spec fn client_settings(&self) -> FieldSeq {
        self.settings.deep_view()
    }

    /// Sets a producer up. Nothing is connected yet.
    pub fn new(
        brokers: &Vec<String>,
        position_topic: String,
        notifications_topic: String,
        batch_size: usize,
        compression: Option<&str>,
        retries: i32,
    ) -> (service: KafkaProducerService)
        ensures
            service.position_topic() == position_topic@,
            service.notifications_topic() == notifications_topic@,
            service.threshold() == batch_size,
            service.buffered().len() == 0,
            service.client_settings() == producer_settings(
                brokers.deep_view(),
                match compression {
                    Some(kind) => Some(kind@),
                    None => None,
                },
                retries as int,
            ),
    {
        let mut settings: Vec<(String, String)> = Vec::new();
        settings.push((String::from_str("bootstrap.servers"), join(brokers, ",")));
        settings.push((String::from_str("message.timeout.ms"), String::from_str("30000")));
        settings.push((String::from_str("retries"), format_signed(retries as i64)));
        settings.push((String::from_str("retry.backoff.ms"), String::from_str("1000")));
        settings.push((String::from_str("queue.buffering.max.kbytes"), String::from_str("32768")));
        settings.push((String::from_str("linger.ms"), String::from_str("100")));
        match compression {
            Some(kind) => {
                settings.push((String::from_str("compression.type"), String::from_str(kind)));
            },
            None => {},
        }
        settings.push((String::from_str("acks"), String::from_str("1")));
        assert(settings.deep_view() =~= producer_settings(
            brokers.deep_view(),
            match compression {
                Some(kind) => Some(kind@),
                None => None,
            },
            retries as int,
        ));
        KafkaProducerService {
            position_topic,
            notifications_topic,
            buffer: Vec::new(),
            batch_size,
            settings,
        }
    }

    /// The settings of the client, as pairs of key and value.
    pub fn settings(&self) -> (settings: &Vec<(String, String)>)
        ensures
            settings.deep_view() == self.client_settings(),
    {
        &self.settings
    }

    /// Puts a message at the end of the buffer and tells whether the buffer
    /// is full and wants to be flushed.
    pub fn add_to_buffer(&mut self, message: OutgoingMessage) -> (full: bool)
        ensures
            final(self).buffered() == old(self).buffered().push(message.deep_view()),
            final(self).position_topic() == old(self).position_topic(),
            final(self).notifications_topic() == old(self).notifications_topic(),
            final(self).threshold() == old(self).threshold(),
            final(self).client_settings() == old(self).client_settings(),
            full == (final(self).buffered().len() >= old(self).threshold()),
    {
        let ghost held = self.buffer.deep_view();
        self.buffer.push(message);
        assert(self.buffer.deep_view() =~= held.push(message.deep_view()));
        self.buffer.len() >= self.batch_size
    }

    /// Queues a message for the position topic, under the key of its device.
    pub fn send_position(&mut self, message: &DeviceMessage, payload: String)
        ensures
            final(self).buffered() == old(self).buffered().push(
                (old(self).position_topic(), message.data.device_id@, payload@),
            ),
            final(self).position_topic() == old(self).position_topic(),
            final(self).notifications_topic() == old(self).notifications_topic(),
            final(self).threshold() == old(self).threshold(),
            final(self).client_settings() == old(self).client_settings(),
    {
        let outgoing = OutgoingMessage {
            topic: self.position_topic.clone(),
            key: message.data.device_id.clone(),
            payload,
        };
        self.add_to_buffer(outgoing);
    }

    /// Queues a message for the notifications topic where it is an alert,
    /// and does nothing where it is not.
    pub fn send_notification(&mut self, message: &DeviceMessage, payload: String)
        ensures
            final(self).buffered() == (if is_alert(*message) {
                old(self).buffered().push(
                    (old(self).notifications_topic(), message.data.device_id@, payload@),
                )
            } else {
                old(self).buffered()
            }),
            final(self).position_topic() == old(self).position_topic(),
            final(self).notifications_topic() == old(self).notifications_topic(),
            final(self).threshold() == old(self).threshold(),
            final(self).client_settings() == old(self).client_settings(),
    {
        if same_text(message.data.msg_class.as_str(), "ALERT") {
            let outgoing = OutgoingMessage {
                topic: self.notifications_topic.clone(),
                key: message.data.device_id.clone(),
                payload,
            };
            self.add_to_buffer(outgoing);
        }
    }

    /// How many messages wait in the buffer.
    pub fn buffer_size(&self) -> (n: usize)
        ensures
            n == self.buffered().len(),
    {
        self.buffer.len()
    }

    /// Takes every message out of the buffer, oldest first, to be sent.
    pub fn flush_buffer(&mut self) -> (messages: Vec<OutgoingMessage>)
        ensures
            messages.deep_view() == old(self).buffered(),
            final(self).buffered().len() == 0,
            final(self).position_topic() == old(self).position_topic(),
            final(self).notifications_topic() == old(self).notifications_topic(),
            final(self).threshold() == old(self).threshold(),
            final(self).client_settings() == old(self).client_settings(),
    {
        let mut messages: Vec<OutgoingMessage> = Vec::new();
        std::mem::swap(&mut self.buffer, &mut messages);
        messages
    }

    /// Judges a health probe of the broker, given what came of asking it for
    /// its metadata: nothing, or the words of the error.
    pub fn health_check(outcome: Result<(), String>) -> (probe: ProbeResult)
        ensures
            probe.healthy == outcome is Ok,
            match outcome {
                Ok(_) => probe.line is None,
                Err(words) => probe.line matches Some(line) && line@
                    == "Kafka health check failed: "@ + words@,
            },
    {
        match outcome {
            Ok(_) => ProbeResult { healthy: true, line: None },
            Err(words) => {
                let mut line = String::from_str("Kafka health check failed: ");
                line.append(words.as_str());
                ProbeResult { healthy: false, line: Some(line) }
            },
        }
    }

    /// Sums the outcome of a send up: how many messages failed, a line for
    /// each, and a summary where anything failed. A failed message is
    /// reported and not sent again.
    pub fn batch_send(outcomes: &Vec<Option<String>>) -> (report: DeliveryReport)
        ensures
            report.errors == failures_of(outcomes@).len(),
            report.lines@.len() == failures_of(outcomes@).len(),
            forall|i: int|
                0 <= i < report.lines@.len() ==> (#[trigger] report.lines@[i])@ == failure_line(
                    failures_of(outcomes@)[i].0,
                    failures_of(outcomes@)[i].1,
                ),
            report.summary.deep_view() == (if report.errors > 0 {
                Some(summary_line(report.errors as nat))
            } else {
                None
            }),
    {
        let mut lines: Vec<String> = Vec::new();
        let mut i: usize = 0;
        while i < outcomes.len()
            invariant
                i <= outcomes.len(),
                lines@.len() == failures_of(outcomes@.take(i as int)).len(),
                lines@.len() <= i,
                forall|k: int|
                    0 <= k < lines@.len() ==> (#[trigger] lines@[k])@ == failure_line(
                        failures_of(outcomes@.take(i as int))[k].0,
                        failures_of(outcomes@.take(i as int))[k].1,
                    ),
            decreases outcomes.len() - i,
        {
            let ghost seen = outcomes@.take(i as int);
            let ghost more = outcomes@.take(i + 1);
            assert(more.drop_last() =~= seen);
            assert(more.last() == outcomes@[i as int]);
            match &outcomes[i] {
                Some(words) => {
                    let mut line = String::from_str("Error enviando mensaje ");
                    line.append(format_decimal(i as u64).as_str());
                    line.append(": ");
                    line.append(words.as_str());
                    lines.push(line);
                },
                None => {},
            }
            i = i + 1;
        }
        assert(outcomes@.take(i as int) =~= outcomes@);
        let errors = lines.len();
        let summary = if errors > 0 {
            let mut line = String::from_str("Se produjeron ");
            line.append(format_decimal(errors as u64).as_str());
            line.append(" errores al enviar lote de mensajes");
            Some(line)
        } else {
            None
        };
        DeliveryReport { errors, lines, summary }
    }
}

} // verus!
