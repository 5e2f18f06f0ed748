//! The batcher: it gathers device messages into a batch, decides when the
//! batch is flushed, and prepares the rows of a flushed batch.

use crate::models::communication_record::{
    excesses, has_identity, length_checks, row_of, CommunicationRecord, FieldExcess, LengthCheck,
    RowError,
};
use crate::models::DeviceMessage;
use crate::services::database::{DatabaseService, WritePlan};
use crate::services::kafka_producer::{outgoing_of, KafkaProducerService, OutgoingMessage};
use crate::services::tables::plans_batch;
use crate::text::{decimal_digits, format_decimal};
use crate::timestamp::{gps_datetime_of, Timestamp};
use vstd::string::StringExecFns;
use vstd::prelude::*;

verus! {

/// The threshold of a batcher that is given none.
pub const DEFAULT_BATCH_SIZE: usize = 100;

/// The time between two ticks of the flush timer where none is given, in
/// milliseconds.
pub const DEFAULT_FLUSH_INTERVAL_MS: u64 = 5000;

/// What can happen to the batcher while it runs.
#[derive(Debug, Clone, PartialEq, Eq)]
pub enum BatchEvent {
    /// A message arrived on the inbound channel.
    Message(DeviceMessage),
    /// The flush timer ticked.
    Tick,
    /// The inbound channel was closed.
    Closed,
}

/// What the batcher asks for after an event.
#[derive(Debug, Clone, PartialEq, Eq)]
pub struct BatchStep {
    /// The batch to flush now, in the order of arrival; nothing where no
    /// flush is due.
    pub flush: Option<Vec<DeviceMessage>>,
    /// Whether the loop of the batcher ends after this step.
    pub stop: bool,
}

/// A message that was dropped because it cannot become a row.
#[derive(Debug, Clone, PartialEq, Eq)]
pub struct Rejection {
    pub device_id: String,
    pub uuid: String,
    pub error: RowError,
}

/// A text of a message that is too long for its column.
#[derive(Debug, Clone, PartialEq, Eq)]
pub struct LengthWarning {
    /// The device of the message.
    pub device_id: String,
    /// What was found.
    pub excess: FieldExcess,
}

/// A flushed batch once its rows have been prepared.
#[derive(Debug, Clone, PartialEq, Eq)]
pub struct PreparedBatch {
    /// The rows for the store, one for each message that was accepted, in the
    /// order of arrival.
    pub records: Vec<CommunicationRecord>,
    /// The messages that were accepted, in the order of arrival.
    pub accepted: Vec<DeviceMessage>,
    /// The messages that were dropped, in the order of arrival.
    pub rejections: Vec<Rejection>,
    /// The findings on the length-bounded fields of the accepted messages.
    pub warnings: Vec<LengthWarning>,
}

/// Counters of the pipeline.
#[derive(Debug, Clone, Copy, PartialEq, Eq, Structural)]
pub struct ProcessorStatistics {
    pub db_buffer_size: usize,
    pub kafka_buffer_size: usize,
    pub batch_size: usize,
}

impl ProcessorStatistics {
    /// The line that reports the counters.
    pub open spec fn text(self) -> Seq<char> {
        "📊 Estadísticas - DB Buffer: "@ + decimal_digits(self.db_buffer_size as nat)
            + ", Kafka Buffer: "@ + decimal_digits(self.kafka_buffer_size as nat)
            + ", Batch Size: "@ + decimal_digits(self.batch_size as nat)
    }

    /// Writes the line that reports the counters.
    pub fn message(&self) -> (line: String)
        ensures
            line@ == self.text(),
    {
        let mut line = String::from_str("📊 Estadísticas - DB Buffer: ");
        line.append(format_decimal(self.db_buffer_size as u64).as_str());
        line.append(", Kafka Buffer: ");
        line.append(format_decimal(self.kafka_buffer_size as u64).as_str());
        line.append(", Batch Size: ");
        line.append(format_decimal(self.batch_size as u64).as_str());
        line
    }
}

/// The messages of a batch that can become rows, in their order.
pub open spec fn accepted_of(batch: Seq<DeviceMessage>) -> Seq<DeviceMessage>
    decreases batch.len(),
{
    if batch.len() == 0 {
        Seq::empty()
    } else if has_identity(batch.last()) {
        accepted_of(batch.drop_last()).push(batch.last())
    } else {
        accepted_of(batch.drop_last())
    }
}

/// The messages of a batch that cannot become rows, in their order.
pub open spec fn rejected_of(batch: Seq<DeviceMessage>) -> Seq<DeviceMessage>
    decreases batch.len(),
{
    if batch.len() == 0 {
        Seq::empty()
    } else if has_identity(batch.last()) {
        rejected_of(batch.drop_last())
    } else {
        rejected_of(batch.drop_last()).push(batch.last())
    }
}

/// The failing length checks of a list of messages, each with the device of
/// its message, in the order of the messages and of the checks.
pub open spec fn warnings_of(messages: Seq<DeviceMessage>) -> Seq<(Seq<char>, LengthCheck)>
    decreases messages.len(),
{
    if messages.len() == 0 {
        Seq::empty()
    } else {
        warnings_of(messages.drop_last()) + excesses(length_checks(messages.last())).map_values(
            |check: LengthCheck| (messages.last().data.device_id@, check),
        )
    }
}

/// Whether the rows are those of the messages, one for each and in their
/// order, prepared at the time `now`.
pub open spec fn rows_of(
    records: Seq<CommunicationRecord>,
    messages: Seq<DeviceMessage>,
    now: Timestamp,
) -> bool {
    &&& records.len() == messages.len()
    &&& forall|i: int|
        0 <= i < messages.len() ==> row_of(
            messages[i],
            gps_datetime_of(messages[i].data.gps_datetime@),
            now,
            #[trigger] records[i],
        )
}

/// Whether the rejections tell of the messages, one for each and in their
/// order: who was dropped, and for want of what.
pub open spec fn rejections_of(rejections: Seq<Rejection>, messages: Seq<DeviceMessage>) -> bool {
    &&& rejections.len() == messages.len()
    &&& forall|i: int|
        0 <= i < messages.len() ==> {
            let rejection = #[trigger] rejections[i];
            &&& rejection.device_id@ == messages[i].data.device_id@
            &&& rejection.uuid@ == messages[i].uuid@
            &&& rejection.error == (if messages[i].uuid@.len() == 0 {
                RowError::MissingUuid
            } else {
                RowError::MissingDeviceId
            })
        }
}

/// Whether the warnings report the failing checks of the list, one for each
/// and in their order.
pub open spec fn warns_of(warnings: Seq<LengthWarning>, failing: Seq<(Seq<char>, LengthCheck)>) -> bool {
    &&& warnings.len() == failing.len()
    &&& forall|i: int|
        0 <= i < failing.len() ==> {
            let warning = #[trigger] warnings[i];
            &&& warning.device_id@ == failing[i].0
            &&& warning.excess.describes(failing[i].1)
        }
}

/// Whether `prepared` is what the batch `batch` becomes at the time `now`:
/// the messages that have a `uuid` and a `device_id` are accepted and have
/// their rows, the others are dropped with the reason, and every accepted
/// message has its length-bounded fields checked.
pub open spec fn prepares(prepared: PreparedBatch, batch: Seq<DeviceMessage>, now: Timestamp) -> bool {
    &&& prepared.accepted@ == accepted_of(batch)
    &&& rows_of(prepared.records@, accepted_of(batch), now)
    &&& rejections_of(prepared.rejections@, rejected_of(batch))
    &&& warns_of(prepared.warnings@, warnings_of(accepted_of(batch)))
}

/// The batcher of the pipeline. One batcher runs, and it handles its events
/// one after the other, so that the rows of a device reach the store in the
/// order in which its messages arrived.
pub struct MessageProcessor {
    batch_size: usize,
    flush_interval_ms: u64,
    batch: Vec<DeviceMessage>,
}

impl Default for MessageProcessor {
    /// A batcher with the default threshold and the default flush interval.
    fn default() -> (processor: MessageProcessor)
        ensures
            processor.threshold() == DEFAULT_BATCH_SIZE,
            processor.interval_ms() == DEFAULT_FLUSH_INTERVAL_MS,
            processor.pending().len() == 0,
    {
        MessageProcessor::new(DEFAULT_BATCH_SIZE, DEFAULT_FLUSH_INTERVAL_MS)
    }
}

impl MessageProcessor {
    /// Between two events the batch is below the threshold.
    #[verifier::type_invariant]
    pub closed spec fn well_formed(self) -> bool {
        self.batch@.len() == 0 || self.batch@.len() < self.batch_size
    }

    /// The threshold at which the batch is flushed.
    pub closed spec fn threshold(&self) -> usize {
        self.batch_size
    }

    /// The time between two ticks of the flush timer, in milliseconds.
    pub closed spec fn interval_ms(&self) -> u64 {
        self.flush_interval_ms
    }

    /// The messages that wait in the batch, oldest first.
    pub closed spec fn pending(&self) -> Seq<DeviceMessage> {
        self.batch@
    }

    /// A batcher with an empty batch.
    pub fn new(batch_size: usize, flush_interval_ms: u64) -> (processor: MessageProcessor)
        ensures
            processor.threshold() == batch_size,
            processor.interval_ms() == flush_interval_ms,
            processor.pending().len() == 0,
    {
        MessageProcessor { batch_size, flush_interval_ms, batch: Vec::new() }
    }

    /// The threshold at which the batch is flushed.
    pub fn batch_size(&self) -> (n: usize)
        ensures
            n == self.threshold(),
    {
        self.batch_size
    }

    /// The time between two ticks of the flush timer, in milliseconds.
    pub fn flush_interval_ms(&self) -> (ms: u64)
        ensures
            ms == self.interval_ms(),
    {
        self.flush_interval_ms
    }

    /// How many messages wait in the batch.
    pub fn pending_len(&self) -> (n: usize)
        ensures
            n == self.pending().len(),
    {
        self.batch.len()
    }

    /// The room of the bounded channel in front of the batcher: twice the
    /// threshold. There is none to give where the threshold is 0 or its
    /// double does not fit the machine word.
    pub fn channel_capacity(&self) -> (capacity: Option<usize>)
        ensures
            capacity == (if 0 < self.threshold() && 2 * self.threshold() <= usize::MAX {
                Some((2 * self.threshold()) as usize)
            } else {
                None
            }),
    {
        if self.batch_size == 0 {
            None
        } else {
            self.batch_size.checked_mul(2)
        }
    }

    /// Handles one event. A message joins the batch, and the batch is flushed
    /// at once where it has reached the threshold. A tick flushes a batch
    /// that is not empty and does nothing otherwise. The close of the channel
    /// flushes what is left and ends the loop. A flush hands out the whole
    /// batch and leaves it empty.
    pub fn on_event(&mut self, event: BatchEvent) -> (step: BatchStep)
        ensures
            final(self).threshold() == old(self).threshold(),
            final(self).interval_ms() == old(self).interval_ms(),
            step.stop == (event is Closed),
            final(self).pending().len() == 0 || final(self).pending().len() < old(self).threshold(),
            step.flush matches Some(batch) ==> batch@.len() >= 1 && (old(self).threshold() >= 1
                ==> batch@.len() <= old(self).threshold()),
            match event {
                BatchEvent::Message(message) => {
                    let joined = old(self).pending().push(message);
                    if joined.len() >= old(self).threshold() {
                        &&& step.flush matches Some(batch)
                        &&& batch@ == joined
                        &&& final(self).pending().len() == 0
                    } else {
                        &&& step.flush is None
                        &&& final(self).pending() == joined
                    }
                },
                _ => {
                    &&& final(self).pending().len() == 0
                    &&& if old(self).pending().len() == 0 {
                        step.flush is None
                    } else {
                        step.flush matches Some(batch) && batch@ == old(self).pending()
                    }
                },
            },
    {
        proof {
            use_type_invariant(&*self);
        }
        let mut batch: Vec<DeviceMessage> = Vec::new();
        std::mem::swap(&mut self.batch, &mut batch);
        match event {
            BatchEvent::Message(message) => {
                batch.push(message);
                if batch.len() >= self.batch_size {
                    BatchStep { flush: Some(batch), stop: false }
                } else {
                    self.batch = batch;
                    BatchStep { flush: None, stop: false }
                }
            },
            BatchEvent::Tick => {
                if batch.len() == 0 {
                    BatchStep { flush: None, stop: false }
                } else {
                    BatchStep { flush: Some(batch), stop: false }
                }
            },
            BatchEvent::Closed => {
                if batch.len() == 0 {
                    BatchStep { flush: None, stop: true }
                } else {
                    BatchStep { flush: Some(batch), stop: true }
                }
            },
        }
    }

    /// The counters of the pipeline, with the sizes of the two outside
    /// buffers as they were read.
    pub fn get_statistics(&self, db_buffer_size: usize, kafka_buffer_size: usize) -> (statistics:
        ProcessorStatistics)
        ensures
            statistics == (ProcessorStatistics {
                db_buffer_size,
                kafka_buffer_size,
                batch_size: self.threshold(),
            }),
    {
        ProcessorStatistics { db_buffer_size, kafka_buffer_size, batch_size: self.batch_size }
    }
}

/// Puts the findings on one message behind the warnings gathered so far.
fn push_warnings(warnings: &mut Vec<LengthWarning>, device_id: &String, found: Vec<FieldExcess>)
    ensures
        final(warnings)@.len() == old(warnings)@.len() + found@.len(),
        final(warnings)@.take(old(warnings)@.len() as int) == old(warnings)@,
        forall|k: int|
            0 <= k < found@.len() ==> {
                let warning = #[trigger] final(warnings)@[old(warnings)@.len() + k];
                warning.device_id@ == device_id@ && warning.excess == found@[k]
            },
{
    let ghost base = warnings@;
    let ghost all = found@;
    for excess in it: found
        invariant
            it.seq() == all,
            warnings@.len() == base.len() + it.index(),
            warnings@.take(base.len() as int) == base,
            forall|k: int|
                0 <= k < it.index() ==> {
                    let warning = #[trigger] warnings@[base.len() + k];
                    warning.device_id@ == device_id@ && warning.excess == all[k]
                },
    {
        let ghost before = warnings@;
        warnings.push(LengthWarning { device_id: device_id.clone(), excess });
        assert(warnings@.take(base.len() as int) =~= before.take(base.len() as int));
        assert forall|k: int| 0 <= k < it.index() + 1 implies {
            let warning = #[trigger] warnings@[base.len() + k];
            warning.device_id@ == device_id@ && warning.excess == all[k]
        } by {
            if k < it.index() {
                assert(warnings@[base.len() + k] == before[base.len() + k]);
            }
        }
    }
}

/// Every accepted message has a `uuid` and a `device_id`.
pub proof fn lemma_accepted_have_identity(batch: Seq<DeviceMessage>)
    ensures
        forall|i: int|
            0 <= i < accepted_of(batch).len() ==> has_identity(#[trigger] accepted_of(batch)[i]),
        accepted_of(batch).len() + rejected_of(batch).len() == batch.len(),
    decreases batch.len(),
{
    if batch.len() > 0 {
        lemma_accepted_have_identity(batch.drop_last());
    }
}

impl MessageProcessor {
    /// Prepares the rows of a flushed batch at the time `now`. A message
    /// without a `uuid` or without a `device_id` is dropped and reported;
    /// every other message gets its row, whatever its numeric texts and its
    /// lengths are like. So every row that goes on to the store names its
    /// observation and its device.
    pub fn process_batch(batch: Vec<DeviceMessage>, now: Timestamp) -> (prepared: PreparedBatch)
        ensures
            prepares(prepared, batch@, now),
            prepared.records@.len() + prepared.rejections@.len() == batch@.len(),
            forall|i: int|
                0 <= i < prepared.records@.len() ==> {
                    let row = #[trigger] prepared.records@[i];
                    row.uuid@.len() > 0 && row.device_id@.len() > 0
                },
    {
        let mut records: Vec<CommunicationRecord> = Vec::new();
        let mut accepted: Vec<DeviceMessage> = Vec::new();
        let mut rejections: Vec<Rejection> = Vec::new();
        let mut warnings: Vec<LengthWarning> = Vec::new();
        let ghost all = batch@;
        for message in it: batch
            invariant
                it.seq() == all,
                accepted@ == accepted_of(all.take(it.index() as int)),
                rows_of(records@, accepted@, now),
                rejections_of(rejections@, rejected_of(all.take(it.index() as int))),
                warns_of(warnings@, warnings_of(accepted@)),
        {
            let ghost seen = all.take(it.index() as int);
            let ghost more = all.take(it.index() + 1);
            assert(more.drop_last() =~= seen);
            assert(more.last() == message);
            match CommunicationRecord::from_device_message(&message, now) {
                Ok(record) => {
                    let found = CommunicationRecord::validate_field_lengths(&message);
                    let ghost held = warnings@;
                    let ghost failing = excesses(length_checks(message));
                    push_warnings(&mut warnings, &message.data.device_id, found);
                    records.push(record);
                    accepted.push(message);
                    proof {
                        assert(accepted@.drop_last() =~= accepted_of(seen));
                        let wanted = warnings_of(accepted@);
                        let earlier = warnings_of(accepted_of(seen));
                        assert(wanted == earlier + failing.map_values(
                            |check: LengthCheck| (message.data.device_id@, check),
                        ));
                        assert forall|i: int| 0 <= i < wanted.len() implies {
                            let warning = #[trigger] warnings@[i];
                            &&& warning.device_id@ == wanted[i].0
                            &&& warning.excess.describes(wanted[i].1)
                        } by {
                            if i < held.len() {
                                assert(warnings@.take(held.len() as int)[i] == warnings@[i]);
                            } else {
                                let k = i - held.len();
                                assert(warnings@[held.len() + k].excess == found@[k]);
                            }
                        }
                    }
                },
                Err(error) => {
                    rejections.push(
                        Rejection {
                            device_id: message.data.device_id.clone(),
                            uuid: message.uuid.clone(),
                            error,
                        },
                    );
                },
            }
        }
        proof {
            assert(all.take(all.len() as int) =~= all);
            lemma_accepted_have_identity(all);
        }
        PreparedBatch { records, accepted, rejections, warnings }
    }

    /// Plans the write of the rows of one batch: see
    /// `DatabaseService::plan_batch`.
    pub fn process_database_batch(records: Vec<CommunicationRecord>) -> (plan: WritePlan)
        ensures
            plans_batch(plan, records@),
            records@.len() == 0 ==> plan.statement_seq().len() == 0,
    {
        let plan = DatabaseService::plan_batch(records);
        proof {
            if records@.len() == 0 {
                crate::services::database::lemma_routed_lengths(records@);
            }
        }
        plan
    }
}

/// What goes out to Kafka for one batch.
#[derive(Debug, Clone, PartialEq, Eq)]
pub struct KafkaBatch {
    /// How many messages were queued as positions.
    pub count: usize,
    /// Everything that waited in the buffer of the producer, oldest first.
    pub outgoing: Vec<OutgoingMessage>,
}

impl MessageProcessor {
    /// Queues the messages of a batch with the producer, each with its
    /// serialized form, and takes the buffer of the producer to be sent:
    /// every message as a position, and every alert as a notification too.
    pub fn process_kafka_batch_internal(
        kafka: &mut KafkaProducerService,
        messages: Vec<(DeviceMessage, String)>,
    ) -> (batch: KafkaBatch)
        ensures
            batch.count == messages@.len(),
            batch.outgoing.deep_view() == old(kafka).buffered() + outgoing_of(
                messages@,
                old(kafka).position_topic(),
                old(kafka).notifications_topic(),
            ),
            final(kafka).buffered().len() == 0,
            final(kafka).position_topic() == old(kafka).position_topic(),
            final(kafka).notifications_topic() == old(kafka).notifications_topic(),
            final(kafka).threshold() == old(kafka).threshold(),
            final(kafka).client_settings() == old(kafka).client_settings(),
    {
        let ghost all = messages@;
        let ghost held = kafka.buffered();
        let ghost position_topic = kafka.position_topic();
        let ghost notifications_topic = kafka.notifications_topic();
        let count = messages.len();
        assert(held + outgoing_of(all.take(0), position_topic, notifications_topic) =~= held);
        for pair in it: messages
            invariant
                it.seq() == all,
                kafka.buffered() == held + outgoing_of(
                    all.take(it.index() as int),
                    position_topic,
                    notifications_topic,
                ),
                kafka.position_topic() == position_topic,
                kafka.notifications_topic() == notifications_topic,
                kafka.threshold() == old(kafka).threshold(),
                kafka.client_settings() == old(kafka).client_settings(),
        {
            let ghost seen = all.take(it.index() as int);
            let ghost more = all.take(it.index() + 1);
            assert(more.drop_last() =~= seen);
            assert(more.last() == pair);
            let (message, payload) = pair;
            kafka.send_position(&message, payload.clone());
            kafka.send_notification(&message, payload);
            assert(kafka.buffered() =~= held + outgoing_of(
                more,
                position_topic,
                notifications_topic,
            ));
        }
        assert(all.take(all.len() as int) =~= all);
        let outgoing = kafka.flush_buffer();
        KafkaBatch { count, outgoing }
    }
}

} // verus!
