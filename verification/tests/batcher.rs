use siscom_consumer::models::communication_record::RowError;
use siscom_consumer::models::{
    DecodedData, DeviceData, DeviceMessage, DeviceMetadata, SuntechRaw,
};
use siscom_consumer::services::database::Table;
use siscom_consumer::services::kafka_producer::{KafkaProducerService, OutgoingMessage};
use siscom_consumer::services::processor::{
    BatchEvent, BatchStep, MessageProcessor, ProcessorStatistics, Rejection, DEFAULT_BATCH_SIZE,
    DEFAULT_FLUSH_INTERVAL_MS,
};
use siscom_consumer::timestamp::Timestamp;

fn batcher_now() -> Timestamp {
    Timestamp { year: 2024, month: 3, day: 9, hour: 8, minute: 7, second: 6, nanosecond: 0 }
}

fn batcher_message(device_id: &str, msg_class: &str, uuid: &str) -> DeviceMessage {
    let pairs = vec![
        ("DEVICE_ID".to_string(), device_id.to_string()),
        ("MSG_CLASS".to_string(), msg_class.to_string()),
    ];
    DeviceMessage {
        data: DeviceData::from_fields(&pairs),
        decoded: DecodedData::Suntech { suntech_raw: SuntechRaw::default() },
        metadata: DeviceMetadata {
            bytes: 1,
            client_ip: String::new(),
            client_port: 2,
            decoded_epoch: 3,
            received_epoch: 4,
            worker_id: 5,
        },
        raw: String::new(),
        uuid: uuid.to_string(),
    }
}

fn batcher_feed(processor: &mut MessageProcessor, n: usize) {
    for i in 0..n {
        let step = processor
            .on_event(BatchEvent::Message(batcher_message("A", "STT", &format!("u{}", i))));
        assert_eq!(step, BatchStep { flush: None, stop: false });
    }
}

#[test]
fn new_batcher_is_empty() {
    let processor = MessageProcessor::new(100, 5000);
    assert_eq!(processor.batch_size(), 100);
    assert_eq!(processor.flush_interval_ms(), 5000);
    assert_eq!(processor.pending_len(), 0);
}

#[test]
fn default_batcher_flushes_at_one_hundred_or_after_five_seconds() {
    assert_eq!(DEFAULT_BATCH_SIZE, 100);
    assert_eq!(DEFAULT_FLUSH_INTERVAL_MS, 5000);
    let mut processor = MessageProcessor::default();
    assert_eq!(processor.batch_size(), 100);
    assert_eq!(processor.flush_interval_ms(), 5000);
    batcher_feed(&mut processor, 99);
    let step = processor.on_event(BatchEvent::Message(batcher_message("A", "STT", "u99")));
    assert_eq!(step.flush.unwrap().len(), 100);
}

#[test]
fn batch_at_the_threshold_is_flushed() {
    let mut processor = MessageProcessor::new(3, 5000);
    batcher_feed(&mut processor, 2);
    assert_eq!(processor.pending_len(), 2);
    let step = processor.on_event(BatchEvent::Message(batcher_message("A", "STT", "last")));
    assert!(!step.stop);
    let batch = step.flush.unwrap();
    assert_eq!(batch.len(), 3);
    let uuids: Vec<&str> = batch.iter().map(|m| m.uuid.as_str()).collect();
    assert_eq!(uuids, vec!["u0", "u1", "last"]);
    assert_eq!(processor.pending_len(), 0);
}

#[test]
fn batch_below_the_threshold_is_flushed_by_the_tick() {
    let mut processor = MessageProcessor::new(3, 5000);
    batcher_feed(&mut processor, 2);
    let step = processor.on_event(BatchEvent::Tick);
    assert!(!step.stop);
    assert_eq!(step.flush.unwrap().len(), 2);
    assert_eq!(processor.pending_len(), 0);
}

#[test]
fn empty_tick_does_nothing() {
    let mut processor = MessageProcessor::new(3, 5000);
    assert_eq!(processor.on_event(BatchEvent::Tick), BatchStep { flush: None, stop: false });
    batcher_feed(&mut processor, 1);
    assert!(processor.on_event(BatchEvent::Tick).flush.is_some());
    assert_eq!(processor.on_event(BatchEvent::Tick), BatchStep { flush: None, stop: false });
    let plan = MessageProcessor::process_database_batch(Vec::new());
    assert!(plan.is_empty());
}

#[test]
fn timer_flush_below_threshold() {
    let mut processor = MessageProcessor::new(100, 200);
    batcher_feed(&mut processor, 5);
    let batch = processor.on_event(BatchEvent::Tick).flush.unwrap();
    assert_eq!(batch.len(), 5);
    let prepared = MessageProcessor::process_batch(batch, batcher_now());
    let plan = MessageProcessor::process_database_batch(prepared.records);
    assert_eq!(plan.total(), 5);
}

#[test]
fn close_flushes_what_is_left_and_stops() {
    let mut processor = MessageProcessor::new(100, 5000);
    batcher_feed(&mut processor, 7);
    let step = processor.on_event(BatchEvent::Closed);
    assert!(step.stop);
    let batch = step.flush.unwrap();
    assert_eq!(batch.len(), 7);
    let prepared = MessageProcessor::process_batch(batch, batcher_now());
    let plan = MessageProcessor::process_database_batch(prepared.records);
    assert_eq!(plan.rows(0).unwrap().len(), 7);
    assert_eq!(plan.statement(1).unwrap().table, Table::CurrentState);
    assert_eq!(plan.rows(1).unwrap().len(), 1);
    assert_eq!(plan.rows(1).unwrap()[0].uuid, "u6");
    let mut idle = MessageProcessor::new(100, 5000);
    assert_eq!(idle.on_event(BatchEvent::Closed), BatchStep { flush: None, stop: true });
}

#[test]
fn flush_never_exceeds_the_threshold() {
    for threshold in 1..6usize {
        let mut processor = MessageProcessor::new(threshold, 10);
        for i in 0..40usize {
            let event = if i % 7 == 6 {
                BatchEvent::Tick
            } else {
                BatchEvent::Message(batcher_message("A", "STT", "u"))
            };
            let step = processor.on_event(event);
            if let Some(batch) = step.flush {
                assert!(!batch.is_empty());
                assert!(batch.len() <= threshold);
            }
            assert!(processor.pending_len() < threshold);
        }
    }
}

#[test]
fn threshold_of_one_flushes_every_message() {
    let mut processor = MessageProcessor::new(1, 10);
    let step = processor.on_event(BatchEvent::Message(batcher_message("A", "STT", "u")));
    assert_eq!(step.flush.unwrap().len(), 1);
    let mut processor = MessageProcessor::new(0, 10);
    let step = processor.on_event(BatchEvent::Message(batcher_message("A", "STT", "u")));
    assert_eq!(step.flush.unwrap().len(), 1);
}

#[test]
fn channel_capacity_is_twice_the_threshold() {
    assert_eq!(MessageProcessor::new(100, 1).channel_capacity(), Some(200));
    assert_eq!(MessageProcessor::new(1, 1).channel_capacity(), Some(2));
    assert_eq!(MessageProcessor::new(0, 1).channel_capacity(), None);
    assert_eq!(MessageProcessor::new(usize::MAX, 1).channel_capacity(), None);
    assert_eq!(MessageProcessor::new(usize::MAX / 2, 1).channel_capacity(), Some(usize::MAX - 1));
}

#[test]
fn statistics_report_the_threshold() {
    let statistics = MessageProcessor::new(100, 1).get_statistics(3, 4);
    assert_eq!(
        statistics,
        ProcessorStatistics { db_buffer_size: 3, kafka_buffer_size: 4, batch_size: 100 }
    );
    assert_eq!(
        statistics.message(),
        "📊 Estadísticas - DB Buffer: 3, Kafka Buffer: 4, Batch Size: 100"
    );
}

#[test]
fn every_row_offered_to_the_store_has_its_identity() {
    let batch = vec![
        batcher_message("A", "STT", "u1"),
        batcher_message("", "STT", "u2"),
        batcher_message("B", "STT", ""),
        batcher_message("", "", ""),
        batcher_message("C", "STT", "u5"),
    ];
    let prepared = MessageProcessor::process_batch(batch, batcher_now());
    assert_eq!(prepared.records.len(), 2);
    for row in prepared.records.iter() {
        assert!(!row.uuid.is_empty());
        assert!(!row.device_id.is_empty());
    }
    assert_eq!(prepared.records[0].uuid, "u1");
    assert_eq!(prepared.records[1].uuid, "u5");
    assert_eq!(prepared.records[0].received_at, Some(batcher_now()));
    let accepted: Vec<&str> = prepared.accepted.iter().map(|m| m.uuid.as_str()).collect();
    assert_eq!(accepted, vec!["u1", "u5"]);
    assert_eq!(
        prepared.rejections,
        vec![
            Rejection {
                device_id: String::new(),
                uuid: "u2".to_string(),
                error: RowError::MissingDeviceId
            },
            Rejection {
                device_id: "B".to_string(),
                uuid: String::new(),
                error: RowError::MissingUuid
            },
            Rejection {
                device_id: String::new(),
                uuid: String::new(),
                error: RowError::MissingUuid
            },
        ]
    );
    assert!(prepared.warnings.is_empty());
}

#[test]
fn over_long_fields_are_warned_about_per_message() {
    let long_class = "c".repeat(21);
    let batch = vec![
        batcher_message("A", "STT", "u1"),
        batcher_message("B", &long_class, "u2"),
        batcher_message("", &long_class, "u3"),
    ];
    let prepared = MessageProcessor::process_batch(batch, batcher_now());
    assert_eq!(prepared.records.len(), 2);
    assert_eq!(prepared.records[1].msg_class, Some(long_class.clone()));
    assert_eq!(prepared.warnings.len(), 1);
    assert_eq!(prepared.warnings[0].device_id, "B");
    assert_eq!(prepared.warnings[0].excess.field_name, "msg_class");
    assert_eq!(prepared.warnings[0].excess.length, 21);
    assert_eq!(prepared.warnings[0].excess.max_len, 20);
}

#[test]
fn empty_batch_prepares_nothing() {
    let prepared = MessageProcessor::process_batch(Vec::new(), batcher_now());
    assert!(prepared.records.is_empty());
    assert!(prepared.accepted.is_empty());
    assert!(prepared.rejections.is_empty());
    assert!(prepared.warnings.is_empty());
}

#[test]
fn kafka_batch_queues_positions_and_alerts() {
    let mut kafka = KafkaProducerService::new(
        &vec!["localhost:9092".to_string()],
        "positions".to_string(),
        "alerts".to_string(),
        10,
        None,
        3,
    );
    let messages = vec![
        (batcher_message("A", "STT", "u1"), "{\"n\":1}".to_string()),
        (batcher_message("B", "ALERT", "u2"), "{\"n\":2}".to_string()),
        (batcher_message("C", "alert", "u3"), "{\"n\":3}".to_string()),
    ];
    let batch = MessageProcessor::process_kafka_batch_internal(&mut kafka, messages);
    assert_eq!(batch.count, 3);
    let sent: Vec<(&str, &str, &str)> = batch
        .outgoing
        .iter()
        .map(|m: &OutgoingMessage| (m.topic.as_str(), m.key.as_str(), m.payload.as_str()))
        .collect();
    assert_eq!(
        sent,
        vec![
            ("positions", "A", "{\"n\":1}"),
            ("positions", "B", "{\"n\":2}"),
            ("alerts", "B", "{\"n\":2}"),
            ("positions", "C", "{\"n\":3}"),
        ]
    );
    assert_eq!(kafka.buffer_size(), 0);
}
