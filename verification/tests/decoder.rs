use siscom_consumer::config::BrokerConfig;
use siscom_consumer::fields::lookup;
use siscom_consumer::models::{
    Decoded, DecodedData, DeviceData, KafkaMessage, Manufacturer, Metadata, QueclinkRaw,
    SuntechRaw,
};
use siscom_consumer::services::kafka_consumer::{
    ConsumerAction, DecodeError, Delivery, KafkaConsumerService, RECONNECT_DELAY_SECS,
};

fn decoder_pairs(pairs: &[(&str, &str)]) -> Vec<(String, String)> {
    pairs.iter().map(|(k, v)| (k.to_string(), v.to_string())).collect()
}

fn decoder_metadata() -> Metadata {
    Metadata {
        bytes: 128,
        client_ip: "10.0.0.7".to_string(),
        client_port: 40123,
        decoded_epoch: 1_700_000_001,
        received_epoch: 1_700_000_000,
        worker_id: 3,
    }
}

fn decoder_record(decoded: Option<Decoded>, metadata: Option<Metadata>) -> KafkaMessage {
    KafkaMessage {
        data: decoder_pairs(&[
            ("DEVICE_ID", "A"),
            ("MSG_CLASS", "STT"),
            ("LATITUD", "+19.4326"),
            ("LONGITUD", "-99.1332"),
            ("FIX_", "1"),
            ("PERCENT_BACKUP", "87"),
            ("UNKNOWN_KEY", "x"),
        ]),
        decoded,
        metadata,
        raw: "ST300STT;A;...".to_string(),
        uuid: "u-1".to_string(),
    }
}

#[test]
fn lookup_takes_the_last_value_of_a_key() {
    let entries = decoder_pairs(&[("A", "1"), ("B", "2"), ("A", "3")]);
    assert_eq!(lookup(&entries, "A"), "3");
    assert_eq!(lookup(&entries, "B"), "2");
    assert_eq!(lookup(&entries, "C"), "");
    assert_eq!(lookup(&Vec::new(), "A"), "");
}

#[test]
fn suntech_record_decodes_field_by_field() {
    let record = decoder_record(
        Some(Decoded::Suntech {
            fields: decoder_pairs(&[("AXIST_Y", "12"), ("FW", "1.0.5"), ("VOLT_MAIN", "12.4")]),
        }),
        Some(decoder_metadata()),
    );
    let message = KafkaConsumerService::kafka_message_to_device_message(&record).unwrap();
    assert_eq!(message.get_manufacturer(), Manufacturer::Suntech);
    assert_eq!(message.uuid, "u-1");
    assert_eq!(message.raw, "ST300STT;A;...");
    assert_eq!(message.data.device_id, "A");
    assert_eq!(message.data.msg_class, "STT");
    assert_eq!(message.data.latitude, "+19.4326");
    assert_eq!(message.data.longitude, "-99.1332");
    assert_eq!(message.data.fix_status, "1");
    assert_eq!(message.data.backup_battery_percent, "87");
    assert_eq!(message.data.alert, "");
    assert_eq!(message.data.gps_datetime, "");
    assert_eq!(message.metadata.bytes, 128);
    assert_eq!(message.metadata.client_ip, "10.0.0.7");
    assert_eq!(message.metadata.client_port, 40123);
    assert_eq!(message.metadata.decoded_epoch, 1_700_000_001);
    assert_eq!(message.metadata.received_epoch, 1_700_000_000);
    assert_eq!(message.metadata.worker_id, 3);
    match message.decoded {
        DecodedData::Suntech { suntech_raw } => {
            assert_eq!(suntech_raw.axis_y, "12");
            assert_eq!(suntech_raw.firmware, "1.0.5");
            assert_eq!(suntech_raw.volt_main, "12.4");
            assert_eq!(suntech_raw.axis_x, "");
        }
        DecodedData::Queclink { .. } => panic!("expected the Suntech block"),
    }
}

#[test]
fn queclink_record_decodes_to_queclink() {
    let record = decoder_record(
        Some(Decoded::Queclink {
            fields: decoder_pairs(&[("PROTOCOL_VERSION", "F1"), ("SPD", "42.0")]),
        }),
        Some(decoder_metadata()),
    );
    let message = KafkaConsumerService::kafka_message_to_device_message(&record).unwrap();
    assert_eq!(message.get_manufacturer(), Manufacturer::Queclink);
    match message.decoded {
        DecodedData::Queclink { queclink_raw } => {
            assert_eq!(queclink_raw.protocol_version, "F1");
            assert_eq!(queclink_raw.speed, "42.0");
            assert_eq!(queclink_raw.header, "");
        }
        DecodedData::Suntech { .. } => panic!("expected the Queclink block"),
    }
}

#[test]
fn record_without_vendor_block_flows_as_suntech() {
    let record = decoder_record(None, Some(decoder_metadata()));
    let message = KafkaConsumerService::kafka_message_to_device_message(&record).unwrap();
    assert_eq!(message.get_manufacturer(), Manufacturer::Suntech);
    assert_eq!(message.decoded, DecodedData::Suntech { suntech_raw: SuntechRaw::default() });
    assert_eq!(message.data.device_id, "A");
}

#[test]
fn record_without_metadata_is_rejected() {
    let with_block = decoder_record(Some(Decoded::Suntech { fields: Vec::new() }), None);
    assert_eq!(
        KafkaConsumerService::kafka_message_to_device_message(&with_block),
        Err(DecodeError::MissingMetadata)
    );
    let without_block = decoder_record(None, None);
    assert_eq!(
        KafkaConsumerService::kafka_message_to_device_message(&without_block),
        Err(DecodeError::MissingMetadata)
    );
    assert_eq!(DecodeError::MissingMetadata.message(), "Missing metadata in KafkaMessage");
}

#[test]
fn metadata_numbers_keep_their_bits() {
    let mut metadata = decoder_metadata();
    metadata.bytes = u32::MAX;
    metadata.client_port = 2_147_483_648;
    metadata.worker_id = 2_147_483_647;
    metadata.decoded_epoch = u64::MAX;
    metadata.received_epoch = 9_223_372_036_854_775_808;
    let record = decoder_record(None, Some(metadata));
    let message = KafkaConsumerService::kafka_message_to_device_message(&record).unwrap();
    assert_eq!(message.metadata.bytes, -1);
    assert_eq!(message.metadata.client_port, i32::MIN);
    assert_eq!(message.metadata.worker_id, i32::MAX);
    assert_eq!(message.metadata.decoded_epoch, -1);
    assert_eq!(message.metadata.received_epoch, i64::MIN);
    assert_eq!(message.metadata.bytes, u32::MAX as i32);
    assert_eq!(message.metadata.decoded_epoch, u64::MAX as i64);
}

#[test]
fn bad_numeric_content_does_not_fail_decoding() {
    let mut record = decoder_record(None, Some(decoder_metadata()));
    record.data = decoder_pairs(&[("DEVICE_ID", "A"), ("SPEED", "fast"), ("GPS_EPOCH", "x")]);
    let message = KafkaConsumerService::kafka_message_to_device_message(&record).unwrap();
    assert_eq!(message.data.speed, "fast");
    assert_eq!(message.data.gps_epoch, "x");
}

#[test]
fn a_repeated_key_has_its_last_value() {
    let mut record = decoder_record(None, Some(decoder_metadata()));
    record.data = decoder_pairs(&[("DEVICE_ID", "A"), ("SPEED", "1"), ("SPEED", "2")]);
    let message = KafkaConsumerService::kafka_message_to_device_message(&record).unwrap();
    assert_eq!(message.data.speed, "2");
}

#[test]
fn normalized_fields_round_trip() {
    let record = decoder_record(None, Some(decoder_metadata()));
    let message = KafkaConsumerService::kafka_message_to_device_message(&record).unwrap();
    let written = message.data.to_fields();
    assert_eq!(written.len(), 32);
    let kept: Vec<(String, String)> =
        written.iter().filter(|(_, v)| !v.is_empty()).cloned().collect();
    let mut expected = decoder_pairs(&[
        ("DEVICE_ID", "A"),
        ("MSG_CLASS", "STT"),
        ("LATITUD", "+19.4326"),
        ("LONGITUD", "-99.1332"),
        ("FIX_", "1"),
        ("PERCENT_BACKUP", "87"),
    ]);
    let mut kept_sorted = kept.clone();
    kept_sorted.sort();
    expected.sort();
    assert_eq!(kept_sorted, expected);
    assert_eq!(DeviceData::from_fields(&written), message.data);
}

#[test]
fn to_fields_lists_the_canonical_keys_in_order() {
    let data = DeviceData::from_fields(&Vec::new());
    let keys: Vec<String> = data.to_fields().into_iter().map(|(k, _)| k).collect();
    assert_eq!(
        keys,
        vec![
            "ALERT", "ALTITUDE", "BACKUP_BATTERY_VOLTAGE", "PERCENT_BACKUP", "CELL_ID", "COURSE",
            "DELIVERY_TYPE", "DEVICE_ID", "ENGINE_STATUS", "FIRMWARE", "FIX_", "GPS_DATETIME",
            "GPS_EPOCH", "IDLE_TIME", "LAC", "LATITUD", "LONGITUD", "MAIN_BATTERY_VOLTAGE", "MCC",
            "MNC", "MODEL", "MSG_CLASS", "MSG_COUNTER", "NETWORK_STATUS", "ODOMETER", "RX_LVL",
            "SATELLITES", "SPEED", "SPEED_TIME", "TOTAL_DISTANCE", "TRIP_DISTANCE",
            "TRIP_HOURMETER",
        ]
    );
}

#[test]
fn vendor_blocks_read_their_own_keys() {
    let raw = QueclinkRaw::from_fields(&decoder_pairs(&[("CRS", "180"), ("LAT", "1.5")]));
    assert_eq!(raw.course, "180");
    assert_eq!(raw.latitude, "1.5");
    let raw = SuntechRaw::from_fields(&decoder_pairs(&[("ODOMETER_MTS", "1200"), ("SAT", "9")]));
    assert_eq!(raw.odometer_mts, "1200");
    assert_eq!(raw.satellites, "9");
}

#[test]
fn poll_loop_forwards_a_record_that_decodes() {
    let record = decoder_record(None, Some(decoder_metadata()));
    let expected = KafkaConsumerService::kafka_message_to_device_message(&record).unwrap();
    assert_eq!(
        KafkaConsumerService::on_delivery(Delivery::Record(record)),
        ConsumerAction::Forward(expected)
    );
}

#[test]
fn poll_loop_drops_what_does_not_decode() {
    let record = decoder_record(None, None);
    assert_eq!(
        KafkaConsumerService::on_delivery(Delivery::Record(record)),
        ConsumerAction::Drop {
            diagnostic:
                "❌ Error convirtiendo mensaje protobuf a DeviceMessage: Missing metadata in KafkaMessage"
                    .to_string()
        }
    );
    assert_eq!(
        KafkaConsumerService::on_delivery(Delivery::Undecodable("bad wire type".to_string())),
        ConsumerAction::Drop {
            diagnostic: "❌ Error decodificando mensaje protobuf: bad wire type".to_string()
        }
    );
    assert_eq!(KafkaConsumerService::on_delivery(Delivery::Empty), ConsumerAction::Skip);
}

#[test]
fn poll_loop_waits_one_second_after_a_broker_error() {
    assert_eq!(RECONNECT_DELAY_SECS, 1);
    assert_eq!(
        KafkaConsumerService::on_delivery(Delivery::ReceiveError("timed out".to_string())),
        ConsumerAction::Backoff {
            seconds: 1,
            diagnostic: "Error recibiendo mensaje de Kafka: timed out".to_string()
        }
    );
    assert_eq!(KafkaConsumerService::on_delivery(Delivery::ChannelClosed), ConsumerAction::Stop);
}

#[test]
fn consumer_settings_without_security() {
    let config = BrokerConfig::from_env(&Vec::new());
    let service = KafkaConsumerService::new(&config);
    assert_eq!(service.topic, "siscom-messages");
    assert_eq!(
        service.settings,
        decoder_pairs(&[
            ("bootstrap.servers", "127.0.0.1:9092"),
            ("group.id", "siscom-consumer-group"),
            ("auto.offset.reset", "latest"),
            ("enable.auto.commit", "true"),
            ("auto.commit.interval.ms", "1000"),
            ("session.timeout.ms", "6000"),
        ])
    );
}

#[test]
fn consumer_settings_pass_security_through() {
    let vars = decoder_pairs(&[
        ("BROKER_HOST", "redpanda:9092"),
        ("BROKER_TOPIC", "t"),
        ("BROKER_GROUP_ID", "g"),
        ("KAFKA_SECURITY_PROTOCOL", "SASL_PLAINTEXT"),
        ("KAFKA_SASL_MECHANISM", "SCRAM-SHA-256"),
        ("KAFKA_PASSWORD", "p w"),
    ]);
    let service = KafkaConsumerService::new(&BrokerConfig::from_env(&vars));
    assert_eq!(service.topic, "t");
    assert_eq!(
        service.settings,
        decoder_pairs(&[
            ("bootstrap.servers", "redpanda:9092"),
            ("group.id", "g"),
            ("auto.offset.reset", "latest"),
            ("enable.auto.commit", "true"),
            ("auto.commit.interval.ms", "1000"),
            ("session.timeout.ms", "6000"),
            ("security.protocol", "SASL_PLAINTEXT"),
            ("sasl.mechanism", "SCRAM-SHA-256"),
            ("sasl.password", "p w"),
        ])
    );
}
