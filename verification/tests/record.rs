use siscom_consumer::models::communication_record::{
    columns, copy_text, find_excesses, CommunicationRecord, FieldExcess, RowError, SqlValue,
};
use siscom_consumer::models::{
    DecodedData, DeviceData, DeviceMessage, DeviceMetadata, Manufacturer, QueclinkRaw, SuntechRaw,
};
use siscom_consumer::timestamp::{parse_gps_datetime, Timestamp, GPS_DATETIME_FORMAT};

fn record_pairs(pairs: &[(&str, &str)]) -> Vec<(String, String)> {
    pairs.iter().map(|(k, v)| (k.to_string(), v.to_string())).collect()
}

fn record_now() -> Timestamp {
    Timestamp { year: 2024, month: 3, day: 9, hour: 8, minute: 7, second: 6, nanosecond: 5 }
}

fn record_message(pairs: &[(&str, &str)], uuid: &str) -> DeviceMessage {
    DeviceMessage {
        data: DeviceData::from_fields(&record_pairs(pairs)),
        decoded: DecodedData::Suntech { suntech_raw: SuntechRaw::default() },
        metadata: DeviceMetadata {
            bytes: 64,
            client_ip: "192.168.1.5".to_string(),
            client_port: 5000,
            decoded_epoch: 1_700_000_001,
            received_epoch: 1_700_000_000,
            worker_id: 2,
        },
        raw: "raw text".to_string(),
        uuid: uuid.to_string(),
    }
}

fn record_full() -> DeviceMessage {
    record_message(
        &[
            ("DEVICE_ID", "DEV1"),
            ("MSG_CLASS", "STT"),
            ("ALERT", "PANIC"),
            ("BACKUP_BATTERY_VOLTAGE", "+4.1"),
            ("PERCENT_BACKUP", "87.5"),
            ("CELL_ID", "abc123"),
            ("COURSE", "180.0"),
            ("DELIVERY_TYPE", "GPRS"),
            ("ENGINE_STATUS", "ON"),
            ("FIRMWARE", "1.0.5"),
            ("FIX_", "1"),
            ("GPS_DATETIME", "2024-01-15 10:30:00"),
            ("GPS_EPOCH", "1705314600"),
            ("IDLE_TIME", "+15"),
            ("LAC", "1a2b"),
            ("LATITUD", "+19.4326"),
            ("LONGITUD", "-99.1332"),
            ("MAIN_BATTERY_VOLTAGE", "12.4"),
            ("MCC", "334"),
            ("MNC", "020"),
            ("MODEL", "ST300"),
            ("MSG_COUNTER", "77"),
            ("NETWORK_STATUS", "OK"),
            ("ODOMETER", "123456"),
            ("RX_LVL", "-71"),
            ("SATELLITES", "9"),
            ("SPEED", "42.5"),
            ("SPEED_TIME", "3"),
            ("TOTAL_DISTANCE", "9000000000"),
            ("TRIP_DISTANCE", "1500"),
            ("TRIP_HOURMETER", "12"),
        ],
        "u-1",
    )
}

#[test]
fn row_of_a_full_message() {
    let row = CommunicationRecord::from_device_message(&record_full(), record_now()).unwrap();
    assert_eq!(row.id, None);
    assert_eq!(row.uuid, "u-1");
    assert_eq!(row.device_id, "DEV1");
    assert_eq!(row.manufacturer, Some(Manufacturer::Suntech));
    assert_eq!(row.backup_battery_voltage, Some("4.1".to_string()));
    assert_eq!(row.backup_battery_percent, Some("87.5".to_string()));
    assert_eq!(row.cell_id, Some("abc123".to_string()));
    assert_eq!(row.course, Some("180.0".to_string()));
    assert_eq!(row.delivery_type, Some("GPRS".to_string()));
    assert_eq!(row.engine_status, Some("ON".to_string()));
    assert_eq!(row.firmware, Some("1.0.5".to_string()));
    assert_eq!(row.fix_status, Some("1".to_string()));
    assert_eq!(
        row.gps_datetime,
        Some(Timestamp {
            year: 2024,
            month: 1,
            day: 15,
            hour: 10,
            minute: 30,
            second: 0,
            nanosecond: 0
        })
    );
    assert_eq!(row.gps_epoch, Some(1_705_314_600));
    assert_eq!(row.idle_time, Some(15));
    assert_eq!(row.lac, Some("1a2b".to_string()));
    assert_eq!(row.latitude, Some("19.4326".to_string()));
    assert_eq!(row.longitude, Some("-99.1332".to_string()));
    assert_eq!(row.main_battery_voltage, Some("12.4".to_string()));
    assert_eq!(row.mcc, Some("334".to_string()));
    assert_eq!(row.mnc, Some("020".to_string()));
    assert_eq!(row.model, Some("ST300".to_string()));
    assert_eq!(row.msg_class, Some("STT".to_string()));
    assert_eq!(row.msg_counter, Some(77));
    assert_eq!(row.alert_type, Some("PANIC".to_string()));
    assert_eq!(row.network_status, Some("OK".to_string()));
    assert_eq!(row.odometer, Some(123_456));
    assert_eq!(row.rx_lvl, Some(-71));
    assert_eq!(row.satellites, Some(9));
    assert_eq!(row.speed, Some("42.5".to_string()));
    assert_eq!(row.speed_time, Some(3));
    assert_eq!(row.total_distance, Some(9_000_000_000));
    assert_eq!(row.trip_distance, Some(1500));
    assert_eq!(row.trip_hourmeter, Some(12));
    assert_eq!(row.bytes_count, Some(64));
    assert_eq!(row.client_ip, Some("192.168.1.5".to_string()));
    assert_eq!(row.client_port, Some(5000));
    assert_eq!(row.decoded_epoch, Some(1_700_000_001));
    assert_eq!(row.received_epoch, Some(1_700_000_000));
    assert_eq!(row.raw_message, Some("raw text".to_string()));
    assert_eq!(row.received_at, Some(record_now()));
    assert_eq!(row.created_at, Some(record_now()));
}

#[test]
fn empty_texts_become_absent_values_not_zero() {
    let message = record_message(&[("DEVICE_ID", "DEV1")], "u-2");
    let row = CommunicationRecord::from_device_message(&message, record_now()).unwrap();
    assert_eq!(row.gps_datetime, None);
    assert_eq!(row.gps_epoch, None);
    assert_eq!(row.idle_time, None);
    assert_eq!(row.latitude, None);
    assert_eq!(row.speed, None);
    assert_eq!(row.odometer, None);
    assert_eq!(row.alert_type, None);
    assert_eq!(row.cell_id, Some(String::new()));
    assert_eq!(row.msg_class, Some(String::new()));
    assert_eq!(row.network_status, Some(String::new()));
}

#[test]
fn gps_datetime_empty_string_is_null() {
    assert_eq!(parse_gps_datetime(""), None);
    let message = record_message(&[("DEVICE_ID", "DEV1"), ("GPS_DATETIME", "")], "u-3");
    let row = CommunicationRecord::from_device_message(&message, record_now()).unwrap();
    assert_eq!(row.gps_datetime, None);
}

#[test]
fn gps_datetime_follows_the_layout() {
    assert_eq!(GPS_DATETIME_FORMAT, "%Y-%m-%d %H:%M:%S");
    assert_eq!(
        parse_gps_datetime("2015-09-05 23:56:04"),
        Some(Timestamp {
            year: 2015,
            month: 9,
            day: 5,
            hour: 23,
            minute: 56,
            second: 4,
            nanosecond: 0
        })
    );
    assert_eq!(
        parse_gps_datetime("2015-06-30 23:59:60"),
        Some(Timestamp {
            year: 2015,
            month: 6,
            day: 30,
            hour: 23,
            minute: 59,
            second: 59,
            nanosecond: 1_000_000_000
        })
    );
    for text in [
        "2024-01-15T10:30:00",
        "2024-13-01 00:00:00",
        "2024-02-30 00:00:00",
        "2024-01-15 24:00:00",
        "2024-01-15",
        "15/01/2024 10:30:00",
        "not a date",
        "2024-01-15 10:30:00Z",
    ] {
        assert_eq!(parse_gps_datetime(text), None, "{:?}", text);
    }
}

#[test]
fn unreadable_gps_datetime_keeps_the_row() {
    let message = record_message(&[("DEVICE_ID", "DEV1"), ("GPS_DATETIME", "yesterday")], "u-4");
    let row = CommunicationRecord::from_device_message(&message, record_now()).unwrap();
    assert_eq!(row.gps_datetime, None);
    assert_eq!(row.device_id, "DEV1");
}

#[test]
fn from_parts_takes_the_time_it_is_given() {
    let message = record_message(&[("DEVICE_ID", "DEV1"), ("GPS_DATETIME", "ignored")], "u-5");
    let gps = Timestamp {
        year: 1999,
        month: 12,
        day: 31,
        hour: 23,
        minute: 59,
        second: 58,
        nanosecond: 0,
    };
    let row = CommunicationRecord::from_parts(&message, Some(gps), record_now()).unwrap();
    assert_eq!(row.gps_datetime, Some(gps));
    let row = CommunicationRecord::from_parts(&message, None, record_now()).unwrap();
    assert_eq!(row.gps_datetime, None);
}

#[test]
fn unreadable_numbers_become_absent() {
    let message = record_message(
        &[
            ("DEVICE_ID", "DEV1"),
            ("GPS_EPOCH", "12x"),
            ("IDLE_TIME", "2147483648"),
            ("ODOMETER", "1.5"),
            ("RX_LVL", " -71"),
            ("SPEED", "fast"),
        ],
        "u-6",
    );
    let row = CommunicationRecord::from_device_message(&message, record_now()).unwrap();
    assert_eq!(row.gps_epoch, None);
    assert_eq!(row.idle_time, None);
    assert_eq!(row.odometer, None);
    assert_eq!(row.rx_lvl, None);
    assert_eq!(row.speed, Some("fast".to_string()));
}

#[test]
fn message_without_identity_is_rejected() {
    let no_uuid = record_message(&[("DEVICE_ID", "DEV1")], "");
    assert_eq!(
        CommunicationRecord::from_device_message(&no_uuid, record_now()),
        Err(RowError::MissingUuid)
    );
    let no_device = record_message(&[("MSG_CLASS", "STT")], "u-7");
    assert_eq!(
        CommunicationRecord::from_device_message(&no_device, record_now()),
        Err(RowError::MissingDeviceId)
    );
    let neither = record_message(&[], "");
    assert_eq!(
        CommunicationRecord::from_device_message(&neither, record_now()),
        Err(RowError::MissingUuid)
    );
    assert_eq!(RowError::MissingUuid.message(), "uuid vacío");
    assert_eq!(RowError::MissingDeviceId.message(), "device_id vacío");
}

#[test]
fn queclink_message_gives_a_queclink_row() {
    let mut message = record_message(&[("DEVICE_ID", "Q1")], "u-8");
    message.decoded =
        DecodedData::Queclink { queclink_raw: QueclinkRaw::from_fields(&Vec::new()) };
    message.metadata.client_ip = String::new();
    let row = CommunicationRecord::from_device_message(&message, record_now()).unwrap();
    assert_eq!(row.manufacturer, Some(Manufacturer::Queclink));
    assert_eq!(row.client_ip, None);
}

#[test]
fn numeric_helpers_of_the_row() {
    assert_eq!(CommunicationRecord::parse_decimal(""), None);
    assert_eq!(CommunicationRecord::parse_decimal("+1.5"), Some("1.5".to_string()));
    assert_eq!(CommunicationRecord::parse_decimal("++1.5"), Some("+1.5".to_string()));
    assert_eq!(CommunicationRecord::parse_decimal("-1.5"), Some("-1.5".to_string()));
    assert_eq!(CommunicationRecord::parse_decimal("+"), Some(String::new()));
    assert_eq!(CommunicationRecord::parse_i64(""), None);
    assert_eq!(CommunicationRecord::parse_i64("+9000000000"), Some(9_000_000_000));
    assert_eq!(CommunicationRecord::parse_i32(""), None);
    assert_eq!(CommunicationRecord::parse_i32("-5"), Some(-5));
    assert_eq!(CommunicationRecord::present(&String::new()), None);
    assert_eq!(CommunicationRecord::present(&"x".to_string()), Some("x".to_string()));
    assert_eq!(copy_text(&Some("x".to_string())), Some("x".to_string()));
    assert_eq!(copy_text(&None), None);
}

#[test]
fn length_check_at_and_over_the_limit() {
    assert_eq!(CommunicationRecord::validate_field_length("cell_id", "1234567890", 10), None);
    assert_eq!(
        CommunicationRecord::validate_field_length("cell_id", "12345678901", 10),
        Some(FieldExcess {
            field_name: "cell_id".to_string(),
            length: 11,
            max_len: 10,
            value: "12345678901".to_string()
        })
    );
    assert_eq!(CommunicationRecord::validate_field_length("mcc", "ññññññññññ", 10), None);
    assert_eq!(CommunicationRecord::validate_field_length("mcc", "", 0), None);
}

#[test]
fn over_long_cell_id_is_warned_about_and_kept() {
    let message = record_message(
        &[("DEVICE_ID", "DEV1"), ("CELL_ID", "123456789012"), ("MSG_CLASS", "STT")],
        "u-9",
    );
    let found = CommunicationRecord::validate_field_lengths(&message);
    assert_eq!(found.len(), 1);
    assert_eq!(found[0].field_name, "cell_id");
    assert_eq!(found[0].length, 12);
    assert_eq!(found[0].max_len, 10);
    let warning = found[0].warning_message("DEV1");
    assert!(warning.contains("Campo 'cell_id' excede límite"));
    assert_eq!(
        warning,
        "⚠️ Campo 'cell_id' excede límite en Device DEV1: longitud 12 > 10, valor truncado: '1234567890'"
    );
    assert_eq!(
        found[0].error_message(),
        "🚨 Campo 'cell_id' excede límite: longitud 12 > 10, valor: '123456789012'"
    );
    let row = CommunicationRecord::from_device_message(&message, record_now()).unwrap();
    assert_eq!(row.cell_id, Some("123456789012".to_string()));
}

#[test]
fn every_bounded_field_is_checked_in_order() {
    let long = "x".repeat(51);
    let message = record_message(
        &[
            ("DEVICE_ID", "DEV1"),
            ("CELL_ID", &long),
            ("LAC", &long),
            ("MCC", &long),
            ("MNC", &long),
            ("MODEL", &long),
            ("FIRMWARE", &long),
            ("MSG_CLASS", &long),
            ("NETWORK_STATUS", &long),
        ],
        "u-10",
    );
    let found = CommunicationRecord::validate_field_lengths(&message);
    let names: Vec<(&str, usize)> =
        found.iter().map(|f| (f.field_name.as_str(), f.max_len)).collect();
    assert_eq!(
        names,
        vec![
            ("cell_id", 10),
            ("lac", 10),
            ("mcc", 10),
            ("mnc", 10),
            ("model", 50),
            ("firmware", 50),
            ("msg_class", 20)
        ]
    );
    let within = "y".repeat(50);
    let message = record_message(
        &[("DEVICE_ID", "DEV1"), ("MODEL", &within), ("FIRMWARE", &within), ("MSG_CLASS", "z")],
        "u-11",
    );
    assert_eq!(CommunicationRecord::validate_field_lengths(&message), Vec::<FieldExcess>::new());
}

#[test]
fn find_excesses_keeps_the_failing_checks_only() {
    let found = find_excesses(&vec![("a", "12", 1), ("b", "12", 2), ("c", "123", 2)]);
    assert_eq!(
        found,
        vec![
            FieldExcess {
                field_name: "a".to_string(),
                length: 2,
                max_len: 1,
                value: "12".to_string()
            },
            FieldExcess {
                field_name: "c".to_string(),
                length: 3,
                max_len: 2,
                value: "123".to_string()
            },
        ]
    );
}

#[test]
fn columns_are_forty_in_the_order_of_the_statement() {
    assert_eq!(
        columns(),
        vec![
            "uuid", "device_id", "backup_battery_voltage", "backup_battery_percent", "cell_id",
            "course", "delivery_type", "engine_status", "firmware", "fix_status", "gps_datetime",
            "gps_epoch", "idle_time", "lac", "latitude", "longitude", "main_battery_voltage",
            "mcc", "mnc", "model", "msg_class", "msg_counter", "alert_type", "network_status",
            "odometer", "rx_lvl", "satellites", "speed", "speed_time", "total_distance",
            "trip_distance", "trip_hourmeter", "bytes_count", "client_ip", "client_port",
            "decoded_epoch", "received_epoch", "raw_message", "received_at", "created_at",
        ]
    );
}

#[test]
fn values_are_bound_in_the_order_of_the_columns() {
    let row = CommunicationRecord::from_device_message(&record_full(), record_now()).unwrap();
    let values = row.bind_values();
    assert_eq!(values.len(), 40);
    assert_eq!(values.len(), columns().len());
    assert_eq!(values[0], SqlValue::Text(Some("u-1".to_string())));
    assert_eq!(values[1], SqlValue::Text(Some("DEV1".to_string())));
    assert_eq!(values[2], SqlValue::Double(Some("4.1".to_string())));
    assert_eq!(values[4], SqlValue::Text(Some("abc123".to_string())));
    assert_eq!(values[10], SqlValue::Timestamp(row.gps_datetime));
    assert_eq!(values[11], SqlValue::BigInt(Some(1_705_314_600)));
    assert_eq!(values[12], SqlValue::Integer(Some(15)));
    assert_eq!(values[14], SqlValue::Double(Some("19.4326".to_string())));
    assert_eq!(values[20], SqlValue::Text(Some("STT".to_string())));
    assert_eq!(values[22], SqlValue::Text(Some("PANIC".to_string())));
    assert_eq!(values[29], SqlValue::BigInt(Some(9_000_000_000)));
    assert_eq!(values[32], SqlValue::Integer(Some(64)));
    assert_eq!(values[33], SqlValue::Text(Some("192.168.1.5".to_string())));
    assert_eq!(values[37], SqlValue::Text(Some("raw text".to_string())));
    assert_eq!(values[38], SqlValue::Timestamp(Some(record_now())));
    assert_eq!(values[39], SqlValue::Timestamp(Some(record_now())));
}

#[test]
fn duplicate_is_equal_to_the_row() {
    let row = CommunicationRecord::from_device_message(&record_full(), record_now()).unwrap();
    assert_eq!(row.duplicate(), row);
}
