//! The row that one observation becomes in the store, and the preparation
//! that turns a device message into it.

use crate::models::device_message::{DeviceMessage, Manufacturer};
use crate::text::{decimal_digits, format_decimal, i32_of, i64_of, prefix};
use crate::timestamp::{gps_datetime_of, parse_gps_datetime, Timestamp};
use vstd::prelude::*;
use vstd::string::{StrSliceExecFns, StringExecFns};

verus! {

/// One row of a history table or of the current-state table. Text that has a
/// numeric column is converted here, except for the floating-point columns,
/// which keep their text until the row is bound to a statement.
#[derive(Debug, Clone, PartialEq, Eq)]
pub struct CommunicationRecord {
    /// Key that the database assigns; absent until the row has been stored.
    pub id: Option<i64>,
    /// Identity of the observation.
    pub uuid: String,
    /// The device that reported.
    pub device_id: String,
    /// Vendor of the device; decides the history table.
    pub manufacturer: Option<Manufacturer>,
    /// Numeric text, converted to a floating-point number when it is bound.
    pub backup_battery_voltage: Option<String>,
    /// Numeric text, converted to a floating-point number when it is bound.
    pub backup_battery_percent: Option<String>,
    pub cell_id: Option<String>,
    /// Numeric text, converted to a floating-point number when it is bound.
    pub course: Option<String>,
    pub delivery_type: Option<String>,
    pub engine_status: Option<String>,
    pub firmware: Option<String>,
    pub fix_status: Option<String>,
    pub gps_datetime: Option<Timestamp>,
    pub gps_epoch: Option<i64>,
    pub idle_time: Option<i32>,
    pub lac: Option<String>,
    /// Numeric text, converted to a floating-point number when it is bound.
    pub latitude: Option<String>,
    /// Numeric text, converted to a floating-point number when it is bound.
    pub longitude: Option<String>,
    /// Numeric text, converted to a floating-point number when it is bound.
    pub main_battery_voltage: Option<String>,
    pub mcc: Option<String>,
    pub mnc: Option<String>,
    pub model: Option<String>,
    pub msg_class: Option<String>,
    pub msg_counter: Option<i32>,
    pub alert_type: Option<String>,
    pub network_status: Option<String>,
    pub odometer: Option<i64>,
    pub rx_lvl: Option<i32>,
    pub satellites: Option<i32>,
    /// Numeric text, converted to a floating-point number when it is bound.
    pub speed: Option<String>,
    pub speed_time: Option<i32>,
    pub total_distance: Option<i64>,
    pub trip_distance: Option<i64>,
    pub trip_hourmeter: Option<i32>,
    pub bytes_count: Option<i32>,
    pub client_ip: Option<String>,
    pub client_port: Option<i32>,
    pub decoded_epoch: Option<i64>,
    pub received_epoch: Option<i64>,
    pub raw_message: Option<String>,
    pub received_at: Option<Timestamp>,
    pub created_at: Option<Timestamp>,
}

/// A value as it is bound to a column of a statement.
#[derive(Debug, Clone, PartialEq, Eq)]
pub enum SqlValue {
    /// A text column.
    Text(Option<String>),
    /// A double precision column; the text is converted when it is bound, and
    /// a text that is no number is bound as null.
    Double(Option<String>),
    /// A 4-byte integer column.
    Integer(Option<i32>),
    /// An 8-byte integer column.
    BigInt(Option<i64>),
    /// A timestamp column without time zone.
    Timestamp(Option<Timestamp>),
}

/// The columns of a history table and of the current-state table, in the
/// order in which a statement names and binds them.
pub open spec fn column_names() -> Seq<Seq<char>> {
    seq![
        "uuid"@,
        "device_id"@,
        "backup_battery_voltage"@,
        "backup_battery_percent"@,
        "cell_id"@,
        "course"@,
        "delivery_type"@,
        "engine_status"@,
        "firmware"@,
        "fix_status"@,
        "gps_datetime"@,
        "gps_epoch"@,
        "idle_time"@,
        "lac"@,
        "latitude"@,
        "longitude"@,
        "main_battery_voltage"@,
        "mcc"@,
        "mnc"@,
        "model"@,
        "msg_class"@,
        "msg_counter"@,
        "alert_type"@,
        "network_status"@,
        "odometer"@,
        "rx_lvl"@,
        "satellites"@,
        "speed"@,
        "speed_time"@,
        "total_distance"@,
        "trip_distance"@,
        "trip_hourmeter"@,
        "bytes_count"@,
        "client_ip"@,
        "client_port"@,
        "decoded_epoch"@,
        "received_epoch"@,
        "raw_message"@,
        "received_at"@,
        "created_at"@,
    ]
}

/// The names of the columns, in the order of `column_names`.
pub fn columns() -> (names: Vec<&'static str>)
    ensures
        names.deep_view() == column_names(),
{
    let names: Vec<&'static str> = vec![
        "uuid",
        "device_id",
        "backup_battery_voltage",
        "backup_battery_percent",
        "cell_id",
        "course",
        "delivery_type",
        "engine_status",
        "firmware",
        "fix_status",
        "gps_datetime",
        "gps_epoch",
        "idle_time",
        "lac",
        "latitude",
        "longitude",
        "main_battery_voltage",
        "mcc",
        "mnc",
        "model",
        "msg_class",
        "msg_counter",
        "alert_type",
        "network_status",
        "odometer",
        "rx_lvl",
        "satellites",
        "speed",
        "speed_time",
        "total_distance",
        "trip_distance",
        "trip_hourmeter",
        "bytes_count",
        "client_ip",
        "client_port",
        "decoded_epoch",
        "received_epoch",
        "raw_message",
        "received_at",
        "created_at",
    ];
    assert(names.deep_view() =~= column_names());
    names
}

/// A copy of an optional text.
pub fn copy_text(text: &Option<String>) -> (copy: Option<String>)
    ensures
        copy == *text,
{
    match text {
        Some(t) => Some(t.clone()),
        None => None,
    }
}

/// Why a message cannot become a row.
#[derive(Debug, Clone, Copy, PartialEq, Eq, Structural)]
pub enum RowError {
    /// The message has an empty `uuid`.
    MissingUuid,
    /// The message has an empty `device_id`.
    MissingDeviceId,
}

impl RowError {
    /// The diagnostic that goes with the rejection.
    pub fn message(&self) -> (text: String)
        ensures
            text@ == match *self {
                RowError::MissingUuid => "uuid vacío"@,
                RowError::MissingDeviceId => "device_id vacío"@,
            },
    {
        match self {
            RowError::MissingUuid => String::from_str("uuid vacío"),
            RowError::MissingDeviceId => String::from_str("device_id vacío"),
        }
    }
}

/// The text of a numeric field once it is ready for conversion: nothing for
/// the empty text, and otherwise the text without one leading `+`.
pub open spec fn decimal_text(text: Seq<char>) -> Option<Seq<char>> {
    if text.len() == 0 {
        None
    } else if text[0] == '+' {
        Some(text.subrange(1, text.len() as int))
    } else {
        Some(text)
    }
}

/// A text that counts as absent when it is empty.
pub open spec fn present_text(text: Seq<char>) -> Option<Seq<char>> {
    if text.len() == 0 {
        None
    } else {
        Some(text)
    }
}

/// Whether a message can become a row: its `uuid` and its `device_id` are
/// both non-empty.
pub open spec fn has_identity(msg: DeviceMessage) -> bool {
    msg.uuid@.len() > 0 && msg.data.device_id@.len() > 0
}

/// Whether `row` is the row of the message `msg`, given the time that its
/// `gps_datetime` stands for and the time of preparation.
pub open spec fn row_of(
    msg: DeviceMessage,
    gps_datetime: Option<Timestamp>,
    now: Timestamp,
    row: CommunicationRecord,
) -> bool {
    &&& row.id is None
    &&& row.uuid@ == msg.uuid@
    &&& row.device_id@ == msg.data.device_id@
    &&& row.manufacturer == Some(msg.manufacturer())
    &&& row.backup_battery_voltage.deep_view() == decimal_text(msg.data.backup_battery_voltage@)
    &&& row.backup_battery_percent.deep_view() == decimal_text(msg.data.backup_battery_percent@)
    &&& row.cell_id.deep_view() == Some(msg.data.cell_id@)
    &&& row.course.deep_view() == decimal_text(msg.data.course@)
    &&& row.delivery_type.deep_view() == Some(msg.data.delivery_type@)
    &&& row.engine_status.deep_view() == Some(msg.data.engine_status@)
    &&& row.firmware.deep_view() == Some(msg.data.firmware@)
    &&& row.fix_status.deep_view() == Some(msg.data.fix_status@)
    &&& row.gps_datetime == gps_datetime
    &&& row.gps_epoch == i64_of(msg.data.gps_epoch@)
    &&& row.idle_time == i32_of(msg.data.idle_time@)
    &&& row.lac.deep_view() == Some(msg.data.lac@)
    &&& row.latitude.deep_view() == decimal_text(msg.data.latitude@)
    &&& row.longitude.deep_view() == decimal_text(msg.data.longitude@)
    &&& row.main_battery_voltage.deep_view() == decimal_text(msg.data.main_battery_voltage@)
    &&& row.mcc.deep_view() == Some(msg.data.mcc@)
    &&& row.mnc.deep_view() == Some(msg.data.mnc@)
    &&& row.model.deep_view() == Some(msg.data.model@)
    &&& row.msg_class.deep_view() == Some(msg.data.msg_class@)
    &&& row.msg_counter == i32_of(msg.data.msg_counter@)
    &&& row.alert_type.deep_view() == present_text(msg.data.alert@)
    &&& row.network_status.deep_view() == Some(msg.data.network_status@)
    &&& row.odometer == i64_of(msg.data.odometer@)
    &&& row.rx_lvl == i32_of(msg.data.rx_lvl@)
    &&& row.satellites == i32_of(msg.data.satellites@)
    &&& row.speed.deep_view() == decimal_text(msg.data.speed@)
    &&& row.speed_time == i32_of(msg.data.speed_time@)
    &&& row.total_distance == i64_of(msg.data.total_distance@)
    &&& row.trip_distance == i64_of(msg.data.trip_distance@)
    &&& row.trip_hourmeter == i32_of(msg.data.trip_hourmeter@)
    &&& row.bytes_count == Some(msg.metadata.bytes)
    &&& row.client_ip.deep_view() == present_text(msg.metadata.client_ip@)
    &&& row.client_port == Some(msg.metadata.client_port)
    &&& row.decoded_epoch == Some(msg.metadata.decoded_epoch)
    &&& row.received_epoch == Some(msg.metadata.received_epoch)
    &&& row.raw_message.deep_view() == Some(msg.raw@)
    &&& row.received_at == Some(now)
    &&& row.created_at == Some(now)
}

/// A length-bounded field as the checks see it: its column name, the text
/// it holds and the most characters that the column takes.
pub type LengthCheck = (Seq<char>, Seq<char>, usize);

/// Whether the text of a check is longer than its column takes. Lengths are
/// counted in characters.
pub open spec fn exceeds(check: LengthCheck) -> bool {
    check.1.len() > check.2
}

/// The checks that fail, in the order of the list.
pub open spec fn excesses(checks: Seq<LengthCheck>) -> Seq<LengthCheck>
    decreases checks.len(),
{
    if checks.len() == 0 {
        Seq::empty()
    } else if exceeds(checks.last()) {
        excesses(checks.drop_last()).push(checks.last())
    } else {
        excesses(checks.drop_last())
    }
}

/// The length-bounded fields of a message with their limits: `cell_id`,
/// `lac`, `mcc` and `mnc` take 10 characters, `model` and `firmware` 50,
/// `msg_class` 20.
pub open spec fn length_checks(msg: DeviceMessage) -> Seq<LengthCheck> {
    seq![
        ("cell_id"@, msg.data.cell_id@, 10usize),
        ("lac"@, msg.data.lac@, 10usize),
        ("mcc"@, msg.data.mcc@, 10usize),
        ("mnc"@, msg.data.mnc@, 10usize),
        ("model"@, msg.data.model@, 50usize),
        ("firmware"@, msg.data.firmware@, 50usize),
        ("msg_class"@, msg.data.msg_class@, 20usize),
    ]
}

/// A text that is longer than its column takes. The text itself is left as
/// it is: the finding is reported, and the row goes on to the store.
#[derive(Debug, Clone, PartialEq, Eq)]
pub struct FieldExcess {
    /// Name of the column.
    pub field_name: String,
    /// Length of the text, in characters.
    pub length: usize,
    /// The most characters that the column takes.
    pub max_len: usize,
    /// The text that was found.
    pub value: String,
}

impl FieldExcess {
    /// Whether this finding reports the failing check `check`.
    pub open spec fn describes(&self, check: LengthCheck) -> bool {
        &&& exceeds(check)
        &&& self.field_name@ == check.0
        &&& self.value@ == check.1
        &&& self.max_len == check.2
        &&& self.length == check.1.len()
    }

    /// The text of the warning that row preparation gives for this finding.
    pub open spec fn warning_text(&self, device_id: Seq<char>) -> Seq<char> {
        "⚠️ Campo '"@ + self.field_name@ + "' excede límite en Device "@ + device_id
            + ": longitud "@ + decimal_digits(self.length as nat) + " > "@ + decimal_digits(
            self.max_len as nat,
        ) + ", valor truncado: '"@ + self.value@.take(
            if self.max_len <= self.value@.len() {
                self.max_len as int
            } else {
                self.value@.len() as int
            },
        ) + "'"@
    }

    /// The text of the error that the store gives for this finding.
    pub open spec fn error_text(&self) -> Seq<char> {
        "🚨 Campo '"@ + self.field_name@ + "' excede límite: longitud "@ + decimal_digits(
            self.length as nat,
        ) + " > "@ + decimal_digits(self.max_len as nat) + ", valor: '"@ + self.value@ + "'"@
    }

    /// Writes the warning of row preparation: the column, the device, both
    /// lengths, and the text cut down to what the column takes.
    pub fn warning_message(&self, device_id: &str) -> (text: String)
        ensures
            text@ == self.warning_text(device_id@),
    {
        let mut text = String::from_str("⚠️ Campo '");
        text.append(self.field_name.as_str());
        text.append("' excede límite en Device ");
        text.append(device_id);
        text.append(": longitud ");
        text.append(format_decimal(self.length as u64).as_str());
        text.append(" > ");
        text.append(format_decimal(self.max_len as u64).as_str());
        text.append(", valor truncado: '");
        text.append(prefix(self.value.as_str(), self.max_len));
        text.append("'");
        text
    }

    /// Writes the error of the store: the column, both lengths, and the text
    /// in full.
    pub fn error_message(&self) -> (text: String)
        ensures
            text@ == self.error_text(),
    {
        let mut text = String::from_str("🚨 Campo '");
        text.append(self.field_name.as_str());
        text.append("' excede límite: longitud ");
        text.append(format_decimal(self.length as u64).as_str());
        text.append(" > ");
        text.append(format_decimal(self.max_len as u64).as_str());
        text.append(", valor: '");
        text.append(self.value.as_str());
        text.append("'");
        text
    }
}

/// Whether `found` reports the failing checks among `checks`, one finding for
/// each, in the order of the list.
pub open spec fn reports_excesses(found: Seq<FieldExcess>, checks: Seq<LengthCheck>) -> bool {
    &&& found.len() == excesses(checks).len()
    &&& forall|i: int| 0 <= i < found.len() ==> (#[trigger] found[i]).describes(excesses(checks)[i])
}

/// Runs a list of length checks.
pub fn find_excesses(checks: &Vec<(&str, &str, usize)>) -> (found: Vec<FieldExcess>)
    ensures
        reports_excesses(found@, checks.deep_view()),
{
    let mut found: Vec<FieldExcess> = Vec::new();
    let mut i: usize = 0;
    while i < checks.len()
        invariant
            i <= checks.len(),
            reports_excesses(found@, checks.deep_view().take(i as int)),
        decreases checks.len() - i,
    {
        let (field_name, value, max_len) = checks[i];
        let ghost before = checks.deep_view().take(i as int);
        let ghost after = checks.deep_view().take(i + 1);
        assert(after.drop_last() =~= before);
        assert(after.last() == (field_name@, value@, max_len));
        match CommunicationRecord::validate_field_length(field_name, value, max_len) {
            Some(excess) => {
                found.push(excess);
            },
            None => {},
        }
        i = i + 1;
    }
    assert(checks.deep_view().take(i as int) =~= checks.deep_view());
    found
}

impl CommunicationRecord {
    /// Checks one length-bounded text against its column. A text within the
    /// limit gives nothing; a longer one gives the finding.
    pub fn validate_field_length(field_name: &str, value: &str, max_len: usize) -> (out: Option<
        FieldExcess,
    >)
        ensures
            out is Some <==> exceeds((field_name@, value@, max_len)),
            out matches Some(excess) ==> excess.describes((field_name@, value@, max_len)),
    {
        let length = value.unicode_len();
        if length > max_len {
            Some(
                FieldExcess {
                    field_name: String::from_str(field_name),
                    length,
                    max_len,
                    value: String::from_str(value),
                },
            )
        } else {
            None
        }
    }

    /// Checks the seven length-bounded fields of a message. Nothing that is
    /// found here rejects the message.
    pub fn validate_field_lengths(msg: &DeviceMessage) -> (found: Vec<FieldExcess>)
        ensures
            reports_excesses(found@, length_checks(*msg)),
    {
        let checks: Vec<(&str, &str, usize)> = vec![
            ("cell_id", msg.data.cell_id.as_str(), 10),
            ("lac", msg.data.lac.as_str(), 10),
            ("mcc", msg.data.mcc.as_str(), 10),
            ("mnc", msg.data.mnc.as_str(), 10),
            ("model", msg.data.model.as_str(), 50),
            ("firmware", msg.data.firmware.as_str(), 50),
            ("msg_class", msg.data.msg_class.as_str(), 20),
        ];
        assert(checks.deep_view() =~= length_checks(*msg));
        find_excesses(&checks)
    }

    /// Prepares the row of a message. The message is rejected where its
    /// `uuid` or its `device_id` is empty, and only there: a numeric text
    /// that cannot be read and a `gps_datetime` that does not follow the
    /// layout leave their column empty and the row in place. `now` becomes
    /// both `received_at` and `created_at`.
    pub fn from_device_message(msg: &DeviceMessage, now: Timestamp) -> (out: Result<
        CommunicationRecord,
        RowError,
    >)
        ensures
            out is Ok <==> has_identity(*msg),
            out matches Err(e) ==> e == (if msg.uuid@.len() == 0 {
                RowError::MissingUuid
            } else {
                RowError::MissingDeviceId
            }),
            out matches Ok(row) ==> row_of(
                *msg,
                gps_datetime_of(msg.data.gps_datetime@),
                now,
                row,
            ),
    {
        let gps_datetime = parse_gps_datetime(&msg.data.gps_datetime);
        Self::from_parts(msg, gps_datetime, now)
    }

    /// Prepares the row of a message whose `gps_datetime` has been read
    /// already.
    pub fn from_parts(msg: &DeviceMessage, gps_datetime: Option<Timestamp>, now: Timestamp) -> (out:
        Result<CommunicationRecord, RowError>)
        ensures
            out is Ok <==> has_identity(*msg),
            out matches Err(e) ==> e == (if msg.uuid@.len() == 0 {
                RowError::MissingUuid
            } else {
                RowError::MissingDeviceId
            }),
            out matches Ok(row) ==> row_of(*msg, gps_datetime, now, row),
    {
        if msg.uuid.as_str().is_empty() {
            return Err(RowError::MissingUuid);
        }
        if msg.data.device_id.as_str().is_empty() {
            return Err(RowError::MissingDeviceId);
        }
        Ok(
            CommunicationRecord {
                id: None,
                uuid: msg.uuid.clone(),
                device_id: msg.data.device_id.clone(),
                manufacturer: Some(msg.get_manufacturer()),
                backup_battery_voltage: Self::parse_decimal(&msg.data.backup_battery_voltage),
                backup_battery_percent: Self::parse_decimal(&msg.data.backup_battery_percent),
                cell_id: Some(msg.data.cell_id.clone()),
                course: Self::parse_decimal(&msg.data.course),
                delivery_type: Some(msg.data.delivery_type.clone()),
                engine_status: Some(msg.data.engine_status.clone()),
                firmware: Some(msg.data.firmware.clone()),
                fix_status: Some(msg.data.fix_status.clone()),
                gps_datetime: gps_datetime,
                gps_epoch: Self::parse_i64(&msg.data.gps_epoch),
                idle_time: Self::parse_i32(&msg.data.idle_time),
                lac: Some(msg.data.lac.clone()),
                latitude: Self::parse_decimal(&msg.data.latitude),
                longitude: Self::parse_decimal(&msg.data.longitude),
                main_battery_voltage: Self::parse_decimal(&msg.data.main_battery_voltage),
                mcc: Some(msg.data.mcc.clone()),
                mnc: Some(msg.data.mnc.clone()),
                model: Some(msg.data.model.clone()),
                msg_class: Some(msg.data.msg_class.clone()),
                msg_counter: Self::parse_i32(&msg.data.msg_counter),
                alert_type: Self::present(&msg.data.alert),
                network_status: Some(msg.data.network_status.clone()),
                odometer: Self::parse_i64(&msg.data.odometer),
                rx_lvl: Self::parse_i32(&msg.data.rx_lvl),
                satellites: Self::parse_i32(&msg.data.satellites),
                speed: Self::parse_decimal(&msg.data.speed),
                speed_time: Self::parse_i32(&msg.data.speed_time),
                total_distance: Self::parse_i64(&msg.data.total_distance),
                trip_distance: Self::parse_i64(&msg.data.trip_distance),
                trip_hourmeter: Self::parse_i32(&msg.data.trip_hourmeter),
                bytes_count: Some(msg.metadata.bytes),
                client_ip: Self::present(&msg.metadata.client_ip),
                client_port: Some(msg.metadata.client_port),
                decoded_epoch: Some(msg.metadata.decoded_epoch),
                received_epoch: Some(msg.metadata.received_epoch),
                raw_message: Some(msg.raw.clone()),
                received_at: Some(now),
                created_at: Some(now),
            },
        )
    }

    /// Readies the text of a floating-point column: the empty text gives no
    /// value, and one leading `+` is taken off.
    pub fn parse_decimal(s: &str) -> (out: Option<String>)
        ensures
            out.deep_view() == decimal_text(s@),
    {
        if s.is_empty() {
            return None;
        }
        if s.get_char(0) == '+' {
            let n = s.unicode_len();
            Some(String::from_str(s.substring_char(1, n)))
        } else {
            Some(String::from_str(s))
        }
    }

    /// Reads the text of a 64-bit integer column; a leading `+` is accepted,
    /// and a text that is empty or denotes no such integer gives no value.
    pub fn parse_i64(s: &str) -> (out: Option<i64>)
        ensures
            out == i64_of(s@),
    {
        if s.is_empty() {
            return None;
        }
        crate::text::parse_i64(s)
    }

    /// Reads the text of a 32-bit integer column; a leading `+` is accepted,
    /// and a text that is empty or denotes no such integer gives no value.
    pub fn parse_i32(s: &str) -> (out: Option<i32>)
        ensures
            out == i32_of(s@),
    {
        if s.is_empty() {
            return None;
        }
        crate::text::parse_i32(s)
    }

    /// A copy of the row, equal to it in every column.
    pub fn duplicate(&self) -> (copy: CommunicationRecord)
        ensures
            copy == *self,
    {
        CommunicationRecord {
            id: self.id,
            uuid: self.uuid.clone(),
            device_id: self.device_id.clone(),
            manufacturer: self.manufacturer,
            backup_battery_voltage: copy_text(&self.backup_battery_voltage),
            backup_battery_percent: copy_text(&self.backup_battery_percent),
            cell_id: copy_text(&self.cell_id),
            course: copy_text(&self.course),
            delivery_type: copy_text(&self.delivery_type),
            engine_status: copy_text(&self.engine_status),
            firmware: copy_text(&self.firmware),
            fix_status: copy_text(&self.fix_status),
            gps_datetime: self.gps_datetime,
            gps_epoch: self.gps_epoch,
            idle_time: self.idle_time,
            lac: copy_text(&self.lac),
            latitude: copy_text(&self.latitude),
            longitude: copy_text(&self.longitude),
            main_battery_voltage: copy_text(&self.main_battery_voltage),
            mcc: copy_text(&self.mcc),
            mnc: copy_text(&self.mnc),
            model: copy_text(&self.model),
            msg_class: copy_text(&self.msg_class),
            msg_counter: self.msg_counter,
            alert_type: copy_text(&self.alert_type),
            network_status: copy_text(&self.network_status),
            odometer: self.odometer,
            rx_lvl: self.rx_lvl,
            satellites: self.satellites,
            speed: copy_text(&self.speed),
            speed_time: self.speed_time,
            total_distance: self.total_distance,
            trip_distance: self.trip_distance,
            trip_hourmeter: self.trip_hourmeter,
            bytes_count: self.bytes_count,
            client_ip: copy_text(&self.client_ip),
            client_port: self.client_port,
            decoded_epoch: self.decoded_epoch,
            received_epoch: self.received_epoch,
            raw_message: copy_text(&self.raw_message),
            received_at: self.received_at,
            created_at: self.created_at,
        }
    }

    /// The values of the row in the order of the columns of a statement. The
    /// key that the database assigns and the vendor are no columns.
    pub open spec fn bound_values(&self) -> Seq<SqlValue> {
        seq![
            SqlValue::Text(Some(self.uuid)),
            SqlValue::Text(Some(self.device_id)),
            SqlValue::Double(self.backup_battery_voltage),
            SqlValue::Double(self.backup_battery_percent),
            SqlValue::Text(self.cell_id),
            SqlValue::Double(self.course),
            SqlValue::Text(self.delivery_type),
            SqlValue::Text(self.engine_status),
            SqlValue::Text(self.firmware),
            SqlValue::Text(self.fix_status),
            SqlValue::Timestamp(self.gps_datetime),
            SqlValue::BigInt(self.gps_epoch),
            SqlValue::Integer(self.idle_time),
            SqlValue::Text(self.lac),
            SqlValue::Double(self.latitude),
            SqlValue::Double(self.longitude),
            SqlValue::Double(self.main_battery_voltage),
            SqlValue::Text(self.mcc),
            SqlValue::Text(self.mnc),
            SqlValue::Text(self.model),
            SqlValue::Text(self.msg_class),
            SqlValue::Integer(self.msg_counter),
            SqlValue::Text(self.alert_type),
            SqlValue::Text(self.network_status),
            SqlValue::BigInt(self.odometer),
            SqlValue::Integer(self.rx_lvl),
            SqlValue::Integer(self.satellites),
            SqlValue::Double(self.speed),
            SqlValue::Integer(self.speed_time),
            SqlValue::BigInt(self.total_distance),
            SqlValue::BigInt(self.trip_distance),
            SqlValue::Integer(self.trip_hourmeter),
            SqlValue::Integer(self.bytes_count),
            SqlValue::Text(self.client_ip),
            SqlValue::Integer(self.client_port),
            SqlValue::BigInt(self.decoded_epoch),
            SqlValue::BigInt(self.received_epoch),
            SqlValue::Text(self.raw_message),
            SqlValue::Timestamp(self.received_at),
            SqlValue::Timestamp(self.created_at),
        ]
    }

    /// Lists the values of the row for binding, one for each column and in
    /// the order of `column_names`.
    pub fn bind_values(&self) -> (out: Vec<SqlValue>)
        ensures
            out@ == self.bound_values(),
            out@.len() == column_names().len(),
    {
        let mut out: Vec<SqlValue> = Vec::new();
        out.push(SqlValue::Text(Some(self.uuid.clone())));
        out.push(SqlValue::Text(Some(self.device_id.clone())));
        out.push(SqlValue::Double(copy_text(&self.backup_battery_voltage)));
        out.push(SqlValue::Double(copy_text(&self.backup_battery_percent)));
        out.push(SqlValue::Text(copy_text(&self.cell_id)));
        out.push(SqlValue::Double(copy_text(&self.course)));
        out.push(SqlValue::Text(copy_text(&self.delivery_type)));
        out.push(SqlValue::Text(copy_text(&self.engine_status)));
        out.push(SqlValue::Text(copy_text(&self.firmware)));
        out.push(SqlValue::Text(copy_text(&self.fix_status)));
        out.push(SqlValue::Timestamp(self.gps_datetime));
        out.push(SqlValue::BigInt(self.gps_epoch));
        out.push(SqlValue::Integer(self.idle_time));
        out.push(SqlValue::Text(copy_text(&self.lac)));
        out.push(SqlValue::Double(copy_text(&self.latitude)));
        out.push(SqlValue::Double(copy_text(&self.longitude)));
        out.push(SqlValue::Double(copy_text(&self.main_battery_voltage)));
        out.push(SqlValue::Text(copy_text(&self.mcc)));
        out.push(SqlValue::Text(copy_text(&self.mnc)));
        out.push(SqlValue::Text(copy_text(&self.model)));
        out.push(SqlValue::Text(copy_text(&self.msg_class)));
        out.push(SqlValue::Integer(self.msg_counter));
        out.push(SqlValue::Text(copy_text(&self.alert_type)));
        out.push(SqlValue::Text(copy_text(&self.network_status)));
        out.push(SqlValue::BigInt(self.odometer));
        out.push(SqlValue::Integer(self.rx_lvl));
        out.push(SqlValue::Integer(self.satellites));
        out.push(SqlValue::Double(copy_text(&self.speed)));
        out.push(SqlValue::Integer(self.speed_time));
        out.push(SqlValue::BigInt(self.total_distance));
        out.push(SqlValue::BigInt(self.trip_distance));
        out.push(SqlValue::Integer(self.trip_hourmeter));
        out.push(SqlValue::Integer(self.bytes_count));
        out.push(SqlValue::Text(copy_text(&self.client_ip)));
        out.push(SqlValue::Integer(self.client_port));
        out.push(SqlValue::BigInt(self.decoded_epoch));
        out.push(SqlValue::BigInt(self.received_epoch));
        out.push(SqlValue::Text(copy_text(&self.raw_message)));
        out.push(SqlValue::Timestamp(self.received_at));
        out.push(SqlValue::Timestamp(self.created_at));
        assert(out@ =~= self.bound_values());
        out
    }

    /// A copy of the text, or nothing where the text is empty.
    pub fn present(s: &String) -> (out: Option<String>)
        ensures
            out.deep_view() == present_text(s@),
    {
        if s.as_str().is_empty() {
            None
        } else {
            Some(s.clone())
        }
    }
}

} // verus!
