//! The normalized device message: what one broker delivery becomes once it
//! has been decoded.

use crate::fields::{all_empty, filled_from, lookup, FieldSeq};
use vstd::prelude::*;
use vstd::string::StringExecFns;

verus! {

/// The device vendors that the pipeline knows. The vendor decides which
/// history table receives a row.
#[derive(Debug, Clone, Copy, PartialEq, Eq, Structural)]
pub enum Manufacturer {
    Suntech,
    Queclink,
}

/// One observation of a tracked device, as it travels from the consumer to
/// the batcher.
#[derive(Debug, Clone, PartialEq, Eq)]
pub struct DeviceMessage {
    /// The normalized payload fields, as text.
    pub data: DeviceData,
    /// The vendor's own block, kept for traceability.
    pub decoded: DecodedData,
    /// What the receiving server recorded about the delivery.
    pub metadata: DeviceMetadata,
    /// The report as the device sent it, as text.
    pub raw: String,
    /// Identity of the observation, assigned upstream.
    pub uuid: String,
}

impl DeviceMessage {
    /// The vendor that the vendor block belongs to.
    pub open spec fn manufacturer(&self) -> Manufacturer {
        match self.decoded {
            DecodedData::Suntech { .. } => Manufacturer::Suntech,
            DecodedData::Queclink { .. } => Manufacturer::Queclink,
        }
    }

    /// Tells the vendor of the device from the vendor block that is present.
    pub fn get_manufacturer(&self) -> (m: Manufacturer)
        ensures
            m == self.manufacturer(),
    {
        match &self.decoded {
            DecodedData::Suntech { .. } => Manufacturer::Suntech,
            DecodedData::Queclink { .. } => Manufacturer::Queclink,
        }
    }
}

/// The normalized payload: one text value per canonical key, empty where the
/// record did not carry the key.
#[derive(Debug, Clone, PartialEq, Eq)]
pub struct DeviceData {
    /// Value of `ALERT`.
    pub alert: String,
    /// Value of `ALTITUDE`.
    pub altitude: String,
    /// Value of `BACKUP_BATTERY_VOLTAGE`.
    pub backup_battery_voltage: String,
    /// Value of `PERCENT_BACKUP`.
    pub backup_battery_percent: String,
    /// Value of `CELL_ID`.
    pub cell_id: String,
    /// Value of `COURSE`.
    pub course: String,
    /// Value of `DELIVERY_TYPE`.
    pub delivery_type: String,
    /// Value of `DEVICE_ID`.
    pub device_id: String,
    /// Value of `ENGINE_STATUS`.
    pub engine_status: String,
    /// Value of `FIRMWARE`.
    pub firmware: String,
    /// Value of `FIX_`.
    pub fix_status: String,
    /// Value of `GPS_DATETIME`.
    pub gps_datetime: String,
    /// Value of `GPS_EPOCH`.
    pub gps_epoch: String,
    /// Value of `IDLE_TIME`.
    pub idle_time: String,
    /// Value of `LAC`.
    pub lac: String,
    /// Value of `LATITUD`.
    pub latitude: String,
    /// Value of `LONGITUD`.
    pub longitude: String,
    /// Value of `MAIN_BATTERY_VOLTAGE`.
    pub main_battery_voltage: String,
    /// Value of `MCC`.
    pub mcc: String,
    /// Value of `MNC`.
    pub mnc: String,
    /// Value of `MODEL`.
    pub model: String,
    /// Value of `MSG_CLASS`.
    pub msg_class: String,
    /// Value of `MSG_COUNTER`.
    pub msg_counter: String,
    /// Value of `NETWORK_STATUS`.
    pub network_status: String,
    /// Value of `ODOMETER`.
    pub odometer: String,
    /// Value of `RX_LVL`.
    pub rx_lvl: String,
    /// Value of `SATELLITES`.
    pub satellites: String,
    /// Value of `SPEED`.
    pub speed: String,
    /// Value of `SPEED_TIME`.
    pub speed_time: String,
    /// Value of `TOTAL_DISTANCE`.
    pub total_distance: String,
    /// Value of `TRIP_DISTANCE`.
    pub trip_distance: String,
    /// Value of `TRIP_HOURMETER`.
    pub trip_hourmeter: String,
}

impl DeviceData {
    /// The canonical keys of the normalized payload, in the order of the
    /// declaration.
    pub open spec fn canonical_keys() -> Seq<Seq<char>> {
        seq![
            "ALERT"@,
            "ALTITUDE"@,
            "BACKUP_BATTERY_VOLTAGE"@,
            "PERCENT_BACKUP"@,
            "CELL_ID"@,
            "COURSE"@,
            "DELIVERY_TYPE"@,
            "DEVICE_ID"@,
            "ENGINE_STATUS"@,
            "FIRMWARE"@,
            "FIX_"@,
            "GPS_DATETIME"@,
            "GPS_EPOCH"@,
            "IDLE_TIME"@,
            "LAC"@,
            "LATITUD"@,
            "LONGITUD"@,
            "MAIN_BATTERY_VOLTAGE"@,
            "MCC"@,
            "MNC"@,
            "MODEL"@,
            "MSG_CLASS"@,
            "MSG_COUNTER"@,
            "NETWORK_STATUS"@,
            "ODOMETER"@,
            "RX_LVL"@,
            "SATELLITES"@,
            "SPEED"@,
            "SPEED_TIME"@,
            "TOTAL_DISTANCE"@,
            "TRIP_DISTANCE"@,
            "TRIP_HOURMETER"@,
        ]
    }

    /// The values of the payload, in the order of the canonical keys.
    pub open spec fn values(&self) -> Seq<Seq<char>> {
        seq![
            self.alert@,
            self.altitude@,
            self.backup_battery_voltage@,
            self.backup_battery_percent@,
            self.cell_id@,
            self.course@,
            self.delivery_type@,
            self.device_id@,
            self.engine_status@,
            self.firmware@,
            self.fix_status@,
            self.gps_datetime@,
            self.gps_epoch@,
            self.idle_time@,
            self.lac@,
            self.latitude@,
            self.longitude@,
            self.main_battery_voltage@,
            self.mcc@,
            self.mnc@,
            self.model@,
            self.msg_class@,
            self.msg_counter@,
            self.network_status@,
            self.odometer@,
            self.rx_lvl@,
            self.satellites@,
            self.speed@,
            self.speed_time@,
            self.total_distance@,
            self.trip_distance@,
            self.trip_hourmeter@,
        ]
    }

    /// The payload as a field list: each canonical key with its value.
    pub open spec fn fields(&self) -> FieldSeq {
        Seq::new(Self::canonical_keys().len(), |i: int| (Self::canonical_keys()[i], self.values()[i]))
    }

    /// Reads the payload out of a field list. Keys other than the canonical ones
    /// are ignored, and a canonical key that is missing gives the empty string.
    pub fn from_fields(entries: &Vec<(String, String)>) -> (out: DeviceData)
        ensures
            filled_from(out.fields(), entries.deep_view()),
    {
        DeviceData {
            alert: lookup(entries, "ALERT"),
            altitude: lookup(entries, "ALTITUDE"),
            backup_battery_voltage: lookup(entries, "BACKUP_BATTERY_VOLTAGE"),
            backup_battery_percent: lookup(entries, "PERCENT_BACKUP"),
            cell_id: lookup(entries, "CELL_ID"),
            course: lookup(entries, "COURSE"),
            delivery_type: lookup(entries, "DELIVERY_TYPE"),
            device_id: lookup(entries, "DEVICE_ID"),
            engine_status: lookup(entries, "ENGINE_STATUS"),
            firmware: lookup(entries, "FIRMWARE"),
            fix_status: lookup(entries, "FIX_"),
            gps_datetime: lookup(entries, "GPS_DATETIME"),
            gps_epoch: lookup(entries, "GPS_EPOCH"),
            idle_time: lookup(entries, "IDLE_TIME"),
            lac: lookup(entries, "LAC"),
            latitude: lookup(entries, "LATITUD"),
            longitude: lookup(entries, "LONGITUD"),
            main_battery_voltage: lookup(entries, "MAIN_BATTERY_VOLTAGE"),
            mcc: lookup(entries, "MCC"),
            mnc: lookup(entries, "MNC"),
            model: lookup(entries, "MODEL"),
            msg_class: lookup(entries, "MSG_CLASS"),
            msg_counter: lookup(entries, "MSG_COUNTER"),
            network_status: lookup(entries, "NETWORK_STATUS"),
            odometer: lookup(entries, "ODOMETER"),
            rx_lvl: lookup(entries, "RX_LVL"),
            satellites: lookup(entries, "SATELLITES"),
            speed: lookup(entries, "SPEED"),
            speed_time: lookup(entries, "SPEED_TIME"),
            total_distance: lookup(entries, "TOTAL_DISTANCE"),
            trip_distance: lookup(entries, "TRIP_DISTANCE"),
            trip_hourmeter: lookup(entries, "TRIP_HOURMETER"),
        }
    }

    /// Writes the payload back as a field list, one pair per canonical key.
    pub fn to_fields(&self) -> (out: Vec<(String, String)>)
        ensures
            out.deep_view() == self.fields(),
    {
        let mut out: Vec<(String, String)> = Vec::new();
        out.push((String::from_str("ALERT"), self.alert.clone()));
        out.push((String::from_str("ALTITUDE"), self.altitude.clone()));
        out.push((String::from_str("BACKUP_BATTERY_VOLTAGE"), self.backup_battery_voltage.clone()));
        out.push((String::from_str("PERCENT_BACKUP"), self.backup_battery_percent.clone()));
        out.push((String::from_str("CELL_ID"), self.cell_id.clone()));
        out.push((String::from_str("COURSE"), self.course.clone()));
        out.push((String::from_str("DELIVERY_TYPE"), self.delivery_type.clone()));
        out.push((String::from_str("DEVICE_ID"), self.device_id.clone()));
        out.push((String::from_str("ENGINE_STATUS"), self.engine_status.clone()));
        out.push((String::from_str("FIRMWARE"), self.firmware.clone()));
        out.push((String::from_str("FIX_"), self.fix_status.clone()));
        out.push((String::from_str("GPS_DATETIME"), self.gps_datetime.clone()));
        out.push((String::from_str("GPS_EPOCH"), self.gps_epoch.clone()));
        out.push((String::from_str("IDLE_TIME"), self.idle_time.clone()));
        out.push((String::from_str("LAC"), self.lac.clone()));
        out.push((String::from_str("LATITUD"), self.latitude.clone()));
        out.push((String::from_str("LONGITUD"), self.longitude.clone()));
        out.push((String::from_str("MAIN_BATTERY_VOLTAGE"), self.main_battery_voltage.clone()));
        out.push((String::from_str("MCC"), self.mcc.clone()));
        out.push((String::from_str("MNC"), self.mnc.clone()));
        out.push((String::from_str("MODEL"), self.model.clone()));
        out.push((String::from_str("MSG_CLASS"), self.msg_class.clone()));
        out.push((String::from_str("MSG_COUNTER"), self.msg_counter.clone()));
        out.push((String::from_str("NETWORK_STATUS"), self.network_status.clone()));
        out.push((String::from_str("ODOMETER"), self.odometer.clone()));
        out.push((String::from_str("RX_LVL"), self.rx_lvl.clone()));
        out.push((String::from_str("SATELLITES"), self.satellites.clone()));
        out.push((String::from_str("SPEED"), self.speed.clone()));
        out.push((String::from_str("SPEED_TIME"), self.speed_time.clone()));
        out.push((String::from_str("TOTAL_DISTANCE"), self.total_distance.clone()));
        out.push((String::from_str("TRIP_DISTANCE"), self.trip_distance.clone()));
        out.push((String::from_str("TRIP_HOURMETER"), self.trip_hourmeter.clone()));
        assert(out.deep_view() =~= self.fields());
        out
    }

}

/// The vendor's own block of a message. Exactly one of the two is present.
#[derive(Debug, Clone, PartialEq, Eq)]
pub enum DecodedData {
    Suntech { suntech_raw: SuntechRaw },
    Queclink { queclink_raw: QueclinkRaw },
}

/// The block of a Queclink device, under the vendor's own keys.
#[derive(Debug, Clone, PartialEq, Eq)]
pub struct QueclinkRaw {
    /// Value of `ALTITUDE`.
    pub altitude: String,
    /// Value of `CELL_ID`.
    pub cell_id: String,
    /// Value of `CRS`.
    pub course: String,
    /// Value of `DEVICE_ID`.
    pub device_id: String,
    /// Value of `FIX`.
    pub fix: String,
    /// Value of `GPS_DATE_TIME`.
    pub gps_date_time: String,
    /// Value of `HEADER`.
    pub header: String,
    /// Value of `LAC`.
    pub lac: String,
    /// Value of `LAT`.
    pub latitude: String,
    /// Value of `LON`.
    pub longitude: String,
    /// Value of `MCC`.
    pub mcc: String,
    /// Value of `MNC`.
    pub mnc: String,
    /// Value of `MSG_NUM`.
    pub msg_num: String,
    /// Value of `PROTOCOL_VERSION`.
    pub protocol_version: String,
    /// Value of `RESERVED`.
    pub reserved: String,
    /// Value of `SEND_DATE_TIME`.
    pub send_date_time: String,
    /// Value of `SPD`.
    pub speed: String,
}

impl QueclinkRaw {
    /// The block as a field list, under the vendor's keys.
    pub open spec fn fields(&self) -> FieldSeq {
        seq![
            ("ALTITUDE"@, self.altitude@),
            ("CELL_ID"@, self.cell_id@),
            ("CRS"@, self.course@),
            ("DEVICE_ID"@, self.device_id@),
            ("FIX"@, self.fix@),
            ("GPS_DATE_TIME"@, self.gps_date_time@),
            ("HEADER"@, self.header@),
            ("LAC"@, self.lac@),
            ("LAT"@, self.latitude@),
            ("LON"@, self.longitude@),
            ("MCC"@, self.mcc@),
            ("MNC"@, self.mnc@),
            ("MSG_NUM"@, self.msg_num@),
            ("PROTOCOL_VERSION"@, self.protocol_version@),
            ("RESERVED"@, self.reserved@),
            ("SEND_DATE_TIME"@, self.send_date_time@),
            ("SPD"@, self.speed@),
        ]
    }

    /// Reads the block out of a field list; a missing key gives the empty string.
    pub fn from_fields(entries: &Vec<(String, String)>) -> (out: QueclinkRaw)
        ensures
            filled_from(out.fields(), entries.deep_view()),
    {
        QueclinkRaw {
            altitude: lookup(entries, "ALTITUDE"),
            cell_id: lookup(entries, "CELL_ID"),
            course: lookup(entries, "CRS"),
            device_id: lookup(entries, "DEVICE_ID"),
            fix: lookup(entries, "FIX"),
            gps_date_time: lookup(entries, "GPS_DATE_TIME"),
            header: lookup(entries, "HEADER"),
            lac: lookup(entries, "LAC"),
            latitude: lookup(entries, "LAT"),
            longitude: lookup(entries, "LON"),
            mcc: lookup(entries, "MCC"),
            mnc: lookup(entries, "MNC"),
            msg_num: lookup(entries, "MSG_NUM"),
            protocol_version: lookup(entries, "PROTOCOL_VERSION"),
            reserved: lookup(entries, "RESERVED"),
            send_date_time: lookup(entries, "SEND_DATE_TIME"),
            speed: lookup(entries, "SPD"),
        }
    }
}

/// The block of a Suntech device, under the vendor's own keys.
#[derive(Debug, Clone, PartialEq, Eq)]
pub struct SuntechRaw {
    /// Value of `ASSIGN_MAP`.
    pub assign_map: String,
    /// Value of `AXIST_Y`.
    pub axis_y: String,
    /// Value of `AXIS_X`.
    pub axis_x: String,
    /// Value of `AXIS_Z`.
    pub axis_z: String,
    /// Value of `CELL_ID`.
    pub cell_id: String,
    /// Value of `CRS`.
    pub course: String,
    /// Value of `DEVICE_ID`.
    pub device_id: String,
    /// Value of `FIX`.
    pub fix: String,
    /// Value of `FW`.
    pub firmware: String,
    /// Value of `GPS_DATE`.
    pub gps_date: String,
    /// Value of `GPS_TIME`.
    pub gps_time: String,
    /// Value of `HEADER`.
    pub header: String,
    /// Value of `IDLE_TIME`.
    pub idle_time: String,
    /// Value of `IN_STATE`.
    pub in_state: String,
    /// Value of `LAC`.
    pub lac: String,
    /// Value of `LAT`.
    pub latitude: String,
    /// Value of `LON`.
    pub longitude: String,
    /// Value of `MCC`.
    pub mcc: String,
    /// Value of `MNC`.
    pub mnc: String,
    /// Value of `MODEL`.
    pub model: String,
    /// Value of `MODE_MAP`.
    pub mode_map: String,
    /// Value of `MSG_NUM`.
    pub msg_num: String,
    /// Value of `MSG_TYPE`.
    pub msg_type: String,
    /// Value of `NET_STATUS`.
    pub net_status: String,
    /// Value of `ODOMETER_MTS`.
    pub odometer_mts: String,
    /// Value of `OUT_STATE`.
    pub out_state: String,
    /// Value of `REPORT_MAP`.
    pub report_map: String,
    /// Value of `RX_LVL`.
    pub rx_lvl: String,
    /// Value of `SAT`.
    pub satellites: String,
    /// Value of `SPD`.
    pub speed: String,
    /// Value of `SPEED_TIME`.
    pub speed_time: String,
    /// Value of `STT_RPT_TYPE`.
    pub stt_rpt_type: String,
    /// Value of `TOTAL_DISTANCE`.
    pub total_distance: String,
    /// Value of `TRIP_DISTANCE`.
    pub trip_distance: String,
    /// Value of `TRIP_HOURMETER`.
    pub trip_hourmeter: String,
    /// Value of `VOLT_BACKUP`.
    pub volt_backup: String,
    /// Value of `VOLT_MAIN`.
    pub volt_main: String,
}

impl SuntechRaw {
    /// The block as a field list, under the vendor's keys.
    pub open spec fn fields(&self) -> FieldSeq {
        seq![
            ("ASSIGN_MAP"@, self.assign_map@),
            ("AXIST_Y"@, self.axis_y@),
            ("AXIS_X"@, self.axis_x@),
            ("AXIS_Z"@, self.axis_z@),
            ("CELL_ID"@, self.cell_id@),
            ("CRS"@, self.course@),
            ("DEVICE_ID"@, self.device_id@),
            ("FIX"@, self.fix@),
            ("FW"@, self.firmware@),
            ("GPS_DATE"@, self.gps_date@),
            ("GPS_TIME"@, self.gps_time@),
            ("HEADER"@, self.header@),
            ("IDLE_TIME"@, self.idle_time@),
            ("IN_STATE"@, self.in_state@),
            ("LAC"@, self.lac@),
            ("LAT"@, self.latitude@),
            ("LON"@, self.longitude@),
            ("MCC"@, self.mcc@),
            ("MNC"@, self.mnc@),
            ("MODEL"@, self.model@),
            ("MODE_MAP"@, self.mode_map@),
            ("MSG_NUM"@, self.msg_num@),
            ("MSG_TYPE"@, self.msg_type@),
            ("NET_STATUS"@, self.net_status@),
            ("ODOMETER_MTS"@, self.odometer_mts@),
            ("OUT_STATE"@, self.out_state@),
            ("REPORT_MAP"@, self.report_map@),
            ("RX_LVL"@, self.rx_lvl@),
            ("SAT"@, self.satellites@),
            ("SPD"@, self.speed@),
            ("SPEED_TIME"@, self.speed_time@),
            ("STT_RPT_TYPE"@, self.stt_rpt_type@),
            ("TOTAL_DISTANCE"@, self.total_distance@),
            ("TRIP_DISTANCE"@, self.trip_distance@),
            ("TRIP_HOURMETER"@, self.trip_hourmeter@),
            ("VOLT_BACKUP"@, self.volt_backup@),
            ("VOLT_MAIN"@, self.volt_main@),
        ]
    }

    /// Reads the block out of a field list; a missing key gives the empty string.
    pub fn from_fields(entries: &Vec<(String, String)>) -> (out: SuntechRaw)
        ensures
            filled_from(out.fields(), entries.deep_view()),
    {
        SuntechRaw {
            assign_map: lookup(entries, "ASSIGN_MAP"),
            axis_y: lookup(entries, "AXIST_Y"),
            axis_x: lookup(entries, "AXIS_X"),
            axis_z: lookup(entries, "AXIS_Z"),
            cell_id: lookup(entries, "CELL_ID"),
            course: lookup(entries, "CRS"),
            device_id: lookup(entries, "DEVICE_ID"),
            fix: lookup(entries, "FIX"),
            firmware: lookup(entries, "FW"),
            gps_date: lookup(entries, "GPS_DATE"),
            gps_time: lookup(entries, "GPS_TIME"),
            header: lookup(entries, "HEADER"),
            idle_time: lookup(entries, "IDLE_TIME"),
            in_state: lookup(entries, "IN_STATE"),
            lac: lookup(entries, "LAC"),
            latitude: lookup(entries, "LAT"),
            longitude: lookup(entries, "LON"),
            mcc: lookup(entries, "MCC"),
            mnc: lookup(entries, "MNC"),
            model: lookup(entries, "MODEL"),
            mode_map: lookup(entries, "MODE_MAP"),
            msg_num: lookup(entries, "MSG_NUM"),
            msg_type: lookup(entries, "MSG_TYPE"),
            net_status: lookup(entries, "NET_STATUS"),
            odometer_mts: lookup(entries, "ODOMETER_MTS"),
            out_state: lookup(entries, "OUT_STATE"),
            report_map: lookup(entries, "REPORT_MAP"),
            rx_lvl: lookup(entries, "RX_LVL"),
            satellites: lookup(entries, "SAT"),
            speed: lookup(entries, "SPD"),
            speed_time: lookup(entries, "SPEED_TIME"),
            stt_rpt_type: lookup(entries, "STT_RPT_TYPE"),
            total_distance: lookup(entries, "TOTAL_DISTANCE"),
            trip_distance: lookup(entries, "TRIP_DISTANCE"),
            trip_hourmeter: lookup(entries, "TRIP_HOURMETER"),
            volt_backup: lookup(entries, "VOLT_BACKUP"),
            volt_main: lookup(entries, "VOLT_MAIN"),
        }
    }
}

impl Default for SuntechRaw {
    /// The block with every value empty.
    fn default() -> (out: SuntechRaw)
        ensures
            all_empty(out.fields()),
    {
        SuntechRaw {
            assign_map: String::new(),
            axis_y: String::new(),
            axis_x: String::new(),
            axis_z: String::new(),
            cell_id: String::new(),
            course: String::new(),
            device_id: String::new(),
            fix: String::new(),
            firmware: String::new(),
            gps_date: String::new(),
            gps_time: String::new(),
            header: String::new(),
            idle_time: String::new(),
            in_state: String::new(),
            lac: String::new(),
            latitude: String::new(),
            longitude: String::new(),
            mcc: String::new(),
            mnc: String::new(),
            model: String::new(),
            mode_map: String::new(),
            msg_num: String::new(),
            msg_type: String::new(),
            net_status: String::new(),
            odometer_mts: String::new(),
            out_state: String::new(),
            report_map: String::new(),
            rx_lvl: String::new(),
            satellites: String::new(),
            speed: String::new(),
            speed_time: String::new(),
            stt_rpt_type: String::new(),
            total_distance: String::new(),
            trip_distance: String::new(),
            trip_hourmeter: String::new(),
            volt_backup: String::new(),
            volt_main: String::new(),
        }
    }
}

/// What the receiving server recorded about a delivery.
#[derive(Debug, Clone, PartialEq, Eq)]
pub struct DeviceMetadata {
    /// Size of the report in bytes.
    pub bytes: i32,
    /// Address the report came from; empty where it is not known.
    pub client_ip: String,
    /// Port the report came from.
    pub client_port: i32,
    /// When the report was decoded, in epoch time.
    pub decoded_epoch: i64,
    /// When the report was received, in epoch time.
    pub received_epoch: i64,
    /// The worker that handled the report.
    pub worker_id: i32,
}

} // verus!
