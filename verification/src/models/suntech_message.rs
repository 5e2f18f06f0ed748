//! The message of a Suntech device in its earlier, vendor-bound shape, as
//! the MQTT consumer delivers it. Every key is required there.

use vstd::prelude::*;

verus! {

/// One report of a Suntech device.
#[derive(Debug, Clone, PartialEq, Eq)]
pub struct SuntechMessage {
    pub data: SuntechData,
    pub decoded: SuntechDecoded,
    pub metadata: SuntechMetadata,
    pub raw: String,
    pub uuid: String,
}

/// The normalized payload of the report.
#[derive(Debug, Clone, PartialEq, Eq)]
pub struct SuntechData {
    /// Value of `BACKUP_BATTERY_VOLTAGE`.
    pub backup_battery_voltage: String,
    /// Value of `CELL_ID`.
    pub cell_id: String,
    /// Value of `COURSE`.
    pub course: String,
    /// Value of `DELIVERY_TYPE`.
    pub delivery_type: String,
    /// Value of `DEVICE_ID`.
    pub device_id: String,
    /// Value of `ENGINE_STATUS`.
    pub engine_status: String,
    /// Value of `FIRMWARE`.
    pub firmware: String,
    /// Value of `FIX_`.
    pub fix_status: String,
    /// Value of `GPS_DATETIME`.
    pub gps_datetime: String,
    /// Value of `GPS_EPOCH`.
    pub gps_epoch: String,
    /// Value of `IDLE_TIME`.
    pub idle_time: String,
    /// Value of `LAC`.
    pub lac: String,
    /// Value of `LATITUD`.
    pub latitude: String,
    /// Value of `LONGITUD`.
    pub longitude: String,
    /// Value of `MAIN_BATTERY_VOLTAGE`.
    pub main_battery_voltage: String,
    /// Value of `MCC`.
    pub mcc: String,
    /// Value of `MNC`.
    pub mnc: String,
    /// Value of `MODEL`.
    pub model: String,
    /// Value of `MSG_CLASS`.
    pub msg_class: String,
    /// Value of `MSG_COUNTER`.
    pub msg_counter: String,
    /// Value of `NETWORK_STATUS`.
    pub network_status: String,
    /// Value of `ODOMETER`.
    pub odometer: String,
    /// Value of `RX_LVL`.
    pub rx_lvl: String,
    /// Value of `SATELLITES`.
    pub satellites: String,
    /// Value of `SPEED`.
    pub speed: String,
    /// Value of `SPEED_TIME`.
    pub speed_time: String,
    /// Value of `TOTAL_DISTANCE`.
    pub total_distance: String,
    /// Value of `TRIP_DISTANCE`.
    pub trip_distance: String,
    /// Value of `TRIP_HOURMETER`.
    pub trip_hourmeter: String,
}

/// The vendor block of the report.
#[derive(Debug, Clone, PartialEq, Eq)]
pub struct SuntechDecoded {
    pub suntech_raw: SuntechRaw,
}

/// The report under the vendor's own keys.
#[derive(Debug, Clone, PartialEq, Eq)]
pub struct SuntechRaw {
    /// Value of `ASSIGN_MAP`.
    pub assign_map: String,
    /// Value of `AXIST_Y`.
    pub axis_y: String,
    /// Value of `AXIS_X`.
    pub axis_x: String,
    /// Value of `AXIS_Z`.
    pub axis_z: String,
    /// Value of `CELL_ID`.
    pub cell_id: String,
    /// Value of `CRS`.
    pub course: String,
    /// Value of `DEVICE_ID`.
    pub device_id: String,
    /// Value of `FIX`.
    pub fix: String,
    /// Value of `FW`.
    pub firmware: String,
    /// Value of `GPS_DATE`.
    pub gps_date: String,
    /// Value of `GPS_TIME`.
    pub gps_time: String,
    /// Value of `HEADER`.
    pub header: String,
    /// Value of `IDLE_TIME`.
    pub idle_time: String,
    /// Value of `IN_STATE`.
    pub in_state: String,
    /// Value of `LAC`.
    pub lac: String,
    /// Value of `LAT`.
    pub latitude: String,
    /// Value of `LON`.
    pub longitude: String,
    /// Value of `MCC`.
    pub mcc: String,
    /// Value of `MNC`.
    pub mnc: String,
    /// Value of `MODEL`.
    pub model: String,
    /// Value of `MODE_MAP`.
    pub mode_map: String,
    /// Value of `MSG_NUM`.
    pub msg_num: String,
    /// Value of `MSG_TYPE`.
    pub msg_type: String,
    /// Value of `NET_STATUS`.
    pub net_status: String,
    /// Value of `ODOMETER_MTS`.
    pub odometer_mts: String,
    /// Value of `OUT_STATE`.
    pub out_state: String,
    /// Value of `REPORT_MAP`.
    pub report_map: String,
    /// Value of `RX_LVL`.
    pub rx_lvl: String,
    /// Value of `SAT`.
    pub satellites: String,
    /// Value of `SPD`.
    pub speed: String,
    /// Value of `SPEED_TIME`.
    pub speed_time: String,
    /// Value of `STT_RPT_TYPE`.
    pub stt_rpt_type: String,
    /// Value of `TOTAL_DISTANCE`.
    pub total_distance: String,
    /// Value of `TRIP_DISTANCE`.
    pub trip_distance: String,
    /// Value of `TRIP_HOURMETER`.
    pub trip_hourmeter: String,
    /// Value of `VOLT_BACKUP`.
    pub volt_backup: String,
    /// Value of `VOLT_MAIN`.
    pub volt_main: String,
}

/// What the receiving server recorded about the delivery.
#[derive(Debug, Clone, PartialEq, Eq)]
pub struct SuntechMetadata {
    /// Value of `BYTES`.
    pub bytes: i32,
    /// Value of `CLIENT_IP`.
    pub client_ip: String,
    /// Value of `CLIENT_PORT`.
    pub client_port: i32,
    /// Value of `DECODED_EPOCH`.
    pub decoded_epoch: i64,
    /// Value of `RECEIVED_EPOCH`.
    pub received_epoch: i64,
}

} // verus!
