//! The record that the broker delivers, after its binary framing has been
//! taken apart: plain values, nothing interpreted yet.

use vstd::prelude::*;

verus! {

/// One delivered record. The two field lists hold their pairs in the order in
/// which the record carried them.
#[derive(Debug, Clone, PartialEq, Eq)]
pub struct KafkaMessage {
    /// The flat mapping of normalized field names to values.
    pub data: Vec<(String, String)>,
    /// The vendor block, where the record has one.
    pub decoded: Option<Decoded>,
    /// The server's notes on the delivery; a record without them is rejected.
    pub metadata: Option<Metadata>,
    /// The report as the device sent it, as text.
    pub raw: String,
    /// Identity of the observation, assigned upstream.
    pub uuid: String,
}

/// The vendor block of a delivered record, with the vendor's own key/value
/// map.
#[derive(Debug, Clone, PartialEq, Eq)]
pub enum Decoded {
    Suntech { fields: Vec<(String, String)> },
    Queclink { fields: Vec<(String, String)> },
}

/// The `metadata` sub-message of a delivered record, with its numbers as
/// the record carries them: unsigned.
#[derive(Debug, Clone, PartialEq, Eq)]
pub struct Metadata {
    pub bytes: u32,
    pub client_ip: String,
    pub client_port: u32,
    pub decoded_epoch: u64,
    pub received_epoch: u64,
    pub worker_id: u32,
}

} // verus!
