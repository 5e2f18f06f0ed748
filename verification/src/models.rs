//! The data that flows through the pipeline.

pub mod communication_record;
pub mod device_message;
pub mod kafka_message;
pub mod suntech_message;

pub use communication_record::{CommunicationRecord, RowError};
pub use device_message::{
    DecodedData, DeviceData, DeviceMessage, DeviceMetadata, Manufacturer, QueclinkRaw, SuntechRaw,
};
pub use kafka_message::{Decoded, KafkaMessage, Metadata};
pub use suntech_message::{SuntechData, SuntechDecoded, SuntechMessage, SuntechMetadata};
