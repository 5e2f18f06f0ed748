//! The components of the pipeline: consumer, batcher and store.

pub mod database;
pub mod kafka_consumer;
pub mod kafka_producer;
pub mod mqtt_consumer;
pub mod processor;
pub mod tables;
pub mod transaction;

pub use database::DatabaseService;
pub use kafka_consumer::KafkaConsumerService;
pub use kafka_producer::KafkaProducerService;
pub use mqtt_consumer::MqttConsumerService;
pub use processor::MessageProcessor;
