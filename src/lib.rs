//! Accounting of the use of shared resources by product features.
//!
//! Usage is pre-aggregated locally in fixed-size time buckets and
//! periodically sent, one message per bucket, to a message sink.
pub mod accountant;
pub mod accumulator;
pub mod message;
pub mod producer;

pub use accountant::UsageAccountant;
pub use accumulator::{UsageAccumulator, UsageKey, UsageUnit};
pub use producer::{ClientError, DummyProducer, KafkaConfig, Producer};
