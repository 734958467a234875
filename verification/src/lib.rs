//! Client-side core of a message-bus event-delivery layer: backoff policy,
//! event envelopes and their wire encoding, stream and consumer provisioning
//! rules, publish-with-retry decision logic, and an in-memory bus used to
//! exercise the delivery guarantees without a live broker.

pub mod codec;
pub mod errors;
pub mod event;
pub mod mbus;
pub mod membus;
pub mod message;
pub mod mount;
pub mod nvme;
pub mod retry;
pub mod strutil;
pub mod timestamp;
pub mod version;
