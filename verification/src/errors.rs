//! Errors surfaced by the message-bus client. Connection failures never
//! appear here: they are absorbed by the infinite connect retry loop.

use vstd::prelude::*;

verus! {

/// All errors that can be returned from the message bus.
#[derive(Debug)]
pub enum Error {
    /// Failed to publish a message to the bus within the retry budget.
    PublishError {
        /// How many retries were made before giving up.
        retries: u32,
        /// A rendering of the undelivered payload.
        payload: String,
        /// The last failure observed.
        error: String,
    },
    /// Failed to get consumer messages.
    ConsumerError {
        /// The durable consumer's name.
        consumer: String,
        /// The last failure observed.
        error: String,
    },
    /// Failed to get or create the stream.
    StreamError {
        /// The stream's name.
        stream: String,
        /// The last failure observed.
        error: String,
    },
    /// Invalid event message id.
    InvalidMessageId {
        /// Why the id was rejected.
        error_msg: String,
    },
    /// Failed to serialise a value.
    SerdeSerializeError {
        /// The serialisation failure.
        error: String,
    },
}

} // verus!
