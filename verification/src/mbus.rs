//! The decision core of the bus client: subject derivation, payload
//! preparation, stream and consumer configuration, and the retry state
//! machines that the connect, provision, publish and subscribe loops drive.
//! The loops themselves perform the broker calls and feed every outcome back
//! in as a plain value.

use vstd::prelude::*;
use vstd::string::StringExecFns;
use crate::codec::{decode_event, encode_event, spec_encode, spec_parse_event};
use crate::errors::Error;
use crate::message::EventMessage;
use crate::retry::{delay_millis, BackoffOptions};

verus! {

/// Each event message is nearly of size 0.3 KB. So a stream of this size
/// (3 MB) can hold nearly 10K messages.
pub const STREAM_SIZE: i64 = 3 * 1024 * 1024;

/// Replica count for messages. Maximum 5.
pub const NUM_STREAM_REPLICAS: usize = 3;

/// Max messages per subject. One message per unique subject makes a publish
/// land in the log at most once per id.
pub const MAX_MSGS_PER_SUBJECT: i64 = 1;

/// Timeout for a publish acknowledgement, in milliseconds.
pub const PUBLISH_TIMEOUT: u64 = 10000;

/// Stream name for the events.
pub fn stream_name() -> (r: &'static str)
    ensures
        r@ == "events-stream"@,
{
    "events-stream"
}

/// Stats consumer name for the message bus.
pub fn consumer_name() -> (r: &'static str)
    ensures
        r@ == "stats-events-consumer"@,
{
    "stats-events-consumer"
}

/// Subject filter for the events stream: every category.
pub fn stream_subjects() -> (r: &'static str)
    ensures
        r@ == "events.>"@,
{
    "events.>"
}

/// The configuration a stream is provisioned with.
pub struct StreamSpec {
    /// Stream name.
    pub name: String,
    /// Subject filter.
    pub subjects: String,
    /// Size bound on the whole stream, in bytes.
    pub max_bytes: i64,
    /// Retention bound per subject.
    pub max_messages_per_subject: i64,
    /// In-memory storage rather than file-backed.
    pub memory_storage: bool,
    /// Replica count.
    pub num_replicas: usize,
}

/// The stream holding bus events: fixed name and subject filter, megabyte
/// scale in-memory storage, and one retained message per subject, which
/// together with per-message-unique subjects caps delivery into the log at
/// most once per id.
pub fn stream_spec(num_replicas: Option<usize>) -> (spec: StreamSpec)
    ensures
        spec.name@ == "events-stream"@,
        spec.subjects@ == "events.>"@,
        spec.max_bytes == STREAM_SIZE,
        spec.max_messages_per_subject == 1,
        spec.memory_storage,
        spec.num_replicas == (match num_replicas {
            Some(n) => n,
            None => NUM_STREAM_REPLICAS,
        }),
{
    StreamSpec {
        name: String::from_str(stream_name()),
        subjects: String::from_str(stream_subjects()),
        max_bytes: STREAM_SIZE,
        max_messages_per_subject: MAX_MSGS_PER_SUBJECT,
        memory_storage: true,
        num_replicas: match num_replicas {
            Some(n) => n,
            None => NUM_STREAM_REPLICAS,
        },
    }
}

/// The configuration a durable consumer is provisioned with.
pub struct ConsumerSpec {
    /// Durable consumer name.
    pub durable_name: String,
    /// Replay the full backlog, then the live tail.
    pub deliver_all: bool,
    /// The private subject deliveries are pushed to.
    pub deliver_subject: String,
    /// How many deliveries may be awaiting acknowledgement at once.
    pub max_ack_pending: i64,
}

/// The durable consumer for the events stream. `max_ack_pending` of one is
/// load-bearing: each message is received and acknowledged before the next
/// one is delivered, which is what makes delivery strictly ordered.
pub fn consumer_spec(deliver_subject: String) -> (spec: ConsumerSpec)
    ensures
        spec.durable_name@ == "stats-events-consumer"@,
        spec.deliver_all,
        spec.deliver_subject == deliver_subject,
        spec.max_ack_pending == 1,
{
    ConsumerSpec {
        durable_name: String::from_str(consumer_name()),
        deliver_all: true,
        deliver_subject,
        max_ack_pending: 1,
    }
}

/// The subject for a message: `events.<category>.<id>`. If the category is
/// volume and the id is 'id', the subject is 'events.volume.id'. Unique per
/// message because the id is.
pub open spec fn spec_subject(msg: EventMessage) -> Seq<char> {
    "events."@ + msg.category.subject_name() + "."@ + msg.metadata.id@
}

/// Returns the subject for the message; rejects an empty message id at once,
/// since retrying cannot repair a caller-side defect.
pub fn subject(msg: &EventMessage) -> (r: Result<String, Error>)
    ensures
        match r {
            Ok(s) => msg.metadata.id@.len() > 0 && s@ == spec_subject(*msg),
            Err(e) => msg.metadata.id@.len() == 0 && (e matches Error::InvalidMessageId {
                error_msg,
            } && error_msg@ == "the message id must not be empty"@),
        },
{
    if msg.metadata.id.as_str().is_empty() {
        return Err(
            Error::InvalidMessageId {
                error_msg: String::from_str("the message id must not be empty"),
            },
        );
    }
    let mut s = String::from_str("events.");
    let category = msg.category.to_string();
    s.append(category.as_str());
    s.append(".");
    s.append(msg.metadata.id.as_str());
    proof {
        assert(s@ =~= spec_subject(*msg));
    }
    Ok(s)
}

/// The payload for a bus publish from the message: its canonical wire form.
pub fn payload(msg: &EventMessage) -> (r: Vec<u8>)
    ensures
        r@ == spec_encode(msg@),
{
    encode_event(msg)
}

/// A validated publish, ready to be submitted to the broker.
pub struct PublishRequest {
    /// The per-message subject.
    pub subject: String,
    /// The serialized envelope.
    pub payload: Vec<u8>,
}

/// Validates a message and derives what its publish submits: the subject and
/// the serialized payload. An empty id fails here, before any broker round
/// trip, and is the only failure.
pub fn prepare_publish(msg: &EventMessage) -> (r: Result<PublishRequest, Error>)
    ensures
        match r {
            Ok(req) => msg.metadata.id@.len() > 0 && req.subject@ == spec_subject(*msg)
                && req.payload@ == spec_encode(msg@),
            Err(e) => msg.metadata.id@.len() == 0 && (e matches Error::InvalidMessageId {
                error_msg,
            } && error_msg@ == "the message id must not be empty"@),
        },
{
    let subject = match subject(msg) {
        Ok(s) => s,
        Err(e) => {
            return Err(e);
        },
    };
    Ok(PublishRequest { subject, payload: payload(msg) })
}

/// The failure kinds a publish attempt distinguishes.
#[derive(Clone, Copy, Debug, PartialEq, Eq, Structural)]
pub enum PublishFailureKind {
    /// The acknowledgement timed out.
    TimedOut,
    /// The stream is gone.
    StreamNotFound,
    /// Anything else.
    Other,
}

/// What a failed publish attempt does next.
pub enum PublishAction {
    /// The retry budget is exhausted: stop with this terminal error.
    GiveUp { error: Error },
    /// Retry immediately: timeouts indicate slow-path contention, not outage.
    RetryNow,
    /// Re-provision the stream, then retry immediately: covers external
    /// deletion or recreation of the stream.
    ReprovisionAndRetry,
    /// Sleep for this many milliseconds, then retry.
    SleepThenRetry { delay: u64 },
}

/// The state of one publish call's bounded retry loop. The loop owns the
/// attempt counter exclusively; only `on_failure` advances it.
pub struct PublishRetryState {
    /// The backoff options for this loop.
    pub options: BackoffOptions,
    /// Attempts counted so far.
    pub tries: u32,
    /// Whether a failure has been logged in this call already.
    pub logged: bool,
}

impl PublishRetryState {
    /// Fresh state for one publish call, with the publish backoff options.
    pub fn new() -> (s: Self)
        ensures
            s.options.is_default(),
            s.tries == 0,
            !s.logged,
    {
        PublishRetryState {
            options: BackoffOptions::publish_backoff_options(),
            tries: 0,
            logged: false,
        }
    }

    /// Decides what a publish attempt that failed with `kind` does next, and
    /// whether the caller should log the failure (only the first failure in
    /// a call is logged). Gives up exactly when the attempt count has reached
    /// the retry ceiling, and then the terminal error carries that ceiling as
    /// its retry count, the payload rendering, and the last cause.
    pub fn on_failure(&mut self, kind: PublishFailureKind, cause: &str, payload_debug: &str) -> (r:
        (PublishAction, bool))
        requires
            old(self).tries < u32::MAX,
        ensures
            r.1 == !old(self).logged,
            final(self).logged,
            final(self).options == old(self).options,
            (old(self).tries >= old(self).options.max_retries) <==> (r.0 matches
            PublishAction::GiveUp { .. }),
            (match r.0 {
                PublishAction::GiveUp { error } => {
                    &&& final(self).tries == old(self).tries
                    &&& error matches Error::PublishError { retries, payload, error: last }
                        && retries == old(self).options.max_retries && payload@ == payload_debug@
                        && last@ == cause@
                },
                PublishAction::RetryNow => kind == PublishFailureKind::TimedOut
                    && final(self).tries == (old(self).tries + 1) as u32,
                PublishAction::ReprovisionAndRetry => kind == PublishFailureKind::StreamNotFound
                    && final(self).tries == (old(self).tries + 1) as u32,
                PublishAction::SleepThenRetry { delay } => kind == PublishFailureKind::Other
                    && final(self).tries == old(self).tries + 1 && delay == delay_millis(
                    old(self).options,
                    (old(self).tries + 1) as u32,
                ),
            }),
    {
        let log = !self.logged;
        self.logged = true;
        if self.tries >= self.options.max_retries {
            let error = Error::PublishError {
                retries: self.options.max_retries,
                payload: String::from_str(payload_debug),
                error: String::from_str(cause),
            };
            return (PublishAction::GiveUp { error }, log);
        }
        match kind {
            PublishFailureKind::TimedOut => {
                self.tries = self.tries + 1;
                (PublishAction::RetryNow, log)
            },
            PublishFailureKind::StreamNotFound => {
                self.tries = self.tries + 1;
                (PublishAction::ReprovisionAndRetry, log)
            },
            PublishFailureKind::Other => {
                let delay = crate::retry::backoff_with_options(&mut self.tries, &self.options);
                (PublishAction::SleepThenRetry { delay }, log)
            },
        }
    }
}

/// What a failed provisioning attempt does next.
pub enum RetryDecision {
    /// The retry budget is exhausted: stop and surface the error.
    GiveUp,
    /// Sleep for this many milliseconds, then retry.
    SleepThenRetry { delay: u64 },
}

/// Bounded retry state shared by the stream and consumer provisioning loops.
pub struct ProvisionRetryState {
    /// The backoff options for this loop.
    pub options: BackoffOptions,
    /// Attempts counted so far.
    pub tries: u32,
    /// Whether a failure has been logged in this loop already.
    pub logged: bool,
}

impl ProvisionRetryState {
    /// Fresh state with the given options.
    pub fn new(options: BackoffOptions) -> (s: Self)
        ensures
            s.options == options,
            s.tries == 0,
            !s.logged,
    {
        ProvisionRetryState { options, tries: 0, logged: false }
    }

    /// Decides whether a failed provisioning attempt is retried. Gives up
    /// exactly when the attempt count has reached the retry ceiling; until
    /// then each retry waits out the backoff delay. The second component
    /// says whether the caller should log (only the first retried failure).
    pub fn on_failure(&mut self) -> (r: (RetryDecision, bool))
        requires
            old(self).tries < u32::MAX,
        ensures
            final(self).options == old(self).options,
            (old(self).tries >= old(self).options.max_retries) <==> (r.0 is GiveUp),
            (match r.0 {
                RetryDecision::GiveUp => r.1 == false && *final(self) == *old(self),
                RetryDecision::SleepThenRetry { delay } => {
                    &&& r.1 == !old(self).logged
                    &&& final(self).logged
                    &&& final(self).tries == old(self).tries + 1
                    &&& delay == delay_millis(old(self).options, (old(self).tries + 1) as u32)
                },
            }),
    {
        if self.tries >= self.options.max_retries {
            return (RetryDecision::GiveUp, false);
        }
        let log = !self.logged;
        self.logged = true;
        let delay = crate::retry::backoff_with_options(&mut self.tries, &self.options);
        (RetryDecision::SleepThenRetry { delay }, log)
    }
}

/// The terminal error after stream provisioning retries are exhausted.
pub fn stream_error(cause: &str) -> (e: Error)
    ensures
        e matches Error::StreamError { stream, error } && stream@ == "events-stream"@ && error@
            == cause@,
{
    Error::StreamError {
        stream: String::from_str(stream_name()),
        error: String::from_str(cause),
    }
}

/// The terminal error after consumer provisioning retries are exhausted.
pub fn consumer_error(cause: &str) -> (e: Error)
    ensures
        e matches Error::ConsumerError { consumer, error } && consumer@
            == "stats-events-consumer"@ && error@ == cause@,
{
    Error::ConsumerError {
        consumer: String::from_str(consumer_name()),
        error: String::from_str(cause),
    }
}

/// Retry state for the connection loop. Connecting never gives up: there is
/// no caller-visible error path, and blocking until the bus is reachable is
/// the intended behaviour.
pub struct ConnectRetryState {
    /// The backoff options for this loop.
    pub options: BackoffOptions,
    /// Attempts counted so far.
    pub tries: u32,
    /// Whether a failure has been logged in this run already.
    pub logged: bool,
}

impl ConnectRetryState {
    /// Fresh state with the general-purpose backoff options.
    pub fn new() -> (s: Self)
        ensures
            s.options.is_default(),
            s.tries == 0,
            !s.logged,
    {
        ConnectRetryState { options: BackoffOptions::new(), tries: 0, logged: false }
    }

    /// Every connection failure is retried after the backoff delay; only the
    /// first failure in a run is logged, to avoid log storms.
    pub fn on_failure(&mut self) -> (r: (u64, bool))
        requires
            old(self).tries < u32::MAX,
        ensures
            final(self).options == old(self).options,
            final(self).tries == (old(self).tries + 1) as u32,
            final(self).logged,
            r.1 == !old(self).logged,
            r.0 == delay_millis(old(self).options, (old(self).tries + 1) as u32),
    {
        let log = !self.logged;
        self.logged = true;
        let delay = crate::retry::backoff_with_options(&mut self.tries, &self.options);
        (delay, log)
    }
}

/// The delivery failure kinds the subscriber distinguishes. Recovery from a
/// deleted consumer or a missing heartbeat is a known gap: they are skipped
/// like any other delivery error.
#[derive(Clone, Copy, Debug, PartialEq, Eq, Structural)]
pub enum DeliveryErrorKind {
    /// The consumer was deleted out from under the subscription.
    ConsumerDeleted,
    /// The broker's heartbeat went missing.
    MissingHeartbeat,
    /// Anything else.
    Other,
}

/// What the subscriber does with one pull from the consumer.
pub enum DeliveryOutcome {
    /// A payload decoded: hand this value to the caller.
    Yield { message: EventMessage },
    /// A delivery error or a poison payload: log and keep polling. Neither
    /// ever terminates the subscription.
    Skip,
    /// The delivery channel is closed: the subscription ends.
    End,
}

/// Decides what one pull from the consumer yields: a closed channel ends the
/// subscription, a delivery error or an undecodable payload is skipped, and
/// a payload that decodes is handed to the caller.
pub fn subscription_step(delivery: Option<Result<Vec<u8>, DeliveryErrorKind>>) -> (r:
    DeliveryOutcome)
    ensures
        (match delivery {
            None => r is End,
            Some(Err(_)) => r is Skip,
            Some(Ok(data)) => (match spec_parse_event(data@) {
                Some(m) => r matches DeliveryOutcome::Yield { message } && message@ == m,
                None => r is Skip,
            }),
        }),
{
    match delivery {
        None => DeliveryOutcome::End,
        Some(Err(_)) => DeliveryOutcome::Skip,
        Some(Ok(data)) => match decode_event(&data) {
            Some(message) => DeliveryOutcome::Yield { message },
            None => DeliveryOutcome::Skip,
        },
    }
}

} // verus!
