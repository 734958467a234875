//! An in-memory message bus: the publish and subscribe behaviour of the
//! provisioned stream and its durable consumer, without a broker. It models
//! what the stream configuration guarantees — one retained message per
//! subject, sequence-ordered storage, ordered single-in-flight delivery —
//! and is what unit tests run against.

use vstd::prelude::*;
use vstd::slice::slice_to_vec;
use crate::codec::{decode_event, spec_encode, spec_parse_event};
use crate::errors::Error;
use crate::mbus::{prepare_publish, spec_subject, stream_spec, StreamSpec};
use crate::message::{EventMessage, EventModel};

verus! {

/// A message as stored in the in-memory stream's log.
pub struct StoredMessage {
    /// The broker-assigned sequence number.
    pub sequence: u64,
    /// The per-message subject.
    pub subject: String,
    /// The serialized envelope.
    pub payload: Vec<u8>,
}

/// Mathematical view of a stored message.
pub ghost struct StoredModel {
    pub sequence: u64,
    pub subject: Seq<char>,
    pub payload: Seq<u8>,
}

impl View for StoredMessage {
    type V = StoredModel;

    open spec fn view(&self) -> StoredModel {
        StoredModel { sequence: self.sequence, subject: self.subject@, payload: self.payload@ }
    }
}

/// The view of a whole log.
pub open spec fn log_view(log: Seq<StoredMessage>) -> Seq<StoredModel> {
    log.map_values(|m: StoredMessage| m@)
}

impl StoredMessage {
    /// A copy holding the same sequence number, subject and payload.
    pub fn duplicate(&self) -> (r: Self)
        ensures
            r@ == self@,
    {
        StoredMessage {
            sequence: self.sequence,
            subject: self.subject.clone(),
            payload: slice_to_vec(self.payload.as_slice()),
        }
    }
}

/// The log with every message on `subj` removed, order otherwise kept.
pub open spec fn remove_subject(log: Seq<StoredModel>, subj: Seq<char>) -> Seq<StoredModel>
    decreases log.len(),
{
    if log.len() == 0 {
        Seq::empty()
    } else if log[0].subject == subj {
        remove_subject(log.drop_first(), subj)
    } else {
        seq![log[0]] + remove_subject(log.drop_first(), subj)
    }
}

/// How many stored messages carry the subject `subj`.
pub open spec fn subject_occurrences(log: Seq<StoredModel>, subj: Seq<char>) -> nat
    decreases log.len(),
{
    if log.len() == 0 {
        0
    } else if log[0].subject == subj {
        1 + subject_occurrences(log.drop_first(), subj)
    } else {
        subject_occurrences(log.drop_first(), subj)
    }
}

/// Removal distributes over splitting the log.
proof fn lemma_remove_subject_app(a: Seq<StoredModel>, b: Seq<StoredModel>, subj: Seq<char>)
    ensures
        remove_subject(a + b, subj) == remove_subject(a, subj) + remove_subject(b, subj),
    decreases a.len(),
{
    if a.len() == 0 {
        assert(a + b =~= b);
        assert(remove_subject(a, subj) + remove_subject(b, subj) =~= remove_subject(b, subj));
    } else {
        assert((a + b).drop_first() =~= a.drop_first() + b);
        lemma_remove_subject_app(a.drop_first(), b, subj);
        assert((a + b)[0] == a[0]);
        if a[0].subject != subj {
            assert(seq![a[0]] + (remove_subject(a.drop_first(), subj) + remove_subject(b, subj))
                =~= (seq![a[0]] + remove_subject(a.drop_first(), subj)) + remove_subject(b, subj));
        }
    }
}

/// Counting distributes over splitting the log.
proof fn lemma_occurrences_app(a: Seq<StoredModel>, b: Seq<StoredModel>, subj: Seq<char>)
    ensures
        subject_occurrences(a + b, subj) == subject_occurrences(a, subj) + subject_occurrences(
            b,
            subj,
        ),
    decreases a.len(),
{
    if a.len() == 0 {
        assert(a + b =~= b);
    } else {
        assert((a + b).drop_first() =~= a.drop_first() + b);
        lemma_occurrences_app(a.drop_first(), b, subj);
        assert((a + b)[0] == a[0]);
    }
}

/// After removal, nothing on that subject is left.
proof fn lemma_occurrences_after_remove(log: Seq<StoredModel>, subj: Seq<char>)
    ensures
        subject_occurrences(remove_subject(log, subj), subj) == 0,
    decreases log.len(),
{
    if log.len() > 0 {
        lemma_occurrences_after_remove(log.drop_first(), subj);
        if log[0].subject != subj {
            let rest = remove_subject(log.drop_first(), subj);
            assert((seq![log[0]] + rest).drop_first() =~= rest);
            assert((seq![log[0]] + rest)[0] == log[0]);
        }
    }
}

/// An in-memory message bus holding a provisioned events stream.
pub struct InMemoryBus {
    /// The stream's configuration.
    pub stream: StreamSpec,
    /// The stored messages, in sequence order.
    pub log: Vec<StoredMessage>,
    /// The sequence number the next stored message receives.
    pub next_sequence: u64,
}

impl InMemoryBus {
    /// The stream's retention and ordering guarantees, as an invariant of
    /// the log: one retained message per subject, strictly increasing
    /// sequence numbers, all below the next one to be assigned.
    pub open spec fn wf(self) -> bool {
        &&& self.stream.max_messages_per_subject == 1
        &&& forall|i: int, j: int|
            0 <= i < j < self.log@.len() ==> (#[trigger] self.log@[i]@).subject
                != (#[trigger] self.log@[j]@).subject
        &&& forall|i: int, j: int|
            0 <= i < j < self.log@.len() ==> (#[trigger] self.log@[i]@).sequence
                < (#[trigger] self.log@[j]@).sequence
        &&& forall|i: int|
            0 <= i < self.log@.len() ==> (#[trigger] self.log@[i]@).sequence < self.next_sequence
    }

    /// A fresh bus whose stream is provisioned with the events-stream
    /// configuration; its log is empty and sequences start at one.
    pub fn new(num_replicas: Option<usize>) -> (bus: Self)
        ensures
            bus.wf(),
            bus.log@.len() == 0,
            bus.next_sequence == 1,
            bus.stream.name@ == "events-stream"@,
            bus.stream.subjects@ == "events.>"@,
            bus.stream.max_messages_per_subject == 1,
    {
        InMemoryBus { stream: stream_spec(num_replicas), log: Vec::new(), next_sequence: 1 }
    }

    /// Provisioning is idempotent: the stream already exists, so asking for
    /// it again changes nothing and succeeds.
    pub fn get_or_create_stream(&mut self) -> (r: Result<(), Error>)
        ensures
            *final(self) == *old(self),
            r is Ok,
    {
        Ok(())
    }

    /// Publishes a message to the bus at most once per id: the subject is
    /// derived from the unique id, and with one retained message per subject
    /// a second publish of the same id replaces the stored message instead
    /// of adding one. An empty id fails immediately, before anything touches
    /// the log. On success the assigned sequence number is returned, the
    /// encoded envelope sits at the end of the log, and every other subject's
    /// messages are kept unchanged, in order.
    pub fn publish(&mut self, message: &EventMessage) -> (r: Result<u64, Error>)
        requires
            old(self).wf(),
            old(self).next_sequence < u64::MAX,
        ensures
            final(self).wf(),
            final(self).stream == old(self).stream,
            (match r {
                Ok(sequence) => {
                    &&& message.metadata.id@.len() > 0
                    &&& sequence == old(self).next_sequence
                    &&& final(self).next_sequence == old(self).next_sequence + 1
                    &&& final(self).log@.len() >= 1
                    &&& log_view(final(self).log@).last().sequence == sequence
                    &&& log_view(final(self).log@).last().subject == spec_subject(*message)
                    &&& log_view(final(self).log@).last().payload == spec_encode(message@)
                    &&& log_view(final(self).log@).drop_last() == remove_subject(
                        log_view(old(self).log@),
                        spec_subject(*message),
                    )
                    &&& subject_occurrences(log_view(final(self).log@), spec_subject(*message))
                        == 1
                },
                Err(e) => {
                    &&& *final(self) == *old(self)
                    &&& message.metadata.id@.len() == 0
                    &&& e matches Error::InvalidMessageId { .. }
                },
            }),
    {
        let request = match prepare_publish(message) {
            Ok(request) => request,
            Err(e) => {
                return Err(e);
            },
        };
        let ghost subj = spec_subject(*message);
        let ghost original = log_view(self.log@);
        let mut kept: Vec<StoredMessage> = Vec::new();
        let mut i: usize = 0;
        while i < self.log.len()
            invariant
                old(self).wf(),
                self.log@ == old(self).log@,
                self.next_sequence == old(self).next_sequence,
                self.stream == old(self).stream,
                original == log_view(self.log@),
                i <= original.len(),
                request.subject@ == subj,
                log_view(kept@) == remove_subject(original.take(i as int), subj),
                forall|k: int|
                    0 <= k < kept@.len() ==> exists|j: int|
                        0 <= j < i && (#[trigger] kept@[k])@ == original[j],
                forall|k: int| 0 <= k < kept@.len() ==> (#[trigger] kept@[k])@.subject != subj,
                forall|k1: int, k2: int|
                    0 <= k1 < k2 < kept@.len() ==> (#[trigger] kept@[k1]@).subject
                        != (#[trigger] kept@[k2]@).subject,
                forall|k1: int, k2: int|
                    0 <= k1 < k2 < kept@.len() ==> (#[trigger] kept@[k1]@).sequence
                        < (#[trigger] kept@[k2]@).sequence,
            decreases self.log@.len() - i,
        {
            let m = &self.log[i];
            let ghost kept_before = kept@;
            if !(m.subject == request.subject) {
                kept.push(m.duplicate());
                proof {
                    assert forall|k: int| 0 <= k < kept@.len() implies exists|j: int|
                        0 <= j < i + 1 && (#[trigger] kept@[k])@ == original[j] by {
                        if k < kept_before.len() {
                            let j = choose|j: int|
                                0 <= j < i && (#[trigger] kept_before[k])@ == original[j];
                            assert(kept@[k] == kept_before[k]);
                            assert(kept@[k]@ == original[j]);
                        } else {
                            assert(kept@[k]@ == original[i as int]);
                        }
                    }
                }
            }
            proof {
                assert(original.take(i + 1) =~= original.take(i as int) + seq![original[i as int]]);
                lemma_remove_subject_app(original.take(i as int), seq![original[i as int]], subj);
                let single = seq![original[i as int]];
                assert(single.drop_first() =~= Seq::<StoredModel>::empty());
                assert(remove_subject(Seq::<StoredModel>::empty(), subj)
                    == Seq::<StoredModel>::empty());
                if original[i as int].subject != subj {
                    assert(remove_subject(single, subj) == seq![single[0]] + remove_subject(
                        single.drop_first(),
                        subj,
                    ));
                    assert(remove_subject(single, subj) =~= single);
                } else {
                    assert(remove_subject(single, subj) == remove_subject(
                        single.drop_first(),
                        subj,
                    ));
                }
                assert(log_view(kept@) =~= remove_subject(original.take(i + 1), subj));
            }
            i += 1;
        }
        proof {
            assert(original.take(original.len() as int) =~= original);
        }
        let sequence = self.next_sequence;
        let entry = StoredMessage { sequence, subject: request.subject, payload: request.payload };
        kept.push(entry);
        self.log = kept;
        self.next_sequence = self.next_sequence + 1;
        proof {
            lemma_occurrences_after_remove(original, subj);
            let final_log = log_view(self.log@);
            assert(final_log.drop_last() =~= remove_subject(original, subj));
            let single = seq![final_log.last()];
            lemma_occurrences_app(final_log.drop_last(), single, subj);
            assert(final_log.drop_last() + single =~= final_log);
            assert(single.drop_first() =~= Seq::<StoredModel>::empty());
            assert(subject_occurrences(Seq::<StoredModel>::empty(), subj) == 0);
            assert(single[0].subject == subj);
            assert(subject_occurrences(single, subj) == 1);
        }
        Ok(sequence)
    }
}

/// The values a subscription still has to hand out: the messages from the
/// cursor on whose payload decodes, in log order.
pub open spec fn decoded_from(msgs: Seq<StoredModel>, cursor: int) -> Seq<EventModel>
    decreases msgs.len() - cursor,
{
    if cursor < 0 || cursor >= msgs.len() {
        Seq::empty()
    } else {
        match spec_parse_event(msgs[cursor].payload) {
            Some(m) => seq![m] + decoded_from(msgs, cursor + 1),
            None => decoded_from(msgs, cursor + 1),
        }
    }
}

/// An ordered subscription over the in-memory bus: the full backlog is
/// replayed one fully-acknowledged message at a time, exactly as a consumer
/// with a single in-flight message sees it.
pub struct BusSubscription {
    /// The deliveries this subscription replays, in log order.
    pub messages: Vec<StoredMessage>,
    /// The next undelivered index. No two tasks may share it.
    pub cursor: usize,
}

impl InMemoryBus {
    /// Subscribes to the stream through the durable consumer: the returned
    /// subscription replays the stored messages in log order from the
    /// beginning (deliver-all policy).
    pub fn subscribe(&self) -> (r: BusSubscription)
        ensures
            log_view(r.messages@) == log_view(self.log@),
            r.cursor == 0,
    {
        let mut messages: Vec<StoredMessage> = Vec::new();
        let mut i: usize = 0;
        while i < self.log.len()
            invariant
                i <= self.log@.len(),
                log_view(messages@) == log_view(self.log@).take(i as int),
            decreases self.log@.len() - i,
        {
            messages.push(self.log[i].duplicate());
            proof {
                assert(log_view(self.log@).take(i + 1) =~= log_view(self.log@).take(
                    i as int,
                ).push(self.log@[i as int]@));
                assert(log_view(messages@) =~= log_view(self.log@).take(i + 1));
            }
            i += 1;
        }
        proof {
            assert(log_view(self.log@).take(self.log@.len() as int) =~= log_view(self.log@));
        }
        BusSubscription { messages, cursor: 0 }
    }
}

impl BusSubscription {
    /// Access to the next message for the consumer: deliveries whose payload
    /// does not decode are skipped without ending the subscription, and the
    /// values handed out come in exactly log order — the head of what
    /// remained is yielded, and only what followed it remains.
    pub fn next(&mut self) -> (r: Option<EventMessage>)
        ensures
            final(self).messages@ == old(self).messages@,
            (match r {
                Some(m) => {
                    &&& decoded_from(log_view(old(self).messages@), old(self).cursor as int)
                        == seq![m@] + decoded_from(
                        log_view(final(self).messages@),
                        final(self).cursor as int,
                    )
                    &&& m@.printable_ascii()
                },
                None => {
                    &&& decoded_from(log_view(old(self).messages@), old(self).cursor as int)
                        == Seq::<EventModel>::empty()
                    &&& decoded_from(log_view(final(self).messages@), final(self).cursor as int)
                        == Seq::<EventModel>::empty()
                },
            }),
    {
        loop
            invariant
                self.messages@ == old(self).messages@,
                old(self).cursor <= self.cursor,
                decoded_from(log_view(old(self).messages@), old(self).cursor as int)
                    == decoded_from(log_view(self.messages@), self.cursor as int),
            decreases self.messages@.len() - self.cursor,
        {
            if self.cursor >= self.messages.len() {
                return None;
            }
            let decoded = decode_event(&self.messages[self.cursor].payload);
            self.cursor = self.cursor + 1;
            if let Some(m) = decoded {
                return Some(m);
            }
        }
    }
}

/// First-in, first-out delivery: when the stored log holds the encodings of
/// a sequence of published events, a subscription replaying it hands out
/// exactly those events, in exactly the order they were stored.
pub proof fn lemma_fifo_delivery(msgs: Seq<StoredModel>, published: Seq<EventModel>)
    requires
        msgs.len() == published.len(),
        forall|i: int|
            0 <= i < msgs.len() ==> (#[trigger] msgs[i]).payload == spec_encode(published[i]),
        forall|i: int| 0 <= i < published.len() ==> (#[trigger] published[i]).printable_ascii(),
    ensures
        decoded_from(msgs, 0) == published,
{
    lemma_fifo_delivery_from(msgs, published, 0);
    assert(published.skip(0) =~= published);
}

/// The inductive core of `lemma_fifo_delivery`: from any cursor on, what
/// remains to be delivered is what remains of the published sequence.
#[verifier::rlimit(60)]
proof fn lemma_fifo_delivery_from(msgs: Seq<StoredModel>, published: Seq<EventModel>, k: int)
    requires
        0 <= k <= msgs.len(),
        msgs.len() == published.len(),
        forall|i: int|
            0 <= i < msgs.len() ==> (#[trigger] msgs[i]).payload == spec_encode(published[i]),
        forall|i: int| 0 <= i < published.len() ==> (#[trigger] published[i]).printable_ascii(),
    ensures
        decoded_from(msgs, k) == published.skip(k),
    decreases msgs.len() - k,
{
    if k == msgs.len() {
        assert(published.skip(k) =~= Seq::<EventModel>::empty());
    } else {
        crate::codec::lemma_encode_parse_round_trip(published[k]);
        lemma_fifo_delivery_from(msgs, published, k + 1);
        assert(seq![published[k]] + published.skip(k + 1) =~= published.skip(k));
    }
}

} // verus!
