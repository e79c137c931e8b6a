//! The entry point of the library: records usage, pre-aggregates it and
//! flushes it through a message sink once a bucket is due.
use crate::accumulator::{
    bucket_start, AccumulatorView, DEFAULT_GRANULARITY_SECS, UsageAccumulator, UsageKeyView, UsageUnit,
};
use crate::message::{encode_message, message_text};
use crate::producer::{ClientError, Producer, SendRecord};
use vstd::prelude::*;
use vstd::utf8::encode_utf8;

verus! {

/// The topic that messages go to where none is given.
pub const DEFAULT_TOPIC_NAME: &'static str = "shared-resources-usage";

/// A bound, in seconds after the epoch, on the times that chrono
/// represents.
pub const TIME_BOUND_SECS: i64 = 10_000_000_000_000;

/// Relies on chrono's `Utc::now` and `DateTime::timestamp`: the current
/// time in unix seconds. `Utc::now` measures the system time from the epoch
/// (it panics on a clock set before 1970), and chrono represents no year
/// after 262142, which keeps the value under `TIME_BOUND_SECS`.
#[verifier::external_body]
fn current_unix_time() -> (r: i64)
    ensures
        0 <= r <= TIME_BOUND_SECS,
{
    chrono::Utc::now().timestamp()
}

/// The messages sent for a batch, in its order: each goes to `topic`, with
/// the UTF-8 text of the bucket's message as payload.
pub open spec fn batch_messages(topic: Seq<char>, entries: Seq<(UsageKeyView, u64)>) -> Seq<
    (Seq<char>, Seq<u8>),
> {
    entries.map_values(|e: (UsageKeyView, u64)| (topic, encode_utf8(message_text(e.0, e.1))))
}

/// The messages, each as a call that the sink accepted.
pub open spec fn accepted_calls(msgs: Seq<(Seq<char>, Seq<u8>)>) -> Seq<SendRecord> {
    msgs.map_values(|m: (Seq<char>, Seq<u8>)| (m.0, m.1, true))
}

/// The calls that a flush of the batch `entries` to `topic` makes on the
/// sink, from its calls `before` to its calls `after`, with result `r`: one call
/// per bucket in the batch's order while the sink accepts; the first call
/// that fails is the last one, and its error is the result.
pub open spec fn flush_outcome(
    topic: Seq<char>,
    entries: Seq<(UsageKeyView, u64)>,
    before: Seq<SendRecord>,
    after: Seq<SendRecord>,
    r: Result<(), ClientError>,
) -> bool {
    let sent = batch_messages(topic, entries);
    &&& r is Ok ==> after == before + accepted_calls(sent)
    &&& r is Err ==> exists|k: int|
        0 <= k < sent.len() && after == before + accepted_calls(sent.take(k)).push(
            (sent[k].0, sent[k].1, false),
        )
}

/// Flushing an empty batch sends nothing and does not fail; so does
/// flushing a freshly created accountant, whose batch is empty.
pub proof fn lemma_empty_flush_is_noop(
    topic: Seq<char>,
    before: Seq<SendRecord>,
    after: Seq<SendRecord>,
    r: Result<(), ClientError>,
)
    requires
        flush_outcome(topic, Seq::empty(), before, after, r),
    ensures
        r is Ok,
        after == before,
{
    let sent = batch_messages(topic, Seq::empty());
    assert(accepted_calls(sent) =~= Seq::empty());
    assert(before + accepted_calls(sent) =~= before);
}

/// A flush through a sink that has refused no call (such as the in-memory
/// sink) succeeds and hands over every message of the batch, in order.
pub proof fn lemma_flush_through_accepting_sink(
    topic: Seq<char>,
    entries: Seq<(UsageKeyView, u64)>,
    before: Seq<SendRecord>,
    after: Seq<SendRecord>,
    r: Result<(), ClientError>,
)
    requires
        flush_outcome(topic, entries, before, after, r),
        forall|i: int| 0 <= i < after.len() ==> #[trigger] after[i].2,
    ensures
        r is Ok,
        after == before + accepted_calls(batch_messages(topic, entries)),
{
    if r is Err {
        let sent = batch_messages(topic, entries);
        let k = choose|k: int|
            0 <= k < sent.len() && after == before + accepted_calls(sent.take(k)).push(
                (sent[k].0, sent[k].1, false),
            );
        assert(after[after.len() - 1].2 == false);
    }
}

/// Two flushes in a row: the first makes at least one call on the sink
/// where there was data, and leaves the accumulator empty; the second finds
/// nothing, makes no call and succeeds.
pub proof fn lemma_flush_twice(
    usage: AccumulatorView,
    topic: Seq<char>,
    log0: Seq<SendRecord>,
    log1: Seq<SendRecord>,
    log2: Seq<SendRecord>,
    r1: Result<(), ClientError>,
    r2: Result<(), ClientError>,
)
    requires
        flush_outcome(topic, usage.entries, log0, log1, r1),
        flush_outcome(topic, usage.drained().entries, log1, log2, r2),
    ensures
        usage.entries.len() > 0 ==> log1.len() > log0.len(),
        usage.drained().entries.len() == 0,
        r2 is Ok,
        log2 == log1,
{
    lemma_empty_flush_is_noop(topic, log1, log2, r2);
    let sent = batch_messages(topic, usage.entries);
    if r1 is Err {
        let k = choose|k: int|
            0 <= k < sent.len() && log1 == log0 + accepted_calls(sent.take(k)).push(
                (sent[k].0, sent[k].1, false),
            );
        assert(log1.len() == log0.len() + k + 1);
    }
}

/// Records usage of shared resources per feature, pre-aggregates it in
/// time buckets and sends one message per bucket to a sink.
///
/// Aggregating locally keeps the number of messages low, so an accountant
/// is meant to be created once per process (or per thread) and kept.
pub struct UsageAccountant<P: Producer> {
    accumulator: UsageAccumulator,
    producer: P,
    topic: String,
}

impl<P: Producer> UsageAccountant<P> {
    /// The state of the accumulator.
    pub closed spec fn usage(&self) -> AccumulatorView {
        self.accumulator@
    }

    /// The sink.
    pub closed spec fn sink(&self) -> P {
        self.producer
    }

    /// The topic that messages go to.
    pub closed spec fn topic_name(&self) -> Seq<char> {
        self.topic@
    }

    /// The accumulator is well formed.
    pub closed spec fn wf(&self) -> bool {
        self.accumulator.wf()
    }

    /// What a record at `t` leads to, from `pre` to `post` with result `r`:
    /// the usage is recorded; where the batch is then due it is flushed,
    /// else nothing is sent.
    pub open spec fn record_outcome(
        pre: Self,
        post: Self,
        t: i64,
        resource_id: Seq<char>,
        app_feature: Seq<char>,
        amount: u64,
        unit: UsageUnit,
        r: Result<(), ClientError>,
    ) -> bool {
        let s = pre.usage().recorded(t, resource_id, app_feature, amount, unit);
        &&& post.topic_name() == pre.topic_name()
        &&& if s.flush_due(t) {
            &&& post.usage() == s.drained()
            &&& flush_outcome(
                pre.topic_name(),
                s.entries,
                pre.sink().calls(),
                post.sink().calls(),
                r,
            )
        } else {
            &&& post.usage() == s
            &&& post.sink() == pre.sink()
            &&& r is Ok
        }
    }

    /// Creates an accountant that sends through `producer` to `topic_name`
    /// (`DEFAULT_TOPIC_NAME` where none is given), with buckets
    /// `granularity` seconds wide (one minute where none is given).
    pub fn new(producer: P, topic_name: Option<&str>, granularity: Option<u32>) -> (r: Self)
        requires
            granularity != Some(0u32),
        ensures
            r.wf(),
            r.usage() == AccumulatorView::empty(
                match granularity {
                    Some(g) => g,
                    None => DEFAULT_GRANULARITY_SECS,
                },
            ),
            r.sink() == producer,
            r.topic_name() == match topic_name {
                Some(t) => t@,
                None => DEFAULT_TOPIC_NAME@,
            },
    {
        let topic = match topic_name {
            Some(t) => t.to_owned(),
            None => DEFAULT_TOPIC_NAME.to_owned(),
        };
        UsageAccountant {
            accumulator: UsageAccumulator::new(granularity),
            producer,
            topic,
        }
    }

    /// The sink that messages go through.
    pub fn producer(&self) -> (r: &P)
        ensures
            *r == self.sink(),
    {
        &self.producer
    }

    /// Records `amount` for `resource_id`, `app_feature` and `unit` at
    /// `usage_time` (unix seconds), then flushes if the batch is due at
    /// that time. Fails only where that flush fails.
    pub fn record_at(
        &mut self,
        usage_time: i64,
        resource_id: &str,
        app_feature: &str,
        amount: u64,
        unit: UsageUnit,
    ) -> (r: Result<(), ClientError>)
        requires
            old(self).wf(),
            bucket_start(usage_time as int, old(self).usage().granularity as int) >= i64::MIN,
        ensures
            final(self).wf(),
            Self::record_outcome(
                *old(self),
                *final(self),
                usage_time,
                resource_id@,
                app_feature@,
                amount,
                unit,
                r,
            ),
    {
        self.accumulator.record(usage_time, resource_id, app_feature, amount, unit);
        if self.accumulator.should_flush(usage_time) {
            self.flush()
        } else {
            Ok(())
        }
    }

    /// Records `amount` for `resource_id`, `app_feature` and `unit` at the
    /// current system time, then flushes if the batch is due. Fails only
    /// where that flush fails.
    pub fn record(&mut self, resource_id: &str, app_feature: &str, amount: u64, unit: UsageUnit) -> (r:
        Result<(), ClientError>)
        requires
            old(self).wf(),
        ensures
            final(self).wf(),
            exists|t: i64|
                0 <= t <= TIME_BOUND_SECS && Self::record_outcome(
                    *old(self),
                    *final(self),
                    t,
                    resource_id@,
                    app_feature@,
                    amount,
                    unit,
                    r,
                ),
    {
        let now = current_unix_time();
        proof {
            let g = self.usage().granularity as int;
            assert(0 <= (now as int) % g < g);
        }
        self.record_at(now, resource_id, app_feature, amount, unit)
    }

    /// Sends the current batch, one message per bucket in the batch's order,
    /// and stops at the first send that fails, returning its error. The
    /// batch leaves the accumulator before the first send: what a failure
    /// leaves unsent is dropped.
    pub fn flush(&mut self) -> (r: Result<(), ClientError>)
        requires
            old(self).wf(),
        ensures
            final(self).wf(),
            final(self).usage() == old(self).usage().drained(),
            final(self).topic_name() == old(self).topic_name(),
            flush_outcome(
                old(self).topic_name(),
                old(self).usage().entries,
                old(self).sink().calls(),
                final(self).sink().calls(),
                r,
            ),
    {
        let batch = self.accumulator.flush();
        let ghost sent = batch_messages(self.topic@, old(self).usage().entries);
        let ghost before = self.producer.calls();
        let mut i: usize = 0;
        while i < batch.len()
            invariant
                i <= batch.len(),
                sent.len() == batch.len(),
                crate::accumulator::batch_view(batch@) == old(self).usage().entries,
                sent == batch_messages(self.topic@, old(self).usage().entries),
                self.topic@ == old(self).topic@,
                self.accumulator.wf(),
                self.accumulator@ == old(self).usage().drained(),
                before == old(self).producer.calls(),
                self.producer.calls() == before + accepted_calls(sent.take(i as int)),
            decreases batch.len() - i,
        {
            let msg = encode_message(&batch[i].0, batch[i].1);
            let payload = msg.as_str().as_bytes();
            let res = self.producer.send(self.topic.as_str(), payload);
            assert(sent[i as int] == (self.topic@, encode_utf8(msg@)));
            match res {
                Ok(()) => {
                    assert(accepted_calls(sent.take(i + 1)) =~= accepted_calls(
                        sent.take(i as int),
                    ).push((sent[i as int].0, sent[i as int].1, true)));
                },
                Err(e) => {
                    return Err(e);
                },
            }
            i = i + 1;
        }
        assert(sent.take(i as int) =~= sent);
        Ok(())
    }
}

} // verus!
