//! Local pre-aggregation of usage data.
//!
//! Usage is recorded against a time that is first truncated to the start of
//! its bucket (a multiple of the granularity, in seconds). Records that fall
//! in the same bucket for the same resource, feature and unit are merged.
use vstd::prelude::*;

verus! {

/// Granularity used when none is given: one minute.
pub const DEFAULT_GRANULARITY_SECS: u32 = 60;

/// The unit of measure of a recorded amount.
#[derive(Clone, Copy, Debug, PartialEq, Eq, Hash, Structural)]
pub enum UsageUnit {
    Milliseconds,
    Bytes,
    BytesPerSecond,
}

impl UsageUnit {
    /// The name of the unit on the wire.
    pub open spec fn wire_name(self) -> Seq<char> {
        match self {
            UsageUnit::Milliseconds => "milliseconds"@,
            UsageUnit::Bytes => "bytes"@,
            UsageUnit::BytesPerSecond => "bytes_sec"@,
        }
    }

    /// The name of the unit on the wire.
    pub fn name(&self) -> (r: &'static str)
        ensures
            r@ == self.wire_name(),
    {
        match self {
            UsageUnit::Milliseconds => "milliseconds",
            UsageUnit::Bytes => "bytes",
            UsageUnit::BytesPerSecond => "bytes_sec",
        }
    }
}

/// Start of the bucket of width `g` that holds the instant `t` (both in
/// seconds): `t` rounded down to a multiple of `g`.
pub open spec fn bucket_start(t: int, g: int) -> int {
    t - t % g
}

/// Identity of one aggregation bucket.
#[derive(Clone, Debug, Eq, Hash)]
pub struct UsageKey {
    /// Start of the bucket, in unix seconds.
    pub quantized_timestamp: i64,
    pub resource_id: String,
    pub app_feature: String,
    pub unit: UsageUnit,
}

/// What a `UsageKey` stands for.
pub ghost struct UsageKeyView {
    pub quantized_timestamp: i64,
    pub resource_id: Seq<char>,
    pub app_feature: Seq<char>,
    pub unit: UsageUnit,
}

impl View for UsageKey {
    type V = UsageKeyView;

    open spec fn view(&self) -> UsageKeyView {
        UsageKeyView {
            quantized_timestamp: self.quantized_timestamp,
            resource_id: self.resource_id@,
            app_feature: self.app_feature@,
            unit: self.unit,
        }
    }
}

impl PartialEq for UsageKey {
    fn eq(&self, other: &UsageKey) -> (r: bool) {
        self.quantized_timestamp == other.quantized_timestamp && self.unit == other.unit
            && self.resource_id == other.resource_id && self.app_feature == other.app_feature
    }
}

impl vstd::std_specs::cmp::PartialEqSpecImpl for UsageKey {
    open spec fn obeys_eq_spec() -> bool {
        true
    }

    open spec fn eq_spec(&self, other: &UsageKey) -> bool {
        self@ == other@
    }
}

/// The state of an accumulator: its buckets with their totals, in the order
/// in which they were first recorded, the granularity and the bucket of the
/// first record since the last flush.
pub ghost struct AccumulatorView {
    pub entries: Seq<(UsageKeyView, u64)>,
    pub granularity: u32,
    pub first_timestamp: Option<i64>,
}

/// The entries of a batch, as views.
pub open spec fn batch_view(b: Seq<(UsageKey, u64)>) -> Seq<(UsageKeyView, u64)> {
    b.map_values(|e: (UsageKey, u64)| (e.0@, e.1))
}

/// No key stands twice among the entries.
pub open spec fn keys_unique(entries: Seq<(UsageKeyView, u64)>) -> bool {
    forall|i: int, j: int|
        0 <= i < entries.len() && 0 <= j < entries.len() && i != j ==> entries[i].0
            != entries[j].0
}

/// The position of the entry for `k`, if there is one.
pub open spec fn has_key_at(entries: Seq<(UsageKeyView, u64)>, k: UsageKeyView, i: int) -> bool {
    0 <= i < entries.len() && entries[i].0 == k
}

/// Adds `amount` to a total; a total that would pass the largest `u64`
/// stays at it.
pub open spec fn add_capped(total: u64, amount: u64) -> u64 {
    if total + amount > u64::MAX {
        u64::MAX
    } else {
        (total + amount) as u64
    }
}

impl AccumulatorView {
    /// The accumulator as created: no entries, no first timestamp.
    pub open spec fn empty(granularity: u32) -> AccumulatorView {
        AccumulatorView { entries: Seq::empty(), granularity, first_timestamp: None }
    }

    /// The key that a record at `usage_time` goes to.
    pub open spec fn key_for(
        self,
        usage_time: i64,
        resource_id: Seq<char>,
        app_feature: Seq<char>,
        unit: UsageUnit,
    ) -> UsageKeyView {
        UsageKeyView {
            quantized_timestamp: bucket_start(usage_time as int, self.granularity as int) as i64,
            resource_id,
            app_feature,
            unit,
        }
    }

    /// The entries after adding `amount` under `k`: the existing entry grows,
    /// or a new one is appended.
    pub open spec fn entries_after_add(self, k: UsageKeyView, amount: u64) -> Seq<
        (UsageKeyView, u64),
    > {
        if exists|i: int| has_key_at(self.entries, k, i) {
            let i = choose|i: int| has_key_at(self.entries, k, i);
            self.entries.update(i, (k, add_capped(self.entries[i].1, amount)))
        } else {
            self.entries.push((k, amount))
        }
    }

    /// The state after recording `amount` at `usage_time`.
    pub open spec fn recorded(
        self,
        usage_time: i64,
        resource_id: Seq<char>,
        app_feature: Seq<char>,
        amount: u64,
        unit: UsageUnit,
    ) -> AccumulatorView {
        let k = self.key_for(usage_time, resource_id, app_feature, unit);
        AccumulatorView {
            entries: self.entries_after_add(k, amount),
            granularity: self.granularity,
            first_timestamp: if self.first_timestamp is None {
                Some(k.quantized_timestamp)
            } else {
                self.first_timestamp
            },
        }
    }

    /// Whether the batch is due at `current_time`: it holds data and more
    /// than one granularity has passed since the bucket of its first record.
    pub open spec fn flush_due(self, current_time: i64) -> bool {
        &&& self.entries.len() > 0
        &&& self.first_timestamp is Some
        &&& current_time - self.first_timestamp->0 > self.granularity
    }

    /// The state after a flush: no entries and no first timestamp.
    pub open spec fn drained(self) -> AccumulatorView {
        AccumulatorView::empty(self.granularity)
    }
}

/// Rounds `t` down to a multiple of `g`.
fn quantize(t: i64, g: u32) -> (r: i64)
    requires
        g > 0,
        bucket_start(t as int, g as int) >= i64::MIN,
    ensures
        r == bucket_start(t as int, g as int),
{
    match t.checked_rem_euclid(g as i64) {
        Some(m) => t - m,
        None => t,
    }
}

/// Accumulates usage per bucket until it is flushed.
pub struct UsageAccumulator {
    usage_batch: Vec<(UsageKey, u64)>,
    granularity: u32,
    first_timestamp: Option<i64>,
}

impl View for UsageAccumulator {
    type V = AccumulatorView;

    closed spec fn view(&self) -> AccumulatorView {
        AccumulatorView {
            entries: batch_view(self.usage_batch@),
            granularity: self.granularity,
            first_timestamp: self.first_timestamp,
        }
    }
}

impl UsageAccumulator {
    /// The granularity is positive, no key stands twice, and a first
    /// timestamp is set exactly when there is data.
    pub open spec fn wf(&self) -> bool {
        &&& self@.granularity > 0
        &&& keys_unique(self@.entries)
        &&& (self@.first_timestamp is None <==> self@.entries.len() == 0)
    }

    /// Creates an empty accumulator with buckets `granularity` seconds wide
    /// (one minute where none is given).
    pub fn new(granularity: Option<u32>) -> (r: UsageAccumulator)
        requires
            granularity != Some(0u32),
        ensures
            r.wf(),
            r@ == AccumulatorView::empty(
                match granularity {
                    Some(g) => g,
                    None => DEFAULT_GRANULARITY_SECS,
                },
            ),
    {
        let g = match granularity {
            Some(g) => g,
            None => DEFAULT_GRANULARITY_SECS,
        };
        let r = UsageAccumulator { usage_batch: Vec::new(), granularity: g, first_timestamp: None };
        assert(r@.entries =~= Seq::empty());
        r
    }

    /// Records `amount` for `resource_id`, `app_feature` and `usage_unit`
    /// at `usage_time` (unix seconds). The time is truncated to the start of
    /// its bucket; the amount is added to the bucket's total, or starts it.
    /// A total that would pass the largest `u64` stays at it.
    /// The first record after creation or after a flush sets the first
    /// timestamp, which later records leave alone.
    pub fn record(
        &mut self,
        usage_time: i64,
        resource_id: &str,
        app_feature: &str,
        amount: u64,
        usage_unit: UsageUnit,
    )
        requires
            old(self).wf(),
            bucket_start(usage_time as int, old(self)@.granularity as int) >= i64::MIN,
        ensures
            final(self).wf(),
            final(self)@ == old(self)@.recorded(
                usage_time,
                resource_id@,
                app_feature@,
                amount,
                usage_unit,
            ),
    {
        let quantized_timestamp = quantize(usage_time, self.granularity);
        if self.first_timestamp.is_none() {
            self.first_timestamp = Some(quantized_timestamp);
        }
        let key = UsageKey {
            quantized_timestamp,
            resource_id: resource_id.to_owned(),
            app_feature: app_feature.to_owned(),
            unit: usage_unit,
        };
        let ghost k = key@;
        let ghost pre = old(self)@;
        assert(k == pre.key_for(usage_time, resource_id@, app_feature@, usage_unit));
        let n = self.usage_batch.len();
        let mut i: usize = 0;
        while i < n
            invariant
                n == self.usage_batch.len(),
                i <= n,
                self.usage_batch@ == old(self).usage_batch@,
                self.granularity == old(self).granularity,
                self.first_timestamp == (if pre.first_timestamp is None {
                    Some(k.quantized_timestamp)
                } else {
                    pre.first_timestamp
                }),
                key@ == k,
                pre == old(self)@,
                pre.granularity > 0,
                k == pre.key_for(usage_time, resource_id@, app_feature@, usage_unit),
                keys_unique(pre.entries),
                forall|j: int| 0 <= j < i ==> self@.entries[j].0 != k,
            decreases n - i,
        {
            let same = self.usage_batch[i].0 == key;
            assert(self@.entries[i as int] == (self.usage_batch@[i as int].0@, self.usage_batch@[i as int].1));
            if same {
                assert(self.usage_batch@[i as int].0@ == k);
                let total = self.usage_batch[i].1.saturating_add(amount);
                proof {
                    assert(has_key_at(pre.entries, k, i as int));
                    let c = choose|c: int| has_key_at(pre.entries, k, c);
                    assert(c == i);
                }
                self.usage_batch.set(i, (key, total));
                assert(self@.entries =~= pre.entries.update(i as int, (k, total)));
                assert forall|x: int| 0 <= x < self@.entries.len() implies self@.entries[x].0
                    == pre.entries[x].0 by {}
                return;
            }
            i = i + 1;
        }
        assert(!exists|c: int| has_key_at(pre.entries, k, c));
        self.usage_batch.push((key, amount));
        assert(self@.entries =~= pre.entries.push((k, amount)));
    }

    /// Whether the batch is due: it holds data and more than one
    /// granularity has passed between the bucket of the first record and
    /// `current_time`.
    pub fn should_flush(&self, current_time: i64) -> (r: bool)
        requires
            self.wf(),
        ensures
            r == self@.flush_due(current_time),
    {
        match self.first_timestamp {
            Some(first) => self.usage_batch.len() > 0 && (current_time as i128) - (first as i128)
                > self.granularity as i128,
            None => false,
        }
    }

    /// Hands out the batch, each bucket with its total, and leaves the
    /// accumulator empty.
    pub fn flush(&mut self) -> (r: Vec<(UsageKey, u64)>)
        requires
            old(self).wf(),
        ensures
            final(self).wf(),
            final(self)@ == old(self)@.drained(),
            batch_view(r@) == old(self)@.entries,
    {
        self.first_timestamp = None;
        let mut batch: Vec<(UsageKey, u64)> = Vec::new();
        std::mem::swap(&mut batch, &mut self.usage_batch);
        assert(self@.entries =~= Seq::empty());
        batch
    }

    /// Width of the buckets, in seconds.
    pub fn granularity(&self) -> (r: u32)
        ensures
            r == self@.granularity,
    {
        self.granularity
    }

    /// Whether nothing was recorded since the last flush.
    pub fn is_empty(&self) -> (r: bool)
        ensures
            r == (self@.entries.len() == 0),
    {
        self.usage_batch.len() == 0
    }
}

} // verus!
