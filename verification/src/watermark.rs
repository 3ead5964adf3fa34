//! Event-time extraction and watermark generation with bounded
//! out-of-orderness: the watermark trails the largest timestamp seen by a
//! fixed delay and never decreases.
use vstd::prelude::*;
use crate::element::Record;
use crate::values::{buf_read_u64, column_u64, row_covers};

verus! {

/// Reads the event timestamp from a `u64` column of the record's row.
#[derive(Clone, Debug)]
pub struct SchemaBaseTimestampAssigner {
    pub field_types: Vec<u8>,
    pub column: usize,
}

impl SchemaBaseTimestampAssigner {
    pub fn new(column: usize, field_types: &[u8]) -> (r: SchemaBaseTimestampAssigner)
        ensures
            r.column == column,
            r.field_types@ == field_types@,
    {
        let mut types: Vec<u8> = Vec::new();
        let mut i: usize = 0;
        while i < field_types.len()
            invariant
                i <= field_types@.len(),
                types@ == field_types@.take(i as int),
            decreases field_types@.len() - i,
        {
            types.push(field_types[i]);
            proof {
                assert(types@ =~= field_types@.take(i + 1));
            }
            i += 1;
        }
        proof {
            assert(types@ =~= field_types@);
        }
        SchemaBaseTimestampAssigner { column, field_types: types }
    }

    /// The timestamp of the row: the `u64` column at the configured ordinal.
    pub fn extract_timestamp(&self, row: &mut Record, _previous_element_timestamp: u64) -> (r: u64)
        requires
            self.column < self.field_types@.len(),
            row_covers(old(row).data(), self.field_types@),
            column_u64(old(row).data(), self.field_types@, self.column as int) is Some,
        ensures
            Some(r) == column_u64(old(row).data(), self.field_types@, self.column as int),
            *final(row) == *old(row),
    {
        let buffer = row.as_buffer();
        let value = buf_read_u64(buffer, self.field_types.as_slice(), self.column);
        match value {
            Some(ts) => ts,
            None => vstd::pervasive::unreached(),
        }
    }

    /// Reads the timestamp column when the row carries one: `None` when
    /// the ordinal is outside the schema or the column is not a `u64`,
    /// the row untouched either way.
    pub fn try_extract_timestamp(&self, row: &mut Record, _previous_element_timestamp: u64) -> (r: Option<u64>)
        requires
            row_covers(old(row).data(), self.field_types@),
        ensures
            *final(row) == *old(row),
            self.column < self.field_types@.len() ==> r == column_u64(
                old(row).data(),
                self.field_types@,
                self.column as int,
            ),
            self.column >= self.field_types@.len() ==> r is None,
    {
        if self.column >= self.field_types.len() {
            return None;
        }
        buf_read_u64(row.as_buffer(), self.field_types.as_slice(), self.column)
    }

    pub fn get_name(&self) -> (r: &'static str)
        ensures
            r@ == "SchemaBaseTimestampAssigner"@,
    {
        "SchemaBaseTimestampAssigner"
    }
}

/// The watermark a bounded-out-of-orderness assigner holds once it has seen
/// a largest timestamp `max_timestamp` with delay `delay`: `max - delay`,
/// and 0 while nothing later than the delay has been seen.
pub open spec fn bounded_watermark(max_timestamp: u64, delay: u64) -> u64 {
    if max_timestamp > delay {
        (max_timestamp - delay) as u64
    } else {
        0
    }
}

/// The largest timestamp after folding `inputs` over an initial maximum.
pub open spec fn max_timestamp_after(initial: u64, inputs: Seq<u64>) -> u64
    decreases inputs.len(),
{
    if inputs.len() == 0 {
        initial
    } else {
        let prev = max_timestamp_after(initial, inputs.drop_last());
        if inputs.last() > prev {
            inputs.last()
        } else {
            prev
        }
    }
}

/// Emits watermarks `max_timestamp_seen - delay`, monotone by construction.
#[derive(Clone, Debug)]
pub struct BoundedOutOfOrdernessTimestampExtractor {
    pub max_timestamp_seen: u64,
    pub delay: u64,
}

impl BoundedOutOfOrdernessTimestampExtractor {
    /// The watermark the assigner would emit now.
    pub open spec fn watermark_spec(self) -> u64 {
        bounded_watermark(self.max_timestamp_seen, self.delay)
    }

    pub fn new(delay: u64) -> (r: BoundedOutOfOrdernessTimestampExtractor)
        ensures
            r.max_timestamp_seen == 0,
            r.delay == delay,
    {
        BoundedOutOfOrdernessTimestampExtractor { max_timestamp_seen: 0, delay }
    }

    /// Records one event timestamp. The watermark never decreases.
    pub fn observe_timestamp(&mut self, timestamp: u64)
        ensures
            final(self).delay == old(self).delay,
            final(self).max_timestamp_seen == (if timestamp > old(self).max_timestamp_seen {
                timestamp
            } else {
                old(self).max_timestamp_seen
            }),
            final(self).watermark_spec() >= old(self).watermark_spec(),
    {
        if timestamp > self.max_timestamp_seen {
            self.max_timestamp_seen = timestamp;
        }
    }

    /// The current watermark; `None` while no event has outrun the delay.
    pub fn current_watermark(&self) -> (r: Option<u64>)
        ensures
            r == (if self.watermark_spec() > 0 {
                Some(self.watermark_spec())
            } else {
                None::<u64>
            }),
    {
        if self.max_timestamp_seen > self.delay {
            Some(self.max_timestamp_seen - self.delay)
        } else {
            None
        }
    }
}

proof fn lemma_max_timestamp_grows(initial: u64, inputs: Seq<u64>, i: int)
    requires
        0 <= i <= inputs.len(),
    ensures
        max_timestamp_after(initial, inputs.take(i)) <= max_timestamp_after(initial, inputs),
    decreases inputs.len(),
{
    if i < inputs.len() {
        lemma_max_timestamp_grows(initial, inputs.drop_last(), i);
        assert(inputs.drop_last().take(i) =~= inputs.take(i));
    } else {
        assert(inputs.take(i) =~= inputs);
    }
}

/// Every watermark the assigner emits is at least every earlier one: after
/// any prefix of the inputs, the watermark is no later than after the whole
/// sequence, whatever order the timestamps arrive in.
pub proof fn lemma_watermark_monotone(initial: u64, delay: u64, inputs: Seq<u64>, i: int, j: int)
    requires
        0 <= i <= j <= inputs.len(),
    ensures
        bounded_watermark(max_timestamp_after(initial, inputs.take(i)), delay)
            <= bounded_watermark(max_timestamp_after(initial, inputs.take(j)), delay),
{
    lemma_max_timestamp_grows(initial, inputs.take(j), i);
    assert(inputs.take(j).take(i) =~= inputs.take(i));
}

} // verus!
