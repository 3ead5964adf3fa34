//! The element model: records, watermarks, stream status and checkpoint
//! barriers, with their self-describing binary framing.
//!
//! Each kind has a wire model (`RecordWire`, ...) of exactly the fields the
//! framing carries; `bytes()` gives its encoding, `parse_*` reads one back.
//! Fields that only live inside a process (a record's channel key and
//! windows) are not framed and come back at their defaults.
use vstd::prelude::*;
use bytes::BytesMut;
use serbuffer::Buffer;
use crate::codec::{be_bytes, from_be, lemma_be_bytes_len, lemma_be_round_trip, lemma_from_be_bound, pow256};
use crate::runtime_ids::{ChannelKey, CheckpointId};
use crate::values::{buf_as_reader, buf_as_slice, buf_as_writer, buf_clone, buf_eq, buf_extend, buf_from, buf_len, buf_new, buf_with_capacity, buffer_bytes, row_covers};
use crate::window::Window;
use crate::wire::{bm_as_slice, bm_first, bm_get_u16, bm_get_u32, bm_get_u64, bm_get_u8, bm_len, bm_put_slice, bm_put_u16, bm_put_u32, bm_put_u64, bm_put_u8, bm_split_to, bm_with_capacity, bytes_view};

verus! {

pub const RECORD_TAG: u8 = 1;
pub const WATERMARK_TAG: u8 = 2;
pub const STREAM_STATUS_TAG: u8 = 3;
pub const BARRIER_TAG: u8 = 4;

/// The framed fields of a record.
#[verifier::ext_equal]
pub ghost struct RecordWire {
    pub partition_num: u16,
    pub timestamp: u64,
    pub data: Seq<u8>,
}

/// The framed fields of a watermark.
#[verifier::ext_equal]
pub ghost struct WatermarkWire {
    pub partition_num: u16,
    pub task_number: u16,
    pub num_tasks: u16,
    pub status_timestamp: u64,
    pub timestamp: u64,
}

/// The framed fields of a stream status. Its partition number is not framed.
#[verifier::ext_equal]
pub ghost struct StreamStatusWire {
    pub timestamp: u64,
    pub end: bool,
}

/// The framed fields of a barrier.
#[verifier::ext_equal]
pub ghost struct BarrierWire {
    pub partition_num: u16,
    pub checkpoint_id: u64,
}

#[verifier::ext_equal]
pub ghost enum ElementWire {
    Record(RecordWire),
    Watermark(WatermarkWire),
    StreamStatus(StreamStatusWire),
    Barrier(BarrierWire),
}

impl RecordWire {
    /// tag, partition, timestamp, payload length, payload.
    pub open spec fn bytes(self) -> Seq<u8> {
        seq![RECORD_TAG] + be_bytes(self.partition_num as int, 2)
            + be_bytes(self.timestamp as int, 8) + be_bytes(self.data.len() as int, 4)
            + self.data
    }
}

impl WatermarkWire {
    /// tag, partition, task number, task count, status timestamp, timestamp.
    pub open spec fn bytes(self) -> Seq<u8> {
        seq![WATERMARK_TAG] + be_bytes(self.partition_num as int, 2)
            + be_bytes(self.task_number as int, 2) + be_bytes(self.num_tasks as int, 2)
            + be_bytes(self.status_timestamp as int, 8) + be_bytes(self.timestamp as int, 8)
    }
}

impl StreamStatusWire {
    /// tag, end flag, timestamp.
    pub open spec fn bytes(self) -> Seq<u8> {
        seq![STREAM_STATUS_TAG] + seq![if self.end { 1u8 } else { 0u8 }]
            + be_bytes(self.timestamp as int, 8)
    }
}

impl BarrierWire {
    /// tag, partition, checkpoint id.
    pub open spec fn bytes(self) -> Seq<u8> {
        seq![BARRIER_TAG] + be_bytes(self.partition_num as int, 2)
            + be_bytes(self.checkpoint_id as int, 8)
    }
}

impl ElementWire {
    pub open spec fn bytes(self) -> Seq<u8> {
        match self {
            ElementWire::Record(w) => w.bytes(),
            ElementWire::Watermark(w) => w.bytes(),
            ElementWire::StreamStatus(w) => w.bytes(),
            ElementWire::Barrier(w) => w.bytes(),
        }
    }
}

/// Reads one record from the front of `s`: the wire model and the number of
/// bytes consumed, or `None` when `s` does not start with a whole record.
pub open spec fn parse_record(s: Seq<u8>) -> Option<(RecordWire, int)> {
    if s.len() >= 15 && s[0] == RECORD_TAG {
        let n = from_be(s.subrange(11, 15));
        if s.len() >= 15 + n {
            Some(
                (
                    RecordWire {
                        partition_num: from_be(s.subrange(1, 3)) as u16,
                        timestamp: from_be(s.subrange(3, 11)) as u64,
                        data: s.subrange(15, 15 + n),
                    },
                    15 + n,
                ),
            )
        } else {
            None
        }
    } else {
        None
    }
}

/// Reads one watermark from the front of `s`.
pub open spec fn parse_watermark(s: Seq<u8>) -> Option<(WatermarkWire, int)> {
    if s.len() >= 23 && s[0] == WATERMARK_TAG {
        Some(
            (
                WatermarkWire {
                    partition_num: from_be(s.subrange(1, 3)) as u16,
                    task_number: from_be(s.subrange(3, 5)) as u16,
                    num_tasks: from_be(s.subrange(5, 7)) as u16,
                    status_timestamp: from_be(s.subrange(7, 15)) as u64,
                    timestamp: from_be(s.subrange(15, 23)) as u64,
                },
                23,
            ),
        )
    } else {
        None
    }
}

/// Reads one stream status from the front of `s`.
pub open spec fn parse_stream_status(s: Seq<u8>) -> Option<(StreamStatusWire, int)> {
    if s.len() >= 10 && s[0] == STREAM_STATUS_TAG {
        Some(
            (
                StreamStatusWire {
                    timestamp: from_be(s.subrange(2, 10)) as u64,
                    end: s[1] == 1,
                },
                10,
            ),
        )
    } else {
        None
    }
}

/// Reads one barrier from the front of `s`.
pub open spec fn parse_barrier(s: Seq<u8>) -> Option<(BarrierWire, int)> {
    if s.len() >= 11 && s[0] == BARRIER_TAG {
        Some(
            (
                BarrierWire {
                    partition_num: from_be(s.subrange(1, 3)) as u16,
                    checkpoint_id: from_be(s.subrange(3, 11)) as u64,
                },
                11,
            ),
        )
    } else {
        None
    }
}

/// Reads one element of any kind from the front of `s`, by its tag byte.
pub open spec fn parse_element(s: Seq<u8>) -> Option<(ElementWire, int)> {
    if s.len() < 1 {
        None
    } else if s[0] == RECORD_TAG {
        match parse_record(s) {
            Some((w, n)) => Some((ElementWire::Record(w), n)),
            None => None,
        }
    } else if s[0] == WATERMARK_TAG {
        match parse_watermark(s) {
            Some((w, n)) => Some((ElementWire::Watermark(w), n)),
            None => None,
        }
    } else if s[0] == STREAM_STATUS_TAG {
        match parse_stream_status(s) {
            Some((w, n)) => Some((ElementWire::StreamStatus(w), n)),
            None => None,
        }
    } else if s[0] == BARRIER_TAG {
        match parse_barrier(s) {
            Some((w, n)) => Some((ElementWire::Barrier(w), n)),
            None => None,
        }
    } else {
        None
    }
}

proof fn lemma_pow256_values()
    ensures
        pow256(2) == 0x10000,
        pow256(4) == 0x100000000,
        pow256(8) == 0x10000000000000000,
{
    assert(pow256(0) == 1);
    assert(pow256(1) == 256);
    assert(pow256(2) == 0x10000);
    assert(pow256(3) == 0x1000000);
    assert(pow256(4) == 0x100000000);
    assert(pow256(5) == 0x10000000000);
    assert(pow256(6) == 0x1000000000000);
    assert(pow256(7) == 0x100000000000000);
    assert(pow256(8) == 0x10000000000000000);
}

/// Decoding what a record encodes gives the record back, whatever follows it.
pub proof fn lemma_record_round_trip(w: RecordWire, rest: Seq<u8>)
    requires
        w.data.len() <= u32::MAX,
    ensures
        parse_record(w.bytes() + rest) == Some((w, w.bytes().len() as int)),
{
    let b = w.bytes();
    let s = b + rest;
    lemma_pow256_values();
    lemma_be_bytes_len(w.partition_num as int, 2);
    lemma_be_bytes_len(w.timestamp as int, 8);
    lemma_be_bytes_len(w.data.len() as int, 4);
    assert(b.len() == 15 + w.data.len());
    assert(s[0] == RECORD_TAG);
    assert(s.subrange(1, 3) =~= be_bytes(w.partition_num as int, 2));
    assert(s.subrange(3, 11) =~= be_bytes(w.timestamp as int, 8));
    assert(s.subrange(11, 15) =~= be_bytes(w.data.len() as int, 4));
    lemma_be_round_trip(w.partition_num as int, 2);
    lemma_be_round_trip(w.timestamp as int, 8);
    lemma_be_round_trip(w.data.len() as int, 4);
    let n = from_be(s.subrange(11, 15));
    assert(n == w.data.len());
    assert(s.subrange(15, 15 + n) =~= w.data);
    let parsed = (parse_record(s)->0).0;
    assert(parsed =~= w);
}

/// Decoding what a watermark encodes gives the watermark back.
pub proof fn lemma_watermark_round_trip(w: WatermarkWire, rest: Seq<u8>)
    ensures
        parse_watermark(w.bytes() + rest) == Some((w, 23int)),
{
    let b = w.bytes();
    let s = b + rest;
    lemma_pow256_values();
    lemma_be_bytes_len(w.partition_num as int, 2);
    lemma_be_bytes_len(w.task_number as int, 2);
    lemma_be_bytes_len(w.num_tasks as int, 2);
    lemma_be_bytes_len(w.status_timestamp as int, 8);
    lemma_be_bytes_len(w.timestamp as int, 8);
    assert(b.len() == 23);
    assert(s[0] == WATERMARK_TAG);
    assert(s.subrange(1, 3) =~= be_bytes(w.partition_num as int, 2));
    assert(s.subrange(3, 5) =~= be_bytes(w.task_number as int, 2));
    assert(s.subrange(5, 7) =~= be_bytes(w.num_tasks as int, 2));
    assert(s.subrange(7, 15) =~= be_bytes(w.status_timestamp as int, 8));
    assert(s.subrange(15, 23) =~= be_bytes(w.timestamp as int, 8));
    lemma_be_round_trip(w.partition_num as int, 2);
    lemma_be_round_trip(w.task_number as int, 2);
    lemma_be_round_trip(w.num_tasks as int, 2);
    lemma_be_round_trip(w.status_timestamp as int, 8);
    lemma_be_round_trip(w.timestamp as int, 8);
    let parsed = (parse_watermark(s)->0).0;
    assert(parsed =~= w);
}

/// Decoding what a stream status encodes gives the status back.
pub proof fn lemma_stream_status_round_trip(w: StreamStatusWire, rest: Seq<u8>)
    ensures
        parse_stream_status(w.bytes() + rest) == Some((w, 10int)),
{
    let b = w.bytes();
    let s = b + rest;
    lemma_pow256_values();
    lemma_be_bytes_len(w.timestamp as int, 8);
    assert(b.len() == 10);
    assert(s[0] == STREAM_STATUS_TAG);
    assert(s[1] == if w.end { 1u8 } else { 0u8 });
    assert(s.subrange(2, 10) =~= be_bytes(w.timestamp as int, 8));
    lemma_be_round_trip(w.timestamp as int, 8);
    let parsed = (parse_stream_status(s)->0).0;
    assert(parsed =~= w);
}

/// Decoding what a barrier encodes gives the barrier back.
pub proof fn lemma_barrier_round_trip(w: BarrierWire, rest: Seq<u8>)
    ensures
        parse_barrier(w.bytes() + rest) == Some((w, 11int)),
{
    let b = w.bytes();
    let s = b + rest;
    lemma_pow256_values();
    lemma_be_bytes_len(w.partition_num as int, 2);
    lemma_be_bytes_len(w.checkpoint_id as int, 8);
    assert(b.len() == 11);
    assert(s[0] == BARRIER_TAG);
    assert(s.subrange(1, 3) =~= be_bytes(w.partition_num as int, 2));
    assert(s.subrange(3, 11) =~= be_bytes(w.checkpoint_id as int, 8));
    lemma_be_round_trip(w.partition_num as int, 2);
    lemma_be_round_trip(w.checkpoint_id as int, 8);
    let parsed = (parse_barrier(s)->0).0;
    assert(parsed =~= w);
}

/// Decoding what any element encodes gives the element back: the framing is
/// lossless on every framed field, whatever follows it on the stream.
pub proof fn lemma_element_round_trip(w: ElementWire, rest: Seq<u8>)
    requires
        w matches ElementWire::Record(r) ==> r.data.len() <= u32::MAX,
    ensures
        parse_element(w.bytes() + rest) == Some((w, w.bytes().len() as int)),
{
    match w {
        ElementWire::Record(r) => {
            lemma_record_round_trip(r, rest);
            lemma_be_bytes_len(r.partition_num as int, 2);
            lemma_be_bytes_len(r.timestamp as int, 8);
            lemma_be_bytes_len(r.data.len() as int, 4);
        },
        ElementWire::Watermark(x) => {
            lemma_watermark_round_trip(x, rest);
            lemma_be_bytes_len(x.partition_num as int, 2);
            lemma_be_bytes_len(x.task_number as int, 2);
            lemma_be_bytes_len(x.num_tasks as int, 2);
            lemma_be_bytes_len(x.status_timestamp as int, 8);
            lemma_be_bytes_len(x.timestamp as int, 8);
        },
        ElementWire::StreamStatus(x) => {
            lemma_stream_status_round_trip(x, rest);
            lemma_be_bytes_len(x.timestamp as int, 8);
        },
        ElementWire::Barrier(x) => {
            lemma_barrier_round_trip(x, rest);
            lemma_be_bytes_len(x.partition_num as int, 2);
            lemma_be_bytes_len(x.checkpoint_id as int, 8);
        },
    }
}

/// A data record: a schema-typed binary row with its routing and window
/// metadata. The channel key and windows are in-process metadata and are
/// not framed.
#[derive(Debug)]
pub struct Record {
    pub partition_num: u16,
    pub timestamp: u64,
    pub channel_key: ChannelKey,
    pub location_windows: Option<Vec<Window>>,
    pub trigger_window: Option<Window>,
    pub values: Buffer,
}

impl Record {
    /// The payload bytes.
    pub open spec fn data(self) -> Seq<u8> {
        buffer_bytes(self.values)
    }

    /// The framed fields.
    pub open spec fn wire(self) -> RecordWire {
        RecordWire {
            partition_num: self.partition_num,
            timestamp: self.timestamp,
            data: self.data(),
        }
    }

    pub fn new() -> (r: Record)
        ensures
            r.partition_num == 0,
            r.timestamp == 0,
            r.channel_key == ChannelKey::default_spec(),
            r.location_windows is None,
            r.trigger_window is None,
            r.data() == Seq::<u8>::empty(),
    {
        Record {
            partition_num: 0,
            timestamp: 0,
            channel_key: ChannelKey::default(),
            location_windows: None,
            trigger_window: None,
            values: buf_new(),
        }
    }

    pub fn with_capacity(capacity: usize) -> (r: Record)
        ensures
            r.partition_num == 0,
            r.timestamp == 0,
            r.channel_key == ChannelKey::default_spec(),
            r.location_windows is None,
            r.trigger_window is None,
            r.data() == Seq::<u8>::empty(),
    {
        Record {
            partition_num: 0,
            timestamp: 0,
            channel_key: ChannelKey::default(),
            location_windows: None,
            trigger_window: None,
            values: buf_with_capacity(capacity),
        }
    }

    pub fn get_arity(&self) -> (r: usize)
        ensures
            r == self.data().len(),
    {
        buf_len(&self.values)
    }

    /// Appends the other record's payload to this one's.
    pub fn extend(&mut self, record: Record) -> (r: Result<(), std::io::Error>)
        ensures
            r is Ok,
            final(self).data() == old(self).data() + record.data(),
            final(self).partition_num == old(self).partition_num,
            final(self).timestamp == old(self).timestamp,
            final(self).channel_key == old(self).channel_key,
            final(self).location_windows == old(self).location_windows,
            final(self).trigger_window == old(self).trigger_window,
    {
        buf_extend(&mut self.values, &record.values)
    }

    pub fn set_location_windows(&mut self, windows: Vec<Window>)
        ensures
            *final(self) == (Record { location_windows: Some(windows), ..*old(self) }),
    {
        self.location_windows = Some(windows);
    }

    /// The assigned windows, earliest first; empty when none were assigned.
    pub fn get_location_windows(&self) -> (r: Vec<Window>)
        ensures
            r@ == (match self.location_windows {
                Some(ws) => ws@,
                None => Seq::<Window>::empty(),
            }),
    {
        match &self.location_windows {
            Some(ws) => {
                let mut out: Vec<Window> = Vec::new();
                let mut i: usize = 0;
                while i < ws.len()
                    invariant
                        i <= ws.len(),
                        out@ == ws@.take(i as int),
                    decreases ws.len() - i,
                {
                    out.push(ws[i]);
                    proof {
                        assert(out@ =~= ws@.take(i as int + 1));
                    }
                    i += 1;
                }
                proof {
                    assert(out@ =~= ws@);
                }
                out
            },
            None => Vec::new(),
        }
    }

    pub fn get_min_location_windows(&self) -> (r: Option<Window>)
        ensures
            r == (match self.location_windows {
                Some(ws) => if ws@.len() > 0 {
                    Some(ws@[0])
                } else {
                    None::<Window>
                },
                None => None::<Window>,
            }),
    {
        match &self.location_windows {
            Some(ws) => if ws.len() > 0 {
                Some(ws[0])
            } else {
                None
            },
            None => None,
        }
    }

    pub fn get_max_location_windows(&self) -> (r: Option<Window>)
        ensures
            r == (match self.location_windows {
                Some(ws) => if ws@.len() > 0 {
                    Some(ws@.last())
                } else {
                    None::<Window>
                },
                None => None::<Window>,
            }),
    {
        match &self.location_windows {
            Some(ws) => if ws.len() > 0 {
                Some(ws[ws.len() - 1])
            } else {
                None
            },
            None => None,
        }
    }

    pub fn set_window_trigger(&mut self, window: Window)
        ensures
            *final(self) == (Record { trigger_window: Some(window), ..*old(self) }),
    {
        self.trigger_window = Some(window);
    }

    pub fn get_trigger_window(&self) -> (r: Option<Window>)
        ensures
            r == self.trigger_window,
    {
        self.trigger_window
    }

    /// Borrows the payload buffer for reading or writing columns.
    pub fn as_buffer(&mut self) -> (r: &mut Buffer)
        ensures
            *r == old(self).values,
            *final(self) == (Record { values: *final(r), ..*old(self) }),
    {
        &mut self.values
    }

    /// A typed column reader over the payload; the schema must cover it.
    pub fn get_reader<'a, 'b>(&'a mut self, data_types: &'b [u8]) -> serbuffer::BufferReader<'a, 'b>
        requires
            row_covers(old(self).data(), data_types@),
    {
        buf_as_reader(&mut self.values, data_types)
    }

    /// A typed column writer appending to the payload.
    pub fn get_writer<'a, 'b>(&'a mut self, data_types: &'b [u8]) -> serbuffer::BufferWriter<'a, 'b> {
        buf_as_writer(&mut self.values, data_types)
    }

    pub fn len(&self) -> (r: usize)
        ensures
            r == self.data().len(),
    {
        buf_len(&self.values)
    }

    pub fn get_partition(&self) -> (r: u16)
        ensures
            r == self.partition_num,
    {
        self.partition_num
    }

    /// The framed size: a 15-byte header and the payload.
    pub fn capacity(&self) -> (r: usize)
        requires
            self.data().len() + 15 <= usize::MAX,
        ensures
            r == self.data().len() + 15,
    {
        15 + buf_len(&self.values)
    }

    /// Appends this record's framing to `bytes`.
    pub fn serialize(&self, bytes: &mut BytesMut)
        requires
            self.data().len() <= u32::MAX,
        ensures
            bytes_view(*final(bytes)) == bytes_view(*old(bytes)) + self.wire().bytes(),
    {
        let value_len = buf_len(&self.values);
        bm_put_u8(bytes, RECORD_TAG);
        bm_put_u16(bytes, self.partition_num);
        bm_put_u64(bytes, self.timestamp);
        bm_put_u32(bytes, value_len as u32);
        bm_put_slice(bytes, buf_as_slice(&self.values));
        proof {
            assert(bytes_view(*bytes) =~= bytes_view(*old(bytes)) + self.wire().bytes());
        }
    }

    /// Reads one record from the front of `bytes`. The transient fields come
    /// back at their defaults.
    pub fn deserialize(bytes: &mut BytesMut) -> (r: Record)
        requires
            parse_record(bytes_view(*old(bytes))) is Some,
        ensures
            r.wire() == (parse_record(bytes_view(*old(bytes)))->0).0,
            r.channel_key == ChannelKey::default_spec(),
            r.location_windows is None,
            r.trigger_window is None,
            bytes_view(*final(bytes)) == bytes_view(*old(bytes)).skip(
                (parse_record(bytes_view(*old(bytes)))->0).1,
            ),
    {
        let ghost s = bytes_view(*bytes);
        proof {
            lemma_pow256_values();
            lemma_from_be_bound(s.subrange(1, 3));
            lemma_from_be_bound(s.subrange(3, 11));
            lemma_from_be_bound(s.subrange(11, 15));
        }
        let flag = bm_get_u8(bytes);
        proof {
            assert(bytes_view(*bytes) =~= s.skip(1));
            assert(s.skip(1).take(2) =~= s.subrange(1, 3));
        }
        let partition_num = bm_get_u16(bytes);
        proof {
            assert(bytes_view(*bytes) =~= s.skip(3));
            assert(s.skip(3).take(8) =~= s.subrange(3, 11));
        }
        let timestamp = bm_get_u64(bytes);
        proof {
            assert(bytes_view(*bytes) =~= s.skip(11));
            assert(s.skip(11).take(4) =~= s.subrange(11, 15));
        }
        let value_len32 = bm_get_u32(bytes);
        let value_len = value_len32 as usize;
        proof {
            assert(bytes_view(*bytes) =~= s.skip(15));
            assert(value_len as int == from_be(s.subrange(11, 15)));
        }
        let values = bm_split_to(bytes, value_len);
        proof {
            assert(bytes_view(values) =~= s.subrange(15, 15 + value_len as int));
            assert(bytes_view(*bytes) =~= s.skip(15 + value_len as int));
        }
        let r = Record {
            partition_num,
            timestamp,
            channel_key: ChannelKey::default(),
            location_windows: None,
            trigger_window: None,
            values: buf_from(values),
        };
        proof {
            assert(r.wire() =~= (parse_record(s)->0).0);
        }
        r
    }
}

impl PartialEq for Record {
    /// Records compare by their payload bytes alone.
    fn eq(&self, other: &Record) -> (r: bool) {
        buf_eq(&self.values, &other.values)
    }
}

impl Eq for Record {

}

impl vstd::std_specs::cmp::PartialEqSpecImpl for Record {
    open spec fn obeys_eq_spec() -> bool {
        true
    }

    open spec fn eq_spec(&self, other: &Record) -> bool {
        self.data() == other.data()
    }
}

impl Clone for Record {
    /// The copy carries the same framed fields and metadata.
    fn clone(&self) -> (r: Record)
        ensures
            r.wire() == self.wire(),
            r.channel_key == self.channel_key,
            r.trigger_window == self.trigger_window,
            (r.location_windows is Some) == (self.location_windows is Some),
            r.location_windows is Some ==> (r.location_windows->0)@ == (self.location_windows->0)@,
    {
        let windows = match &self.location_windows {
            Some(_) => Some(self.get_location_windows()),
            None => None,
        };
        Record {
            partition_num: self.partition_num,
            timestamp: self.timestamp,
            channel_key: self.channel_key,
            location_windows: windows,
            trigger_window: self.trigger_window,
            values: buf_clone(&self.values),
        }
    }
}

/// An event-time watermark, aligned across the upstream partitions.
/// The window fields are in-process metadata and are not framed.
#[derive(Clone, Debug, PartialEq, Eq, Hash)]
pub struct Watermark {
    pub partition_num: u16,
    pub task_number: u16,
    pub num_tasks: u16,
    pub status_timestamp: u64,
    pub timestamp: u64,
    pub location_windows: Option<Vec<Window>>,
    pub downstream: bool,
    pub drop_windows: Option<Vec<Window>>,
}

impl Watermark {
    /// The framed fields.
    pub open spec fn wire(self) -> WatermarkWire {
        WatermarkWire {
            partition_num: self.partition_num,
            task_number: self.task_number,
            num_tasks: self.num_tasks,
            status_timestamp: self.status_timestamp,
            timestamp: self.timestamp,
        }
    }

    pub fn new(task_number: u16, num_tasks: u16, timestamp: u64, stream_status: &StreamStatus) -> (r: Watermark)
        ensures
            r == (Watermark {
                partition_num: 0,
                task_number,
                num_tasks,
                status_timestamp: stream_status.timestamp,
                timestamp,
                location_windows: None::<Vec<Window>>,
                downstream: false,
                drop_windows: None::<Vec<Window>>,
            }),
    {
        Watermark {
            partition_num: 0,
            task_number,
            num_tasks,
            status_timestamp: stream_status.timestamp,
            timestamp,
            location_windows: None,
            downstream: false,
            drop_windows: None,
        }
    }

    pub fn set_location_windows(&mut self, windows: Vec<Window>)
        ensures
            *final(self) == (Watermark { location_windows: Some(windows), ..*old(self) }),
    {
        self.location_windows = Some(windows);
    }

    pub fn get_min_location_windows(&self) -> (r: Option<Window>)
        ensures
            r == (match self.location_windows {
                Some(ws) => if ws@.len() > 0 {
                    Some(ws@[0])
                } else {
                    None::<Window>
                },
                None => None::<Window>,
            }),
    {
        match &self.location_windows {
            Some(ws) => if ws.len() > 0 {
                Some(ws[0])
            } else {
                None
            },
            None => None,
        }
    }

    pub fn get_partition(&self) -> (r: u16)
        ensures
            r == self.partition_num,
    {
        self.partition_num
    }

    /// The framed size: always 23 bytes.
    pub fn capacity(&self) -> (r: usize)
        ensures
            r == 23,
    {
        23
    }

    /// Appends this watermark's framing to `bytes`.
    pub fn serialize(&self, bytes: &mut BytesMut)
        ensures
            bytes_view(*final(bytes)) == bytes_view(*old(bytes)) + self.wire().bytes(),
    {
        bm_put_u8(bytes, WATERMARK_TAG);
        bm_put_u16(bytes, self.partition_num);
        bm_put_u16(bytes, self.task_number);
        bm_put_u16(bytes, self.num_tasks);
        bm_put_u64(bytes, self.status_timestamp);
        bm_put_u64(bytes, self.timestamp);
        proof {
            assert(bytes_view(*bytes) =~= bytes_view(*old(bytes)) + self.wire().bytes());
        }
    }

    /// Reads one watermark from the front of `bytes`. The transient fields
    /// come back at their defaults.
    pub fn deserialize(bytes: &mut BytesMut) -> (r: Watermark)
        requires
            parse_watermark(bytes_view(*old(bytes))) is Some,
        ensures
            r.wire() == (parse_watermark(bytes_view(*old(bytes)))->0).0,
            r.location_windows is None,
            r.downstream == false,
            r.drop_windows is None,
            bytes_view(*final(bytes)) == bytes_view(*old(bytes)).skip(23),
    {
        let ghost s = bytes_view(*bytes);
        proof {
            lemma_pow256_values();
            lemma_from_be_bound(s.subrange(1, 3));
            lemma_from_be_bound(s.subrange(3, 5));
            lemma_from_be_bound(s.subrange(5, 7));
            lemma_from_be_bound(s.subrange(7, 15));
            lemma_from_be_bound(s.subrange(15, 23));
        }
        let flag = bm_get_u8(bytes);
        proof {
            assert(bytes_view(*bytes) =~= s.skip(1));
            assert(s.skip(1).take(2) =~= s.subrange(1, 3));
        }
        let partition_num = bm_get_u16(bytes);
        proof {
            assert(bytes_view(*bytes) =~= s.skip(3));
            assert(s.skip(3).take(2) =~= s.subrange(3, 5));
        }
        let task_number = bm_get_u16(bytes);
        proof {
            assert(bytes_view(*bytes) =~= s.skip(5));
            assert(s.skip(5).take(2) =~= s.subrange(5, 7));
        }
        let num_tasks = bm_get_u16(bytes);
        proof {
            assert(bytes_view(*bytes) =~= s.skip(7));
            assert(s.skip(7).take(8) =~= s.subrange(7, 15));
        }
        let status_timestamp = bm_get_u64(bytes);
        proof {
            assert(bytes_view(*bytes) =~= s.skip(15));
            assert(s.skip(15).take(8) =~= s.subrange(15, 23));
        }
        let timestamp = bm_get_u64(bytes);
        proof {
            assert(bytes_view(*bytes) =~= s.skip(23));
        }
        let r = Watermark {
            partition_num,
            task_number,
            num_tasks,
            status_timestamp,
            timestamp,
            location_windows: None,
            downstream: false,
            drop_windows: None,
        };
        proof {
            assert(r.wire() =~= (parse_watermark(s)->0).0);
        }
        r
    }
}

/// A liveness signal; `end` marks the end of the upstream's stream.
#[derive(Clone, Debug, PartialEq, Eq, Structural, Hash)]
pub struct StreamStatus {
    pub partition_num: u16,
    pub timestamp: u64,
    pub end: bool,
}

impl StreamStatus {
    /// The framed fields: the partition number is not framed.
    pub open spec fn wire(self) -> StreamStatusWire {
        StreamStatusWire { timestamp: self.timestamp, end: self.end }
    }

    pub fn new(timestamp: u64, end: bool) -> (r: StreamStatus)
        ensures
            r == (StreamStatus { partition_num: 0, timestamp, end }),
    {
        StreamStatus { partition_num: 0, timestamp, end }
    }

    pub fn get_partition(&self) -> (r: u16)
        ensures
            r == self.partition_num,
    {
        self.partition_num
    }

    /// The framed size: always 10 bytes.
    pub fn capacity(&self) -> (r: usize)
        ensures
            r == 10,
    {
        10
    }

    /// Appends this status's framing to `bytes`.
    pub fn serialize(&self, bytes: &mut BytesMut)
        ensures
            bytes_view(*final(bytes)) == bytes_view(*old(bytes)) + self.wire().bytes(),
    {
        let end: u8 = if self.end {
            1
        } else {
            0
        };
        bm_put_u8(bytes, STREAM_STATUS_TAG);
        bm_put_u8(bytes, end);
        bm_put_u64(bytes, self.timestamp);
        proof {
            assert(bytes_view(*bytes) =~= bytes_view(*old(bytes)) + self.wire().bytes());
        }
    }

    /// Reads one stream status from the front of `bytes`. Its partition
    /// number comes back 0.
    pub fn deserialize(bytes: &mut BytesMut) -> (r: StreamStatus)
        requires
            parse_stream_status(bytes_view(*old(bytes))) is Some,
        ensures
            r.wire() == (parse_stream_status(bytes_view(*old(bytes)))->0).0,
            r.partition_num == 0,
            bytes_view(*final(bytes)) == bytes_view(*old(bytes)).skip(10),
    {
        let ghost s = bytes_view(*bytes);
        proof {
            lemma_pow256_values();
            lemma_from_be_bound(s.subrange(2, 10));
        }
        let flag = bm_get_u8(bytes);
        proof {
            assert(bytes_view(*bytes) =~= s.skip(1));
        }
        let end = bm_get_u8(bytes);
        proof {
            assert(bytes_view(*bytes) =~= s.skip(2));
            assert(s.skip(2).take(8) =~= s.subrange(2, 10));
        }
        let timestamp = bm_get_u64(bytes);
        proof {
            assert(bytes_view(*bytes) =~= s.skip(10));
        }
        let r = StreamStatus { partition_num: 0, timestamp, end: end == 1 };
        proof {
            assert(r.wire() =~= (parse_stream_status(s)->0).0);
        }
        r
    }
}

/// An in-band checkpoint epoch marker.
#[derive(Clone, Debug, PartialEq, Eq, Structural, Hash)]
pub struct Barrier {
    pub partition_num: u16,
    pub checkpoint_id: CheckpointId,
}

impl Barrier {
    /// The framed fields.
    pub open spec fn wire(self) -> BarrierWire {
        BarrierWire { partition_num: self.partition_num, checkpoint_id: self.checkpoint_id.0 }
    }

    pub fn new(checkpoint_id: CheckpointId) -> (r: Barrier)
        ensures
            r == (Barrier { partition_num: 0, checkpoint_id }),
    {
        Barrier { partition_num: 0, checkpoint_id }
    }

    pub fn get_partition(&self) -> (r: u16)
        ensures
            r == self.partition_num,
    {
        self.partition_num
    }

    /// The framed size: always 11 bytes.
    pub fn capacity(&self) -> (r: usize)
        ensures
            r == 11,
    {
        11
    }

    /// Appends this barrier's framing to `bytes`.
    pub fn serialize(&self, bytes: &mut BytesMut)
        ensures
            bytes_view(*final(bytes)) == bytes_view(*old(bytes)) + self.wire().bytes(),
    {
        bm_put_u8(bytes, BARRIER_TAG);
        bm_put_u16(bytes, self.partition_num);
        bm_put_u64(bytes, self.checkpoint_id.0);
        proof {
            assert(bytes_view(*bytes) =~= bytes_view(*old(bytes)) + self.wire().bytes());
        }
    }

    /// Reads one barrier from the front of `bytes`.
    pub fn deserialize(bytes: &mut BytesMut) -> (r: Barrier)
        requires
            parse_barrier(bytes_view(*old(bytes))) is Some,
        ensures
            r.wire() == (parse_barrier(bytes_view(*old(bytes)))->0).0,
            bytes_view(*final(bytes)) == bytes_view(*old(bytes)).skip(11),
    {
        let ghost s = bytes_view(*bytes);
        proof {
            lemma_pow256_values();
            lemma_from_be_bound(s.subrange(1, 3));
            lemma_from_be_bound(s.subrange(3, 11));
        }
        let flag = bm_get_u8(bytes);
        proof {
            assert(bytes_view(*bytes) =~= s.skip(1));
            assert(s.skip(1).take(2) =~= s.subrange(1, 3));
        }
        let partition_num = bm_get_u16(bytes);
        proof {
            assert(bytes_view(*bytes) =~= s.skip(3));
            assert(s.skip(3).take(8) =~= s.subrange(3, 11));
        }
        let checkpoint_id = bm_get_u64(bytes);
        proof {
            assert(bytes_view(*bytes) =~= s.skip(11));
        }
        let r = Barrier { partition_num, checkpoint_id: CheckpointId(checkpoint_id) };
        proof {
            assert(r.wire() =~= (parse_barrier(s)->0).0);
        }
        r
    }
}

/// What flows on an edge: a record, a watermark, a stream status or a
/// checkpoint barrier, framed in-band in that order of tags.
#[derive(Clone, Debug)]
pub enum Element {
    Record(Record),
    Watermark(Watermark),
    StreamStatus(StreamStatus),
    Barrier(Barrier),
}

impl Element {
    /// The framed fields of this element.
    pub open spec fn wire(self) -> ElementWire {
        match self {
            Element::Record(r) => ElementWire::Record(r.wire()),
            Element::Watermark(w) => ElementWire::Watermark(w.wire()),
            Element::StreamStatus(s) => ElementWire::StreamStatus(s.wire()),
            Element::Barrier(b) => ElementWire::Barrier(b.wire()),
        }
    }

    /// Whether the payload length fits the 4-byte length field.
    pub open spec fn framable(self) -> bool {
        self matches Element::Record(r) ==> r.data().len() <= u32::MAX
    }

    pub fn new(_arity: usize) -> (r: Element)
        ensures
            r matches Element::Record(rec) && rec.data() == Seq::<u8>::empty(),
    {
        Element::Record(Record::new())
    }

    pub fn new_watermark(task_number: u16, num_tasks: u16, timestamp: u64, stream_status: &StreamStatus) -> (r: Element)
        ensures
            r == Element::Watermark(Watermark {
                partition_num: 0,
                task_number,
                num_tasks,
                status_timestamp: stream_status.timestamp,
                timestamp,
                location_windows: None::<Vec<Window>>,
                downstream: false,
                drop_windows: None::<Vec<Window>>,
            }),
    {
        Element::Watermark(Watermark::new(task_number, num_tasks, timestamp, stream_status))
    }

    pub fn new_stream_status(timestamp: u64, end: bool) -> (r: Element)
        ensures
            r == Element::StreamStatus(StreamStatus { partition_num: 0, timestamp, end }),
    {
        Element::StreamStatus(StreamStatus::new(timestamp, end))
    }

    pub fn new_barrier(checkpoint_id: CheckpointId) -> (r: Element)
        ensures
            r == Element::Barrier(Barrier { partition_num: 0, checkpoint_id }),
    {
        Element::Barrier(Barrier::new(checkpoint_id))
    }

    /// Whether this element is a record.
    pub fn is_record(&self) -> (r: bool)
        ensures
            r == (self is Record),
    {
        match self {
            Element::Record(_) => true,
            _ => false,
        }
    }

    pub fn as_record(&self) -> (r: &Record)
        requires
            self is Record,
        ensures
            *self == Element::Record(*r),
    {
        match self {
            Element::Record(record) => record,
            _ => vstd::pervasive::unreached(),
        }
    }

    pub fn into_record(self) -> (r: Record)
        requires
            self is Record,
        ensures
            self == Element::Record(r),
    {
        match self {
            Element::Record(record) => record,
            _ => vstd::pervasive::unreached(),
        }
    }

    pub fn as_record_mut(&mut self) -> (r: &mut Record)
        requires
            *old(self) is Record,
        ensures
            *old(self) == Element::Record(*r),
            *final(self) == Element::Record(*final(r)),
    {
        match self {
            Element::Record(record) => record,
            _ => vstd::pervasive::unreached(),
        }
    }

    /// Whether this element is a watermark.
    pub fn _is_watermark(&self) -> (r: bool)
        ensures
            r == (self is Watermark),
    {
        match self {
            Element::Watermark(_) => true,
            _ => false,
        }
    }

    pub fn as_watermark(&self) -> (r: &Watermark)
        requires
            self is Watermark,
        ensures
            *self == Element::Watermark(*r),
    {
        match self {
            Element::Watermark(watermark) => watermark,
            _ => vstd::pervasive::unreached(),
        }
    }

    pub fn _as_watermark_mut(&mut self) -> (r: &mut Watermark)
        requires
            *old(self) is Watermark,
        ensures
            *old(self) == Element::Watermark(*r),
            *final(self) == Element::Watermark(*final(r)),
    {
        match self {
            Element::Watermark(watermark) => watermark,
            _ => vstd::pervasive::unreached(),
        }
    }

    /// Whether this element is a stream status.
    pub fn is_stream_status(&self) -> (r: bool)
        ensures
            r == (self is StreamStatus),
    {
        match self {
            Element::StreamStatus(_) => true,
            _ => false,
        }
    }

    pub fn as_stream_status(&self) -> (r: &StreamStatus)
        requires
            self is StreamStatus,
        ensures
            *self == Element::StreamStatus(*r),
    {
        match self {
            Element::StreamStatus(stream_status) => stream_status,
            _ => vstd::pervasive::unreached(),
        }
    }

    /// Whether this element is a barrier.
    pub fn is_barrier(&self) -> (r: bool)
        ensures
            r == (self is Barrier),
    {
        match self {
            Element::Barrier(_) => true,
            _ => false,
        }
    }

    pub fn as_barrier(&self) -> (r: &Barrier)
        requires
            self is Barrier,
        ensures
            *self == Element::Barrier(*r),
    {
        match self {
            Element::Barrier(barrier) => barrier,
            _ => vstd::pervasive::unreached(),
        }
    }

    /// The partition the element is routed to.
    pub fn get_partition(&self) -> (r: u16)
        ensures
            r == (match *self {
                Element::Record(rec) => rec.partition_num,
                Element::Watermark(w) => w.partition_num,
                Element::StreamStatus(s) => s.partition_num,
                Element::Barrier(b) => b.partition_num,
            }),
    {
        match self {
            Element::Record(record) => record.get_partition(),
            Element::StreamStatus(stream_status) => stream_status.get_partition(),
            Element::Watermark(watermark) => watermark.get_partition(),
            Element::Barrier(barrier) => barrier.get_partition(),
        }
    }

    /// The framed size of this element.
    pub fn capacity(&self) -> (r: usize)
        requires
            self matches Element::Record(rec) ==> rec.data().len() + 15 <= usize::MAX,
        ensures
            r == self.wire().bytes().len(),
    {
        proof {
            match self {
                Element::Record(rec) => {
                    lemma_be_bytes_len(rec.partition_num as int, 2);
                    lemma_be_bytes_len(rec.timestamp as int, 8);
                    lemma_be_bytes_len(rec.data().len() as int, 4);
                },
                Element::Watermark(w) => {
                    lemma_be_bytes_len(w.partition_num as int, 2);
                    lemma_be_bytes_len(w.task_number as int, 2);
                    lemma_be_bytes_len(w.num_tasks as int, 2);
                    lemma_be_bytes_len(w.status_timestamp as int, 8);
                    lemma_be_bytes_len(w.timestamp as int, 8);
                },
                Element::StreamStatus(s) => {
                    lemma_be_bytes_len(s.timestamp as int, 8);
                },
                Element::Barrier(b) => {
                    lemma_be_bytes_len(b.partition_num as int, 2);
                    lemma_be_bytes_len(b.checkpoint_id.0 as int, 8);
                },
            }
        }
        match self {
            Element::Record(record) => record.capacity(),
            Element::Watermark(watermark) => watermark.capacity(),
            Element::StreamStatus(stream_status) => stream_status.capacity(),
            Element::Barrier(barrier) => barrier.capacity(),
        }
    }

    /// Appends this element's framing to `bytes`.
    pub fn serialize(&self, bytes: &mut BytesMut)
        requires
            self.framable(),
        ensures
            bytes_view(*final(bytes)) == bytes_view(*old(bytes)) + self.wire().bytes(),
    {
        match self {
            Element::Record(record) => record.serialize(bytes),
            Element::Watermark(watermark) => watermark.serialize(bytes),
            Element::StreamStatus(stream_status) => stream_status.serialize(bytes),
            Element::Barrier(barrier) => barrier.serialize(bytes),
        }
    }

    /// This element's framing in a fresh buffer.
    pub fn to_bytes(&self) -> (r: BytesMut)
        requires
            self.framable(),
            self matches Element::Record(rec) ==> rec.data().len() + 15 <= usize::MAX,
        ensures
            bytes_view(r) == self.wire().bytes(),
    {
        let mut data = bm_with_capacity(self.capacity());
        self.serialize(&mut data);
        proof {
            assert(bytes_view(data) =~= self.wire().bytes());
        }
        data
    }

    /// Appends this element's inter-process frame: a 4-byte big-endian
    /// length, then the element's framing.
    pub fn write_frame(&self, bytes: &mut BytesMut)
        requires
            self.framable(),
            self matches Element::Record(rec) ==> rec.data().len() + 15 <= u32::MAX,
        ensures
            bytes_view(*final(bytes)) == bytes_view(*old(bytes)) + be_bytes(
                self.wire().bytes().len() as int,
                4,
            ) + self.wire().bytes(),
    {
        proof {
            match self {
                Element::Record(rec) => {
                    lemma_be_bytes_len(rec.partition_num as int, 2);
                    lemma_be_bytes_len(rec.timestamp as int, 8);
                    lemma_be_bytes_len(rec.data().len() as int, 4);
                },
                Element::Watermark(w) => {
                    lemma_be_bytes_len(w.partition_num as int, 2);
                    lemma_be_bytes_len(w.task_number as int, 2);
                    lemma_be_bytes_len(w.num_tasks as int, 2);
                    lemma_be_bytes_len(w.status_timestamp as int, 8);
                    lemma_be_bytes_len(w.timestamp as int, 8);
                },
                Element::StreamStatus(st) => {
                    lemma_be_bytes_len(st.timestamp as int, 8);
                },
                Element::Barrier(b) => {
                    lemma_be_bytes_len(b.partition_num as int, 2);
                    lemma_be_bytes_len(b.checkpoint_id.0 as int, 8);
                },
            }
        }
        let body = self.to_bytes();
        let length = bm_len(&body);
        bm_put_u32(bytes, length as u32);
        bm_put_slice(bytes, bm_as_slice(&body));
        proof {
            assert(bytes_view(*bytes) =~= bytes_view(*old(bytes)) + be_bytes(
                self.wire().bytes().len() as int,
                4,
            ) + self.wire().bytes());
        }
    }

    /// Reads one inter-process frame from the front of `bytes`: the
    /// framed length, then exactly that many bytes of one element.
    pub fn read_frame(bytes: &mut BytesMut) -> (r: Element)
        requires
            bytes_view(*old(bytes)).len() >= 4,
            from_be(bytes_view(*old(bytes)).take(4)) + 4 <= bytes_view(*old(bytes)).len(),
            (parse_element(
                bytes_view(*old(bytes)).skip(4).take(from_be(bytes_view(*old(bytes)).take(4))),
            ) matches Some(p) && p.1 == from_be(bytes_view(*old(bytes)).take(4))),
        ensures
            Some((r.wire(), from_be(bytes_view(*old(bytes)).take(4)))) == parse_element(
                bytes_view(*old(bytes)).skip(4).take(from_be(bytes_view(*old(bytes)).take(4))),
            ),
            bytes_view(*final(bytes)) == bytes_view(*old(bytes)).skip(
                4 + from_be(bytes_view(*old(bytes)).take(4)),
            ),
    {
        let ghost s = bytes_view(*bytes);
        proof {
            lemma_pow256_values();
            lemma_from_be_bound(s.take(4));
        }
        let length32 = bm_get_u32(bytes);
        let length = length32 as usize;
        proof {
            assert(bytes_view(*bytes) =~= s.skip(4));
        }
        let mut body = bm_split_to(bytes, length);
        proof {
            assert(bytes_view(body) =~= s.skip(4).take(length as int));
            assert(bytes_view(*bytes) =~= s.skip(4 + length as int));
        }
        Element::deserialize(&mut body)
    }

    /// Reads one element from the front of `bytes`, by its tag byte.
    pub fn deserialize(bytes: &mut BytesMut) -> (r: Element)
        requires
            parse_element(bytes_view(*old(bytes))) is Some,
        ensures
            r.wire() == (parse_element(bytes_view(*old(bytes)))->0).0,
            bytes_view(*final(bytes)) == bytes_view(*old(bytes)).skip(
                (parse_element(bytes_view(*old(bytes)))->0).1,
            ),
    {
        let tag = bm_first(bytes);
        if tag == RECORD_TAG {
            Element::Record(Record::deserialize(bytes))
        } else if tag == WATERMARK_TAG {
            Element::Watermark(Watermark::deserialize(bytes))
        } else if tag == STREAM_STATUS_TAG {
            Element::StreamStatus(StreamStatus::deserialize(bytes))
        } else if tag == BARRIER_TAG {
            Element::Barrier(Barrier::deserialize(bytes))
        } else {
            vstd::pervasive::unreached()
        }
    }
}

impl From<Record> for Element {
    fn from(record: Record) -> (r: Element) {
        Element::Record(record)
    }
}

impl vstd::std_specs::convert::FromSpecImpl<Record> for Element {
    open spec fn obeys_from_spec() -> bool {
        true
    }

    open spec fn from_spec(record: Record) -> Element {
        Element::Record(record)
    }
}

impl From<Watermark> for Element {
    fn from(watermark: Watermark) -> (r: Element) {
        Element::Watermark(watermark)
    }
}

impl vstd::std_specs::convert::FromSpecImpl<Watermark> for Element {
    open spec fn obeys_from_spec() -> bool {
        true
    }

    open spec fn from_spec(watermark: Watermark) -> Element {
        Element::Watermark(watermark)
    }
}

impl From<StreamStatus> for Element {
    fn from(stream_status: StreamStatus) -> (r: Element) {
        Element::StreamStatus(stream_status)
    }
}

impl vstd::std_specs::convert::FromSpecImpl<StreamStatus> for Element {
    open spec fn obeys_from_spec() -> bool {
        true
    }

    open spec fn from_spec(stream_status: StreamStatus) -> Element {
        Element::StreamStatus(stream_status)
    }
}

impl From<Barrier> for Element {
    fn from(barrier: Barrier) -> (r: Element) {
        Element::Barrier(barrier)
    }
}

impl vstd::std_specs::convert::FromSpecImpl<Barrier> for Element {
    open spec fn obeys_from_spec() -> bool {
        true
    }

    open spec fn from_spec(barrier: Barrier) -> Element {
        Element::Barrier(barrier)
    }
}

} // verus!
