//! Trusted boundary to the `serbuffer` crate: a record's payload is a
//! schema-typed binary row held in a `serbuffer::Buffer`. The contracts
//! speak of `buffer_bytes`, the byte sequence a buffer holds; every
//! constructor and writer of the crate keeps its recorded length equal to
//! the bytes written, as its source shows.
use vstd::prelude::*;
use bytes::BytesMut;
use serbuffer::Buffer;
use crate::wire::bytes_view;

verus! {

#[verifier::external_type_specification]
#[verifier::external_body]
pub struct ExBuffer(Buffer);

#[verifier::external_type_specification]
#[verifier::external_body]
pub struct ExIoError(std::io::Error);

/// The bytes a `serbuffer::Buffer` holds, in write order.
pub uninterp spec fn buffer_bytes(b: Buffer) -> Seq<u8>;

/// serbuffer's type tag of a `u64` column.
pub const U64_COLUMN: u8 = 0x93;

/// Column type tags at or above this hold variable-width data behind a
/// length-encoded integer.
pub const FIRST_VARIABLE_COLUMN: u8 = 0xC0;

/// 2^n.
pub open spec fn pow2(n: nat) -> int
    decreases n,
{
    if n == 0 {
        1
    } else {
        2 * pow2((n - 1) as nat)
    }
}

/// The value a little-endian byte string denotes.
pub open spec fn le_int(s: Seq<u8>) -> int
    decreases s.len(),
{
    if s.len() == 0 {
        0
    } else {
        s[0] + 256 * le_int(s.drop_first())
    }
}

/// The byte width of a fixed-width column type: the low nibble selects
/// 1, 2, 4 or 8 bytes.
pub open spec fn column_width(column_type: u8) -> int {
    let length_mod = (column_type & 0x0f) as nat;
    if length_mod == 0 {
        1
    } else {
        2 * pow2((length_mod - 1) as nat)
    }
}

/// One length-encoded integer at `off`: its value and how many bytes the
/// encoding takes, or `None` where the reader would fail: past the end,
/// an encoding running short, or the invalid `0xFF` flag.
pub open spec fn lenenc_at(data: Seq<u8>, off: int) -> Option<(int, int)> {
    if !(0 <= off < data.len()) {
        None
    } else {
        let flag = data[off];
        if flag < 0xFC {
            Some((flag as int, 1))
        } else if flag == 0xFC {
            if off + 3 <= data.len() {
                Some((le_int(data.subrange(off + 1, off + 3)), 3))
            } else {
                None
            }
        } else if flag == 0xFD {
            if off + 4 <= data.len() {
                Some((le_int(data.subrange(off + 1, off + 4)), 4))
            } else {
                None
            }
        } else if flag == 0xFE {
            if off + 9 <= data.len() {
                Some((le_int(data.subrange(off + 1, off + 9)), 9))
            } else {
                None
            }
        } else {
            None
        }
    }
}

/// Walks the first `k` columns of the row: their start positions and the
/// position after the last, or `None` where the reader's position index
/// would fail on the way.
pub open spec fn row_index(data: Seq<u8>, data_types: Seq<u8>, k: int) -> Option<(Seq<int>, int)>
    decreases k,
{
    if k <= 0 {
        Some((Seq::empty(), 0))
    } else {
        match row_index(data, data_types, k - 1) {
            None => None,
            Some((positions, pos)) => if pos > data.len() || !(k <= data_types.len()) {
                None
            } else {
                let column_type = data_types[k - 1];
                if column_type >= FIRST_VARIABLE_COLUMN {
                    match lenenc_at(data, pos) {
                        None => None,
                        Some((value, flag_len)) => Some(
                            (positions.push(pos), pos + value + flag_len),
                        ),
                    }
                } else {
                    Some((positions.push(pos), pos + column_width(column_type)))
                }
            },
        }
    }
}

/// Whether the whole schema lies inside the row's bytes, so that building
/// the reader's position index cannot fail.
pub open spec fn row_covers(data: Seq<u8>, data_types: Seq<u8>) -> bool {
    match row_index(data, data_types, data_types.len() as int) {
        Some((positions, end)) => end <= data.len(),
        None => false,
    }
}

/// The `u64` column at ordinal `index`: the 8 little-endian bytes at the
/// column's position, provided the schema types it as one.
pub open spec fn column_u64(data: Seq<u8>, data_types: Seq<u8>, index: int) -> Option<u64>
    recommends
        row_covers(data, data_types),
        0 <= index < data_types.len(),
{
    let positions = (row_index(data, data_types, data_types.len() as int)->0).0;
    if data_types[index] == U64_COLUMN && positions[index] + 8 <= data.len() {
        Some(le_int(data.subrange(positions[index], positions[index] + 8)) as u64)
    } else {
        None
    }
}

/// Relies on `Buffer::new`: an empty row buffer.
#[verifier::external_body]
pub fn buf_new() -> (r: Buffer)
    ensures
        buffer_bytes(r) == Seq::<u8>::empty(),
{
    Buffer::new()
}

/// Relies on `Buffer::with_capacity`: an empty row buffer.
#[verifier::external_body]
pub fn buf_with_capacity(capacity: usize) -> (r: Buffer)
    ensures
        buffer_bytes(r) == Seq::<u8>::empty(),
{
    Buffer::with_capacity(capacity)
}

/// Relies on `Buffer::from`: a row buffer over exactly the given bytes.
#[verifier::external_body]
pub fn buf_from(bytes: BytesMut) -> (r: Buffer)
    ensures
        buffer_bytes(r) == bytes_view(bytes),
{
    Buffer::from(bytes)
}

/// Relies on `Buffer::len`: the number of bytes held.
#[verifier::external_body]
pub fn buf_len(b: &Buffer) -> (r: usize)
    ensures
        r == buffer_bytes(*b).len(),
{
    b.len()
}

/// Relies on `Buffer::as_slice`: the bytes held.
#[verifier::external_body]
pub fn buf_as_slice(b: &Buffer) -> (r: &[u8])
    ensures
        r@ == buffer_bytes(*b),
{
    b.as_slice()
}

/// Relies on `Buffer::extend`: appends the other buffer's bytes and, as the
/// source shows, never reports an error.
#[verifier::external_body]
pub fn buf_extend(b: &mut Buffer, other: &Buffer) -> (r: Result<(), std::io::Error>)
    ensures
        r is Ok,
        buffer_bytes(*final(b)) == buffer_bytes(*old(b)) + buffer_bytes(*other),
{
    b.extend(other)
}

/// Relies on `Buffer`'s `PartialEq`: buffers are equal exactly when they
/// hold the same bytes.
#[verifier::external_body]
pub fn buf_eq(a: &Buffer, b: &Buffer) -> (r: bool)
    ensures
        r == (buffer_bytes(*a) == buffer_bytes(*b)),
{
    a == b
}

/// Relies on `Buffer::clone`: the copy holds the same bytes.
#[verifier::external_body]
pub fn buf_clone(b: &Buffer) -> (r: Buffer)
    ensures
        buffer_bytes(r) == buffer_bytes(*b),
{
    b.clone()
}

#[verifier::external_type_specification]
#[verifier::external_body]
pub struct ExBufferReader<'a, 'b>(serbuffer::BufferReader<'a, 'b>);

#[verifier::external_type_specification]
#[verifier::external_body]
pub struct ExBufferWriter<'a, 'b>(serbuffer::BufferWriter<'a, 'b>);

/// Relies on `Buffer::as_reader`: a typed column reader over the buffer.
/// Building its position index walks the whole schema and fails on a row
/// it does not cover, so that case is excluded.
#[verifier::external_body]
pub fn buf_as_reader<'a, 'b>(b: &'a mut Buffer, data_types: &'b [u8]) -> (r: serbuffer::BufferReader<'a, 'b>)
    requires
        row_covers(buffer_bytes(*old(b)), data_types@),
{
    b.as_reader(data_types)
}

/// Relies on `Buffer::as_writer`: a typed column writer appending to the
/// buffer.
#[verifier::external_body]
pub fn buf_as_writer<'a, 'b>(b: &'a mut Buffer, data_types: &'b [u8]) -> (r: serbuffer::BufferWriter<'a, 'b>) {
    b.as_writer(data_types)
}

/// Relies on `Buffer::as_reader` and `BufferReader::get_u64`: reads the
/// `u64` column at the given ordinal, leaving the buffer as it was. The
/// schema must cover the row and the ordinal must index the schema, or
/// the reader's position index fails.
#[verifier::external_body]
pub fn buf_read_u64(b: &mut Buffer, data_types: &[u8], index: usize) -> (r: Option<u64>)
    requires
        row_covers(buffer_bytes(*old(b)), data_types@),
        index < data_types@.len(),
    ensures
        *final(b) == *old(b),
        r == column_u64(buffer_bytes(*old(b)), data_types@, index as int),
{
    b.as_reader(data_types).get_u64(index).ok()
}

} // verus!
