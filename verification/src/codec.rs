//! Big-endian integer encoding: the mathematical model of the wire format
//! and trusted wrappers around the `bytes` crate's `BytesMut` buffer.
use vstd::prelude::*;
use vstd::arithmetic::div_mod::{
    lemma_div_pos_is_pos, lemma_fundamental_div_mod, lemma_mod_bound,
};

verus! {

/// 256^n: the number of values a big-endian integer of `n` bytes can take.
pub open spec fn pow256(n: nat) -> int
    decreases n,
{
    if n == 0 {
        1
    } else {
        256 * pow256((n - 1) as nat)
    }
}

/// The `n`-byte big-endian encoding of `v` (most significant byte first).
pub open spec fn be_bytes(v: int, n: nat) -> Seq<u8>
    decreases n,
{
    if n == 0 {
        Seq::empty()
    } else {
        be_bytes(v / 256, (n - 1) as nat).push((v % 256) as u8)
    }
}

/// The integer a big-endian byte string denotes.
pub open spec fn from_be(s: Seq<u8>) -> int
    decreases s.len(),
{
    if s.len() == 0 {
        0
    } else {
        from_be(s.drop_last()) * 256 + s.last()
    }
}

pub proof fn lemma_be_bytes_len(v: int, n: nat)
    ensures
        be_bytes(v, n).len() == n,
    decreases n,
{
    if n > 0 {
        lemma_be_bytes_len(v / 256, (n - 1) as nat);
    }
}

/// Encoding then decoding a value that fits in `n` bytes gives the value back.
pub proof fn lemma_be_round_trip(v: int, n: nat)
    requires
        0 <= v < pow256(n),
    ensures
        from_be(be_bytes(v, n)) == v,
    decreases n,
{
    if n > 0 {
        lemma_fundamental_div_mod(v, 256);
        lemma_mod_bound(v, 256);
        assert(v / 256 >= 0) by {
            if v > 0 {
                lemma_div_pos_is_pos(v, 256);
            }
        }
        assert(v / 256 < pow256((n - 1) as nat)) by {
            if v / 256 >= pow256((n - 1) as nat) {
                assert(v >= 256 * pow256((n - 1) as nat)) by {
                    vstd::arithmetic::div_mod::lemma_div_multiples_vanish_fancy(
                        pow256((n - 1) as nat), v, 256);
                }
            }
        }
        lemma_be_round_trip(v / 256, (n - 1) as nat);
        let s = be_bytes(v, n);
        lemma_be_bytes_len(v / 256, (n - 1) as nat);
        assert(s.drop_last() =~= be_bytes(v / 256, (n - 1) as nat));
        assert(s.last() == (v % 256) as u8);
    }
}

/// The decoded value always fits in as many bytes as were read.
pub proof fn lemma_from_be_bound(s: Seq<u8>)
    ensures
        0 <= from_be(s) < pow256(s.len()),
    decreases s.len(),
{
    if s.len() > 0 {
        lemma_from_be_bound(s.drop_last());
    }
}

} // verus!
