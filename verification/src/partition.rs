//! Key partitioning: a fixed 64-bit FNV-1a hash over the key bytes picks
//! the downstream partition. The hash is a pure function of the bytes, so
//! every worker routes a given key to the same task instance.
use vstd::prelude::*;

verus! {

pub const FNV_OFFSET_BASIS: u64 = 0xcbf29ce484222325;

pub const FNV_PRIME: u64 = 0x100000001b3;

/// The FNV-1a hash of the key bytes.
pub open spec fn key_hash_spec(key: Seq<u8>) -> u64
    decreases key.len(),
{
    if key.len() == 0 {
        FNV_OFFSET_BASIS
    } else {
        vstd::wrapping::u64_specs::wrapping_mul(
            key_hash_spec(key.drop_last()) ^ (key.last() as u64),
            FNV_PRIME,
        )
    }
}

/// Whether the parallelism is a power of two, in which case partition
/// selection masks instead of taking a remainder.
pub open spec fn is_power_of_two(parallelism: u16) -> bool {
    parallelism != 0 && (parallelism & ((parallelism - 1) as u16)) == 0
}

/// The partition a key is routed to.
pub open spec fn partition_spec(key: Seq<u8>, parallelism: u16) -> u16 {
    if is_power_of_two(parallelism) {
        (key_hash_spec(key) & ((parallelism - 1) as u64)) as u16
    } else {
        (key_hash_spec(key) % (parallelism as u64)) as u16
    }
}

pub fn key_hash(key: &[u8]) -> (r: u64)
    ensures
        r == key_hash_spec(key@),
{
    let mut h: u64 = FNV_OFFSET_BASIS;
    let mut i: usize = 0;
    while i < key.len()
        invariant
            i <= key@.len(),
            h == key_hash_spec(key@.take(i as int)),
        decreases key@.len() - i,
    {
        proof {
            assert(key@.take(i + 1).drop_last() =~= key@.take(i as int));
        }
        h = (h ^ (key[i] as u64)).wrapping_mul(FNV_PRIME);
        i += 1;
    }
    proof {
        assert(key@.take(key@.len() as int) =~= key@);
    }
    h
}

/// Picks the downstream partition for a key: the hash masked when the
/// parallelism is a power of two, the hash's remainder otherwise. The
/// result is always below the parallelism, so every element carries a
/// partition number the downstream side has a task for.
pub fn select_partition(key: &[u8], parallelism: u16) -> (r: u16)
    requires
        parallelism > 0,
    ensures
        r == partition_spec(key@, parallelism),
        r < parallelism,
{
    let h = key_hash(key);
    if parallelism & (parallelism - 1) == 0 {
        let mask = (parallelism - 1) as u64;
        let masked = h & mask;
        proof {
            assert(masked <= mask) by (bit_vector)
                requires
                    masked == h & mask,
            ;
        }
        masked as u16
    } else {
        let m = h % (parallelism as u64);
        m as u16
    }
}

/// Records with equal keys always reach the same downstream task: the
/// partition is a function of the key bytes and the parallelism alone,
/// identical on every worker and across runs.
pub proof fn lemma_same_key_same_partition(key1: Seq<u8>, key2: Seq<u8>, parallelism: u16)
    requires
        key1 == key2,
    ensures
        partition_spec(key1, parallelism) == partition_spec(key2, parallelism),
{
}

} // verus!
