//! Keyed window state for incremental reduction: one accumulator per
//! `(key, window)` pair, owned by the single task the key's partition maps
//! to. When the aligned watermark passes a window's end, the window fires
//! and its accumulator leaves the state.
use vstd::prelude::*;
use crate::window::Window;

verus! {

/// One window accumulator: the key bytes, the window, and the sum folded
/// so far.
#[derive(Clone, Debug)]
pub struct WindowAccumulator {
    pub key: Vec<u8>,
    pub window: Window,
    pub acc: u64,
}

/// The first index holding this `(key, window)` pair, or the length.
pub open spec fn find_entry(s: Seq<WindowAccumulator>, key: Seq<u8>, window: Window) -> int
    decreases s.len(),
{
    if s.len() == 0 {
        0
    } else if s[0].key@ == key && s[0].window == window {
        0
    } else {
        1 + find_entry(s.drop_first(), key, window)
    }
}

pub proof fn lemma_find_entry_in_range(s: Seq<WindowAccumulator>, key: Seq<u8>, window: Window)
    ensures
        0 <= find_entry(s, key, window) <= s.len(),
        find_entry(s, key, window) < s.len() ==> s[find_entry(s, key, window)].key@ == key
            && s[find_entry(s, key, window)].window == window,
        forall|j: int|
            0 <= j < find_entry(s, key, window) ==> !(s[j].key@ == key && s[j].window == window),
    decreases s.len(),
{
    if s.len() > 0 && !(s[0].key@ == key && s[0].window == window) {
        lemma_find_entry_in_range(s.drop_first(), key, window);
        let f = find_entry(s, key, window);
        assert forall|j: int| 0 <= j < f implies !(s[j].key@ == key && s[j].window == window) by {
            if j > 0 {
                assert(s.drop_first()[j - 1] == s[j]);
            }
        }
    }
}

fn bytes_eq(a: &Vec<u8>, b: &[u8]) -> (r: bool)
    ensures
        r == (a@ == b@),
{
    if a.len() != b.len() {
        proof {
            assert(a@ != b@);
        }
        return false;
    }
    let mut i: usize = 0;
    while i < a.len()
        invariant
            i <= a@.len(),
            a@.len() == b@.len(),
            forall|j: int| 0 <= j < i ==> a@[j] == b@[j],
        decreases a@.len() - i,
    {
        if a[i] != b[i] {
            proof {
                assert(a@ != b@);
            }
            return false;
        }
        i += 1;
    }
    proof {
        assert(a@ =~= b@);
    }
    true
}

/// The accumulators whose window the watermark has passed, in order.
pub open spec fn fired_entries(s: Seq<WindowAccumulator>, watermark: u64) -> Seq<WindowAccumulator>
    decreases s.len(),
{
    if s.len() == 0 {
        Seq::empty()
    } else if s.last().window.end <= watermark {
        fired_entries(s.drop_last(), watermark).push(s.last())
    } else {
        fired_entries(s.drop_last(), watermark)
    }
}

/// The accumulators whose window is still open, in order.
pub open spec fn kept_entries(s: Seq<WindowAccumulator>, watermark: u64) -> Seq<WindowAccumulator>
    decreases s.len(),
{
    if s.len() == 0 {
        Seq::empty()
    } else if s.last().window.end > watermark {
        kept_entries(s.drop_last(), watermark).push(s.last())
    } else {
        kept_entries(s.drop_last(), watermark)
    }
}

/// The keyed state of one reducing operator.
#[derive(Clone, Debug)]
pub struct KeyedWindowState {
    pub entries: Vec<WindowAccumulator>,
}

impl KeyedWindowState {
    pub fn new() -> (r: KeyedWindowState)
        ensures
            r.entries@.len() == 0,
    {
        KeyedWindowState { entries: Vec::new() }
    }

    /// Folds one record's value into the accumulator of `(key, window)`,
    /// creating the accumulator at the end of the state on first use.
    /// The sum wraps on overflow.
    pub fn fold(&mut self, key: &[u8], window: Window, value: u64)
        ensures
            ({
                let f = find_entry(old(self).entries@, key@, window);
                if f < old(self).entries@.len() {
                    final(self).entries@ == old(self).entries@.update(
                        f,
                        WindowAccumulator {
                            key: old(self).entries@[f].key,
                            window,
                            acc: vstd::wrapping::u64_specs::wrapping_add(
                                old(self).entries@[f].acc,
                                value,
                            ),
                        },
                    )
                } else {
                    final(self).entries@.len() == old(self).entries@.len() + 1
                        && final(self).entries@.take(old(self).entries@.len() as int) == old(self).entries@ && final(self).entries@.last().key@ == key@ && final(self).entries@.last().window == window && final(self).entries@.last().acc == value
                }
            }),
    {
        proof {
            lemma_find_entry_in_range(self.entries@, key@, window);
        }
        let ghost original = self.entries@;
        let mut i: usize = 0;
        while i < self.entries.len()
            invariant
                i <= self.entries@.len(),
                original == old(self).entries@,
                self.entries@ == original,
                forall|j: int|
                    0 <= j < i ==> !(original[j].key@ == key@ && original[j].window == window),
            decreases self.entries@.len() - i,
        {
            let matches_key = bytes_eq(&self.entries[i].key, key);
            if matches_key && self.entries[i].window == window {
                proof {
                    lemma_find_entry_prefix(original, key@, window, i as int);
                }
                let removed_entry = self.entries.remove(i);
                let entry = WindowAccumulator {
                    key: removed_entry.key,
                    window,
                    acc: removed_entry.acc.wrapping_add(value),
                };
                self.entries.insert(i, entry);
                proof {
                    assert(find_entry(old(self).entries@, key@, window) == i as int);
                    assert(self.entries@ =~= original.update(
                        i as int,
                        WindowAccumulator {
                            key: original[i as int].key,
                            window,
                            acc: vstd::wrapping::u64_specs::wrapping_add(
                                original[i as int].acc,
                                value,
                            ),
                        },
                    ));
                }
                return ;
            }
            i += 1;
        }
        proof {
            lemma_find_entry_prefix(original, key@, window, original.len() as int);
        }
        let mut key_copy: Vec<u8> = Vec::new();
        let mut k: usize = 0;
        while k < key.len()
            invariant
                k <= key@.len(),
                key_copy@ == key@.take(k as int),
                original == old(self).entries@,
                self.entries@ == original,
            decreases key@.len() - k,
        {
            key_copy.push(key[k]);
            proof {
                assert(key_copy@ =~= key@.take(k + 1));
            }
            k += 1;
        }
        proof {
            assert(key_copy@ =~= key@);
        }
        self.entries.push(WindowAccumulator { key: key_copy, window, acc: value });
        proof {
            assert(self.entries@.take(original.len() as int) =~= original);
        }
    }

    /// Fires every window whose end the aligned watermark has passed:
    /// those accumulators leave the state and are returned in state order;
    /// the rest stay, in order. Firing uses `end <= watermark`, so records
    /// at the watermark's own timestamp belong to the next window.
    pub fn fire(&mut self, watermark: u64) -> (r: Vec<WindowAccumulator>)
        ensures
            final(self).entries@ == kept_entries(old(self).entries@, watermark),
            r@ == fired_entries(old(self).entries@, watermark),
    {
        let ghost original = self.entries@;
        let mut fired: Vec<WindowAccumulator> = Vec::new();
        let mut kept: Vec<WindowAccumulator> = Vec::new();
        let n = self.entries.len();
        let mut i: usize = 0;
        while i < n
            invariant
                i <= n,
                n == original.len(),
                self.entries@.len() == n - i,
                forall|j: int| 0 <= j < n - i ==> self.entries@[j] == original[i + j],
                fired@ == fired_entries(original.take(i as int), watermark),
                kept@ == kept_entries(original.take(i as int), watermark),
            decreases n - i,
        {
            let entry = self.entries.remove(0);
            proof {
                assert(entry == original[i as int]);
                assert(original.take(i + 1).drop_last() =~= original.take(i as int));
                assert(original.take(i + 1).last() == original[i as int]);
            }
            if entry.window.end <= watermark {
                fired.push(entry);
            } else {
                kept.push(entry);
            }
            proof {
                assert(fired@ =~= fired_entries(original.take(i + 1), watermark));
                assert(kept@ =~= kept_entries(original.take(i + 1), watermark));
            }
            i += 1;
        }
        proof {
            assert(original.take(n as int) =~= original);
        }
        self.entries = kept;
        fired
    }
}

proof fn lemma_find_entry_prefix(s: Seq<WindowAccumulator>, key: Seq<u8>, window: Window, i: int)
    requires
        0 <= i <= s.len(),
        forall|j: int| 0 <= j < i ==> !(s[j].key@ == key && s[j].window == window),
        i < s.len() ==> s[i].key@ == key && s[i].window == window,
    ensures
        find_entry(s, key, window) == i,
    decreases i,
{
    if i == 0 {
        if s.len() > 0 && !(s[0].key@ == key && s[0].window == window) {
        }
    } else {
        assert(!(s[0].key@ == key && s[0].window == window));
        lemma_find_entry_prefix(s.drop_first(), key, window, i - 1);
    }
}

} // verus!
