//! Checkpoint barrier alignment. An operator with several input channels
//! marks each channel when that channel's barrier for the current epoch
//! arrives, buffers whatever else the marked channels deliver, and
//! completes the epoch when every channel is marked: the buffered elements
//! are released in channel order and the epoch is recorded.
//!
//! Barrier ids per channel can only move forward: once a barrier with id
//! `E` was taken on a channel, no barrier below `E` is ever taken again
//! anywhere, and none at `E` on that channel. `channel_floor` names the
//! least id a channel would still take; every operation keeps each
//! channel's floor from decreasing, and taking a barrier lifts the floor
//! of its channel above the taken id. A barrier out of that order is
//! refused with `CheckpointError::OutOfOrder` and changes nothing.
use vstd::prelude::*;
use crate::element::Element;

verus! {

/// Why a checkpoint epoch failed at this operator.
#[derive(Clone, Copy, Debug, PartialEq, Eq, Structural)]
pub enum CheckpointError {
    /// A barrier arrived that the alignment protocol forbids.
    OutOfOrder,
}

/// The concatenation of the per-channel buffers, in channel order.
pub open spec fn concat_all(buffers: Seq<Vec<Element>>) -> Seq<Element>
    decreases buffers.len(),
{
    if buffers.len() == 0 {
        Seq::empty()
    } else {
        concat_all(buffers.drop_last()) + buffers.last()@
    }
}

/// Aligns checkpoint barriers across the input channels of one operator.
#[derive(Debug)]
pub struct BarrierAligner {
    /// The highest completed epoch; 0 before any completed.
    pub completed: u64,
    /// The epoch currently being aligned, if any.
    pub current: Option<u64>,
    /// Per channel: whether its barrier for the current epoch arrived.
    pub aligned: Vec<bool>,
    /// Per channel: the elements buffered while the channel is aligned.
    pub buffered: Vec<Vec<Element>>,
}

impl BarrierAligner {
    pub open spec fn num_channels_spec(self) -> int {
        self.aligned@.len() as int
    }

    pub open spec fn wf(self) -> bool {
        &&& self.aligned@.len() == self.buffered@.len()
        &&& self.aligned@.len() >= 1
        &&& (self.current is None ==> (forall|c: int|
            0 <= c < self.aligned@.len() ==> !self.aligned@[c]))
        &&& (self.current is None ==> (forall|c: int|
            0 <= c < self.buffered@.len() ==> self.buffered@[c].len() == 0))
        &&& (self.current matches Some(e) ==> e > self.completed)
        &&& (forall|c: int|
            0 <= c < self.aligned@.len() && !self.aligned@[c] ==> self.buffered@[c].len() == 0)
    }

    /// The least barrier id this channel would still take.
    pub open spec fn channel_floor(self, channel: int) -> int {
        match self.current {
            Some(e) => if self.aligned@[channel] {
                e + 1
            } else {
                e as int
            },
            None => self.completed + 1,
        }
    }

    /// Whether a barrier with this id on this channel is in order.
    pub open spec fn accepts(self, channel: int, checkpoint_id: u64) -> bool {
        match self.current {
            Some(e) => checkpoint_id == e && !self.aligned@[channel],
            None => checkpoint_id > self.completed,
        }
    }

    /// Whether this barrier is the last one the current epoch waits for.
    pub open spec fn completes(self, channel: int, checkpoint_id: u64) -> bool {
        self.accepts(channel, checkpoint_id) && (forall|c: int|
            0 <= c < self.aligned@.len() && c != channel ==> self.aligned@[c])
    }

    pub fn new(num_channels: usize) -> (r: BarrierAligner)
        requires
            num_channels >= 1,
        ensures
            r.wf(),
            r.num_channels_spec() == num_channels,
            r.completed == 0,
            r.current is None,
    {
        let mut aligned: Vec<bool> = Vec::new();
        let mut buffered: Vec<Vec<Element>> = Vec::new();
        let mut i: usize = 0;
        while i < num_channels
            invariant
                i <= num_channels,
                aligned@.len() == i,
                buffered@.len() == i,
                forall|c: int| 0 <= c < i ==> !aligned@[c],
                forall|c: int| 0 <= c < i ==> buffered@[c].len() == 0,
            decreases num_channels - i,
        {
            aligned.push(false);
            buffered.push(Vec::new());
            i += 1;
        }
        BarrierAligner { completed: 0, current: None, aligned, buffered }
    }

    /// Takes a non-barrier element from a channel: buffered while the
    /// channel waits for the others to align, forwarded otherwise.
    pub fn on_element(&mut self, channel: usize, element: Element) -> (r: Option<Element>)
        requires
            old(self).wf(),
            channel < old(self).num_channels_spec(),
        ensures
            final(self).wf(),
            final(self).completed == old(self).completed,
            final(self).current == old(self).current,
            final(self).aligned@ == old(self).aligned@,
            forall|c: int|
                0 <= c < old(self).num_channels_spec() ==> final(self).channel_floor(c) == old(self).channel_floor(c),
            final(self).buffered@.len() == old(self).buffered@.len(),
            old(self).aligned@[channel as int] ==> r is None && final(self).buffered@[
                channel as int
            ]@ == old(self).buffered@[channel as int]@.push(element) && (forall|c: int|
                0 <= c < old(self).buffered@.len() && c != channel ==> final(self).buffered@[c]
                    == old(self).buffered@[c]),
            !old(self).aligned@[channel as int] ==> r == Some(element) && final(self).buffered@
                == old(self).buffered@,
    {
        if self.aligned[channel] {
            let mut bucket = self.buffered.remove(channel);
            bucket.push(element);
            self.buffered.insert(channel, bucket);
            proof {
                assert(forall|c: int|
                    0 <= c < old(self).buffered@.len() && c != channel ==> self.buffered@[c]
                        == old(self).buffered@[c]);
            }
            None
        } else {
            Some(element)
        }
    }

    fn all_other_channels_aligned(&self, channel: usize) -> (r: bool)
        requires
            channel < self.aligned@.len(),
        ensures
            r == (forall|c: int|
                0 <= c < self.aligned@.len() && c != channel ==> self.aligned@[c]),
    {
        let mut i: usize = 0;
        while i < self.aligned.len()
            invariant
                i <= self.aligned@.len(),
                channel < self.aligned@.len(),
                forall|c: int| 0 <= c < i && c != channel ==> self.aligned@[c],
            decreases self.aligned@.len() - i,
        {
            if i != channel && !self.aligned[i] {
                return false;
            }
            i += 1;
        }
        true
    }

    /// Releases every buffer in channel order and leaves all empty.
    fn drain_buffers(&mut self) -> (r: Vec<Element>)
        requires
            old(self).wf(),
        ensures
            final(self).completed == old(self).completed,
            final(self).current == old(self).current,
            final(self).aligned@ == old(self).aligned@,
            final(self).buffered@.len() == old(self).buffered@.len(),
            forall|c: int|
                0 <= c < final(self).buffered@.len() ==> final(self).buffered@[c].len() == 0,
            r@ == concat_all(old(self).buffered@),
    {
        let ghost original = self.buffered@;
        let n = self.buffered.len();
        let mut released: Vec<Element> = Vec::new();
        let mut i: usize = 0;
        while i < n
            invariant
                i <= n,
                n == original.len(),
                self.buffered@.len() == n,
                self.completed == old(self).completed,
                self.current == old(self).current,
                self.aligned@ == old(self).aligned@,
                released@ == concat_all(original.take(i as int)),
                forall|c: int| 0 <= c < n - i ==> self.buffered@[c] == original[i + c],
                forall|c: int| n - i <= c < n ==> self.buffered@[c].len() == 0,
            decreases n - i,
        {
            let mut bucket = self.buffered.remove(0);
            released.append(&mut bucket);
            self.buffered.push(bucket);
            proof {
                assert(original.take(i + 1).drop_last() =~= original.take(i as int));
                assert(released@ =~= concat_all(original.take(i + 1)));
            }
            i += 1;
        }
        proof {
            assert(original.take(n as int) =~= original);
        }
        released
    }

    /// Takes a barrier with id `checkpoint_id` from a channel.
    ///
    /// `Ok(None)`: the barrier was taken and the epoch still waits for
    /// other channels. `Ok(Some(released))`: the epoch completed; the
    /// caller snapshots its state, forwards one barrier downstream per
    /// output channel, and then replays `released`, the elements buffered
    /// during alignment, in channel order. `Err(OutOfOrder)`: the barrier
    /// breaks the protocol order and nothing changed.
    pub fn on_barrier(&mut self, channel: usize, checkpoint_id: u64) -> (r: Result<
        Option<Vec<Element>>,
        CheckpointError,
    >)
        requires
            old(self).wf(),
            channel < old(self).num_channels_spec(),
        ensures
            final(self).wf(),
            final(self).num_channels_spec() == old(self).num_channels_spec(),
            r is Ok <==> old(self).accepts(channel as int, checkpoint_id),
            r is Err ==> *final(self) == *old(self),
            r is Ok ==> checkpoint_id >= old(self).channel_floor(channel as int),
            r is Ok ==> final(self).channel_floor(channel as int) > checkpoint_id,
            forall|c: int|
                0 <= c < old(self).num_channels_spec() ==> final(self).channel_floor(c) >= old(self).channel_floor(c),
            (r matches Ok(Some(_))) <==> old(self).completes(channel as int, checkpoint_id),
            r matches Ok(Some(released)) ==> released@ == concat_all(old(self).buffered@)
                && final(self).completed == checkpoint_id && final(self).current is None,
            r matches Ok(None) ==> final(self).current == Some(checkpoint_id) && final(self).aligned@ == old(self).aligned@.update(channel as int, true) && final(self).buffered@
                == old(self).buffered@,
    {
        let is_current = match self.current {
            Some(e) => {
                if checkpoint_id != e {
                    return Err(CheckpointError::OutOfOrder);
                }
                if self.aligned[channel] {
                    return Err(CheckpointError::OutOfOrder);
                }
                true
            },
            None => {
                if checkpoint_id <= self.completed {
                    return Err(CheckpointError::OutOfOrder);
                }
                false
            },
        };
        if self.all_other_channels_aligned(channel) {
            let released = self.drain_buffers();
            let mut i: usize = 0;
            let n = self.aligned.len();
            while i < n
                invariant
                    i <= n,
                    self.aligned@.len() == n,
                    self.buffered@.len() == n,
                    self.completed == old(self).completed,
                    self.current == old(self).current,
                    forall|c: int| 0 <= c < i ==> !self.aligned@[c],
                    forall|c: int| 0 <= c < n ==> self.buffered@[c].len() == 0,
                decreases n - i,
            {
                self.aligned.set(i, false);
                i += 1;
            }
            self.current = None;
            self.completed = checkpoint_id;
            Ok(Some(released))
        } else {
            self.aligned.set(channel, true);
            self.current = Some(checkpoint_id);
            let _ = is_current;
            Ok(None)
        }
    }
}

} // verus!
