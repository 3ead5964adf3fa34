//! Watermark alignment across upstream channels: an operator's aligned
//! watermark is the minimum over all channels of the latest watermark each
//! one delivered. When every channel has reported the end of its stream,
//! the operator's watermark becomes `u64::MAX` and remaining windows drain.
use vstd::prelude::*;

verus! {

/// The minimum of a sequence; `u64::MAX` for the empty sequence.
pub open spec fn min_of(s: Seq<u64>) -> u64
    decreases s.len(),
{
    if s.len() == 0 {
        u64::MAX
    } else {
        let rest = min_of(s.drop_last());
        if s.last() < rest {
            s.last()
        } else {
            rest
        }
    }
}

/// The minimum is a lower bound of every element.
pub proof fn lemma_min_of_le(s: Seq<u64>, i: int)
    requires
        0 <= i < s.len(),
    ensures
        min_of(s) <= s[i],
    decreases s.len(),
{
    if i < s.len() - 1 {
        lemma_min_of_le(s.drop_last(), i);
    }
}

/// A non-empty sequence attains its minimum.
pub proof fn lemma_min_of_attained(s: Seq<u64>)
    requires
        s.len() > 0,
    ensures
        exists|i: int| 0 <= i < s.len() && s[i] == min_of(s),
    decreases s.len(),
{
    if s.len() == 1 {
        assert(s.drop_last().len() == 0);
        assert(min_of(s.drop_last()) == u64::MAX);
        assert(s[0] == min_of(s));
    } else {
        lemma_min_of_attained(s.drop_last());
        let j = choose|j: int| 0 <= j < s.drop_last().len() && s.drop_last()[j] == min_of(
            s.drop_last(),
        );
        if s.last() < min_of(s.drop_last()) {
            assert(s[s.len() - 1] == min_of(s));
        } else {
            assert(s[j] == min_of(s));
        }
    }
}

/// Tracks, per upstream channel, the latest watermark and whether the
/// channel's stream has ended.
#[derive(Clone, Debug)]
pub struct WatermarkAlignment {
    pub latest: Vec<u64>,
    pub ended: Vec<bool>,
}

impl WatermarkAlignment {
    /// One slot per channel.
    pub open spec fn wf(self) -> bool {
        self.latest@.len() == self.ended@.len()
    }

    pub open spec fn num_channels_spec(self) -> int {
        self.latest@.len() as int
    }

    /// Whether every channel has reported the end of its stream.
    pub open spec fn all_ended_spec(self) -> bool {
        forall|i: int| 0 <= i < self.ended@.len() ==> self.ended@[i]
    }

    /// The aligned watermark: the minimum of the per-channel latest
    /// watermarks, or `u64::MAX` once every channel has ended.
    pub open spec fn aligned_spec(self) -> u64 {
        if self.all_ended_spec() {
            u64::MAX
        } else {
            min_of(self.latest@)
        }
    }

    pub fn new(num_channels: usize) -> (r: WatermarkAlignment)
        ensures
            r.wf(),
            r.latest@ == Seq::new(num_channels as nat, |i: int| 0u64),
            r.ended@ == Seq::new(num_channels as nat, |i: int| false),
    {
        let mut latest: Vec<u64> = Vec::new();
        let mut ended: Vec<bool> = Vec::new();
        let mut i: usize = 0;
        while i < num_channels
            invariant
                i <= num_channels,
                latest@ =~= Seq::new(i as nat, |k: int| 0u64),
                ended@ =~= Seq::new(i as nat, |k: int| false),
            decreases num_channels - i,
        {
            latest.push(0);
            ended.push(false);
            i += 1;
        }
        proof {
            assert(latest@ =~= Seq::new(num_channels as nat, |i: int| 0u64));
            assert(ended@ =~= Seq::new(num_channels as nat, |i: int| false));
        }
        WatermarkAlignment { latest, ended }
    }

    /// Takes a watermark delivered on one channel. Watermarks are monotone
    /// per channel upstream, so the slot only moves forward.
    pub fn on_watermark(&mut self, channel: usize, timestamp: u64)
        requires
            old(self).wf(),
            channel < old(self).num_channels_spec(),
        ensures
            final(self).wf(),
            final(self).ended@ == old(self).ended@,
            final(self).latest@ == old(self).latest@.update(
                channel as int,
                (if timestamp > old(self).latest@[channel as int] {
                    timestamp
                } else {
                    old(self).latest@[channel as int]
                }),
            ),
    {
        if timestamp > self.latest[channel] {
            self.latest.set(channel, timestamp);
        } else {
            proof {
                assert(self.latest@ =~= old(self).latest@.update(
                    channel as int,
                    old(self).latest@[channel as int],
                ));
            }
        }
    }

    /// Takes a stream status delivered on one channel.
    pub fn on_stream_status(&mut self, channel: usize, end: bool)
        requires
            old(self).wf(),
            channel < old(self).num_channels_spec(),
        ensures
            final(self).wf(),
            final(self).latest@ == old(self).latest@,
            final(self).ended@ == old(self).ended@.update(channel as int, end),
    {
        self.ended.set(channel, end);
    }

    pub fn all_ended(&self) -> (r: bool)
        requires
            self.wf(),
        ensures
            r == self.all_ended_spec(),
    {
        let mut i: usize = 0;
        while i < self.ended.len()
            invariant
                self.wf(),
                i <= self.ended@.len(),
                forall|k: int| 0 <= k < i ==> self.ended@[k],
            decreases self.ended@.len() - i,
        {
            if !self.ended[i] {
                return false;
            }
            i += 1;
        }
        true
    }

    /// The aligned watermark at this moment: the minimum over all channels
    /// of the latest per-channel watermark, `u64::MAX` once all ended.
    pub fn aligned_watermark(&self) -> (r: u64)
        requires
            self.wf(),
        ensures
            r == self.aligned_spec(),
    {
        if self.all_ended() {
            return u64::MAX;
        }
        let mut acc: u64 = u64::MAX;
        let mut i: usize = 0;
        while i < self.latest.len()
            invariant
                i <= self.latest@.len(),
                acc == min_of(self.latest@.take(i as int)),
            decreases self.latest@.len() - i,
        {
            proof {
                assert(self.latest@.take(i + 1).drop_last() =~= self.latest@.take(i as int));
            }
            if self.latest[i] < acc {
                acc = self.latest[i];
            }
            i += 1;
        }
        proof {
            assert(self.latest@.take(self.latest@.len() as int) =~= self.latest@);
        }
        acc
    }
}

} // verus!
