//! Event-time windows: a window is the half-open interval `[start, end)`,
//! equal by its bounds and ordered by `start`, then `end`.
use vstd::prelude::*;

verus! {

#[derive(Clone, Copy, Debug, PartialEq, Eq, Structural, Hash)]
pub struct Window {
    pub start: u64,
    pub end: u64,
}

impl Window {
    pub fn new(start: u64, end: u64) -> (r: Window)
        ensures
            r.start == start,
            r.end == end,
    {
        Window { start, end }
    }

    /// Whether the event timestamp falls inside `[start, end)`.
    pub open spec fn contains_spec(self, timestamp: u64) -> bool {
        self.start <= timestamp < self.end
    }

    pub fn contains(&self, timestamp: u64) -> (r: bool)
        ensures
            r == self.contains_spec(timestamp),
    {
        self.start <= timestamp && timestamp < self.end
    }

    /// The order of windows: by start, then by end.
    pub open spec fn lt_spec(self, other: Window) -> bool {
        self.start < other.start || (self.start == other.start && self.end < other.end)
    }
}

impl PartialOrd for Window {
    fn partial_cmp(&self, other: &Window) -> (r: Option<core::cmp::Ordering>) {
        if self.start < other.start {
            Some(core::cmp::Ordering::Less)
        } else if self.start == other.start {
            if self.end < other.end {
                Some(core::cmp::Ordering::Less)
            } else if self.end == other.end {
                Some(core::cmp::Ordering::Equal)
            } else {
                Some(core::cmp::Ordering::Greater)
            }
        } else {
            Some(core::cmp::Ordering::Greater)
        }
    }
}

impl vstd::std_specs::cmp::PartialOrdSpecImpl for Window {
    open spec fn obeys_partial_cmp_spec() -> bool {
        true
    }

    open spec fn partial_cmp_spec(&self, other: &Window) -> Option<core::cmp::Ordering> {
        if self.lt_spec(*other) {
            Some(core::cmp::Ordering::Less)
        } else if *self == *other {
            Some(core::cmp::Ordering::Equal)
        } else {
            Some(core::cmp::Ordering::Greater)
        }
    }
}

/// The starts of the sliding windows containing `ts`, descending from
/// `start`: one start every `slide`, as long as the window still reaches
/// past `ts` and the start stays at or above the alignment offset.
pub open spec fn window_starts_from(start: u64, ts: u64, size: u64, slide: u64, offset: u64) -> Seq<u64>
    decreases start,
{
    if start + size <= ts {
        Seq::empty()
    } else if slide == 0 || start < offset || start - offset < slide {
        seq![start]
    } else {
        seq![start] + window_starts_from((start - slide) as u64, ts, size, slide, offset)
    }
}

/// The start of the latest window aligned to `offset` that begins at or
/// before `ts`.
pub open spec fn first_window_start(ts: u64, slide: u64, offset: u64) -> u64
    recommends
        slide > 0,
        offset <= ts,
{
    (ts - ((ts - offset) as u64 % slide) as int) as u64
}

/// The starts of all windows assigned to a record with timestamp `ts`.
pub open spec fn assigned_window_starts(ts: u64, size: u64, slide: u64, offset: u64) -> Seq<u64>
    recommends
        slide > 0,
        offset <= ts,
{
    window_starts_from(first_window_start(ts, slide, offset), ts, size, slide, offset)
}

/// The window of length `size` starting at `st`.
pub open spec fn window_of(st: u64, size: u64) -> Window {
    Window { start: st, end: (st + size) as u64 }
}

/// The windows over a sequence of starts.
pub open spec fn windows_of_starts(starts: Seq<u64>, size: u64) -> Seq<Window> {
    starts.map_values(|st: u64| window_of(st, size))
}

/// Sliding event-time windows of length `size`, one starting every
/// `slide`, aligned to `offset`. Times are in milliseconds.
#[derive(Clone, Copy, Debug, PartialEq, Eq, Structural, Hash)]
pub struct SlidingEventTimeWindows {
    pub size: u64,
    pub slide: u64,
    pub offset: u64,
}

impl SlidingEventTimeWindows {
    pub open spec fn wf(self) -> bool {
        self.size > 0 && self.slide > 0 && self.offset < self.slide
    }

    pub fn new(size: u64, slide: u64, offset: Option<u64>) -> (r: SlidingEventTimeWindows)
        requires
            size > 0,
            slide > 0,
            offset matches Some(o) ==> o < slide,
        ensures
            r.wf(),
            r.size == size,
            r.slide == slide,
            r.offset == (match offset {
                Some(o) => o,
                None => 0u64,
            }),
    {
        let off = match offset {
            Some(o) => o,
            None => 0,
        };
        SlidingEventTimeWindows { size, slide, offset: off }
    }

    /// The windows a record with this timestamp belongs to, latest first.
    pub fn assign_windows(&self, timestamp: u64) -> (r: Vec<Window>)
        requires
            self.wf(),
            self.offset <= timestamp,
            timestamp + self.size <= u64::MAX,
        ensures
            r@ == windows_of_starts(
                assigned_window_starts(timestamp, self.size, self.slide, self.offset),
                self.size,
            ),
    {
        proof {
            vstd::arithmetic::div_mod::lemma_mod_bound(
                (timestamp - self.offset) as int,
                self.slide as int,
            );
            if timestamp - self.offset < self.slide {
                vstd::arithmetic::div_mod::lemma_small_mod(
                    (timestamp - self.offset) as nat,
                    self.slide as nat,
                );
            }
        }
        let rem = (timestamp - self.offset) % self.slide;
        let first = timestamp - rem;
        let mut out: Vec<Window> = Vec::new();
        push_windows_from(&mut out, first, timestamp, self.size, self.slide, self.offset);
        proof {
            assert(out@ =~= windows_of_starts(
                assigned_window_starts(timestamp, self.size, self.slide, self.offset),
                self.size,
            ));
        }
        out
    }
}

/// Appends the windows whose starts `window_starts_from` lists.
fn push_windows_from(out: &mut Vec<Window>, start: u64, ts: u64, size: u64, slide: u64, offset: u64)
    requires
        slide > 0,
        start <= ts,
        ts + size <= u64::MAX,
    ensures
        final(out)@ == old(out)@ + windows_of_starts(
            window_starts_from(start, ts, size, slide, offset),
            size,
        ),
    decreases start,
{
    if start + size <= ts {
        proof {
            assert(final(out)@ =~= old(out)@ + windows_of_starts(
                window_starts_from(start, ts, size, slide, offset),
                size,
            ));
        }
        return ;
    }
    out.push(Window { start, end: start + size });
    if start >= offset && start - offset >= slide {
        push_windows_from(out, start - slide, ts, size, slide, offset);
        proof {
            assert(final(out)@ =~= old(out)@ + windows_of_starts(
                window_starts_from(start, ts, size, slide, offset),
                size,
            ));
        }
    } else {
        proof {
            assert(final(out)@ =~= old(out)@ + windows_of_starts(
                window_starts_from(start, ts, size, slide, offset),
                size,
            ));
        }
    }
}

/// Every assigned window contains the record's timestamp, and the starts
/// step down by exactly one slide.
pub proof fn lemma_window_starts_formula(start: u64, ts: u64, size: u64, slide: u64, offset: u64)
    requires
        slide > 0,
        start <= ts,
        ts + size <= u64::MAX,
    ensures
        forall|i: int|
            0 <= i < window_starts_from(start, ts, size, slide, offset).len()
                ==> window_starts_from(start, ts, size, slide, offset)[i] == start - i * slide
                && start - i * slide <= ts < start - i * slide + size,
    decreases start,
{
    let s = window_starts_from(start, ts, size, slide, offset);
    if start + size <= ts {
    } else if slide == 0 || start < offset || start - offset < slide {
        assert forall|i: int| 0 <= i < s.len() implies s[i] == start - i * slide && start - i
            * slide <= ts < start - i * slide + size by {
            assert(i * slide == 0) by (nonlinear_arith)
                requires
                    i == 0,
            ;
        }
    } else {
        lemma_window_starts_formula((start - slide) as u64, ts, size, slide, offset);
        let rest = window_starts_from((start - slide) as u64, ts, size, slide, offset);
        assert forall|i: int| 0 <= i < s.len() implies s[i] == start - i * slide && start - i
            * slide <= ts < start - i * slide + size by {
            if i > 0 {
                assert(s[i] == rest[i - 1]);
                assert(rest[i - 1] == (start - slide) as u64 - (i - 1) * slide);
                assert((start - slide) - (i - 1) * slide == start - i * slide) by (nonlinear_arith);
            } else {
                assert(i * slide == 0) by (nonlinear_arith)
                    requires
                        i == 0,
                ;
            }
        }
    }
}

/// The number of windows `window_starts_from` lists, counted exactly.
proof fn lemma_window_starts_len(start: u64, ts: u64, size: u64, slide: u64, n: int)
    requires
        slide > 0,
        n >= 1,
        start <= ts,
        ts + size <= u64::MAX,
        start + size > ts,
        start >= (n - 1) * slide,
        start - (n - 1) * slide + size > ts,
        start < n * slide || start - n * slide + size <= ts,
    ensures
        window_starts_from(start, ts, size, slide, 0).len() == n,
    decreases n,
{
    assert((n - 1) * slide == n * slide - slide) by (nonlinear_arith);
    if n == 1 {
        assert(n * slide == slide) by (nonlinear_arith)
            requires
                n == 1,
        ;
        if start >= slide {
            assert(start - slide + size <= ts);
            assert(window_starts_from((start - slide) as u64, ts, size, slide, 0).len() == 0);
        }
    } else {
        assert((n - 2) * slide == (n - 1) * slide - slide) by (nonlinear_arith);
        assert(start >= slide);
        lemma_window_starts_len((start - slide) as u64, ts, size, slide, n - 1);
    }
}

/// A record with timestamp `ts >= size` is assigned exactly
/// `⌈(size - ts % slide) / slide⌉` sliding windows — the windows aligned
/// to the slide whose interval holds `ts` — and their starts step down
/// from `(ts / slide) * slide` by one slide each. This is `⌈size/slide⌉`
/// whenever `ts % slide < size % slide` or the slide divides the size;
/// otherwise one window aligned before `ts` has already closed at `ts`
/// and one fewer is assigned.
pub proof fn lemma_sliding_assignment_count_general(ts: u64, size: u64, slide: u64)
    requires
        slide > 0,
        size > 0,
        size <= ts,
        ts + size <= u64::MAX,
    ensures
        ts % slide < size ==> assigned_window_starts(ts, size, slide, 0).len() == (size - ts
            % slide + slide - 1) as int / slide as int,
        ts % slide >= size ==> assigned_window_starts(ts, size, slide, 0).len() == 0,
        forall|i: int|
            0 <= i < assigned_window_starts(ts, size, slide, 0).len()
                ==> assigned_window_starts(ts, size, slide, 0)[i] == (ts / slide) * slide - i
                * slide,
{
    let rem = (ts % slide) as int;
    let remaining = size - rem;
    vstd::arithmetic::div_mod::lemma_fundamental_div_mod(ts as int, slide as int);
    vstd::arithmetic::div_mod::lemma_mod_bound(ts as int, slide as int);
    let start = first_window_start(ts, slide, 0);
    assert(start == ts - rem);
    assert(start == (ts / slide) * slide);
    if rem < size {
        let n = (remaining + slide - 1) / (slide as int);
        assert(n * slide >= remaining && (n - 1) * slide < remaining && n >= 1)
            by (nonlinear_arith)
            requires
                slide >= 1,
                remaining >= 1,
                n == (remaining + slide - 1) / (slide as int),
        ;
        assert(start >= (n - 1) * slide);
        assert(start - (n - 1) * slide + size > ts);
        assert(start - n * slide + size <= ts);
        lemma_window_starts_len(start, ts, size, slide, n);
    } else {
        assert(start + size <= ts);
        assert(assigned_window_starts(ts, size, slide, 0).len() == 0);
    }
    lemma_window_starts_formula(start, ts, size, slide, 0);
}

/// A record with timestamp `ts >= size` is assigned exactly `size / slide`
/// sliding windows when the slide divides the size, and their starts are
/// `(ts / slide) * slide - i * slide` for each `i` below that count.
pub proof fn lemma_sliding_assignment_count(ts: u64, size: u64, slide: u64)
    requires
        slide > 0,
        size > 0,
        size % slide == 0,
        size <= ts,
        ts + size <= u64::MAX,
    ensures
        assigned_window_starts(ts, size, slide, 0).len() == size / slide,
        forall|i: int|
            0 <= i < size / slide
                ==> assigned_window_starts(ts, size, slide, 0)[i] == (ts / slide) * slide - i
                * slide,
{
    let n = (size / slide) as int;
    let rem = (ts % slide) as int;
    vstd::arithmetic::div_mod::lemma_fundamental_div_mod(ts as int, slide as int);
    vstd::arithmetic::div_mod::lemma_fundamental_div_mod(size as int, slide as int);
    vstd::arithmetic::div_mod::lemma_mod_bound(ts as int, slide as int);
    assert(size == n * slide);
    let start = first_window_start(ts, slide, 0);
    assert(start == ts - rem);
    assert(start == (ts / slide) * slide);
    assert(slide <= size) by {
        if n < 1 {
            assert(n * slide <= 0) by (nonlinear_arith)
                requires
                    n <= 0,
                    slide > 0,
            ;
        }
        assert(n >= 1);
        assert(slide <= n * slide) by (nonlinear_arith)
            requires
                n >= 1,
                slide > 0,
        ;
    }
    assert(start >= (n - 1) * slide) by {
        assert((n - 1) * slide == n * slide - slide) by (nonlinear_arith);
    }
    assert(start - (n - 1) * slide + size > ts) by {
        assert((n - 1) * slide == n * slide - slide) by (nonlinear_arith);
    }
    assert(start - n * slide + size <= ts);
    lemma_window_starts_len(start, ts, size, slide, n);
    lemma_window_starts_formula(start, ts, size, slide, 0);
    assert forall|i: int| 0 <= i < n implies assigned_window_starts(ts, size, slide, 0)[i] == (ts
        / slide) * slide - i * slide by {
        assert(assigned_window_starts(ts, size, slide, 0)[i] == start - i * slide);
    }
}

} // verus!
