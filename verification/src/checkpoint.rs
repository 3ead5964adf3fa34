//! Checkpoint state at rest: the in-memory snapshot store keyed by
//! operator, task and epoch, keeping the latest three handles of each
//! owner for recovery, and the coordinator's epoch driver that issues
//! checkpoint ids and collects the tasks' acknowledgements.
use vstd::prelude::*;
use crate::runtime_ids::{CheckpointId, OperatorId, TaskId};

verus! {

/// How many snapshot handles of one owner the store retains.
pub const RETAINED_SNAPSHOTS: usize = 3;

/// The snapshots one operator instance has taken, oldest first.
#[derive(Debug)]
pub struct SnapshotSlot {
    pub operator_id: OperatorId,
    pub task_id: TaskId,
    pub handles: Vec<(CheckpointId, String)>,
}

/// The first slot owned by `(operator_id, task_id)`, or the length.
pub open spec fn find_slot(s: Seq<SnapshotSlot>, operator_id: OperatorId, task_id: TaskId) -> int
    decreases s.len(),
{
    if s.len() == 0 {
        0
    } else if s[0].operator_id == operator_id && s[0].task_id == task_id {
        0
    } else {
        1 + find_slot(s.drop_first(), operator_id, task_id)
    }
}

pub proof fn lemma_find_slot_in_range(s: Seq<SnapshotSlot>, operator_id: OperatorId, task_id: TaskId)
    ensures
        0 <= find_slot(s, operator_id, task_id) <= s.len(),
        find_slot(s, operator_id, task_id) < s.len() ==> s[find_slot(
            s,
            operator_id,
            task_id,
        )].operator_id == operator_id && s[find_slot(s, operator_id, task_id)].task_id == task_id,
        forall|j: int|
            0 <= j < find_slot(s, operator_id, task_id) ==> !(s[j].operator_id == operator_id
                && s[j].task_id == task_id),
    decreases s.len(),
{
    if s.len() > 0 && !(s[0].operator_id == operator_id && s[0].task_id == task_id) {
        lemma_find_slot_in_range(s.drop_first(), operator_id, task_id);
        let f = find_slot(s, operator_id, task_id);
        assert forall|j: int| 0 <= j < f implies !(s[j].operator_id == operator_id && s[j].task_id
            == task_id) by {
            if j > 0 {
                assert(s.drop_first()[j - 1] == s[j]);
            }
        }
    }
}

proof fn lemma_find_slot_prefix(s: Seq<SnapshotSlot>, operator_id: OperatorId, task_id: TaskId, i: int)
    requires
        0 <= i <= s.len(),
        forall|j: int| 0 <= j < i ==> !(s[j].operator_id == operator_id && s[j].task_id == task_id),
        i < s.len() ==> s[i].operator_id == operator_id && s[i].task_id == task_id,
    ensures
        find_slot(s, operator_id, task_id) == i,
    decreases i,
{
    if i > 0 {
        assert(!(s[0].operator_id == operator_id && s[0].task_id == task_id));
        lemma_find_slot_prefix(s.drop_first(), operator_id, task_id, i - 1);
    }
}

/// The in-memory state backend: snapshot handles keyed by owner.
#[derive(Debug)]
pub struct SnapshotStore {
    pub slots: Vec<SnapshotSlot>,
}

impl SnapshotStore {
    /// Every slot holds at most the retained number of handles.
    pub open spec fn wf(self) -> bool {
        forall|j: int|
            0 <= j < self.slots@.len() ==> (#[trigger] self.slots@[j]).handles@.len()
                <= RETAINED_SNAPSHOTS
    }

    pub fn new() -> (r: SnapshotStore)
        ensures
            r.wf(),
            r.slots@.len() == 0,
    {
        SnapshotStore { slots: Vec::new() }
    }

    /// Files one snapshot handle under its owner. A new owner gets a slot
    /// at the end; an owner already at the retention bound loses its
    /// oldest handle, so the latest three always remain.
    pub fn save(&mut self, operator_id: OperatorId, task_id: TaskId, checkpoint_id: CheckpointId, handle: String)
        requires
            old(self).wf(),
        ensures
            final(self).wf(),
            ({
                let f = find_slot(old(self).slots@, operator_id, task_id);
                if f < old(self).slots@.len() {
                    let slot = old(self).slots@[f];
                    let kept = if slot.handles@.len() < RETAINED_SNAPSHOTS {
                        slot.handles@
                    } else {
                        slot.handles@.drop_first()
                    };
                    final(self).slots@.len() == old(self).slots@.len() && final(self).slots@[
                        f
                    ].operator_id == operator_id && final(self).slots@[f].task_id == task_id
                        && final(self).slots@[f].handles@ == kept.push((checkpoint_id, handle))
                        && (forall|j: int|
                        0 <= j < old(self).slots@.len() && j != f ==> final(self).slots@[j] == old(self).slots@[j])
                } else {
                    final(self).slots@.len() == old(self).slots@.len() + 1 && final(self).slots@.take(old(self).slots@.len() as int) == old(self).slots@ && final(self).slots@.last().operator_id == operator_id && final(self).slots@.last().task_id
                        == task_id && final(self).slots@.last().handles@ == Seq::empty().push(
                        (checkpoint_id, handle),
                    )
                }
            }),
    {
        proof {
            lemma_find_slot_in_range(self.slots@, operator_id, task_id);
        }
        let ghost original = self.slots@;
        let mut i: usize = 0;
        while i < self.slots.len()
            invariant
                i <= self.slots@.len(),
                original == old(self).slots@,
                self.slots@ == original,
                old(self).wf(),
                forall|j: int|
                    0 <= j < i ==> !((#[trigger] original[j]).operator_id == operator_id
                        && original[j].task_id == task_id),
            decreases self.slots@.len() - i,
        {
            if self.slots[i].operator_id == operator_id && self.slots[i].task_id == task_id {
                proof {
                    lemma_find_slot_prefix(original, operator_id, task_id, i as int);
                }
                let mut slot = self.slots.remove(i);
                if slot.handles.len() >= RETAINED_SNAPSHOTS {
                    let _ = slot.handles.remove(0);
                    proof {
                        assert(slot.handles@ =~= original[i as int].handles@.drop_first());
                    }
                }
                slot.handles.push((checkpoint_id, handle));
                self.slots.insert(i, slot);
                proof {
                    assert(forall|j: int|
                        0 <= j < original.len() && j != i ==> self.slots@[j] == original[j]);
                }
                return ;
            }
            i += 1;
        }
        proof {
            lemma_find_slot_prefix(original, operator_id, task_id, original.len() as int);
        }
        let mut handles: Vec<(CheckpointId, String)> = Vec::new();
        handles.push((checkpoint_id, handle));
        proof {
            assert(handles@ =~= Seq::empty().push(handles@[0]));
        }
        self.slots.push(SnapshotSlot { operator_id, task_id, handles });
        proof {
            assert(self.slots@.take(original.len() as int) =~= original);
        }
    }

    /// The latest handle an owner has filed, with its epoch.
    pub fn latest(&self, operator_id: OperatorId, task_id: TaskId) -> (r: Option<(CheckpointId, String)>)
        ensures
            ({
                let f = find_slot(self.slots@, operator_id, task_id);
                if f < self.slots@.len() && self.slots@[f].handles@.len() > 0 {
                    r == Some(self.slots@[f].handles@.last())
                } else {
                    r is None
                }
            }),
    {
        proof {
            lemma_find_slot_in_range(self.slots@, operator_id, task_id);
        }
        let ghost original = self.slots@;
        let mut i: usize = 0;
        while i < self.slots.len()
            invariant
                i <= self.slots@.len(),
                original == self.slots@,
                forall|j: int|
                    0 <= j < i ==> !((#[trigger] original[j]).operator_id == operator_id
                        && original[j].task_id == task_id),
            decreases self.slots@.len() - i,
        {
            if self.slots[i].operator_id == operator_id && self.slots[i].task_id == task_id {
                proof {
                    lemma_find_slot_prefix(original, operator_id, task_id, i as int);
                }
                let slot = &self.slots[i];
                if slot.handles.len() > 0 {
                    let last = &slot.handles[slot.handles.len() - 1];
                    return Some((last.0, last.1.clone()));
                }
                return None;
            }
            i += 1;
        }
        proof {
            lemma_find_slot_prefix(original, operator_id, task_id, original.len() as int);
        }
        None
    }
}

/// The coordinator's view of one checkpoint epoch: the id it issued and
/// which task has acknowledged it. A checkpoint completes when every task
/// acknowledged; issuing the next epoch forgets the acknowledgements.
#[derive(Debug)]
pub struct CheckpointCoordinator {
    pub current: CheckpointId,
    pub acked: Vec<bool>,
}

impl CheckpointCoordinator {
    pub fn new(num_tasks: usize) -> (r: CheckpointCoordinator)
        ensures
            r.current == CheckpointId(0),
            r.acked@ == Seq::new(num_tasks as nat, |i: int| false),
    {
        let mut acked: Vec<bool> = Vec::new();
        let mut i: usize = 0;
        while i < num_tasks
            invariant
                i <= num_tasks,
                acked@ =~= Seq::new(i as nat, |k: int| false),
            decreases num_tasks - i,
        {
            acked.push(false);
            i += 1;
        }
        proof {
            assert(acked@ =~= Seq::new(num_tasks as nat, |i: int| false));
        }
        CheckpointCoordinator { current: CheckpointId(0), acked }
    }

    /// Issues the next epoch: the id one past the previous, with no task
    /// acknowledged yet. The caller broadcasts barriers to every source.
    pub fn trigger_checkpoint(&mut self) -> (r: CheckpointId)
        requires
            old(self).current.0 < u64::MAX,
        ensures
            r == CheckpointId((old(self).current.0 + 1) as u64),
            final(self).current == r,
            final(self).acked@ == Seq::new(old(self).acked@.len(), |i: int| false),
    {
        let next = CheckpointId(self.current.0 + 1);
        self.current = next;
        let n = self.acked.len();
        let mut acked: Vec<bool> = Vec::new();
        let mut i: usize = 0;
        while i < n
            invariant
                i <= n,
                acked@ =~= Seq::new(i as nat, |k: int| false),
            decreases n - i,
        {
            acked.push(false);
            i += 1;
        }
        proof {
            assert(acked@ =~= Seq::new(n as nat, |i: int| false));
        }
        self.acked = acked;
        next
    }

    /// Records one task's acknowledgement: counted only for the current
    /// epoch, reported back whether it was.
    pub fn ack(&mut self, task_index: usize, checkpoint_id: CheckpointId) -> (r: bool)
        requires
            task_index < old(self).acked@.len(),
        ensures
            final(self).current == old(self).current,
            r == (checkpoint_id == old(self).current),
            r ==> final(self).acked@ == old(self).acked@.update(task_index as int, true),
            !r ==> final(self).acked@ == old(self).acked@,
    {
        if checkpoint_id.0 == self.current.0 {
            self.acked.set(task_index, true);
            true
        } else {
            false
        }
    }

    /// Whether every task acknowledged the current epoch.
    pub fn is_complete(&self) -> (r: bool)
        ensures
            r == (forall|i: int| 0 <= i < self.acked@.len() ==> self.acked@[i]),
    {
        let mut i: usize = 0;
        while i < self.acked.len()
            invariant
                i <= self.acked@.len(),
                forall|k: int| 0 <= k < i ==> self.acked@[k],
            decreases self.acked@.len() - i,
        {
            if !self.acked[i] {
                return false;
            }
            i += 1;
        }
        true
    }
}

} // verus!
