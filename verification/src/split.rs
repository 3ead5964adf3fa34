//! Input-split assignment: the coordinator turns the source's partitions
//! into exactly `min_num_splits` splits, one leader per partition and
//! follower copies round-robin for the remaining task instances. A
//! follower shares the leader's external connection through the handover
//! registry instead of opening one.
use vstd::prelude::*;

verus! {

/// Why splits cannot be assigned.
#[derive(Clone, Copy, Debug, PartialEq, Eq, Structural)]
pub enum SourceError {
    /// More partitions than requested splits: every partition needs a task.
    TooManySplits,
    /// No partition to read and at least one split requested.
    NoPartitions,
}

/// One unit of source partition assignment.
#[derive(Debug)]
pub struct InputSplit {
    pub split_number: u16,
    pub topic: String,
    pub partition: i32,
    pub create_connection: bool,
}

impl InputSplit {
    pub fn new(split_number: u16, topic: String, partition: i32, create_connection: bool) -> (r: InputSplit)
        ensures
            r.split_number == split_number,
            r.topic@ == topic@,
            r.partition == partition,
            r.create_connection == create_connection,
    {
        InputSplit { split_number, topic, partition, create_connection }
    }

    /// Whether the task reading this split opens its own connection.
    pub fn creates_connection(&self) -> (r: bool)
        ensures
            r == self.create_connection,
    {
        self.create_connection
    }
}

/// Turns the source's partitions into exactly `min_num_splits` splits.
/// The first `partitions.len()` are leaders in partition order; the rest
/// are follower copies assigned round-robin. More partitions than splits
/// is refused, as is an empty partition list when splits are wanted.
pub fn create_input_splits(partitions: &Vec<(String, i32)>, min_num_splits: u16) -> (r: Result<
    Vec<InputSplit>,
    SourceError,
>)
    ensures
        r is Err <==> partitions@.len() > min_num_splits || (partitions@.len() == 0
            && min_num_splits > 0),
        partitions@.len() > min_num_splits ==> r == Err::<Vec<InputSplit>, SourceError>(
            SourceError::TooManySplits,
        ),
        (partitions@.len() == 0 && min_num_splits > 0) ==> r == Err::<Vec<InputSplit>, SourceError>(
            SourceError::NoPartitions,
        ),
        r matches Ok(splits) ==> splits@.len() == min_num_splits,
        r matches Ok(splits) ==> forall|i: int|
            0 <= i < splits@.len() ==> {
                let p = i % partitions@.len() as int;
                (#[trigger] splits@[i]).split_number == p as u16 && splits@[i].topic@
                    == partitions@[p].0@ && splits@[i].partition == partitions@[p].1
                    && splits@[i].create_connection == (i < partitions@.len())
            },
{
    if partitions.len() > min_num_splits as usize {
        return Err(SourceError::TooManySplits);
    }
    if partitions.len() == 0 {
        if min_num_splits > 0 {
            return Err(SourceError::NoPartitions);
        }
        return Ok(Vec::new());
    }
    let n = partitions.len();
    let mut splits: Vec<InputSplit> = Vec::new();
    let mut i: usize = 0;
    while i < min_num_splits as usize
        invariant
            i <= min_num_splits as usize,
            1 <= n == partitions@.len() <= min_num_splits,
            splits@.len() == i as int,
            forall|k: int|
                0 <= k < i as int ==> {
                    let p = k % partitions@.len() as int;
                    (#[trigger] splits@[k]).split_number == p as u16 && splits@[k].topic@
                        == partitions@[p].0@ && splits@[k].partition == partitions@[p].1
                        && splits@[k].create_connection == (k < partitions@.len())
                },
        decreases min_num_splits as usize - i,
    {
        let p = i % n;
        proof {
            assert((i as int) % (n as int) < n as int) by (nonlinear_arith)
                requires
                    n as int >= 1,
            ;
            assert((i as int) % (n as int) >= 0) by (nonlinear_arith)
                requires
                    n as int >= 1,
                    i as int >= 0,
            ;
            if i < n {
                vstd::arithmetic::div_mod::lemma_small_mod(i as nat, n as nat);
            }
        }
        let leader = i < n;
        splits.push(
            InputSplit {
                split_number: p as u16,
                topic: partitions[p].0.clone(),
                partition: partitions[p].1,
                create_connection: leader,
            },
        );
        i += 1;
    }
    Ok(splits)
}

} // verus!
