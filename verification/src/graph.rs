//! The staged dataflow graphs: the stream graph a pipeline description
//! builds, the job graph of operator groups, and the physical channels of
//! the execution graph, one edge replica per upstream-downstream task pair.
use vstd::prelude::*;
use crate::runtime_ids::{ChannelKey, JobId, OperatorId, TaskId};
use crate::window::SlidingEventTimeWindows;

verus! {

/// Why a graph cannot be built.
#[derive(Clone, Copy, Debug, PartialEq, Eq, Structural)]
pub enum GraphError {
    /// A `Forward` edge joins operators of different parallelism.
    IncompatibleParallelism,
    /// An edge names an operator the graph does not hold.
    MissingOperator,
    /// The description would close a cycle.
    Cycle,
}

/// What an operator does.
#[derive(Clone, Copy, Debug, PartialEq, Eq, Structural, Hash)]
pub enum OperatorKind {
    Source,
    FlatMap,
    Filter,
    WatermarkAssigner,
    KeyBy,
    WindowAssigner,
    Reduce,
    CoProcess,
    Sink,
}

/// How an edge routes elements downstream.
#[derive(Clone, Copy, Debug, PartialEq, Eq, Structural, Hash)]
pub enum EdgeKind {
    /// Task `i` upstream feeds task `i` downstream; parallelism must match.
    Forward,
    /// All-to-all, partition picked by key hash.
    HashBy,
    /// Every upstream task feeds every downstream task.
    Broadcast,
}

/// A logical operator of the stream graph.
#[derive(Clone, Copy, Debug, PartialEq, Eq, Structural)]
pub struct StreamNode {
    pub operator_id: OperatorId,
    pub kind: OperatorKind,
    pub parallelism: u16,
    pub window: Option<SlidingEventTimeWindows>,
}

/// An edge of the stream graph, by node index.
#[derive(Clone, Copy, Debug, PartialEq, Eq, Structural)]
pub struct StreamEdge {
    pub source: usize,
    pub target: usize,
    pub kind: EdgeKind,
}

/// One operator group of the job graph, instantiated `parallelism` times.
#[derive(Clone, Copy, Debug, PartialEq, Eq, Structural)]
pub struct JobNode {
    pub job_id: JobId,
    pub parallelism: u16,
}

/// An edge of the job graph.
#[derive(Clone, Copy, Debug, PartialEq, Eq, Structural)]
pub struct JobEdge {
    pub source: JobId,
    pub target: JobId,
    pub kind: EdgeKind,
}

/// The direct result of the user's pipeline description.
#[derive(Debug)]
pub struct StreamGraph {
    pub nodes: Vec<StreamNode>,
    pub edges: Vec<StreamEdge>,
}

/// Builds the stream graph as the pipeline description runs.
#[derive(Debug)]
pub struct StreamExecutionEnvironment {
    pub stream_graph: StreamGraph,
    pub next_operator_id: u32,
}

impl StreamExecutionEnvironment {
    pub fn new() -> (r: StreamExecutionEnvironment)
        ensures
            r.stream_graph.nodes@.len() == 0,
            r.stream_graph.edges@.len() == 0,
            r.next_operator_id == 0,
    {
        StreamExecutionEnvironment {
            stream_graph: StreamGraph { nodes: Vec::new(), edges: Vec::new() },
            next_operator_id: 0,
        }
    }

    /// Appends one node, inheriting nothing; returns its index.
    fn push_node(&mut self, kind: OperatorKind, parallelism: u16, window: Option<SlidingEventTimeWindows>) -> (r: usize)
        requires
            old(self).next_operator_id < u32::MAX,
        ensures
            r == old(self).stream_graph.nodes@.len(),
            final(self).stream_graph.nodes@ == old(self).stream_graph.nodes@.push(
                StreamNode {
                    operator_id: OperatorId(old(self).next_operator_id),
                    kind,
                    parallelism,
                    window,
                },
            ),
            final(self).stream_graph.edges@ == old(self).stream_graph.edges@,
            final(self).next_operator_id == old(self).next_operator_id + 1,
    {
        let index = self.stream_graph.nodes.len();
        self.stream_graph.nodes.push(
            StreamNode {
                operator_id: OperatorId(self.next_operator_id),
                kind,
                parallelism,
                window,
            },
        );
        self.next_operator_id = self.next_operator_id + 1;
        index
    }

    /// Registers a source operator with the given parallelism.
    pub fn register_source(&mut self, parallelism: u16) -> (r: usize)
        requires
            old(self).next_operator_id < u32::MAX,
        ensures
            r == old(self).stream_graph.nodes@.len(),
            final(self).stream_graph.nodes@ == old(self).stream_graph.nodes@.push(
                StreamNode {
                    operator_id: OperatorId(old(self).next_operator_id),
                    kind: OperatorKind::Source,
                    parallelism,
                    window: None::<SlidingEventTimeWindows>,
                },
            ),
            final(self).stream_graph.edges@ == old(self).stream_graph.edges@,
            final(self).next_operator_id == old(self).next_operator_id + 1,
    {
        self.push_node(OperatorKind::Source, parallelism, None)
    }

    /// Appends a single-input operator fed by `upstream` over an edge of
    /// the given kind, inheriting the upstream parallelism unless given.
    fn push_transform(&mut self, upstream: usize, kind: OperatorKind, edge_kind: EdgeKind, parallelism: Option<u16>, window: Option<SlidingEventTimeWindows>) -> (r: usize)
        requires
            old(self).next_operator_id < u32::MAX,
            upstream < old(self).stream_graph.nodes@.len(),
        ensures
            r == old(self).stream_graph.nodes@.len(),
            final(self).stream_graph.nodes@ == old(self).stream_graph.nodes@.push(
                StreamNode {
                    operator_id: OperatorId(old(self).next_operator_id),
                    kind,
                    parallelism: (match parallelism {
                        Some(p) => p,
                        None => old(self).stream_graph.nodes@[upstream as int].parallelism,
                    }),
                    window,
                },
            ),
            final(self).stream_graph.edges@ == old(self).stream_graph.edges@.push(
                StreamEdge {
                    source: upstream,
                    target: old(self).stream_graph.nodes@.len() as usize,
                    kind: edge_kind,
                },
            ),
            final(self).next_operator_id == old(self).next_operator_id + 1,
    {
        let p = match parallelism {
            Some(p) => p,
            None => self.stream_graph.nodes[upstream].parallelism,
        };
        let index = self.push_node(kind, p, window);
        self.stream_graph.edges.push(StreamEdge { source: upstream, target: index, kind: edge_kind });
        index
    }

    pub fn flat_map(&mut self, upstream: usize) -> (r: usize)
        requires
            old(self).next_operator_id < u32::MAX,
            upstream < old(self).stream_graph.nodes@.len(),
        ensures
            r == old(self).stream_graph.nodes@.len(),
            final(self).stream_graph.nodes@ == old(self).stream_graph.nodes@.push(
                StreamNode {
                    operator_id: OperatorId(old(self).next_operator_id),
                    kind: OperatorKind::FlatMap,
                    parallelism: old(self).stream_graph.nodes@[upstream as int].parallelism,
                    window: None::<SlidingEventTimeWindows>,
                },
            ),
            final(self).stream_graph.edges@ == old(self).stream_graph.edges@.push(
                StreamEdge { source: upstream, target: r, kind: EdgeKind::Forward },
            ),
            final(self).next_operator_id == old(self).next_operator_id + 1,
    {
        self.push_transform(upstream, OperatorKind::FlatMap, EdgeKind::Forward, None, None)
    }

    pub fn filter(&mut self, upstream: usize) -> (r: usize)
        requires
            old(self).next_operator_id < u32::MAX,
            upstream < old(self).stream_graph.nodes@.len(),
        ensures
            r == old(self).stream_graph.nodes@.len(),
            final(self).stream_graph.nodes@ == old(self).stream_graph.nodes@.push(
                StreamNode {
                    operator_id: OperatorId(old(self).next_operator_id),
                    kind: OperatorKind::Filter,
                    parallelism: old(self).stream_graph.nodes@[upstream as int].parallelism,
                    window: None::<SlidingEventTimeWindows>,
                },
            ),
            final(self).stream_graph.edges@ == old(self).stream_graph.edges@.push(
                StreamEdge { source: upstream, target: r, kind: EdgeKind::Forward },
            ),
            final(self).next_operator_id == old(self).next_operator_id + 1,
    {
        self.push_transform(upstream, OperatorKind::Filter, EdgeKind::Forward, None, None)
    }

    /// Appends the watermark assigner that stamps event time downstream.
    pub fn assign_timestamps_and_watermarks(&mut self, upstream: usize) -> (r: usize)
        requires
            old(self).next_operator_id < u32::MAX,
            upstream < old(self).stream_graph.nodes@.len(),
        ensures
            r == old(self).stream_graph.nodes@.len(),
            final(self).stream_graph.nodes@ == old(self).stream_graph.nodes@.push(
                StreamNode {
                    operator_id: OperatorId(old(self).next_operator_id),
                    kind: OperatorKind::WatermarkAssigner,
                    parallelism: old(self).stream_graph.nodes@[upstream as int].parallelism,
                    window: None::<SlidingEventTimeWindows>,
                },
            ),
            final(self).stream_graph.edges@ == old(self).stream_graph.edges@.push(
                StreamEdge { source: upstream, target: r, kind: EdgeKind::Forward },
            ),
            final(self).next_operator_id == old(self).next_operator_id + 1,
    {
        self.push_transform(upstream, OperatorKind::WatermarkAssigner, EdgeKind::Forward, None, None)
    }

    /// Joins two streams into a two-input operator: the left side forwards,
    /// the right side is broadcast to every instance.
    pub fn connect(&mut self, left: usize, right: usize) -> (r: usize)
        requires
            old(self).next_operator_id < u32::MAX,
            left < old(self).stream_graph.nodes@.len(),
            right < old(self).stream_graph.nodes@.len(),
        ensures
            r == old(self).stream_graph.nodes@.len(),
            final(self).stream_graph.nodes@ == old(self).stream_graph.nodes@.push(
                StreamNode {
                    operator_id: OperatorId(old(self).next_operator_id),
                    kind: OperatorKind::CoProcess,
                    parallelism: old(self).stream_graph.nodes@[left as int].parallelism,
                    window: None::<SlidingEventTimeWindows>,
                },
            ),
            final(self).stream_graph.edges@ == old(self).stream_graph.edges@.push(
                StreamEdge { source: left, target: r, kind: EdgeKind::Forward },
            ).push(StreamEdge { source: right, target: r, kind: EdgeKind::Broadcast }),
            final(self).next_operator_id == old(self).next_operator_id + 1,
    {
        let p = self.stream_graph.nodes[left].parallelism;
        let index = self.push_node(OperatorKind::CoProcess, p, None);
        self.stream_graph.edges.push(StreamEdge { source: left, target: index, kind: EdgeKind::Forward });
        self.stream_graph.edges.push(StreamEdge { source: right, target: index, kind: EdgeKind::Broadcast });
        index
    }

    pub fn key_by(&mut self, upstream: usize) -> (r: usize)
        requires
            old(self).next_operator_id < u32::MAX,
            upstream < old(self).stream_graph.nodes@.len(),
        ensures
            r == old(self).stream_graph.nodes@.len(),
            final(self).stream_graph.nodes@ == old(self).stream_graph.nodes@.push(
                StreamNode {
                    operator_id: OperatorId(old(self).next_operator_id),
                    kind: OperatorKind::KeyBy,
                    parallelism: old(self).stream_graph.nodes@[upstream as int].parallelism,
                    window: None::<SlidingEventTimeWindows>,
                },
            ),
            final(self).stream_graph.edges@ == old(self).stream_graph.edges@.push(
                StreamEdge { source: upstream, target: r, kind: EdgeKind::Forward },
            ),
            final(self).next_operator_id == old(self).next_operator_id + 1,
    {
        self.push_transform(upstream, OperatorKind::KeyBy, EdgeKind::Forward, None, None)
    }

    /// Assigns sliding event-time windows to the keyed stream.
    pub fn window(&mut self, upstream: usize, windows: SlidingEventTimeWindows) -> (r: usize)
        requires
            old(self).next_operator_id < u32::MAX,
            upstream < old(self).stream_graph.nodes@.len(),
        ensures
            r == old(self).stream_graph.nodes@.len(),
            final(self).stream_graph.nodes@ == old(self).stream_graph.nodes@.push(
                StreamNode {
                    operator_id: OperatorId(old(self).next_operator_id),
                    kind: OperatorKind::WindowAssigner,
                    parallelism: old(self).stream_graph.nodes@[upstream as int].parallelism,
                    window: Some(windows),
                },
            ),
            final(self).stream_graph.edges@ == old(self).stream_graph.edges@.push(
                StreamEdge { source: upstream, target: r, kind: EdgeKind::Forward },
            ),
            final(self).next_operator_id == old(self).next_operator_id + 1,
    {
        self.push_transform(upstream, OperatorKind::WindowAssigner, EdgeKind::Forward, None, Some(windows))
    }

    /// Reduces per key and window at the given parallelism; the upstream
    /// edge repartitions by key hash.
    pub fn reduce(&mut self, upstream: usize, parallelism: u16) -> (r: usize)
        requires
            old(self).next_operator_id < u32::MAX,
            upstream < old(self).stream_graph.nodes@.len(),
        ensures
            r == old(self).stream_graph.nodes@.len(),
            final(self).stream_graph.nodes@ == old(self).stream_graph.nodes@.push(
                StreamNode {
                    operator_id: OperatorId(old(self).next_operator_id),
                    kind: OperatorKind::Reduce,
                    parallelism: parallelism,
                    window: None::<SlidingEventTimeWindows>,
                },
            ),
            final(self).stream_graph.edges@ == old(self).stream_graph.edges@.push(
                StreamEdge { source: upstream, target: r, kind: EdgeKind::HashBy },
            ),
            final(self).next_operator_id == old(self).next_operator_id + 1,
    {
        self.push_transform(upstream, OperatorKind::Reduce, EdgeKind::HashBy, Some(parallelism), None)
    }

    pub fn add_sink(&mut self, upstream: usize) -> (r: usize)
        requires
            old(self).next_operator_id < u32::MAX,
            upstream < old(self).stream_graph.nodes@.len(),
        ensures
            r == old(self).stream_graph.nodes@.len(),
            final(self).stream_graph.nodes@ == old(self).stream_graph.nodes@.push(
                StreamNode {
                    operator_id: OperatorId(old(self).next_operator_id),
                    kind: OperatorKind::Sink,
                    parallelism: old(self).stream_graph.nodes@[upstream as int].parallelism,
                    window: None::<SlidingEventTimeWindows>,
                },
            ),
            final(self).stream_graph.edges@ == old(self).stream_graph.edges@.push(
                StreamEdge { source: upstream, target: r, kind: EdgeKind::Forward },
            ),
            final(self).next_operator_id == old(self).next_operator_id + 1,
    {
        self.push_transform(upstream, OperatorKind::Sink, EdgeKind::Forward, None, None)
    }

}

/// The task-to-task edge replicas one job edge materializes: `Forward`
/// pairs equal task numbers and demands equal parallelism; `HashBy` and
/// `Broadcast` join every upstream task to every downstream task, ordered
/// by upstream task first.
pub open spec fn channels_spec(up: JobNode, down: JobNode, kind: EdgeKind, k: int) -> ChannelKey {
    if kind == EdgeKind::Forward {
        ChannelKey {
            source_task_id: TaskId {
                job_id: up.job_id,
                task_number: k as u16,
                num_tasks: up.parallelism,
            },
            target_task_id: TaskId {
                job_id: down.job_id,
                task_number: k as u16,
                num_tasks: down.parallelism,
            },
        }
    } else {
        ChannelKey {
            source_task_id: TaskId {
                job_id: up.job_id,
                task_number: (k / down.parallelism as int) as u16,
                num_tasks: up.parallelism,
            },
            target_task_id: TaskId {
                job_id: down.job_id,
                task_number: (k % down.parallelism as int) as u16,
                num_tasks: down.parallelism,
            },
        }
    }
}

/// Materializes the edge replicas of one job edge.
pub fn create_execution_channels(up: JobNode, down: JobNode, kind: EdgeKind) -> (r: Result<
    Vec<ChannelKey>,
    GraphError,
>)
    requires
        up.parallelism >= 1,
        down.parallelism >= 1,
    ensures
        r is Err <==> kind == EdgeKind::Forward && up.parallelism != down.parallelism,
        r is Err ==> r == Err::<Vec<ChannelKey>, GraphError>(GraphError::IncompatibleParallelism),
        r matches Ok(cs) ==> cs@.len() == (if kind == EdgeKind::Forward {
            up.parallelism as int
        } else {
            up.parallelism as int * down.parallelism as int
        }),
        r matches Ok(cs) ==> forall|k: int|
            0 <= k < cs@.len() ==> cs@[k] == channels_spec(up, down, kind, k),
{
    let mut channels: Vec<ChannelKey> = Vec::new();
    match kind {
        EdgeKind::Forward => {
            if up.parallelism != down.parallelism {
                return Err(GraphError::IncompatibleParallelism);
            }
            let mut i: u16 = 0;
            while i < up.parallelism
                invariant
                    i <= up.parallelism,
                    channels@.len() == i as int,
                    forall|k: int|
                        0 <= k < i as int ==> channels@[k] == channels_spec(up, down, EdgeKind::Forward, k),
                decreases up.parallelism - i,
            {
                channels.push(
                    ChannelKey {
                        source_task_id: TaskId {
                            job_id: up.job_id,
                            task_number: i,
                            num_tasks: up.parallelism,
                        },
                        target_task_id: TaskId {
                            job_id: down.job_id,
                            task_number: i,
                            num_tasks: down.parallelism,
                        },
                    },
                );
                i += 1;
            }
            Ok(channels)
        },
        _ => {
            proof {
                assert((up.parallelism as int) * (down.parallelism as int) <= 0xfffe0001)
                    by (nonlinear_arith)
                    requires
                        up.parallelism <= 0xffff,
                        down.parallelism <= 0xffff,
                ;
            }
            let total: usize = (up.parallelism as usize) * (down.parallelism as usize);
            let down_p = down.parallelism as usize;
            let mut k: usize = 0;
            while k < total
                invariant
                    k <= total,
                    kind != EdgeKind::Forward,
                    down_p == down.parallelism as int,
                    down_p >= 1,
                    total == up.parallelism as int * down.parallelism as int,
                    channels@.len() == k as int,
                    forall|m: int|
                        0 <= m < k as int ==> channels@[m] == channels_spec(up, down, kind, m),
                decreases total - k,
            {
                let i = k / down_p;
                let j = k % down_p;
                proof {
                    assert((k as int) / (down_p as int) < up.parallelism as int) by (nonlinear_arith)
                        requires
                            down_p >= 1,
                            (k as int) < (up.parallelism as int) * (down_p as int),
                    ;
                    assert((k as int) % (down_p as int) < down_p as int) by (nonlinear_arith)
                        requires
                            down_p >= 1,
                    ;
                }
                channels.push(
                    ChannelKey {
                        source_task_id: TaskId {
                            job_id: up.job_id,
                            task_number: i as u16,
                            num_tasks: up.parallelism,
                        },
                        target_task_id: TaskId {
                            job_id: down.job_id,
                            task_number: j as u16,
                            num_tasks: down.parallelism,
                        },
                    },
                );
                k += 1;
            }
            Ok(channels)
        },
    }
}

/// The number of edges leaving `node`.
pub open spec fn out_degree(edges: Seq<StreamEdge>, node: int) -> int
    decreases edges.len(),
{
    if edges.len() == 0 {
        0
    } else {
        out_degree(edges.drop_last(), node) + if edges.last().source == node {
            1int
        } else {
            0int
        }
    }
}

/// The number of edges entering `node`.
pub open spec fn in_degree(edges: Seq<StreamEdge>, node: int) -> int
    decreases edges.len(),
{
    if edges.len() == 0 {
        0
    } else {
        in_degree(edges.drop_last(), node) + if edges.last().target == node {
            1int
        } else {
            0int
        }
    }
}

/// Whether chaining folds this edge away: a `Forward` edge between nodes
/// of the same parallelism, its source with a single output and its
/// target with a single input, and no shuffle between them. The two ends
/// then run in one task.
pub open spec fn chainable(nodes: Seq<StreamNode>, edges: Seq<StreamEdge>, e: StreamEdge) -> bool {
    &&& e.kind == EdgeKind::Forward
    &&& e.source < e.target < nodes.len()
    &&& nodes[e.source as int].parallelism == nodes[e.target as int].parallelism
    &&& out_degree(edges, e.source as int) == 1
    &&& in_degree(edges, e.target as int) == 1
}

/// The first chained edge into node `i`, scanning from edge `k` on.
pub open spec fn chain_parent_from(nodes: Seq<StreamNode>, edges: Seq<StreamEdge>, i: int, k: int) -> Option<int>
    decreases edges.len() - k,
{
    if k < 0 || k >= edges.len() {
        None
    } else if edges[k].target == i && chainable(nodes, edges, edges[k]) {
        Some(k)
    } else {
        chain_parent_from(nodes, edges, i, k + 1)
    }
}

/// The first chained edge into node `i`, if any.
pub open spec fn chain_parent(nodes: Seq<StreamNode>, edges: Seq<StreamEdge>, i: int) -> Option<int> {
    chain_parent_from(nodes, edges, i, 0)
}

/// The head of the chain node `i` belongs to: itself when no edge chains
/// into it, else its chain predecessor's head. Chaining is greedy and
/// leaf-first: a node joins the chain of the node feeding it.
pub open spec fn job_root(nodes: Seq<StreamNode>, edges: Seq<StreamEdge>, i: int) -> int
    decreases i,
{
    match chain_parent(nodes, edges, i) {
        Some(k) => if 0 <= edges[k].source < i {
            job_root(nodes, edges, edges[k].source as int)
        } else {
            i
        },
        None => i,
    }
}

/// The job nodes of the first `n` stream nodes: one per chain head, in
/// node order, with the head's index as job id.
pub open spec fn job_heads(nodes: Seq<StreamNode>, edges: Seq<StreamEdge>, n: int) -> Seq<JobNode>
    decreases n,
{
    if n <= 0 {
        Seq::empty()
    } else {
        let rest = job_heads(nodes, edges, n - 1);
        if job_root(nodes, edges, n - 1) == n - 1 {
            rest.push(
                JobNode {
                    job_id: JobId((n - 1) as u32),
                    parallelism: nodes[n - 1].parallelism,
                },
            )
        } else {
            rest
        }
    }
}

/// The job edges the first `upto` stream edges leave behind: every edge
/// chaining folds away disappears; the rest join the chain heads of
/// their two ends.
pub open spec fn chained_job_edges(nodes: Seq<StreamNode>, edges: Seq<StreamEdge>, upto: int) -> Seq<JobEdge>
    decreases upto,
{
    if upto <= 0 {
        Seq::empty()
    } else {
        let rest = chained_job_edges(nodes, edges, upto - 1);
        let e = edges[upto - 1];
        if chainable(nodes, edges, e) {
            rest
        } else {
            rest.push(
                JobEdge {
                    source: JobId(job_root(nodes, edges, e.source as int) as u32),
                    target: JobId(job_root(nodes, edges, e.target as int) as u32),
                    kind: e.kind,
                },
            )
        }
    }
}

/// The job graph: chained operator groups and the edges between them.
#[derive(Debug)]
pub struct JobGraph {
    pub nodes: Vec<JobNode>,
    pub edges: Vec<JobEdge>,
}

fn count_out_degree(edges: &Vec<StreamEdge>, node: usize) -> (r: usize)
    ensures
        r == out_degree(edges@, node as int),
{
    let mut count: usize = 0;
    let mut k: usize = 0;
    while k < edges.len()
        invariant
            k <= edges@.len(),
            count == out_degree(edges@.take(k as int), node as int),
            count <= k,
        decreases edges@.len() - k,
    {
        proof {
            assert(edges@.take(k + 1).drop_last() =~= edges@.take(k as int));
        }
        if edges[k].source == node {
            count += 1;
        }
        k += 1;
    }
    proof {
        assert(edges@.take(edges@.len() as int) =~= edges@);
    }
    count
}

fn count_in_degree(edges: &Vec<StreamEdge>, node: usize) -> (r: usize)
    ensures
        r == in_degree(edges@, node as int),
{
    let mut count: usize = 0;
    let mut k: usize = 0;
    while k < edges.len()
        invariant
            k <= edges@.len(),
            count == in_degree(edges@.take(k as int), node as int),
            count <= k,
        decreases edges@.len() - k,
    {
        proof {
            assert(edges@.take(k + 1).drop_last() =~= edges@.take(k as int));
        }
        if edges[k].target == node {
            count += 1;
        }
        k += 1;
    }
    proof {
        assert(edges@.take(edges@.len() as int) =~= edges@);
    }
    count
}

/// Degrees against a prefix agree with the whole once counted there.
fn edge_chainable(nodes: &Vec<StreamNode>, edges: &Vec<StreamEdge>, e: StreamEdge) -> (r: bool)
    ensures
        r == chainable(nodes@, edges@, e),
{
    if !(matches!(e.kind, EdgeKind::Forward)) {
        return false;
    }
    if !(e.source < e.target && e.target < nodes.len()) {
        return false;
    }
    if nodes[e.source].parallelism != nodes[e.target].parallelism {
        return false;
    }
    if count_out_degree(edges, e.source) != 1 {
        return false;
    }
    if count_in_degree(edges, e.target) != 1 {
        return false;
    }
    true
}

/// Chains the stream graph into the job graph, greedily and left to
/// right: each node joins the chain of the single `Forward` edge feeding
/// it when parallelism matches on both ends and neither end branches;
/// every other edge becomes a job edge between the two chain heads. An
/// edge naming a node the graph does not hold is refused, as is one that
/// does not lead forward, which would close a cycle.
pub fn build_job_graph(graph: &StreamGraph) -> (r: Result<JobGraph, GraphError>)
    requires
        graph.nodes@.len() <= u32::MAX,
    ensures
        r is Err <==> exists|k: int|
            0 <= k < graph.edges@.len() && !((#[trigger] graph.edges@[k]).source
                < graph.edges@[k].target < graph.nodes@.len()),
        r == Err::<JobGraph, GraphError>(GraphError::MissingOperator) ==> exists|k: int|
            0 <= k < graph.edges@.len() && !((#[trigger] graph.edges@[k]).target
                < graph.nodes@.len()),
        r == Err::<JobGraph, GraphError>(GraphError::Cycle) ==> exists|k: int|
            0 <= k < graph.edges@.len() && !((#[trigger] graph.edges@[k]).source
                < graph.edges@[k].target),
        r matches Ok(jg) ==> jg.nodes@ == job_heads(
            graph.nodes@,
            graph.edges@,
            graph.nodes@.len() as int,
        ),
        r matches Ok(jg) ==> jg.edges@ == chained_job_edges(
            graph.nodes@,
            graph.edges@,
            graph.edges@.len() as int,
        ),
{
    let nodes = &graph.nodes;
    let edges = &graph.edges;
    let n = nodes.len();
    let mut k: usize = 0;
    while k < edges.len()
        invariant
            k <= edges@.len(),
            n == nodes@.len(),
            edges@ == graph.edges@,
            nodes@ == graph.nodes@,
            forall|m: int|
                0 <= m < k ==> (#[trigger] edges@[m]).source < edges@[m].target < nodes@.len(),
        decreases edges@.len() - k,
    {
        let e = edges[k];
        if e.target >= n {
            proof {
                assert(0 <= (k as int) && (k as int) < graph.edges@.len() && !(
                graph.edges@[k as int].target < graph.nodes@.len()));
                assert(!(graph.edges@[k as int].source < graph.edges@[k as int].target
                    < graph.nodes@.len()));
            }
            return Err(GraphError::MissingOperator);
        }
        if e.source >= e.target {
            proof {
                assert(0 <= (k as int) && (k as int) < graph.edges@.len() && !(
                graph.edges@[k as int].source < graph.edges@[k as int].target));
                assert(!(graph.edges@[k as int].source < graph.edges@[k as int].target
                    < graph.nodes@.len()));
            }
            return Err(GraphError::Cycle);
        }
        k += 1;
    }

    // the chain head of each node, in node order
    let mut head_of: Vec<usize> = Vec::new();
    let mut i: usize = 0;
    while i < n
        invariant
            i <= n,
            n == nodes@.len(),
            edges@ == graph.edges@,
            nodes@ == graph.nodes@,
            head_of@.len() == i as int,
            forall|j: int|
                0 <= j < i ==> #[trigger] head_of@[j] == job_root(nodes@, edges@, j) && head_of@[j]
                    <= j,
        decreases n - i,
    {
        match find_chain_parent(nodes, edges, i) {
            Some(k3) => {
                let source = edges[k3].source;
                proof {
                    assert(chainable(nodes@, edges@, edges@[k3 as int]));
                    assert(source < i);
                }
                let head = head_of[source];
                head_of.push(head);
            },
            None => {
                head_of.push(i);
            },
        }
        i += 1;
    }

    // one job node per chain head, in node order
    let mut job_nodes: Vec<JobNode> = Vec::new();
    let mut i2: usize = 0;
    while i2 < n
        invariant
            i2 <= n,
            n == nodes@.len() <= u32::MAX,
            edges@ == graph.edges@,
            nodes@ == graph.nodes@,
            head_of@.len() == n as int,
            forall|j: int|
                0 <= j < n ==> #[trigger] head_of@[j] == job_root(nodes@, edges@, j) && head_of@[j]
                    <= j,
            job_nodes@ == job_heads(nodes@, edges@, i2 as int),
        decreases n - i2,
    {
        if head_of[i2] == i2 {
            job_nodes.push(JobNode { job_id: JobId(i2 as u32), parallelism: nodes[i2].parallelism });
        }
        i2 += 1;
    }

    // one job edge per edge that chaining does not fold away
    let mut job_edges: Vec<JobEdge> = Vec::new();
    let mut k4: usize = 0;
    while k4 < edges.len()
        invariant
            k4 <= edges@.len(),
            n == nodes@.len() <= u32::MAX,
            edges@ == graph.edges@,
            nodes@ == graph.nodes@,
            head_of@.len() == n as int,
            forall|m: int|
                0 <= m < edges@.len() ==> (#[trigger] edges@[m]).source < edges@[m].target
                    < nodes@.len(),
            forall|j: int|
                0 <= j < n ==> #[trigger] head_of@[j] == job_root(nodes@, edges@, j) && head_of@[j]
                    <= j,
            job_edges@ == chained_job_edges(nodes@, edges@, k4 as int),
        decreases edges@.len() - k4,
    {
        let e = edges[k4];
        if !edge_chainable(nodes, edges, e) {
            job_edges.push(
                JobEdge {
                    source: JobId(head_of[e.source] as u32),
                    target: JobId(head_of[e.target] as u32),
                    kind: e.kind,
                },
            );
        }
        k4 += 1;
    }
    Ok(JobGraph { nodes: job_nodes, edges: job_edges })
}

/// The first chained edge into node `i`, as `chain_parent` names it.
fn find_chain_parent(nodes: &Vec<StreamNode>, edges: &Vec<StreamEdge>, i: usize) -> (r: Option<
    usize,
>)
    ensures
        r matches Some(k) ==> chain_parent(nodes@, edges@, i as int) == Some(k as int) && k
            < edges@.len() && edges@[k as int].target == i && chainable(
            nodes@,
            edges@,
            edges@[k as int],
        ),
        r is None ==> chain_parent(nodes@, edges@, i as int) is None,
{
    let mut k: usize = 0;
    while k < edges.len()
        invariant
            k <= edges@.len(),
            chain_parent(nodes@, edges@, i as int) == chain_parent_from(
                nodes@,
                edges@,
                i as int,
                k as int,
            ),
        decreases edges@.len() - k,
    {
        let e = edges[k];
        if e.target == i && edge_chainable(nodes, edges, e) {
            return Some(k);
        }
        k += 1;
    }
    None
}

/// The first stream node with this operator id, front first.
pub open spec fn stream_node_of(s: Seq<StreamNode>, id: OperatorId) -> Option<StreamNode>
    decreases s.len(),
{
    if s.len() == 0 {
        None
    } else if s[0].operator_id == id {
        Some(s[0])
    } else {
        stream_node_of(s.drop_first(), id)
    }
}

/// The first job node with this job id, front first.
pub open spec fn job_node_of(s: Seq<JobNode>, id: JobId) -> Option<JobNode>
    decreases s.len(),
{
    if s.len() == 0 {
        None
    } else if s[0].job_id == id {
        Some(s[0])
    } else {
        job_node_of(s.drop_first(), id)
    }
}

/// The upstream neighbours of a job: for every edge into it, the source
/// node and the edge kind, in edge order.
pub open spec fn job_parents_of(edges: Seq<JobEdge>, nodes: Seq<JobNode>, job: JobId) -> Seq<
    (JobNode, EdgeKind),
>
    decreases edges.len(),
{
    if edges.len() == 0 {
        Seq::empty()
    } else {
        let rest = job_parents_of(edges.drop_last(), nodes, job);
        let e = edges.last();
        if e.target == job && job_node_of(nodes, e.source) is Some {
            rest.push((job_node_of(nodes, e.source)->0, e.kind))
        } else {
            rest
        }
    }
}

/// The downstream neighbours of a job, in edge order.
pub open spec fn job_children_of(edges: Seq<JobEdge>, nodes: Seq<JobNode>, job: JobId) -> Seq<
    (JobNode, EdgeKind),
>
    decreases edges.len(),
{
    if edges.len() == 0 {
        Seq::empty()
    } else {
        let rest = job_children_of(edges.drop_last(), nodes, job);
        let e = edges.last();
        if e.source == job && job_node_of(nodes, e.target) is Some {
            rest.push((job_node_of(nodes, e.target)->0, e.kind))
        } else {
            rest
        }
    }
}

/// The edge replicas delivering into one task instance, in channel order.
pub open spec fn channels_into(cs: Seq<ChannelKey>, task: TaskId) -> Seq<ChannelKey>
    decreases cs.len(),
{
    if cs.len() == 0 {
        Seq::empty()
    } else if cs.last().target_task_id == task {
        channels_into(cs.drop_last(), task).push(cs.last())
    } else {
        channels_into(cs.drop_last(), task)
    }
}

/// The edge replicas leaving one task instance, in channel order.
pub open spec fn channels_from(cs: Seq<ChannelKey>, task: TaskId) -> Seq<ChannelKey>
    decreases cs.len(),
{
    if cs.len() == 0 {
        Seq::empty()
    } else if cs.last().source_task_id == task {
        channels_from(cs.drop_last(), task).push(cs.last())
    } else {
        channels_from(cs.drop_last(), task)
    }
}

/// The three staged graphs of one job, with the physical channels, as a
/// worker queries them.
#[derive(Debug)]
pub struct DagManager {
    pub stream_nodes: Vec<StreamNode>,
    pub job_nodes: Vec<JobNode>,
    pub job_edges: Vec<JobEdge>,
    pub channels: Vec<ChannelKey>,
}

impl DagManager {
    pub fn get_stream(&self, operator_id: OperatorId) -> (r: Option<StreamNode>)
        ensures
            r == stream_node_of(self.stream_nodes@, operator_id),
    {
        proof {
            assert(self.stream_nodes@.skip(0) =~= self.stream_nodes@);
        }
        let mut i: usize = 0;
        while i < self.stream_nodes.len()
            invariant
                i <= self.stream_nodes@.len(),
                stream_node_of(self.stream_nodes@, operator_id) == stream_node_of(
                    self.stream_nodes@.skip(i as int),
                    operator_id,
                ),
            decreases self.stream_nodes@.len() - i,
        {
            proof {
                assert(self.stream_nodes@.skip(i as int)[0] == self.stream_nodes@[i as int]);
                assert(self.stream_nodes@.skip(i as int).drop_first() =~= self.stream_nodes@.skip(
                    i + 1,
                ));
            }
            if self.stream_nodes[i].operator_id == operator_id {
                return Some(self.stream_nodes[i]);
            }
            i += 1;
        }
        None
    }

    pub fn find_job_node(&self, job_id: JobId) -> (r: Option<JobNode>)
        ensures
            r == job_node_of(self.job_nodes@, job_id),
    {
        proof {
            assert(self.job_nodes@.skip(0) =~= self.job_nodes@);
        }
        let mut i: usize = 0;
        while i < self.job_nodes.len()
            invariant
                i <= self.job_nodes@.len(),
                job_node_of(self.job_nodes@, job_id) == job_node_of(
                    self.job_nodes@.skip(i as int),
                    job_id,
                ),
            decreases self.job_nodes@.len() - i,
        {
            proof {
                assert(self.job_nodes@.skip(i as int)[0] == self.job_nodes@[i as int]);
                assert(self.job_nodes@.skip(i as int).drop_first() =~= self.job_nodes@.skip(i + 1));
            }
            if self.job_nodes[i].job_id == job_id {
                return Some(self.job_nodes[i]);
            }
            i += 1;
        }
        None
    }

    /// The upstream job nodes of a job, with the edge kind joining them.
    pub fn get_job_parents(&self, job_id: JobId) -> (r: Vec<(JobNode, EdgeKind)>)
        ensures
            r@ == job_parents_of(self.job_edges@, self.job_nodes@, job_id),
    {
        let mut out: Vec<(JobNode, EdgeKind)> = Vec::new();
        let mut i: usize = 0;
        while i < self.job_edges.len()
            invariant
                i <= self.job_edges@.len(),
                out@ == job_parents_of(self.job_edges@.take(i as int), self.job_nodes@, job_id),
            decreases self.job_edges@.len() - i,
        {
            proof {
                assert(self.job_edges@.take(i + 1).drop_last() =~= self.job_edges@.take(i as int));
            }
            let edge = self.job_edges[i];
            if edge.target == job_id {
                match self.find_job_node(edge.source) {
                    Some(node) => {
                        out.push((node, edge.kind));
                    },
                    None => {
                    },
                }
            }
            i += 1;
        }
        proof {
            assert(self.job_edges@.take(self.job_edges@.len() as int) =~= self.job_edges@);
        }
        out
    }

    /// The downstream job nodes of a job, with the edge kind joining them.
    pub fn get_job_children(&self, job_id: JobId) -> (r: Vec<(JobNode, EdgeKind)>)
        ensures
            r@ == job_children_of(self.job_edges@, self.job_nodes@, job_id),
    {
        let mut out: Vec<(JobNode, EdgeKind)> = Vec::new();
        let mut i: usize = 0;
        while i < self.job_edges.len()
            invariant
                i <= self.job_edges@.len(),
                out@ == job_children_of(self.job_edges@.take(i as int), self.job_nodes@, job_id),
            decreases self.job_edges@.len() - i,
        {
            proof {
                assert(self.job_edges@.take(i + 1).drop_last() =~= self.job_edges@.take(i as int));
            }
            let edge = self.job_edges[i];
            if edge.source == job_id {
                match self.find_job_node(edge.target) {
                    Some(node) => {
                        out.push((node, edge.kind));
                    },
                    None => {
                    },
                }
            }
            i += 1;
        }
        proof {
            assert(self.job_edges@.take(self.job_edges@.len() as int) =~= self.job_edges@);
        }
        out
    }

    /// The channels delivering into the given task instance.
    pub fn get_task_parents(&self, task_id: &TaskId) -> (r: Vec<ChannelKey>)
        ensures
            r@ == channels_into(self.channels@, *task_id),
    {
        let mut out: Vec<ChannelKey> = Vec::new();
        let mut i: usize = 0;
        while i < self.channels.len()
            invariant
                i <= self.channels@.len(),
                out@ == channels_into(self.channels@.take(i as int), *task_id),
            decreases self.channels@.len() - i,
        {
            proof {
                assert(self.channels@.take(i + 1).drop_last() =~= self.channels@.take(i as int));
            }
            let channel = self.channels[i];
            if channel.target_task_id == *task_id {
                out.push(channel);
            }
            i += 1;
        }
        proof {
            assert(self.channels@.take(self.channels@.len() as int) =~= self.channels@);
        }
        out
    }

    /// The channels leaving the given task instance.
    pub fn get_task_children(&self, task_id: &TaskId) -> (r: Vec<ChannelKey>)
        ensures
            r@ == channels_from(self.channels@, *task_id),
    {
        let mut out: Vec<ChannelKey> = Vec::new();
        let mut i: usize = 0;
        while i < self.channels.len()
            invariant
                i <= self.channels@.len(),
                out@ == channels_from(self.channels@.take(i as int), *task_id),
            decreases self.channels@.len() - i,
        {
            proof {
                assert(self.channels@.take(i + 1).drop_last() =~= self.channels@.take(i as int));
            }
            let channel = self.channels[i];
            if channel.source_task_id == *task_id {
                out.push(channel);
            }
            i += 1;
        }
        proof {
            assert(self.channels@.take(self.channels@.len() as int) =~= self.channels@);
        }
        out
    }
}

} // verus!
