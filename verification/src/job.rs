//! The showcase pipeline: two sources joined, keyed, windowed into
//! one-minute tumbling windows and reduced, written to one sink.
use vstd::prelude::*;
use crate::graph::{EdgeKind, OperatorKind, StreamEdge, StreamExecutionEnvironment, StreamNode};
use crate::properties::{Properties, PropertyValue};
use crate::runtime_ids::OperatorId;
use crate::window::SlidingEventTimeWindows;

verus! {

/// The eleven operators of the showcase pipeline, in registration order,
/// with ids counting up from `first_id`: the main source at parallelism
/// two through flat map, filter and watermark assigner; the broadcast
/// side input at parallelism one through its flat map; then the join,
/// key-by, one-minute windows, the reduce at parallelism two, and the
/// sink.
pub open spec fn showcase_nodes(first_id: u32) -> Seq<StreamNode>
    recommends
        first_id <= u32::MAX - 11,
{
    seq![
        StreamNode {
            operator_id: OperatorId(first_id),
            kind: OperatorKind::Source,
            parallelism: 2,
            window: None,
        },
        StreamNode {
            operator_id: OperatorId((first_id + 1) as u32),
            kind: OperatorKind::FlatMap,
            parallelism: 2,
            window: None,
        },
        StreamNode {
            operator_id: OperatorId((first_id + 2) as u32),
            kind: OperatorKind::Filter,
            parallelism: 2,
            window: None,
        },
        StreamNode {
            operator_id: OperatorId((first_id + 3) as u32),
            kind: OperatorKind::WatermarkAssigner,
            parallelism: 2,
            window: None,
        },
        StreamNode {
            operator_id: OperatorId((first_id + 4) as u32),
            kind: OperatorKind::Source,
            parallelism: 1,
            window: None,
        },
        StreamNode {
            operator_id: OperatorId((first_id + 5) as u32),
            kind: OperatorKind::FlatMap,
            parallelism: 1,
            window: None,
        },
        StreamNode {
            operator_id: OperatorId((first_id + 6) as u32),
            kind: OperatorKind::CoProcess,
            parallelism: 2,
            window: None,
        },
        StreamNode {
            operator_id: OperatorId((first_id + 7) as u32),
            kind: OperatorKind::KeyBy,
            parallelism: 2,
            window: None,
        },
        StreamNode {
            operator_id: OperatorId((first_id + 8) as u32),
            kind: OperatorKind::WindowAssigner,
            parallelism: 2,
            window: Some(SlidingEventTimeWindows { size: 60000, slide: 60000, offset: 0 }),
        },
        StreamNode {
            operator_id: OperatorId((first_id + 9) as u32),
            kind: OperatorKind::Reduce,
            parallelism: 2,
            window: None,
        },
        StreamNode {
            operator_id: OperatorId((first_id + 10) as u32),
            kind: OperatorKind::Sink,
            parallelism: 2,
            window: None,
        },
    ]
}

/// The ten edges of the showcase pipeline, with node indices counting up
/// from `base`: the left chain forwards, the side input broadcasts into
/// the join, the reduce repartitions by key hash.
pub open spec fn showcase_edges(base: int) -> Seq<StreamEdge> {
    seq![
        StreamEdge { source: (base + 0) as usize, target: (base + 1) as usize, kind: EdgeKind::Forward },
        StreamEdge { source: (base + 1) as usize, target: (base + 2) as usize, kind: EdgeKind::Forward },
        StreamEdge { source: (base + 2) as usize, target: (base + 3) as usize, kind: EdgeKind::Forward },
        StreamEdge { source: (base + 4) as usize, target: (base + 5) as usize, kind: EdgeKind::Forward },
        StreamEdge { source: (base + 3) as usize, target: (base + 6) as usize, kind: EdgeKind::Forward },
        StreamEdge {
            source: (base + 5) as usize,
            target: (base + 6) as usize,
            kind: EdgeKind::Broadcast,
        },
        StreamEdge { source: (base + 6) as usize, target: (base + 7) as usize, kind: EdgeKind::Forward },
        StreamEdge { source: (base + 7) as usize, target: (base + 8) as usize, kind: EdgeKind::Forward },
        StreamEdge { source: (base + 8) as usize, target: (base + 9) as usize, kind: EdgeKind::HashBy },
        StreamEdge { source: (base + 9) as usize, target: (base + 10) as usize, kind: EdgeKind::Forward },
    ]
}

/// The stream job of the showcase application.
#[derive(Clone, Copy, Debug)]
pub struct MyStreamJob {

}

impl MyStreamJob {
    /// Keyed state lives in the in-process memory backend: that one entry
    /// is prepended and nothing else changes.
    pub fn prepare_properties(&self, properties: &mut Properties)
        ensures
            final(properties).entries@.len() == old(properties).entries@.len() + 1,
            final(properties).entries@.drop_first() == old(properties).entries@,
            final(properties).entries@[0].0@ == "keyed_state_backend"@,
            (final(properties).entries@[0].1 matches PropertyValue::Text(t) && t@ == "Memory"@),
            (final(properties).value_of("keyed_state_backend"@) matches Some(
                PropertyValue::Text(t),
            ) && t@ == "Memory"@),
    {
        properties.set_keyed_state_backend_memory();
    }

    /// Describes the pipeline: exactly the showcase nodes and edges are
    /// appended to the graph, in order — a main source of two instances
    /// flat-mapped, filtered and stamped with watermarks; a broadcast
    /// side input; both joined, keyed, assigned one-minute windows and
    /// reduced at parallelism two into the sink.
    pub fn build_stream(&self, _properties: &Properties, env: &mut StreamExecutionEnvironment)
        requires
            old(env).next_operator_id <= u32::MAX - 11,
        ensures
            final(env).stream_graph.nodes@ == old(env).stream_graph.nodes@ + showcase_nodes(
                old(env).next_operator_id,
            ),
            final(env).stream_graph.edges@ == old(env).stream_graph.edges@ + showcase_edges(
                old(env).stream_graph.nodes@.len() as int,
            ),
            final(env).next_operator_id == old(env).next_operator_id + 11,
    {
        let data_stream_left = env.register_source(2);
        let flat_mapped = env.flat_map(data_stream_left);
        let filtered = env.filter(flat_mapped);
        let with_watermarks = env.assign_timestamps_and_watermarks(filtered);

        let data_stream_right = env.register_source(1);
        let broadcast_flat_mapped = env.flat_map(data_stream_right);

        let joined = env.connect(with_watermarks, broadcast_flat_mapped);
        let keyed = env.key_by(joined);
        let windowed = env.window(keyed, SlidingEventTimeWindows::new(60000, 60000, None));
        let reduced = env.reduce(windowed, 2);
        env.add_sink(reduced);
        proof {
            assert(env.stream_graph.nodes@ =~= old(env).stream_graph.nodes@ + showcase_nodes(
                old(env).next_operator_id,
            ));
            assert(env.stream_graph.edges@ =~= old(env).stream_graph.edges@ + showcase_edges(
                old(env).stream_graph.nodes@.len() as int,
            ));
        }
    }
}

} // verus!
