use rlink::barrier::{BarrierAligner, CheckpointError};
use rlink::checkpoint::{CheckpointCoordinator, SnapshotStore};
use rlink::channel::Handover;
use rlink::coordinator::{job_status, HeartbeatTracker, JobStatus};
use rlink::context::{RunnableContext, WindowTimer};
use rlink::deployment::{ClusterMode, Context, Resource, ResourceManager};
use rlink::element::{Element, Record};
use rlink::graph::{
    build_job_graph, create_execution_channels, DagManager, EdgeKind, GraphError, JobEdge,
    JobNode, OperatorKind, StreamEdge, StreamExecutionEnvironment, StreamGraph, StreamNode,
};
use rlink::job::MyStreamJob;
use rlink::metadata::{MetadataError, MetadataLoader};
use rlink::partition::{key_hash, select_partition};
use rlink::properties::Properties;
use rlink::runtime::{ApplicationDescriptor, CoordinatorManagerDescriptor, TaskDescriptor};
use rlink::runtime_ids::{CheckpointId, JobId, OperatorId, TaskId};
use rlink::split::{create_input_splits, SourceError};

fn record_with_timestamp(timestamp: u64) -> Element {
    let mut record = Record::new();
    record.timestamp = timestamp;
    Element::Record(record)
}

fn timestamp_of(element: &Element) -> u64 {
    element.as_record().timestamp
}

#[test]
fn barrier_alignment_two_inputs() {
    // input A: R1, Barrier(1), R2 -- input B: R3, R4, Barrier(1)
    let mut aligner = BarrierAligner::new(2);

    let r1 = aligner.on_element(0, record_with_timestamp(1));
    assert_eq!(timestamp_of(&r1.unwrap()), 1);

    assert!(aligner.on_barrier(0, 1).unwrap().is_none());

    // channel A is aligned: R2 is buffered until the epoch completes
    assert!(aligner.on_element(0, record_with_timestamp(2)).is_none());

    let r3 = aligner.on_element(1, record_with_timestamp(3));
    assert_eq!(timestamp_of(&r3.unwrap()), 3);
    let r4 = aligner.on_element(1, record_with_timestamp(4));
    assert_eq!(timestamp_of(&r4.unwrap()), 4);

    let released = aligner.on_barrier(1, 1).unwrap().unwrap();
    assert_eq!(released.len(), 1);
    assert_eq!(timestamp_of(&released[0]), 2);
    assert_eq!(aligner.completed, 1);
}

#[test]
fn barrier_out_of_order_is_refused() {
    let mut aligner = BarrierAligner::new(1);
    assert!(aligner.on_barrier(0, 2).unwrap().is_some());
    // an epoch at or below the completed one is out of order
    assert!(matches!(aligner.on_barrier(0, 2), Err(CheckpointError::OutOfOrder)));
    assert!(matches!(aligner.on_barrier(0, 1), Err(CheckpointError::OutOfOrder)));
    assert!(aligner.on_barrier(0, 3).unwrap().is_some());

    let mut two = BarrierAligner::new(2);
    assert!(two.on_barrier(0, 5).unwrap().is_none());
    // a different epoch before epoch 5 completes is out of order
    assert!(matches!(two.on_barrier(1, 6), Err(CheckpointError::OutOfOrder)));
    // a duplicate barrier on an aligned channel is out of order
    assert!(matches!(two.on_barrier(0, 5), Err(CheckpointError::OutOfOrder)));
    assert!(two.on_barrier(1, 5).unwrap().is_some());
}

#[test]
fn hash_partitioning_stability() {
    // fixed FNV-1a reference values: identical on every worker
    assert_eq!(key_hash(b""), 0xcbf29ce484222325);
    assert_eq!(key_hash(b"a"), 0xaf63dc4c8601ec8c);
    assert_eq!(key_hash(b"foobar"), 0x85944171f73967e8);

    let alphabet = "abcdefghijklmnopqrstuvwxyz";
    for k in alphabet.bytes() {
        let key = [k];
        let first = select_partition(&key, 4);
        let second = select_partition(&key, 4);
        assert_eq!(first, second);
        assert!(first < 4);
        // power-of-two parallelism masks the same bits the remainder picks
        assert_eq!(first as u64, key_hash(&key) % 4);
    }
    for k in alphabet.bytes() {
        let key = [k];
        let p = select_partition(&key, 3);
        assert!(p < 3);
        assert_eq!(p as u64, key_hash(&key) % 3);
    }
}

#[test]
fn handover_is_fifo_and_bounded() {
    let mut handover = Handover::new(2);
    assert!(handover.produce(record_with_timestamp(1)).is_ok());
    assert!(handover.produce(record_with_timestamp(2)).is_ok());
    let refused = handover.produce(record_with_timestamp(3));
    assert_eq!(timestamp_of(&refused.unwrap_err()), 3);
    assert_eq!(timestamp_of(&handover.poll_next().unwrap()), 1);
    assert_eq!(timestamp_of(&handover.poll_next().unwrap()), 2);
    assert!(handover.poll_next().is_none());
}

#[test]
fn forward_edge_demands_equal_parallelism() {
    let up = JobNode { job_id: JobId(1), parallelism: 2 };
    let down = JobNode { job_id: JobId(2), parallelism: 3 };
    assert!(matches!(
        create_execution_channels(up, down, EdgeKind::Forward),
        Err(GraphError::IncompatibleParallelism)
    ));

    let down_eq = JobNode { job_id: JobId(2), parallelism: 2 };
    let channels = create_execution_channels(up, down_eq, EdgeKind::Forward).unwrap();
    assert_eq!(channels.len(), 2);
    for (i, c) in channels.iter().enumerate() {
        assert_eq!(c.source_task_id.task_number as usize, i);
        assert_eq!(c.target_task_id.task_number as usize, i);
    }
}

#[test]
fn broadcast_edge_is_all_to_all() {
    let up = JobNode { job_id: JobId(1), parallelism: 2 };
    let down = JobNode { job_id: JobId(2), parallelism: 3 };
    let channels = create_execution_channels(up, down, EdgeKind::Broadcast).unwrap();
    assert_eq!(channels.len(), 6);
    for i in 0..2u16 {
        for j in 0..3u16 {
            let c = channels[(i * 3 + j) as usize];
            assert_eq!(c.source_task_id.task_number, i);
            assert_eq!(c.target_task_id.task_number, j);
        }
    }
}

#[test]
fn stream_job_builds_eleven_operators() {
    let job = MyStreamJob {};
    let mut properties = Properties::new();
    job.prepare_properties(&mut properties);
    assert_eq!(
        properties.get_string("keyed_state_backend"),
        Some("Memory".to_owned())
    );

    let mut env = StreamExecutionEnvironment::new();
    job.build_stream(&properties, &mut env);
    assert_eq!(env.stream_graph.nodes.len(), 11);
    assert_eq!(env.stream_graph.nodes[10].kind, OperatorKind::Sink);
    assert_eq!(env.stream_graph.nodes[0].kind, OperatorKind::Source);
    assert_eq!(env.stream_graph.nodes[0].parallelism, 2);
    assert_eq!(env.stream_graph.nodes[4].parallelism, 1);
    assert_eq!(env.stream_graph.edges.len(), 10);
}

#[test]
fn input_split_round_robin() {
    let partitions = vec![("events".to_owned(), 0), ("events".to_owned(), 1)];
    let splits = create_input_splits(&partitions, 5).unwrap();
    assert_eq!(splits.len(), 5);
    for (i, split) in splits.iter().enumerate() {
        assert_eq!(split.split_number as usize, i % 2);
        assert_eq!(split.partition, (i % 2) as i32);
        assert_eq!(split.topic, "events");
        assert_eq!(split.creates_connection(), i < 2);
    }

    let too_many = create_input_splits(&partitions, 1);
    assert!(matches!(too_many, Err(SourceError::TooManySplits)));
    let none = create_input_splits(&Vec::new(), 1);
    assert!(matches!(none, Err(SourceError::NoPartitions)));
}

#[test]
fn properties_store_and_defaults() {
    let mut properties = Properties::new();
    assert_eq!(properties.get_checkpoint_internal(30000), 30000);
    properties.set_u64("checkpoint_interval_ms", 5000);
    assert_eq!(properties.get_checkpoint_internal(30000), 5000);
    properties.set_str("name", "first");
    properties.set_str("name", "second");
    assert_eq!(properties.get_string("name"), Some("second".to_owned()));
    assert_eq!(properties.get_u64("name"), None);
    assert_eq!(properties.get_string("absent"), None);
}

#[test]
fn metadata_response_round_trip() {
    let mut loader = MetadataLoader::new("http://coordinator:8770");
    assert!(loader.get_job_descriptor_from_cache().is_none());

    let body = "{\"code\":0,\"data\":{\"application_id\":\"app-1\",\
                 \"checkpoint_interval_ms\":30000,\"task_descriptors\":[\
                 {\"job_id\":1,\"task_number\":0,\"num_tasks\":2,\
                  \"checkpoint_id\":7,\"checkpoint_handle\":\"h1\"}]}}";
    let descriptor = loader.apply_metadata_response(body).unwrap();
    assert_eq!(descriptor.coordinator_manager.application_id, "app-1");
    assert_eq!(
        descriptor.coordinator_manager.application_properties.get_checkpoint_internal(0),
        30000
    );
    assert_eq!(descriptor.task_descriptors.len(), 1);
    assert_eq!(descriptor.task_descriptors[0].task_id.task_number, 0);
    assert_eq!(descriptor.task_descriptors[0].checkpoint_id.0, 7);
    assert!(loader.get_job_descriptor_from_cache().is_some());
}

#[test]
fn metadata_response_errors() {
    let mut loader = MetadataLoader::new("http://coordinator:8770");
    assert!(matches!(
        loader.apply_metadata_response("not json"),
        Err(MetadataError::InvalidJson)
    ));
    assert!(matches!(
        loader.apply_metadata_response("{\"code\":1,\"data\":{}}"),
        Err(MetadataError::RemoteError)
    ));
    assert!(matches!(
        loader.apply_metadata_response("{\"code\":0,\"data\":{}}"),
        Err(MetadataError::MissingField)
    ));
    assert!(loader.get_job_descriptor_from_cache().is_none());
}

#[test]
fn resource_manager_matches_cluster_mode() {
    let context = Context {
        cluster_mode: ClusterMode::Local,
        application_id: "app-1".to_owned(),
        coordinator_address: "http://coordinator:8770".to_owned(),
    };
    let manager = ResourceManager::new(&context);
    assert!(matches!(manager, ResourceManager::LocalResourceManager(_)));

    let resource = Resource::new(512, 2);
    let workers = manager.worker_allocate(3, &resource);
    assert_eq!(workers.len(), 3);
    for (i, w) in workers.iter().enumerate() {
        assert_eq!(w.task_manager_id as usize, i);
        assert_eq!(w.memory, 512);
        assert_eq!(w.cpu_cores, 2);
    }

    let standalone = Context { cluster_mode: ClusterMode::Standalone, ..context.clone() };
    assert!(matches!(
        ResourceManager::new(&standalone),
        ResourceManager::StandaloneResourceManager(_)
    ));
    let yarn = Context { cluster_mode: ClusterMode::YARN, ..context };
    assert!(matches!(
        ResourceManager::new(&yarn),
        ResourceManager::YarnResourceManager(_)
    ));
}

#[test]
fn runnable_context_views() {
    let job = JobId(1);
    let parent_job = JobId(0);
    let task_id = TaskId { job_id: job, task_number: 0, num_tasks: 2 };
    let parent_task = TaskId { job_id: parent_job, task_number: 0, num_tasks: 1 };
    let dag_manager = DagManager {
        stream_nodes: Vec::new(),
        job_nodes: vec![
            JobNode { job_id: parent_job, parallelism: 1 },
            JobNode { job_id: job, parallelism: 2 },
        ],
        job_edges: vec![JobEdge { source: parent_job, target: job, kind: EdgeKind::HashBy }],
        channels: vec![
            rlink::runtime_ids::ChannelKey { source_task_id: parent_task, target_task_id: task_id },
        ],
    };
    let mut application_properties = Properties::new();
    application_properties.set_u64("checkpoint_interval_ms", 1234);
    let context = RunnableContext {
        dag_manager,
        application_descriptor: ApplicationDescriptor {
            coordinator_manager: CoordinatorManagerDescriptor {
                application_id: "app-1".to_owned(),
                application_properties,
            },
            task_descriptors: Vec::new(),
        },
        task_descriptor: TaskDescriptor {
            task_id,
            checkpoint_id: CheckpointId(9),
            checkpoint_handle: None,
        },
        window_timer: WindowTimer { interval_ms: 200 },
    };

    assert_eq!(context.get_checkpoint_internal(30000), 1234);
    assert_eq!(context.get_parent_parallelism(), 1);
    assert_eq!(context.get_parents_parallelism(), vec![1]);
    assert_eq!(context.get_children_parallelism(), Vec::<u16>::new());
    let parents = context.get_parent_jobs();
    assert_eq!(parents.len(), 1);
    assert_eq!(parents[0].0.job_id, parent_job);
    assert_eq!(parents[0].1, EdgeKind::HashBy);

    let fun_context = context.to_fun_context(rlink::runtime_ids::OperatorId(5));
    assert_eq!(fun_context.application_id, "app-1");
    assert_eq!(fun_context.task_id, task_id);
    assert_eq!(fun_context.checkpoint_id.0, 9);
    assert_eq!(fun_context.parents.len(), 1);
    assert_eq!(fun_context.children.len(), 0);

    let snapshot = context.get_checkpoint_context(
        rlink::runtime_ids::OperatorId(5),
        CheckpointId(10),
    );
    assert_eq!(snapshot.checkpoint_id.0, 10);
    assert_eq!(snapshot.task_id, task_id);
}

#[test]
fn job_graph_chains_the_showcase_pipeline() {
    let job = MyStreamJob {};
    let properties = Properties::new();
    let mut env = StreamExecutionEnvironment::new();
    job.build_stream(&properties, &mut env);

    let job_graph = build_job_graph(&env.stream_graph).unwrap();
    // four chains: main source through the watermark assigner, the
    // broadcast side input, the co-process through the window assigner,
    // and the reduce into the sink
    assert_eq!(job_graph.nodes.len(), 4);
    assert_eq!(job_graph.nodes[0], JobNode { job_id: JobId(0), parallelism: 2 });
    assert_eq!(job_graph.nodes[1], JobNode { job_id: JobId(4), parallelism: 1 });
    assert_eq!(job_graph.nodes[2], JobNode { job_id: JobId(6), parallelism: 2 });
    assert_eq!(job_graph.nodes[3], JobNode { job_id: JobId(9), parallelism: 2 });

    assert_eq!(job_graph.edges.len(), 3);
    assert_eq!(job_graph.edges[0].source, JobId(0));
    assert_eq!(job_graph.edges[0].target, JobId(6));
    assert_eq!(job_graph.edges[0].kind, EdgeKind::Forward);
    assert_eq!(job_graph.edges[1].source, JobId(4));
    assert_eq!(job_graph.edges[1].target, JobId(6));
    assert_eq!(job_graph.edges[1].kind, EdgeKind::Broadcast);
    assert_eq!(job_graph.edges[2].source, JobId(6));
    assert_eq!(job_graph.edges[2].target, JobId(9));
    assert_eq!(job_graph.edges[2].kind, EdgeKind::HashBy);
}

#[test]
fn job_graph_rejects_bad_edges() {
    let node = |id: u32| StreamNode {
        operator_id: OperatorId(id),
        kind: OperatorKind::FlatMap,
        parallelism: 1,
        window: None,
    };
    let missing = StreamGraph {
        nodes: vec![node(0)],
        edges: vec![StreamEdge { source: 0, target: 5, kind: EdgeKind::Forward }],
    };
    assert!(matches!(
        build_job_graph(&missing),
        Err(GraphError::MissingOperator)
    ));

    let backwards = StreamGraph {
        nodes: vec![node(0), node(1)],
        edges: vec![StreamEdge { source: 1, target: 0, kind: EdgeKind::Forward }],
    };
    assert!(matches!(
        build_job_graph(&backwards),
        Err(GraphError::Cycle)
    ));
}

#[test]
fn snapshot_store_retains_latest_three() {
    let operator = OperatorId(1);
    let task = TaskId { job_id: JobId(1), task_number: 0, num_tasks: 1 };
    let other = TaskId { job_id: JobId(1), task_number: 1, num_tasks: 2 };
    let mut store = SnapshotStore::new();
    assert!(store.latest(operator, task).is_none());
    for epoch in 1..=5u64 {
        store.save(operator, task, CheckpointId(epoch), format!("handle-{}", epoch));
    }
    store.save(operator, other, CheckpointId(9), "other".to_owned());

    let (latest_id, latest_handle) = store.latest(operator, task).unwrap();
    assert_eq!(latest_id.0, 5);
    assert_eq!(latest_handle, "handle-5");
    // the oldest two of the five epochs were dropped
    assert_eq!(store.slots[0].handles.len(), 3);
    assert_eq!(store.slots[0].handles[0].0 .0, 3);
    let (other_id, _) = store.latest(operator, other).unwrap();
    assert_eq!(other_id.0, 9);
}

#[test]
fn checkpoint_coordinator_epochs_and_acks() {
    let mut coordinator = CheckpointCoordinator::new(2);
    let first = coordinator.trigger_checkpoint();
    assert_eq!(first.0, 1);
    assert!(!coordinator.is_complete());
    // a stale ack is not counted
    assert!(!coordinator.ack(0, CheckpointId(0)));
    assert!(coordinator.ack(0, first));
    assert!(!coordinator.is_complete());
    assert!(coordinator.ack(1, first));
    assert!(coordinator.is_complete());
    // the next epoch forgets the acknowledgements
    let second = coordinator.trigger_checkpoint();
    assert_eq!(second.0, 2);
    assert!(!coordinator.is_complete());
}

#[test]
fn worker_health_and_job_status() {
    let mut tracker = HeartbeatTracker::new(2);
    tracker.on_missed_poll(0);
    tracker.on_missed_poll(0);
    assert!(!tracker.is_unhealthy(0));
    // a heartbeat in time starts the count over
    tracker.on_heartbeat(0);
    tracker.on_missed_poll(0);
    tracker.on_missed_poll(0);
    tracker.on_missed_poll(0);
    assert!(tracker.is_unhealthy(0));
    assert!(!tracker.is_unhealthy(1));
    assert!(tracker.any_unhealthy());

    assert_eq!(job_status(true, true, true), JobStatus::JobFailure);
    assert_eq!(job_status(false, true, false), JobStatus::Running);
    assert_eq!(job_status(false, false, true), JobStatus::Running);
    assert_eq!(job_status(false, true, true), JobStatus::Completed);
}
