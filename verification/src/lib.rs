//! Core of an event-time stream-processing runtime: the element model and
//! its binary framing, watermark and window handling, checkpoint barrier
//! alignment, key partitioning, and the staged dataflow graphs.
pub mod codec;
pub mod wire;
pub mod values;
pub mod runtime_ids;
pub mod window;
pub mod element;
pub mod watermark;
pub mod align;
pub mod partition;
pub mod barrier;
pub mod checkpoint;
pub mod coordinator;
pub mod state;
pub mod channel;
pub mod properties;
pub mod runtime;
pub mod graph;
pub mod context;
pub mod split;
pub mod deployment;
pub mod metadata;
pub mod job;

