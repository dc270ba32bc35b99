//! A signal-graph synthesis engine.
//!
//! Sample generators and combinators form owned pull pipelines
//! ([`stream::Stream`]); a graph of named, typed ports ([`graph::Graph`])
//! describes how they are wired; the evaluator ([`eval::evaluate_node`])
//! turns one node of the graph into a concrete pipeline, computing each
//! upstream output once per evaluation; [`editor::MyGraphState`] decides
//! what the playback device is handed when a node is activated.
//!
//! The library is generic over the sample type: the value of each sample is
//! computed through the [`sample::Sample`] trait, while pulling,
//! termination, wiring, type checking and evaluation are verified here.

pub mod sample;
pub mod stream;
pub mod graph;
pub mod eval;
pub mod editor;

pub use editor::{MyGraphState, MyResponse, PlaybackAction};
pub use eval::{evaluate, evaluate_node, OutputsCache};
pub use graph::{
    AllMyNodeTemplates, ConnectError, EvalError, Graph, InputParamKind, MyDataType, MyNodeData,
    MyValueType, PortName,
};
pub use sample::{Adsr, Sample};
pub use stream::{
    Add, Const, Empty, Envelope, Mix, ModulatedSineWave, Multiply, Perlin, SawtoothWave, Silence,
    SineWave, SquareWave, Stream, TriangleWave, WhiteNoise, SAMPLE_RATE,
};
