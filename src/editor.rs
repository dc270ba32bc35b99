use vstd::prelude::*;

use crate::eval::{evaluate, evaluation};
use crate::graph::{EvalError, Graph, MyValueType};
use crate::sample::Sample;
use crate::stream::Stream;

verus! {

/// What the editor asks of the engine when a node's activation button is
/// pressed.
#[derive(Clone, Copy, Debug, PartialEq, Eq, Structural)]
pub enum MyResponse {
    SetActiveNode(usize),
    ClearActiveNode,
}

/// What the playback device is to do next.
#[derive(Debug)]
pub enum PlaybackAction<S> {
    /// Drop what is playing and play this pipeline instead.
    Play(Stream<S>),
    /// Stop playing.
    Stop,
    /// Go on with what is playing, if anything.
    Keep,
}

/// The editor's state: the node that is active, if any.
#[derive(Clone, Copy, Debug, PartialEq, Eq, Structural)]
pub struct MyGraphState {
    pub active_node: Option<usize>,
}

/// The action that activating node `n` of `g` calls for: a new pipeline
/// when it evaluates to one, else the device keeps what it has.
pub open spec fn activation_action<S>(g: Graph<S>, n: int) -> Option<Stream<S>> {
    if g.live_node(n) {
        match evaluation(g, n) {
            Ok(MyValueType::Stream { value }) => Some(value),
            _ => None,
        }
    } else {
        None
    }
}

impl MyGraphState {
    /// No active node.
    pub fn new() -> (r: MyGraphState)
        ensures
            r.active_node is None,
    {
        MyGraphState { active_node: None }
    }

    /// Handles one response. Activating a node makes it the active one and
    /// materializes its pipeline afresh for the device; if the evaluation
    /// fails or gives a scalar, the device keeps what it plays. Clearing
    /// stops the device and leaves no node active.
    pub fn respond<S: Sample>(&mut self, graph: &Graph<S>, response: MyResponse) -> (r: PlaybackAction<S>)
        requires
            graph.wf(),
        ensures
            match response {
                MyResponse::SetActiveNode(n) => {
                    &&& final(self).active_node == Some(n)
                    &&& match activation_action(*graph, n as int) {
                        Some(s) => r == PlaybackAction::Play(s),
                        None => r is Keep,
                    }
                },
                MyResponse::ClearActiveNode => {
                    &&& final(self).active_node is None
                    &&& r is Stop
                },
            },
    {
        match response {
            MyResponse::SetActiveNode(n) => {
                self.active_node = Some(n);
                match evaluate(graph, n) {
                    Some(Ok(MyValueType::Stream { value })) => PlaybackAction::Play(value),
                    _ => PlaybackAction::Keep,
                }
            },
            MyResponse::ClearActiveNode => {
                self.active_node = None;
                PlaybackAction::Stop
            },
        }
    }

    /// The per-frame refresh: the value of the active node, evaluated afresh
    /// for display. An active node that no longer exists is forgotten.
    pub fn refresh<S: Sample>(&mut self, graph: &Graph<S>) -> (r: Option<Result<MyValueType<S>, EvalError>>)
        requires
            graph.wf(),
        ensures
            match old(self).active_node {
                Some(n) => if graph.live_node(n as int) {
                    &&& *final(self) == *old(self)
                    &&& r == Some(evaluation(*graph, n as int))
                } else {
                    &&& final(self).active_node is None
                    &&& r is None
                },
                None => *final(self) == *old(self) && r is None,
            },
    {
        match self.active_node {
            Some(n) => {
                let r = evaluate(graph, n);
                if r.is_none() {
                    self.active_node = None;
                }
                r
            },
            None => None,
        }
    }
}

} // verus!
