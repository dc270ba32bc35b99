use vstd::prelude::*;

use crate::sample::Sample;
use crate::stream::{
    Add, Const, Empty, Envelope, Mix, ModulatedSineWave, Multiply, Perlin, SawtoothWave, Silence,
    SineWave, SquareWave, Stream, TriangleWave, WhiteNoise, SAMPLE_RATE,
};

verus! {

/// The kind of value that flows along an edge.
#[derive(Clone, Copy, Debug, PartialEq, Eq, Structural)]
pub enum MyDataType {
    Stream,
    Const,
}

/// A value held by a port: a pipeline or a scalar.
#[derive(Debug)]
pub enum MyValueType<S> {
    Stream { value: Stream<S> },
    Const { value: S },
}

/// The errors of port lookup and evaluation.
#[derive(Clone, Copy, Debug, PartialEq, Eq, Structural)]
pub enum EvalError {
    /// No input or output of that name on the node.
    MissingPort,
    /// A resolved value is not of the kind that its consumer needs.
    TypeMismatch,
    /// An upstream output could not be produced.
    UnresolvedDependency,
}

/// The errors of connecting two ports.
#[derive(Clone, Copy, Debug, PartialEq, Eq, Structural)]
pub enum ConnectError {
    /// The input or the output does not exist.
    NoSuchPort,
    /// The input accepts no connection.
    NotConnectable,
    /// The two ports carry different kinds of value.
    TypeMismatch,
    /// The two ports belong to the same node.
    SameNode,
}

/// Whether an input takes a connection, an inline constant, or either.
#[derive(Clone, Copy, Debug, PartialEq, Eq, Structural)]
pub enum InputParamKind {
    ConnectionOnly,
    ConstantOnly,
    ConnectionOrConstant,
}

/// The names of the ports of the node templates.
#[derive(Clone, Copy, Debug, PartialEq, Eq, Structural)]
pub enum PortName {
    Frequency,
    Modulation,
    P,
    A,
    B,
    Value,
    Scale,
    Peak,
    AttackDuration,
    DecayDuration,
    SustainLevel,
    SustainDuration,
    ReleaseDuration,
    Stream,
}

impl<S: Sample> MyValueType<S> {
    /// The pipeline, or `TypeMismatch` for a scalar.
    pub fn try_to_stream(self) -> (r: Result<Stream<S>, EvalError>)
        ensures
            r == match self {
                MyValueType::Stream { value } => Ok(value),
                MyValueType::Const { .. } => Err(EvalError::TypeMismatch),
            },
    {
        match self {
            MyValueType::Stream { value } => Ok(value),
            MyValueType::Const { .. } => Err(EvalError::TypeMismatch),
        }
    }

    /// The scalar, or `TypeMismatch` for a pipeline.
    pub fn try_to_const(self) -> (r: Result<S, EvalError>)
        ensures
            r == match self {
                MyValueType::Const { value } => Ok(value),
                MyValueType::Stream { .. } => Err(EvalError::TypeMismatch),
            },
    {
        match self {
            MyValueType::Const { value } => Ok(value),
            MyValueType::Stream { .. } => Err(EvalError::TypeMismatch),
        }
    }

    pub fn duplicate(&self) -> (r: MyValueType<S>)
        ensures
            r == *self,
    {
        match self {
            MyValueType::Stream { value } => MyValueType::Stream { value: value.duplicate() },
            MyValueType::Const { value } => MyValueType::Const { value: *value },
        }
    }
}

impl<S: Sample> Clone for MyValueType<S> {
    fn clone(&self) -> (r: MyValueType<S>)
        ensures
            r == *self,
    {
        self.duplicate()
    }
}

impl<S: Sample> Default for MyValueType<S> {
    /// An `Empty` pipeline.
    fn default() -> (r: MyValueType<S>)
        ensures
            r == (MyValueType::Stream { value: Stream::<S>::Empty(Empty { sample_rate: SAMPLE_RATE }) }),
    {
        MyValueType::Stream { value: Stream::default() }
    }
}

/// What a node carries besides its ports: the template it was made from.
#[derive(Debug)]
pub struct MyNodeData<S> {
    pub template: Stream<S>,
}

/// An input port of a node, with the inline value used while it is not
/// connected.
#[derive(Debug)]
pub struct InputParam<S> {
    pub node: usize,
    pub name: PortName,
    pub typ: MyDataType,
    pub value: MyValueType<S>,
    pub kind: InputParamKind,
}

/// An output port of a node.
#[derive(Clone, Copy, Debug)]
pub struct OutputParam {
    pub node: usize,
    pub name: PortName,
    pub typ: MyDataType,
}

/// A node: its data and the identities of its ports, in order.
#[derive(Debug)]
pub struct Node<S> {
    pub user_data: MyNodeData<S>,
    pub inputs: Vec<usize>,
    pub outputs: Vec<usize>,
}

/// The description of one input port of a template.
pub struct PortSpec<S> {
    pub name: PortName,
    pub typ: MyDataType,
    pub kind: InputParamKind,
    pub value: MyValueType<S>,
}

/// A graph of nodes with named, typed ports. Nodes, inputs and outputs are
/// identified by their index in the respective table; a removed one leaves
/// `None` behind, so identities stay stable. `connections[i]` is the output
/// that feeds input `i`, if any.
#[derive(Debug)]
pub struct Graph<S> {
    pub nodes: Vec<Option<Node<S>>>,
    pub inputs: Vec<Option<InputParam<S>>>,
    pub outputs: Vec<Option<OutputParam>>,
    pub connections: Vec<Option<usize>>,
}

pub open spec fn const_port<S>(name: PortName, value: S) -> PortSpec<S> {
    PortSpec {
        name,
        typ: MyDataType::Const,
        kind: InputParamKind::ConnectionOrConstant,
        value: MyValueType::Const { value },
    }
}

pub open spec fn stream_port<S>(name: PortName, value: Stream<S>) -> PortSpec<S> {
    PortSpec {
        name,
        typ: MyDataType::Stream,
        kind: InputParamKind::ConnectionOnly,
        value: MyValueType::Stream { value },
    }
}

/// The inputs of a node made from `t`, in order; their inline values are
/// the template's own parameters and operands. Every template has one
/// output, `Stream`, of kind `Stream`.
pub open spec fn input_schema<S>(t: Stream<S>) -> Seq<PortSpec<S>> {
    match t {
        Stream::SineWave(w) => seq![const_port(PortName::Frequency, w.frequency)],
        Stream::SquareWave(w) => seq![const_port(PortName::Frequency, w.frequency)],
        Stream::TriangleWave(w) => seq![const_port(PortName::Frequency, w.frequency)],
        Stream::SawtoothWave(w) => seq![const_port(PortName::Frequency, w.frequency)],
        Stream::ModulatedSineWave(w) => seq![
            const_port(PortName::Frequency, w.frequency),
            stream_port(PortName::Modulation, *w.modulator),
        ],
        Stream::Mix(m) => seq![
            const_port(PortName::P, m.p),
            stream_port(PortName::A, *m.stream_a),
            stream_port(PortName::B, *m.stream_b),
        ],
        Stream::Const(c) => seq![const_port(PortName::Value, c.val)],
        Stream::Envelope(e) => seq![
            stream_port(PortName::Stream, *e.stream),
            const_port(PortName::Peak, e.adsr.a),
            const_port(PortName::AttackDuration, e.adsr.ad),
            const_port(PortName::DecayDuration, e.adsr.dd),
            const_port(PortName::SustainLevel, e.adsr.s),
            const_port(PortName::SustainDuration, e.adsr.sd),
            const_port(PortName::ReleaseDuration, e.adsr.rd),
        ],
        Stream::Perlin(p) => seq![const_port(PortName::Scale, p.scale)],
        Stream::Add(m) => seq![
            stream_port(PortName::A, *m.stream_a),
            stream_port(PortName::B, *m.stream_b),
        ],
        Stream::Multiply(m) => seq![
            stream_port(PortName::A, *m.stream_a),
            stream_port(PortName::B, *m.stream_b),
        ],
        _ => seq![],
    }
}

impl<S> Graph<S> {
    pub open spec fn live_node(self, n: int) -> bool {
        0 <= n < self.nodes@.len() && self.nodes@[n] is Some
    }

    pub open spec fn live_input(self, i: int) -> bool {
        0 <= i < self.inputs@.len() && self.inputs@[i] is Some
    }

    pub open spec fn live_output(self, o: int) -> bool {
        0 <= o < self.outputs@.len() && self.outputs@[o] is Some
    }

    pub open spec fn node(self, n: int) -> Node<S> {
        self.nodes@[n]->Some_0
    }

    pub open spec fn input(self, i: int) -> InputParam<S> {
        self.inputs@[i]->Some_0
    }

    pub open spec fn output(self, o: int) -> OutputParam {
        self.outputs@[o]->Some_0
    }

    /// The output that feeds input `i`, if any.
    pub open spec fn source(self, i: int) -> Option<usize> {
        self.connections@[i]
    }

    /// The tables agree: every port listed by a live node is live and
    /// belongs to it, every live port belongs to a live node, and every
    /// connection joins a live input to a live output of the same kind on
    /// another node.
    pub open spec fn wf(self) -> bool {
        &&& self.connections@.len() == self.inputs@.len()
        &&& forall|n: int| #[trigger] self.live_node(n) ==> {
            &&& forall|k: int| 0 <= k < self.node(n).inputs@.len() ==> {
                &&& self.live_input(#[trigger] self.node(n).inputs@[k] as int)
                &&& self.input(self.node(n).inputs@[k] as int).node == n
            }
            &&& forall|k: int| 0 <= k < self.node(n).outputs@.len() ==> {
                &&& self.live_output(#[trigger] self.node(n).outputs@[k] as int)
                &&& self.output(self.node(n).outputs@[k] as int).node == n
            }
        }
        &&& forall|i: int| #[trigger] self.live_input(i) ==> self.live_node(self.input(i).node as int)
        &&& forall|o: int| #[trigger] self.live_output(o) ==> self.live_node(self.output(o).node as int)
        &&& forall|i: int| 0 <= i < self.connections@.len() && (#[trigger] self.connections@[i]) is Some ==> {
            let o = self.connections@[i]->Some_0 as int;
            &&& self.live_input(i)
            &&& self.live_output(o)
            &&& self.output(o).typ == self.input(i).typ
            &&& self.output(o).node != self.input(i).node
        }
    }

    /// The first of `ids[k..]` that names an input called `name`.
    pub open spec fn first_input(self, ids: Seq<usize>, name: PortName, k: int) -> Option<usize>
        decreases ids.len() - k,
    {
        if k < 0 || k >= ids.len() {
            None
        } else if self.input(ids[k] as int).name == name {
            Some(ids[k])
        } else {
            self.first_input(ids, name, k + 1)
        }
    }

    /// The first of `ids[k..]` that names an output called `name`.
    pub open spec fn first_output(self, ids: Seq<usize>, name: PortName, k: int) -> Option<usize>
        decreases ids.len() - k,
    {
        if k < 0 || k >= ids.len() {
            None
        } else if self.output(ids[k] as int).name == name {
            Some(ids[k])
        } else {
            self.first_output(ids, name, k + 1)
        }
    }

    /// The input named `name` on node `n`.
    pub open spec fn find_input(self, n: int, name: PortName) -> Option<usize> {
        self.first_input(self.node(n).inputs@, name, 0)
    }

    /// The output named `name` on node `n`.
    pub open spec fn find_output(self, n: int, name: PortName) -> Option<usize> {
        self.first_output(self.node(n).outputs@, name, 0)
    }
}

/// Whether input port `p` has the name, kinds and inline value that `spec`
/// describes.
pub open spec fn port_follows<S>(p: InputParam<S>, spec: PortSpec<S>) -> bool {
    &&& p.name == spec.name
    &&& p.typ == spec.typ
    &&& p.kind == spec.kind
    &&& p.value == spec.value
}

/// The inputs of a node made from `t`, as `input_schema` lists them.
pub fn input_ports<S: Sample>(t: &Stream<S>) -> (r: Vec<PortSpec<S>>)
    ensures
        r@ == input_schema(*t),
{
    let cp = |name: PortName, value: S| -> (r: PortSpec<S>)
        ensures
            r == const_port(name, value),
        {
            PortSpec {
                name,
                typ: MyDataType::Const,
                kind: InputParamKind::ConnectionOrConstant,
                value: MyValueType::Const { value },
            }
        };
    let sp = |name: PortName, value: &Stream<S>| -> (r: PortSpec<S>)
        ensures
            r == stream_port(name, *value),
        {
            PortSpec {
                name,
                typ: MyDataType::Stream,
                kind: InputParamKind::ConnectionOnly,
                value: MyValueType::Stream { value: value.duplicate() },
            }
        };
    let r = match t {
        Stream::SineWave(w) => vec![cp(PortName::Frequency, w.frequency)],
        Stream::SquareWave(w) => vec![cp(PortName::Frequency, w.frequency)],
        Stream::TriangleWave(w) => vec![cp(PortName::Frequency, w.frequency)],
        Stream::SawtoothWave(w) => vec![cp(PortName::Frequency, w.frequency)],
        Stream::ModulatedSineWave(w) => vec![
            cp(PortName::Frequency, w.frequency),
            sp(PortName::Modulation, &w.modulator),
        ],
        Stream::Mix(m) => vec![
            cp(PortName::P, m.p),
            sp(PortName::A, &m.stream_a),
            sp(PortName::B, &m.stream_b),
        ],
        Stream::Const(c) => vec![cp(PortName::Value, c.val)],
        Stream::Envelope(e) => vec![
            sp(PortName::Stream, &e.stream),
            cp(PortName::Peak, e.adsr.a),
            cp(PortName::AttackDuration, e.adsr.ad),
            cp(PortName::DecayDuration, e.adsr.dd),
            cp(PortName::SustainLevel, e.adsr.s),
            cp(PortName::SustainDuration, e.adsr.sd),
            cp(PortName::ReleaseDuration, e.adsr.rd),
        ],
        Stream::Perlin(p) => vec![cp(PortName::Scale, p.scale)],
        Stream::Add(m) => vec![sp(PortName::A, &m.stream_a), sp(PortName::B, &m.stream_b)],
        Stream::Multiply(m) => vec![sp(PortName::A, &m.stream_a), sp(PortName::B, &m.stream_b)],
        _ => Vec::new(),
    };
    assert(r@ =~= input_schema(*t));
    r
}

impl<S: Sample> Graph<S> {
    /// A graph with no node.
    pub fn new() -> (r: Graph<S>)
        ensures
            r.wf(),
            r.nodes@.len() == 0,
            r.inputs@.len() == 0,
            r.outputs@.len() == 0,
    {
        Graph { nodes: Vec::new(), inputs: Vec::new(), outputs: Vec::new(), connections: Vec::new() }
    }

    /// The input named `name` on node `node_id`.
    pub fn get_input(&self, node_id: usize, name: PortName) -> (r: Result<usize, EvalError>)
        requires
            self.wf(),
            self.live_node(node_id as int),
        ensures
            r == match self.find_input(node_id as int, name) {
                Some(i) => Ok(i),
                None => Err(EvalError::MissingPort),
            },
    {
        let node = match &self.nodes[node_id] {
            Some(node) => node,
            None => {
                return Err(EvalError::MissingPort);
            },
        };
        let ids = &node.inputs;
        let mut k: usize = 0;
        while k < ids.len()
            invariant
                self.wf(),
                self.live_node(node_id as int),
                ids@ == self.node(node_id as int).inputs@,
                k <= ids@.len(),
                self.first_input(ids@, name, k as int) == self.find_input(node_id as int, name),
            decreases ids@.len() - k,
        {
            let i = ids[k];
            assert(self.live_input(ids@[k as int] as int));
            match &self.inputs[i] {
                Some(p) => {
                    if p.name == name {
                        return Ok(i);
                    }
                },
                None => {},
            }
            k += 1;
        }
        Err(EvalError::MissingPort)
    }

    /// The output named `name` on node `node_id`.
    pub fn get_output(&self, node_id: usize, name: PortName) -> (r: Result<usize, EvalError>)
        requires
            self.wf(),
            self.live_node(node_id as int),
        ensures
            r == match self.find_output(node_id as int, name) {
                Some(o) => Ok(o),
                None => Err(EvalError::MissingPort),
            },
    {
        let node = match &self.nodes[node_id] {
            Some(node) => node,
            None => {
                return Err(EvalError::MissingPort);
            },
        };
        let ids = &node.outputs;
        let mut k: usize = 0;
        while k < ids.len()
            invariant
                self.wf(),
                self.live_node(node_id as int),
                ids@ == self.node(node_id as int).outputs@,
                k <= ids@.len(),
                self.first_output(ids@, name, k as int) == self.find_output(node_id as int, name),
            decreases ids@.len() - k,
        {
            let o = ids[k];
            assert(self.live_output(ids@[k as int] as int));
            match &self.outputs[o] {
                Some(p) => {
                    if p.name == name {
                        return Ok(o);
                    }
                },
                None => {},
            }
            k += 1;
        }
        Err(EvalError::MissingPort)
    }

    /// The output that feeds `input`, if any.
    pub fn connection(&self, input: usize) -> (r: Option<usize>)
        requires
            self.wf(),
        ensures
            r == if input < self.connections@.len() {
                self.connections@[input as int]
            } else {
                None
            },
    {
        if input < self.connections.len() {
            self.connections[input]
        } else {
            None
        }
    }

    /// Adds an input port to node `node_id`, unconnected, and returns its
    /// identity.
    pub fn add_input_param(
        &mut self,
        node_id: usize,
        name: PortName,
        typ: MyDataType,
        value: MyValueType<S>,
        kind: InputParamKind,
    ) -> (r: usize)
        requires
            old(self).wf(),
            old(self).live_node(node_id as int),
            old(self).inputs@.len() < usize::MAX,
        ensures
            final(self).wf(),
            r == old(self).inputs@.len(),
            final(self).inputs@ == old(self).inputs@.push(
                Some(InputParam { node: node_id, name, typ, value, kind }),
            ),
            final(self).connections@ == old(self).connections@.push(None),
            final(self).outputs@ == old(self).outputs@,
            final(self).nodes@.len() == old(self).nodes@.len(),
            final(self).live_node(node_id as int),
            final(self).node(node_id as int).user_data == old(self).node(node_id as int).user_data,
            final(self).node(node_id as int).inputs@ == old(self).node(node_id as int).inputs@.push(r),
            final(self).node(node_id as int).outputs@ == old(self).node(node_id as int).outputs@,
            forall|m: int| 0 <= m < old(self).nodes@.len() && m != node_id ==> #[trigger] final(self).nodes@[m] == old(self).nodes@[m],
    {
        let id = self.inputs.len();
        self.inputs.push(Some(InputParam { node: node_id, name, typ, value, kind }));
        self.connections.push(None);
        let mut slot: Option<Node<S>> = None;
        self.nodes.set_and_swap(node_id, &mut slot);
        match slot {
            Some(mut node) => {
                node.inputs.push(id);
                self.nodes.set(node_id, Some(node));
            },
            None => {},
        }
        assert forall|n: int| #[trigger] self.live_node(n) implies {
            &&& forall|k: int| 0 <= k < self.node(n).inputs@.len() ==> {
                &&& self.live_input(#[trigger] self.node(n).inputs@[k] as int)
                &&& self.input(self.node(n).inputs@[k] as int).node == n
            }
            &&& forall|k: int| 0 <= k < self.node(n).outputs@.len() ==> {
                &&& self.live_output(#[trigger] self.node(n).outputs@[k] as int)
                &&& self.output(self.node(n).outputs@[k] as int).node == n
            }
        } by {
            assert(old(self).live_node(n));
            if n == node_id {
                assert forall|k: int| 0 <= k < self.node(n).inputs@.len() implies {
                    &&& self.live_input(#[trigger] self.node(n).inputs@[k] as int)
                    &&& self.input(self.node(n).inputs@[k] as int).node == n
                } by {
                    if k < old(self).node(n).inputs@.len() {
                        assert(old(self).live_input(old(self).node(n).inputs@[k] as int));
                    }
                }
            } else {
                assert forall|k: int| 0 <= k < self.node(n).inputs@.len() implies {
                    &&& self.live_input(#[trigger] self.node(n).inputs@[k] as int)
                    &&& self.input(self.node(n).inputs@[k] as int).node == n
                } by {
                    assert(old(self).live_input(old(self).node(n).inputs@[k] as int));
                }
            }
            assert forall|k: int| 0 <= k < self.node(n).outputs@.len() implies {
                &&& self.live_output(#[trigger] self.node(n).outputs@[k] as int)
                &&& self.output(self.node(n).outputs@[k] as int).node == n
            } by {
                assert(old(self).live_output(old(self).node(n).outputs@[k] as int));
            }
        }
        assert forall|i: int| #[trigger] self.live_input(i) implies self.live_node(self.input(i).node as int) by {
            if i < old(self).inputs@.len() {
                assert(old(self).live_input(i));
            }
        }
        assert forall|o: int| #[trigger] self.live_output(o) implies self.live_node(self.output(o).node as int) by {
            assert(old(self).live_output(o));
        }
        assert forall|i: int| 0 <= i < self.connections@.len() && (#[trigger] self.connections@[i]) is Some implies {
            let o = self.connections@[i]->Some_0 as int;
            &&& self.live_input(i)
            &&& self.live_output(o)
            &&& self.output(o).typ == self.input(i).typ
            &&& self.output(o).node != self.input(i).node
        } by {
            assert(old(self).connections@[i] is Some);
        }
        id
    }

    /// Adds an output port to node `node_id` and returns its identity.
    pub fn add_output_param(&mut self, node_id: usize, name: PortName, typ: MyDataType) -> (r: usize)
        requires
            old(self).wf(),
            old(self).live_node(node_id as int),
        ensures
            final(self).wf(),
            r == old(self).outputs@.len(),
            final(self).outputs@ == old(self).outputs@.push(Some(OutputParam { node: node_id, name, typ })),
            final(self).inputs@ == old(self).inputs@,
            final(self).connections@ == old(self).connections@,
            final(self).nodes@.len() == old(self).nodes@.len(),
            final(self).live_node(node_id as int),
            final(self).node(node_id as int).user_data == old(self).node(node_id as int).user_data,
            final(self).node(node_id as int).inputs@ == old(self).node(node_id as int).inputs@,
            final(self).node(node_id as int).outputs@ == old(self).node(node_id as int).outputs@.push(r),
            forall|m: int| 0 <= m < old(self).nodes@.len() && m != node_id ==> #[trigger] final(self).nodes@[m] == old(self).nodes@[m],
    {
        let id = self.outputs.len();
        self.outputs.push(Some(OutputParam { node: node_id, name, typ }));
        let mut slot: Option<Node<S>> = None;
        self.nodes.set_and_swap(node_id, &mut slot);
        match slot {
            Some(mut node) => {
                node.outputs.push(id);
                self.nodes.set(node_id, Some(node));
            },
            None => {},
        }
        assert forall|n: int| #[trigger] self.live_node(n) implies {
            &&& forall|k: int| 0 <= k < self.node(n).inputs@.len() ==> {
                &&& self.live_input(#[trigger] self.node(n).inputs@[k] as int)
                &&& self.input(self.node(n).inputs@[k] as int).node == n
            }
            &&& forall|k: int| 0 <= k < self.node(n).outputs@.len() ==> {
                &&& self.live_output(#[trigger] self.node(n).outputs@[k] as int)
                &&& self.output(self.node(n).outputs@[k] as int).node == n
            }
        } by {
            assert(old(self).live_node(n));
            assert forall|k: int| 0 <= k < self.node(n).inputs@.len() implies {
                &&& self.live_input(#[trigger] self.node(n).inputs@[k] as int)
                &&& self.input(self.node(n).inputs@[k] as int).node == n
            } by {
                assert(old(self).live_input(old(self).node(n).inputs@[k] as int));
            }
            assert forall|k: int| 0 <= k < self.node(n).outputs@.len() implies {
                &&& self.live_output(#[trigger] self.node(n).outputs@[k] as int)
                &&& self.output(self.node(n).outputs@[k] as int).node == n
            } by {
                if n != node_id || k < old(self).node(n).outputs@.len() {
                    assert(old(self).live_output(old(self).node(n).outputs@[k] as int));
                }
            }
        }
        assert forall|i: int| #[trigger] self.live_input(i) implies self.live_node(self.input(i).node as int) by {
            assert(old(self).live_input(i));
        }
        assert forall|o: int| #[trigger] self.live_output(o) implies self.live_node(self.output(o).node as int) by {
            if o < old(self).outputs@.len() {
                assert(old(self).live_output(o));
            }
        }
        assert forall|i: int| 0 <= i < self.connections@.len() && (#[trigger] self.connections@[i]) is Some implies {
            let o = self.connections@[i]->Some_0 as int;
            &&& self.live_input(i)
            &&& self.live_output(o)
            &&& self.output(o).typ == self.input(i).typ
            &&& self.output(o).node != self.input(i).node
        } by {
            assert(old(self).connections@[i] is Some);
        }
        id
    }

    /// Adds a node made from `template`, with the inputs that
    /// `input_schema` gives and one output `Stream`, all unconnected; returns
    /// its identity. Nothing that was there changes.
    pub fn add_node(&mut self, template: Stream<S>) -> (r: usize)
        requires
            old(self).wf(),
            old(self).inputs@.len() + 16 < usize::MAX,
        ensures
            final(self).wf(),
            r == old(self).nodes@.len(),
            final(self).nodes@.len() == old(self).nodes@.len() + 1,
            final(self).live_node(r as int),
            final(self).node(r as int).user_data.template == template,
            final(self).node(r as int).inputs@.len() == input_schema(template).len(),
            forall|k: int| 0 <= k < input_schema(template).len() ==> {
                let i = #[trigger] final(self).node(r as int).inputs@[k] as int;
                &&& final(self).live_input(i)
                &&& port_follows(final(self).input(i), input_schema(template)[k])
                &&& final(self).connections@[i] is None
            },
            final(self).node(r as int).outputs@.len() == 1,
            final(self).output(final(self).node(r as int).outputs@[0] as int) == (OutputParam {
                node: r,
                name: PortName::Stream,
                typ: MyDataType::Stream,
            }),
            forall|m: int| 0 <= m < old(self).nodes@.len() ==> #[trigger] final(self).nodes@[m] == old(self).nodes@[m],
            final(self).inputs@.subrange(0, old(self).inputs@.len() as int) == old(self).inputs@,
            final(self).connections@.subrange(0, old(self).connections@.len() as int) == old(self).connections@,
            final(self).outputs@.subrange(0, old(self).outputs@.len() as int) == old(self).outputs@,
    {
        let ports = input_ports(&template);
        let id = self.nodes.len();
        self.nodes.push(Some(Node { user_data: MyNodeData { template }, inputs: Vec::new(), outputs: Vec::new() }));
        assert(self.wf()) by {
            assert forall|n: int| #[trigger] self.live_node(n) implies {
                &&& forall|k: int| 0 <= k < self.node(n).inputs@.len() ==> {
                    &&& self.live_input(#[trigger] self.node(n).inputs@[k] as int)
                    &&& self.input(self.node(n).inputs@[k] as int).node == n
                }
                &&& forall|k: int| 0 <= k < self.node(n).outputs@.len() ==> {
                    &&& self.live_output(#[trigger] self.node(n).outputs@[k] as int)
                    &&& self.output(self.node(n).outputs@[k] as int).node == n
                }
            } by {
                if n < id {
                    assert(old(self).live_node(n));
                }
            }
            assert forall|i: int| #[trigger] self.live_input(i) implies self.live_node(self.input(i).node as int) by {
                assert(old(self).live_input(i));
            }
            assert forall|o: int| #[trigger] self.live_output(o) implies self.live_node(self.output(o).node as int) by {
                assert(old(self).live_output(o));
            }
        }
        let mut k: usize = 0;
        while k < ports.len()
            invariant
                self.wf(),
                old(self).wf(),
                old(self).inputs@.len() + 16 < usize::MAX,
                ports@ == input_schema(template),
                ports@.len() <= 7,
                k <= ports@.len(),
                id == old(self).nodes@.len(),
                self.nodes@.len() == id + 1,
                self.live_node(id as int),
                self.node(id as int).user_data.template == template,
                self.node(id as int).inputs@.len() == k,
                self.node(id as int).outputs@.len() == 0,
                self.inputs@.len() == old(self).inputs@.len() + k,
                forall|j: int| 0 <= j < k ==> {
                    let i = #[trigger] self.node(id as int).inputs@[j] as int;
                    &&& self.live_input(i)
                    &&& port_follows(self.input(i), ports@[j])
                    &&& self.connections@[i] is None
                },
                forall|m: int| 0 <= m < id ==> #[trigger] self.nodes@[m] == old(self).nodes@[m],
                self.inputs@.subrange(0, old(self).inputs@.len() as int) == old(self).inputs@,
                self.connections@.subrange(0, old(self).connections@.len() as int) == old(self).connections@,
                self.outputs@ == old(self).outputs@,
            decreases ports@.len() - k,
        {
            let ghost before = *self;
            let value = ports[k].value.duplicate();
            let i = self.add_input_param(id, ports[k].name, ports[k].typ, value, ports[k].kind);
            assert forall|j: int| 0 <= j < k + 1 implies {
                let i = #[trigger] self.node(id as int).inputs@[j] as int;
                &&& self.live_input(i)
                &&& port_follows(self.input(i), ports@[j])
                &&& self.connections@[i] is None
            } by {
                if j < k {
                    let ii = before.node(id as int).inputs@[j] as int;
                    assert(before.live_input(ii));
                }
            }
            assert(self.inputs@.subrange(0, old(self).inputs@.len() as int) =~= before.inputs@.subrange(0, old(self).inputs@.len() as int));
            assert(self.connections@.subrange(0, old(self).connections@.len() as int) =~= before.connections@.subrange(0, old(self).connections@.len() as int));
            k += 1;
        }
        let ghost before = *self;
        self.add_output_param(id, PortName::Stream, MyDataType::Stream);
        assert forall|j: int| 0 <= j < input_schema(template).len() implies {
            let i = #[trigger] self.node(id as int).inputs@[j] as int;
            &&& self.live_input(i)
            &&& port_follows(self.input(i), input_schema(template)[j])
            &&& self.connections@[i] is None
        } by {
            let ii = before.node(id as int).inputs@[j] as int;
            assert(before.live_input(ii));
        }
        assert(self.outputs@.subrange(0, old(self).outputs@.len() as int) =~= old(self).outputs@);
        id
    }

    /// Feeds `input` from `output`, in place of its former source if it had
    /// one. Refused, with the graph unchanged, when a port does not exist,
    /// the input takes no connection, the kinds differ, or both ports are on
    /// one node.
    pub fn add_connection(&mut self, output: usize, input: usize) -> (r: Result<(), ConnectError>)
        requires
            old(self).wf(),
        ensures
            final(self).wf(),
            r == connect_result(*old(self), output, input),
            r is Ok ==> final(self).connections@ == old(self).connections@.update(input as int, Some(output)),
            final(self).nodes@ == old(self).nodes@,
            final(self).inputs@ == old(self).inputs@,
            final(self).outputs@ == old(self).outputs@,
            r is Err ==> final(self).connections@ == old(self).connections@,
    {
        if input >= self.inputs.len() || output >= self.outputs.len() {
            return Err(ConnectError::NoSuchPort);
        }
        let (in_node, in_typ, in_kind) = match &self.inputs[input] {
            Some(p) => (p.node, p.typ, p.kind),
            None => {
                return Err(ConnectError::NoSuchPort);
            },
        };
        let (out_node, out_typ) = match &self.outputs[output] {
            Some(p) => (p.node, p.typ),
            None => {
                return Err(ConnectError::NoSuchPort);
            },
        };
        if in_kind == InputParamKind::ConstantOnly {
            return Err(ConnectError::NotConnectable);
        }
        if in_typ != out_typ {
            return Err(ConnectError::TypeMismatch);
        }
        if in_node == out_node {
            return Err(ConnectError::SameNode);
        }
        self.connections.set(input, Some(output));
        assert forall|i: int| 0 <= i < self.connections@.len() && (#[trigger] self.connections@[i]) is Some implies {
            let o = self.connections@[i]->Some_0 as int;
            &&& self.live_input(i)
            &&& self.live_output(o)
            &&& self.output(o).typ == self.input(i).typ
            &&& self.output(o).node != self.input(i).node
        } by {
            if i != input {
                assert(old(self).connections@[i] is Some);
            }
        }
        proof {
            lemma_same_tables(*old(self), *self);
        }
        Ok(())
    }

    /// Disconnects `input`; returns the output that fed it, if any.
    pub fn remove_connection(&mut self, input: usize) -> (r: Option<usize>)
        requires
            old(self).wf(),
        ensures
            final(self).wf(),
            r == if input < old(self).connections@.len() {
                old(self).connections@[input as int]
            } else {
                None
            },
            final(self).connections@ == if input < old(self).connections@.len() {
                old(self).connections@.update(input as int, None)
            } else {
                old(self).connections@
            },
            final(self).nodes@ == old(self).nodes@,
            final(self).inputs@ == old(self).inputs@,
            final(self).outputs@ == old(self).outputs@,
    {
        if input >= self.connections.len() {
            return None;
        }
        let old_source = self.connections[input];
        self.connections.set(input, None);
        assert forall|i: int| 0 <= i < self.connections@.len() && (#[trigger] self.connections@[i]) is Some implies {
            let o = self.connections@[i]->Some_0 as int;
            &&& self.live_input(i)
            &&& self.live_output(o)
            &&& self.output(o).typ == self.input(i).typ
            &&& self.output(o).node != self.input(i).node
        } by {
            assert(old(self).connections@[i] is Some);
        }
        proof {
            lemma_same_tables(*old(self), *self);
        }
        old_source
    }
}

/// A graph whose node and port tables equal those of a well-formed one, and
/// whose connections are sound, is well formed.
proof fn lemma_same_tables<S>(a: Graph<S>, b: Graph<S>)
    requires
        a.wf(),
        b.nodes@ == a.nodes@,
        b.inputs@ == a.inputs@,
        b.outputs@ == a.outputs@,
        b.connections@.len() == a.connections@.len(),
        forall|i: int| 0 <= i < b.connections@.len() && (#[trigger] b.connections@[i]) is Some ==> {
            let o = b.connections@[i]->Some_0 as int;
            &&& b.live_input(i)
            &&& b.live_output(o)
            &&& b.output(o).typ == b.input(i).typ
            &&& b.output(o).node != b.input(i).node
        },
    ensures
        b.wf(),
{
    assert forall|n: int| #[trigger] b.live_node(n) implies {
        &&& forall|k: int| 0 <= k < b.node(n).inputs@.len() ==> {
            &&& b.live_input(#[trigger] b.node(n).inputs@[k] as int)
            &&& b.input(b.node(n).inputs@[k] as int).node == n
        }
        &&& forall|k: int| 0 <= k < b.node(n).outputs@.len() ==> {
            &&& b.live_output(#[trigger] b.node(n).outputs@[k] as int)
            &&& b.output(b.node(n).outputs@[k] as int).node == n
        }
    } by {
        assert(a.live_node(n));
        assert forall|k: int| 0 <= k < b.node(n).inputs@.len() implies {
            &&& b.live_input(#[trigger] b.node(n).inputs@[k] as int)
            &&& b.input(b.node(n).inputs@[k] as int).node == n
        } by {
            assert(a.live_input(a.node(n).inputs@[k] as int));
        }
        assert forall|k: int| 0 <= k < b.node(n).outputs@.len() implies {
            &&& b.live_output(#[trigger] b.node(n).outputs@[k] as int)
            &&& b.output(b.node(n).outputs@[k] as int).node == n
        } by {
            assert(a.live_output(a.node(n).outputs@[k] as int));
        }
    }
    assert forall|i: int| #[trigger] b.live_input(i) implies b.live_node(b.input(i).node as int) by {
        assert(a.live_input(i));
    }
    assert forall|o: int| #[trigger] b.live_output(o) implies b.live_node(b.output(o).node as int) by {
        assert(a.live_output(o));
    }
}

/// Whether input `i` of `g` goes when node `n` is removed: it is one of the
/// node's own inputs.
pub open spec fn input_dropped<S>(g: Graph<S>, n: int, i: int) -> bool {
    g.live_input(i) && g.input(i).node == n
}

/// Whether the connection into input `i` of `g` goes when node `n` is
/// removed: the input or its source belongs to the node.
pub open spec fn connection_dropped<S>(g: Graph<S>, n: int, i: int) -> bool {
    input_dropped(g, n, i) || (g.connections@[i] is Some && g.live_output(
        g.connections@[i]->Some_0 as int,
    ) && g.output(g.connections@[i]->Some_0 as int).node == n)
}

/// Whether output `o` of `g` goes when node `n` is removed.
pub open spec fn output_dropped<S>(g: Graph<S>, n: int, o: int) -> bool {
    g.live_output(o) && g.output(o).node == n
}

impl<S: Sample> Graph<S> {
    /// Removes node `node_id`, its ports, and every connection that touches
    /// them; every other node, port and connection stays.
    pub fn remove_node(&mut self, node_id: usize)
        requires
            old(self).wf(),
            old(self).live_node(node_id as int),
        ensures
            final(self).wf(),
            final(self).nodes@ == old(self).nodes@.update(node_id as int, None),
            final(self).inputs@.len() == old(self).inputs@.len(),
            final(self).outputs@.len() == old(self).outputs@.len(),
            final(self).connections@.len() == old(self).connections@.len(),
            forall|i: int| 0 <= i < old(self).inputs@.len() ==> #[trigger] final(self).inputs@[i] == if input_dropped(*old(self), node_id as int, i) {
                None
            } else {
                old(self).inputs@[i]
            },
            forall|i: int| 0 <= i < old(self).connections@.len() ==> #[trigger] final(self).connections@[i] == if connection_dropped(*old(self), node_id as int, i) {
                None
            } else {
                old(self).connections@[i]
            },
            forall|o: int| 0 <= o < old(self).outputs@.len() ==> #[trigger] final(self).outputs@[o] == if output_dropped(*old(self), node_id as int, o) {
                None
            } else {
                old(self).outputs@[o]
            },
    {
        let ghost g = *self;
        let mut i: usize = 0;
        while i < self.inputs.len()
            invariant
                g.wf(),
                self.nodes@ == g.nodes@,
                self.outputs@ == g.outputs@,
                self.inputs@.len() == g.inputs@.len(),
                self.connections@.len() == g.connections@.len(),
                g.connections@.len() == g.inputs@.len(),
                i <= self.inputs@.len(),
                forall|j: int| 0 <= j < i ==> #[trigger] self.inputs@[j] == if input_dropped(g, node_id as int, j) {
                    None
                } else {
                    g.inputs@[j]
                },
                forall|j: int| i <= j < self.inputs@.len() ==> #[trigger] self.inputs@[j] == g.inputs@[j],
                forall|j: int| 0 <= j < i ==> #[trigger] self.connections@[j] == if connection_dropped(g, node_id as int, j) {
                    None
                } else {
                    g.connections@[j]
                },
                forall|j: int| i <= j < self.connections@.len() ==> #[trigger] self.connections@[j] == g.connections@[j],
            decreases self.inputs@.len() - i,
        {
            let own = match &self.inputs[i] {
                Some(p) => p.node == node_id,
                None => false,
            };
            let fed_by_node = match self.connections[i] {
                Some(o) => {
                    assert(g.connections@[i as int] is Some);
                    match &self.outputs[o] {
                        Some(q) => q.node == node_id,
                        None => false,
                    }
                },
                None => false,
            };
            if own {
                self.inputs.set(i, None);
            }
            if own || fed_by_node {
                self.connections.set(i, None);
            }
            i += 1;
        }
        let ghost kept_inputs = self.inputs@;
        let ghost kept_connections = self.connections@;
        let mut o: usize = 0;
        while o < self.outputs.len()
            invariant
                self.nodes@ == g.nodes@,
                self.inputs@ == kept_inputs,
                self.connections@ == kept_connections,
                self.outputs@.len() == g.outputs@.len(),
                o <= self.outputs@.len(),
                forall|j: int| 0 <= j < o ==> #[trigger] self.outputs@[j] == if output_dropped(g, node_id as int, j) {
                    None
                } else {
                    g.outputs@[j]
                },
                forall|j: int| o <= j < self.outputs@.len() ==> #[trigger] self.outputs@[j] == g.outputs@[j],
            decreases self.outputs@.len() - o,
        {
            let own = match &self.outputs[o] {
                Some(q) => q.node == node_id,
                None => false,
            };
            if own {
                self.outputs.set(o, None);
            }
            o += 1;
        }
        self.nodes.set(node_id, None);
        proof {
            assert forall|n: int| #[trigger] self.live_node(n) implies {
                &&& forall|k: int| 0 <= k < self.node(n).inputs@.len() ==> {
                    &&& self.live_input(#[trigger] self.node(n).inputs@[k] as int)
                    &&& self.input(self.node(n).inputs@[k] as int).node == n
                }
                &&& forall|k: int| 0 <= k < self.node(n).outputs@.len() ==> {
                    &&& self.live_output(#[trigger] self.node(n).outputs@[k] as int)
                    &&& self.output(self.node(n).outputs@[k] as int).node == n
                }
            } by {
                assert(g.live_node(n));
                assert forall|k: int| 0 <= k < self.node(n).inputs@.len() implies {
                    &&& self.live_input(#[trigger] self.node(n).inputs@[k] as int)
                    &&& self.input(self.node(n).inputs@[k] as int).node == n
                } by {
                    let ii = g.node(n).inputs@[k] as int;
                    assert(g.live_input(ii));
                    assert(self.inputs@[ii] == g.inputs@[ii]);
                }
                assert forall|k: int| 0 <= k < self.node(n).outputs@.len() implies {
                    &&& self.live_output(#[trigger] self.node(n).outputs@[k] as int)
                    &&& self.output(self.node(n).outputs@[k] as int).node == n
                } by {
                    let oo = g.node(n).outputs@[k] as int;
                    assert(g.live_output(oo));
                    assert(self.outputs@[oo] == g.outputs@[oo]);
                }
            }
            assert forall|i: int| #[trigger] self.live_input(i) implies self.live_node(self.input(i).node as int) by {
                assert(g.live_input(i));
            }
            assert forall|o: int| #[trigger] self.live_output(o) implies self.live_node(self.output(o).node as int) by {
                assert(g.live_output(o));
            }
            assert forall|i: int| 0 <= i < self.connections@.len() && (#[trigger] self.connections@[i]) is Some implies {
                let o = self.connections@[i]->Some_0 as int;
                &&& self.live_input(i)
                &&& self.live_output(o)
                &&& self.output(o).typ == self.input(i).typ
                &&& self.output(o).node != self.input(i).node
            } by {
                assert(g.connections@[i] is Some);
                let o = g.connections@[i]->Some_0 as int;
                assert(g.live_output(o));
                assert(self.outputs@[o] == g.outputs@[o]);
            }
        }
    }
}

/// The input that `first_input` finds is one of `ids`.
pub proof fn lemma_first_input_listed<S>(g: Graph<S>, ids: Seq<usize>, name: PortName, k: int)
    requires
        0 <= k,
        g.first_input(ids, name, k) is Some,
    ensures
        exists|j: int| k <= j < ids.len() && ids[j] == g.first_input(ids, name, k)->Some_0,
    decreases ids.len() - k,
{
    if k < ids.len() && g.input(ids[k] as int).name != name {
        lemma_first_input_listed(g, ids, name, k + 1);
    }
}

/// The output that `first_output` finds is one of `ids`.
pub proof fn lemma_first_output_listed<S>(g: Graph<S>, ids: Seq<usize>, name: PortName, k: int)
    requires
        0 <= k,
        g.first_output(ids, name, k) is Some,
    ensures
        exists|j: int| k <= j < ids.len() && ids[j] == g.first_output(ids, name, k)->Some_0,
    decreases ids.len() - k,
{
    if k < ids.len() && g.output(ids[k] as int).name != name {
        lemma_first_output_listed(g, ids, name, k + 1);
    }
}

/// What `add_connection(output, input)` answers on graph `g`.
pub open spec fn connect_result<S>(g: Graph<S>, output: usize, input: usize) -> Result<(), ConnectError> {
    if !g.live_input(input as int) || !g.live_output(output as int) {
        Err(ConnectError::NoSuchPort)
    } else if g.input(input as int).kind == InputParamKind::ConstantOnly {
        Err(ConnectError::NotConnectable)
    } else if g.input(input as int).typ != g.output(output as int).typ {
        Err(ConnectError::TypeMismatch)
    } else if g.input(input as int).node == g.output(output as int).node {
        Err(ConnectError::SameNode)
    } else {
        Ok(())
    }
}

impl<S: Sample> Graph<S> {
    /// Replaces the inline value of `input`; false, with nothing changed,
    /// when there is no such input. The value's kind is not checked here:
    /// the evaluator catches a mismatch when it resolves the input.
    pub fn set_input_value(&mut self, input: usize, value: MyValueType<S>) -> (r: bool)
        requires
            old(self).wf(),
        ensures
            final(self).wf(),
            r == old(self).live_input(input as int),
            r ==> final(self).inputs@ == old(self).inputs@.update(
                input as int,
                Some(InputParam { value, ..old(self).input(input as int) }),
            ),
            !r ==> final(self).inputs@ == old(self).inputs@,
            final(self).nodes@ == old(self).nodes@,
            final(self).outputs@ == old(self).outputs@,
            final(self).connections@ == old(self).connections@,
    {
        if input >= self.inputs.len() {
            return false;
        }
        let mut slot: Option<InputParam<S>> = None;
        self.inputs.set_and_swap(input, &mut slot);
        match slot {
            Some(p) => {
                self.inputs.set(input, Some(InputParam { value, ..p }));
                proof {
                    lemma_same_inputs_but_values(*old(self), *self);
                }
                true
            },
            None => {
                self.inputs.set(input, None);
                assert(self.inputs@ =~= old(self).inputs@);
                proof {
                    lemma_same_tables(*old(self), *self);
                }
                false
            },
        }
    }
}

/// Changing inline values keeps a graph well formed.
proof fn lemma_same_inputs_but_values<S>(a: Graph<S>, b: Graph<S>)
    requires
        a.wf(),
        b.nodes@ == a.nodes@,
        b.outputs@ == a.outputs@,
        b.connections@ == a.connections@,
        b.inputs@.len() == a.inputs@.len(),
        forall|i: int| 0 <= i < a.inputs@.len() ==> (#[trigger] b.inputs@[i] is Some) == (a.inputs@[i] is Some),
        forall|i: int| #[trigger] b.live_input(i) ==> {
            &&& b.input(i).node == a.input(i).node
            &&& b.input(i).typ == a.input(i).typ
        },
    ensures
        b.wf(),
{
    assert forall|n: int| #[trigger] b.live_node(n) implies {
        &&& forall|k: int| 0 <= k < b.node(n).inputs@.len() ==> {
            &&& b.live_input(#[trigger] b.node(n).inputs@[k] as int)
            &&& b.input(b.node(n).inputs@[k] as int).node == n
        }
        &&& forall|k: int| 0 <= k < b.node(n).outputs@.len() ==> {
            &&& b.live_output(#[trigger] b.node(n).outputs@[k] as int)
            &&& b.output(b.node(n).outputs@[k] as int).node == n
        }
    } by {
        assert(a.live_node(n));
        assert forall|k: int| 0 <= k < b.node(n).inputs@.len() implies {
            &&& b.live_input(#[trigger] b.node(n).inputs@[k] as int)
            &&& b.input(b.node(n).inputs@[k] as int).node == n
        } by {
            let i = a.node(n).inputs@[k] as int;
            assert(a.live_input(i));
            assert(b.inputs@[i] is Some);
        }
        assert forall|k: int| 0 <= k < b.node(n).outputs@.len() implies {
            &&& b.live_output(#[trigger] b.node(n).outputs@[k] as int)
            &&& b.output(b.node(n).outputs@[k] as int).node == n
        } by {
            assert(a.live_output(a.node(n).outputs@[k] as int));
        }
    }
    assert forall|i: int| #[trigger] b.live_input(i) implies b.live_node(b.input(i).node as int) by {
        assert(a.inputs@[i] is Some);
        assert(a.live_input(i));
    }
    assert forall|o: int| #[trigger] b.live_output(o) implies b.live_node(b.output(o).node as int) by {
        assert(a.live_output(o));
    }
    assert forall|i: int| 0 <= i < b.connections@.len() && (#[trigger] b.connections@[i]) is Some implies {
        let o = b.connections@[i]->Some_0 as int;
        &&& b.live_input(i)
        &&& b.live_output(o)
        &&& b.output(o).typ == b.input(i).typ
        &&& b.output(o).node != b.input(i).node
    } by {
        assert(a.connections@[i] is Some);
        assert(a.live_input(i));
        assert(b.inputs@[i] is Some);
        assert(b.live_input(i));
    }
}

/// The catalogue of node templates: one for each kind of stream.
pub struct AllMyNodeTemplates;

impl AllMyNodeTemplates {
    /// One template of each kind, in this order: sine, square, triangle and
    /// sawtooth waves at 440 Hz, modulated sine, mix, constant, empty,
    /// silence, envelope, Perlin noise, white noise, sum and product. Every
    /// stream operand of a template is `Silence`, so an input left
    /// unconnected contributes silence.
    pub fn all_kinds<S: Sample>(&self) -> (r: Vec<Stream<S>>)
        ensures
            r@.len() == 14,
            r@[0] == Stream::SineWave(SineWave { frequency: hz::<S>(), ..wave_start::<S>() }),
            r@[1] == Stream::SquareWave(SquareWave { frequency: hz::<S>(), ..square_start::<S>() }),
            r@[2] == Stream::TriangleWave(TriangleWave { frequency: hz::<S>(), ..triangle_start::<S>() }),
            r@[3] == Stream::SawtoothWave(SawtoothWave { frequency: hz::<S>(), ..sawtooth_start::<S>() }),
            r@[4] matches Stream::ModulatedSineWave(w) && *w.modulator == silence::<S>(),
            r@[5] matches Stream::Mix(m) && *m.stream_a == silence::<S>() && *m.stream_b == silence::<S>(),
            r@[6] is Const,
            r@[7] is Empty,
            r@[8] is Silence,
            r@[9] matches Stream::Envelope(e) && *e.stream == silence::<S>() && e.current_sample == 0,
            r@[10] matches Stream::Perlin(p) && p.current_sample == 0,
            r@[11] is WhiteNoise,
            r@[12] matches Stream::Add(m) && *m.stream_a == silence::<S>() && *m.stream_b == silence::<S>(),
            r@[13] matches Stream::Multiply(m) && *m.stream_a == silence::<S>() && *m.stream_b == silence::<S>(),
            forall|k: int| 0 <= k < 14 ==> (#[trigger] r@[k]).rate() == SAMPLE_RATE,
    {
        let hz = S::from_milli(440000);
        let mut sine = SineWave::new();
        sine.set_frequency(hz);
        let mut square = SquareWave::new();
        square.set_frequency(hz);
        let mut triangle = TriangleWave::new();
        triangle.set_frequency(hz);
        let mut sawtooth = SawtoothWave::new();
        sawtooth.set_frequency(hz);
        let mut modulated = ModulatedSineWave::new();
        modulated.set_modulator(Stream::Silence(Silence::new()));
        let mut mix = Mix::new();
        mix.set_stream_a(Stream::Silence(Silence::new()));
        mix.set_stream_b(Stream::Silence(Silence::new()));
        let mut envelope = Envelope::new();
        envelope.set_stream(Stream::Silence(Silence::new()));
        let mut add = Add::new();
        add.set_stream_a(Stream::Silence(Silence::new()));
        add.set_stream_b(Stream::Silence(Silence::new()));
        let mut multiply = Multiply::new();
        multiply.set_stream_a(Stream::Silence(Silence::new()));
        multiply.set_stream_b(Stream::Silence(Silence::new()));
        let r = vec![
            Stream::SineWave(sine),
            Stream::SquareWave(square),
            Stream::TriangleWave(triangle),
            Stream::SawtoothWave(sawtooth),
            Stream::ModulatedSineWave(modulated),
            Stream::Mix(mix),
            Stream::Const(Const::new()),
            Stream::Empty(Empty::new()),
            Stream::Silence(Silence::new()),
            Stream::Envelope(envelope),
            Stream::Perlin(Perlin::new()),
            Stream::WhiteNoise(WhiteNoise::new()),
            Stream::Add(add),
            Stream::Multiply(multiply),
        ];
        r
    }
}

/// The frequency of the wave templates: 440 Hz.
pub open spec fn hz<S: Sample>() -> S {
    S::spec_from_milli(440000)
}

/// A sine wave at index 0, with frequency and phase shift zero.
pub open spec fn wave_start<S: Sample>() -> SineWave<S> {
    SineWave { frequency: S::spec_from_milli(0), sample_rate: SAMPLE_RATE, current_sample: 0, phase_shift: S::spec_from_milli(0) }
}

/// A square wave at index 0, with frequency and phase shift zero.
pub open spec fn square_start<S: Sample>() -> SquareWave<S> {
    SquareWave { frequency: S::spec_from_milli(0), sample_rate: SAMPLE_RATE, current_sample: 0, phase_shift: S::spec_from_milli(0) }
}

/// A triangle wave at index 0, with frequency and phase shift zero.
pub open spec fn triangle_start<S: Sample>() -> TriangleWave<S> {
    TriangleWave { frequency: S::spec_from_milli(0), sample_rate: SAMPLE_RATE, current_sample: 0, phase_shift: S::spec_from_milli(0) }
}

/// A sawtooth wave at index 0, with frequency and phase shift zero.
pub open spec fn sawtooth_start<S: Sample>() -> SawtoothWave<S> {
    SawtoothWave { frequency: S::spec_from_milli(0), sample_rate: SAMPLE_RATE, current_sample: 0, phase_shift: S::spec_from_milli(0) }
}

/// The `Silence` stream at the library's sample rate.
pub open spec fn silence<S>() -> Stream<S> {
    Stream::Silence(Silence { sample_rate: SAMPLE_RATE })
}

} // verus!
