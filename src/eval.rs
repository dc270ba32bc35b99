use vstd::prelude::*;

use crate::graph::{
    input_schema, lemma_first_input_listed, lemma_first_output_listed, EvalError, Graph, MyDataType,
    MyValueType, PortName,
};
use crate::sample::{Adsr, Sample};
use crate::stream::{
    Add, Const, Envelope, Mix, ModulatedSineWave, Multiply, Perlin, SawtoothWave, SineWave,
    SquareWave, Stream, TriangleWave,
};

verus! {

/// The scalar in a resolved value.
pub open spec fn as_const<S>(r: Result<MyValueType<S>, EvalError>) -> Result<S, EvalError> {
    match r {
        Ok(MyValueType::Const { value }) => Ok(value),
        Ok(MyValueType::Stream { .. }) => Err(EvalError::TypeMismatch),
        Err(e) => Err(e),
    }
}

/// The pipeline in a resolved value.
pub open spec fn as_stream<S>(r: Result<MyValueType<S>, EvalError>) -> Result<Stream<S>, EvalError> {
    match r {
        Ok(MyValueType::Stream { value }) => Ok(value),
        Ok(MyValueType::Const { .. }) => Err(EvalError::TypeMismatch),
        Err(e) => Err(e),
    }
}

/// The value of node `n` once its pipeline `s` is built: it needs an
/// output named `Stream` to go to.
pub open spec fn finish<S>(g: Graph<S>, n: int, s: Stream<S>) -> Result<MyValueType<S>, EvalError> {
    match g.find_output(n, PortName::Stream) {
        Some(_) => Ok(MyValueType::Stream { value: s }),
        None => Err(EvalError::MissingPort),
    }
}

/// The value of input `name` of node `n`, with at most `fuel` levels of
/// upstream nodes to evaluate: its inline value if it is not connected,
/// else the value of the node that owns its source, which must be that
/// node's `Stream` output.
pub open spec fn resolve<S>(g: Graph<S>, n: int, name: PortName, fuel: nat) -> Result<MyValueType<S>, EvalError>
    decreases fuel, 0nat,
{
    match g.find_input(n, name) {
        None => Err(EvalError::MissingPort),
        Some(i) => match g.connections@[i as int] {
            None => Ok(g.input(i as int).value),
            Some(o) => if fuel == 0 {
                Err(EvalError::UnresolvedDependency)
            } else {
                let m = g.output(o as int).node as int;
                match eval_node(g, m, (fuel - 1) as nat) {
                    Err(e) => Err(e),
                    Ok(v) => if g.find_output(m, PortName::Stream) == Some(o) {
                        Ok(v)
                    } else {
                        Err(EvalError::UnresolvedDependency)
                    },
                }
            },
        },
    }
}

/// The pipeline of node `n` made from template `t`: each parameter and
/// operand replaced by the value of the input of that name, resolved in
/// order; the first failure is the result.
pub open spec fn construct<S>(g: Graph<S>, n: int, t: Stream<S>, fuel: nat) -> Result<Stream<S>, EvalError>
    decreases fuel, 1nat,
{
    match t {
            Stream::SineWave(t) => match as_const(resolve(g, n, PortName::Frequency, fuel)) { Ok(x0) => Ok(Stream::SineWave(SineWave { frequency: x0, ..t })), Err(e) => Err(e) },
            Stream::SquareWave(t) => match as_const(resolve(g, n, PortName::Frequency, fuel)) { Ok(x0) => Ok(Stream::SquareWave(SquareWave { frequency: x0, ..t })), Err(e) => Err(e) },
            Stream::TriangleWave(t) => match as_const(resolve(g, n, PortName::Frequency, fuel)) { Ok(x0) => Ok(Stream::TriangleWave(TriangleWave { frequency: x0, ..t })), Err(e) => Err(e) },
            Stream::SawtoothWave(t) => match as_const(resolve(g, n, PortName::Frequency, fuel)) { Ok(x0) => Ok(Stream::SawtoothWave(SawtoothWave { frequency: x0, ..t })), Err(e) => Err(e) },
            Stream::ModulatedSineWave(t) => match as_const(resolve(g, n, PortName::Frequency, fuel)) { Ok(x0) => match as_stream(resolve(g, n, PortName::Modulation, fuel)) { Ok(x1) => Ok(Stream::ModulatedSineWave(ModulatedSineWave { frequency: x0, modulator: Box::new(x1), ..t })), Err(e) => Err(e) }, Err(e) => Err(e) },
            Stream::Mix(t) => match as_const(resolve(g, n, PortName::P, fuel)) { Ok(x0) => match as_stream(resolve(g, n, PortName::A, fuel)) { Ok(x1) => match as_stream(resolve(g, n, PortName::B, fuel)) { Ok(x2) => Ok(Stream::Mix(Mix { p: x0, stream_a: Box::new(x1), stream_b: Box::new(x2), ..t })), Err(e) => Err(e) }, Err(e) => Err(e) }, Err(e) => Err(e) },
            Stream::Const(t) => match as_const(resolve(g, n, PortName::Value, fuel)) { Ok(x0) => Ok(Stream::Const(Const { val: x0, ..t })), Err(e) => Err(e) },
            Stream::Envelope(t) => match as_stream(resolve(g, n, PortName::Stream, fuel)) { Ok(x0) => match as_const(resolve(g, n, PortName::Peak, fuel)) { Ok(x1) => match as_const(resolve(g, n, PortName::AttackDuration, fuel)) { Ok(x2) => match as_const(resolve(g, n, PortName::DecayDuration, fuel)) { Ok(x3) => match as_const(resolve(g, n, PortName::SustainLevel, fuel)) { Ok(x4) => match as_const(resolve(g, n, PortName::SustainDuration, fuel)) { Ok(x5) => match as_const(resolve(g, n, PortName::ReleaseDuration, fuel)) { Ok(x6) => Ok(Stream::Envelope(Envelope { stream: Box::new(x0), adsr: Adsr { a: x1, ad: x2, dd: x3, s: x4, sd: x5, rd: x6 }, ..t })), Err(e) => Err(e) }, Err(e) => Err(e) }, Err(e) => Err(e) }, Err(e) => Err(e) }, Err(e) => Err(e) }, Err(e) => Err(e) }, Err(e) => Err(e) },
            Stream::Perlin(t) => match as_const(resolve(g, n, PortName::Scale, fuel)) { Ok(x0) => Ok(Stream::Perlin(Perlin { scale: x0, ..t })), Err(e) => Err(e) },
            Stream::Add(t) => match as_stream(resolve(g, n, PortName::A, fuel)) { Ok(x0) => match as_stream(resolve(g, n, PortName::B, fuel)) { Ok(x1) => Ok(Stream::Add(Add { stream_a: Box::new(x0), stream_b: Box::new(x1), ..t })), Err(e) => Err(e) }, Err(e) => Err(e) },
            Stream::Multiply(t) => match as_stream(resolve(g, n, PortName::A, fuel)) { Ok(x0) => match as_stream(resolve(g, n, PortName::B, fuel)) { Ok(x1) => Ok(Stream::Multiply(Multiply { stream_a: Box::new(x0), stream_b: Box::new(x1), ..t })), Err(e) => Err(e) }, Err(e) => Err(e) },
            Stream::Empty(t) => Ok(Stream::Empty(t)),
            Stream::Silence(t) => Ok(Stream::Silence(t)),
            Stream::WhiteNoise(t) => Ok(Stream::WhiteNoise(t)),
    }
}

/// The value of node `n`: the pipeline made from its template, given to its
/// `Stream` output.
pub open spec fn eval_node<S>(g: Graph<S>, n: int, fuel: nat) -> Result<MyValueType<S>, EvalError>
    decreases fuel, 2nat,
{
    match construct(g, n, g.node(n).user_data.template, fuel) {
        Ok(s) => finish(g, n, s),
        Err(e) => Err(e),
    }
}

/// The value of node `n` of `g`, evaluated with as many levels of upstream
/// nodes as the graph has nodes. Deeper chains of connections, which only a
/// cycle makes, end with `UnresolvedDependency`.
pub open spec fn evaluation<S>(g: Graph<S>, n: int) -> Result<MyValueType<S>, EvalError> {
    eval_node(g, n, g.nodes@.len() as nat)
}

/// A resolution that succeeds with some fuel gives the same value with more.
pub proof fn lemma_resolve_mono<S>(g: Graph<S>, n: int, name: PortName, f: nat, f2: nat)
    requires
        f <= f2,
    ensures
        resolve(g, n, name, f) is Ok ==> resolve(g, n, name, f2) == resolve(g, n, name, f),
    decreases f, 0nat,
{
    if let Some(i) = g.find_input(n, name) {
        if let Some(o) = g.connections@[i as int] {
            if f > 0 {
                lemma_eval_mono(g, g.output(o as int).node as int, (f - 1) as nat, (f2 - 1) as nat);
            }
        }
    }
}

/// An evaluation that succeeds with some fuel gives the same value with more.
pub proof fn lemma_eval_mono<S>(g: Graph<S>, n: int, f: nat, f2: nat)
    requires
        f <= f2,
    ensures
        eval_node(g, n, f) is Ok ==> eval_node(g, n, f2) == eval_node(g, n, f),
    decreases f, 2nat,
{
    lemma_construct_mono(g, n, g.node(n).user_data.template, f, f2);
}

/// A construction that succeeds with some fuel gives the same pipeline with
/// more.
pub proof fn lemma_construct_mono<S>(g: Graph<S>, n: int, t: Stream<S>, f: nat, f2: nat)
    requires
        f <= f2,
    ensures
        construct(g, n, t, f) is Ok ==> construct(g, n, t, f2) == construct(g, n, t, f),
    decreases f, 1nat,
{
    if construct(g, n, t, f) is Ok {
        lemma_resolve_mono(g, n, PortName::A, f, f2);
        lemma_resolve_mono(g, n, PortName::AttackDuration, f, f2);
        lemma_resolve_mono(g, n, PortName::B, f, f2);
        lemma_resolve_mono(g, n, PortName::DecayDuration, f, f2);
        lemma_resolve_mono(g, n, PortName::Frequency, f, f2);
        lemma_resolve_mono(g, n, PortName::Modulation, f, f2);
        lemma_resolve_mono(g, n, PortName::P, f, f2);
        lemma_resolve_mono(g, n, PortName::Peak, f, f2);
        lemma_resolve_mono(g, n, PortName::ReleaseDuration, f, f2);
        lemma_resolve_mono(g, n, PortName::Scale, f, f2);
        lemma_resolve_mono(g, n, PortName::Stream, f, f2);
        lemma_resolve_mono(g, n, PortName::SustainDuration, f, f2);
        lemma_resolve_mono(g, n, PortName::SustainLevel, f, f2);
        lemma_resolve_mono(g, n, PortName::Value, f, f2);
    }
}

/// What one evaluation has computed so far: `entries[o]` holds the value of
/// output `o`, and the fuel with which it was had; `built` lists the nodes
/// whose pipeline was constructed, in order.
pub struct OutputsCache<S> {
    pub entries: Vec<Option<CacheEntry<S>>>,
    pub built: Vec<usize>,
}

/// One computed output.
pub struct CacheEntry<S> {
    pub value: MyValueType<S>,
    pub fuel: usize,
}

impl<S> OutputsCache<S> {
    /// Every entry is the value of the `Stream` output of the node that owns
    /// it.
    pub open spec fn matches(self, g: Graph<S>) -> bool {
        &&& self.entries@.len() == g.outputs@.len()
        &&& forall|o: int| 0 <= o < self.entries@.len() && (#[trigger] self.entries@[o]) is Some ==> {
            let m = g.output(o).node as int;
            let e = self.entries@[o]->Some_0;
            &&& g.live_output(o)
            &&& g.find_output(m, PortName::Stream) == Some(o as usize)
            &&& eval_node(g, m, e.fuel as nat) == Ok::<MyValueType<S>, EvalError>(e.value)
        }
    }

    /// From `old` to `self` the cache has only grown: every entry that was
    /// there is still there, unchanged, and the log has only been added to.
    pub open spec fn extends(self, old: OutputsCache<S>) -> bool {
        &&& self.entries@.len() == old.entries@.len()
        &&& forall|p: int| 0 <= p < old.entries@.len() && (#[trigger] old.entries@[p]) is Some ==> self.entries@[p] == old.entries@[p]
        &&& old.built@.len() <= self.built@.len()
        &&& forall|j: int| 0 <= j < old.built@.len() ==> #[trigger] self.built@[j] == old.built@[j]
    }

    /// The value cached for node `m`'s `Stream` output, if any, and enough
    /// fuel to recompute it.
    pub open spec fn cached_for(self, g: Graph<S>, m: int, fuel: nat) -> bool {
        match g.find_output(m, PortName::Stream) {
            Some(o) => self.entries@[o as int] matches Some(e) && e.fuel <= fuel,
            None => false,
        }
    }

    /// After a successful evaluation of node `m` to `v`, its `Stream` output
    /// holds `v` in the cache.
    pub open spec fn holds(self, g: Graph<S>, m: int, v: MyValueType<S>) -> bool {
        match g.find_output(m, PortName::Stream) {
            Some(o) => self.entries@[o as int] matches Some(e) && e.value == v,
            None => false,
        }
    }
}

impl<S: Sample> OutputsCache<S> {
    /// An empty cache for one evaluation of `g`.
    pub fn new(g: &Graph<S>) -> (r: OutputsCache<S>)
        ensures
            r.matches(*g),
            r.built@.len() == 0,
    {
        let mut entries: Vec<Option<CacheEntry<S>>> = Vec::new();
        let mut k: usize = 0;
        while k < g.outputs.len()
            invariant
                k <= g.outputs@.len(),
                entries@.len() == k,
                forall|o: int| 0 <= o < k ==> (#[trigger] entries@[o]) is None,
            decreases g.outputs@.len() - k,
        {
            entries.push(None);
            k += 1;
        }
        OutputsCache { entries, built: Vec::new() }
    }
}

fn larger(a: usize, b: usize) -> (r: usize)
    ensures
        r >= a,
        r >= b,
        r == a || r == b,
{
    if a >= b {
        a
    } else {
        b
    }
}

/// The value of input `name` of node `n`, and a fuel that suffices for it.
fn resolve_input<S: Sample>(
    g: &Graph<S>,
    n: usize,
    name: PortName,
    cache: &mut OutputsCache<S>,
    fuel: usize,
) -> (r: Result<(MyValueType<S>, usize), EvalError>)
    requires
        g.wf(),
        g.live_node(n as int),
        old(cache).matches(*g),
    ensures
        final(cache).matches(*g),
        final(cache).extends(*old(cache)),
        match r {
            Ok((v, need)) => {
                &&& need <= fuel
                &&& resolve(*g, n as int, name, fuel as nat) == Ok::<MyValueType<S>, EvalError>(v)
                &&& resolve(*g, n as int, name, need as nat) == Ok::<MyValueType<S>, EvalError>(v)
            },
            Err(e) => resolve(*g, n as int, name, fuel as nat) == Err::<MyValueType<S>, EvalError>(e),
        },
        match g.find_input(n as int, name) {
            None => *final(cache) == *old(cache),
            Some(i) => match g.connections@[i as int] {
                None => *final(cache) == *old(cache),
                Some(o) => {
                    &&& fuel > 0 && old(cache).cached_for(*g, g.output(o as int).node as int, (fuel - 1) as nat)
                        ==> *final(cache) == *old(cache)
                    &&& (r matches Ok((v, _)) ==> final(cache).entries@[o as int] matches Some(e) && e.value == v)
                },
            },
        },
    decreases fuel, 0nat,
{
    let i = match g.get_input(n, name) {
        Ok(i) => i,
        Err(e) => {
            return Err(e);
        },
    };
    assert(g.live_input(i as int)) by {
        lemma_first_input_listed(*g, g.node(n as int).inputs@, name, 0);
    }
    match g.connection(i) {
        None => {
            match &g.inputs[i] {
                Some(p) => Ok((p.value.duplicate(), 0)),
                None => Err(EvalError::MissingPort),
            }
        },
        Some(o) => {
            if fuel == 0 {
                return Err(EvalError::UnresolvedDependency);
            }
            assert(g.connections@[i as int] is Some);
            let m = match &g.outputs[o] {
                Some(q) => q.node,
                None => {
                    return Err(EvalError::UnresolvedDependency);
                },
            };
            let (v, h) = match eval_node_exec(g, m, cache, fuel - 1) {
                Ok(r) => r,
                Err(e) => {
                    return Err(e);
                },
            };
            match g.get_output(m, PortName::Stream) {
                Ok(found) => {
                    if found == o {
                        Ok((v, h + 1))
                    } else {
                        Err(EvalError::UnresolvedDependency)
                    }
                },
                Err(_) => Err(EvalError::UnresolvedDependency),
            }
        },
    }
}

/// The scalar value of input `name` of node `n`.
fn resolve_const<S: Sample>(
    g: &Graph<S>,
    n: usize,
    name: PortName,
    cache: &mut OutputsCache<S>,
    fuel: usize,
) -> (r: Result<(S, usize), EvalError>)
    requires
        g.wf(),
        g.live_node(n as int),
        old(cache).matches(*g),
    ensures
        final(cache).matches(*g),
        final(cache).extends(*old(cache)),
        match r {
            Ok((v, need)) => {
                &&& need <= fuel
                &&& as_const(resolve(*g, n as int, name, fuel as nat)) == Ok::<S, EvalError>(v)
                &&& resolve(*g, n as int, name, need as nat) == resolve(*g, n as int, name, fuel as nat)
            },
            Err(e) => as_const(resolve(*g, n as int, name, fuel as nat)) == Err::<S, EvalError>(e),
        },
    decreases fuel, 1nat,
{
    match resolve_input(g, n, name, cache, fuel) {
        Ok((v, need)) => match v.try_to_const() {
            Ok(c) => Ok((c, need)),
            Err(e) => Err(e),
        },
        Err(e) => Err(e),
    }
}

/// The pipeline value of input `name` of node `n`.
fn resolve_stream<S: Sample>(
    g: &Graph<S>,
    n: usize,
    name: PortName,
    cache: &mut OutputsCache<S>,
    fuel: usize,
) -> (r: Result<(Stream<S>, usize), EvalError>)
    requires
        g.wf(),
        g.live_node(n as int),
        old(cache).matches(*g),
    ensures
        final(cache).matches(*g),
        final(cache).extends(*old(cache)),
        match r {
            Ok((v, need)) => {
                &&& need <= fuel
                &&& as_stream(resolve(*g, n as int, name, fuel as nat)) == Ok::<Stream<S>, EvalError>(v)
                &&& resolve(*g, n as int, name, need as nat) == resolve(*g, n as int, name, fuel as nat)
            },
            Err(e) => as_stream(resolve(*g, n as int, name, fuel as nat)) == Err::<Stream<S>, EvalError>(e),
        },
    decreases fuel, 1nat,
{
    match resolve_input(g, n, name, cache, fuel) {
        Ok((v, need)) => match v.try_to_stream() {
            Ok(c) => Ok((c, need)),
            Err(e) => Err(e),
        },
        Err(e) => Err(e),
    }
}

/// Builds the pipeline of node `n` from template `t`; returns it and a fuel
/// that suffices for it.
#[verifier::rlimit(50)]
fn construct_exec<S: Sample>(g: &Graph<S>, n: usize, t: Stream<S>, cache: &mut OutputsCache<S>, fuel: usize) -> (r: Result<
    (Stream<S>, usize),
    EvalError,
>)
    requires
        g.wf(),
        g.live_node(n as int),
        old(cache).matches(*g),
    ensures
        final(cache).matches(*g),
        final(cache).extends(*old(cache)),
        match r {
            Ok((s, h)) => {
                &&& h <= fuel
                &&& construct(*g, n as int, t, fuel as nat) == Ok::<Stream<S>, EvalError>(s)
                &&& construct(*g, n as int, t, h as nat) == Ok::<Stream<S>, EvalError>(s)
            },
            Err(e) => construct(*g, n as int, t, fuel as nat) == Err::<Stream<S>, EvalError>(e),
        },
    decreases fuel, 2nat,
{
    let r = match t {
            Stream::SineWave(mut t) => {
                let (x0, h0) = match resolve_const(g, n, PortName::Frequency, cache, fuel) {
                    Ok(r) => r,
                    Err(e) => {
                        return Err(e);
                    },
                };
                t.frequency = x0;
                (Stream::SineWave(t), h0)
            },
            Stream::SquareWave(mut t) => {
                let (x0, h0) = match resolve_const(g, n, PortName::Frequency, cache, fuel) {
                    Ok(r) => r,
                    Err(e) => {
                        return Err(e);
                    },
                };
                t.frequency = x0;
                (Stream::SquareWave(t), h0)
            },
            Stream::TriangleWave(mut t) => {
                let (x0, h0) = match resolve_const(g, n, PortName::Frequency, cache, fuel) {
                    Ok(r) => r,
                    Err(e) => {
                        return Err(e);
                    },
                };
                t.frequency = x0;
                (Stream::TriangleWave(t), h0)
            },
            Stream::SawtoothWave(mut t) => {
                let (x0, h0) = match resolve_const(g, n, PortName::Frequency, cache, fuel) {
                    Ok(r) => r,
                    Err(e) => {
                        return Err(e);
                    },
                };
                t.frequency = x0;
                (Stream::SawtoothWave(t), h0)
            },
            Stream::ModulatedSineWave(mut t) => {
                let (x0, h0) = match resolve_const(g, n, PortName::Frequency, cache, fuel) {
                    Ok(r) => r,
                    Err(e) => {
                        return Err(e);
                    },
                };
                let (x1, h1) = match resolve_stream(g, n, PortName::Modulation, cache, fuel) {
                    Ok(r) => r,
                    Err(e) => {
                        return Err(e);
                    },
                };
                t.frequency = x0;
                t.modulator = Box::new(x1);
                let h = larger(h0, h1);
                proof {
                    lemma_resolve_mono(*g, n as int, PortName::Frequency, h0 as nat, h as nat);
                    lemma_resolve_mono(*g, n as int, PortName::Modulation, h1 as nat, h as nat);
                }
                (Stream::ModulatedSineWave(t), h)
            },
            Stream::Mix(mut t) => {
                let (x0, h0) = match resolve_const(g, n, PortName::P, cache, fuel) {
                    Ok(r) => r,
                    Err(e) => {
                        return Err(e);
                    },
                };
                let (x1, h1) = match resolve_stream(g, n, PortName::A, cache, fuel) {
                    Ok(r) => r,
                    Err(e) => {
                        return Err(e);
                    },
                };
                let (x2, h2) = match resolve_stream(g, n, PortName::B, cache, fuel) {
                    Ok(r) => r,
                    Err(e) => {
                        return Err(e);
                    },
                };
                t.p = x0;
                t.stream_a = Box::new(x1);
                t.stream_b = Box::new(x2);
                let h = larger(larger(h0, h1), h2);
                proof {
                    lemma_resolve_mono(*g, n as int, PortName::P, h0 as nat, h as nat);
                    lemma_resolve_mono(*g, n as int, PortName::A, h1 as nat, h as nat);
                    lemma_resolve_mono(*g, n as int, PortName::B, h2 as nat, h as nat);
                }
                (Stream::Mix(t), h)
            },
            Stream::Const(mut t) => {
                let (x0, h0) = match resolve_const(g, n, PortName::Value, cache, fuel) {
                    Ok(r) => r,
                    Err(e) => {
                        return Err(e);
                    },
                };
                t.val = x0;
                (Stream::Const(t), h0)
            },
            Stream::Envelope(mut t) => {
                let (x0, h0) = match resolve_stream(g, n, PortName::Stream, cache, fuel) {
                    Ok(r) => r,
                    Err(e) => {
                        return Err(e);
                    },
                };
                let (x1, h1) = match resolve_const(g, n, PortName::Peak, cache, fuel) {
                    Ok(r) => r,
                    Err(e) => {
                        return Err(e);
                    },
                };
                let (x2, h2) = match resolve_const(g, n, PortName::AttackDuration, cache, fuel) {
                    Ok(r) => r,
                    Err(e) => {
                        return Err(e);
                    },
                };
                let (x3, h3) = match resolve_const(g, n, PortName::DecayDuration, cache, fuel) {
                    Ok(r) => r,
                    Err(e) => {
                        return Err(e);
                    },
                };
                let (x4, h4) = match resolve_const(g, n, PortName::SustainLevel, cache, fuel) {
                    Ok(r) => r,
                    Err(e) => {
                        return Err(e);
                    },
                };
                let (x5, h5) = match resolve_const(g, n, PortName::SustainDuration, cache, fuel) {
                    Ok(r) => r,
                    Err(e) => {
                        return Err(e);
                    },
                };
                let (x6, h6) = match resolve_const(g, n, PortName::ReleaseDuration, cache, fuel) {
                    Ok(r) => r,
                    Err(e) => {
                        return Err(e);
                    },
                };
                t.stream = Box::new(x0);
                t.adsr.a = x1;
                t.adsr.ad = x2;
                t.adsr.dd = x3;
                t.adsr.s = x4;
                t.adsr.sd = x5;
                t.adsr.rd = x6;
                let h = larger(larger(larger(larger(larger(larger(h0, h1), h2), h3), h4), h5), h6);
                proof {
                    lemma_resolve_mono(*g, n as int, PortName::Stream, h0 as nat, h as nat);
                    lemma_resolve_mono(*g, n as int, PortName::Peak, h1 as nat, h as nat);
                    lemma_resolve_mono(*g, n as int, PortName::AttackDuration, h2 as nat, h as nat);
                    lemma_resolve_mono(*g, n as int, PortName::DecayDuration, h3 as nat, h as nat);
                    lemma_resolve_mono(*g, n as int, PortName::SustainLevel, h4 as nat, h as nat);
                    lemma_resolve_mono(*g, n as int, PortName::SustainDuration, h5 as nat, h as nat);
                    lemma_resolve_mono(*g, n as int, PortName::ReleaseDuration, h6 as nat, h as nat);
                }
                (Stream::Envelope(t), h)
            },
            Stream::Perlin(mut t) => {
                let (x0, h0) = match resolve_const(g, n, PortName::Scale, cache, fuel) {
                    Ok(r) => r,
                    Err(e) => {
                        return Err(e);
                    },
                };
                t.scale = x0;
                (Stream::Perlin(t), h0)
            },
            Stream::Add(mut t) => {
                let (x0, h0) = match resolve_stream(g, n, PortName::A, cache, fuel) {
                    Ok(r) => r,
                    Err(e) => {
                        return Err(e);
                    },
                };
                let (x1, h1) = match resolve_stream(g, n, PortName::B, cache, fuel) {
                    Ok(r) => r,
                    Err(e) => {
                        return Err(e);
                    },
                };
                t.stream_a = Box::new(x0);
                t.stream_b = Box::new(x1);
                let h = larger(h0, h1);
                proof {
                    lemma_resolve_mono(*g, n as int, PortName::A, h0 as nat, h as nat);
                    lemma_resolve_mono(*g, n as int, PortName::B, h1 as nat, h as nat);
                }
                (Stream::Add(t), h)
            },
            Stream::Multiply(mut t) => {
                let (x0, h0) = match resolve_stream(g, n, PortName::A, cache, fuel) {
                    Ok(r) => r,
                    Err(e) => {
                        return Err(e);
                    },
                };
                let (x1, h1) = match resolve_stream(g, n, PortName::B, cache, fuel) {
                    Ok(r) => r,
                    Err(e) => {
                        return Err(e);
                    },
                };
                t.stream_a = Box::new(x0);
                t.stream_b = Box::new(x1);
                let h = larger(h0, h1);
                proof {
                    lemma_resolve_mono(*g, n as int, PortName::A, h0 as nat, h as nat);
                    lemma_resolve_mono(*g, n as int, PortName::B, h1 as nat, h as nat);
                }
                (Stream::Multiply(t), h)
            },
            Stream::Empty(mut t) => {
                (Stream::Empty(t), 0)
            },
            Stream::Silence(mut t) => {
                (Stream::Silence(t), 0)
            },
            Stream::WhiteNoise(mut t) => {
                (Stream::WhiteNoise(t), 0)
            },
    };
    Ok(r)
}

/// Evaluates node `n` with at most `fuel` levels of upstream nodes, reusing
/// Evaluates node `n` with at most `fuel` levels of upstream nodes; returns
/// the value and a fuel that suffices for it. A value already cached with
/// enough fuel is returned as it is, with nothing built; otherwise the node
/// is built, entered in the log, and its value cached unless its output
/// already holds one.
fn eval_node_exec<S: Sample>(g: &Graph<S>, n: usize, cache: &mut OutputsCache<S>, fuel: usize) -> (r: Result<
    (MyValueType<S>, usize),
    EvalError,
>)
    requires
        g.wf(),
        g.live_node(n as int),
        old(cache).matches(*g),
    ensures
        final(cache).matches(*g),
        final(cache).extends(*old(cache)),
        match r {
            Ok((v, h)) => {
                &&& h <= fuel
                &&& eval_node(*g, n as int, fuel as nat) == Ok::<MyValueType<S>, EvalError>(v)
                &&& eval_node(*g, n as int, h as nat) == Ok::<MyValueType<S>, EvalError>(v)
                &&& final(cache).holds(*g, n as int, v)
            },
            Err(e) => eval_node(*g, n as int, fuel as nat) == Err::<MyValueType<S>, EvalError>(e),
        },
        old(cache).cached_for(*g, n as int, fuel as nat) ==> *final(cache) == *old(cache),
    decreases fuel, 3nat,
{
    let found = g.get_output(n, PortName::Stream);
    match found {
        Ok(o) => {
            assert(g.live_output(o as int) && g.output(o as int).node == n) by {
                lemma_first_output_listed(*g, g.node(n as int).outputs@, PortName::Stream, 0);
            }
            let hit = match &cache.entries[o] {
                Some(e) => {
                    if e.fuel <= fuel {
                        Some((e.value.duplicate(), e.fuel))
                    } else {
                        None
                    }
                },
                None => None,
            };
            match hit {
                Some((v, h)) => {
                    proof {
                        lemma_eval_mono(*g, n as int, h as nat, fuel as nat);
                    }
                    return Ok((v, h));
                },
                None => {},
            }
        },
        Err(_) => {},
    }
    let template = match &g.nodes[n] {
        Some(node) => node.user_data.template.duplicate(),
        None => {
            return Err(EvalError::MissingPort);
        },
    };
    let (built, h) = match construct_exec(g, n, template, cache, fuel) {
        Ok(r) => r,
        Err(e) => {
            return Err(e);
        },
    };
    let o = match found {
        Ok(o) => o,
        Err(e) => {
            return Err(e);
        },
    };
    assert(g.live_output(o as int) && g.output(o as int).node == n) by {
        lemma_first_output_listed(*g, g.node(n as int).outputs@, PortName::Stream, 0);
    }
    let value = MyValueType::Stream { value: built };
    assert(eval_node(*g, n as int, h as nat) == Ok::<MyValueType<S>, EvalError>(value));
    let ghost before = *cache;
    let fresh = match &cache.entries[o] {
        Some(_) => false,
        None => true,
    };
    if fresh {
        cache.entries.set(o, Some(CacheEntry { value: value.duplicate(), fuel: h }));
    } else {
        proof {
            let e = cache.entries@[o as int]->Some_0;
            lemma_consumers_agree(*g, n as int, e.fuel as nat, fuel as nat);
        }
    }
    cache.built.push(n);
    assert forall|p: int| 0 <= p < cache.entries@.len() && (#[trigger] cache.entries@[p]) is Some implies {
        let m = g.output(p).node as int;
        let e = cache.entries@[p]->Some_0;
        &&& g.live_output(p)
        &&& g.find_output(m, PortName::Stream) == Some(p as usize)
        &&& eval_node(*g, m, e.fuel as nat) == Ok::<MyValueType<S>, EvalError>(e.value)
    } by {
        if p != o || !fresh {
            assert(before.entries@[p] is Some);
        }
    }
    Ok((value, h))
}

/// Evaluates node `node_id`: walks its inputs, evaluating each upstream node
/// once with the help of `outputs_cache`, and returns the value of its
/// `Stream` output, or the first error met.
pub fn evaluate_node<S: Sample>(
    graph: &Graph<S>,
    node_id: usize,
    outputs_cache: &mut OutputsCache<S>,
) -> (r: Result<MyValueType<S>, EvalError>)
    requires
        graph.wf(),
        graph.live_node(node_id as int),
        old(outputs_cache).matches(*graph),
    ensures
        final(outputs_cache).matches(*graph),
        final(outputs_cache).extends(*old(outputs_cache)),
        r == evaluation(*graph, node_id as int),
        r matches Ok(v) ==> final(outputs_cache).holds(*graph, node_id as int, v),
        old(outputs_cache).cached_for(*graph, node_id as int, graph.nodes@.len() as nat)
            ==> *final(outputs_cache) == *old(outputs_cache),
{
    match eval_node_exec(graph, node_id, outputs_cache, graph.nodes.len()) {
        Ok((v, _)) => Ok(v),
        Err(e) => Err(e),
    }
}

/// Evaluates node `node_id` with a fresh cache; `None` when there is no such
/// node.
pub fn evaluate<S: Sample>(graph: &Graph<S>, node_id: usize) -> (r: Option<Result<MyValueType<S>, EvalError>>)
    requires
        graph.wf(),
    ensures
        r == if graph.live_node(node_id as int) {
            Some(evaluation(*graph, node_id as int))
        } else {
            None
        },
{
    if node_id >= graph.nodes.len() {
        return None;
    }
    match &graph.nodes[node_id] {
        Some(_) => {
            let mut cache = OutputsCache::new(graph);
            Some(evaluate_node(graph, node_id, &mut cache))
        },
        None => None,
    }
}

/// Within one evaluation every consumer of a node's output sees one value:
/// however much fuel was left where the node was evaluated or read back from
/// the cache, two successful evaluations of it agree.
pub proof fn lemma_consumers_agree<S>(g: Graph<S>, m: int, f1: nat, f2: nat)
    requires
        eval_node(g, m, f1) is Ok,
        eval_node(g, m, f2) is Ok,
    ensures
        eval_node(g, m, f1) == eval_node(g, m, f2),
{
    if f1 <= f2 {
        lemma_eval_mono(g, m, f1, f2);
    } else {
        lemma_eval_mono(g, m, f2, f1);
    }
}

/// The kind of a value.
pub open spec fn kind_of<S>(v: MyValueType<S>) -> MyDataType {
    match v {
        MyValueType::Stream { .. } => MyDataType::Stream,
        MyValueType::Const { .. } => MyDataType::Const,
    }
}

/// A node fails with `TypeMismatch` when, in its order of inputs, input `k`
/// resolves to a value of the other kind than it declares (a scalar input
/// fed a pipeline, or the reverse) while every input before it resolves to
/// a value of its declared kind: the value is never read as the wrong kind.
pub proof fn lemma_input_kind_mismatch<S>(g: Graph<S>, n: int, k: int, fuel: nat)
    requires
        0 <= k < input_schema(g.node(n).user_data.template).len(),
        forall|j: int| 0 <= j <= k ==> (#[trigger] resolve(g, n, input_schema(g.node(n).user_data.template)[j].name, fuel)) is Ok,
        forall|j: int| 0 <= j < k ==> kind_of(#[trigger] resolve(g, n, input_schema(g.node(n).user_data.template)[j].name, fuel)->Ok_0)
            == input_schema(g.node(n).user_data.template)[j].typ,
        kind_of(resolve(g, n, input_schema(g.node(n).user_data.template)[k].name, fuel)->Ok_0)
            != input_schema(g.node(n).user_data.template)[k].typ,
    ensures
        eval_node(g, n, fuel) == Err::<MyValueType<S>, EvalError>(EvalError::TypeMismatch),
{
    let t = g.node(n).user_data.template;
    let sc = input_schema(t);
    assert forall|j: int| 0 <= j <= k implies resolve(g, n, sc[j].name, fuel) is Ok by {}
    if k >= 1 {
        assert(resolve(g, n, sc[0].name, fuel) is Ok);
    }
}

} // verus!
