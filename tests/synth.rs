use noise::NoiseFn;
use synthi::{
    evaluate, evaluate_node, Add, Adsr, AllMyNodeTemplates, ConnectError, Const, Empty, Envelope,
    EvalError, Graph, InputParamKind, Mix, MyDataType, MyGraphState, MyResponse, MyValueType,
    Multiply, OutputsCache, PlaybackAction, PortName, Sample, SawtoothWave, Silence, SineWave,
    SquareWave, Stream, TriangleWave, WhiteNoise, SAMPLE_RATE,
};

const PI: f32 = std::f32::consts::PI;

/// Single-precision samples.
#[derive(Clone, Copy, Debug, PartialEq)]
struct F(f32);

fn phase_x(n: u32, phase: F, freq: F, rate: u32) -> f32 {
    (n as f32 + phase.0) * freq.0 / rate as f32
}

fn lerp(a: f32, b: f32, f: f32) -> f32 {
    a * (1.0 - f) + b * f
}

impl Sample for F {
    // Each operation is a function of its arguments; its named value is
    // the operation itself.
    fn spec_from_milli(m: i32) -> Self {
        Self::from_milli(m)
    }
    fn spec_sine(n: u32, phase: Self, freq: Self, rate: u32) -> Self {
        Self::sine(n, phase, freq, rate)
    }
    fn spec_square(n: u32, phase: Self, freq: Self, rate: u32) -> Self {
        Self::square(n, phase, freq, rate)
    }
    fn spec_triangle(n: u32, phase: Self, freq: Self, rate: u32) -> Self {
        Self::triangle(n, phase, freq, rate)
    }
    fn spec_sawtooth(n: u32, phase: Self, freq: Self, rate: u32) -> Self {
        Self::sawtooth(n, phase, freq, rate)
    }
    fn spec_sine_at(counter: Self, freq: Self, rate: u32) -> Self {
        Self::sine_at(counter, freq, rate)
    }
    fn spec_advance_counter(counter: Self, modulation: Self, rate: u32) -> Self {
        Self::advance_counter(counter, modulation, rate)
    }
    fn spec_mix(p: Self, a: Self, b: Self) -> Self {
        Self::mix(p, a, b)
    }
    fn spec_add(a: Self, b: Self) -> Self {
        Self::add(a, b)
    }
    fn spec_mul(a: Self, b: Self) -> Self {
        Self::mul(a, b)
    }
    fn spec_envelope_gain(adsr: Adsr<Self>, n: u32, rate: u32) -> Self {
        Self::envelope_gain(adsr, n, rate)
    }
    fn spec_perlin(n: u32, scale: Self, rate: u32) -> Self {
        Self::perlin(n, scale, rate)
    }
    fn from_milli(m: i32) -> Self {
        F(m as f32 / 1000.0)
    }
    fn sine(n: u32, phase: Self, freq: Self, rate: u32) -> Self {
        F(((n as f32 + phase.0) * 2.0 * PI * freq.0 / rate as f32).sin())
    }
    fn square(n: u32, phase: Self, freq: Self, rate: u32) -> Self {
        F(if phase_x(n, phase, freq, rate) % 1.0 <= 0.5 { 1.0 } else { -1.0 })
    }
    fn triangle(n: u32, phase: Self, freq: Self, rate: u32) -> Self {
        let x = phase_x(n, phase, freq, rate);
        F(4.0 * (x + 0.25 - (x + 0.75).floor()).abs() - 1.0)
    }
    fn sawtooth(n: u32, phase: Self, freq: Self, rate: u32) -> Self {
        F(phase_x(n, phase, freq, rate) % 1.0)
    }
    fn sine_at(counter: Self, freq: Self, rate: u32) -> Self {
        F((counter.0 * 2.0 * PI * freq.0 / rate as f32).sin())
    }
    fn advance_counter(counter: Self, modulation: Self, rate: u32) -> Self {
        F((counter.0 + 1.0 + modulation.0) % rate as f32)
    }
    fn mix(p: Self, a: Self, b: Self) -> Self {
        F(p.0 * a.0 + (1.0 - p.0) * b.0)
    }
    fn add(a: Self, b: Self) -> Self {
        F(a.0 + b.0)
    }
    fn mul(a: Self, b: Self) -> Self {
        F(a.0 * b.0)
    }
    fn envelope_gain(e: Adsr<Self>, n: u32, rate: u32) -> Self {
        let t = n as f32 / rate as f32;
        let (a, ad, dd, s, sd, rd) = (e.a.0, e.ad.0, e.dd.0, e.s.0, e.sd.0, e.rd.0);
        F(if t < ad {
            lerp(0.0, a, t / ad)
        } else if t < ad + dd {
            lerp(a, s, (t - ad) / dd)
        } else if t < ad + dd + sd {
            s
        } else if t < ad + dd + sd + rd {
            lerp(s, 0.0, (t - ad - dd - sd) / rd)
        } else {
            0.0
        })
    }
    fn perlin(n: u32, scale: Self, rate: u32) -> Self {
        let p = noise::Perlin::new(69);
        F((p.get([(n as f32 * scale.0 / rate as f32) as f64]) as f32).clamp(-1.0, 1.0))
    }
    fn white_noise() -> Self {
        F(rand::random::<f32>() * 2.0 - 1.0)
    }
}

fn close(a: f32, b: f32) -> bool {
    (a - b).abs() < 1e-4
}

fn pull(s: &mut Stream<F>) -> Option<f32> {
    s.next().map(|x| x.0)
}

fn sine(freq: f32) -> Stream<F> {
    let mut w = SineWave::new();
    w.set_frequency(F(freq));
    Stream::SineWave(w)
}

fn constant(v: f32) -> Stream<F> {
    let mut c = Const::new();
    c.set_val(F(v));
    Stream::Const(c)
}

fn input(g: &Graph<F>, node: usize, name: PortName) -> usize {
    g.get_input(node, name).unwrap()
}

fn output(g: &Graph<F>, node: usize) -> usize {
    g.get_output(node, PortName::Stream).unwrap()
}

fn templates() -> Vec<Stream<F>> {
    AllMyNodeTemplates.all_kinds()
}

#[test]
fn sine_sample_n_follows_formula() {
    for freq in [440.0f32, 1000.0, 3.5] {
        let mut s = sine(freq);
        for n in 0..500u32 {
            let expected = (2.0 * PI * freq * n as f32 / 44100.0).sin();
            assert!(close(pull(&mut s).unwrap(), expected));
        }
    }
}

#[test]
fn sine_phase_shift_moves_the_index() {
    let mut w = SineWave::new();
    w.set_frequency(F(440.0));
    w.set_phase_shift(F(10.0));
    let mut s = Stream::SineWave(w);
    let expected = (2.0 * PI * 440.0 * 10.0 / 44100.0).sin();
    assert!(close(pull(&mut s).unwrap(), expected));
}

#[test]
fn other_oscillators_follow_formulas() {
    let mut sq = SquareWave::new();
    sq.set_frequency(F(11025.0));
    let mut s = Stream::SquareWave(sq);
    // x = n/4: 0, 0.25, 0.5 give 1; 0.75 gives -1.
    let got: Vec<f32> = (0..4).map(|_| pull(&mut s).unwrap()).collect();
    assert_eq!(got, vec![1.0, 1.0, 1.0, -1.0]);

    let mut tr = TriangleWave::new();
    tr.set_frequency(F(11025.0));
    let mut s = Stream::TriangleWave(tr);
    let got: Vec<f32> = (0..4).map(|_| pull(&mut s).unwrap()).collect();
    assert!(close(got[0], 0.0) && close(got[1], 1.0) && close(got[2], 0.0) && close(got[3], -1.0));

    let mut sw = SawtoothWave::new();
    sw.set_frequency(F(11025.0));
    let mut s = Stream::SawtoothWave(sw);
    let got: Vec<f32> = (0..5).map(|_| pull(&mut s).unwrap()).collect();
    assert!(close(got[0], 0.0) && close(got[1], 0.25) && close(got[3], 0.75) && close(got[4], 0.0));
}

#[test]
fn mix_with_p_one_is_a_and_p_zero_is_b() {
    for p in [1.0f32, 0.0] {
        let mut m = Mix::new();
        m.set_stream_a(sine(440.0));
        m.set_stream_b(constant(0.25));
        m.set_p(F(p));
        let mut mix = Stream::Mix(m);
        let mut a = sine(440.0);
        for _ in 0..200 {
            let got = pull(&mut mix).unwrap();
            let expected = if p == 1.0 { pull(&mut a).unwrap() } else { 0.25 };
            assert!(close(got, expected));
        }
    }
}

#[test]
fn mix_ends_with_the_shorter_operand() {
    for (a_empty, b_empty) in [(true, false), (false, true), (true, true)] {
        let mut m = Mix::new();
        m.set_stream_a(if a_empty { Stream::Empty(Empty::new()) } else { sine(440.0) });
        m.set_stream_b(if b_empty { Stream::Empty(Empty::new()) } else { constant(1.0) });
        let mut mix = Stream::Mix(m);
        for _ in 0..3 {
            assert_eq!(pull(&mut mix), None);
        }
    }
    let mut m = Mix::new();
    m.set_stream_a(sine(440.0));
    m.set_stream_b(constant(1.0));
    let mut mix = Stream::Mix(m);
    assert!((0..1000).all(|_| pull(&mut mix).is_some()));
}

#[test]
fn add_and_multiply_combine_and_end() {
    let mut a = Add::new();
    a.set_stream_a(constant(0.5));
    a.set_stream_b(constant(0.25));
    let mut s = Stream::Add(a);
    assert_eq!(pull(&mut s), Some(0.75));

    let mut m = Multiply::new();
    m.set_stream_a(constant(0.5));
    m.set_stream_b(constant(-0.5));
    let mut s = Stream::Multiply(m);
    assert_eq!(pull(&mut s), Some(-0.25));

    let mut s = Stream::Add(Add::new());
    assert_eq!(pull(&mut s), None);
    let mut s = Stream::Multiply(Multiply::new());
    assert_eq!(pull(&mut s), None);
}

#[test]
fn empty_ends_at_once_and_silence_never() {
    let mut e: Stream<F> = Stream::Empty(Empty::new());
    assert_eq!(pull(&mut e), None);
    assert_eq!(pull(&mut e), None);
    let mut z: Stream<F> = Stream::Silence(Silence::new());
    for _ in 0..10_000 {
        assert_eq!(pull(&mut z), Some(0.0));
    }
    let d: Stream<F> = Stream::default();
    assert!(matches!(d, Stream::Empty(_)));
}

#[test]
fn const_and_noise_never_end() {
    let mut c = constant(0.3);
    let mut w: Stream<F> = Stream::WhiteNoise(WhiteNoise::new());
    let mut p: Stream<F> = Stream::Perlin(synthi::Perlin::new());
    for _ in 0..1000 {
        assert_eq!(pull(&mut c), Some(0.3));
        let x = pull(&mut w).unwrap();
        assert!((-1.0..=1.0).contains(&x));
        let y = pull(&mut p).unwrap();
        assert!((-1.0..=1.0).contains(&y));
    }
}

#[test]
fn perlin_is_deterministic() {
    let mut p: Stream<F> = Stream::Perlin(synthi::Perlin::new());
    let mut q: Stream<F> = Stream::Perlin(synthi::Perlin::new());
    for _ in 0..100 {
        assert_eq!(pull(&mut p), pull(&mut q));
    }
}

#[test]
fn modulated_sine_ends_with_its_modulator() {
    let mut w = synthi::ModulatedSineWave::new();
    w.set_frequency(F(440.0));
    let mut s = Stream::ModulatedSineWave(w);
    assert_eq!(pull(&mut s), None);

    let mut w = synthi::ModulatedSineWave::new();
    w.set_frequency(F(11025.0));
    w.set_modulator(Stream::Silence(Silence::new()));
    let mut s = Stream::ModulatedSineWave(w);
    // With a silent modulator the counter advances by one: sin(2π·n/4).
    let got: Vec<f32> = (0..3).map(|_| pull(&mut s).unwrap()).collect();
    assert!(close(got[0], 0.0) && close(got[1], 1.0) && close(got[2], 0.0));
}

#[test]
fn envelope_gain_at_breakpoints() {
    let mut e = Envelope::new();
    e.set_a(F(1.0));
    e.set_ad(F(0.1));
    e.set_dd(F(0.1));
    e.set_s(F(0.5));
    e.set_sd(F(0.2));
    e.set_rd(F(0.1));
    e.set_stream(constant(1.0));
    let mut s = Stream::Envelope(e);
    let gains: Vec<f32> = (0..30_000).map(|_| pull(&mut s).unwrap()).collect();
    assert!(close(gains[0], 0.0));
    assert!((gains[4410] - 1.0).abs() < 1e-3);
    assert!((gains[8820] - 0.5).abs() < 1e-3);
    assert!(gains[22050].abs() < 1e-3);
    assert!(gains[29_999] == 0.0);
}

#[test]
fn envelope_keeps_pulling_its_stream() {
    let mut e = Envelope::new();
    e.set_ad(F(0.0001));
    e.set_dd(F(0.0001));
    e.set_sd(F(0.0001));
    e.set_rd(F(0.0001));
    e.set_stream(sine(11025.0));
    let mut s = Stream::Envelope(e);
    for _ in 0..100 {
        pull(&mut s);
    }
    match &s {
        Stream::Envelope(e) => match &*e.stream {
            Stream::SineWave(w) => assert_eq!(w.current_sample, 100),
            _ => panic!("operand changed kind"),
        },
        _ => panic!("stream changed kind"),
    }
}

#[test]
fn every_stream_declares_the_sample_rate() {
    for t in templates() {
        assert_eq!(t.sample_rate(), SAMPLE_RATE);
        assert_eq!(t.sample_rate(), 44100);
    }
}

#[test]
fn catalogue_has_every_kind() {
    let t = templates();
    assert_eq!(t.len(), 14);
    assert!(matches!(t[0], Stream::SineWave(_)));
    assert!(matches!(t[5], Stream::Mix(_)));
    assert!(matches!(t[8], Stream::Silence(_)));
    assert!(matches!(t[13], Stream::Multiply(_)));
    match &t[0] {
        Stream::SineWave(w) => assert_eq!(w.frequency, F(440.0)),
        _ => panic!("first template is a sine"),
    }
}

#[test]
fn node_ports_follow_the_template() {
    let mut g: Graph<F> = Graph::new();
    let t = templates();
    let mix = g.add_node(t[5].clone());
    let node = g.nodes[mix].as_ref().unwrap();
    assert_eq!(node.inputs.len(), 3);
    assert_eq!(node.outputs.len(), 1);
    let p = g.inputs[input(&g, mix, PortName::P)].as_ref().unwrap();
    assert_eq!(p.typ, MyDataType::Const);
    assert_eq!(p.kind, InputParamKind::ConnectionOrConstant);
    assert!(matches!(p.value, MyValueType::Const { value: F(v) } if v == 0.5));
    let a = g.inputs[input(&g, mix, PortName::A)].as_ref().unwrap();
    assert_eq!(a.typ, MyDataType::Stream);
    assert_eq!(a.kind, InputParamKind::ConnectionOnly);
    let env = g.add_node(t[9].clone());
    assert_eq!(g.nodes[env].as_ref().unwrap().inputs.len(), 7);
    assert_eq!(g.get_input(mix, PortName::Scale), Err(EvalError::MissingPort));
    assert_eq!(g.get_output(mix, PortName::A), Err(EvalError::MissingPort));
}

#[test]
fn sine_into_mix_end_to_end() {
    let mut g: Graph<F> = Graph::new();
    let t = templates();
    let s = g.add_node(t[0].clone());
    let m = g.add_node(t[5].clone());
    assert_eq!(g.add_connection(output(&g, s), input(&g, m, PortName::A)), Ok(()));
    let value = evaluate(&g, m).unwrap().unwrap();
    let mut stream = value.try_to_stream().unwrap();
    for n in 0..2000u32 {
        let expected = 0.5 * (2.0 * PI * 440.0 * n as f32 / 44100.0).sin();
        assert!(close(pull(&mut stream).unwrap(), expected));
    }
}

#[test]
fn fanned_out_node_is_built_once() {
    let mut g: Graph<F> = Graph::new();
    let t = templates();
    let s = g.add_node(t[0].clone());
    let env = g.add_node(t[9].clone());
    let m = g.add_node(t[5].clone());
    assert_eq!(g.add_connection(output(&g, s), input(&g, m, PortName::A)), Ok(()));
    assert_eq!(g.add_connection(output(&g, s), input(&g, env, PortName::Stream)), Ok(()));
    assert_eq!(g.add_connection(output(&g, env), input(&g, m, PortName::B)), Ok(()));
    let mut cache = OutputsCache::new(&g);
    let value = evaluate_node(&g, m, &mut cache).unwrap();
    assert_eq!(cache.built.iter().filter(|&&n| n == s).count(), 1);
    assert_eq!(cache.built, vec![s, env, m]);
    match value.try_to_stream().unwrap() {
        Stream::Mix(mix) => {
            assert!(matches!(*mix.stream_a, Stream::SineWave(_)));
            match *mix.stream_b {
                Stream::Envelope(e) => assert!(matches!(*e.stream, Stream::SineWave(_))),
                _ => panic!("second operand is the envelope"),
            }
        },
        _ => panic!("a mix comes out"),
    }
}

#[test]
fn const_input_fed_by_stream_is_a_type_mismatch() {
    let mut g: Graph<F> = Graph::new();
    let t = templates();
    let a = g.add_node(t[0].clone());
    let b = g.add_node(t[0].clone());
    let freq = input(&g, b, PortName::Frequency);
    assert_eq!(g.add_connection(output(&g, a), freq), Err(ConnectError::TypeMismatch));
    assert!(g.set_input_value(freq, MyValueType::Stream { value: sine(3.0) }));
    assert_eq!(evaluate(&g, b).unwrap().unwrap_err(), EvalError::TypeMismatch);
    let v: MyValueType<F> = MyValueType::Stream { value: Stream::Empty(Empty::new()) };
    assert_eq!(v.try_to_const().unwrap_err(), EvalError::TypeMismatch);
    let c: MyValueType<F> = MyValueType::Const { value: F(1.0) };
    assert_eq!(c.try_to_stream().unwrap_err(), EvalError::TypeMismatch);
}

#[test]
fn connection_rules() {
    let mut g: Graph<F> = Graph::new();
    let t = templates();
    let s = g.add_node(t[0].clone());
    let m = g.add_node(t[5].clone());
    assert_eq!(g.add_connection(99, input(&g, m, PortName::A)), Err(ConnectError::NoSuchPort));
    assert_eq!(g.add_connection(output(&g, s), 99), Err(ConnectError::NoSuchPort));
    assert_eq!(g.add_connection(output(&g, m), input(&g, m, PortName::A)), Err(ConnectError::SameNode));
    let fixed = g.add_input_param(
        s,
        PortName::Value,
        MyDataType::Stream,
        MyValueType::Stream { value: Stream::Empty(Empty::new()) },
        InputParamKind::ConstantOnly,
    );
    assert_eq!(g.add_connection(output(&g, m), fixed), Err(ConnectError::NotConnectable));
    let a = input(&g, m, PortName::A);
    assert_eq!(g.connection(a), None);
    assert_eq!(g.add_connection(output(&g, s), a), Ok(()));
    assert_eq!(g.connection(a), Some(output(&g, s)));
    assert_eq!(g.remove_connection(a), Some(output(&g, s)));
    assert_eq!(g.connection(a), None);
}

#[test]
fn removing_a_node_removes_its_edges() {
    let mut g: Graph<F> = Graph::new();
    let t = templates();
    let s = g.add_node(t[0].clone());
    let m = g.add_node(t[5].clone());
    let a = input(&g, m, PortName::A);
    assert_eq!(g.add_connection(output(&g, s), a), Ok(()));
    g.remove_node(s);
    assert!(g.nodes[s].is_none());
    assert_eq!(g.connection(a), None);
    assert!(g.outputs.iter().flatten().all(|o| o.node != s));
    assert!(g.inputs.iter().flatten().all(|i| i.node != s));
    assert!(evaluate(&g, s).is_none());
    assert!(evaluate(&g, m).unwrap().is_ok());
}

#[test]
fn a_cycle_is_an_unresolved_dependency() {
    let mut g: Graph<F> = Graph::new();
    let t = templates();
    let x = g.add_node(t[12].clone());
    let y = g.add_node(t[12].clone());
    assert_eq!(g.add_connection(output(&g, x), input(&g, y, PortName::A)), Ok(()));
    assert_eq!(g.add_connection(output(&g, y), input(&g, x, PortName::A)), Ok(()));
    assert_eq!(evaluate(&g, x).unwrap().unwrap_err(), EvalError::UnresolvedDependency);
}

#[test]
fn unconnected_inputs_use_inline_values() {
    let mut g: Graph<F> = Graph::new();
    let t = templates();
    let s = g.add_node(t[0].clone());
    assert!(g.set_input_value(input(&g, s, PortName::Frequency), MyValueType::Const { value: F(11025.0) }));
    match evaluate(&g, s).unwrap().unwrap() {
        MyValueType::Stream { value: Stream::SineWave(w) } => {
            assert_eq!(w.frequency, F(11025.0));
            assert_eq!(w.current_sample, 0);
        },
        _ => panic!("a sine comes out"),
    }
    assert!(!g.set_input_value(99, MyValueType::Const { value: F(1.0) }));
}

#[test]
fn reevaluation_does_not_touch_a_playing_pipeline() {
    let mut g: Graph<F> = Graph::new();
    let t = templates();
    let s = g.add_node(t[0].clone());
    let mut playing = evaluate(&g, s).unwrap().unwrap().try_to_stream().unwrap();
    for _ in 0..10 {
        pull(&mut playing);
    }
    let fresh = evaluate(&g, s).unwrap().unwrap().try_to_stream().unwrap();
    match (&playing, &fresh) {
        (Stream::SineWave(p), Stream::SineWave(f)) => {
            assert_eq!(p.current_sample, 10);
            assert_eq!(f.current_sample, 0);
        },
        _ => panic!("sines come out"),
    }
}

#[test]
fn activating_and_clearing_nodes() {
    let mut g: Graph<F> = Graph::new();
    let t = templates();
    let s = g.add_node(t[0].clone());
    let c = g.add_node(t[0].clone());
    assert!(g.set_input_value(input(&g, c, PortName::Frequency), MyValueType::Stream { value: sine(1.0) }));
    let mut state = MyGraphState::new();
    assert!(matches!(state.respond(&g, MyResponse::SetActiveNode(s)), PlaybackAction::Play(Stream::SineWave(_))));
    assert_eq!(state.active_node, Some(s));
    assert!(matches!(state.refresh(&g), Some(Ok(MyValueType::Stream { .. }))));
    assert!(matches!(state.respond(&g, MyResponse::SetActiveNode(c)), PlaybackAction::Keep));
    assert_eq!(state.active_node, Some(c));
    assert!(matches!(state.respond(&g, MyResponse::ClearActiveNode), PlaybackAction::Stop));
    assert_eq!(state.active_node, None);
    assert!(state.refresh(&g).is_none());
    state.respond(&g, MyResponse::SetActiveNode(s));
    g.remove_node(s);
    assert!(state.refresh(&g).is_none());
    assert_eq!(state.active_node, None);
}

#[test]
fn second_evaluation_reuses_the_cache() {
    let mut g: Graph<F> = Graph::new();
    let t = templates();
    let s = g.add_node(t[0].clone());
    let m = g.add_node(t[5].clone());
    assert_eq!(g.add_connection(output(&g, s), input(&g, m, PortName::A)), Ok(()));
    assert_eq!(g.add_connection(output(&g, s), input(&g, m, PortName::B)), Ok(()));
    let mut cache = OutputsCache::new(&g);
    let first = evaluate_node(&g, m, &mut cache).unwrap();
    assert_eq!(cache.built, vec![s, m]);
    let entry = cache.entries[output(&g, m)].as_ref().unwrap();
    assert!(matches!(entry.value, MyValueType::Stream { value: Stream::Mix(_) }));
    assert!(cache.entries[output(&g, s)].is_some());
    let again = evaluate_node(&g, m, &mut cache).unwrap();
    assert_eq!(cache.built, vec![s, m]);
    let (mut a, mut b) = (first.try_to_stream().unwrap(), again.try_to_stream().unwrap());
    for _ in 0..50 {
        assert_eq!(pull(&mut a), pull(&mut b));
    }
}
