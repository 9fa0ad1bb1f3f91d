use dsp_blocks::arity::DInto;
use dsp_blocks::control::{ControlContext, ControlResult};
use dsp_blocks::geometry::Point;
use dsp_blocks::graph::{Block, CanConnect, CanFork, CanStack, Discard, Identity, MapperBlock};
use dsp_blocks::visual::{Canvas, Picture, VisualizeError, VisualizeResult};

type Wave = Vec<f32>;

const SR: usize = 44100;

/// A sine oscillator: the input is the frequency in Hz; 100 ms of signal.
#[derive(Debug)]
struct Osc {
    phase: f32,
}

impl Block<f32> for Osc {
    type Output = Wave;

    fn process(&mut self, freq: f32) -> Wave {
        let n = SR / 10;
        (0..n)
            .map(|i| (2.0 * std::f32::consts::PI * freq * (i as f32 / SR as f32) + self.phase).sin())
            .collect()
    }

    fn process_and_visualize(&mut self, freq: f32) -> (Wave, Result<VisualizeResult, VisualizeError>) {
        (self.process(freq), Ok(VisualizeResult::Empty))
    }

    fn on_hover(&mut self, _pos: Point, _context: &mut ControlContext) -> ControlResult {
        ControlResult::Passthrough
    }

    fn on_unhover(&mut self, _context: &mut ControlContext) -> ControlResult {
        ControlResult::Passthrough
    }
}

/// Averages N waves of the same length.
#[derive(Debug)]
struct Mean<const N: usize>;

impl<I: DInto<N, Item = Wave>, const N: usize> Block<I> for Mean<N> {
    type Output = Wave;

    fn process(&mut self, input: I) -> Wave {
        let waves = input.into();
        let len = waves[0].len();
        assert!(waves.iter().all(|w| w.len() == len));
        (0..len)
            .map(|i| waves.iter().map(|w| w[i]).sum::<f32>() / N as f32)
            .collect()
    }

    fn process_and_visualize(&mut self, input: I) -> (Wave, Result<VisualizeResult, VisualizeError>) {
        (self.process(input), Ok(VisualizeResult::Empty))
    }

    fn on_hover(&mut self, _pos: Point, _context: &mut ControlContext) -> ControlResult {
        ControlResult::Passthrough
    }

    fn on_unhover(&mut self, _context: &mut ControlContext) -> ControlResult {
        ControlResult::Passthrough
    }
}

/// A leaf whose visual is a box with `inputs` input ports and one output port.
#[derive(Debug)]
struct Ported {
    inputs: usize,
    hovered: Vec<Point>,
    unhovered: usize,
}

fn ported(inputs: usize) -> Ported {
    Ported { inputs, hovered: Vec::new(), unhovered: 0 }
}

impl Block<u32> for Ported {
    type Output = u32;

    fn process(&mut self, input: u32) -> u32 {
        input + 1
    }

    fn process_and_visualize(&mut self, input: u32) -> (u32, Result<VisualizeResult, VisualizeError>) {
        let out = self.process(input);
        let ins = (0..self.inputs).map(|i| Point { x: 0, y: 10 + i as i64 }).collect();
        (
            out,
            Ok(VisualizeResult::Block {
                texture: Canvas { width: 40, height: 20, picture: Picture::Shapes(Vec::new()) },
                input_connections: ins,
                output_connections: vec![Point { x: 40, y: 10 }],
            }),
        )
    }

    fn on_hover(&mut self, pos: Point, context: &mut ControlContext) -> ControlResult {
        self.hovered.push(pos);
        context.is_dirty = true;
        ControlResult::Passthrough
    }

    fn on_unhover(&mut self, _context: &mut ControlContext) -> ControlResult {
        self.unhovered += 1;
        ControlResult::Passthrough
    }
}

/// A block of any input whose visual has `inputs` input ports.
#[derive(Debug)]
struct Wide {
    inputs: usize,
}

impl<I> Block<I> for Wide {
    type Output = ();

    fn process(&mut self, _input: I) {}

    fn process_and_visualize(&mut self, input: I) -> ((), Result<VisualizeResult, VisualizeError>) {
        self.process(input);
        let ins = vec![Point { x: 0, y: 1 }; self.inputs];
        (
            (),
            Ok(VisualizeResult::Block {
                texture: Canvas { width: 5, height: 5, picture: Picture::Shapes(Vec::new()) },
                input_connections: ins,
                output_connections: Vec::new(),
            }),
        )
    }

    fn on_hover(&mut self, _pos: Point, _context: &mut ControlContext) -> ControlResult {
        ControlResult::Passthrough
    }

    fn on_unhover(&mut self, _context: &mut ControlContext) -> ControlResult {
        ControlResult::Passthrough
    }
}

fn size_of(v: &VisualizeResult) -> (u32, u32) {
    let c = v.as_simple_texture().expect("a canvas");
    (c.width, c.height)
}

fn ports_of(v: &VisualizeResult) -> (Vec<Point>, Vec<Point>) {
    match v {
        VisualizeResult::Block { input_connections, output_connections, .. } => {
            (input_connections.clone(), output_connections.clone())
        }
        _ => (Vec::new(), Vec::new()),
    }
}

fn wires_of(v: &VisualizeResult) -> Vec<dsp_blocks::visual::Wire> {
    match v.as_simple_texture().map(|c| &c.picture) {
        Some(Picture::Pair { wires, .. }) => wires.clone(),
        _ => Vec::new(),
    }
}

#[test]
fn stacked_oscillators_into_average_mix() {
    let mut system = Osc { phase: 0.0 }.stack(Osc { phase: 1.0 }).connect(Mean::<2>);
    let out = system.process((440.0, 660.0));
    let a = Osc { phase: 0.0 }.process(440.0);
    let b = Osc { phase: 1.0 }.process(660.0);
    assert_eq!(a.len(), 4410);
    assert_eq!(out.len(), 4410);
    for i in 0..4410 {
        assert_eq!(out[i], (a[i] + b[i]) / 2.0);
    }
}

#[test]
fn four_oscillators_into_four_way_mix() {
    let mut system = Osc { phase: 0.0 }
        .stack(Osc { phase: 0.5 })
        .stack(Osc { phase: 1.0 })
        .stack(Osc { phase: 1.5 })
        .connect(Mean::<4>);
    let out = system.process((((110.0, 220.0), 330.0), 440.0));
    let w: Vec<Wave> = vec![
        Osc { phase: 0.0 }.process(110.0),
        Osc { phase: 0.5 }.process(220.0),
        Osc { phase: 1.0 }.process(330.0),
        Osc { phase: 1.5 }.process(440.0),
    ];
    assert_eq!(out.len(), 4410);
    for i in 0..4410 {
        let expected = (w[0][i] + w[1][i] + w[2][i] + w[3][i]) / 4.0;
        assert!((out[i] - expected).abs() < 1e-6);
    }
}

#[test]
fn series_is_second_after_first() {
    let triple = MapperBlock { mapper: |x: u32| x * 3, name: "Triple".to_string(), no_vis: false };
    let mut c = dsp_blocks::graph::CanMap::map(triple, "Plus one", |x: u32| x + 1);
    assert_eq!(c.process(5), 16);
    let mut d = Discard.connect(Identity);
    assert_eq!(d.process(7u8), ());
}

#[test]
fn parallel_is_pair_of_results() {
    let mut s = ported(1).stack(MapperBlock { mapper: |x: i32| -x, name: "Neg".to_string(), no_vis: true });
    assert_eq!(s.process((4, 9)), (5, -9));
}

#[test]
fn stack_canvas_size() {
    let mut s = ported(1).stack(Identity);
    let (out, v) = s.process_and_visualize((1, 2u8));
    assert_eq!(out, (2, 2));
    let v = v.unwrap();
    assert_eq!(size_of(&v), (55, 20 + 55 + 9));
    let (ins, outs) = ports_of(&v);
    // ported box right-aligned in 55: moved by 15
    assert_eq!(ins, vec![Point { x: 15, y: 10 }, Point { x: 27, y: 27 + 29 }]);
    assert_eq!(outs, vec![Point { x: 55, y: 10 }, Point { x: 27, y: 27 + 29 }]);
    assert!(wires_of(&v).is_empty());
}

#[test]
fn connect_canvas_size() {
    let mut c = ported(1).connect(Identity);
    let (out, v) = c.process_and_visualize(1);
    assert_eq!(out, 2);
    let v = v.unwrap();
    assert_eq!(size_of(&v), (40 + 55 + 30, 55));
    let (ins, outs) = ports_of(&v);
    // ported box centred vertically: (55 - 20) / 2 = 17
    assert_eq!(ins, vec![Point { x: 0, y: 27 }]);
    assert_eq!(outs, vec![Point { x: 70 + 27, y: 27 }]);
    let wires = wires_of(&v);
    assert_eq!(wires.len(), 1);
    assert_eq!(wires[0].from, Point { x: 40, y: 27 });
    assert_eq!(wires[0].to, Point { x: 97, y: 27 });
}

#[test]
fn one_output_broadcast_to_many_inputs() {
    for k in 2..=4usize {
        let mut c = ported(1).connect(ported(k));
        let (_, v) = c.process_and_visualize(0);
        let v = v.unwrap();
        let wires = wires_of(&v);
        assert_eq!(wires.len(), k);
        for (i, w) in wires.iter().enumerate() {
            assert_eq!(w.from, Point { x: 40, y: 10 });
            assert_eq!(w.to, Point { x: 70, y: 10 + i as i64 });
        }
    }
}

#[test]
fn mismatched_port_counts_are_an_error() {
    let mut c = ported(1).connect(ported(3));
    let (out, v) = c.process_and_visualize(0);
    assert_eq!(out, 2);
    assert!(v.is_ok());
    let mut bad = Identity.stack(Identity).connect(Wide { inputs: 3 });
    let (_, v) = bad.process_and_visualize((0u32, 0u32));
    assert_eq!(v.unwrap_err(), VisualizeError::ArityMismatch { outputs: 2, inputs: 3 });
}

#[test]
fn empty_visual_leaves_the_other_untouched() {
    let mut alone = ported(2);
    let (_, expected) = alone.process_and_visualize(3);
    let expected = expected.unwrap();
    let mut c = MapperBlock { mapper: |x: u32| x, name: "Hidden".to_string(), no_vis: false }
        .no_vis()
        .connect(ported(2));
    let (out, v) = c.process_and_visualize(3);
    assert_eq!(out, 4);
    let v = v.unwrap();
    assert_eq!(size_of(&v), size_of(&expected));
    assert_eq!(ports_of(&v), ports_of(&expected));
    assert!(matches!(v.as_simple_texture().map(|c| &c.picture), Some(Picture::Shapes(_))));
    let mut hidden_pair = Osc { phase: 0.0 }.stack(Osc { phase: 0.0 }).connect(Mean::<2>);
    let (w, v) = hidden_pair.process_and_visualize((1.0, 2.0));
    assert_eq!(w.len(), 4410);
    assert!(matches!(v, Ok(VisualizeResult::Empty)));
    let mut both = Discard.stack(Discard);
    let (_, v) = both.process_and_visualize((1, 2));
    assert!(matches!(v, Ok(VisualizeResult::Empty)));
}

#[test]
fn fork_feeds_every_input() {
    let mut f = MapperBlock { mapper: |x: u32| x + 1, name: "Inc".to_string(), no_vis: true }
        .fork::<(u32, u32), _>(MapperBlock { mapper: |p: (u32, u32)| p, name: "Pair".to_string(), no_vis: true }
            .connect(Identity));
    assert_eq!(f.process(4), (5, 5));
}

#[test]
fn hover_goes_to_one_child() {
    let mut c = ported(1).connect(ported(1));
    let _ = c.process_and_visualize(0);
    let mut ctx = ControlContext { is_dirty: false };
    // left box at (0, 0) size 40x20; right box at (70, 0)
    c.on_hover(Point { x: 5, y: 6 }, &mut ctx);
    assert_eq!(c.input.hovered, vec![Point { x: 5, y: 6 }]);
    assert!(c.output.hovered.is_empty());
    assert!(ctx.is_dirty);
    c.on_hover(Point { x: 75, y: 7 }, &mut ctx);
    assert_eq!(c.output.hovered, vec![Point { x: 5, y: 7 }]);
    assert_eq!(c.input.unhovered, 1);
    // in the gap: nobody hovered, the right one unhovered
    c.on_hover(Point { x: 50, y: 7 }, &mut ctx);
    assert_eq!(c.input.hovered.len(), 1);
    assert_eq!(c.output.hovered.len(), 1);
    assert_eq!(c.output.unhovered, 1);
    // again in the gap: nothing more
    c.on_hover(Point { x: 50, y: 7 }, &mut ctx);
    assert_eq!(c.output.unhovered, 1);
    assert_eq!(c.input.unhovered, 1);
}

#[test]
fn leaving_unhovers_only_the_last_hovered() {
    let mut s = ported(1).stack(ported(1));
    let _ = s.process_and_visualize((0, 0));
    let mut ctx = ControlContext { is_dirty: false };
    // top box at (0, 0), bottom box at (0, 29); both 40x20
    s.on_hover(Point { x: 1, y: 30 }, &mut ctx);
    assert_eq!(s.b.hovered, vec![Point { x: 1, y: 1 }]);
    assert!(s.a.hovered.is_empty());
    assert_eq!(s.a.unhovered, 0);
    s.on_unhover(&mut ctx);
    assert_eq!(s.b.unhovered, 1);
    assert_eq!(s.a.unhovered, 0);
    s.on_unhover(&mut ctx);
    assert_eq!(s.b.unhovered, 1);
}
