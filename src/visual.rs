use vstd::prelude::*;
use crate::geometry::{Point, Rect};

verus! {

/// Side of the square box that simple blocks are drawn in.
pub const BOX_SIZE: u32 = 55;

/// Base thickness unit of the drawings.
pub const T: u32 = 3;

/// Vertical gap between the two children of a parallel composition.
pub const STACK_PAD: u32 = 3 * T;

/// Horizontal gap between the two children of a series composition,
/// where the connector curves run.
pub const CONNECT_PAD: u32 = 10 * T;

/// Thickness of the border around a simple box.
pub const BORDER_THICKNESS: u32 = 2;

/// Font size of the label in a simple box.
pub const LABEL_FONT_SIZE: i32 = 3;

/// Left edge of the label in a simple box.
pub const LABEL_LEFT: i64 = 5;

/// The colours the drawings use.
#[derive(Clone, Copy, Debug, PartialEq, Eq, Structural)]
pub enum Color {
    White,
    Black,
    Gray,
    Silver,
    BlueViolet,
    RoyalBlue,
    Orange,
    Brown,
}

pub const BORDER_COLOR: Color = Color::White;

pub const BG_COLOR: Color = Color::Black;

pub const TEXT_COLOR: Color = Color::White;

/// The palette for coloured connectors: the `i`-th connector takes entry `i % 4`.
pub open spec fn spec_line_color(i: int) -> Color {
    let k = i % 4;
    if k == 0 {
        Color::BlueViolet
    } else if k == 1 {
        Color::RoyalBlue
    } else if k == 2 {
        Color::Orange
    } else {
        Color::Brown
    }
}

pub fn line_color(i: usize) -> (r: Color)
    ensures
        r == spec_line_color(i as int),
{
    let k = i % 4;
    if k == 0 {
        Color::BlueViolet
    } else if k == 1 {
        Color::RoyalBlue
    } else if k == 2 {
        Color::Orange
    } else {
        Color::Brown
    }
}

/// A drawing primitive of a leaf canvas, in that canvas's coordinates.
#[derive(Debug)]
pub enum Shape {
    Line { from: Point, to: Point, thickness: u32, color: Color },
    RectLines { rect: Rect, thickness: u32, color: Color },
    Text { text: String, at: Point, size: i32, color: Color },
    TriangleLines { a: Point, b: Point, c: Point, color: Color },
}

/// A connector curve between an output port and an input port.
#[derive(Clone, Copy, Debug, PartialEq, Eq, Structural)]
pub struct Wire {
    pub from: Point,
    pub to: Point,
    pub color: Color,
}

/// What a canvas shows: primitives of its own, or two child canvases placed
/// at offsets, with the connectors drawn over them.
#[derive(Debug)]
pub enum Picture {
    Shapes(Vec<Shape>),
    Pair {
        first: Box<Canvas>,
        first_at: Point,
        second: Box<Canvas>,
        second_at: Point,
        wires: Vec<Wire>,
    },
}

/// A rendered picture of a given size. The host draws it; this library only
/// decides what goes where.
#[derive(Debug)]
pub struct Canvas {
    pub width: u32,
    pub height: u32,
    pub picture: Picture,
}

/// The visual artifact produced alongside a block's result.
#[derive(Debug)]
pub enum VisualizeResult {
    Empty,
    SimpleTexture(Canvas),
    Block { texture: Canvas, input_connections: Vec<Point>, output_connections: Vec<Point> },
}

/// Why a composite could not be visualized.
#[derive(Clone, Copy, Debug, PartialEq, Eq, Structural)]
pub enum VisualizeError {
    /// The upstream output ports and the downstream input ports cannot be paired:
    /// their counts differ and neither is one.
    ArityMismatch { outputs: usize, inputs: usize },
    /// The composite canvas would not fit the size range of a canvas.
    CanvasTooLarge,
}

/// Whether `p` lies within a `width` x `height` canvas, edges included.
pub open spec fn port_within(p: Point, width: int, height: int) -> bool {
    0 <= p.x <= width && 0 <= p.y <= height
}

pub open spec fn ports_within(ports: Seq<Point>, width: int, height: int) -> bool {
    forall|i: int| 0 <= i < ports.len() ==> #[trigger] port_within(ports[i], width, height)
}

/// `ports` with every point moved by `(dx, dy)`.
pub open spec fn shifted_ports(ports: Seq<Point>, dx: int, dy: int) -> Seq<Point> {
    Seq::new(ports.len(), |i: int| ports[i].shifted(dx, dy))
}

impl VisualizeResult {
    pub open spec fn is_empty(&self) -> bool {
        self is Empty
    }

    /// The canvas of a visual artifact (meaningless for `None`).
    pub open spec fn canvas(&self) -> Canvas {
        match self {
            VisualizeResult::Empty => arbitrary(),
            VisualizeResult::SimpleTexture(c) => *c,
            VisualizeResult::Block { texture, .. } => *texture,
        }
    }

    /// The input ports; a canvas without ports has none.
    pub open spec fn inputs(&self) -> Seq<Point> {
        match self {
            VisualizeResult::Block { input_connections, .. } => input_connections@,
            _ => Seq::empty(),
        }
    }

    /// The output ports; a canvas without ports has none.
    pub open spec fn outputs(&self) -> Seq<Point> {
        match self {
            VisualizeResult::Block { output_connections, .. } => output_connections@,
            _ => Seq::empty(),
        }
    }

    /// Every port lies on its canvas.
    pub open spec fn wf(&self) -> bool {
        let c = self.canvas();
        &&& ports_within(self.inputs(), c.width as int, c.height as int)
        &&& ports_within(self.outputs(), c.width as int, c.height as int)
    }

    /// The canvas, if there is one.
    pub fn as_simple_texture(&self) -> (r: Option<&Canvas>)
        ensures
            self.is_empty() <==> r is None,
            r is Some ==> *r->Some_0 == self.canvas(),
    {
        match self {
            VisualizeResult::Empty => None,
            VisualizeResult::SimpleTexture(x) => Some(x),
            VisualizeResult::Block { texture, .. } => Some(texture),
        }
    }
}

/// Number of line breaks in `s`.
pub open spec fn newlines(s: Seq<char>) -> nat
    decreases s.len(),
{
    if s.len() == 0 {
        0
    } else {
        newlines(s.drop_last()) + if s.last() == '\n' {
            1nat
        } else {
            0nat
        }
    }
}

/// Top edge of a label with `breaks` line breaks in a simple box: the label
/// rises by ten units per extra line, truncated towards zero, and saturates
/// at the smallest `i32`.
pub open spec fn label_top(breaks: int) -> int {
    let y = if 10 * breaks <= 32 {
        32 - 10 * breaks
    } else {
        33 - 10 * breaks
    };
    if y < i32::MIN {
        i32::MIN as int
    } else {
        y
    }
}

fn count_newlines(text: &str) -> (r: usize)
    ensures
        r == newlines(text@),
{
    let n = text.unicode_len();
    let mut i: usize = 0;
    let mut count: usize = 0;
    while i < n
        invariant
            n == text@.len(),
            i <= n,
            count == newlines(text@.take(i as int)),
            count <= i,
        decreases n - i,
    {
        let c = text.get_char(i);
        assert(text@.take(i as int + 1).drop_last() =~= text@.take(i as int));
        if c == '\n' {
            count = count + 1;
        }
        i = i + 1;
    }
    assert(text@.take(n as int) =~= text@);
    count
}

/// The border around `rec`.
pub fn draw_border(rec: Rect) -> (r: Shape)
    ensures
        r == (Shape::RectLines { rect: rec, thickness: BORDER_THICKNESS, color: BORDER_COLOR }),
{
    Shape::RectLines { rect: rec, thickness: BORDER_THICKNESS, color: BORDER_COLOR }
}

/// The square box of side `BOX_SIZE`.
pub open spec fn box_rect() -> Rect {
    Rect { x: 0, y: 0, width: BOX_SIZE as i64, height: BOX_SIZE as i64 }
}

/// Centre of the simple box on both axes: half of `BOX_SIZE`, rounded down.
pub const BOX_CENTER: i64 = 27;

/// Draws a labelled box: appends the label and the border to `shapes` and
/// returns the centre of the box.
pub fn draw_simple_bock(shapes: &mut Vec<Shape>, text: &str) -> (r: Point)
    ensures
        final(shapes)@.len() == old(shapes)@.len() + 2,
        final(shapes)@.take(old(shapes)@.len() as int) == old(shapes)@,
        final(shapes)@[old(shapes)@.len() as int] matches Shape::Text { text: t, at, size, color }
            && t@ == text@ && at == (Point { x: LABEL_LEFT, y: label_top(newlines(text@) as int) as i64 })
            && size == LABEL_FONT_SIZE && color == TEXT_COLOR,
        final(shapes)@[old(shapes)@.len() as int + 1] == (Shape::RectLines {
            rect: box_rect(),
            thickness: BORDER_THICKNESS,
            color: BORDER_COLOR,
        }),
        r == (Point { x: BOX_CENTER, y: BOX_CENTER }),
{
    let breaks = count_newlines(text);
    let top: i64 = if breaks >= 300_000_000 {
        i32::MIN as i64
    } else if breaks <= 3 {
        32 - 10 * breaks as i64
    } else {
        33 - 10 * breaks as i64
    };
    let top: i64 = if top < i32::MIN as i64 {
        i32::MIN as i64
    } else {
        top
    };
    shapes.push(
        Shape::Text {
            text: text.to_owned(),
            at: Point { x: LABEL_LEFT, y: top },
            size: LABEL_FONT_SIZE,
            color: TEXT_COLOR,
        },
    );
    shapes.push(draw_border(Rect { x: 0, y: 0, width: BOX_SIZE as i64, height: BOX_SIZE as i64 }));
    Point { x: BOX_CENTER, y: BOX_CENTER }
}

/// `v` is the visual of a simple box: a `BOX_SIZE` square with one input
/// port at the middle of its left edge and one output port at the middle of
/// its right edge.
pub open spec fn is_simple_box(v: VisualizeResult) -> bool {
    &&& v is Block
    &&& v.canvas().width == BOX_SIZE
    &&& v.canvas().height == BOX_SIZE
    &&& v.inputs() == seq![Point { x: 0, y: BOX_CENTER }]
    &&& v.outputs() == seq![Point { x: BOX_SIZE as i64, y: BOX_CENTER }]
}

/// `v` is a simple box that shows `text`: its picture is the label (at the
/// left, rising by ten units per extra line) and then the border.
pub open spec fn is_labelled_box(v: VisualizeResult, text: Seq<char>) -> bool {
    &&& is_simple_box(v)
    &&& match v.canvas().picture {
        Picture::Shapes(s) => {
            &&& s@.len() == 2
            &&& match s@[0] {
                Shape::Text { text: t, at, size, color } => {
                    &&& t@ == text
                    &&& at == Point { x: LABEL_LEFT, y: label_top(newlines(text) as int) as i64 }
                    &&& size == LABEL_FONT_SIZE
                    &&& color == TEXT_COLOR
                },
                _ => false,
            }
            &&& s@[1] == Shape::RectLines {
                rect: box_rect(),
                thickness: BORDER_THICKNESS,
                color: BORDER_COLOR,
            }
        },
        _ => false,
    }
}

/// The visual of a simple block: a labelled `BOX_SIZE` box with one input
/// port at the middle of its left edge and one output port at the middle of
/// its right edge. `out` is handed back unchanged.
pub fn visualize_simple_box<O>(text: &str, out: O) -> (r: (O, VisualizeResult))
    ensures
        r.0 == out,
        is_labelled_box(r.1, text@),
        r.1.wf(),
{
    let mut shapes: Vec<Shape> = Vec::new();
    let center = draw_simple_bock(&mut shapes, text);
    let mut ins: Vec<Point> = Vec::new();
    ins.push(Point { x: 0, y: center.y });
    let mut outs: Vec<Point> = Vec::new();
    outs.push(Point { x: BOX_SIZE as i64, y: center.y });
    let v = VisualizeResult::Block {
        texture: Canvas { width: BOX_SIZE, height: BOX_SIZE, picture: Picture::Shapes(shapes) },
        input_connections: ins,
        output_connections: outs,
    };
    assert(v.inputs() =~= seq![Point { x: 0, y: BOX_CENTER }]);
    assert(v.outputs() =~= seq![Point { x: BOX_SIZE as i64, y: BOX_CENTER }]);
    (out, v)
}

/// `s` repeated `n` times, end to end.
pub open spec fn repeated<A>(s: Seq<A>, n: nat) -> Seq<A>
    decreases n,
{
    if n == 0 {
        Seq::empty()
    } else {
        repeated(s, (n - 1) as nat) + s
    }
}

proof fn lemma_repeated_within(s: Seq<Point>, n: nat, width: int, height: int)
    requires
        ports_within(s, width, height),
    ensures
        ports_within(repeated(s, n), width, height),
    decreases n,
{
    if n > 0 {
        lemma_repeated_within(s, (n - 1) as nat, width, height);
        let r = repeated(s, (n - 1) as nat);
        assert forall|i: int| 0 <= i < repeated(s, n).len() implies port_within(
            #[trigger] repeated(s, n)[i],
            width,
            height,
        ) by {
            if i < r.len() {
                assert(port_within(r[i], width, height));
            } else {
                assert(port_within(s[i - r.len()], width, height));
            }
        }
    }
}

/// The same visual with its list of input ports repeated `n` times: a block
/// that takes `n` signals through one drawn port shows it once per signal.
pub fn repeat_inputs(v: VisualizeResult, n: usize) -> (r: VisualizeResult)
    requires
        v.wf(),
    ensures
        r.inputs() == if v is Block {
            repeated(v.inputs(), n as nat)
        } else {
            v.inputs()
        },
        r.canvas() == v.canvas(),
        r.outputs() == v.outputs(),
        r.is_empty() == v.is_empty(),
        v is Block <==> r is Block,
        r.wf(),
{
    match v {
        VisualizeResult::Block { texture, input_connections, output_connections } => {
            let ghost c = texture;
            let mut ins: Vec<Point> = Vec::new();
            let mut k: usize = 0;
            while k < n
                invariant
                    k <= n,
                    ins@ == repeated(input_connections@, k as nat),
                decreases n - k,
            {
                let mut j: usize = 0;
                let ghost before = ins@;
                while j < input_connections.len()
                    invariant
                        j <= input_connections@.len(),
                        ins@ == before + input_connections@.take(j as int),
                    decreases input_connections.len() - j,
                {
                    ins.push(input_connections[j]);
                    j = j + 1;
                    assert(ins@ =~= before + input_connections@.take(j as int));
                }
                assert(input_connections@.take(j as int) =~= input_connections@);
                k = k + 1;
            }
            proof {
                lemma_repeated_within(input_connections@, n as nat, c.width as int, c.height as int);
            }
            VisualizeResult::Block { texture, input_connections: ins, output_connections }
        },
        other => other,
    }
}

/// How a wave view sizes its plot.
#[derive(Clone, Copy, Debug, PartialEq, Eq, Structural)]
pub enum WaveViewType {
    /// One plot unit per started second of the longest signal.
    Grow,
    /// Everything fitted in one plot unit.
    Small,
}

impl Default for WaveViewType {
    fn default() -> (r: WaveViewType)
        ensures
            r == WaveViewType::Small,
    {
        WaveViewType::Small
    }
}

/// Height of the plot of a wave view.
pub const WAVE_PLOT_HEIGHT: u32 = 50;

/// Height of the statistics line of one signal under the plot.
pub const STAT_LINE_HEIGHT: u32 = 13;

/// Width of one plot unit: ten boxes while hovered, two otherwise.
pub open spec fn plot_unit(is_hovering: bool) -> int {
    (if is_hovering { 10int } else { 2int }) * BOX_SIZE
}

/// Width of the plot of a wave view whose longest signal has `longest` samples.
pub open spec fn plot_width(t: WaveViewType, is_hovering: bool, longest: int, sample_rate: int) -> int {
    match t {
        WaveViewType::Grow => (longest / sample_rate + 1) * plot_unit(is_hovering) * 2,
        WaveViewType::Small => plot_unit(is_hovering),
    }
}

/// The canvas of a wave view of `n` signals, the longest of `longest` samples
/// at `sample_rate`: the plot, a statistics line per signal below it, one input
/// port at the middle of the plot's left edge and one output port at the middle
/// of its right edge. `None` when the canvas would not fit the size range of a
/// canvas.
pub fn wave_view_visual(
    t: WaveViewType,
    is_hovering: bool,
    longest: usize,
    sample_rate: usize,
    n: usize,
    shapes: Vec<Shape>,
) -> (r: Option<VisualizeResult>)
    requires
        sample_rate > 0,
    ensures
        ({
            let w = plot_width(t, is_hovering, longest as int, sample_rate as int);
            let h = WAVE_PLOT_HEIGHT + n * STAT_LINE_HEIGHT;
            &&& (w <= u32::MAX && h <= u32::MAX) <==> r is Some
            &&& r is Some ==> {
                let v = r->Some_0;
                &&& v is Block
                &&& v.canvas().width == w
                &&& v.canvas().height == h
                &&& v.canvas().picture == Picture::Shapes(shapes)
                &&& v.inputs() == seq![Point { x: 0, y: (WAVE_PLOT_HEIGHT / 2) as i64 }]
                &&& v.outputs() == seq![Point { x: w as i64, y: (WAVE_PLOT_HEIGHT / 2) as i64 }]
                &&& v.wf()
            }
        }),
{
    let unit: u64 = if is_hovering {
        10 * BOX_SIZE as u64
    } else {
        2 * BOX_SIZE as u64
    };
    let w: u64 = match t {
        WaveViewType::Grow => {
            let q = longest / sample_rate;
            if q as u64 >= u32::MAX as u64 {
                assert((q + 1) * plot_unit(is_hovering) * 2 > u32::MAX) by (nonlinear_arith)
                    requires
                        q >= u32::MAX,
                        plot_unit(is_hovering) >= 110,
                ;
                return None;
            }
            let seconds = q as u64 + 1;
            assert(seconds * unit * 2 <= 0x1_0000_0000u64 * 550 * 2) by (nonlinear_arith)
                requires
                    seconds <= 0x1_0000_0000u64,
                    unit <= 550,
            ;
            seconds * unit * 2
        },
        WaveViewType::Small => unit,
    };
    if w > u32::MAX as u64 {
        return None;
    }
    if n as u64 > (u32::MAX as u64 - WAVE_PLOT_HEIGHT as u64) / STAT_LINE_HEIGHT as u64 {
        return None;
    }
    let h: u64 = WAVE_PLOT_HEIGHT as u64 + n as u64 * STAT_LINE_HEIGHT as u64;
    let mid: i64 = WAVE_PLOT_HEIGHT as i64 / 2;
    let mut ins: Vec<Point> = Vec::new();
    ins.push(Point { x: 0, y: mid });
    let mut outs: Vec<Point> = Vec::new();
    outs.push(Point { x: w as i64, y: mid });
    let v = VisualizeResult::Block {
        texture: Canvas { width: w as u32, height: h as u32, picture: Picture::Shapes(shapes) },
        input_connections: ins,
        output_connections: outs,
    };
    assert(v.inputs() =~= seq![Point { x: 0, y: mid }]);
    assert(v.outputs() =~= seq![Point { x: w as i64, y: mid }]);
    Some(v)
}

} // verus!
