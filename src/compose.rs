use vstd::prelude::*;
use crate::geometry::{Point, Rect};
use crate::visual::{
    line_color, port_within, ports_within, shifted_ports, spec_line_color, Canvas, Color, Picture, VisualizeError,
    VisualizeResult, Wire, BORDER_COLOR, CONNECT_PAD, STACK_PAD,
};

verus! {

/// How the connectors of a series composition are coloured.
#[derive(Clone, Copy, Debug, PartialEq, Eq, Structural)]
pub enum ConnectorStyle {
    /// Every connector in the border colour.
    Plain,
    /// Connector `i` in palette colour `i`.
    Colored,
}

/// What a composite shows, and where its two children were placed: the
/// rectangles that route pointer hovers to the children.
#[derive(Debug)]
pub struct Layout {
    pub visual: VisualizeResult,
    pub first: Rect,
    pub second: Rect,
}

/// The rectangle that a canvas covers when drawn at `at`.
pub open spec fn frame(c: Canvas, at: Point) -> Rect {
    Rect { x: at.x, y: at.y, width: c.width as i64, height: c.height as i64 }
}

pub open spec fn origin() -> Point {
    Point { x: 0, y: 0 }
}

/// The merge rules for a composite with at most one visual child: an absent
/// visual leaves the other one as it is. `None` when both children show something.
pub open spec fn merge_alone(a: VisualizeResult, b: VisualizeResult) -> Option<Layout> {
    if a.is_empty() && b.is_empty() {
        Some(Layout { visual: VisualizeResult::Empty, first: Rect::spec_zero(), second: Rect::spec_zero() })
    } else if a.is_empty() {
        Some(Layout { visual: b, first: Rect::spec_zero(), second: frame(b.canvas(), origin()) })
    } else if b.is_empty() {
        Some(Layout { visual: a, first: frame(a.canvas(), origin()), second: Rect::spec_zero() })
    } else {
        None
    }
}

pub open spec fn max(a: int, b: int) -> int {
    if a >= b { a } else { b }
}

// ---- parallel composition: `a` on top, `b` below, both right-aligned ----

pub open spec fn stack_width(a: Canvas, b: Canvas) -> int {
    max(a.width as int, b.width as int)
}

pub open spec fn stack_height(a: Canvas, b: Canvas) -> int {
    a.height + b.height + STACK_PAD
}

pub open spec fn stack_first_at(a: Canvas, b: Canvas) -> Point {
    Point { x: (stack_width(a, b) - a.width) as i64, y: 0 }
}

pub open spec fn stack_second_at(a: Canvas, b: Canvas) -> Point {
    Point { x: (stack_width(a, b) - b.width) as i64, y: (a.height + STACK_PAD) as i64 }
}

/// `l` is the parallel composition of two visual artifacts that both show something.
pub open spec fn stacked(a: VisualizeResult, b: VisualizeResult, l: Layout) -> bool {
    let ca = a.canvas();
    let cb = b.canvas();
    let pa = stack_first_at(ca, cb);
    let pb = stack_second_at(ca, cb);
    &&& l.visual is Block
    &&& l.visual.canvas().width == stack_width(ca, cb)
    &&& l.visual.canvas().height == stack_height(ca, cb)
    &&& match l.visual.canvas().picture {
        Picture::Pair { first, first_at, second, second_at, wires } => {
            &&& *first == ca
            &&& first_at == pa
            &&& *second == cb
            &&& second_at == pb
            &&& wires@.len() == 0
        },
        _ => false,
    }
    &&& l.visual.inputs() == shifted_ports(a.inputs(), pa.x as int, pa.y as int) + shifted_ports(
        b.inputs(),
        pb.x as int,
        pb.y as int,
    )
    &&& l.visual.outputs() == shifted_ports(a.outputs(), pa.x as int, pa.y as int)
        + shifted_ports(b.outputs(), pb.x as int, pb.y as int)
    &&& l.first == frame(ca, pa)
    &&& l.second == frame(cb, pb)
}

// ---- series composition: `a` left, `b` right, both centred vertically ----

pub open spec fn series_width(a: Canvas, b: Canvas) -> int {
    a.width + b.width + CONNECT_PAD
}

pub open spec fn series_height(a: Canvas, b: Canvas) -> int {
    max(a.height as int, b.height as int)
}

pub open spec fn series_first_at(a: Canvas, b: Canvas) -> Point {
    Point { x: 0, y: ((series_height(a, b) - a.height) / 2) as i64 }
}

pub open spec fn series_second_at(a: Canvas, b: Canvas) -> Point {
    Point {
        x: (a.width + CONNECT_PAD) as i64,
        y: ((series_height(a, b) - b.height) / 2) as i64,
    }
}

/// The 1-to-N rule: a single port on one side is repeated to match the
/// count on the other side; otherwise the counts must already agree.
pub open spec fn broadcast(outs: Seq<Point>, ins: Seq<Point>) -> Option<(Seq<Point>, Seq<Point>)> {
    if outs.len() == 1 && ins.len() > 1 {
        Some((Seq::new(ins.len(), |i: int| outs[0]), ins))
    } else if ins.len() == 1 && outs.len() > 1 {
        Some((outs, Seq::new(outs.len(), |i: int| ins[0])))
    } else if outs.len() == ins.len() {
        Some((outs, ins))
    } else {
        None
    }
}

pub open spec fn wire_color(style: ConnectorStyle, i: int) -> Color {
    match style {
        ConnectorStyle::Plain => BORDER_COLOR,
        ConnectorStyle::Colored => spec_line_color(i),
    }
}

/// The connectors between paired ports: output `i` (moved by `pa`) to input `i` (moved by `pb`).
pub open spec fn wires_between(
    outs: Seq<Point>,
    ins: Seq<Point>,
    pa: Point,
    pb: Point,
    style: ConnectorStyle,
) -> Seq<Wire> {
    Seq::new(
        outs.len(),
        |i: int|
            Wire {
                from: outs[i].shifted(pa.x as int, pa.y as int),
                to: ins[i].shifted(pb.x as int, pb.y as int),
                color: wire_color(style, i),
            },
    )
}

/// `l` is the series composition of two visual artifacts that both show
/// something and whose ports pair up as `outs` and `ins`.
pub open spec fn connected(
    a: VisualizeResult,
    b: VisualizeResult,
    style: ConnectorStyle,
    outs: Seq<Point>,
    ins: Seq<Point>,
    l: Layout,
) -> bool {
    let ca = a.canvas();
    let cb = b.canvas();
    let pa = series_first_at(ca, cb);
    let pb = series_second_at(ca, cb);
    &&& l.visual is Block
    &&& l.visual.canvas().width == series_width(ca, cb)
    &&& l.visual.canvas().height == series_height(ca, cb)
    &&& match l.visual.canvas().picture {
        Picture::Pair { first, first_at, second, second_at, wires } => {
            &&& *first == ca
            &&& first_at == pa
            &&& *second == cb
            &&& second_at == pb
            &&& wires@ == wires_between(outs, ins, pa, pb, style)
        },
        _ => false,
    }
    &&& l.visual.inputs() == shifted_ports(a.inputs(), pa.x as int, pa.y as int)
    &&& l.visual.outputs() == shifted_ports(b.outputs(), pb.x as int, pb.y as int)
    &&& l.first == frame(ca, pa)
    &&& l.second == frame(cb, pb)
}

/// The wires of a series composite (empty when it has none).
pub open spec fn wires_of(v: VisualizeResult) -> Seq<Wire> {
    match v.canvas().picture {
        Picture::Pair { wires, .. } => wires@,
        _ => Seq::empty(),
    }
}

/// What laying out a parallel composite of `a` and `b` gives.
pub open spec fn stack_outcome(
    a: VisualizeResult,
    b: VisualizeResult,
    r: Result<Layout, VisualizeError>,
) -> bool {
    let h = stack_height(a.canvas(), b.canvas());
    &&& merge_alone(a, b) is Some ==> r == Ok::<Layout, VisualizeError>(merge_alone(a, b)->Some_0)
    &&& merge_alone(a, b) is None && h > u32::MAX ==> r == Err::<Layout, VisualizeError>(
        VisualizeError::CanvasTooLarge,
    )
    &&& merge_alone(a, b) is None && h <= u32::MAX ==> r is Ok && stacked(a, b, r->Ok_0)
}

/// What laying out a series composite of `a` and `b` gives.
pub open spec fn connect_outcome(
    a: VisualizeResult,
    b: VisualizeResult,
    style: ConnectorStyle,
    r: Result<Layout, VisualizeError>,
) -> bool {
    let pairs = broadcast(a.outputs(), b.inputs());
    let w = series_width(a.canvas(), b.canvas());
    &&& merge_alone(a, b) is Some ==> r == Ok::<Layout, VisualizeError>(merge_alone(a, b)->Some_0)
    &&& merge_alone(a, b) is None && pairs is None ==> r == Err::<Layout, VisualizeError>(
        VisualizeError::ArityMismatch {
            outputs: a.outputs().len() as usize,
            inputs: b.inputs().len() as usize,
        },
    )
    &&& merge_alone(a, b) is None && pairs is Some && w > u32::MAX ==> r == Err::<
        Layout,
        VisualizeError,
    >(VisualizeError::CanvasTooLarge)
    &&& merge_alone(a, b) is None && pairs is Some && w <= u32::MAX ==> r is Ok && connected(
        a,
        b,
        style,
        pairs->Some_0.0,
        pairs->Some_0.1,
        r->Ok_0,
    )
}

/// The visual of a layout, or its error.
pub open spec fn visual_of(r: Result<Layout, VisualizeError>) -> Result<VisualizeResult, VisualizeError> {
    match r {
        Ok(l) => Ok(l.visual),
        Err(e) => Err(e),
    }
}

/// Ports that lie within a canvas of the largest size.
pub open spec fn ports_in_range(ports: Seq<Point>) -> bool {
    ports_within(ports, u32::MAX as int, u32::MAX as int)
}

/// Moves every port by `(dx, dy)`.
pub fn shift_ports(ports: &Vec<Point>, dx: i64, dy: i64) -> (r: Vec<Point>)
    requires
        ports_in_range(ports@),
        0 <= dx <= u32::MAX,
        0 <= dy <= u32::MAX,
    ensures
        r@ == shifted_ports(ports@, dx as int, dy as int),
{
    let mut r: Vec<Point> = Vec::new();
    let mut i: usize = 0;
    while i < ports.len()
        invariant
            i <= ports@.len(),
            ports_in_range(ports@),
            0 <= dx <= u32::MAX,
            0 <= dy <= u32::MAX,
            r@ == shifted_ports(ports@.take(i as int), dx as int, dy as int),
        decreases ports.len() - i,
    {
        assert(port_within(ports@[i as int], u32::MAX as int, u32::MAX as int));
        let p = ports[i].translate(dx, dy);
        r.push(p);
        i = i + 1;
        assert(r@ =~= shifted_ports(ports@.take(i as int), dx as int, dy as int));
    }
    assert(ports@.take(i as int) =~= ports@);
    r
}

/// Pairs output ports with input ports by the 1-to-N rule.
pub fn broadcast_ports(outs: Vec<Point>, ins: Vec<Point>) -> (r: Result<
    (Vec<Point>, Vec<Point>),
    VisualizeError,
>)
    ensures
        broadcast(outs@, ins@) is Some <==> r is Ok,
        r is Ok ==> r->Ok_0.0@ == broadcast(outs@, ins@)->Some_0.0 && r->Ok_0.1@ == broadcast(
            outs@,
            ins@,
        )->Some_0.1,
        r is Err ==> r->Err_0 == (VisualizeError::ArityMismatch {
            outputs: outs.len(),
            inputs: ins.len(),
        }),
{
    if outs.len() == 1 && ins.len() > 1 {
        let p = outs[0];
        let mut o: Vec<Point> = Vec::new();
        let mut i: usize = 0;
        while i < ins.len()
            invariant
                i <= ins@.len(),
                outs@.len() == 1,
                p == outs@[0],
                o@ == Seq::new(i as nat, |k: int| outs@[0]),
            decreases ins.len() - i,
        {
            o.push(p);
            i = i + 1;
            assert(o@ =~= Seq::new(i as nat, |k: int| outs@[0]));
        }
        Ok((o, ins))
    } else if ins.len() == 1 && outs.len() > 1 {
        let p = ins[0];
        let mut n: Vec<Point> = Vec::new();
        let mut i: usize = 0;
        while i < outs.len()
            invariant
                i <= outs@.len(),
                ins@.len() == 1,
                p == ins@[0],
                n@ == Seq::new(i as nat, |k: int| ins@[0]),
            decreases outs.len() - i,
        {
            n.push(p);
            i = i + 1;
            assert(n@ =~= Seq::new(i as nat, |k: int| ins@[0]));
        }
        Ok((outs, n))
    } else if outs.len() == ins.len() {
        Ok((outs, ins))
    } else {
        Err(VisualizeError::ArityMismatch { outputs: outs.len(), inputs: ins.len() })
    }
}

/// Splits a visual artifact that shows something into its canvas and ports.
fn into_parts(v: VisualizeResult) -> (r: (Canvas, Vec<Point>, Vec<Point>))
    requires
        !v.is_empty(),
    ensures
        r.0 == v.canvas(),
        r.1@ == v.inputs(),
        r.2@ == v.outputs(),
{
    match v {
        VisualizeResult::Empty => {
            assert(false);
            (Canvas { width: 0, height: 0, picture: Picture::Shapes(Vec::new()) }, Vec::new(), Vec::new())
        },
        VisualizeResult::SimpleTexture(c) => (c, Vec::new(), Vec::new()),
        VisualizeResult::Block { texture, input_connections, output_connections } => (
            texture,
            input_connections,
            output_connections,
        ),
    }
}

/// The rectangle that the canvas of `v` covers when drawn at the origin.
fn frame_at_origin(v: &VisualizeResult) -> (r: Rect)
    requires
        !v.is_empty(),
    ensures
        r == frame(v.canvas(), origin()),
{
    match v {
        VisualizeResult::Empty => Rect::zero(),
        VisualizeResult::SimpleTexture(c) => Rect {
            x: 0,
            y: 0,
            width: c.width as i64,
            height: c.height as i64,
        },
        VisualizeResult::Block { texture, .. } => Rect {
            x: 0,
            y: 0,
            width: texture.width as i64,
            height: texture.height as i64,
        },
    }
}

/// Applies the merge rules, where one of the two shows nothing.
fn merge_alone_exec(a: VisualizeResult, b: VisualizeResult) -> (r: Result<
    Layout,
    (VisualizeResult, VisualizeResult),
>)
    ensures
        merge_alone(a, b) is Some <==> r is Ok,
        r is Ok ==> r->Ok_0 == merge_alone(a, b)->Some_0,
        r is Err ==> r->Err_0.0 == a && r->Err_0.1 == b,
{
    let a_empty = matches!(a, VisualizeResult::Empty);
    let b_empty = matches!(b, VisualizeResult::Empty);
    if a_empty && b_empty {
        Ok(Layout { visual: VisualizeResult::Empty, first: Rect::zero(), second: Rect::zero() })
    } else if a_empty {
        let second = frame_at_origin(&b);
        Ok(Layout { visual: b, first: Rect::zero(), second })
    } else if b_empty {
        let first = frame_at_origin(&a);
        Ok(Layout { visual: a, first, second: Rect::zero() })
    } else {
        Err((a, b))
    }
}

/// Lays out two visual artifacts of a parallel composition: `a` on top, `b`
/// below, both right-aligned, `STACK_PAD` apart; their ports are concatenated,
/// those of `a` first. An absent visual leaves the other one as it is.
pub fn stack_visuals(a: VisualizeResult, b: VisualizeResult) -> (r: Result<Layout, VisualizeError>)
    requires
        a.wf(),
        b.wf(),
    ensures
        stack_outcome(a, b, r),
        r is Ok ==> r->Ok_0.visual.wf(),
        // an absent visual leaves the other one untouched, ports included
        a.is_empty() ==> r is Ok && r->Ok_0.visual == b,
        b.is_empty() ==> r is Ok && r->Ok_0.visual == a,
        // the composite is as wide as the wider child and as tall as both plus the gap
        !a.is_empty() && !b.is_empty() && r is Ok ==> r->Ok_0.visual.canvas().width == max(
            a.canvas().width as int,
            b.canvas().width as int,
        ) && r->Ok_0.visual.canvas().height == a.canvas().height + b.canvas().height + STACK_PAD,
{
    let (a, b) = match merge_alone_exec(a, b) {
        Ok(l) => return Ok(l),
        Err(pair) => pair,
    };
    let (ca, a_ins, a_outs) = into_parts(a);
    let (cb, b_ins, b_outs) = into_parts(b);
    let w = if ca.width >= cb.width {
        ca.width
    } else {
        cb.width
    };
    let h = ca.height as u64 + cb.height as u64 + STACK_PAD as u64;
    if h > u32::MAX as u64 {
        return Err(VisualizeError::CanvasTooLarge);
    }
    let h = h as u32;
    let pa = Point { x: (w - ca.width) as i64, y: 0 };
    let pb = Point { x: (w - cb.width) as i64, y: ca.height as i64 + STACK_PAD as i64 };
    assert(ports_in_range(a_ins@) && ports_in_range(a_outs@) && ports_in_range(b_ins@)
        && ports_in_range(b_outs@)) by {
        assert forall|i: int| 0 <= i < a_ins@.len() implies port_within(
            #[trigger] a_ins@[i],
            u32::MAX as int,
            u32::MAX as int,
        ) by {
            assert(port_within(a_ins@[i], ca.width as int, ca.height as int));
        }
        assert forall|i: int| 0 <= i < a_outs@.len() implies port_within(
            #[trigger] a_outs@[i],
            u32::MAX as int,
            u32::MAX as int,
        ) by {
            assert(port_within(a_outs@[i], ca.width as int, ca.height as int));
        }
        assert forall|i: int| 0 <= i < b_ins@.len() implies port_within(
            #[trigger] b_ins@[i],
            u32::MAX as int,
            u32::MAX as int,
        ) by {
            assert(port_within(b_ins@[i], cb.width as int, cb.height as int));
        }
        assert forall|i: int| 0 <= i < b_outs@.len() implies port_within(
            #[trigger] b_outs@[i],
            u32::MAX as int,
            u32::MAX as int,
        ) by {
            assert(port_within(b_outs@[i], cb.width as int, cb.height as int));
        }
    }
    let mut ins = shift_ports(&a_ins, pa.x, pa.y);
    let mut more_ins = shift_ports(&b_ins, pb.x, pb.y);
    ins.append(&mut more_ins);
    let mut outs = shift_ports(&a_outs, pa.x, pa.y);
    let mut more_outs = shift_ports(&b_outs, pb.x, pb.y);
    outs.append(&mut more_outs);
    let first = Rect { x: pa.x, y: pa.y, width: ca.width as i64, height: ca.height as i64 };
    let second = Rect { x: pb.x, y: pb.y, width: cb.width as i64, height: cb.height as i64 };
    let texture = Canvas {
        width: w,
        height: h,
        picture: Picture::Pair {
            first: Box::new(ca),
            first_at: pa,
            second: Box::new(cb),
            second_at: pb,
            wires: Vec::new(),
        },
    };
    let l = Layout {
        visual: VisualizeResult::Block { texture, input_connections: ins, output_connections: outs },
        first,
        second,
    };
    assert(l.visual.wf()) by {
        let v = l.visual;
        assert forall|i: int| 0 <= i < v.inputs().len() implies port_within(
            #[trigger] v.inputs()[i],
            w as int,
            h as int,
        ) by {
            if i < a_ins@.len() {
                assert(port_within(a_ins@[i], ca.width as int, ca.height as int));
            } else {
                assert(port_within(b_ins@[i - a_ins@.len()], cb.width as int, cb.height as int));
            }
        }
        assert forall|i: int| 0 <= i < v.outputs().len() implies port_within(
            #[trigger] v.outputs()[i],
            w as int,
            h as int,
        ) by {
            if i < a_outs@.len() {
                assert(port_within(a_outs@[i], ca.width as int, ca.height as int));
            } else {
                assert(port_within(b_outs@[i - a_outs@.len()], cb.width as int, cb.height as int));
            }
        }
    }
    Ok(l)
}

fn wire_color_exec(style: ConnectorStyle, i: usize) -> (r: Color)
    ensures
        r == wire_color(style, i as int),
{
    match style {
        ConnectorStyle::Plain => BORDER_COLOR,
        ConnectorStyle::Colored => line_color(i),
    }
}

/// Ports within `ports_in_range` when they lie on a canvas.
proof fn lemma_ports_in_range(ports: Seq<Point>, width: u32, height: u32)
    requires
        ports_within(ports, width as int, height as int),
    ensures
        ports_in_range(ports),
{
    assert forall|i: int| 0 <= i < ports.len() implies port_within(
        #[trigger] ports[i],
        u32::MAX as int,
        u32::MAX as int,
    ) by {
        assert(port_within(ports[i], width as int, height as int));
    }
}

/// Lays out two visual artifacts of a series composition: `a` on the left,
/// `b` to its right after `CONNECT_PAD`, both centred vertically. The outputs
/// of `a` are paired with the inputs of `b` by the 1-to-N rule and joined by
/// one connector each; the composite keeps the inputs of `a` and the outputs
/// of `b`. An absent visual leaves the other one as it is.
pub fn connect_visuals(a: VisualizeResult, b: VisualizeResult, style: ConnectorStyle) -> (r: Result<
    Layout,
    VisualizeError,
>)
    requires
        a.wf(),
        b.wf(),
    ensures
        connect_outcome(a, b, style, r),
        r is Ok ==> r->Ok_0.visual.wf(),
        // an absent visual leaves the other one untouched, ports included
        a.is_empty() ==> r is Ok && r->Ok_0.visual == b,
        b.is_empty() ==> r is Ok && r->Ok_0.visual == a,
        // the composite is as wide as both children plus the gap and as tall as the taller
        !a.is_empty() && !b.is_empty() && r is Ok ==> r->Ok_0.visual.canvas().width
            == a.canvas().width + b.canvas().width + CONNECT_PAD && r->Ok_0.visual.canvas().height
            == max(a.canvas().height as int, b.canvas().height as int),
        // one output feeding several inputs: one connector per input, all from the same point
        !a.is_empty() && !b.is_empty() && r is Ok && a.outputs().len() == 1 && b.inputs().len() > 1
            ==> {
            let from = a.outputs()[0].shifted(0, series_first_at(a.canvas(), b.canvas()).y as int);
            &&& wires_of(r->Ok_0.visual).len() == b.inputs().len()
            &&& forall|i: int|
                0 <= i < b.inputs().len() ==> (#[trigger] wires_of(r->Ok_0.visual)[i]).from == from
        },
{
    let (a, b) = match merge_alone_exec(a, b) {
        Ok(l) => return Ok(l),
        Err(pair) => pair,
    };
    let (ca, a_ins, a_outs) = into_parts(a);
    let (cb, b_ins, b_outs) = into_parts(b);
    let ghost a_outs0 = a_outs@;
    let ghost b_ins0 = b_ins@;
    let (pair_outs, pair_ins) = match broadcast_ports(a_outs, b_ins) {
        Ok(pair) => pair,
        Err(e) => return Err(e),
    };
    let w = ca.width as u64 + cb.width as u64 + CONNECT_PAD as u64;
    if w > u32::MAX as u64 {
        return Err(VisualizeError::CanvasTooLarge);
    }
    let w = w as u32;
    let h = if ca.height >= cb.height {
        ca.height
    } else {
        cb.height
    };
    let pa = Point { x: 0, y: ((h - ca.height) / 2) as i64 };
    let pb = Point { x: ca.width as i64 + CONNECT_PAD as i64, y: ((h - cb.height) / 2) as i64 };
    proof {
        lemma_ports_in_range(a_ins@, ca.width, ca.height);
        lemma_ports_in_range(b_outs@, cb.width, cb.height);
        lemma_ports_in_range(a_outs0, ca.width, ca.height);
        lemma_ports_in_range(b_ins0, cb.width, cb.height);
    }
    assert(ports_in_range(pair_outs@) && ports_in_range(pair_ins@)) by {
        assert forall|i: int| 0 <= i < pair_outs@.len() implies port_within(
            #[trigger] pair_outs@[i],
            u32::MAX as int,
            u32::MAX as int,
        ) by {
            if a_outs0.len() == 1 && b_ins0.len() > 1 {
                assert(port_within(a_outs0[0], u32::MAX as int, u32::MAX as int));
            } else {
                assert(port_within(a_outs0[i], u32::MAX as int, u32::MAX as int));
            }
        }
        assert forall|i: int| 0 <= i < pair_ins@.len() implies port_within(
            #[trigger] pair_ins@[i],
            u32::MAX as int,
            u32::MAX as int,
        ) by {
            if b_ins0.len() == 1 && a_outs0.len() > 1 {
                assert(port_within(b_ins0[0], u32::MAX as int, u32::MAX as int));
            } else {
                assert(port_within(b_ins0[i], u32::MAX as int, u32::MAX as int));
            }
        }
    }
    let mut wires: Vec<Wire> = Vec::new();
    let mut i: usize = 0;
    while i < pair_outs.len()
        invariant
            i <= pair_outs@.len(),
            pair_outs@.len() == pair_ins@.len(),
            ports_in_range(pair_outs@),
            ports_in_range(pair_ins@),
            0 <= pa.x <= u32::MAX,
            0 <= pa.y <= u32::MAX,
            0 <= pb.x <= u32::MAX,
            0 <= pb.y <= u32::MAX,
            wires@ == wires_between(pair_outs@, pair_ins@, pa, pb, style).take(i as int),
        decreases pair_outs.len() - i,
    {
        assert(port_within(pair_outs@[i as int], u32::MAX as int, u32::MAX as int));
        assert(port_within(pair_ins@[i as int], u32::MAX as int, u32::MAX as int));
        let from = pair_outs[i].translate(pa.x, pa.y);
        let to = pair_ins[i].translate(pb.x, pb.y);
        let color = wire_color_exec(style, i);
        wires.push(Wire { from, to, color });
        i = i + 1;
        assert(wires@ =~= wires_between(pair_outs@, pair_ins@, pa, pb, style).take(i as int));
    }
    assert(wires@ =~= wires_between(pair_outs@, pair_ins@, pa, pb, style));
    let ins = shift_ports(&a_ins, pa.x, pa.y);
    let outs = shift_ports(&b_outs, pb.x, pb.y);
    let first = Rect { x: pa.x, y: pa.y, width: ca.width as i64, height: ca.height as i64 };
    let second = Rect { x: pb.x, y: pb.y, width: cb.width as i64, height: cb.height as i64 };
    let texture = Canvas {
        width: w,
        height: h,
        picture: Picture::Pair {
            first: Box::new(ca),
            first_at: pa,
            second: Box::new(cb),
            second_at: pb,
            wires,
        },
    };
    let l = Layout {
        visual: VisualizeResult::Block { texture, input_connections: ins, output_connections: outs },
        first,
        second,
    };
    assert(l.visual.wf()) by {
        let v = l.visual;
        assert forall|i: int| 0 <= i < v.inputs().len() implies port_within(
            #[trigger] v.inputs()[i],
            w as int,
            h as int,
        ) by {
            assert(port_within(a_ins@[i], ca.width as int, ca.height as int));
        }
        assert forall|i: int| 0 <= i < v.outputs().len() implies port_within(
            #[trigger] v.outputs()[i],
            w as int,
            h as int,
        ) by {
            assert(port_within(b_outs@[i], cb.width as int, cb.height as int));
        }
    }
    Ok(l)
}

} // verus!
