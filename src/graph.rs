use vstd::prelude::*;
use core::marker::PhantomData;
use crate::arity::DInto2;
use crate::compose::{
    connect_outcome, connect_visuals, merge_alone, stack_outcome, stack_visuals, visual_of, ConnectorStyle, Layout,
};
use crate::control::{hover_route, route_hover, route_unhover, unhover_route, HoverRoute, ControlContext, ControlResult, HoverState, Side};
use crate::geometry::{Point, Rect};
use crate::visual::{
    is_labelled_box, is_simple_box, visualize_simple_box, Canvas, Picture, VisualizeError, VisualizeResult, BOX_CENTER,
    BOX_SIZE,
};

verus! {

/// A unit of the pipeline: computes a result from an input and can show
/// itself as a visual artifact.
pub trait Block<Input>: Sized {
    type Output;

    /// The inputs on which `process` may be called. A block that says nothing
    /// of itself accepts every input.
    open spec fn accepts(&self, input: Input) -> bool {
        true
    }

    /// `output` is a result of processing `input`. A block that says nothing
    /// of itself may produce anything.
    open spec fn produces(&self, input: Input, output: Self::Output) -> bool {
        true
    }

    /// Showing the block on `input` gives `output` and `visual`. A block that
    /// says nothing of its visual may show anything.
    open spec fn renders(
        &self,
        input: Input,
        output: Self::Output,
        visual: Result<VisualizeResult, VisualizeError>,
    ) -> bool {
        true
    }

    fn process(&mut self, input: Input) -> (r: Self::Output)
        requires
            old(self).accepts(input),
        ensures
            old(self).produces(input, r),
    ;

    /// Processes `input` once and shows the block; a block without a visual
    /// shows `VisualizeResult::Empty`.
    fn process_and_visualize(&mut self, input: Input) -> (r: (
        Self::Output,
        Result<VisualizeResult, VisualizeError>,
    ))
        requires
            old(self).accepts(input),
        ensures
            old(self).produces(input, r.0),
            old(self).renders(input, r.0, r.1),
            r.1 is Ok ==> r.1->Ok_0.wf(),
    ;

    /// `after` is this block once it has handled the pointer at `pos`. A block
    /// that says nothing of its hover handling may become anything.
    open spec fn hovered(&self, pos: Point, after: Self) -> bool {
        true
    }

    /// `after` is this block once it has handled the pointer leaving it.
    open spec fn unhovered(&self, after: Self) -> bool {
        true
    }

    /// The pointer is at `pos`, in this block's own coordinates.
    fn on_hover(&mut self, pos: Point, context: &mut ControlContext) -> (r: ControlResult)
        ensures
            old(self).hovered(pos, *final(self)),
    ;

    /// The pointer has left this block.
    fn on_unhover(&mut self, context: &mut ControlContext) -> (r: ControlResult)
        ensures
            old(self).unhovered(*final(self)),
    ;
}

/// What a composite's routing `route` does to its child on side `side`:
/// the child is hovered at the routed point, or unhovered, or, named in
/// neither role, left unchanged.
pub open spec fn child_after<I, B: Block<I>>(side: Side, route: HoverRoute, before: B, after: B) -> bool {
    if route.hover is Some && route.hover->Some_0.side == side {
        before.hovered(route.hover->Some_0.at, after)
    } else if route.unhover == Some(side) {
        before.unhovered(after)
    } else {
        after == before
    }
}

/// A sink that drops its input.
#[derive(Debug)]
pub struct Discard;

impl<T> Block<T> for Discard {
    type Output = ();

    open spec fn accepts(&self, input: T) -> bool {
        true
    }

    open spec fn produces(&self, input: T, output: ()) -> bool {
        true
    }

    open spec fn renders(&self, input: T, output: (), visual: Result<VisualizeResult, VisualizeError>) -> bool {
        visual == Ok::<VisualizeResult, VisualizeError>(VisualizeResult::Empty)
    }

    fn process(&mut self, input: T) -> (r: ()) {
    }

    fn process_and_visualize(&mut self, input: T) -> (r: ((), Result<VisualizeResult, VisualizeError>)) {
        (self.process(input), Ok(VisualizeResult::Empty))
    }

    open spec fn hovered(&self, pos: Point, after: Self) -> bool {
        after == *self
    }

    open spec fn unhovered(&self, after: Self) -> bool {
        after == *self
    }

    fn on_hover(&mut self, pos: Point, context: &mut ControlContext) -> (r: ControlResult) {
        ControlResult::Passthrough
    }

    fn on_unhover(&mut self, context: &mut ControlContext) -> (r: ControlResult) {
        ControlResult::Passthrough
    }
}

/// Hands its input on unchanged; shown as an empty box with one port in its centre.
#[derive(Debug)]
pub struct Identity;

impl<I> Block<I> for Identity {
    type Output = I;

    open spec fn accepts(&self, input: I) -> bool {
        true
    }

    open spec fn produces(&self, input: I, output: I) -> bool {
        output == input
    }

    open spec fn renders(&self, input: I, output: I, visual: Result<VisualizeResult, VisualizeError>) -> bool {
        &&& visual is Ok
        &&& visual->Ok_0 is Block
        &&& visual->Ok_0.canvas().width == BOX_SIZE
        &&& visual->Ok_0.canvas().height == BOX_SIZE
        &&& visual->Ok_0.inputs() == seq![Point { x: BOX_CENTER, y: BOX_CENTER }]
        &&& visual->Ok_0.outputs() == seq![Point { x: BOX_CENTER, y: BOX_CENTER }]
    }

    fn process(&mut self, input: I) -> (r: I) {
        input
    }

    fn process_and_visualize(&mut self, input: I) -> (r: (I, Result<VisualizeResult, VisualizeError>)) {
        let out = self.process(input);
        let center = Point { x: BOX_CENTER, y: BOX_CENTER };
        let mut ins: Vec<Point> = Vec::new();
        ins.push(center);
        let mut outs: Vec<Point> = Vec::new();
        outs.push(center);
        let v = VisualizeResult::Block {
            texture: Canvas { width: BOX_SIZE, height: BOX_SIZE, picture: Picture::Shapes(Vec::new()) },
            input_connections: ins,
            output_connections: outs,
        };
        assert(v.inputs() =~= seq![center]);
        assert(v.outputs() =~= seq![center]);
        (out, Ok(v))
    }

    open spec fn hovered(&self, pos: Point, after: Self) -> bool {
        after == *self
    }

    open spec fn unhovered(&self, after: Self) -> bool {
        after == *self
    }

    fn on_hover(&mut self, pos: Point, context: &mut ControlContext) -> (r: ControlResult) {
        ControlResult::Passthrough
    }

    fn on_unhover(&mut self, context: &mut ControlContext) -> (r: ControlResult) {
        ControlResult::Passthrough
    }
}

/// The visual of a parallel composite whose children showed `va` and `vb`:
/// the first error of the children, or their parallel layout.
pub open spec fn stacked_visual(
    va: Result<VisualizeResult, VisualizeError>,
    vb: Result<VisualizeResult, VisualizeError>,
    visual: Result<VisualizeResult, VisualizeError>,
) -> bool {
    match (va, vb) {
        (Ok(a), Ok(b)) => exists|l: Result<Layout, VisualizeError>|
            #[trigger] stack_outcome(a, b, l) && visual == visual_of(l),
        (Err(e), _) => visual == Err::<VisualizeResult, VisualizeError>(e),
        (Ok(_), Err(e)) => visual == Err::<VisualizeResult, VisualizeError>(e),
    }
}

/// The visual of a series composite whose children showed `va` and `vb`:
/// the first error of the children, or their series layout.
pub open spec fn connected_visual(
    va: Result<VisualizeResult, VisualizeError>,
    vb: Result<VisualizeResult, VisualizeError>,
    style: ConnectorStyle,
    visual: Result<VisualizeResult, VisualizeError>,
) -> bool {
    match (va, vb) {
        (Ok(a), Ok(b)) => exists|l: Result<Layout, VisualizeError>|
            #[trigger] connect_outcome(a, b, style, l) && visual == visual_of(l),
        (Err(e), _) => visual == Err::<VisualizeResult, VisualizeError>(e),
        (Ok(_), Err(e)) => visual == Err::<VisualizeResult, VisualizeError>(e),
    }
}

// ---------------------------------------------------------------- parallel

/// Two blocks side by side on the two halves of a paired input.
#[derive(Debug)]
pub struct StackedBlocks<S1, S2> {
    pub a: S1,
    pub b: S2,
    /// Where `a` was drawn in the most recent visual.
    pub a_tx_rec: Rect,
    /// Where `b` was drawn in the most recent visual.
    pub b_tx_rec: Rect,
    pub hover: HoverState,
}

impl<S1, S2, I1, I2> Block<(I1, I2)> for StackedBlocks<S1, S2> where S1: Block<I1>, S2: Block<I2> {
    type Output = (S1::Output, S2::Output);

    open spec fn accepts(&self, input: (I1, I2)) -> bool {
        self.a.accepts(input.0) && self.b.accepts(input.1)
    }

    open spec fn produces(&self, input: (I1, I2), output: (S1::Output, S2::Output)) -> bool {
        self.a.produces(input.0, output.0) && self.b.produces(input.1, output.1)
    }

    open spec fn renders(
        &self,
        input: (I1, I2),
        output: (S1::Output, S2::Output),
        visual: Result<VisualizeResult, VisualizeError>,
    ) -> bool {
        exists|va: Result<VisualizeResult, VisualizeError>, vb: Result<VisualizeResult, VisualizeError>|
            #![trigger self.a.renders(input.0, output.0, va), self.b.renders(input.1, output.1, vb)]
            self.a.renders(input.0, output.0, va) && self.b.renders(input.1, output.1, vb)
                && stacked_visual(va, vb, visual)
    }

    fn process(&mut self, input: (I1, I2)) -> (r: (S1::Output, S2::Output)) {
        let (x, y) = input;
        let a = self.a.process(x);
        let b = self.b.process(y);
        (a, b)
    }

    fn process_and_visualize(&mut self, input: (I1, I2)) -> (r: (
        (S1::Output, S2::Output),
        Result<VisualizeResult, VisualizeError>,
    ))
        ensures
            final(self).hover == old(self).hover,
            r.1 is Err ==> final(self).a_tx_rec == Rect::spec_zero() && final(self).b_tx_rec
                == Rect::spec_zero(),
            // the cached rectangles are those of the layout just shown
            r.1 is Ok ==> exists|va: VisualizeResult, vb: VisualizeResult, l: Layout|
                #![trigger stack_outcome(va, vb, Ok::<Layout, VisualizeError>(l))]
                old(self).a.renders(input.0, r.0.0, Ok(va)) && old(self).b.renders(
                    input.1,
                    r.0.1,
                    Ok(vb),
                ) && stack_outcome(va, vb, Ok(l)) && r.1 == Ok::<VisualizeResult, VisualizeError>(
                    l.visual,
                ) && final(self).a_tx_rec == l.first && final(self).b_tx_rec == l.second,
    {
        let (x, y) = input;
        let (a, va) = self.a.process_and_visualize(x);
        let (b, vb) = self.b.process_and_visualize(y);
        let ghost gva = va;
        let ghost gvb = vb;
        let laid = match (va, vb) {
            (Ok(va), Ok(vb)) => stack_visuals(va, vb),
            (Err(e), _) => Err(e),
            (_, Err(e)) => Err(e),
        };
        assert(stacked_visual(gva, gvb, visual_of(laid)));
        match laid {
            Ok(l) => {
                self.a_tx_rec = l.first;
                self.b_tx_rec = l.second;
                ((a, b), Ok(l.visual))
            },
            Err(e) => {
                self.a_tx_rec = Rect::zero();
                self.b_tx_rec = Rect::zero();
                ((a, b), Err(e))
            },
        }
    }

    /// The node routes the pointer by its cached rectangles: the child under
    /// the pointer is hovered in its own coordinates, the other child is
    /// unhovered if it was the one hovered before and otherwise unchanged.
    open spec fn hovered(&self, pos: Point, after: Self) -> bool {
        let route = hover_route(self.hover, self.a_tx_rec, self.b_tx_rec, pos);
        &&& after.hover == route.next
        &&& after.a_tx_rec == self.a_tx_rec
        &&& after.b_tx_rec == self.b_tx_rec
        &&& child_after::<I1, S1>(Side::First, route, self.a, after.a)
        &&& child_after::<I2, S2>(Side::Second, route, self.b, after.b)
    }

    /// The child hovered before, if any, is unhovered; the other is unchanged.
    open spec fn unhovered(&self, after: Self) -> bool {
        let route = unhover_route(self.hover);
        &&& after.hover == route.next
        &&& after.a_tx_rec == self.a_tx_rec
        &&& after.b_tx_rec == self.b_tx_rec
        &&& child_after::<I1, S1>(Side::First, route, self.a, after.a)
        &&& child_after::<I2, S2>(Side::Second, route, self.b, after.b)
    }

    fn on_hover(&mut self, pos: Point, context: &mut ControlContext) -> (r: ControlResult)
        ensures
            r == ControlResult::Passthrough,
    {
        let route = route_hover(self.hover, self.a_tx_rec, self.b_tx_rec, pos);
        match route.hover {
            Some(t) => match t.side {
                Side::First => {
                    self.a.on_hover(t.at, context);
                },
                Side::Second => {
                    self.b.on_hover(t.at, context);
                },
            },
            None => {},
        }
        match route.unhover {
            Some(Side::First) => {
                self.a.on_unhover(context);
            },
            Some(Side::Second) => {
                self.b.on_unhover(context);
            },
            None => {},
        }
        self.hover = route.next;
        ControlResult::Passthrough
    }

    fn on_unhover(&mut self, context: &mut ControlContext) -> (r: ControlResult)
        ensures
            r == ControlResult::Passthrough,
    {
        let route = route_unhover(self.hover);
        match route.unhover {
            Some(Side::First) => {
                self.a.on_unhover(context);
            },
            Some(Side::Second) => {
                self.b.on_unhover(context);
            },
            None => {},
        }
        self.hover = route.next;
        ControlResult::Passthrough
    }
}

pub trait CanStack: Sized {
    /// Runs `self` and `other` in parallel on the two halves of a paired input.
    fn stack<S>(self, other: S) -> (r: StackedBlocks<Self, S>)
        ensures
            r.a == self,
            r.b == other,
            r.a_tx_rec == Rect::spec_zero(),
            r.b_tx_rec == Rect::spec_zero(),
            r.hover == HoverState::Idle,
    ;
}

impl<T> CanStack for T {
    fn stack<S>(self, other: S) -> (r: StackedBlocks<T, S>) {
        StackedBlocks {
            a: self,
            b: other,
            a_tx_rec: Rect::zero(),
            b_tx_rec: Rect::zero(),
            hover: HoverState::Idle,
        }
    }
}

/// A parallel composite produces exactly the pairs of
/// what its two blocks produce on the two halves of the input, and accepts
/// exactly the inputs whose halves they accept.
pub proof fn lemma_parallel_results<S1: Block<I1>, S2: Block<I2>, I1, I2>(
    c: StackedBlocks<S1, S2>,
    x: I1,
    y: I2,
    o1: S1::Output,
    o2: S2::Output,
)
    ensures
        c.produces((x, y), (o1, o2)) <==> c.a.produces(x, o1) && c.b.produces(y, o2),
        c.accepts((x, y)) <==> c.a.accepts(x) && c.b.accepts(y),
{
}

// ------------------------------------------------------------------ series

/// Two blocks in series: the result of `input` is fed to `output`.
#[derive(Debug)]
pub struct ConnectedBlocks<S1, S2> {
    pub input: S1,
    pub output: S2,
    /// Where `input` was drawn in the most recent visual.
    pub in_tx_rec: Rect,
    /// Where `output` was drawn in the most recent visual.
    pub out_tx_rec: Rect,
    pub style: ConnectorStyle,
    pub hover: HoverState,
}

impl<S1, S2, I1> Block<I1> for ConnectedBlocks<S1, S2> where S1: Block<I1>, S2: Block<S1::Output> {
    type Output = S2::Output;

    open spec fn accepts(&self, input: I1) -> bool {
        &&& self.input.accepts(input)
        &&& forall|m: S1::Output| #[trigger]
            self.input.produces(input, m) ==> self.output.accepts(m)
    }

    open spec fn produces(&self, input: I1, output: S2::Output) -> bool {
        exists|m: S1::Output| #[trigger]
            self.input.produces(input, m) && self.output.produces(m, output)
    }

    open spec fn renders(
        &self,
        input: I1,
        output: S2::Output,
        visual: Result<VisualizeResult, VisualizeError>,
    ) -> bool {
        exists|
            m: S1::Output,
            va: Result<VisualizeResult, VisualizeError>,
            vb: Result<VisualizeResult, VisualizeError>,
        |
            #![trigger self.input.renders(input, m, va), self.output.renders(m, output, vb)]
            self.input.renders(input, m, va) && self.input.produces(input, m)
                && self.output.renders(m, output, vb) && connected_visual(va, vb, self.style, visual)
    }

    fn process(&mut self, input: I1) -> (r: S2::Output) {
        let x = self.input.process(input);
        self.output.process(x)
    }

    fn process_and_visualize(&mut self, input: I1) -> (r: (
        S2::Output,
        Result<VisualizeResult, VisualizeError>,
    ))
        ensures
            final(self).hover == old(self).hover,
            final(self).style == old(self).style,
            r.1 is Err ==> final(self).in_tx_rec == Rect::spec_zero() && final(self).out_tx_rec
                == Rect::spec_zero(),
            // the cached rectangles are those of the layout just shown
            r.1 is Ok ==> exists|m: S1::Output, va: VisualizeResult, vb: VisualizeResult, l: Layout|
                #![trigger connect_outcome(va, vb, old(self).style, Ok::<Layout, VisualizeError>(l)), old(self).input.renders(input, m, Ok::<VisualizeResult, VisualizeError>(va))]
                old(self).input.renders(input, m, Ok(va)) && old(self).input.produces(input, m)
                    && old(self).output.renders(m, r.0, Ok(vb)) && connect_outcome(
                    va,
                    vb,
                    old(self).style,
                    Ok(l),
                ) && r.1 == Ok::<VisualizeResult, VisualizeError>(l.visual) && final(self).in_tx_rec
                    == l.first && final(self).out_tx_rec == l.second,
    {
        let (x, va) = self.input.process_and_visualize(input);
        let (out, vb) = self.output.process_and_visualize(x);
        let ghost gva = va;
        let ghost gvb = vb;
        let laid = match (va, vb) {
            (Ok(va), Ok(vb)) => connect_visuals(va, vb, self.style),
            (Err(e), _) => Err(e),
            (_, Err(e)) => Err(e),
        };
        assert(connected_visual(gva, gvb, self.style, visual_of(laid)));
        match laid {
            Ok(l) => {
                self.in_tx_rec = l.first;
                self.out_tx_rec = l.second;
                (out, Ok(l.visual))
            },
            Err(e) => {
                self.in_tx_rec = Rect::zero();
                self.out_tx_rec = Rect::zero();
                (out, Err(e))
            },
        }
    }

    /// The node routes the pointer by its cached rectangles: the child under
    /// the pointer is hovered in its own coordinates, the other child is
    /// unhovered if it was the one hovered before and otherwise unchanged.
    open spec fn hovered(&self, pos: Point, after: Self) -> bool {
        let route = hover_route(self.hover, self.in_tx_rec, self.out_tx_rec, pos);
        &&& after.hover == route.next
        &&& after.style == self.style
        &&& after.in_tx_rec == self.in_tx_rec
        &&& after.out_tx_rec == self.out_tx_rec
        &&& child_after::<I1, S1>(Side::First, route, self.input, after.input)
        &&& child_after::<S1::Output, S2>(Side::Second, route, self.output, after.output)
    }

    /// The child hovered before, if any, is unhovered; the other is unchanged.
    open spec fn unhovered(&self, after: Self) -> bool {
        let route = unhover_route(self.hover);
        &&& after.hover == route.next
        &&& after.style == self.style
        &&& after.in_tx_rec == self.in_tx_rec
        &&& after.out_tx_rec == self.out_tx_rec
        &&& child_after::<I1, S1>(Side::First, route, self.input, after.input)
        &&& child_after::<S1::Output, S2>(Side::Second, route, self.output, after.output)
    }

    fn on_hover(&mut self, pos: Point, context: &mut ControlContext) -> (r: ControlResult)
        ensures
            r == ControlResult::Passthrough,
    {
        let route = route_hover(self.hover, self.in_tx_rec, self.out_tx_rec, pos);
        match route.hover {
            Some(t) => match t.side {
                Side::First => {
                    self.input.on_hover(t.at, context);
                },
                Side::Second => {
                    self.output.on_hover(t.at, context);
                },
            },
            None => {},
        }
        match route.unhover {
            Some(Side::First) => {
                self.input.on_unhover(context);
            },
            Some(Side::Second) => {
                self.output.on_unhover(context);
            },
            None => {},
        }
        self.hover = route.next;
        ControlResult::Passthrough
    }

    fn on_unhover(&mut self, context: &mut ControlContext) -> (r: ControlResult)
        ensures
            r == ControlResult::Passthrough,
    {
        let route = route_unhover(self.hover);
        match route.unhover {
            Some(Side::First) => {
                self.input.on_unhover(context);
            },
            Some(Side::Second) => {
                self.output.on_unhover(context);
            },
            None => {},
        }
        self.hover = route.next;
        ControlResult::Passthrough
    }
}

impl<S1, S2> ConnectedBlocks<S1, S2> {
    /// The same composite, with connectors in palette colours.
    pub fn colored(self) -> (r: Self)
        ensures
            r == (ConnectedBlocks { style: ConnectorStyle::Colored, ..self }),
    {
        let mut s = self;
        s.style = ConnectorStyle::Colored;
        s
    }
}

pub trait CanConnect: Sized {
    /// Feeds the result of `self` into `other`.
    fn connect<S>(self, other: S) -> (r: ConnectedBlocks<Self, S>)
        ensures
            r.input == self,
            r.output == other,
            r.in_tx_rec == Rect::spec_zero(),
            r.out_tx_rec == Rect::spec_zero(),
            r.style == ConnectorStyle::Plain,
            r.hover == HoverState::Idle,
    ;
}

impl<T> CanConnect for T {
    fn connect<S>(self, other: S) -> (r: ConnectedBlocks<T, S>) {
        ConnectedBlocks {
            input: self,
            output: other,
            in_tx_rec: Rect::zero(),
            out_tx_rec: Rect::zero(),
            style: ConnectorStyle::Plain,
            hover: HoverState::Idle,
        }
    }
}

/// A series composite produces `z` from `x` exactly when
/// some result `y` of its first block on `x` gives `z` in its second block,
/// and it accepts `x` exactly when its first block does and the second block
/// accepts every result of the first.
pub proof fn lemma_series_results<S1: Block<I>, S2: Block<S1::Output>, I>(
    c: ConnectedBlocks<S1, S2>,
    x: I,
    z: S2::Output,
)
    ensures
        c.produces(x, z) <==> exists|y: S1::Output|
            c.input.produces(x, y) && c.output.produces(y, z),
        c.accepts(x) <==> c.input.accepts(x) && forall|y: S1::Output|
            c.input.produces(x, y) ==> c.output.accepts(y),
{
}

/// The result of the second block on a result
/// of the first is a result of the series composite.
pub proof fn lemma_series_step<S1: Block<I>, S2: Block<S1::Output>, I>(
    c: ConnectedBlocks<S1, S2>,
    x: I,
    y: S1::Output,
    z: S2::Output,
)
    requires
        c.input.produces(x, y),
        c.output.produces(y, z),
    ensures
        c.produces(x, z),
{
}

/// A block that shows nothing leaves the visual of the block it feeds
/// untouched: the series composite shows exactly what its second block shows,
/// ports included.
pub proof fn lemma_series_hidden_first<S1: Block<I>, S2: Block<S1::Output>, I>(
    c: ConnectedBlocks<S1, S2>,
    x: I,
    m: S1::Output,
    z: S2::Output,
    v: VisualizeResult,
)
    requires
        c.input.produces(x, m),
        c.input.renders(x, m, Ok(VisualizeResult::Empty)),
        c.output.renders(m, z, Ok(v)),
    ensures
        c.renders(x, z, Ok(v)),
{
    let l = Ok::<Layout, VisualizeError>(merge_alone(VisualizeResult::Empty, v)->Some_0);
    assert(connect_outcome(VisualizeResult::Empty, v, c.style, l));
    assert(connected_visual(Ok(VisualizeResult::Empty), Ok(v), c.style, Ok(v)));
}

/// A block that shows nothing, fed by another, leaves that block's visual
/// untouched: the series composite shows exactly what its first block shows.
pub proof fn lemma_series_hidden_second<S1: Block<I>, S2: Block<S1::Output>, I>(
    c: ConnectedBlocks<S1, S2>,
    x: I,
    m: S1::Output,
    z: S2::Output,
    v: VisualizeResult,
)
    requires
        c.input.produces(x, m),
        c.input.renders(x, m, Ok(v)),
        c.output.renders(m, z, Ok(VisualizeResult::Empty)),
    ensures
        c.renders(x, z, Ok(v)),
{
    let l = Ok::<Layout, VisualizeError>(merge_alone(v, VisualizeResult::Empty)->Some_0);
    assert(connect_outcome(v, VisualizeResult::Empty, c.style, l));
    assert(connected_visual(Ok(v), Ok(VisualizeResult::Empty), c.style, Ok(v)));
}

/// In parallel, a block that shows nothing leaves the other block's visual
/// untouched, and two blocks that show nothing show nothing together.
pub proof fn lemma_parallel_hidden<S1: Block<I1>, S2: Block<I2>, I1, I2>(
    c: StackedBlocks<S1, S2>,
    x: I1,
    y: I2,
    o1: S1::Output,
    o2: S2::Output,
    v: VisualizeResult,
)
    ensures
        c.a.renders(x, o1, Ok(VisualizeResult::Empty)) && c.b.renders(y, o2, Ok(v)) ==> c.renders(
            (x, y),
            (o1, o2),
            Ok(v),
        ),
        c.a.renders(x, o1, Ok(v)) && c.b.renders(y, o2, Ok(VisualizeResult::Empty)) ==> c.renders(
            (x, y),
            (o1, o2),
            Ok(v),
        ),
{
    let e = VisualizeResult::Empty;
    assert(stack_outcome(e, v, Ok::<Layout, VisualizeError>(merge_alone(e, v)->Some_0)));
    assert(stack_outcome(v, e, Ok::<Layout, VisualizeError>(merge_alone(v, e)->Some_0)));
    assert(stacked_visual(Ok(e), Ok(v), Ok(v)));
    assert(stacked_visual(Ok(v), Ok(e), Ok(v)));
    let input = (x, y);
    let output = (o1, o2);
    if c.a.renders(x, o1, Ok(e)) && c.b.renders(y, o2, Ok(v)) {
        assert(c.a.renders(input.0, output.0, Ok(e)) && c.b.renders(input.1, output.1, Ok(v)));
    }
    if c.a.renders(x, o1, Ok(v)) && c.b.renders(y, o2, Ok(e)) {
        assert(c.a.renders(input.0, output.0, Ok(v)) && c.b.renders(input.1, output.1, Ok(e)));
    }
}

pub trait MetadataExt: Sized {
    /// The same block with its connectors in palette colours.
    fn colored(self) -> Self;
}

impl<S1, S2> MetadataExt for ConnectedBlocks<S1, S2> {
    fn colored(self) -> (r: Self)
        ensures
            r == (ConnectedBlocks { style: ConnectorStyle::Colored, ..self }),
    {
        let mut s = self;
        s.style = ConnectorStyle::Colored;
        s
    }
}

// ----------------------------------------------------------------- mapping

/// A pure transform wrapped as a named block, shown as a labelled box unless
/// marked as having no visual.
pub struct MapperBlock<M> {
    pub mapper: M,
    pub name: String,
    pub no_vis: bool,
}

impl<M> MapperBlock<M> {
    /// The same block, shown as nothing.
    pub fn no_vis(self) -> (r: Self)
        ensures
            r == (MapperBlock { no_vis: true, ..self }),
    {
        let mut s = self;
        s.no_vis = true;
        s
    }
}

impl<I, O, M> Block<I> for MapperBlock<M> where M: Fn(I) -> O {
    type Output = O;

    open spec fn accepts(&self, input: I) -> bool {
        self.mapper.requires((input,))
    }

    open spec fn produces(&self, input: I, output: O) -> bool {
        self.mapper.ensures((input,), output)
    }

    open spec fn renders(&self, input: I, output: O, visual: Result<VisualizeResult, VisualizeError>) -> bool {
        &&& self.no_vis ==> visual == Ok::<VisualizeResult, VisualizeError>(VisualizeResult::Empty)
        &&& !self.no_vis ==> visual is Ok && is_labelled_box(visual->Ok_0, self.name@)
    }

    fn process(&mut self, input: I) -> (r: O) {
        (self.mapper)(input)
    }

    fn process_and_visualize(&mut self, input: I) -> (r: (O, Result<VisualizeResult, VisualizeError>)) {
        let out = (self.mapper)(input);
        if self.no_vis {
            return (out, Ok(VisualizeResult::Empty));
        }
        let (out, v) = visualize_simple_box(self.name.as_str(), out);
        (out, Ok(v))
    }

    open spec fn hovered(&self, pos: Point, after: Self) -> bool {
        after == *self
    }

    open spec fn unhovered(&self, after: Self) -> bool {
        after == *self
    }

    fn on_hover(&mut self, pos: Point, context: &mut ControlContext) -> (r: ControlResult) {
        ControlResult::Passthrough
    }

    fn on_unhover(&mut self, context: &mut ControlContext) -> (r: ControlResult) {
        ControlResult::Passthrough
    }
}

pub trait CanMap: Sized {
    /// Feeds the result of `self` through `mapper`, shown as a box labelled `name`.
    fn map<M>(self, name: &str, mapper: M) -> (r: ConnectedBlocks<Self, MapperBlock<M>>)
        ensures
            r.input == self,
            r.output.mapper == mapper,
            r.output.name@ == name@,
            !r.output.no_vis,
            r.in_tx_rec == Rect::spec_zero(),
            r.out_tx_rec == Rect::spec_zero(),
            r.style == ConnectorStyle::Plain,
            r.hover == HoverState::Idle,
    ;
}

impl<T> CanMap for T {
    fn map<M>(self, name: &str, mapper: M) -> (r: ConnectedBlocks<T, MapperBlock<M>>) {
        self.connect(MapperBlock { mapper, name: name.to_owned(), no_vis: false })
    }
}

// ----------------------------------------------------------------- fan-out

/// Replicates its input into the nested-tuple shape `T` that a multi-input
/// block takes; it has no visual of its own.
pub struct ForkAdapter<T> {
    pub shape: PhantomData<T>,
}

impl<I, T> Block<I> for ForkAdapter<T> where I: DInto2<T> {
    type Output = T;

    open spec fn accepts(&self, input: I) -> bool {
        true
    }

    open spec fn produces(&self, input: I, output: T) -> bool {
        input.spec_copies(output)
    }

    open spec fn renders(&self, input: I, output: T, visual: Result<VisualizeResult, VisualizeError>) -> bool {
        visual == Ok::<VisualizeResult, VisualizeError>(VisualizeResult::Empty)
    }

    fn process(&mut self, input: I) -> (r: T) {
        input.into()
    }

    fn process_and_visualize(&mut self, input: I) -> (r: (T, Result<VisualizeResult, VisualizeError>)) {
        (input.into(), Ok(VisualizeResult::Empty))
    }

    open spec fn hovered(&self, pos: Point, after: Self) -> bool {
        after == *self
    }

    open spec fn unhovered(&self, after: Self) -> bool {
        after == *self
    }

    fn on_hover(&mut self, pos: Point, context: &mut ControlContext) -> (r: ControlResult) {
        ControlResult::Passthrough
    }

    fn on_unhover(&mut self, context: &mut ControlContext) -> (r: ControlResult) {
        ControlResult::Passthrough
    }
}

pub trait CanFork: Sized {
    /// Feeds copies of the single result of `self` to every input of `other`.
    fn fork<T, S>(self, other: S) -> (r: ConnectedBlocks<ConnectedBlocks<Self, ForkAdapter<T>>, S>)
        where S: Block<T>
        ensures
            r.input.input == self,
            r.output == other,
            r.input.style == ConnectorStyle::Plain,
            r.style == ConnectorStyle::Plain,
            r.input.in_tx_rec == Rect::spec_zero(),
            r.input.out_tx_rec == Rect::spec_zero(),
            r.in_tx_rec == Rect::spec_zero(),
            r.out_tx_rec == Rect::spec_zero(),
            r.input.hover == HoverState::Idle,
            r.hover == HoverState::Idle,
    ;
}

impl<X> CanFork for X {
    fn fork<T, S>(self, other: S) -> (r: ConnectedBlocks<ConnectedBlocks<X, ForkAdapter<T>>, S>)
        where S: Block<T>
    {
        self.connect(ForkAdapter { shape: PhantomData }).connect(other)
    }
}

} // verus!
