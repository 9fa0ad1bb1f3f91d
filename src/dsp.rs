use vstd::prelude::*;
use vstd::std_specs::cmp::PartialOrdSpec;
use crate::arity::DInto;
use crate::control::{ControlContext, ControlResult};
use crate::geometry::Point;
use crate::graph::Block;
use crate::visual::{is_labelled_box, visualize_simple_box, VisualizeError, VisualizeResult};

verus! {

/// Sample rate of every signal, in samples per second.
pub const SR: usize = 44100;

/// The shape of an oscillator's wave.
#[derive(Clone, Copy, Debug, PartialEq, Eq, Structural)]
pub enum WaveType {
    Sinusoid,
    Square,
    Triangle,
    Sawtooth,
}

/// Pads a group of `N` signals with the sample type's default value (silence)
/// so that all of them are as long as the longest one.
#[derive(Debug)]
pub enum AutoPad<const N: usize> {
    /// Silence goes before the samples.
    Start,
    /// Silence goes after the samples.
    End,
}

/// Length of the longest signal of `ws` (zero for none).
pub open spec fn longest<S>(ws: Seq<Seq<S>>) -> nat
    decreases ws.len(),
{
    if ws.len() == 0 {
        0
    } else {
        let m = longest(ws.drop_last());
        if ws.last().len() > m {
            ws.last().len()
        } else {
            m
        }
    }
}

/// `w` brought to length `len` with copies of `z`, before or after it.
pub open spec fn padded<S, const N: usize>(w: Seq<S>, len: nat, z: S, side: AutoPad<N>) -> Seq<S> {
    let fill = Seq::new((len - w.len()) as nat, |i: int| z);
    match side {
        AutoPad::Start => fill + w,
        AutoPad::End => w + fill,
    }
}

/// The samples of each signal of `ws`.
pub open spec fn samples_of<S>(ws: Seq<Vec<S>>) -> Seq<Seq<S>> {
    ws.map_values(|w: Vec<S>| w@)
}

proof fn lemma_longest_bound<S>(ws: Seq<Seq<S>>, i: int)
    requires
        0 <= i < ws.len(),
    ensures
        ws[i].len() <= longest(ws),
    decreases ws.len(),
{
    if i < ws.len() - 1 {
        lemma_longest_bound(ws.drop_last(), i);
    }
}

fn pad_wave<S: Copy, const N: usize>(w: &Vec<S>, len: usize, z: S, side: &AutoPad<N>) -> (r: Vec<S>)
    requires
        w@.len() <= len,
    ensures
        r@ == padded(w@, len as nat, z, *side),
{
    let missing = len - w.len();
    let mut r: Vec<S> = Vec::new();
    let at_start = match side {
        AutoPad::Start => true,
        AutoPad::End => false,
    };
    if !at_start {
        let mut i: usize = 0;
        while i < w.len()
            invariant
                i <= w@.len(),
                r@ == w@.take(i as int),
            decreases w.len() - i,
        {
            r.push(w[i]);
            i = i + 1;
            assert(r@ =~= w@.take(i as int));
        }
        assert(w@.take(i as int) =~= w@);
    }
    let ghost before = r@;
    let mut k: usize = 0;
    while k < missing
        invariant
            k <= missing,
            r@ == before + Seq::new(k as nat, |j: int| z),
        decreases missing - k,
    {
        r.push(z);
        k = k + 1;
        assert(r@ =~= before + Seq::new(k as nat, |j: int| z));
    }
    if at_start {
        let ghost fill = r@;
        let mut i: usize = 0;
        while i < w.len()
            invariant
                i <= w@.len(),
                r@ == fill + w@.take(i as int),
            decreases w.len() - i,
        {
            r.push(w[i]);
            i = i + 1;
            assert(r@ =~= fill + w@.take(i as int));
        }
        assert(w@.take(i as int) =~= w@);
        assert(r@ =~= padded(w@, len as nat, z, *side));
    } else {
        assert(r@ =~= padded(w@, len as nat, z, *side));
    }
    r
}

impl<I, S, const N: usize> Block<I> for AutoPad<N> where
    I: DInto<N, Item = Vec<S>>,
    S: Copy + Default,
 {
    type Output = I;

    open spec fn accepts(&self, input: I) -> bool {
        true
    }

    /// Every signal is padded to the longest length with one and the same
    /// value, the one `S::default` gives.
    open spec fn produces(&self, input: I, output: I) -> bool {
        exists|z: S|
            #![trigger call_ensures(S::default, (), z)]
            call_ensures(S::default, (), z) && samples_of(output.spec_values()) == samples_of(
                input.spec_values(),
            ).map_values(|w: Seq<S>| padded(w, longest(samples_of(input.spec_values())), z, *self))
    }

    open spec fn renders(&self, input: I, output: I, visual: Result<VisualizeResult, VisualizeError>) -> bool {
        visual is Ok && is_labelled_box(
            visual->Ok_0,
            match self {
                AutoPad::Start => "Autopad\nStart"@,
                AutoPad::End => "Autopad\nEnd"@,
            },
        )
    }

    fn process(&mut self, input: I) -> (r: I) {
        let waves = input.into();
        let ghost ws = samples_of(waves@);
        let mut max_len: usize = 0;
        let mut n: usize = 0;
        while n < waves.len()
            invariant
                n <= waves@.len(),
                ws == samples_of(waves@),
                max_len == longest(ws.take(n as int)),
            decreases waves.len() - n,
        {
            assert(ws.take(n as int + 1).drop_last() =~= ws.take(n as int));
            if waves[n].len() > max_len {
                max_len = waves[n].len();
            }
            n = n + 1;
        }
        assert(ws.take(n as int) =~= ws);
        let z = S::default();
        let mut out: Vec<Vec<S>> = Vec::new();
        let mut n: usize = 0;
        while n < waves.len()
            invariant
                n <= waves@.len(),
                waves@.len() == N,
                ws == samples_of(waves@),
                max_len == longest(ws),
                out@.len() == n,
                forall|j: int|
                    0 <= j < n ==> (#[trigger] out@[j])@ == padded(
                        ws[j],
                        max_len as nat,
                        z,
                        *self,
                    ),
            decreases waves.len() - n,
        {
            proof {
                lemma_longest_bound(ws, n as int);
            }
            let p = pad_wave(&waves[n], max_len, z, self);
            out.push(p);
            n = n + 1;
        }
        assert(samples_of(out@) =~= ws.map_values(
            |w: Seq<S>| padded(w, max_len as nat, z, *self),
        ));
        proof {
            I::lemma_values_of_from(out@);
        }
        let r = I::from(out);
        assert(call_ensures(S::default, (), z));
        r
    }

    fn process_and_visualize(&mut self, input: I) -> (r: (I, Result<VisualizeResult, VisualizeError>)) {
        let label = match self {
            AutoPad::Start => "Autopad\nStart",
            AutoPad::End => "Autopad\nEnd",
        };
        let out = self.process(input);
        let (out, v) = visualize_simple_box(label, out);
        (out, Ok(v))
    }

    open spec fn hovered(&self, pos: Point, after: Self) -> bool {
        after == *self
    }

    open spec fn unhovered(&self, after: Self) -> bool {
        after == *self
    }

    fn on_hover(&mut self, pos: Point, context: &mut ControlContext) -> (r: ControlResult) {
        ControlResult::Passthrough
    }

    fn on_unhover(&mut self, context: &mut ControlContext) -> (r: ControlResult) {
        ControlResult::Passthrough
    }
}

/// How a signal is cut into frames: `frame_size` samples per frame, a new
/// frame every `hop_length` samples.
#[derive(Clone, Copy, Debug, PartialEq, Eq, Structural)]
pub struct WindowSetting {
    pub frame_size: usize,
    pub hop_length: usize,
}

impl Default for WindowSetting {
    fn default() -> (r: WindowSetting)
        ensures
            r == (WindowSetting { frame_size: 1024, hop_length: 512 }),
    {
        WindowSetting { frame_size: 1024, hop_length: 512 }
    }
}

/// What an envelope follower keeps of each frame.
#[derive(Clone, Copy, Debug, PartialEq, Eq, Structural)]
pub enum EnvelopeType {
    /// The largest sample.
    Amp,
}

impl Default for EnvelopeType {
    fn default() -> (r: EnvelopeType)
        ensures
            r == EnvelopeType::Amp,
    {
        EnvelopeType::Amp
    }
}

/// Follows the envelope of a signal: one value per frame. Frames end before
/// the last sample of the signal, so that sample never counts.
#[derive(Clone, Copy, Debug, PartialEq, Eq, Structural)]
pub struct EnvelopeBlock {
    pub t: EnvelopeType,
    pub window: WindowSetting,
}

impl Default for EnvelopeBlock {
    fn default() -> (r: EnvelopeBlock)
        ensures
            r == (EnvelopeBlock {
                t: EnvelopeType::Amp,
                window: WindowSetting { frame_size: 1024, hop_length: 512 },
            }),
    {
        EnvelopeBlock { t: EnvelopeType::default(), window: WindowSetting::default() }
    }
}

/// Number of frames of a signal of `len` samples: one per started hop.
pub open spec fn frame_count(len: int, hop: int) -> int {
    if len % hop == 0 {
        len / hop
    } else {
        len / hop + 1
    }
}

/// First sample of frame `k`.
pub open spec fn frame_start(k: int, hop: int) -> int {
    k * hop
}

/// End (exclusive) of frame `k` of a signal of `len` samples: `frame_size`
/// samples on, but never past the second-to-last sample of the signal.
pub open spec fn frame_end(len: int, k: int, w: WindowSetting) -> int {
    let s = frame_start(k, w.hop_length as int);
    if s + w.frame_size <= len - 1 {
        s + w.frame_size
    } else {
        len - 1
    }
}

/// The running maximum of `f` from its first sample: a later sample replaces
/// the current one only when it compares greater.
pub open spec fn running_max<S: PartialOrd>(f: Seq<S>) -> S
    decreases f.len(),
{
    if f.len() <= 1 {
        f[0]
    } else {
        let m = running_max(f.drop_last());
        if f.last().partial_cmp_spec(&m) == Some(core::cmp::Ordering::Greater) {
            f.last()
        } else {
            m
        }
    }
}

/// `v` is the envelope value of the samples `f` of one frame.
pub open spec fn frame_value<S: PartialOrd + Default>(f: Seq<S>, v: S) -> bool {
    if f.len() == 0 {
        call_ensures(S::default, (), v)
    } else {
        &&& f.contains(v)
        &&& S::obeys_partial_cmp_spec() ==> v == running_max(f)
    }
}

proof fn lemma_next_frame_starts_inside(len: int, hop: int, k: int)
    requires
        hop > 0,
        len >= 0,
        k >= 0,
        k + 2 <= frame_count(len, hop),
    ensures
        (k + 1) * hop < len,
{
    let q = len / hop;
    let r = len % hop;
    assert(len == q * hop + r && 0 <= r < hop) by (nonlinear_arith)
        requires
            hop > 0,
            q == len / hop,
            r == len % hop,
    ;
    if r == 0 {
        assert(k + 2 <= q);
        assert((k + 1) * hop < q * hop) by (nonlinear_arith)
            requires
                k + 2 <= q,
                hop > 0,
        ;
    } else {
        assert(k + 1 <= q);
        assert((k + 1) * hop <= q * hop) by (nonlinear_arith)
            requires
                k + 1 <= q,
                hop > 0,
        ;
    }
}

fn frame_max<S: Copy + Default + PartialOrd>(input: &Vec<S>, start: usize, end: usize) -> (r: S)
    requires
        start <= end <= input@.len(),
    ensures
        frame_value(input@.subrange(start as int, end as int), r),
{
    if start == end {
        return S::default();
    }
    let mut acc = input[start];
    assert(input@.subrange(start as int, start as int + 1)[0] == acc);
    let mut j: usize = start + 1;
    while j < end
        invariant
            start < j <= end <= input@.len(),
            input@.subrange(start as int, j as int).contains(acc),
            S::obeys_partial_cmp_spec() ==> acc == running_max(
                input@.subrange(start as int, j as int),
            ),
        decreases end - j,
    {
        let ghost g = input@.subrange(start as int, j as int + 1);
        assert(g.drop_last() =~= input@.subrange(start as int, j as int));
        assert(g.last() == input@[j as int]);
        let v = input[j];
        if v > acc {
            acc = v;
            assert(g[j - start] == v);
        } else {
            let ghost k = choose|k: int| 0 <= k < j - start && input@.subrange(start as int, j as int)[k] == acc;
            assert(g[k] == acc);
        }
        j = j + 1;
    }
    acc
}

impl<S: Copy + Default + PartialOrd> Block<Vec<S>> for EnvelopeBlock {
    type Output = Vec<S>;

    open spec fn accepts(&self, input: Vec<S>) -> bool {
        self.window.hop_length > 0
    }

    open spec fn produces(&self, input: Vec<S>, output: Vec<S>) -> bool {
        let len = input@.len() as int;
        let hop = self.window.hop_length as int;
        &&& output@.len() == frame_count(len, hop)
        &&& forall|k: int|
            0 <= k < output@.len() ==> frame_value(
                input@.subrange(frame_start(k, hop), frame_end(len, k, self.window)),
                #[trigger] output@[k],
            )
    }

    open spec fn renders(
        &self,
        input: Vec<S>,
        output: Vec<S>,
        visual: Result<VisualizeResult, VisualizeError>,
    ) -> bool {
        visual is Ok && is_labelled_box(visual->Ok_0, "Envelope"@)
    }

    fn process(&mut self, input: Vec<S>) -> (r: Vec<S>) {
        let len = input.len();
        let hop = self.window.hop_length;
        let size = self.window.frame_size;
        let count = if len % hop == 0 {
            len / hop
        } else {
            assert(len / hop < usize::MAX) by (nonlinear_arith)
                requires
                    hop > 0,
                    len % hop != 0,
                    len <= usize::MAX,
            ;
            len / hop + 1
        };
        assert(count > 0 ==> len > 0) by (nonlinear_arith)
            requires
                hop > 0,
                count == frame_count(len as int, hop as int),
        ;
        let mut out: Vec<S> = Vec::new();
        let mut k: usize = 0;
        let mut start: usize = 0;
        while k < count
            invariant
                hop == self.window.hop_length,
                size == self.window.frame_size,
                hop > 0,
                len == input@.len(),
                count == frame_count(len as int, hop as int),
                k <= count,
                k < count ==> start == frame_start(k as int, hop as int),
                k < count ==> start < len,
                out@.len() == k,
                forall|i: int|
                    0 <= i < k ==> frame_value(
                        input@.subrange(
                            frame_start(i, hop as int),
                            frame_end(len as int, i, self.window),
                        ),
                        #[trigger] out@[i],
                    ),
            decreases count - k,
        {
            let end = if size <= len - 1 - start {
                start + size
            } else {
                len - 1
            };
            let v = frame_max(&input, start, end);
            out.push(v);
            if k + 1 < count {
                proof {
                    lemma_next_frame_starts_inside(len as int, hop as int, k as int);
                }
                assert((k + 1) * hop == k * hop + hop) by (nonlinear_arith);
                start = start + hop;
            }
            k = k + 1;
        }
        out
    }

    fn process_and_visualize(&mut self, input: Vec<S>) -> (r: (
        Vec<S>,
        Result<VisualizeResult, VisualizeError>,
    )) {
        let out = self.process(input);
        let (out, v) = visualize_simple_box("Envelope", out);
        (out, Ok(v))
    }

    open spec fn hovered(&self, pos: Point, after: Self) -> bool {
        after == *self
    }

    open spec fn unhovered(&self, after: Self) -> bool {
        after == *self
    }

    fn on_hover(&mut self, pos: Point, context: &mut ControlContext) -> (r: ControlResult) {
        ControlResult::Passthrough
    }

    fn on_unhover(&mut self, context: &mut ControlContext) -> (r: ControlResult) {
        ControlResult::Passthrough
    }
}

/// The length that every signal of `waves` has, if there is at least one
/// signal and all of them are equally long.
pub fn common_length<S>(waves: &Vec<Vec<S>>) -> (r: Option<usize>)
    ensures
        r is Some <==> waves@.len() > 0 && forall|i: int|
            0 <= i < waves@.len() ==> (#[trigger] waves@[i])@.len() == waves@[0]@.len(),
        r is Some ==> r->Some_0 == waves@[0]@.len(),
{
    if waves.len() == 0 {
        return None;
    }
    let len = waves[0].len();
    let mut i: usize = 1;
    while i < waves.len()
        invariant
            1 <= i <= waves@.len(),
            len == waves@[0]@.len(),
            forall|j: int| 0 <= j < i ==> (#[trigger] waves@[j])@.len() == len,
        decreases waves.len() - i,
    {
        if waves[i].len() != len {
            return None;
        }
        i = i + 1;
    }
    Some(len)
}

} // verus!
