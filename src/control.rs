use vstd::prelude::*;
use crate::geometry::{Point, Rect};

verus! {

/// What a block tells its caller after handling a pointer event.
#[derive(Clone, Copy, Debug, PartialEq, Eq, Structural)]
pub enum ControlResult {
    Passthrough,
    Block,
}

/// State threaded through pointer-event handling.
#[derive(Clone, Copy, Debug, PartialEq, Eq, Structural)]
pub struct ControlContext {
    /// Set by a block whose look changed: the pipeline must be visualized again.
    pub is_dirty: bool,
}

/// One of the two children of a composite node.
#[derive(Clone, Copy, Debug, PartialEq, Eq, Structural)]
pub enum Side {
    First,
    Second,
}

/// Which child of a composite node the pointer was last routed to.
#[derive(Clone, Copy, Debug, PartialEq, Eq, Structural)]
pub enum HoverState {
    Idle,
    HoveringFirst,
    HoveringSecond,
}

/// A child to hover, and the pointer in that child's own coordinates.
#[derive(Clone, Copy, Debug, PartialEq, Eq, Structural)]
pub struct HoverTarget {
    pub side: Side,
    pub at: Point,
}

/// What a composite node does with one pointer sample: the child that gets
/// `on_hover` (with the pointer in that child's own coordinates), the child
/// that gets `on_unhover`, and the state afterwards.
#[derive(Clone, Copy, Debug, PartialEq, Eq, Structural)]
pub struct HoverRoute {
    pub hover: Option<HoverTarget>,
    pub unhover: Option<Side>,
    pub next: HoverState,
}

impl HoverState {
    /// The child that was hovered, if any.
    pub open spec fn hovered(self) -> Option<Side> {
        match self {
            HoverState::Idle => None,
            HoverState::HoveringFirst => Some(Side::First),
            HoverState::HoveringSecond => Some(Side::Second),
        }
    }
}

/// The routing of one pointer sample `pos` of a composite node whose
/// children were last drawn at `first` and `second`, from hover state `state`.
pub open spec fn hover_route(state: HoverState, first: Rect, second: Rect, pos: Point) -> HoverRoute {
    if first.spec_contains(pos) {
        HoverRoute {
            hover: Some(HoverTarget { side: Side::First, at: first.spec_local(pos) }),
            unhover: if state == HoverState::HoveringSecond {
                Some(Side::Second)
            } else {
                None
            },
            next: HoverState::HoveringFirst,
        }
    } else if second.spec_contains(pos) {
        HoverRoute {
            hover: Some(HoverTarget { side: Side::Second, at: second.spec_local(pos) }),
            unhover: if state == HoverState::HoveringFirst {
                Some(Side::First)
            } else {
                None
            },
            next: HoverState::HoveringSecond,
        }
    } else {
        HoverRoute { hover: None, unhover: state.hovered(), next: HoverState::Idle }
    }
}

/// Routes one pointer sample `pos` of a composite node whose children were
/// last drawn at `first` and `second`. The first child's rectangle is tested
/// first. Only the child under the pointer is hovered; the other child is
/// unhovered if it was the one hovered before; a pointer over neither child
/// hovers nothing and unhovers the child that was hovered before.
pub fn route_hover(state: HoverState, first: Rect, second: Rect, pos: Point) -> (r: HoverRoute)
    ensures
        r == hover_route(state, first, second, pos),
        first.spec_contains(pos) ==> r == (HoverRoute {
            hover: Some(HoverTarget { side: Side::First, at: first.spec_local(pos) }),
            unhover: if state == HoverState::HoveringSecond {
                Some(Side::Second)
            } else {
                None
            },
            next: HoverState::HoveringFirst,
        }),
        !first.spec_contains(pos) && second.spec_contains(pos) ==> r == (HoverRoute {
            hover: Some(HoverTarget { side: Side::Second, at: second.spec_local(pos) }),
            unhover: if state == HoverState::HoveringFirst {
                Some(Side::First)
            } else {
                None
            },
            next: HoverState::HoveringSecond,
        }),
        !first.spec_contains(pos) && !second.spec_contains(pos) ==> r == (HoverRoute {
            hover: None,
            unhover: state.hovered(),
            next: HoverState::Idle,
        }),
        // no child is both hovered and unhovered
        r.hover is Some && r.unhover is Some ==> r.hover->Some_0.side != r.unhover->Some_0,
{
    if first.contains(pos) {
        HoverRoute {
            hover: Some(HoverTarget { side: Side::First, at: first.local(pos) }),
            unhover: if state == HoverState::HoveringSecond {
                Some(Side::Second)
            } else {
                None
            },
            next: HoverState::HoveringFirst,
        }
    } else if second.contains(pos) {
        HoverRoute {
            hover: Some(HoverTarget { side: Side::Second, at: second.local(pos) }),
            unhover: if state == HoverState::HoveringFirst {
                Some(Side::First)
            } else {
                None
            },
            next: HoverState::HoveringSecond,
        }
    } else {
        let unhover = match state {
            HoverState::Idle => None,
            HoverState::HoveringFirst => Some(Side::First),
            HoverState::HoveringSecond => Some(Side::Second),
        };
        HoverRoute { hover: None, unhover, next: HoverState::Idle }
    }
}

/// The routing of the pointer leaving a composite node: the child hovered
/// before, if any, is unhovered.
pub open spec fn unhover_route(state: HoverState) -> HoverRoute {
    HoverRoute { hover: None, unhover: state.hovered(), next: HoverState::Idle }
}

/// Routes the pointer leaving a composite node: the child hovered before, if
/// any, is unhovered.
pub fn route_unhover(state: HoverState) -> (r: HoverRoute)
    ensures
        r == unhover_route(state),
{
    let unhover = match state {
        HoverState::Idle => None,
        HoverState::HoveringFirst => Some(Side::First),
        HoverState::HoveringSecond => Some(Side::Second),
    };
    HoverRoute { hover: None, unhover, next: HoverState::Idle }
}

} // verus!
