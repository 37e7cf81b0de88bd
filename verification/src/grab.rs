//! The interactive grab state machine: the single process-wide record of an
//! in-progress drag-move or drag-resize, and its transitions.
//!
//! The machine has two states: Idle (no target view) and Active (a target
//! view, the last known pointer position, and the grabbed edge set). The
//! adapter around this crate keeps one `Compositor` behind an exclusive lock
//! and calls each transition while holding it, which makes every
//! check-and-mutate sequence atomic; `lemma_start_mutual_exclusion` states
//! what that discipline buys: two serialized start attempts never both
//! succeed.

use vstd::prelude::*;
use crate::geometry::{Point, Size, Geometry, Edges, HorizontalEdge, VerticalEdge};

verus! {

/// Smallest width an interactive resize may leave a view with.
pub const MIN_WIDTH: u32 = 80;

/// Smallest height an interactive resize may leave a view with.
pub const MIN_HEIGHT: u32 = 40;

/// The handle the host compositor uses to identify a view; opaque here.
pub type ViewId = u64;

/// The grab session record. `view` present means a session is active;
/// `grab` is the last pointer position the session saw; `edges` is the
/// grabbed edge set of a resize, empty for a move.
pub struct Compositor {
    pub view: Option<ViewId>,
    pub grab: Point,
    pub edges: Edges,
}

impl Compositor {
    /// No session is active.
    pub open spec fn is_idle(self) -> bool {
        self.view is None
    }

    /// A session is active.
    pub open spec fn is_active(self) -> bool {
        self.view is Some
    }

    /// Well-formedness: an idle machine holds no leftover edges, so a fresh
    /// move session always begins with the empty edge set.
    pub open spec fn wf(self) -> bool {
        self.is_idle() ==> self.edges.spec_is_empty()
    }

    /// The initial machine: idle, pointer at the origin, no edges.
    pub fn new() -> (c: Compositor)
        ensures
            c.is_idle(),
            c.grab == (Point { x: 0, y: 0 }),
            c.edges.spec_is_empty(),
            c.wf(),
    {
        Compositor { view: None, grab: Point { x: 0, y: 0 }, edges: Edges::none() }
    }
}

/// The start transition as a value: from state `c`, a start attempt on
/// `view` at pointer position `origin` yields the next state and whether it
/// succeeded. It succeeds exactly when `c` is idle, and on failure the state
/// is returned untouched.
pub open spec fn start_transition(c: Compositor, view: ViewId, origin: Point) -> (Compositor, bool) {
    if c.is_idle() {
        (Compositor { view: Some(view), grab: origin, edges: c.edges }, true)
    } else {
        (c, false)
    }
}

/// Horizontal edge derived from where the start point sits relative to the
/// view's horizontal center: Left strictly left of center, Right strictly
/// right, none exactly at it.
pub open spec fn derived_horizontal(origin: Point, g: Geometry) -> Option<HorizontalEdge> {
    let center = g.origin.x + g.size.w as int / 2;
    if origin.x < center {
        Some(HorizontalEdge::Left)
    } else if origin.x > center {
        Some(HorizontalEdge::Right)
    } else {
        None
    }
}

/// Vertical edge derived from the start point relative to the vertical
/// center, in the same way.
pub open spec fn derived_vertical(origin: Point, g: Geometry) -> Option<VerticalEdge> {
    let center = g.origin.y + g.size.h as int / 2;
    if origin.y < center {
        Some(VerticalEdge::Top)
    } else if origin.y > center {
        Some(VerticalEdge::Bottom)
    } else {
        None
    }
}

/// The edge set a resize session stores: the requested edges verbatim when
/// any were requested, otherwise the union of the two derived edges.
pub open spec fn resolved_edges(requested: Edges, origin: Point, g: Geometry) -> Edges {
    if !requested.spec_is_empty() {
        requested
    } else {
        Edges { horizontal: derived_horizontal(origin, g), vertical: derived_vertical(origin, g) }
    }
}

/// One grab-start attempt: a drag-move, or a drag-resize together with the
/// geometry the host reported for the view at that moment (none when it
/// reported no geometry).
pub enum StartAttempt {
    Move { view: ViewId, origin: Point },
    Resize { view: ViewId, edges: Edges, origin: Point, geometry: Option<Geometry> },
}

/// Whether an attempt can succeed at all when the machine is idle: a move
/// always can, a resize only with a reported geometry.
pub open spec fn attempt_viable(a: StartAttempt) -> bool {
    match a {
        StartAttempt::Move { .. } => true,
        StartAttempt::Resize { geometry, .. } => geometry is Some,
    }
}

/// The state transition of one start attempt, move or resize: the next
/// state and whether the attempt succeeded. Either kind fails, changing
/// nothing, when a session is already active; a resize also fails without
/// a reported geometry.
pub open spec fn attempt_transition(c: Compositor, a: StartAttempt) -> (Compositor, bool) {
    match a {
        StartAttempt::Move { view, origin } => start_transition(c, view, origin),
        StartAttempt::Resize { view, edges, origin, geometry } => {
            if c.is_idle() && geometry is Some {
                (
                    Compositor {
                        view: Some(view),
                        grab: origin,
                        edges: resolved_edges(edges, origin, geometry->0),
                    },
                    true,
                )
            } else {
                (c, false)
            }
        },
    }
}

/// Mutual exclusion of grab starts. Every transition runs under the
/// adapter's exclusive lock, so two concurrent start attempts — move or
/// resize, on the same view or different ones — are serialized into two
/// `attempt_transition` steps in some order. Of the two steps at most one
/// succeeds; from an idle machine a viable first attempt does succeed, so
/// exactly one of the two does; and when the first succeeds, the losing
/// second leaves the winner's session exactly as it was.
pub proof fn lemma_start_mutual_exclusion(c: Compositor, first: StartAttempt, second: StartAttempt)
    ensures
        !(attempt_transition(c, first).1 && attempt_transition(attempt_transition(c, first).0, second).1),
        attempt_transition(c, first).1 ==> attempt_transition(attempt_transition(c, first).0, second).0
            == attempt_transition(c, first).0,
        c.is_idle() && attempt_viable(first) ==> attempt_transition(c, first).1,
{
}

impl Compositor {
    /// Start transition shared by move and resize: claim the machine for
    /// `view` with reference point `origin`. Fails, changing nothing, when a
    /// session is already active. On success the caller raises the view to
    /// the front of its output's stack.
    pub fn start_interactive_action(&mut self, view: ViewId, origin: Point) -> (ok: bool)
        ensures
            (*final(self), ok) == start_transition(*old(self), view, origin),
            ok == old(self).is_idle(),
            old(self).wf() ==> final(self).wf(),
    {
        if self.view.is_some() {
            return false;
        }
        self.grab = origin;
        self.view = Some(view);
        true
    }

    /// Begin a drag-move of `view` with the pointer at `origin`. With the
    /// machine well-formed this makes an active session with the empty edge
    /// set, so later pointer motion translates the view instead of resizing
    /// it.
    pub fn start_interactive_move(&mut self, view: ViewId, origin: Point) -> (ok: bool)
        ensures
            (*final(self), ok) == start_transition(*old(self), view, origin),
            (*final(self), ok) == attempt_transition(*old(self), (StartAttempt::Move { view, origin })),
            ok == old(self).is_idle(),
            old(self).wf() ==> final(self).wf(),
    {
        self.start_interactive_action(view, origin)
    }

    /// Begin a drag-resize of `view`. `geometry` is what the host currently
    /// reports for the view: with none reported the attempt aborts before
    /// any state change, as does a start conflict. On success the stored
    /// edge set is `resolved_edges(edges, origin, g)` and the caller raises
    /// the view and marks it as resizing.
    pub fn start_interactive_resize(
        &mut self,
        view: ViewId,
        edges: Edges,
        origin: Point,
        geometry: Option<Geometry>,
    ) -> (ok: bool)
        ensures
            (*final(self), ok) == attempt_transition(
                *old(self),
                (StartAttempt::Resize { view, edges, origin, geometry }),
            ),
            ok == (old(self).is_idle() && geometry is Some),
            !ok ==> *final(self) == *old(self),
            ok ==> final(self).view == Some(view)
                && final(self).grab == origin
                && final(self).edges == resolved_edges(edges, origin, geometry->0),
            old(self).wf() ==> final(self).wf(),
    {
        let g = match geometry {
            None => {
                return false;
            },
            Some(g) => g,
        };

        if !self.start_interactive_action(view, origin) {
            return false;
        }

        let resolved = if !edges.is_empty() {
            edges
        } else {
            let center_x: i64 = g.origin.x as i64 + (g.size.w / 2) as i64;
            let center_y: i64 = g.origin.y as i64 + (g.size.h / 2) as i64;
            let horizontal = if (origin.x as i64) < center_x {
                Some(HorizontalEdge::Left)
            } else if (origin.x as i64) > center_x {
                Some(HorizontalEdge::Right)
            } else {
                None
            };
            let vertical = if (origin.y as i64) < center_y {
                Some(VerticalEdge::Top)
            } else if (origin.y as i64) > center_y {
                Some(VerticalEdge::Bottom)
            } else {
                None
            };
            Edges { horizontal, vertical }
        };
        self.edges = resolved;
        true
    }

    /// End whatever session is in progress: Active goes to Idle, Idle stays
    /// Idle, and the stored edges are cleared either way. Returns the view
    /// the session was bound to, if any, so the caller can clear its
    /// resizing mark.
    pub fn stop_interactive_action(&mut self) -> (target: Option<ViewId>)
        ensures
            target == old(self).view,
            final(self).is_idle(),
            final(self).edges.spec_is_empty(),
            final(self).grab == old(self).grab,
            final(self).wf(),
    {
        let target = self.view;
        self.view = None;
        self.edges = Edges::none();
        target
    }

    /// Defensive clear: the host destroyed `view`. A session bound to it is
    /// force-ended so the machine never points at a dead view; any other
    /// state is left untouched.
    pub fn view_destroyed(&mut self, view: ViewId)
        ensures
            old(self).view == Some(view) ==> final(self).is_idle()
                && final(self).edges.spec_is_empty()
                && final(self).grab == old(self).grab,
            old(self).view != Some(view) ==> *final(self) == *old(self),
            old(self).wf() ==> final(self).wf(),
    {
        let hit = match self.view {
            Some(v) => v == view,
            None => false,
        };
        if hit {
            self.view = None;
            self.edges = Edges::none();
        }
    }
}

/// Per-axis candidate of a resize: the grabbed edge maps the pointer delta
/// `d` to a new (position, length) pair. Grabbing the low edge (left/top)
/// shifts the origin by `d` and grows the length against it; grabbing the
/// high edge (right/bottom) grows the length with it; an ungrabbed axis is
/// left as it is.
pub open spec fn axis_candidate(pos: int, len: int, d: int, low: bool, high: bool) -> (int, int) {
    if low {
        (pos + d, len - d)
    } else if high {
        (pos, len + d)
    } else {
        (pos, len)
    }
}

/// Whether the candidate of one axis is taken. A candidate length below the
/// floor `min` is rejected rather than clamped — position and length of
/// that axis both keep their prior values, so a resize "sticks" at the
/// floor until the drag reverses — and a candidate that no longer fits the
/// machine's coordinate types is rejected by the same whole-axis rule.
pub open spec fn axis_applies(pos: int, len: int, d: int, low: bool, high: bool, min: int) -> bool {
    let candidate = axis_candidate(pos, len, d, low, high);
    min <= candidate.1 <= u32::MAX && i32::MIN <= candidate.0 <= i32::MAX
}

/// The (position, length) one axis ends up with after a resize update.
pub open spec fn axis_result(pos: int, len: int, d: int, low: bool, high: bool, min: int) -> (int, int) {
    if axis_applies(pos, len, d, low, high, min) {
        axis_candidate(pos, len, d, low, high)
    } else {
        (pos, len)
    }
}

/// The geometry a resize update with deltas (dx, dy) and grabbed edges `e`
/// assigns, each axis decided independently by `axis_result`.
pub open spec fn resized_geometry(g: Geometry, dx: int, dy: int, e: Edges) -> Geometry {
    let hor = axis_result(
        g.origin.x as int,
        g.size.w as int,
        dx,
        e.horizontal == Some(HorizontalEdge::Left),
        e.horizontal == Some(HorizontalEdge::Right),
        MIN_WIDTH as int,
    );
    let ver = axis_result(
        g.origin.y as int,
        g.size.h as int,
        dy,
        e.vertical == Some(VerticalEdge::Top),
        e.vertical == Some(VerticalEdge::Bottom),
        MIN_HEIGHT as int,
    );
    Geometry {
        origin: Point { x: hor.0 as i32, y: ver.0 as i32 },
        size: Size { w: hor.1 as u32, h: ver.1 as u32 },
    }
}

/// Whether a move by (dx, dy) keeps both origin coordinates representable.
pub open spec fn move_applies(g: Geometry, dx: int, dy: int) -> bool {
    i32::MIN <= g.origin.x + dx <= i32::MAX && i32::MIN <= g.origin.y + dy <= i32::MAX
}

/// The geometry a move update assigns: the origin translated by the deltas,
/// the size untouched. A translation that would leave the representable
/// coordinate range is discarded whole.
pub open spec fn moved_geometry(g: Geometry, dx: int, dy: int) -> Geometry {
    if move_applies(g, dx, dy) {
        Geometry {
            origin: Point { x: (g.origin.x + dx) as i32, y: (g.origin.y + dy) as i32 },
            size: g.size,
        }
    } else {
        g
    }
}

/// What an active session does to its target's geometry on pointer motion:
/// an empty edge set moves the view, a non-empty one resizes it.
pub open spec fn grab_update_geometry(g: Geometry, dx: int, dy: int, e: Edges) -> Geometry {
    if e.spec_is_empty() {
        moved_geometry(g, dx, dy)
    } else {
        resized_geometry(g, dx, dy, e)
    }
}

/// What a pointer-motion update asks the host to do.
#[derive(Clone, Copy, PartialEq, Eq, Debug)]
pub struct MotionOutcome {
    /// Apply this geometry to the session's target view, tagged with the
    /// edge set the resize affected (empty for a move). None when no
    /// session is active.
    pub apply: Option<(Edges, Geometry)>,
    /// Whether a session is active: the dispatch boundary reports the event
    /// as consumed exactly then.
    pub active: bool,
}

/// One axis of the resize computation, executable: `d` is the pointer delta
/// on this axis, `low`/`high` say which edge (if either) is grabbed.
fn resize_axis(pos: i32, len: u32, d: i64, low: bool, high: bool, min: u32) -> (r: (i32, u32))
    requires
        -0x1_0000_0000 <= d <= 0x1_0000_0000,
    ensures
        (r.0 as int, r.1 as int) == axis_result(pos as int, len as int, d as int, low, high, min as int),
{
    let candidate_pos: i64 = if low {
        pos as i64 + d
    } else {
        pos as i64
    };
    let candidate_len: i64 = if low {
        len as i64 - d
    } else if high {
        len as i64 + d
    } else {
        len as i64
    };
    if min as i64 <= candidate_len && candidate_len <= u32::MAX as i64
        && i32::MIN as i64 <= candidate_pos && candidate_pos <= i32::MAX as i64 {
        (candidate_pos as i32, candidate_len as u32)
    } else {
        (pos, len)
    }
}

impl Compositor {
    /// Record pointer motion. The new position always becomes the grab
    /// reference point, active or not. With a session active, `geometry` —
    /// what the host reports for the session's target — is updated per the
    /// stored edge set and the outcome carries the geometry the host should
    /// apply; the deltas are measured against the previous reference point.
    /// `active` in the outcome reports whether a session is in progress.
    pub fn update_grab(&mut self, point: Point, geometry: Option<Geometry>) -> (out: MotionOutcome)
        requires
            old(self).is_active() ==> geometry is Some,
        ensures
            final(self).grab == point,
            final(self).view == old(self).view,
            final(self).edges == old(self).edges,
            old(self).wf() ==> final(self).wf(),
            out.active == old(self).is_active(),
            old(self).is_idle() ==> out.apply is None,
            old(self).is_active() ==> out.apply == Some((
                old(self).edges,
                grab_update_geometry(
                    geometry->0,
                    point.x - old(self).grab.x,
                    point.y - old(self).grab.y,
                    old(self).edges,
                ),
            )),
    {
        let active = self.view.is_some();
        let mut out = MotionOutcome { apply: None, active };
        if active {
            let g = geometry.unwrap();
            let dx: i64 = point.x as i64 - self.grab.x as i64;
            let dy: i64 = point.y as i64 - self.grab.y as i64;
            if !self.edges.is_empty() {
                let (low_x, high_x) = match self.edges.horizontal {
                    Some(HorizontalEdge::Left) => (true, false),
                    Some(HorizontalEdge::Right) => (false, true),
                    None => (false, false),
                };
                let (low_y, high_y) = match self.edges.vertical {
                    Some(VerticalEdge::Top) => (true, false),
                    Some(VerticalEdge::Bottom) => (false, true),
                    None => (false, false),
                };
                let hor = resize_axis(g.origin.x, g.size.w, dx, low_x, high_x, MIN_WIDTH);
                let ver = resize_axis(g.origin.y, g.size.h, dy, low_y, high_y, MIN_HEIGHT);
                let resized = Geometry {
                    origin: Point { x: hor.0, y: ver.0 },
                    size: Size { w: hor.1, h: ver.1 },
                };
                out.apply = Some((self.edges, resized));
            } else {
                let moved_x: i64 = g.origin.x as i64 + dx;
                let moved_y: i64 = g.origin.y as i64 + dy;
                let in_range = i32::MIN as i64 <= moved_x && moved_x <= i32::MAX as i64
                    && i32::MIN as i64 <= moved_y && moved_y <= i32::MAX as i64;
                let moved = if in_range {
                    Geometry {
                        origin: Point { x: moved_x as i32, y: moved_y as i32 },
                        size: g.size,
                    }
                } else {
                    g
                };
                out.apply = Some((self.edges, moved));
            }
        }
        self.grab = point;
        out
    }
}

} // verus!
