use vstd::prelude::*;

verus! {

/// One step of a triangle's outline, in the style of a vector path.
#[derive(Debug, Clone, Copy, PartialEq, Eq, Structural)]
pub enum PathOp {
    /// Starts the outline at an absolute point.
    MoveTo { x: i64, y: i64 },
    /// Draws a line from the current point, by a relative offset.
    LineBy { dx: i64, dy: i64 },
    /// Closes the outline back to its start.
    Close,
}

/// The outline of a triangle whose top-middle (pointing up) or
/// bottom-middle (pointing down) vertex sits at `(x, y)` or `(x, y + height)`.
pub open spec fn triangle_ops(x: int, y: int, half_base_width: int, height: int, points_up: bool) -> Seq<
    (int, int, int),
> {
    // Each step is (kind, a, b): kind 0 moves to (a, b), kind 1 lines by (a, b), kind 2 closes.
    if points_up {
        seq![(0, x, y), (1, -half_base_width, height), (1, 2 * half_base_width, 0), (2, 0, 0)]
    } else {
        seq![(0, x, y + height), (1, -half_base_width, -height), (1, 2 * half_base_width, 0), (2, 0, 0)]
    }
}

impl PathOp {
    /// The step as `(kind, a, b)`: kind 0 moves to (a, b), kind 1 lines by (a, b), kind 2 closes.
    pub open spec fn as_triple(self) -> (int, int, int) {
        match self {
            PathOp::MoveTo { x, y } => (0, x as int, y as int),
            PathOp::LineBy { dx, dy } => (1, dx as int, dy as int),
            PathOp::Close => (2, 0, 0),
        }
    }
}

/// The points that a path visits, in order, starting from `cur`.
pub open spec fn trace(ops: Seq<(int, int, int)>, cur: (int, int)) -> Seq<(int, int)>
    decreases ops.len(),
{
    if ops.len() == 0 {
        Seq::empty()
    } else {
        let (kind, a, b) = ops[0];
        if kind == 0 {
            seq![(a, b)] + trace(ops.drop_first(), (a, b))
        } else if kind == 1 {
            seq![(cur.0 + a, cur.1 + b)] + trace(ops.drop_first(), (cur.0 + a, cur.1 + b))
        } else {
            trace(ops.drop_first(), cur)
        }
    }
}

/// The outline of one triangle: move to its first vertex, line by two
/// relative steps, close.
pub fn triangle_path(x: i64, y: i64, half_base_width: i64, height: i64, points_up: bool) -> (r: Vec<
    PathOp,
>)
    requires
        0 <= half_base_width <= i64::MAX / 2,
        0 <= height,
        y + height <= i64::MAX,
    ensures
        r@.map_values(|op: PathOp| op.as_triple()) == triangle_ops(
            x as int,
            y as int,
            half_base_width as int,
            height as int,
            points_up,
        ),
{
    let mut r: Vec<PathOp> = Vec::new();
    if points_up {
        r.push(PathOp::MoveTo { x, y });
        r.push(PathOp::LineBy { dx: -half_base_width, dy: height });
    } else {
        r.push(PathOp::MoveTo { x, y: y + height });
        r.push(PathOp::LineBy { dx: -half_base_width, dy: -height });
    }
    r.push(PathOp::LineBy { dx: 2 * half_base_width, dy: 0 });
    r.push(PathOp::Close);
    assert(r@.map_values(|op: PathOp| op.as_triple()) =~= triangle_ops(
        x as int,
        y as int,
        half_base_width as int,
        height as int,
        points_up,
    ));
    r
}

/// Tracing a triangle's outline visits its three vertices: for one pointing
/// up from `(x, y)`, `(x, y)`, `(x - h, y + t)` and `(x + h, y + t)`; for one
/// pointing down, `(x, y + t)`, `(x - h, y)` and `(x + h, y)`.
pub proof fn lemma_triangle_vertices(x: int, y: int, h: int, t: int)
    ensures
        trace(triangle_ops(x, y, h, t, true), (0, 0)) == seq![(x, y), (x - h, y + t), (x + h, y + t)],
        trace(triangle_ops(x, y, h, t, false), (0, 0)) == seq![(x, y + t), (x - h, y), (x + h, y)],
{
    reveal_with_fuel(trace, 5);
    let up = triangle_ops(x, y, h, t, true);
    let down = triangle_ops(x, y, h, t, false);
    assert(up.drop_first().drop_first().drop_first().drop_first() =~= Seq::<(int, int, int)>::empty());
    assert(down.drop_first().drop_first().drop_first().drop_first() =~= Seq::<(int, int, int)>::empty());
    assert(trace(up, (0, 0)) =~= seq![(x, y), (x - h, y + t), (x + h, y + t)]);
    assert(trace(down, (0, 0)) =~= seq![(x, y + t), (x - h, y), (x + h, y)]);
}

} // verus!
