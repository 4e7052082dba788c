//! The generation engine: the current frontier, the buffer for the next
//! generation, pair admission, and the tick that swaps them.

use vstd::prelude::*;

use crate::segment::LineSegment;

verus! {

/// The outcome of the trigonometric derivation for one frontier segment, as
/// the rendering shell computes it: the far endpoints of the left and right
/// child, and the narrowed spread angle both of them receive (again as an
/// IEEE-754 single-precision bit pattern).
#[derive(Clone, Copy, PartialEq, Eq, Structural, Debug)]
pub struct Derived {
    pub left_x: i32,
    pub left_y: i32,
    pub right_x: i32,
    pub right_y: i32,
    pub angle_bits: u32,
}

/// A pair of children is admitted into the next generation exactly when at
/// least one of the two has positive length; admission is decided for the
/// pair as a whole, never for one child alone.
pub open spec fn pair_admitted(left: LineSegment, right: LineSegment) -> bool {
    !left.is_degenerate() || !right.is_degenerate()
}

/// Whether the derivation `d` of `parent` passes the admission test: the
/// pair-level test applied to the two children it would produce.
pub open spec fn derivation_admitted(parent: LineSegment, d: Derived) -> bool {
    pair_admitted(
        parent.spec_child(d.left_x, d.left_y, d.angle_bits),
        parent.spec_child(d.right_x, d.right_y, d.angle_bits),
    )
}

/// The next-generation buffer after one frontier segment has been expanded:
/// both children are appended when the pair is admitted, neither when it is
/// not.
pub open spec fn spec_expand(
    buf: Seq<LineSegment>,
    parent: LineSegment,
    d: Derived,
) -> Seq<LineSegment> {
    if derivation_admitted(parent, d) {
        buf.push(parent.spec_child(d.left_x, d.left_y, d.angle_bits)).push(
            parent.spec_child(d.right_x, d.right_y, d.angle_bits),
        )
    } else {
        buf
    }
}

/// The next-generation buffer after the first `n` frontier segments have
/// been expanded in order, starting from `buf`.
pub open spec fn spec_expand_prefix(
    buf: Seq<LineSegment>,
    frontier: Seq<LineSegment>,
    derived: Seq<Derived>,
    n: int,
) -> Seq<LineSegment>
    decreases n,
{
    if n <= 0 {
        buf
    } else {
        spec_expand(
            spec_expand_prefix(buf, frontier, derived, n - 1),
            frontier[n - 1],
            derived[n - 1],
        )
    }
}

/// The generation engine. `current` is the frontier being drawn and expanded
/// this tick; `next` collects the admitted children until the tick swaps the
/// two. Segments are never mutated after construction; a finished generation
/// is discarded wholesale.
pub struct Engine {
    current: Vec<LineSegment>,
    next: Vec<LineSegment>,
}

impl Engine {
    /// The current frontier, as a sequence in draw order.
    pub closed spec fn frontier(self) -> Seq<LineSegment> {
        self.current@
    }

    /// The next generation being built, as a sequence in insertion order.
    pub closed spec fn pending(self) -> Seq<LineSegment> {
        self.next@
    }

    /// Starts the engine with a single root segment as the whole frontier
    /// and an empty next-generation buffer.
    pub fn new(root: LineSegment) -> (e: Engine)
        ensures
            e.frontier().len() == 1,
            e.frontier()[0] == root,
            e.pending().len() == 0,
    {
        let mut current: Vec<LineSegment> = Vec::new();
        current.push(root);
        let next: Vec<LineSegment> = Vec::new();
        Engine { current, next }
    }

    /// How many segments the current frontier holds.
    pub fn frontier_len(&self) -> (n: usize)
        ensures
            n == self.frontier().len(),
    {
        self.current.len()
    }

    /// The frontier segment at position `i`, for drawing and for computing
    /// its derivation.
    pub fn frontier_at(&self, i: usize) -> (s: LineSegment)
        requires
            i < self.frontier().len(),
        ensures
            s == self.frontier()[i as int],
    {
        self.current[i]
    }

    /// Expands the frontier segment at position `i`: its two children are
    /// derived from the given endpoints and appended to the next generation
    /// if the pair is admitted — both of them or neither. The frontier
    /// itself is untouched.
    pub fn expand_at(&mut self, i: usize, d: Derived)
        requires
            i < old(self).frontier().len(),
            old(self).frontier()[i as int].depth < i32::MAX,
        ensures
            final(self).frontier() == old(self).frontier(),
            final(self).pending() == spec_expand(
                old(self).pending(),
                old(self).frontier()[i as int],
                d,
            ),
    {
        let parent = self.current[i];
        let (left, right) = parent.children(d.left_x, d.left_y, d.right_x, d.right_y, d.angle_bits);
        if left.has_positive_length() || right.has_positive_length() {
            self.next.push(left);
            self.next.push(right);
        }
    }

    /// Runs one whole generation tick: every frontier segment is expanded in
    /// order with its derivation, and the admitted children replace the
    /// frontier wholesale, leaving the buffer empty for the following tick.
    pub fn step(&mut self, derived: &Vec<Derived>)
        requires
            derived@.len() == old(self).frontier().len(),
            forall|j: int|
                0 <= j < old(self).frontier().len() ==> #[trigger] old(self).frontier()[j].depth
                    < i32::MAX,
        ensures
            final(self).frontier() == spec_expand_prefix(
                old(self).pending(),
                old(self).frontier(),
                derived@,
                old(self).frontier().len() as int,
            ),
            final(self).pending().len() == 0,
    {
        let n = self.frontier_len();
        let mut i: usize = 0;
        while i < n
            invariant
                n == self.frontier().len(),
                derived@.len() == n,
                i <= n,
                self.frontier() == old(self).frontier(),
                self.pending() == spec_expand_prefix(
                    old(self).pending(),
                    old(self).frontier(),
                    derived@,
                    i as int,
                ),
                forall|j: int|
                    0 <= j < self.frontier().len() ==> #[trigger] self.frontier()[j].depth
                        < i32::MAX,
            decreases n - i,
        {
            self.expand_at(i, derived[i]);
            i = i + 1;
        }
        self.advance();
    }

    /// Ends a tick: the next generation becomes the frontier, replacing it
    /// wholesale, and the buffer is left empty for the following tick.
    pub fn advance(&mut self)
        ensures
            final(self).frontier() == old(self).pending(),
            final(self).pending().len() == 0,
    {
        self.current.clear();
        self.current.append(&mut self.next);
        self.next.clear();
    }
}

/// Admission symmetry: one expansion step appends either both children of a
/// pair or neither, never exactly one. The buffer grows by exactly two
/// segments when the derivation is admitted and stays as it was when it is
/// not.
pub proof fn lemma_admission_symmetry(buf: Seq<LineSegment>, parent: LineSegment, d: Derived)
    ensures
        derivation_admitted(parent, d) ==> spec_expand(buf, parent, d).len() == buf.len() + 2,
        !derivation_admitted(parent, d) ==> spec_expand(buf, parent, d) == buf,
{
}

/// Connectivity: every segment an expansion step adds to the next
/// generation starts exactly at its parent's end point — the tree has no
/// gaps at branch points.
pub proof fn lemma_connectivity(buf: Seq<LineSegment>, parent: LineSegment, d: Derived)
    ensures
        forall|j: int|
            buf.len() <= j < spec_expand(buf, parent, d).len() ==> (#[trigger] spec_expand(
                buf,
                parent,
                d,
            )[j]).start_x == parent.end_x && spec_expand(buf, parent, d)[j].start_y == parent.end_y,
{
}

/// Depth increment: every segment an expansion step adds to the next
/// generation lies exactly one generation deeper than its parent, with no
/// artificial cap below the machine limit.
pub proof fn lemma_depth_increment(buf: Seq<LineSegment>, parent: LineSegment, d: Derived)
    requires
        parent.depth < i32::MAX,
    ensures
        forall|j: int|
            buf.len() <= j < spec_expand(buf, parent, d).len() ==> (#[trigger] spec_expand(
                buf,
                parent,
                d,
            )[j]).depth == parent.depth + 1,
{
}

/// Spread propagation: both children of a pair carry one and the same
/// narrowed spread angle, the one their derivation handed in.
pub proof fn lemma_shared_spread(buf: Seq<LineSegment>, parent: LineSegment, d: Derived)
    ensures
        forall|j: int|
            buf.len() <= j < spec_expand(buf, parent, d).len() ==> (#[trigger] spec_expand(
                buf,
                parent,
                d,
            )[j]).angle_bits == d.angle_bits,
{
}

/// Determinism: a tick is a pure function of the frontier, the buffer and
/// the per-segment derivations alone — nothing else enters it, so equal
/// inputs yield equal next generations, run after run.
pub proof fn lemma_tick_deterministic(
    buf_a: Seq<LineSegment>,
    frontier_a: Seq<LineSegment>,
    derived_a: Seq<Derived>,
    buf_b: Seq<LineSegment>,
    frontier_b: Seq<LineSegment>,
    derived_b: Seq<Derived>,
)
    requires
        buf_a == buf_b,
        frontier_a == frontier_b,
        derived_a == derived_b,
    ensures
        spec_expand_prefix(buf_a, frontier_a, derived_a, frontier_a.len() as int)
            == spec_expand_prefix(buf_b, frontier_b, derived_b, frontier_b.len() as int),
{
}

/// Quiescence is absorbing: a tick in which no derivation passes the
/// admission test adds nothing to the next generation. A tick starts from
/// an empty buffer, so once every branch is pruned — an empty frontier
/// included — the frontier is empty ever after: the engine sits at a fixed
/// point and draws nothing.
pub proof fn lemma_quiescent_fixed_point(
    buf: Seq<LineSegment>,
    frontier: Seq<LineSegment>,
    derived: Seq<Derived>,
    n: int,
)
    requires
        0 <= n <= frontier.len(),
        forall|j: int| 0 <= j < n ==> !#[trigger] derivation_admitted(frontier[j], derived[j]),
    ensures
        spec_expand_prefix(buf, frontier, derived, n) == buf,
    decreases n,
{
    if n > 0 {
        lemma_quiescent_fixed_point(buf, frontier, derived, n - 1);
    }
}

} // verus!
