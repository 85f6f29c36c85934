//! Distance fields behind the geometric territory estimate: for every
//! intersection, how many orthogonal steps separate it from the nearest stone
//! of a color.
use std::collections::VecDeque;
use vstd::prelude::*;

verus! {

/// The stones on the board: `sign_map[row][column]` is `1` for black, `-1`
/// for white and `0` for an empty intersection.
#[derive(Clone, Debug)]
pub struct BoardSnapshot {
    pub width: usize,
    pub height: usize,
    pub sign_map: Vec<Vec<i8>>,
}

impl BoardSnapshot {
    /// The sign map covers every intersection.
    pub open spec fn wf(&self) -> bool {
        &&& self.sign_map@.len() >= self.height
        &&& forall|r: int| 0 <= r < self.height ==> #[trigger] self.sign_map@[r]@.len() >= self.width
    }

    pub open spec fn sign(&self, c: int, r: int) -> i8 {
        self.sign_map@[r]@[c]
    }
}

pub open spec fn in_board(w: int, h: int, c: int, r: int) -> bool {
    0 <= c < w && 0 <= r < h
}

pub open spec fn abs_diff(a: int, b: int) -> int {
    if a >= b {
        a - b
    } else {
        b - a
    }
}

/// Number of orthogonal steps between two intersections.
pub open spec fn manhattan(c1: int, r1: int, c2: int, r2: int) -> int {
    abs_diff(c1, c2) + abs_diff(r1, r2)
}

/// `(c, r)` holds a stone of sign `s`.
pub open spec fn is_target(b: BoardSnapshot, s: i8, c: int, r: int) -> bool {
    in_board(b.width as int, b.height as int, c, r) && b.sign(c, r) == s
}

pub open spec fn has_target(b: BoardSnapshot, s: i8) -> bool {
    exists|c: int, r: int| #[trigger] is_target(b, s, c, r)
}

/// `d` is the number of steps from `(c, r)` to the nearest stone of sign `s`.
pub open spec fn nearest_distance(b: BoardSnapshot, s: i8, c: int, r: int, d: int) -> bool {
    &&& exists|tc: int, tr: int| #[trigger] is_target(b, s, tc, tr) && manhattan(c, r, tc, tr) == d
    &&& forall|tc: int, tr: int| #[trigger] is_target(b, s, tc, tr) ==> manhattan(c, r, tc, tr) >= d
}

/// Row-major index of `(c, r)` on a board `w` wide.
pub open spec fn cell(w: int, c: int, r: int) -> int {
    r * w + c
}

/// The intersection one step from `(c, r)` toward `(tc, tr)` (columns first).
spec fn step_toward(c: int, r: int, tc: int, tr: int) -> (int, int) {
    if c < tc {
        (c + 1, r)
    } else if c > tc {
        (c - 1, r)
    } else if r < tr {
        (c, r + 1)
    } else {
        (c, r - 1)
    }
}

/// The nearest distance is unique: an intersection has one distance to the
/// stones of a color.
pub proof fn law_nearest_distance_unique(b: BoardSnapshot, s: i8, c: int, r: int, d1: int, d2: int)
    requires
        nearest_distance(b, s, c, r, d1),
        nearest_distance(b, s, c, r, d2),
    ensures
        d1 == d2,
{
    let (tc1, tr1) = choose|tc: int, tr: int| #[trigger] is_target(b, s, tc, tr) && manhattan(c, r, tc, tr) == d1;
    let (tc2, tr2) = choose|tc: int, tr: int| #[trigger] is_target(b, s, tc, tr) && manhattan(c, r, tc, tr) == d2;
    assert(manhattan(c, r, tc2, tr2) >= d1);
    assert(manhattan(c, r, tc1, tr1) >= d2);
}

/// Every stone of a color is at distance 0 from the stones of its color.
pub proof fn law_stone_at_distance_zero(b: BoardSnapshot, s: i8, c: int, r: int)
    requires
        is_target(b, s, c, r),
    ensures
        nearest_distance(b, s, c, r, 0),
{
    assert(manhattan(c, r, c, r) == 0);
}

/// Row-major slot of `(c, r)` on a board `w` wide, kept opaque so that the
/// product stays out of the search proofs.
#[verifier::opaque]
spec fn slot(w: int, c: int, r: int) -> int {
    r * w + c
}

proof fn lemma_slot(w: int, h: int, c: int, r: int)
    requires
        in_board(w, h, c, r),
    ensures
        0 <= slot(w, c, r) < w * h,
        slot(w, c, r) == r * w + c,
        slot(w, c, r) == cell(w, c, r),
{
    reveal(slot);
    assert(0 <= r * w + c < w * h) by (nonlinear_arith)
        requires
            0 <= c < w,
            0 <= r < h,
    ;
}

proof fn lemma_slot_injective(w: int, h: int, c1: int, r1: int, c2: int, r2: int)
    requires
        in_board(w, h, c1, r1),
        in_board(w, h, c2, r2),
        c1 != c2 || r1 != r2,
    ensures
        slot(w, c1, r1) != slot(w, c2, r2),
{
    reveal(slot);
    if r1 * w + c1 == r2 * w + c2 {
        assert(r1 == r2) by (nonlinear_arith)
            requires
                0 <= c1 < w,
                0 <= c2 < w,
                r1 * w + c1 == r2 * w + c2,
                0 <= r1,
                0 <= r2,
        ;
    }
}

/// Distance entry of `(c, r)` in a row-major field.
spec fn at(d: Seq<usize>, w: int, c: int, r: int) -> usize {
    d[slot(w, c, r)]
}

proof fn lemma_at_update(d: Seq<usize>, w: int, h: int, c0: int, r0: int, v: usize)
    requires
        d.len() == w * h,
        in_board(w, h, c0, r0),
    ensures
        forall|c: int, r: int|
            in_board(w, h, c, r) ==> #[trigger] at(d.update(slot(w, c0, r0), v), w, c, r) == if c
                == c0 && r == r0 {
                v
            } else {
                at(d, w, c, r)
            },
{
    lemma_slot(w, h, c0, r0);
    assert forall|c: int, r: int| in_board(w, h, c, r) implies #[trigger] at(
        d.update(slot(w, c0, r0), v),
        w,
        c,
        r,
    ) == if c == c0 && r == r0 {
        v
    } else {
        at(d, w, c, r)
    } by {
        lemma_slot(w, h, c, r);
        if c != c0 || r != r0 {
            lemma_slot_injective(w, h, c, r, c0, r0);
        }
    }
}

/// Assigned entries hold the exact nearest distance.
#[verifier::opaque]
spec fn exact_where_assigned(b: BoardSnapshot, s: i8, d: Seq<usize>) -> bool {
    forall|c: int, r: int|
        in_board(b.width as int, b.height as int, c, r) && #[trigger] at(d, b.width as int, c, r)
            != usize::MAX ==> nearest_distance(b, s, c, r, at(d, b.width as int, c, r) as int)
}

/// Every stone of the color is assigned.
#[verifier::opaque]
spec fn targets_assigned(b: BoardSnapshot, s: i8, d: Seq<usize>) -> bool {
    forall|c: int, r: int| #[trigger]
        is_target(b, s, c, r) ==> at(d, b.width as int, c, r) != usize::MAX
}

/// The queue holds assigned intersections of the board.
#[verifier::opaque]
spec fn queue_assigned(b: BoardSnapshot, d: Seq<usize>, q: Seq<(usize, usize)>) -> bool {
    forall|k: int| #![trigger q[k]]
        0 <= k < q.len() ==> in_board(b.width as int, b.height as int, q[k].0 as int, q[k].1 as int)
            && at(d, b.width as int, q[k].0 as int, q[k].1 as int) != usize::MAX
}

/// The queue is in non-decreasing distance order.
#[verifier::opaque]
spec fn queue_sorted(b: BoardSnapshot, d: Seq<usize>, q: Seq<(usize, usize)>) -> bool {
    forall|k1: int, k2: int|
        0 <= k1 <= k2 < q.len() ==> #[trigger] at(d, b.width as int, q[k1].0 as int, q[k1].1 as int)
            <= #[trigger] at(d, b.width as int, q[k2].0 as int, q[k2].1 as int)
}

/// The queue spans at most one step of distance.
spec fn queue_span(b: BoardSnapshot, d: Seq<usize>, q: Seq<(usize, usize)>) -> bool {
    q.len() > 0 ==> at(d, b.width as int, q.last().0 as int, q.last().1 as int) <= at(
        d,
        b.width as int,
        q[0].0 as int,
        q[0].1 as int,
    ) + 1
}

/// Every assigned neighbor of an unassigned intersection is queued, but
/// possibly `(uc, ur)`.
#[verifier::opaque]
spec fn frontier_queued_but(
    b: BoardSnapshot,
    d: Seq<usize>,
    q: Seq<(usize, usize)>,
    uc: int,
    ur: int,
) -> bool {
    let w = b.width as int;
    let h = b.height as int;
    forall|c: int, r: int, c2: int, r2: int|
        in_board(w, h, c, r) && in_board(w, h, c2, r2) && manhattan(c, r, c2, r2) == 1
            && #[trigger] at(d, w, c, r) == usize::MAX && #[trigger] at(d, w, c2, r2) != usize::MAX
            ==> q.contains((c2 as usize, r2 as usize)) || (c2 == uc && r2 == ur)
}

/// Every assigned neighbor of an unassigned intersection is queued.
spec fn frontier_queued(b: BoardSnapshot, d: Seq<usize>, q: Seq<(usize, usize)>) -> bool {
    frontier_queued_but(b, d, q, -1, -1)
}

/// The breadth-first-search invariants over the distance field `d` and the
/// queue `q`.
spec fn field_inv(b: BoardSnapshot, s: i8, d: Seq<usize>, q: Seq<(usize, usize)>) -> bool {
    &&& d.len() == b.width * b.height
    &&& exact_where_assigned(b, s, d)
    &&& targets_assigned(b, s, d)
    &&& queue_assigned(b, d, q)
    &&& queue_sorted(b, d, q)
    &&& queue_span(b, d, q)
    &&& frontier_queued(b, d, q)
}

/// With the search invariants, every unassigned intersection is more steps
/// away from each stone than the distance of the queue's front.
proof fn lemma_unassigned_is_far(
    b: BoardSnapshot,
    s: i8,
    d: Seq<usize>,
    q: Seq<(usize, usize)>,
    c: int,
    r: int,
    tc: int,
    tr: int,
)
    requires
        field_inv(b, s, d, q),
        q.len() > 0,
        in_board(b.width as int, b.height as int, c, r),
        at(d, b.width as int, c, r) == usize::MAX,
        is_target(b, s, tc, tr),
    ensures
        manhattan(c, r, tc, tr) > at(d, b.width as int, q[0].0 as int, q[0].1 as int),
    decreases manhattan(c, r, tc, tr),
{
    reveal(targets_assigned);
    reveal(frontier_queued_but);
    reveal(queue_sorted);
    reveal(exact_where_assigned);
    let w = b.width as int;
    let h = b.height as int;
    if manhattan(c, r, tc, tr) == 0 {
        assert(c == tc && r == tr);
        assert(at(d, w, tc, tr) != usize::MAX);
    } else {
        let (c2, r2) = step_toward(c, r, tc, tr);
        assert(in_board(w, h, c2, r2));
        assert(manhattan(c2, r2, tc, tr) == manhattan(c, r, tc, tr) - 1);
        assert(manhattan(c, r, c2, r2) == 1);
        if at(d, w, c2, r2) == usize::MAX {
            lemma_unassigned_is_far(b, s, d, q, c2, r2, tc, tr);
        } else {
            assert(q.contains((c2 as usize, r2 as usize)));
            let k = choose|k: int| 0 <= k < q.len() && q[k] == (c2 as usize, r2 as usize);
            assert(at(d, w, q[0].0 as int, q[0].1 as int) <= at(d, w, q[k].0 as int, q[k].1 as int));
            assert(nearest_distance(b, s, c2, r2, at(d, w, c2, r2) as int));
        }
    }
}

/// With the search invariants and an empty queue, every intersection is
/// assigned once there is a stone of the color.
proof fn lemma_all_assigned(
    b: BoardSnapshot,
    s: i8,
    d: Seq<usize>,
    q: Seq<(usize, usize)>,
    c: int,
    r: int,
    tc: int,
    tr: int,
)
    requires
        field_inv(b, s, d, q),
        q.len() == 0,
        in_board(b.width as int, b.height as int, c, r),
        is_target(b, s, tc, tr),
    ensures
        at(d, b.width as int, c, r) != usize::MAX,
    decreases manhattan(c, r, tc, tr),
{
    reveal(targets_assigned);
    reveal(frontier_queued_but);
    let w = b.width as int;
    let h = b.height as int;
    if manhattan(c, r, tc, tr) == 0 {
        assert(c == tc && r == tr);
    } else {
        let (c2, r2) = step_toward(c, r, tc, tr);
        assert(in_board(w, h, c2, r2));
        assert(manhattan(c2, r2, tc, tr) == manhattan(c, r, tc, tr) - 1);
        lemma_all_assigned(b, s, d, q, c2, r2, tc, tr);
        if at(d, w, c, r) == usize::MAX {
            assert(manhattan(c, r, c2, r2) == 1);
            assert(q.contains((c2 as usize, r2 as usize)));
        }
    }
}

/// Number of unassigned entries.
spec fn unassigned_count(d: Seq<usize>) -> nat
    decreases d.len(),
{
    if d.len() == 0 {
        0
    } else {
        unassigned_count(d.drop_last()) + if d.last() == usize::MAX {
            1nat
        } else {
            0nat
        }
    }
}

proof fn lemma_unassigned_count_assign(d: Seq<usize>, i: int, v: usize)
    requires
        0 <= i < d.len(),
        d[i] == usize::MAX,
        v != usize::MAX,
    ensures
        unassigned_count(d.update(i, v)) + 1 == unassigned_count(d),
    decreases d.len(),
{
    let u = d.update(i, v);
    if i == d.len() - 1 {
        assert(u.drop_last() =~= d.drop_last());
    } else {
        assert(u.drop_last() =~= d.drop_last().update(i, v));
        lemma_unassigned_count_assign(d.drop_last(), i, v);
    }
}


/// Every unassigned intersection of `d` is more than `f` steps from each
/// stone.
#[verifier::opaque]
spec fn far_from_stones(b: BoardSnapshot, s: i8, d: Seq<usize>, f: int) -> bool {
    forall|c: int, r: int, tc: int, tr: int|
        in_board(b.width as int, b.height as int, c, r) && #[trigger] at(d, b.width as int, c, r)
            == usize::MAX && #[trigger] is_target(b, s, tc, tr) ==> manhattan(c, r, tc, tr) > f
}

/// Entries of `d` are those of `d0`, but for some unassigned ones now at
/// `f + 1`.
#[verifier::opaque]
spec fn only_new_at(b: BoardSnapshot, d0: Seq<usize>, d: Seq<usize>, f: int) -> bool {
    forall|c: int, r: int|
        in_board(b.width as int, b.height as int, c, r) ==> (#[trigger] at(d, b.width as int, c, r)
            == at(d0, b.width as int, c, r) || (at(d0, b.width as int, c, r) == usize::MAX && at(
            d,
            b.width as int,
            c,
            r,
        ) == f + 1))
}

/// The queue holds intersections of the board at distance `f` or `f + 1`.
#[verifier::opaque]
spec fn queue_within(b: BoardSnapshot, d: Seq<usize>, q: Seq<(usize, usize)>, f: int) -> bool {
    forall|j: int| #![trigger q[j]]
        0 <= j < q.len() ==> in_board(b.width as int, b.height as int, q[j].0 as int, q[j].1 as int)
            && f <= at(d, b.width as int, q[j].0 as int, q[j].1 as int) && at(d, b.width as int, q[j].0 as int, q[j].1 as int) <= f + 1
}

/// The invariants while the neighbors of `(uc, ur)`, at distance `f` and
/// popped from the front of `q0`, are visited; `d0` is the field before the
/// pop, `d` and `q` the current field and queue.
spec fn step_inv(
    b: BoardSnapshot,
    s: i8,
    d0: Seq<usize>,
    q0: Seq<(usize, usize)>,
    d: Seq<usize>,
    q: Seq<(usize, usize)>,
    uc: int,
    ur: int,
    f: int,
) -> bool {
    &&& d.len() == b.width * b.height
    &&& only_new_at(b, d0, d, f)
    &&& exact_where_assigned(b, s, d)
    &&& queue_within(b, d, q, f)
    &&& queue_sorted(b, d, q)
    &&& frontier_queued_but(b, d, q, uc, ur)
    &&& 2 * unassigned_count(d) + q.len() < 2 * unassigned_count(d0) + q0.len()
}

/// The seeded field, with distance 0 exactly at the stones and those stones
/// queued, meets the search invariants.
proof fn lemma_seeded(b: BoardSnapshot, s: i8, d: Seq<usize>, q: Seq<(usize, usize)>)
    requires
        d.len() == b.width * b.height,
        forall|c: int, r: int|
            in_board(b.width as int, b.height as int, c, r) ==> #[trigger] at(
                d,
                b.width as int,
                c,
                r,
            ) == if is_target(b, s, c, r) {
                0
            } else {
                usize::MAX
            },
        forall|k: int| 0 <= k < q.len() ==> is_target(b, s, q[k].0 as int, q[k].1 as int),
        forall|c: int, r: int| #[trigger]
            is_target(b, s, c, r) ==> q.contains((c as usize, r as usize)),
    ensures
        field_inv(b, s, d, q),
{
    let w = b.width as int;
    let h = b.height as int;
    assert(exact_where_assigned(b, s, d)) by {
        reveal(exact_where_assigned);
        assert forall|c: int, r: int|
            in_board(w, h, c, r) && #[trigger] at(d, w, c, r) != usize::MAX implies nearest_distance(
            b,
            s,
            c,
            r,
            at(d, w, c, r) as int,
        ) by {
            assert(is_target(b, s, c, r));
            assert(manhattan(c, r, c, r) == 0);
        }
    }
    assert(targets_assigned(b, s, d)) by {
        reveal(targets_assigned);
    }
    assert(queue_assigned(b, d, q)) by {
        reveal(queue_assigned);
        assert forall|k: int| #![trigger q[k]] 0 <= k < q.len() implies in_board(
            w,
            h,
            q[k].0 as int,
            q[k].1 as int,
        ) && at(d, w, q[k].0 as int, q[k].1 as int) != usize::MAX by {
            assert(is_target(b, s, q[k].0 as int, q[k].1 as int));
        }
    }
    assert(queue_sorted(b, d, q)) by {
        reveal(queue_sorted);
        assert forall|k1: int, k2: int| 0 <= k1 <= k2 < q.len() implies #[trigger] at(
            d,
            w,
            q[k1].0 as int,
            q[k1].1 as int,
        ) <= #[trigger] at(d, w, q[k2].0 as int, q[k2].1 as int) by {
            assert(is_target(b, s, q[k1].0 as int, q[k1].1 as int));
            assert(is_target(b, s, q[k2].0 as int, q[k2].1 as int));
        }
    }
    if q.len() > 0 {
        assert(is_target(b, s, q[0].0 as int, q[0].1 as int));
        assert(is_target(b, s, q[q.len() - 1].0 as int, q[q.len() - 1].1 as int));
    }
    assert(frontier_queued(b, d, q)) by {
        reveal(frontier_queued_but);
        assert forall|c: int, r: int, c2: int, r2: int|
            in_board(w, h, c, r) && in_board(w, h, c2, r2) && manhattan(c, r, c2, r2) == 1
                && #[trigger] at(d, w, c, r) == usize::MAX && #[trigger] at(d, w, c2, r2)
                != usize::MAX implies q.contains((c2 as usize, r2 as usize)) || (c2 == -1 && r2
            == -1) by {
            assert(is_target(b, s, c2, r2));
        }
    }
}

/// What the front of the queue gives the step that pops it: its distance is
/// exact, reached from `witness`, and every unassigned intersection is
/// farther from each stone.
proof fn lemma_front(b: BoardSnapshot, s: i8, d: Seq<usize>, q: Seq<(usize, usize)>) -> (witness: (
    int,
    int,
))
    requires
        field_inv(b, s, d, q),
        q.len() > 0,
        b.width * b.height < usize::MAX,
    ensures
        in_board(b.width as int, b.height as int, q[0].0 as int, q[0].1 as int),
        far_from_stones(b, s, d, at(d, b.width as int, q[0].0 as int, q[0].1 as int) as int),
        is_target(b, s, witness.0, witness.1),
        manhattan(q[0].0 as int, q[0].1 as int, witness.0, witness.1) == at(
            d,
            b.width as int,
            q[0].0 as int,
            q[0].1 as int,
        ),
        at(d, b.width as int, q[0].0 as int, q[0].1 as int) + 1 < usize::MAX,
{
    let w = b.width as int;
    let h = b.height as int;
    let uc = q[0].0 as int;
    let ur = q[0].1 as int;
    let f = at(d, w, uc, ur) as int;
    assert(in_board(w, h, uc, ur) && at(d, w, uc, ur) != usize::MAX) by {
        reveal(queue_assigned);
    }
    assert(far_from_stones(b, s, d, f)) by {
        reveal(far_from_stones);
        assert forall|c: int, r: int, tc: int, tr: int|
            in_board(w, h, c, r) && #[trigger] at(d, w, c, r) == usize::MAX && #[trigger] is_target(
                b,
                s,
                tc,
                tr,
            ) implies manhattan(c, r, tc, tr) > f by {
            lemma_unassigned_is_far(b, s, d, q, c, r, tc, tr);
        }
    }
    assert(nearest_distance(b, s, uc, ur, f)) by {
        reveal(exact_where_assigned);
    }
    let witness = choose|tc: int, tr: int|
        #[trigger] is_target(b, s, tc, tr) && manhattan(uc, ur, tc, tr) == f;
    assert((w - 1) + (h - 1) < w * h) by (nonlinear_arith)
        requires
            1 <= w,
            1 <= h,
    ;
    witness
}

/// Popping the front of the queue starts a step.
proof fn lemma_step_begins(b: BoardSnapshot, s: i8, d0: Seq<usize>, q0: Seq<(usize, usize)>)
    requires
        field_inv(b, s, d0, q0),
        q0.len() > 0,
    ensures
        step_inv(
            b,
            s,
            d0,
            q0,
            d0,
            q0.subrange(1, q0.len() as int),
            q0[0].0 as int,
            q0[0].1 as int,
            at(d0, b.width as int, q0[0].0 as int, q0[0].1 as int) as int,
        ),
{
    let w = b.width as int;
    let h = b.height as int;
    let q = q0.subrange(1, q0.len() as int);
    let uc = q0[0].0 as int;
    let ur = q0[0].1 as int;
    let f = at(d0, w, uc, ur) as int;
    assert(only_new_at(b, d0, d0, f)) by {
        reveal(only_new_at);
    }
    assert(queue_within(b, d0, q, f)) by {
        reveal(queue_within);
        reveal(queue_sorted);
        reveal(queue_assigned);
        assert forall|j: int| #![trigger q[j]] 0 <= j < q.len() implies in_board(w, h, q[j].0 as int, q[j].1 as int)
            && f <= at(d0, w, q[j].0 as int, q[j].1 as int) && at(d0, w, q[j].0 as int, q[j].1 as int) <= f + 1 by {
            assert(q[j] == q0[j + 1]);
            assert(at(d0, w, q0[0].0 as int, q0[0].1 as int) <= at(
                d0,
                w,
                q0[j + 1].0 as int,
                q0[j + 1].1 as int,
            ));
            assert(at(d0, w, q0[j + 1].0 as int, q0[j + 1].1 as int) <= at(
                d0,
                w,
                q0[q0.len() - 1].0 as int,
                q0[q0.len() - 1].1 as int,
            ));
            assert(in_board(w, h, q0[j + 1].0 as int, q0[j + 1].1 as int));
        }
    }
    assert(queue_sorted(b, d0, q)) by {
        reveal(queue_sorted);
        assert forall|j1: int, j2: int| 0 <= j1 <= j2 < q.len() implies #[trigger] at(
            d0,
            w,
            q[j1].0 as int,
            q[j1].1 as int,
        ) <= #[trigger] at(d0, w, q[j2].0 as int, q[j2].1 as int) by {
            assert(q[j1] == q0[j1 + 1]);
            assert(q[j2] == q0[j2 + 1]);
            assert(at(d0, w, q0[j1 + 1].0 as int, q0[j1 + 1].1 as int) <= at(
                d0,
                w,
                q0[j2 + 1].0 as int,
                q0[j2 + 1].1 as int,
            ));
        }
    }
    assert(frontier_queued_but(b, d0, q, uc, ur)) by {
        reveal(frontier_queued_but);
        assert forall|c: int, r: int, c2: int, r2: int|
            in_board(w, h, c, r) && in_board(w, h, c2, r2) && manhattan(c, r, c2, r2) == 1
                && #[trigger] at(d0, w, c, r) == usize::MAX && #[trigger] at(d0, w, c2, r2)
                != usize::MAX implies q.contains((c2 as usize, r2 as usize)) || (c2 == uc && r2
            == ur) by {
            assert(q0.contains((c2 as usize, r2 as usize)) || (c2 == -1 && r2 == -1));
            let k = choose|k: int| 0 <= k < q0.len() && q0[k] == (c2 as usize, r2 as usize);
            if k > 0 {
                assert(q[k - 1] == q0[k]);
            }
        }
    }
}

/// Assigning `f + 1` to an unassigned neighbor `(vc, vr)` of `(uc, ur)` and
/// queueing it keeps the step invariants.
proof fn lemma_visit(
    b: BoardSnapshot,
    s: i8,
    d0: Seq<usize>,
    q0: Seq<(usize, usize)>,
    d: Seq<usize>,
    q: Seq<(usize, usize)>,
    uc: int,
    ur: int,
    f: int,
    witness: (int, int),
    vc: int,
    vr: int,
)
    requires
        step_inv(b, s, d0, q0, d, q, uc, ur, f),
        far_from_stones(b, s, d0, f),
        is_target(b, s, witness.0, witness.1),
        manhattan(uc, ur, witness.0, witness.1) == f,
        f + 1 < usize::MAX,
        in_board(b.width as int, b.height as int, uc, ur),
        in_board(b.width as int, b.height as int, vc, vr),
        manhattan(uc, ur, vc, vr) == 1,
        at(d, b.width as int, vc, vr) == usize::MAX,
    ensures
        step_inv(
            b,
            s,
            d0,
            q0,
            d.update(slot(b.width as int, vc, vr), (f + 1) as usize),
            q.push((vc as usize, vr as usize)),
            uc,
            ur,
            f,
        ),
{
    let w = b.width as int;
    let h = b.height as int;
    let nd = d.update(slot(w, vc, vr), (f + 1) as usize);
    let nq = q.push((vc as usize, vr as usize));
    lemma_slot(w, h, vc, vr);
    lemma_at_update(d, w, h, vc, vr, (f + 1) as usize);
    lemma_unassigned_count_assign(d, slot(w, vc, vr), (f + 1) as usize);
    assert(at(d0, w, vc, vr) == usize::MAX) by {
        reveal(only_new_at);
    }
    assert(only_new_at(b, d0, nd, f)) by {
        reveal(only_new_at);
        assert forall|c: int, r: int| in_board(w, h, c, r) implies (#[trigger] at(nd, w, c, r)
            == at(d0, w, c, r) || (at(d0, w, c, r) == usize::MAX && at(nd, w, c, r) == f + 1)) by {
            if c != vc || r != vr {
                assert(at(nd, w, c, r) == at(d, w, c, r));
            }
        }
    }
    assert(exact_where_assigned(b, s, nd)) by {
        reveal(exact_where_assigned);
        reveal(far_from_stones);
        assert(manhattan(vc, vr, witness.0, witness.1) > f);
        assert forall|tc: int, tr: int| #[trigger] is_target(b, s, tc, tr) implies manhattan(
            vc,
            vr,
            tc,
            tr,
        ) >= f + 1 by {}
        assert(nearest_distance(b, s, vc, vr, f + 1));
        assert forall|c: int, r: int|
            in_board(w, h, c, r) && #[trigger] at(nd, w, c, r) != usize::MAX implies nearest_distance(
            b,
            s,
            c,
            r,
            at(nd, w, c, r) as int,
        ) by {
            if c != vc || r != vr {
                assert(at(nd, w, c, r) == at(d, w, c, r));
            }
        }
    }
    assert(queue_within(b, nd, nq, f)) by {
        reveal(queue_within);
        assert forall|j: int| #![trigger nq[j]] 0 <= j < nq.len() implies in_board(
            w,
            h,
            nq[j].0 as int,
            nq[j].1 as int,
        ) && f <= at(nd, w, nq[j].0 as int, nq[j].1 as int) && at(nd, w, nq[j].0 as int, nq[j].1 as int) <= f + 1 by {
            if j < q.len() {
                assert(nq[j] == q[j]);
                assert(f <= at(d, w, q[j].0 as int, q[j].1 as int) <= f + 1);
            }
        }
    }
    assert(queue_sorted(b, nd, nq)) by {
        reveal(queue_sorted);
        reveal(queue_within);
        assert forall|j1: int, j2: int| 0 <= j1 <= j2 < nq.len() implies #[trigger] at(
            nd,
            w,
            nq[j1].0 as int,
            nq[j1].1 as int,
        ) <= #[trigger] at(nd, w, nq[j2].0 as int, nq[j2].1 as int) by {
            assert(f <= at(nd, w, nq[j1].0 as int, nq[j1].1 as int) <= f + 1);
            if j2 < q.len() {
                assert(nq[j1] == q[j1]);
                assert(nq[j2] == q[j2]);
                assert(f <= at(d, w, q[j1].0 as int, q[j1].1 as int) <= f + 1);
                assert(f <= at(d, w, q[j2].0 as int, q[j2].1 as int) <= f + 1);
                assert(at(d, w, q[j1].0 as int, q[j1].1 as int) <= at(
                    d,
                    w,
                    q[j2].0 as int,
                    q[j2].1 as int,
                ));
            }
        }
    }
    assert(frontier_queued_but(b, nd, nq, uc, ur)) by {
        reveal(frontier_queued_but);
        assert forall|c: int, r: int, c2: int, r2: int|
            in_board(w, h, c, r) && in_board(w, h, c2, r2) && manhattan(c, r, c2, r2) == 1
                && #[trigger] at(nd, w, c, r) == usize::MAX && #[trigger] at(nd, w, c2, r2)
                != usize::MAX implies nq.contains((c2 as usize, r2 as usize)) || (c2 == uc && r2
            == ur) by {
            if c2 == vc && r2 == vr {
                assert(nq[nq.len() - 1] == (c2 as usize, r2 as usize));
            } else {
                assert(at(d, w, c2, r2) != usize::MAX);
                assert(at(d, w, c, r) == usize::MAX);
                if q.contains((c2 as usize, r2 as usize)) {
                    let j = choose|j: int| 0 <= j < q.len() && q[j] == (c2 as usize, r2 as usize);
                    assert(nq[j] == q[j]);
                }
            }
        }
    }
}

/// Once every neighbor of `(uc, ur)` on the board is assigned, the step
/// restores the search invariants.
proof fn lemma_step_ends(
    b: BoardSnapshot,
    s: i8,
    d0: Seq<usize>,
    q0: Seq<(usize, usize)>,
    d: Seq<usize>,
    q: Seq<(usize, usize)>,
    uc: int,
    ur: int,
    f: int,
)
    requires
        field_inv(b, s, d0, q0),
        step_inv(b, s, d0, q0, d, q, uc, ur, f),
        f + 1 < usize::MAX,
        in_board(b.width as int, b.height as int, uc, ur),
        in_board(b.width as int, b.height as int, uc - 1, ur) ==> at(d, b.width as int, uc - 1, ur)
            != usize::MAX,
        in_board(b.width as int, b.height as int, uc + 1, ur) ==> at(d, b.width as int, uc + 1, ur)
            != usize::MAX,
        in_board(b.width as int, b.height as int, uc, ur - 1) ==> at(d, b.width as int, uc, ur - 1)
            != usize::MAX,
        in_board(b.width as int, b.height as int, uc, ur + 1) ==> at(d, b.width as int, uc, ur + 1)
            != usize::MAX,
    ensures
        field_inv(b, s, d, q),
        2 * unassigned_count(d) + q.len() < 2 * unassigned_count(d0) + q0.len(),
{
    let w = b.width as int;
    let h = b.height as int;
    assert(targets_assigned(b, s, d)) by {
        reveal(targets_assigned);
        reveal(only_new_at);
        assert forall|c: int, r: int| #[trigger] is_target(b, s, c, r) implies at(d, w, c, r)
            != usize::MAX by {
            assert(at(d0, w, c, r) != usize::MAX);
        }
    }
    assert(queue_assigned(b, d, q)) by {
        reveal(queue_assigned);
        reveal(queue_within);
        assert forall|k: int| #![trigger q[k]] 0 <= k < q.len() implies in_board(
            w,
            h,
            q[k].0 as int,
            q[k].1 as int,
        ) && at(d, w, q[k].0 as int, q[k].1 as int) != usize::MAX by {}
    }
    assert(frontier_queued(b, d, q)) by {
        reveal(frontier_queued_but);
        assert forall|c: int, r: int, c2: int, r2: int|
            in_board(w, h, c, r) && in_board(w, h, c2, r2) && manhattan(c, r, c2, r2) == 1
                && #[trigger] at(d, w, c, r) == usize::MAX && #[trigger] at(d, w, c2, r2)
                != usize::MAX implies q.contains((c2 as usize, r2 as usize)) || (c2 == -1 && r2
            == -1) by {
            if c2 == uc && r2 == ur {
                assert(c == uc - 1 || c == uc + 1 || r == ur - 1 || r == ur + 1);
            }
        }
    }
    if q.len() > 0 {
        reveal(queue_within);
        assert(f <= at(d, w, q[0].0 as int, q[0].1 as int));
        assert(at(d, w, q[q.len() - 1].0 as int, q[q.len() - 1].1 as int) <= f + 1);
    }
}

/// An empty queue after the search leaves the exact distances everywhere,
/// or nothing assigned when there is no stone of the color.
proof fn lemma_search_done(b: BoardSnapshot, s: i8, d: Seq<usize>, q: Seq<(usize, usize)>)
    requires
        field_inv(b, s, d, q),
        q.len() == 0,
    ensures
        forall|c: int, r: int|
            in_board(b.width as int, b.height as int, c, r) ==> {
                let v = #[trigger] d[cell(b.width as int, c, r)];
                if has_target(b, s) {
                    nearest_distance(b, s, c, r, v as int)
                } else {
                    v == usize::MAX
                }
            },
{
    let w = b.width as int;
    let h = b.height as int;
    assert forall|c: int, r: int| in_board(w, h, c, r) implies {
        let v = #[trigger] d[cell(w, c, r)];
        if has_target(b, s) {
            nearest_distance(b, s, c, r, v as int)
        } else {
            v == usize::MAX
        }
    } by {
        lemma_slot(w, h, c, r);
        assert(at(d, w, c, r) == d[cell(w, c, r)]);
        if has_target(b, s) {
            let (tc, tr) = choose|tc: int, tr: int| #[trigger] is_target(b, s, tc, tr);
            lemma_all_assigned(b, s, d, q, c, r, tc, tr);
        }
        reveal(exact_where_assigned);
        if !has_target(b, s) && at(d, w, c, r) != usize::MAX {
            assert(nearest_distance(b, s, c, r, at(d, w, c, r) as int));
        }
    }
}

/// Assigns `current + 1` to the intersection `(next_column, next_row)` and
/// queues it, when it is on the board and still unassigned.
fn visit_neighbor(
    board: &BoardSnapshot,
    distances: &mut Vec<usize>,
    queue: &mut VecDeque<(usize, usize)>,
    next_column: usize,
    next_row: usize,
    current: usize,
    Ghost(s): Ghost<i8>,
    Ghost(d0): Ghost<Seq<usize>>,
    Ghost(q0): Ghost<Seq<(usize, usize)>>,
    Ghost(uc): Ghost<int>,
    Ghost(ur): Ghost<int>,
    Ghost(witness): Ghost<(int, int)>,
)
    requires
        board.width * board.height < usize::MAX,
        old(distances)@.len() == board.width * board.height,
        step_inv(*board, s, d0, q0, old(distances)@, old(queue)@, uc, ur, current as int),
        far_from_stones(*board, s, d0, current as int),
        is_target(*board, s, witness.0, witness.1),
        manhattan(uc, ur, witness.0, witness.1) == current,
        current + 1 < usize::MAX,
        in_board(board.width as int, board.height as int, uc, ur),
        next_column < board.width && next_row < board.height ==> manhattan(
            uc,
            ur,
            next_column as int,
            next_row as int,
        ) == 1,
    ensures
        final(distances)@.len() == board.width * board.height,
        step_inv(*board, s, d0, q0, final(distances)@, final(queue)@, uc, ur, current as int),
        next_column < board.width && next_row < board.height ==> at(
            final(distances)@,
            board.width as int,
            next_column as int,
            next_row as int,
        ) != usize::MAX,
        forall|c: int, r: int|
            in_board(board.width as int, board.height as int, c, r) && at(
                old(distances)@,
                board.width as int,
                c,
                r,
            ) != usize::MAX ==> #[trigger] at(final(distances)@, board.width as int, c, r)
                != usize::MAX,
{
    let ghost w = board.width as int;
    let ghost h = board.height as int;
    if next_column < board.width && next_row < board.height {
        let ghost vc = next_column as int;
        let ghost vr = next_row as int;
        proof {
            lemma_slot(w, h, vc, vr);
        }
        let idx = next_row * board.width + next_column;
        if distances[idx] == usize::MAX {
            proof {
                lemma_visit(
                    *board,
                    s,
                    d0,
                    q0,
                    distances@,
                    queue@,
                    uc,
                    ur,
                    current as int,
                    witness,
                    vc,
                    vr,
                );
                lemma_at_update(distances@, w, h, vc, vr, (current + 1) as usize);
            }
            distances.set(idx, current + 1);
            queue.push_back((next_column, next_row));
        }
    }
}

/// Distance 0 at every stone of sign `target_sign` and unassigned
/// (`usize::MAX`) elsewhere, with those stones queued in row-major order.
fn seed_distance_field(board: &BoardSnapshot, target_sign: i8) -> (seeded: (
    Vec<usize>,
    VecDeque<(usize, usize)>,
))
    requires
        board.wf(),
        board.width * board.height < usize::MAX,
    ensures
        seeded.0@.len() == board.width * board.height,
        forall|c: int, r: int|
            in_board(board.width as int, board.height as int, c, r) ==> #[trigger] at(
                seeded.0@,
                board.width as int,
                c,
                r,
            ) == if is_target(*board, target_sign, c, r) {
                0
            } else {
                usize::MAX
            },
        forall|k: int|
            0 <= k < seeded.1@.len() ==> is_target(
                *board,
                target_sign,
                seeded.1@[k].0 as int,
                seeded.1@[k].1 as int,
            ),
        forall|c: int, r: int| #[trigger]
            is_target(*board, target_sign, c, r) ==> seeded.1@.contains((c as usize, r as usize)),
{
    let width = board.width;
    let height = board.height;
    let ghost w = width as int;
    let ghost h = height as int;
    let ghost b = *board;
    let ghost s = target_sign;
    let total = width * height;
    let mut distances: Vec<usize> = Vec::new();
    while distances.len() < total
        invariant
            total == width * height,
            distances@.len() <= total,
            forall|i: int| 0 <= i < distances@.len() ==> distances@[i] == usize::MAX,
        decreases total - distances@.len(),
    {
        distances.push(usize::MAX);
    }
    let mut queue: VecDeque<(usize, usize)> = VecDeque::new();
    assert forall|c: int, r: int| in_board(w, h, c, r) implies #[trigger] at(distances@, w, c, r)
        == usize::MAX by {
        lemma_slot(w, h, c, r);
    }
    let mut row: usize = 0;
    while row < height
        invariant
            b == *board,
            s == target_sign,
            w == width && h == height,
            width == board.width && height == board.height,
            board.wf(),
            width * height < usize::MAX,
            row <= height,
            distances@.len() == w * h,
            forall|c: int, r: int|
                in_board(w, h, c, r) ==> #[trigger] at(distances@, w, c, r) == if r < row
                    && is_target(b, s, c, r) {
                    0
                } else {
                    usize::MAX
                },
            forall|k: int|
                0 <= k < queue@.len() ==> is_target(b, s, queue@[k].0 as int, queue@[k].1 as int)
                    && queue@[k].1 < row,
            forall|c: int, r: int|
                #[trigger] is_target(b, s, c, r) && r < row ==> queue@.contains(
                    (c as usize, r as usize),
                ),
        decreases height - row,
    {
        assert(board.sign_map@[row as int]@.len() >= width);
        let mut column: usize = 0;
        while column < width
            invariant
                b == *board,
                s == target_sign,
                w == width && h == height,
                width == board.width && height == board.height,
                board.wf(),
                width * height < usize::MAX,
                row < height,
                column <= width,
                board.sign_map@[row as int]@.len() >= width,
                distances@.len() == w * h,
                forall|c: int, r: int|
                    in_board(w, h, c, r) ==> #[trigger] at(distances@, w, c, r) == if (r < row || (r
                        == row && c < column)) && is_target(b, s, c, r) {
                        0
                    } else {
                        usize::MAX
                    },
                forall|k: int|
                    0 <= k < queue@.len() ==> is_target(b, s, queue@[k].0 as int, queue@[k].1 as int)
                        && (queue@[k].1 < row || (queue@[k].1 == row && queue@[k].0 < column)),
                forall|c: int, r: int|
                    #[trigger] is_target(b, s, c, r) && (r < row || (r == row && c < column))
                        ==> queue@.contains((c as usize, r as usize)),
            decreases width - column,
        {
            proof {
                lemma_slot(w, h, column as int, row as int);
            }
            if board.sign_map[row][column] == target_sign {
                let idx = row * width + column;
                proof {
                    lemma_at_update(distances@, w, h, column as int, row as int, 0);
                }
                distances.set(idx, 0);
                let ghost before = queue@;
                queue.push_back((column, row));
                assert forall|c: int, r: int|
                    #[trigger] is_target(b, s, c, r) && (r < row || (r == row && c < column + 1))
                        implies queue@.contains((c as usize, r as usize)) by {
                    if r == row && c == column {
                        assert(queue@[queue@.len() - 1] == (c as usize, r as usize));
                    } else {
                        let k = choose|k: int|
                            0 <= k < before.len() && before[k] == (c as usize, r as usize);
                        assert(queue@[k] == before[k]);
                    }
                }
                assert forall|k: int| 0 <= k < queue@.len() implies is_target(
                    b,
                    s,
                    queue@[k].0 as int,
                    queue@[k].1 as int,
                ) && (queue@[k].1 < row || (queue@[k].1 == row && queue@[k].0 < column + 1)) by {
                    if k < before.len() {
                        assert(queue@[k] == before[k]);
                    }
                }
            } else {
                assert(!is_target(b, s, column as int, row as int));
            }
            assert forall|c: int, r: int| in_board(w, h, c, r) implies #[trigger] at(
                distances@,
                w,
                c,
                r,
            ) == if (r < row || (r == row && c < column + 1)) && is_target(b, s, c, r) {
                0
            } else {
                usize::MAX
            } by {}
            column += 1;
        }
        row += 1;
    }
    (distances, queue)
}

/// Steps from every intersection to the nearest stone of sign `target_sign`
/// (`usize::MAX` everywhere when there is none), in row-major order, computed
/// by a breadth-first search from all those stones at once.
pub fn ownership_distance_field(board: &BoardSnapshot, target_sign: i8) -> (distances: Vec<usize>)
    requires
        board.wf(),
        board.width * board.height < usize::MAX,
    ensures
        distances@.len() == board.width * board.height,
        forall|c: int, r: int|
            in_board(board.width as int, board.height as int, c, r) ==> {
                let d = #[trigger] distances@[cell(board.width as int, c, r)];
                if has_target(*board, target_sign) {
                    nearest_distance(*board, target_sign, c, r, d as int)
                } else {
                    d == usize::MAX
                }
            },
{
    let width = board.width;
    let ghost b = *board;
    let ghost s = target_sign;
    let (mut distances, mut queue) = seed_distance_field(board, target_sign);
    proof {
        lemma_seeded(b, s, distances@, queue@);
    }
    loop
        invariant_except_break
            b == *board,
            width == board.width,
            board.width * board.height < usize::MAX,
            distances@.len() == board.width * board.height,
            field_inv(b, s, distances@, queue@),
        ensures
            field_inv(b, s, distances@, queue@),
            queue@.len() == 0,
        decreases 2 * unassigned_count(distances@) + queue@.len(),
    {
        let ghost d0 = distances@;
        let ghost q0 = queue@;
        let (column, row) = match queue.pop_front() {
            Some(front) => front,
            None => {
                break;
            },
        };
        let ghost uc = column as int;
        let ghost ur = row as int;
        let ghost witness = lemma_front(b, s, d0, q0);
        proof {
            lemma_step_begins(b, s, d0, q0);
            lemma_slot(board.width as int, board.height as int, uc, ur);
        }
        let current = distances[row * width + column];
        if column > 0 {
            visit_neighbor(
                board,
                &mut distances,
                &mut queue,
                column - 1,
                row,
                current,
                Ghost(s),
                Ghost(d0),
                Ghost(q0),
                Ghost(uc),
                Ghost(ur),
                Ghost(witness),
            );
        }
        visit_neighbor(
            board,
            &mut distances,
            &mut queue,
            column + 1,
            row,
            current,
            Ghost(s),
            Ghost(d0),
            Ghost(q0),
            Ghost(uc),
            Ghost(ur),
            Ghost(witness),
        );
        if row > 0 {
            visit_neighbor(
                board,
                &mut distances,
                &mut queue,
                column,
                row - 1,
                current,
                Ghost(s),
                Ghost(d0),
                Ghost(q0),
                Ghost(uc),
                Ghost(ur),
                Ghost(witness),
            );
        }
        visit_neighbor(
            board,
            &mut distances,
            &mut queue,
            column,
            row + 1,
            current,
            Ghost(s),
            Ghost(d0),
            Ghost(q0),
            Ghost(uc),
            Ghost(ur),
            Ghost(witness),
        );
        proof {
            lemma_step_ends(b, s, d0, q0, distances@, queue@, uc, ur, current as int);
        }
    }
    proof {
        lemma_search_done(b, s, distances@, queue@);
    }
    distances
}

/// What decides the estimated ownership of one intersection.
#[derive(Clone, Copy, Debug, PartialEq, Eq)]
pub enum PointInfluence {
    /// A black stone stands there.
    BlackStone,
    /// A white stone stands there.
    WhiteStone,
    /// No stone of either color is on the board.
    Unreached,
    /// Steps to the nearest black and white stone; `usize::MAX` for a color
    /// with no stone on the board.
    Distances { black: usize, white: usize },
}

/// `d` is what the distance field of sign `s` holds at `(c, r)`.
pub open spec fn field_value(b: BoardSnapshot, s: i8, c: int, r: int, d: usize) -> bool {
    if has_target(b, s) {
        nearest_distance(b, s, c, r, d as int)
    } else {
        d == usize::MAX
    }
}

/// The influence at `(c, r)` that the estimate is made from.
pub open spec fn influence_matches(b: BoardSnapshot, c: int, r: int, p: PointInfluence) -> bool {
    if b.sign(c, r) == 1 {
        p == PointInfluence::BlackStone
    } else if b.sign(c, r) == -1 {
        p == PointInfluence::WhiteStone
    } else if !has_target(b, 1i8) && !has_target(b, -1i8) {
        p == PointInfluence::Unreached
    } else {
        p matches PointInfluence::Distances { black, white } && field_value(b, 1i8, c, r, black)
            && field_value(b, -1i8, c, r, white)
    }
}

/// A nearest distance on a board of `w * h` intersections never reaches
/// `usize::MAX`.
proof fn lemma_distance_below_max(b: BoardSnapshot, s: i8, c: int, r: int, d: int)
    requires
        in_board(b.width as int, b.height as int, c, r),
        nearest_distance(b, s, c, r, d),
        b.width * b.height < usize::MAX,
    ensures
        d < usize::MAX,
{
    let w = b.width as int;
    let h = b.height as int;
    let (tc, tr) = choose|tc: int, tr: int| #[trigger] is_target(b, s, tc, tr) && manhattan(c, r, tc, tr) == d;
    assert((w - 1) + (h - 1) < w * h) by (nonlinear_arith)
        requires
            1 <= w,
            1 <= h,
    ;
}

proof fn lemma_cell_before(w: int, c: int, r: int, column: int, row: int)
    requires
        0 <= c < w,
        0 <= column,
        0 <= r,
        r < row || (r == row && c < column),
    ensures
        cell(w, c, r) < cell(w, column, row),
{
    assert(r * w + c < row * w + column) by (nonlinear_arith)
        requires
            0 <= c < w,
            0 <= column,
            0 <= r,
            r < row || (r == row && c < column),
    ;
}

/// The influence behind the estimated ownership of every intersection, in
/// row-major order: the stone on it, or the steps to the nearest black and
/// white stones. `None` for a board without intersections.
pub fn point_influences(board: &BoardSnapshot) -> (influences: Option<Vec<PointInfluence>>)
    requires
        board.wf(),
        board.width * board.height < usize::MAX,
    ensures
        influences is None <==> (board.width == 0 || board.height == 0),
        influences matches Some(v) ==> v@.len() == board.width * board.height && forall|c: int, r: int|
            in_board(board.width as int, board.height as int, c, r) ==> influence_matches(
                *board,
                c,
                r,
                #[trigger] v@[cell(board.width as int, c, r)],
            ),
{
    let width = board.width;
    let height = board.height;
    if width == 0 || height == 0 {
        return None;
    }
    let ghost b = *board;
    let ghost w = width as int;
    let ghost h = height as int;
    let black = ownership_distance_field(board, 1);
    let white = ownership_distance_field(board, -1);
    let mut influences: Vec<PointInfluence> = Vec::new();
    let mut row: usize = 0;
    while row < height
        invariant
            b == *board,
            w == width && h == height,
            width == board.width && height == board.height,
            board.wf(),
            width * height < usize::MAX,
            row <= height,
            black@.len() == w * h && white@.len() == w * h,
            forall|c: int, r: int|
                in_board(w, h, c, r) ==> field_value(b, 1i8, c, r, #[trigger] black@[cell(w, c, r)]),
            forall|c: int, r: int|
                in_board(w, h, c, r) ==> field_value(b, -1i8, c, r, #[trigger] white@[cell(w, c, r)]),
            influences@.len() == row * w,
            forall|c: int, r: int|
                0 <= c < w && 0 <= r < row ==> influence_matches(
                    b,
                    c,
                    r,
                    #[trigger] influences@[cell(w, c, r)],
                ),
        decreases height - row,
    {
        assert(board.sign_map@[row as int]@.len() >= width);
        let mut column: usize = 0;
        while column < width
            invariant
                b == *board,
                w == width && h == height,
                width == board.width && height == board.height,
                board.wf(),
                width * height < usize::MAX,
                row < height,
                column <= width,
                board.sign_map@[row as int]@.len() >= width,
                black@.len() == w * h && white@.len() == w * h,
                forall|c: int, r: int|
                    in_board(w, h, c, r) ==> field_value(b, 1i8, c, r, #[trigger] black@[cell(w, c, r)]),
                forall|c: int, r: int|
                    in_board(w, h, c, r) ==> field_value(
                        b,
                        -1i8,
                        c,
                        r,
                        #[trigger] white@[cell(w, c, r)],
                    ),
                influences@.len() == row * w + column,
                forall|c: int, r: int|
                    0 <= c < w && 0 <= r && (r < row || (r == row && c < column)) ==> influence_matches(
                        b,
                        c,
                        r,
                        #[trigger] influences@[cell(w, c, r)],
                    ),
            decreases width - column,
        {
            proof {
                lemma_slot(w, h, column as int, row as int);
            }
            let idx = row * width + column;
            let stone = board.sign_map[row][column];
            let point = if stone == 1 {
                PointInfluence::BlackStone
            } else if stone == -1 {
                PointInfluence::WhiteStone
            } else if black[idx] == usize::MAX && white[idx] == usize::MAX {
                PointInfluence::Unreached
            } else {
                PointInfluence::Distances { black: black[idx], white: white[idx] }
            };
            proof {
                let cc = column as int;
                let rr = row as int;
                assert(field_value(b, 1i8, cc, rr, black@[cell(w, cc, rr)]));
                assert(field_value(b, -1i8, cc, rr, white@[cell(w, cc, rr)]));
                if has_target(b, 1i8) {
                    lemma_distance_below_max(b, 1i8, cc, rr, black@[cell(w, cc, rr)] as int);
                }
                if has_target(b, -1i8) {
                    lemma_distance_below_max(b, -1i8, cc, rr, white@[cell(w, cc, rr)] as int);
                }
                assert(influence_matches(b, cc, rr, point));
            }
            let ghost before = influences@;
            influences.push(point);
            proof {
                assert forall|c: int, r: int|
                    0 <= c < w && 0 <= r && (r < row || (r == row && c < column + 1)) implies influence_matches(
                    b,
                    c,
                    r,
                    #[trigger] influences@[cell(w, c, r)],
                ) by {
                    if r < row || (r == row && c < column) {
                        lemma_cell_before(w, c, r, column as int, row as int);
                        assert(influences@[cell(w, c, r)] == before[cell(w, c, r)]);
                    }
                }
            }
            column += 1;
        }
        assert((row + 1) * w == row * w + w) by (nonlinear_arith);
        row += 1;
    }
    assert(h * w == w * h) by (nonlinear_arith);
    assert forall|c: int, r: int| in_board(w, h, c, r) implies influence_matches(
        *board,
        c,
        r,
        #[trigger] influences@[cell(w, c, r)],
    ) by {}
    Some(influences)
}

} // verus!
