//! From points to thick-line geometry.
//!
//! A trace is a polyline through the points of the input, in the order in
//! which they arrive. Each of its segments is drawn as a quad: four vertices
//! that carry the same two end points and differ in their corner number. The
//! generator here hands those vertices out one by one, a whole quad or none.
use vstd::prelude::*;
use std::collections::VecDeque;

verus! {

/// One corner of the quad that stands for a segment.
#[derive(Debug, PartialEq)]
pub struct Vertex<T> {
    /// Where the segment begins.
    pub start: (T, T),
    /// Where the segment ends.
    pub end: (T, T),
    /// Which corner of the quad this is, from 0 to 3.
    pub idx: u32,
}

impl<T: Copy> Clone for Vertex<T> {
    fn clone(&self) -> (r: Self)
        ensures
            r == *self,
    {
        *self
    }
}

impl<T: Copy> Copy for Vertex<T> {

}

/// Number of vertices that the trace through `n` points is drawn with: four
/// for each segment, and a single point makes no segment.
pub open spec fn quad_vertex_count(n: nat) -> nat {
    if n == 0 {
        0
    } else {
        (4 * (n - 1)) as nat
    }
}

/// Vertex number `i` of the trace through `points`: corner `i % 4` of the
/// quad of segment `i / 4`, which runs from point `i / 4` to the next.
pub open spec fn quad_vertex<T>(points: Seq<(T, T)>, i: int) -> Vertex<T> {
    Vertex { start: points[i / 4], end: points[i / 4 + 1], idx: (i % 4) as u32 }
}

/// The vertices of the trace through `points`, in drawing order.
pub open spec fn quads<T>(points: Seq<(T, T)>) -> Seq<Vertex<T>> {
    Seq::new(quad_vertex_count(points.len()), |i: int| quad_vertex(points, i))
}

/// The trace through `n` points has four vertices for each point after the
/// first, and none where there is no point at all.
pub proof fn lemma_vertex_count<T>(points: Seq<(T, T)>)
    ensures
        quads(points).len() == vstd::math::max(0, (points.len() - 1) * 4),
{
}

/// The four vertices of quad `q` follow one another, carry the two end points
/// of segment `q`, and count their corners 0, 1, 2, 3.
pub proof fn lemma_quad_shape<T>(points: Seq<(T, T)>, q: int)
    requires
        0 <= q,
        q + 1 < points.len(),
    ensures
        4 * q + 3 < quads(points).len(),
        forall|c: int|
            0 <= c < 4 ==> #[trigger] quads(points)[4 * q + c] == (Vertex {
                start: points[q],
                end: points[q + 1],
                idx: c as u32,
            }),
{
    assert forall|c: int| 0 <= c < 4 implies #[trigger] quads(points)[4 * q + c] == (Vertex {
        start: points[q],
        end: points[q + 1],
        idx: c as u32,
    }) by {
        assert((4 * q + c) / 4 == q);
        assert((4 * q + c) % 4 == c);
    }
}

/// The trace is connected: each quad begins where the one before it ends.
pub proof fn lemma_trace_connected<T>(points: Seq<(T, T)>, i: int)
    requires
        0 <= i,
        i + 4 < quads(points).len(),
    ensures
        quads(points)[i + 4].start == quads(points)[i].end,
{
    assert((i + 4) / 4 == i / 4 + 1);
}

/// Points that come later change nothing of the vertices that the earlier
/// points gave: the trace through `first + more` begins with the trace
/// through `first`.
pub proof fn lemma_trace_grows<T>(first: Seq<(T, T)>, more: Seq<(T, T)>)
    ensures
        quads(first).len() <= quads(first + more).len(),
        quads(first + more).take(quads(first).len() as int) == quads(first),
{
    let whole = first + more;
    let n = quads(first).len() as int;
    assert forall|i: int| 0 <= i < n implies quads(whole)[i] == quads(first)[i] by {
        assert(i / 4 + 1 < first.len());
        assert(whole[i / 4] == first[i / 4]);
        assert(whole[i / 4 + 1] == first[i / 4 + 1]);
    }
    assert(quads(whole).take(n) =~= quads(first));
}

/// A pull-based generator of quad vertices over a growing input of points.
///
/// It is described by the points taken in so far and by the number of
/// vertices handed out so far: vertex number `k` handed out is vertex `k` of
/// `quads` of those points, whatever is fed in later.
pub struct Vertices<T> {
    /// The corner to hand out next.
    idx: u32,
    /// The points from the start of the current segment on.
    held: VecDeque<(T, T)>,
    /// Every point taken in so far.
    taken: Ghost<Seq<(T, T)>>,
    /// Number of vertices handed out so far.
    given: Ghost<nat>,
}

impl<T> Vertices<T> {
    #[verifier::type_invariant]
    spec fn wf(self) -> bool {
        &&& self.given@ <= quad_vertex_count(self.taken@.len())
        &&& self.idx == self.given@ % 4
        &&& self.held@ == self.taken@.skip(self.given@ as int / 4)
    }

    /// Every point taken in so far, the first one first.
    pub closed spec fn points(self) -> Seq<(T, T)> {
        self.taken@
    }

    /// How many vertices have been handed out so far.
    pub closed spec fn emitted(self) -> nat {
        self.given@
    }

    /// The vertices still to come if no more points are fed in.
    pub open spec fn remaining(self) -> Seq<Vertex<T>> {
        quads(self.points()).skip(self.emitted() as int)
    }
}

impl<T: Copy> Vertices<T> {
    /// Hands out the next vertex, or `None` when the points taken in so far
    /// give no further one. A `None` changes nothing.
    pub fn next(&mut self) -> (r: Option<Vertex<T>>)
        ensures
            final(self).points() == old(self).points(),
            old(self).emitted() <= quads(old(self).points()).len(),
            match r {
                Some(v) => {
                    &&& old(self).emitted() < quads(old(self).points()).len()
                    &&& v == quads(old(self).points())[old(self).emitted() as int]
                    &&& final(self).emitted() == old(self).emitted() + 1
                },
                None => {
                    &&& old(self).emitted() == quads(old(self).points()).len()
                    &&& final(self).emitted() == old(self).emitted()
                },
            },
    {
        // The state is taken out and put back whole, so that it is never seen
        // half changed.
        let mut state = Vertices::idle();
        core::mem::swap(self, &mut state);
        proof {
            use_type_invariant(&state);
        }
        let Vertices { idx, mut held, taken, given } = state;
        if held.len() < 2 {
            *self = Vertices { idx, held, taken, given };
            return None;
        }
        let v = Vertex { start: held[0], end: held[1], idx };
        let next_idx: u32 = (idx + 1) % 4;
        if next_idx == 0 {
            held.pop_front();
        }
        proof {
            let at = given@ as int / 4;
            assert(taken@.skip(at).len() >= 2);
            if next_idx == 0 {
                assert((given@ + 1) / 4 == at + 1);
                assert(held@ =~= taken@.skip(at + 1));
            } else {
                assert((given@ + 1) / 4 == at);
            }
        }
        *self = Vertices { idx: next_idx, held, taken, given: Ghost((given@ + 1) as nat) };
        Some(v)
    }

    /// Takes in the points of `batch`, behind those taken in before. What has
    /// been handed out stays as it is.
    pub fn feed(&mut self, batch: Vec<(T, T)>)
        ensures
            final(self).points() == old(self).points() + batch@,
            final(self).emitted() == old(self).emitted(),
    {
        let mut state = Vertices::idle();
        core::mem::swap(self, &mut state);
        proof {
            use_type_invariant(&state);
        }
        let Vertices { idx, mut held, taken, given } = state;
        let ghost at = given@ as int / 4;
        let mut i: usize = 0;
        while i < batch.len()
            invariant
                i <= batch.len(),
                0 <= at <= taken@.len(),
                held@ == (taken@ + batch@.take(i as int)).skip(at),
            decreases batch.len() - i,
        {
            held.push_back(batch[i]);
            i += 1;
            assert((taken@ + batch@.take(i as int)).skip(at) =~= (taken@ + batch@.take(
                i - 1,
            )).skip(at).push(batch@[i - 1]));
        }
        assert(batch@.take(i as int) =~= batch@);
        *self = Vertices { idx, held, taken: Ghost(taken@ + batch@), given };
    }

    /// How many whole quads can be handed out from the points taken in so far.
    pub fn quads_ready(&self) -> (r: usize)
        ensures
            r == self.remaining().len() / 4,
    {
        proof {
            use_type_invariant(self);
        }
        let n = self.held.len();
        if n < 2 {
            0
        } else if self.idx == 0 {
            n - 1
        } else {
            n - 2
        }
    }

    /// Hands out the vertices of the next `samples_per_frame` quads, if the
    /// points taken in so far give that many, and nothing if they do not.
    pub fn frame(&mut self, samples_per_frame: usize) -> (r: Option<Vec<Vertex<T>>>)
        ensures
            final(self).points() == old(self).points(),
            old(self).emitted() <= quads(old(self).points()).len(),
            match r {
                Some(vs) => {
                    &&& 4 * samples_per_frame <= old(self).remaining().len()
                    &&& vs@ == old(self).remaining().take(4 * samples_per_frame)
                    &&& final(self).emitted() == old(self).emitted() + 4 * samples_per_frame
                },
                None => {
                    &&& old(self).remaining().len() < 4 * samples_per_frame
                    &&& final(self).emitted() == old(self).emitted()
                },
            },
    {
        proof {
            use_type_invariant(&*self);
        }
        if self.quads_ready() < samples_per_frame {
            return None;
        }
        let ghost before = *self;
        let mut vs: Vec<Vertex<T>> = Vec::new();
        let mut quad: usize = 0;
        while quad < samples_per_frame
            invariant
                quad <= samples_per_frame,
                4 * samples_per_frame <= before.remaining().len(),
                before.emitted() <= quads(before.points()).len(),
                self.points() == before.points(),
                self.emitted() == before.emitted() + 4 * quad,
                vs@ == before.remaining().take(4 * quad),
            decreases samples_per_frame - quad,
        {
            let mut corner: usize = 0;
            while corner < 4
                invariant
                    corner <= 4,
                    quad < samples_per_frame,
                    4 * samples_per_frame <= before.remaining().len(),
                    before.emitted() <= quads(before.points()).len(),
                    self.points() == before.points(),
                    self.emitted() == before.emitted() + 4 * quad + corner,
                    vs@ == before.remaining().take(4 * quad + corner),
                decreases 4 - corner,
            {
                let ghost k = 4 * quad + corner;
                match self.next() {
                    Some(v) => {
                        vs.push(v);
                        assert(before.remaining().take(k + 1) =~= before.remaining().take(
                            k,
                        ).push(v));
                    },
                    None => {
                        assert(false);
                    },
                }
                corner += 1;
            }
            quad += 1;
        }
        Some(vs)
    }

    /// Hands out every vertex that the points taken in so far still give.
    pub fn collect(&mut self) -> (r: Vec<Vertex<T>>)
        ensures
            final(self).points() == old(self).points(),
            r@ == old(self).remaining(),
            final(self).emitted() == quads(old(self).points()).len(),
    {
        proof {
            use_type_invariant(&*self);
        }
        let ghost before = *self;
        let mut vs: Vec<Vertex<T>> = Vec::new();
        loop
            invariant
                self.points() == before.points(),
                before.emitted() <= self.emitted() <= quads(before.points()).len(),
                vs@ == before.remaining().take(self.emitted() - before.emitted()),
            ensures
                self.points() == before.points(),
                self.emitted() == quads(before.points()).len(),
                before.emitted() <= self.emitted(),
                vs@ == before.remaining().take(self.emitted() - before.emitted()),
            decreases quads(before.points()).len() - self.emitted(),
        {
            let ghost k = self.emitted() - before.emitted();
            match self.next() {
                Some(v) => {
                    vs.push(v);
                    assert(before.remaining().take(k + 1) =~= before.remaining().take(k).push(v));
                },
                None => {
                    break;
                },
            }
        }
        assert(before.remaining().take(self.emitted() - before.emitted()) =~= before.remaining());
        vs
    }

    /// A generator that has taken in no point.
    fn idle() -> (r: Self)
        ensures
            r.points() == Seq::<(T, T)>::empty(),
            r.emitted() == 0,
    {
        let held: VecDeque<(T, T)> = VecDeque::new();
        assert(Seq::<(T, T)>::empty().skip(0) =~= Seq::<(T, T)>::empty());
        Vertices { idx: 0, held, taken: Ghost(Seq::empty()), given: Ghost(0) }
    }
}

/// Pairs the samples of the left and of the right channel, one point for each
/// place that both channels have, in their order.
pub fn stereo<T: Copy>(left: &[T], right: &[T]) -> (batch: Vec<(T, T)>)
    ensures
        batch@.len() == vstd::math::min(left@.len() as int, right@.len() as int),
        forall|i: int| 0 <= i < batch@.len() ==> batch@[i] == (left@[i], right@[i]),
{
    let n = if left.len() < right.len() {
        left.len()
    } else {
        right.len()
    };
    let mut batch: Vec<(T, T)> = Vec::new();
    let mut i: usize = 0;
    while i < n
        invariant
            i <= n,
            n <= left@.len(),
            n <= right@.len(),
            batch@.len() == i,
            forall|k: int| 0 <= k < i ==> batch@[k] == (left@[k], right@[k]),
        decreases n - i,
    {
        batch.push((left[i], right[i]));
        i += 1;
    }
    batch
}

/// A generator over `points`, which has handed out nothing yet.
pub fn lines<T: Copy>(points: Vec<(T, T)>) -> (r: Vertices<T>)
    ensures
        r.points() == points@,
        r.emitted() == 0,
{
    let mut held: VecDeque<(T, T)> = VecDeque::new();
    let mut i: usize = 0;
    while i < points.len()
        invariant
            i <= points.len(),
            held@ == points@.take(i as int),
        decreases points.len() - i,
    {
        held.push_back(points[i]);
        i += 1;
        assert(points@.take(i as int) =~= points@.take(i - 1).push(points@[i - 1]));
    }
    assert(points@.take(i as int) =~= points@);
    assert(points@.skip(0) =~= points@);
    Vertices { idx: 0, held, taken: Ghost(points@), given: Ghost(0) }
}

} // verus!
