use vstd::prelude::*;

verus! {

/// Most recent positions that a trace keeps.
pub const TRACE_CAPACITY: usize = 200;

/// The points that remain after appending `p` to the points `s`: the new point
/// goes to the back, and once more than `TRACE_CAPACITY` points are held the
/// oldest one leaves.
pub open spec fn after_push<T>(s: Seq<T>, p: T) -> Seq<T> {
    if s.len() + 1 > TRACE_CAPACITY {
        s.push(p).skip(1)
    } else {
        s.push(p)
    }
}

/// The points that remain after appending each of `ps`, in order, to `s`.
pub open spec fn after_pushes<T>(s: Seq<T>, ps: Seq<T>) -> Seq<T>
    decreases ps.len(),
{
    if ps.len() == 0 {
        s
    } else {
        after_push(after_pushes(s, ps.drop_last()), ps.last())
    }
}

/// The last `TRACE_CAPACITY` elements of `all` (all of them while there are
/// fewer), oldest first.
pub open spec fn most_recent<T>(all: Seq<T>) -> Seq<T> {
    if all.len() <= TRACE_CAPACITY {
        all
    } else {
        all.subrange(all.len() - TRACE_CAPACITY, all.len() as int)
    }
}

/// Appending one point to the most recent points of a history gives the most
/// recent points of the longer history.
proof fn lemma_push_most_recent<T>(all: Seq<T>, p: T)
    ensures
        after_push(most_recent(all), p) == most_recent(all.push(p)),
{
    if all.len() >= TRACE_CAPACITY {
        let n = all.len() as int;
        assert(after_push(most_recent(all), p) =~= all.push(p).subrange(
            n + 1 - TRACE_CAPACITY,
            n + 1,
        ));
    } else {
        assert(after_push(most_recent(all), p) =~= most_recent(all.push(p)));
    }
}

/// Whatever was appended to a well-formed trace, in whatever number, it holds
/// exactly the most recent `TRACE_CAPACITY` points of all it has seen (all of
/// them while there are fewer), oldest first.
pub proof fn lemma_after_pushes<T>(s: Seq<T>, ps: Seq<T>)
    requires
        s.len() <= TRACE_CAPACITY,
    ensures
        after_pushes(s, ps) == most_recent(s + ps),
    decreases ps.len(),
{
    if ps.len() == 0 {
        assert(s + ps =~= s);
    } else {
        let q = ps.drop_last();
        lemma_after_pushes(s, q);
        lemma_push_most_recent(s + q, ps.last());
        assert((s + q).push(ps.last()) =~= s + ps);
    }
}

/// A trace that starts empty and has had `n` points appended holds
/// `min(n, TRACE_CAPACITY)` of them: the last ones appended, oldest first.
pub proof fn lemma_trace_after_steps<T>(ps: Seq<T>)
    ensures
        after_pushes(Seq::empty(), ps).len() == if ps.len() <= TRACE_CAPACITY {
            ps.len()
        } else {
            TRACE_CAPACITY as nat
        },
        forall|i: int|
            0 <= i < after_pushes(Seq::<T>::empty(), ps).len() ==> #[trigger] after_pushes(
                Seq::<T>::empty(),
                ps,
            )[i] == ps[ps.len() - after_pushes(Seq::<T>::empty(), ps).len() + i],
{
    lemma_after_pushes(Seq::empty(), ps);
    assert(Seq::<T>::empty() + ps =~= ps);
}

/// Appending to a full trace keeps it full, drops its oldest point, moves every
/// other point one place toward the front and puts the new one last.
pub proof fn lemma_full_trace_evicts_oldest<T>(s: Seq<T>, p: T)
    requires
        s.len() == TRACE_CAPACITY,
    ensures
        after_push(s, p).len() == TRACE_CAPACITY,
        forall|i: int| 0 <= i < TRACE_CAPACITY - 1 ==> #[trigger] after_push(s, p)[i] == s[i + 1],
        after_push(s, p).last() == p,
{
}

/// A first-in first-out history of positions that holds at most
/// `TRACE_CAPACITY` of them.
pub struct Trace<T> {
    points: Vec<T>,
}

impl<T> View for Trace<T> {
    type V = Seq<T>;

    closed spec fn view(&self) -> Seq<T> {
        self.points@
    }
}

impl<T> Trace<T> {
    /// Well-formedness: a trace never holds more than `TRACE_CAPACITY` points.
    pub open spec fn wf(&self) -> bool {
        self@.len() <= TRACE_CAPACITY
    }

    /// An empty trace.
    pub fn new() -> (r: Self)
        ensures
            r.wf(),
            r@ == Seq::<T>::empty(),
    {
        Trace { points: Vec::new() }
    }

    /// Appends `p` as the newest point, evicting the oldest one when the
    /// trace is already full.
    pub fn push(&mut self, p: T)
        requires
            old(self).wf(),
        ensures
            final(self).wf(),
            final(self)@ == after_push(old(self)@, p),
    {
        self.points.push(p);
        if self.points.len() > TRACE_CAPACITY {
            self.points.remove(0);
            proof {
                assert(self.points@ =~= old(self)@.push(p).skip(1));
            }
        }
    }

    /// Number of points held.
    pub fn len(&self) -> (r: usize)
        requires
            self.wf(),
        ensures
            r == self@.len(),
            r <= TRACE_CAPACITY,
    {
        self.points.len()
    }

    /// Whether no point is held.
    pub fn is_empty(&self) -> (r: bool)
        ensures
            r == (self@.len() == 0),
    {
        self.points.len() == 0
    }

    /// The points held, oldest first.
    pub fn as_slice(&self) -> (r: &[T])
        ensures
            r@ == self@,
    {
        self.points.as_slice()
    }
}

} // verus!
