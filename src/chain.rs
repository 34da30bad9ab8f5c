use vstd::prelude::*;

use crate::trace::{after_push, Trace};

verus! {

/// Which of the two rods of the chain a body is.
#[derive(Clone, Copy, Debug, PartialEq, Eq, Structural)]
pub enum BodyRole {
    /// The rod hanging from the fixed pivot.
    Upper,
    /// The rod hanging from the free end of the upper rod.
    Lower,
}

impl BodyRole {
    /// Position of the body in the ordered pair of the chain.
    pub open spec fn spec_index(self) -> int {
        match self {
            BodyRole::Upper => 0,
            BodyRole::Lower => 1,
        }
    }

    /// Position of the body in the ordered pair of the chain.
    pub fn index(self) -> (r: usize)
        ensures
            r == self.spec_index(),
    {
        match self {
            BodyRole::Upper => 0,
            BodyRole::Lower => 1,
        }
    }
}

/// Two rods joined end to end, the upper one hanging from a fixed pivot, and
/// the path that the free end of the lower one has traced.
///
/// The bodies are held as values of `B` and the positions as values of `P`:
/// what a step computes from them is left to the caller, which hands the
/// advanced bodies and the new position of the lower free end to `record_step`.
pub struct DoublePendulum<B, P> {
    bodies: [B; 2],
    trace: Trace<P>,
}

impl<B, P> DoublePendulum<B, P> {
    /// The two bodies, upper first.
    pub closed spec fn bodies_view(&self) -> Seq<B> {
        self.bodies@
    }

    /// The positions traced by the lower free end, oldest first.
    pub closed spec fn trace_view(&self) -> Seq<P> {
        self.trace@
    }

    /// Well-formedness: the trace is within its capacity.
    pub closed spec fn wf(&self) -> bool {
        self.trace.wf()
    }

    /// A chain of `upper` and `lower` with an empty trace.
    pub fn new(upper: B, lower: B) -> (r: Self)
        ensures
            r.wf(),
            r.bodies_view() == seq![upper, lower],
            r.trace_view() == Seq::<P>::empty(),
    {
        let r = DoublePendulum { bodies: [upper, lower], trace: Trace::new() };
        proof {
            assert(r.bodies@ =~= seq![upper, lower]);
        }
        r
    }

    /// Both bodies, upper first.
    pub fn bodies(&self) -> (r: &[B; 2])
        ensures
            r@ == self.bodies_view(),
    {
        &self.bodies
    }

    /// The body that plays `role`.
    pub fn body(&self, role: BodyRole) -> (r: &B)
        ensures
            *r == self.bodies_view()[role.spec_index()],
    {
        &self.bodies[role.index()]
    }

    /// The positions traced by the lower free end, oldest first.
    pub fn trace(&self) -> (r: &[P])
        ensures
            r@ == self.trace_view(),
    {
        self.trace.as_slice()
    }

    /// Ends a step: both bodies take their advanced states and the new
    /// position of the lower free end joins the trace.
    pub fn record_step(&mut self, upper: B, lower: B, end: P)
        requires
            old(self).wf(),
        ensures
            final(self).wf(),
            final(self).bodies_view() == seq![upper, lower],
            final(self).trace_view() == after_push(old(self).trace_view(), end),
    {
        self.bodies = [upper, lower];
        self.trace.push(end);
        proof {
            assert(self.bodies@ =~= seq![upper, lower]);
        }
    }
}

} // verus!
