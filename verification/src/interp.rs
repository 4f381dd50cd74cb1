//! Piecewise-linear interpolation over a sorted table.

use vstd::prelude::*;

use crate::fx::{fadd, fdiv, fmul, fsub, Fx};

verus! {

/// A one-dimensional lookup table: strictly increasing sample points `x`
/// with one value `y` each; queries clamp to the table ends and
/// interpolate linearly between neighbours.
#[derive(Clone, Debug)]
pub struct Interpolator1D {
    pub x: Vec<Fx>,
    pub y: Vec<Fx>,
}

/// Least index at or after `from` whose sample is at least `t` (the table
/// length when there is none).
pub open spec fn first_at_or_above(xs: Seq<Fx>, t: int, from: nat) -> int
    decreases xs.len() - from,
{
    if from >= xs.len() {
        xs.len() as int
    } else if xs[from as int]@ >= t {
        from as int
    } else {
        first_at_or_above(xs, t, (from + 1) as nat)
    }
}

/// A scan that starts below an index of witnesses stops at the first one.
proof fn lemma_first_scan(xs: Seq<Fx>, t: int, from: nat, i: int)
    requires
        from <= i < xs.len(),
        forall|k: int| from <= k < i ==> (#[trigger] xs[k])@ < t,
        xs[i]@ >= t,
    ensures
        first_at_or_above(xs, t, from) == i,
    decreases i - from,
{
    if from < i {
        lemma_first_scan(xs, t, (from + 1) as nat, i);
    }
}

/// The interpolated value: clamped outside the table, linear between the
/// bracketing samples inside it.
pub open spec fn interpolate_spec(xs: Seq<Fx>, ys: Seq<Fx>, t: int) -> int {
    let last = xs.len() - 1;
    if t <= xs[0]@ {
        ys[0]@
    } else if t > xs[last]@ {
        ys[last]@
    } else {
        let i = first_at_or_above(xs, t, 0) - 1;
        let x0 = xs[i]@;
        let x1 = xs[i + 1]@;
        let y0 = ys[i]@;
        let y1 = ys[i + 1]@;
        let slope = fdiv(fsub(y1, y0), fsub(x1, x0));
        fadd(y0, fmul(slope, fsub(t, x0)))
    }
}

impl Interpolator1D {
    /// Non-empty table, one value per sample, samples strictly increasing.
    pub open spec fn wf(self) -> bool {
        &&& self.x@.len() == self.y@.len()
        &&& self.x@.len() >= 1
        &&& forall|i: int, j: int|
            0 <= i < j < self.x@.len() ==> (#[trigger] self.x@[i])@ < (#[trigger] self.x@[j])@
    }

    /// A table from matching sample and value columns.
    pub fn new(x: Vec<Fx>, y: Vec<Fx>) -> (r: Interpolator1D)
        requires
            x@.len() == y@.len(),
            x@.len() >= 1,
            forall|i: int, j: int| 0 <= i < j < x@.len() ==> (#[trigger] x@[i])@ < (#[trigger] x@[j])@,
        ensures
            r.wf(),
            r.x@ == x@,
            r.y@ == y@,
    {
        Interpolator1D { x, y }
    }

    /// The table's value at `t`.
    pub fn interpolate(&self, t: Fx) -> (r: Fx)
        requires
            self.wf(),
        ensures
            r@ == interpolate_spec(self.x@, self.y@, t@),
    {
        let n: usize = self.x.len();
        if t.le(self.x[0]) {
            return self.y[0];
        }
        if self.x[n - 1].lt(t) {
            return self.y[n - 1];
        }
        let i: usize = bin_search(&self.x, t) - 1;
        let x0: Fx = self.x[i];
        let x1: Fx = self.x[i + 1];
        let y0: Fx = self.y[i];
        let y1: Fx = self.y[i + 1];
        proof {
            assert(x0@ < x1@);
            assert(fsub(x1@, x0@) != 0);
        }
        let slope: Fx = y1.minus(y0).over(x1.minus(x0));
        y0.plus(slope.times(t.minus(x0)))
    }
}

/// Least index whose sample is at least `target`, by bisection; the target
/// must be bracketed by the table.
fn bin_search(x: &Vec<Fx>, target: Fx) -> (r: usize)
    requires
        x@.len() >= 1,
        forall|i: int, j: int| 0 <= i < j < x@.len() ==> (#[trigger] x@[i])@ < (#[trigger] x@[j])@,
        x@[0]@ < target@,
        target@ <= x@[x@.len() - 1]@,
    ensures
        1 <= r < x@.len(),
        r == first_at_or_above(x@, target@, 0),
{
    let n: usize = x.len();
    let mut i: usize = 0;
    let mut j: usize = n - 1;
    while i < j
        invariant
            n == x@.len(),
            i <= j < n,
            forall|k: int| 0 <= k < i ==> (#[trigger] x@[k])@ < target@,
            x@[j as int]@ >= target@,
            forall|a: int, b: int| 0 <= a < b < n ==> (#[trigger] x@[a])@ < (#[trigger] x@[b])@,
            x@[0]@ < target@,
        decreases j - i,
    {
        let k: usize = i + (j - i) / 2;
        if x[k].lt(target) {
            i = k + 1;
        } else {
            j = k;
        }
    }
    proof {
        lemma_first_scan(x@, target@, 0, i as int);
    }
    i
}

} // verus!
