//! A counter with a step, and a trait with a default method.

use vstd::prelude::*;

verus! {

/// A count that grows by a fixed step.
pub struct Counter {
    count: u32,
    step: u32,
}

/// What a counter holds.
pub struct CounterView {
    pub count: u32,
    pub step: u32,
}

impl View for Counter {
    type V = CounterView;

    closed spec fn view(&self) -> CounterView {
        CounterView { count: self.count, step: self.step }
    }
}

/// The products of `xs` with `step`.
pub open spec fn scaled_by(xs: Seq<u32>, step: u32) -> Seq<int> {
    xs.map_values(|x: u32| x * step)
}

impl Counter {
    /// A counter at zero.
    pub fn new(step: u32) -> (c: Self)
        ensures
            c@ == (CounterView { count: 0, step }),
    {
        Self { count: 0, step }
    }

    /// The count.
    pub fn value(&self) -> (r: u32)
        ensures
            r == self@.count,
    {
        self.count
    }

    /// Adds the step to the count.
    pub fn tick(&mut self)
        requires
            old(self)@.count + old(self)@.step <= u32::MAX,
        ensures
            final(self)@ == (CounterView { count: (old(self)@.count + old(self)@.step) as u32, step: old(self)@.step }),
    {
        self.count += self.step;
    }

    /// Sets the count back to zero.
    pub fn reset(self: &mut Self)
        ensures
            final(self)@ == (CounterView { count: 0, step: old(self)@.step }),
    {
        self.count = 0;
    }

    /// Each of `xs` times the step.
    pub fn scaled(&self, xs: &[u32]) -> (r: Vec<u32>)
        requires
            forall|k: int| 0 <= k < xs@.len() ==> #[trigger] xs@[k] * self@.step <= u32::MAX,
        ensures
            r@.len() == xs@.len(),
            forall|k: int| 0 <= k < r@.len() ==> r@[k] == #[trigger] scaled_by(xs@, self@.step)[k],
    {
        let mut out: Vec<u32> = Vec::new();
        let mut i: usize = 0;
        while i < xs.len()
            invariant
                i <= xs.len(),
                out@.len() == i,
                forall|k: int| 0 <= k < xs@.len() ==> #[trigger] xs@[k] * self@.step <= u32::MAX,
                forall|k: int| 0 <= k < i ==> out@[k] == #[trigger] scaled_by(xs@, self@.step)[k],
            decreases xs.len() - i,
        {
            let x = xs[i];
            assert(x * self.step <= u32::MAX);
            out.push(x * self.step);
            i = i + 1;
        }
        out
    }

    /// The count, consuming the counter.
    pub fn into_count(self) -> (r: u32)
        ensures
            r == self@.count,
    {
        self.count
    }
}

/// Something with an area.
pub trait Shape {
    /// The area.
    spec fn area_of(&self) -> u32;

    fn area(&self) -> (r: u32)
        ensures
            r == self.area_of(),
    ;

    /// Twice the area.
    fn double(&self) -> (r: u32)
        requires
            self.area_of() * 2 <= u32::MAX,
        ensures
            r == self.area_of() * 2,
    {
        self.area() * 2
    }
}

impl Shape for Counter {
    open spec fn area_of(&self) -> u32 {
        self@.count
    }

    fn area(&self) -> (r: u32) {
        self.count
    }
}

} // verus!
