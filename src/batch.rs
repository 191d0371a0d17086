use vstd::prelude::*;
use crate::report::Status;

verus! {

/// The ordered, growable buffer that collects reports between flushes.
pub struct BatchAccumulator {
    items: Vec<Status>,
}

impl View for BatchAccumulator {
    type V = Seq<Status>;

    closed spec fn view(&self) -> Seq<Status> {
        self.items@
    }
}

impl BatchAccumulator {
    pub fn new() -> (r: BatchAccumulator)
        ensures
            r@ == Seq::<Status>::empty(),
    {
        BatchAccumulator { items: Vec::new() }
    }

    /// Adds a report at the tail.
    pub fn append(&mut self, report: Status)
        ensures
            final(self)@ == old(self)@.push(report),
    {
        self.items.push(report);
    }

    /// Returns the whole ordered contents and leaves the accumulator empty.
    pub fn drain_all(&mut self) -> (r: Vec<Status>)
        ensures
            r@ == old(self)@,
            final(self)@ == Seq::<Status>::empty(),
    {
        let mut out: Vec<Status> = Vec::new();
        std::mem::swap(&mut out, &mut self.items);
        out
    }

    pub fn is_empty(&self) -> (r: bool)
        ensures
            r == (self@.len() == 0),
    {
        self.items.len() == 0
    }

    pub fn len(&self) -> (r: usize)
        ensures
            r == self@.len(),
    {
        self.items.len()
    }

    /// The buffered reports, oldest first.
    pub fn items(&self) -> (r: &Vec<Status>)
        ensures
            r@ == self@,
    {
        &self.items
    }
}

} // verus!
