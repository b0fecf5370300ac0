//! The gauge: its value cell and its writer handle.
//!
//! A gauge cell holds one value, which a write replaces.
use vstd::prelude::*;
use crate::aggregate::ValueBlock;

verus! {

/// The value of one thread's gauge.
pub struct GaugeCell {
    value: u64,
}

impl View for GaugeCell {
    type V = u64;

    closed spec fn view(&self) -> u64 {
        self.value
    }
}

impl Default for GaugeCell {
    /// A cell that holds zero.
    fn default() -> (cell: Self)
        ensures
            cell@ == 0,
    {
        GaugeCell { value: 0 }
    }
}

impl GaugeCell {
    /// Reads the value.
    pub fn get(&self) -> (value: u64)
        ensures
            value == self@,
    {
        self.value
    }

    /// The value, for the one writer of this cell.
    pub fn as_mut_ptr(&mut self) -> (value: &mut u64)
        ensures
            *value == old(self)@,
            final(self)@ == *final(value),
    {
        &mut self.value
    }
}

/// One thread's gauge cell, in a heap allocation of its own: the cell stays
/// where it is when the collection that holds it grows.
pub struct GaugePin {
    value: Box<GaugeCell>,
}

impl View for GaugePin {
    type V = u64;

    closed spec fn view(&self) -> u64 {
        self.value@
    }
}

impl GaugePin {
    /// Reads the value.
    pub fn get(&self) -> (value: u64)
        ensures
            value == self@,
    {
        self.value.get()
    }

    /// The value, for the one writer of this cell.
    pub fn as_mut_ptr(&mut self) -> (value: &mut u64)
        ensures
            *value == old(self)@,
            final(self)@ == *final(value),
    {
        self.value.as_mut_ptr()
    }
}

impl Default for GaugePin {
    /// A cell that holds zero.
    fn default() -> (cell: Self)
        ensures
            cell@ == 0,
    {
        Self { value: Box::new(GaugeCell::default()) }
    }
}

impl ValueBlock for GaugePin {
    /// A gauge is a block of one slot.
    open spec fn slots(&self) -> Seq<u64> {
        seq![self@]
    }

    fn slot(&self, idx: usize) -> (value: u64) {
        self.get()
    }
}

/// The writer handle of one thread's gauge.
///
/// It is not `Clone`: a cell has one writer.
pub struct Gauge {
    // which of the registered cells this handle writes to
    cell: usize,
}

impl Gauge {
    /// The position of the handle's cell among the registered cells.
    pub closed spec fn spec_cell(&self) -> usize {
        self.cell
    }

    /// A handle for the cell registered at position `cell`.
    pub fn new(cell: usize) -> (handle: Self)
        ensures
            handle.spec_cell() == cell,
    {
        Gauge { cell }
    }

    /// The position of the handle's cell among the registered cells.
    #[verifier::when_used_as_spec(spec_cell)]
    pub fn cell(&self) -> (cell: usize)
        ensures
            cell == self.spec_cell(),
    {
        self.cell
    }

    /// Replaces the value of the handle's cell.
    pub fn set(&mut self, cell: &mut GaugePin, inc: u64)
        ensures
            final(cell)@ == inc,
            final(self).spec_cell() == old(self).spec_cell(),
    {
        let value = cell.as_mut_ptr();
        *value = inc;
    }
}

} // verus!
