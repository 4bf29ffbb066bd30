use vstd::prelude::*;
use crate::register::Register;

verus! {

/// A region of register cells, addressed by offset.
///
/// Whatever transport stands behind it (memory-mapped I/O, port I/O, a
/// simulation), a region is described by the offsets it serves and the value
/// that each of their cells holds.
pub trait Uart16550IO<R: Register> {
    /// Whether `offset` addresses a cell of this region.
    spec fn serves(&self, offset: usize) -> bool;

    /// The value the cell at `offset` holds.
    spec fn cell(&self, offset: usize) -> R;

    /// Reads the cell at `offset`.
    fn read_at(&self, offset: usize) -> (r: R)
        requires
            self.serves(offset),
        ensures
            r == self.cell(offset),
    ;

    /// Writes `value` to the cell at `offset`; no other cell changes.
    fn write_at(&mut self, offset: usize, value: R)
        requires
            old(self).serves(offset),
        ensures
            final(self).cell(offset) == value,
            forall|o: usize| o != offset ==> #[trigger] final(self).cell(o) == old(self).cell(o),
            forall|o: usize| #[trigger] final(self).serves(o) == old(self).serves(o),
    ;
}

/// A simulated region: `len` cells at offsets `0..len`, held in memory.
pub struct RegisterFile<R> {
    cells: Vec<R>,
}

impl<R: Register> RegisterFile<R> {
    /// The number of cells.
    pub closed spec fn len(&self) -> nat {
        self.cells@.len()
    }

    /// A region of `len` cells, each holding the value of byte 0.
    pub fn new(len: usize) -> (r: Self)
        ensures
            r.len() == len,
            forall|o: usize| #[trigger] r.serves(o) == (o < len),
            forall|o: usize| o < len ==> #[trigger] r.cell(o) == R::spec_from_byte(0),
    {
        let mut cells: Vec<R> = Vec::new();
        let zero = R::from_byte(0);
        while cells.len() < len
            invariant
                cells@.len() <= len,
                forall|i: int| 0 <= i < cells@.len() ==> cells@[i] == R::spec_from_byte(0),
                zero == R::spec_from_byte(0),
            decreases len - cells@.len(),
        {
            cells.push(zero);
        }
        RegisterFile { cells }
    }
}

impl<R: Register> Uart16550IO<R> for RegisterFile<R> {
    closed spec fn serves(&self, offset: usize) -> bool {
        offset < self.cells@.len()
    }

    closed spec fn cell(&self, offset: usize) -> R {
        if offset < self.cells@.len() {
            self.cells@[offset as int]
        } else {
            R::spec_from_byte(0)
        }
    }

    fn read_at(&self, offset: usize) -> (r: R) {
        self.cells[offset]
    }

    fn write_at(&mut self, offset: usize, value: R) {
        self.cells.set(offset, value);
    }
}

} // verus!
