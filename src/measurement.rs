use vstd::prelude::*;

verus! {

/// The last reading of a measuring component, held as the bit pattern of an
/// IEEE 754 double (`f64::to_bits`), so that a reading comes back bit for bit.
#[derive(Debug)]
pub struct Measurement {
    bits: u64,
}

impl View for Measurement {
    type V = u64;

    closed spec fn view(&self) -> u64 {
        self.bits
    }
}

impl Measurement {
    /// A reading of 0.0, whose bit pattern is all zeros.
    pub fn new() -> (r: Measurement)
        ensures
            r@ == 0,
    {
        Measurement { bits: 0 }
    }

    /// Stores a reading; always succeeds.
    pub fn update(&mut self, bits: u64)
        ensures
            final(self)@ == bits,
    {
        self.bits = bits;
    }

    /// The last stored reading.
    pub fn value(&self) -> (r: u64)
        ensures
            r == self@,
    {
        self.bits
    }
}

} // verus!
