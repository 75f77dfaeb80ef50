//! Interrupt vector numbers of the hardware interrupts, as remapped on the
//! chained PICs.

use vstd::prelude::*;

verus! {

/// First vector of the primary PIC.
pub const PIC_1_OFFSET: u8 = 32;

/// First vector of the secondary PIC.
pub const PIC_2_OFFSET: u8 = PIC_1_OFFSET + 8;

/// Hardware interrupts handled by the kernel, in the order of their vectors from
/// `PIC_1_OFFSET`.
#[derive(Debug, Clone, Copy, PartialEq, Eq)]
pub enum InterruptIndex {
    /// The timer, on the first line of the primary PIC.
    Timer,
    Keyboard,
}

impl InterruptIndex {
    pub open spec fn spec_as_u8(self) -> u8 {
        match self {
            InterruptIndex::Timer => PIC_1_OFFSET,
            InterruptIndex::Keyboard => (PIC_1_OFFSET + 1) as u8,
        }
    }

    /// The interrupt vector number.
    #[verifier::when_used_as_spec(spec_as_u8)]
    pub fn as_u8(self) -> (v: u8)
        ensures
            v == self.spec_as_u8(),
    {
        match self {
            InterruptIndex::Timer => PIC_1_OFFSET,
            InterruptIndex::Keyboard => PIC_1_OFFSET + 1,
        }
    }

    /// The interrupt vector number, as an index into the descriptor table.
    pub fn as_usize(self) -> (v: usize)
        ensures
            v == self.spec_as_u8() as usize,
    {
        self.as_u8() as usize
    }
}

} // verus!
