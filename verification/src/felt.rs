//! Field-element values and the 4-element word used throughout the
//! transaction-kernel stack interface.
//!
//! The VM operates over a 64-bit prime field; this crate carries each element
//! as its canonical `u64` representative, which is always below the field
//! modulus. A `Word` is the fixed 4-element hash-sized value that serves both
//! as a commitment (digest) and as a raw data carrier.

use vstd::prelude::*;

verus! {

/// Modulus of the VM's 64-bit prime field.
pub const FIELD_MODULUS: u64 = 0xffff_ffff_0000_0001;

/// A `u64` is a canonical field-element representative when it is below the
/// field modulus.
pub open spec fn felt_valid(value: u64) -> bool {
    value < FIELD_MODULUS
}

/// A fixed 4-element hash-sized value over the field: used both as a hash
/// commitment and as raw structured data. Equality is element-wise.
#[derive(Clone, Copy, Debug, PartialEq, Eq, Structural)]
pub struct Word {
    pub e0: u64,
    pub e1: u64,
    pub e2: u64,
    pub e3: u64,
}

impl View for Word {
    type V = Seq<u64>;

    open spec fn view(&self) -> Seq<u64> {
        seq![self.e0, self.e1, self.e2, self.e3]
    }
}

/// The all-zero word.
pub open spec fn zero_word() -> Word {
    Word { e0: 0, e1: 0, e2: 0, e3: 0 }
}

/// The word whose elements are the four entries of `s` in order.
pub open spec fn word_from_seq(s: Seq<u64>) -> Word
    recommends
        s.len() == 4,
{
    Word { e0: s[0], e1: s[1], e2: s[2], e3: s[3] }
}

impl Word {
    /// Every element is a canonical field-element representative.
    pub open spec fn wf(self) -> bool {
        felt_valid(self.e0) && felt_valid(self.e1) && felt_valid(self.e2) && felt_valid(self.e3)
    }

    /// Returns the all-zero word, the value a cleaned-up stack word must equal.
    pub fn zero() -> (r: Word)
        ensures
            r == zero_word(),
    {
        Word { e0: 0, e1: 0, e2: 0, e3: 0 }
    }

    /// Builds a word from four elements given in order.
    pub fn new(e0: u64, e1: u64, e2: u64, e3: u64) -> (r: Word)
        ensures
            r == (Word { e0, e1, e2, e3 }),
    {
        Word { e0, e1, e2, e3 }
    }
}

} // verus!
