//! The two-part checksum stored in the first symbols of a serialized buffer.

use crate::bounded::BoundedU8;
use vstd::prelude::*;

verus! {

/// Checksum computed by addition modulo 64.
pub type ChecksumAdd = BoundedU8<0, 0x3F>;

/// Checksum computed by XOR.
pub type ChecksumXor = BoundedU8<0, 0x3F>;

/// The checksum of a serialized game-state buffer.
#[derive(Clone, Copy, Debug, Hash, PartialEq, Eq)]
pub struct Checksum {
    sum_add: ChecksumAdd,
    sum_xor: ChecksumXor,
}

impl Checksum {
    /// The additive part, as a plain value, for contracts.
    pub closed spec fn spec_sum_add(self) -> u8 {
        self.sum_add.spec_get()
    }

    /// The XOR part, as a plain value, for contracts.
    pub closed spec fn spec_sum_xor(self) -> u8 {
        self.sum_xor.spec_get()
    }

    /// Both parts are six-bit values.
    pub open spec fn wf(self) -> bool {
        self.spec_sum_add() <= 0x3F && self.spec_sum_xor() <= 0x3F
    }

    /// Builds a `Checksum` from its additive and XOR parts.
    pub fn new(sum_add: ChecksumAdd, sum_xor: ChecksumXor) -> (r: Self)
        ensures
            r.spec_sum_add() == sum_add.spec_get(),
            r.spec_sum_xor() == sum_xor.spec_get(),
    {
        Self { sum_add, sum_xor }
    }

    /// Returns the additive part.
    pub fn sum_add(self) -> (r: ChecksumAdd)
        ensures
            r.spec_get() == self.spec_sum_add(),
    {
        self.sum_add
    }

    /// Returns the XOR part.
    pub fn sum_xor(self) -> (r: ChecksumXor)
        ensures
            r.spec_get() == self.spec_sum_xor(),
    {
        self.sum_xor
    }
}

} // verus!
