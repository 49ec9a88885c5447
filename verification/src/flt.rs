use vstd::prelude::*;

verus! {

/// A single-precision float held by its bit pattern, so that it can be
/// hashed and compared bit for bit.
#[derive(Copy, Clone, Debug, PartialEq, Eq, Hash, Structural)]
pub struct HashFlt(pub u32);

/// The bit pattern of the float `1.0`.
pub const ONE_BITS: u32 = 0x3f80_0000;

} // verus!
