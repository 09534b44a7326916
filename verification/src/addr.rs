use vstd::prelude::*;

verus! {

/// A raw code address: the pointer-sized bit pattern that identifies an
/// executable location.
///
/// The engine consumes and produces these. A caller's typed function value is
/// bit-identical to such an address; moving between the two is a pure
/// reinterpretation, never an allocation or a lookup. The reinterpretation
/// itself happens at the engine boundary; this type is the checked side of
/// that boundary, where an address is just its bits.
#[derive(Clone, Copy, PartialEq, Eq, Structural, Debug)]
pub struct Addr {
    /// The address's bit pattern.
    pub bits: usize,
}

/// The address that a raw bit pattern denotes.
pub open spec fn addr_of_bits(bits: usize) -> Addr {
    Addr { bits }
}

/// The raw bit pattern of an address.
pub open spec fn bits_of_addr(a: Addr) -> usize {
    a.bits
}

impl Addr {
    /// Takes a raw bit pattern as a code address: a bit copy, nothing more.
    pub fn from_bits(bits: usize) -> (r: Addr)
        ensures
            r == addr_of_bits(bits),
    {
        Addr { bits }
    }

    /// The raw bit pattern of this address, as handed to the engine.
    pub fn to_bits(self) -> (r: usize)
        ensures
            r == bits_of_addr(self),
    {
        self.bits
    }
}

/// Bit-identity of the conversions: reading an address's bits and taking them
/// as an address again gives back the same address, and taking a bit pattern
/// as an address and reading its bits gives back the same pattern. The
/// typed-value/raw-address boundary is a pure reinterpretation in both
/// directions; no information is gained or lost by crossing it.
pub proof fn lemma_conversion_bit_identity(bits: usize, a: Addr)
    ensures
        bits_of_addr(addr_of_bits(bits)) == bits,
        addr_of_bits(bits_of_addr(a)) == a,
{
}

} // verus!
