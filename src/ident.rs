//! The identifier value and the errors of its generators.
use vstd::prelude::*;

verus! {

/// A 128-bit identifier, held as its sixteen bytes in wire order.
#[derive(Clone, Copy, Debug, PartialEq, Eq)]
pub struct Uuid {
    bytes: [u8; 16],
}

impl View for Uuid {
    type V = Seq<u8>;

    closed spec fn view(&self) -> Seq<u8> {
        self.bytes@
    }
}

impl Uuid {
    /// The identifier with the given bytes.
    pub fn new(bytes: [u8; 16]) -> (r: Uuid)
        ensures
            r@ == bytes@,
    {
        Uuid { bytes }
    }

    /// The sixteen bytes of the identifier.
    pub fn as_bytes(&self) -> (r: &[u8; 16])
        ensures
            r@ == self@,
    {
        &self.bytes
    }
}

/// Why an identifier could not be generated.
#[derive(Clone, Copy, Debug, PartialEq, Eq, Structural)]
pub enum GenError {
    /// A node identifier must be six bytes long.
    InvalidNodeLength { expected: usize, got: usize },
    /// The operating system's random source could not supply bytes.
    EntropyUnavailable,
}

} // verus!
