use vstd::prelude::*;

verus! {

/// A participant's 256-bit public key, held as its high and low 128-bit halves
/// (big-endian: `hi` is the first sixteen bytes of the key).
#[derive(Clone, Copy, Debug, PartialEq, Eq, Structural)]
pub struct Identity {
    pub hi: u128,
    pub lo: u128,
}

impl Identity {
    pub fn new(hi: u128, lo: u128) -> (r: Identity)
        ensures
            r.hi == hi,
            r.lo == lo,
    {
        Identity { hi, lo }
    }

    /// Whether two keys name the same participant.
    pub fn same(&self, other: &Identity) -> (r: bool)
        ensures
            r == (*self == *other),
    {
        *self == *other
    }
}

} // verus!
