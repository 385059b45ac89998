use vstd::prelude::*;

verus! {

/// A set of bit flags, as Discord sends them.
#[derive(Clone, Copy, Debug, PartialEq, Eq, Structural, PartialOrd, Ord)]
pub struct Flags(pub u64);

} // verus!
