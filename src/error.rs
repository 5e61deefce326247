use vstd::prelude::*;

verus! {

/// What can go wrong in this library.
#[derive(Debug, Clone, PartialEq, Eq)]
pub enum Error {
    /// The remote call failed or timed out; the text describes it.
    Transport(String),
    /// A property that was present had an unexpected shape.
    Decode,
    /// No adapter offers the advertising capability.
    Discovery,
}

} // verus!
