use vstd::prelude::*;

pub mod discovery;
pub mod error;
pub mod host;
pub mod registry;
pub mod runtime;

verus! {

/// The number that the bundled sample plugin hands back from its one export.
pub fn get_number() -> (r: u32)
    ensures
        r == 42,
{
    42
}

} // verus!
