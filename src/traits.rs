use vstd::prelude::*;

verus! {

/// A configuration type that can produce its own canonical default value.
pub trait DefaultConfig: Sized {
    fn default_config() -> Self;
}

} // verus!
