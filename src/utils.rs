use vstd::prelude::*;

verus! {

/// The default value of `T`.
pub fn the_default<T: Default>() -> T {
    T::default()
}

} // verus!
