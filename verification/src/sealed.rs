use vstd::prelude::*;

verus! {

/// Marker that closes the set of chain building blocks: only the types of this
/// crate carry it.
pub trait Sealed {

}

} // verus!
