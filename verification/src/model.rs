//! How results of executable functions are held against their models.

use vstd::prelude::*;

verus! {

/// Whether a result is the one that a model gives: the same case, holding a
/// value whose model is the one held there.
pub open spec fn agrees<T: View, E: View>(r: Result<T, E>, model: Result<T::V, E::V>) -> bool {
    match r {
        Ok(value) => model == Ok::<T::V, E::V>(value@),
        Err(error) => model == Err::<T::V, E::V>(error@),
    }
}

/// The text that an optional string holds.
pub open spec fn text_of(s: Option<String>) -> Option<Seq<char>> {
    match s {
        Some(s) => Some(s@),
        None => None,
    }
}

} // verus!
