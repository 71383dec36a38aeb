//! From lists and options of values to lists and options of their views,
//! and results held against what is expected of them.

use vstd::prelude::*;

verus! {

/// The views of a sequence of values.
pub open spec fn views<T: View>(v: Seq<T>) -> Seq<T::V> {
    Seq::new(v.len(), |i: int| v[i]@)
}

/// The view of an optional value.
pub open spec fn opt_view<T: View>(o: Option<T>) -> Option<T::V> {
    match o {
        Some(v) => Some(v@),
        None => None,
    }
}

/// That `r` is the result that `expected` describes: the value with that
/// view, or that error.
pub open spec fn agrees<T: View, E>(r: Result<T, E>, expected: Result<T::V, E>) -> bool {
    match r {
        Ok(v) => expected == Ok::<T::V, E>(v@),
        Err(e) => expected == Err::<T::V, E>(e),
    }
}

/// That `r` is the result that `expected` describes: the list of values
/// with those views, or that error.
pub open spec fn agrees_each<T: View, E>(
    r: Result<Vec<T>, E>,
    expected: Result<Seq<T::V>, E>,
) -> bool {
    match r {
        Ok(v) => expected == Ok::<Seq<T::V>, E>(views(v@)),
        Err(e) => expected == Err::<Seq<T::V>, E>(e),
    }
}

} // verus!
