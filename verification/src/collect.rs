//! Walking a list of source items of which some are kept, some are skipped,
//! and some are in error.

use vstd::prelude::*;
use crate::utils::TranspileError;

verus! {

/// What `f` makes of `items`, in their order: the results of the items that
/// it keeps (`Ok(Some(..))`), without those that it skips (`Ok(None)`); or
/// the error of the first item on which it fails.
pub open spec fn collect<T, U>(
    items: Seq<T>,
    f: spec_fn(T) -> Result<Option<U>, TranspileError>,
) -> Result<Seq<U>, TranspileError>
    decreases items.len(),
{
    if items.len() == 0 {
        Ok(Seq::empty())
    } else {
        match collect(items.drop_last(), f) {
            Err(e) => Err(e),
            Ok(front) => match f(items.last()) {
                Err(e) => Err(e),
                Ok(Some(x)) => Ok(front.push(x)),
                Ok(None) => Ok(front),
            },
        }
    }
}

/// How the result for the first `i + 1` items comes from that for the
/// first `i`.
pub proof fn lemma_collect_take<T, U>(
    items: Seq<T>,
    f: spec_fn(T) -> Result<Option<U>, TranspileError>,
    i: int,
)
    requires
        0 <= i < items.len(),
    ensures
        collect(items.take(i + 1), f) == (match collect(items.take(i), f) {
            Err(e) => Err(e),
            Ok(front) => match f(items[i]) {
                Err(e) => Err(e),
                Ok(Some(x)) => Ok(front.push(x)),
                Ok(None) => Ok(front),
            },
        }),
{
    assert(items.take(i + 1).drop_last() =~= items.take(i));
    assert(items.take(i + 1).last() == items[i]);
}

/// An error among the first items is the error of the whole list.
pub proof fn lemma_collect_error<T, U>(
    items: Seq<T>,
    f: spec_fn(T) -> Result<Option<U>, TranspileError>,
    i: int,
)
    requires
        0 <= i <= items.len(),
        collect(items.take(i), f) is Err,
    ensures
        collect(items, f) == collect(items.take(i), f),
    decreases items.len() - i,
{
    if i < items.len() {
        lemma_collect_take(items, f, i);
        lemma_collect_error(items, f, i + 1);
    } else {
        assert(items.take(i) =~= items);
    }
}

/// Where every item is kept, there are as many results as items, and each
/// is the result of the item in its place.
pub proof fn lemma_collect_all_kept<T, U>(
    items: Seq<T>,
    f: spec_fn(T) -> Result<Option<U>, TranspileError>,
)
    requires
        forall|i: int|
            0 <= i < items.len() ==> (#[trigger] f(items[i])) is Ok && f(items[i])->Ok_0 is Some,
    ensures
        collect(items, f) is Ok,
        collect(items, f)->Ok_0.len() == items.len(),
        forall|i: int|
            0 <= i < items.len() ==> Some(#[trigger] collect(items, f)->Ok_0[i]) == f(
                items[i],
            )->Ok_0,
    decreases items.len(),
{
    if items.len() > 0 {
        let front = items.drop_last();
        assert forall|i: int| 0 <= i < front.len() implies (#[trigger] f(front[i])) is Ok && f(
            front[i],
        )->Ok_0 is Some by {
            assert(front[i] == items[i]);
        }
        lemma_collect_all_kept(front, f);
        assert(f(items[items.len() - 1]) is Ok);
        assert forall|i: int| 0 <= i < items.len() implies Some(
            #[trigger] collect(items, f)->Ok_0[i],
        ) == f(items[i])->Ok_0 by {
            if i < front.len() {
                assert(front[i] == items[i]);
            }
        }
    }
}

} // verus!
