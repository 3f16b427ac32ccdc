use vstd::prelude::*;
use rand::seq::SliceRandom;

verus! {

/// One element of `items`, picked at random by `rand::seq::SliceRandom::choose`
/// with the thread's generator.
///
/// Trusted: `choose` on a slice returns `None` for an empty slice and
/// otherwise a reference to the element at an index below the length. Which
/// index it is depends on the generator, so nothing more is said of it.
/// `rand::thread_rng` panics where the system gives it no seed at its first
/// use in a thread; no argument decides that, so no clause speaks of it.
#[verifier::external_body]
pub(crate) fn pick_one<T>(items: &Vec<T>) -> (picked: Option<&T>)
    ensures
        picked is None <==> items@.len() == 0,
        picked matches Some(item) ==> exists|i: int|
            0 <= i < items@.len() && *item == #[trigger] items@[i],
{
    items.as_slice().choose(&mut rand::thread_rng())
}

} // verus!
