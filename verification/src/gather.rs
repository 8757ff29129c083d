//! Gathering results in order: all the values, or the first error.

use vstd::prelude::*;

verus! {

/// The values of the first `upto` results when all of them are `Ok`, else
/// the first error among them.
pub open spec fn gathered<T, E>(results: Seq<Result<T, E>>, upto: int) -> Result<Seq<T>, E>
    decreases upto,
{
    if upto <= 0 {
        Ok(Seq::empty())
    } else {
        match gathered(results, upto - 1) {
            Err(error) => Err(error),
            Ok(values) => match results[upto - 1] {
                Ok(value) => Ok(values.push(value)),
                Err(error) => Err(error),
            },
        }
    }
}

/// As `gathered`, for results that are lists: the lists one after the other.
pub open spec fn gathered_flat<T, E>(results: Seq<Result<Seq<T>, E>>, upto: int) -> Result<
    Seq<T>,
    E,
>
    decreases upto,
{
    if upto <= 0 {
        Ok(Seq::empty())
    } else {
        match gathered_flat(results, upto - 1) {
            Err(error) => Err(error),
            Ok(values) => match results[upto - 1] {
                Ok(more) => Ok(values + more),
                Err(error) => Err(error),
            },
        }
    }
}

/// An error, once met, is the result whatever follows.
pub proof fn first_error_stays<T, E>(results: Seq<Result<T, E>>, met: int, upto: int)
    requires
        met <= upto,
        gathered(results, met) is Err,
    ensures
        gathered(results, upto) == gathered(results, met),
    decreases upto,
{
    if met < upto {
        first_error_stays(results, met, upto - 1);
    }
}

/// An error, once met, is the result whatever follows.
pub proof fn first_error_stays_flat<T, E>(results: Seq<Result<Seq<T>, E>>, met: int, upto: int)
    requires
        met <= upto,
        gathered_flat(results, met) is Err,
    ensures
        gathered_flat(results, upto) == gathered_flat(results, met),
    decreases upto,
{
    if met < upto {
        first_error_stays_flat(results, met, upto - 1);
    }
}

/// When the gathering succeeds, every result is `Ok`, and the values stand
/// in the order of the results.
pub proof fn gathered_values<T, E>(results: Seq<Result<T, E>>, upto: int)
    requires
        0 <= upto <= results.len(),
        gathered(results, upto) is Ok,
    ensures
        gathered(results, upto)->Ok_0.len() == upto,
        forall|k: int|
            0 <= k < upto ==> (#[trigger] results[k]) == Ok::<T, E>(gathered(results, upto)->Ok_0[k]),
    decreases upto,
{
    if upto > 0 {
        gathered_values(results, upto - 1);
    }
}

/// When the gathering fails, it fails with the error of the first result
/// that is an error.
pub proof fn gathered_error<T, E>(results: Seq<Result<T, E>>, upto: int) -> (at: int)
    requires
        0 <= upto <= results.len(),
        gathered(results, upto) is Err,
    ensures
        0 <= at < upto,
        results[at] is Err,
        results[at]->Err_0 == gathered(results, upto)->Err_0,
        forall|k: int| 0 <= k < at ==> (#[trigger] results[k]) is Ok,
    decreases upto,
{
    if gathered(results, upto - 1) is Err {
        gathered_error(results, upto - 1)
    } else {
        gathered_values(results, upto - 1);
        upto - 1
    }
}

} // verus!
