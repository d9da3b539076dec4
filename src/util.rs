use vstd::prelude::*;
use std::cmp::Ordering;
use vstd::std_specs::cmp::PartialOrdSpec;

verus! {

/// Clamps `value` into the inclusive range between `min` and `max`.
///
/// A value that cannot be compared with `min` or with `max` (such as NaN) gives
/// `min`. Otherwise a value at or above `max` gives `max`; below `max`, a value
/// strictly above `min` is returned unchanged, and one at or below `min` gives
/// `min`.
pub fn clamp<T: PartialOrd>(value: T, min: T, max: T) -> (r: T)
    ensures
        T::obeys_partial_cmp_spec() ==> {
            let to_max = value.partial_cmp_spec(&max);
            let to_min = value.partial_cmp_spec(&min);
            &&& (to_max is None || to_min is None) ==> r == min
            &&& (to_max == Some(Ordering::Less) && to_min == Some(Ordering::Greater)) ==> r == value
            &&& (to_max == Some(Ordering::Less) && to_min is Some && to_min != Some(
                Ordering::Greater,
            )) ==> r == min
            &&& (to_max is Some && to_max != Some(Ordering::Less) && to_min is Some) ==> r == max
        },
{
    let to_max = value.partial_cmp(&max);
    let to_min = value.partial_cmp(&min);
    match (to_max, to_min) {
        (None, _) | (_, None) => min,
        (Some(Ordering::Less), Some(Ordering::Greater)) => value,
        (Some(Ordering::Less), _) => min,
        _ => max,
    }
}

} // verus!
