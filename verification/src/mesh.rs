use vstd::prelude::*;

verus! {

/// The `index`-th group of three of `values`.
pub open spec fn triple_at<T>(values: Seq<T>, index: int) -> (T, T, T) {
    (values[3 * index], values[3 * index + 1], values[3 * index + 2])
}

/// Reads a flat list of coordinates as points: the first three values are the first
/// point, the next three the second, and so on in order.
pub fn triples<T: Copy>(values: &[T]) -> (points: Vec<(T, T, T)>)
    requires
        values@.len() % 3 == 0,
    ensures
        points@.len() * 3 == values@.len(),
        forall|i: int| 0 <= i < points@.len() ==> (#[trigger] points@[i]) == triple_at(values@, i),
{
    let mut points: Vec<(T, T, T)> = Vec::new();
    let mut next: usize = 0;
    while next < values.len()
        invariant
            values@.len() % 3 == 0,
            next <= values@.len(),
            next == points@.len() * 3,
            forall|i: int| 0 <= i < points@.len() ==> (#[trigger] points@[i]) == triple_at(values@, i),
        decreases values@.len() - next,
    {
        assert(next + 3 <= values@.len()) by {
            assert(next % 3 == 0);
        }
        let x: T = values[next];
        let y: T = values[next + 1];
        let z: T = values[next + 2];
        points.push((x, y, z));
        next = next + 3;
    }
    points
}

} // verus!
