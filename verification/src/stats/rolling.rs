//! The shape of every rolling diagnostic: for a trailing window `W` over a
//! series of length `N`, the output has length `N`, its first `W` entries
//! are the padding value, and the entry at index `i >= W` is computed over
//! the window `[i - W, i)` — the current point excluded.

use vstd::prelude::*;

use crate::SmartError;

verus! {

/// The trailing windows a rolling statistic is computed over: for each
/// output index `window + k`, the half-open index range `[k, k + window)`.
/// A window longer than the series is rejected.
pub fn rolling_window_bounds(len: usize, window: usize) -> (r: Result<
    Vec<(usize, usize)>,
    SmartError,
>)
    ensures
        window <= len <==> r is Ok,
        window > len ==> r == Err::<Vec<(usize, usize)>, SmartError>(SmartError::WindowTooLarge),
        r matches Ok(v) ==> {
            &&& v@.len() == len - window
            &&& forall|k: int|
                0 <= k < v@.len() ==> (#[trigger] v@[k]).0 == k && v@[k].1 == k + window
        },
{
    if window > len {
        return Err(SmartError::WindowTooLarge);
    }
    let count = len - window;
    let mut v: Vec<(usize, usize)> = Vec::new();
    let mut k: usize = 0;
    while k < count
        invariant
            k <= count,
            count == len - window,
            window + count <= usize::MAX,
            v@.len() == k,
            forall|j: int| 0 <= j < k ==> (#[trigger] v@[j]).0 == j && v@[j].1 == j + window,
        decreases count - k,
    {
        v.push((k, k + window));
        k += 1;
    }
    Ok(v)
}

/// Assembles a rolling statistic from its computed tail: `window` copies
/// of the padding value, then the tail. With a tail of length
/// `N - window` the result has the series' own length `N`.
pub fn left_padded<T: Copy>(pad: T, window: usize, tail: Vec<T>) -> (r: Vec<T>)
    requires
        window + tail@.len() <= usize::MAX,
    ensures
        r@.len() == window + tail@.len(),
        forall|i: int| 0 <= i < window ==> #[trigger] r@[i] == pad,
        forall|i: int| 0 <= i < tail@.len() ==> #[trigger] r@[window + i] == tail@[i],
{
    let mut r: Vec<T> = Vec::new();
    let mut i: usize = 0;
    while i < window
        invariant
            i <= window,
            r@.len() == i,
            forall|j: int| 0 <= j < i ==> #[trigger] r@[j] == pad,
        decreases window - i,
    {
        r.push(pad);
        i += 1;
    }
    let n = tail.len();
    let mut k: usize = 0;
    while k < n
        invariant
            k <= n,
            n == tail@.len(),
            window + n <= usize::MAX,
            r@.len() == window + k,
            forall|j: int| 0 <= j < window ==> #[trigger] r@[j] == pad,
            forall|j: int| 0 <= j < k ==> #[trigger] r@[window + j] == tail@[j],
        decreases n - k,
    {
        r.push(tail[k]);
        k += 1;
    }
    r
}

} // verus!
