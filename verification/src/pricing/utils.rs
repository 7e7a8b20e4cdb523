//! The alignment contract on the two fetched series: both must end on the
//! same timestamp; a length mismatch is resolved by cutting the longer
//! series down from the front, and the cut points are handed back rather
//! than applied silently.

use vstd::prelude::*;

use crate::SmartError;

verus! {

/// The last label of a series, where one exists.
pub open spec fn spec_last_label(labels: Seq<u64>) -> Option<u64> {
    if labels.len() == 0 {
        None
    } else {
        Some(labels.last())
    }
}

/// Decides how two label series align: they must agree on their final
/// timestamp; the result gives, for each series, the index its kept
/// suffix starts at, so that both keep the same number of entries.
pub fn extract_match_bounds(labels_0: &Vec<u64>, labels_1: &Vec<u64>) -> (r: Result<
    (usize, usize),
    SmartError,
>)
    ensures
        r is Ok <==> spec_last_label(labels_0@) == spec_last_label(labels_1@),
        r matches Ok(b) ==> {
            let common = if labels_0@.len() <= labels_1@.len() {
                labels_0@.len() as int
            } else {
                labels_1@.len() as int
            };
            b.0 as int == labels_0@.len() - common && b.1 as int == labels_1@.len() - common
        },
        r is Err ==> r == Err::<(usize, usize), SmartError>(SmartError::InputShapeMismatch),
{
    let n0 = labels_0.len();
    let n1 = labels_1.len();
    let lasts_match: bool = if n0 == 0 || n1 == 0 {
        n0 == 0 && n1 == 0
    } else {
        labels_0[n0 - 1] == labels_1[n1 - 1]
    };
    if !lasts_match {
        return Err(SmartError::InputShapeMismatch);
    }
    let common = if n0 <= n1 {
        n0
    } else {
        n1
    };
    Ok((n0 - common, n1 - common))
}

} // verus!
