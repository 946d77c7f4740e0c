//! A verified hierarchical resource navigator: multi-level selection state
//! with lazy, keyed fetching of each level, cascading invalidation when an
//! ancestor selection changes, gated dispatch of a resolved path, a key
//! router and a pure projection onto what the screen shows; plus the small
//! pieces of text handling around the AWS resources it navigates.

pub mod level;
pub mod model;
pub mod navigator;
pub mod input;
pub mod view;
pub mod text;
pub mod ecs;
pub mod ec2;
pub mod ssm;
pub mod scaffold;

use vstd::prelude::*;

verus! {

/// Clamps `idx` into the valid index range of a list of length `len`;
/// an empty list yields 0.
pub fn clamp_index(idx: usize, len: usize) -> (r: usize)
    ensures
        len == 0 ==> r == 0,
        len > 0 ==> r == (if idx < len { idx } else { (len - 1) as usize }),
{
    if len == 0 {
        0
    } else if idx < len {
        idx
    } else {
        len - 1
    }
}

/// The first position of `value` in `vec`.
pub fn get_index_of(vec: &Vec<String>, value: String) -> (r: usize)
    requires
        exists|i: int| 0 <= i < vec.len() && (#[trigger] vec@[i])@ == value@,
    ensures
        r < vec.len(),
        vec@[r as int]@ == value@,
        forall|j: int| 0 <= j < r ==> (#[trigger] vec@[j])@ != value@,
{
    let mut i: usize = 0;
    while i < vec.len()
        invariant
            i <= vec.len(),
            forall|j: int| 0 <= j < i ==> (#[trigger] vec@[j])@ != value@,
            exists|k: int| 0 <= k < vec.len() && (#[trigger] vec@[k])@ == value@,
        decreases vec.len() - i,
    {
        if vec[i] == value {
            return i;
        }
        i = i + 1;
    }
    i
}

} // verus!
