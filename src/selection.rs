use vstd::prelude::*;

use crate::scalar_order::{gt, less_than, lt};

verus! {

/// `i` is where a pass over `s` lands that starts from `ceiling` and moves to
/// every value strictly below the current one: the first of the smallest
/// values that lie strictly below `ceiling`.
pub open spec fn is_first_min(s: Seq<u32>, ceiling: u32, i: int) -> bool {
    &&& 0 <= i < s.len()
    &&& lt(s[i], ceiling)
    &&& forall|k: int| 0 <= k < s.len() && lt(s[k], ceiling) ==> !lt(#[trigger] s[k], s[i])
    &&& forall|k: int| 0 <= k < i && lt(s[k], ceiling) ==> lt(s[i], #[trigger] s[k])
}

/// `i` is the first of the largest values of `s` that lie strictly above
/// `floor`.
pub open spec fn is_first_max(s: Seq<u32>, floor: u32, i: int) -> bool {
    &&& 0 <= i < s.len()
    &&& gt(s[i], floor)
    &&& forall|k: int| 0 <= k < s.len() && gt(s[k], floor) ==> !gt(#[trigger] s[k], s[i])
    &&& forall|k: int| 0 <= k < i && gt(s[k], floor) ==> gt(s[i], #[trigger] s[k])
}

/// Index that a minimum pass from `ceiling` selects, if any.
pub open spec fn min_index(s: Seq<u32>, ceiling: u32) -> Option<int> {
    if exists|i: int| is_first_min(s, ceiling, i) {
        Some(choose|i: int| is_first_min(s, ceiling, i))
    } else {
        None
    }
}

/// Value that a minimum pass from `ceiling` ends with: `ceiling` itself when
/// no value lies below it.
pub open spec fn min_value(s: Seq<u32>, ceiling: u32) -> u32 {
    match min_index(s, ceiling) {
        Some(i) => s[i],
        None => ceiling,
    }
}

/// Index that a maximum pass from `floor` selects, if any.
pub open spec fn max_index(s: Seq<u32>, floor: u32) -> Option<int> {
    if exists|i: int| is_first_max(s, floor, i) {
        Some(choose|i: int| is_first_max(s, floor, i))
    } else {
        None
    }
}

/// Value that a maximum pass from `floor` ends with: `floor` itself when no
/// value lies above it.
pub open spec fn max_value(s: Seq<u32>, floor: u32) -> u32 {
    match max_index(s, floor) {
        Some(i) => s[i],
        None => floor,
    }
}

/// At most one index is the first minimum.
pub proof fn lemma_first_min_unique(s: Seq<u32>, ceiling: u32, i: int, j: int)
    requires
        is_first_min(s, ceiling, i),
        is_first_min(s, ceiling, j),
    ensures
        i == j,
{
    if i < j {
        assert(!lt(s[i], s[j]));
        assert(lt(s[j], s[i]));
    } else if j < i {
        assert(!lt(s[j], s[i]));
        assert(lt(s[i], s[j]));
    }
}

/// At most one index is the first maximum.
pub proof fn lemma_first_max_unique(s: Seq<u32>, floor: u32, i: int, j: int)
    requires
        is_first_max(s, floor, i),
        is_first_max(s, floor, j),
    ensures
        i == j,
{
    if i < j {
        assert(!gt(s[i], s[j]));
        assert(gt(s[j], s[i]));
    } else if j < i {
        assert(!gt(s[j], s[i]));
        assert(gt(s[i], s[j]));
    }
}

/// Scans `values` for the first of its smallest entries strictly below
/// `ceiling`; returns its index and value, or no index and `ceiling`.
pub fn first_min_below(values: &Vec<u32>, ceiling: u32) -> (r: (Option<usize>, u32))
    ensures
        r.0 is None <==> forall|k: int| 0 <= k < values.len() ==> !lt(#[trigger] values@[k], ceiling),
        r.0 matches Some(i) ==> is_first_min(values@, ceiling, i as int),
        r.1 == min_value(values@, ceiling),
{
    let mut best: Option<usize> = None;
    let mut value: u32 = ceiling;
    for j in 0..values.len()
        invariant
            best is None ==> value == ceiling,
            best is None ==> forall|k: int| 0 <= k < j ==> !lt(#[trigger] values@[k], ceiling),
            best matches Some(b) ==> b < j && value == values@[b as int] && is_first_min(
                values@.take(j as int),
                ceiling,
                b as int,
            ),
    {
        let v = values[j];
        if less_than(v, value) {
            proof {
                if let Some(b) = best {
                    let t = values@.take(j as int);
                    assert forall|k: int| 0 <= k < j && lt(values@[k], ceiling) implies lt(
                        v,
                        #[trigger] values@[k],
                    ) by {
                        assert(!lt(t[k], t[b as int]));
                    }
                }
            }
            best = Some(j);
            value = v;
        }
    }
    assert(values@.take(values.len() as int) =~= values@);
    proof {
        if let Some(b) = best {
            if exists|i: int| is_first_min(values@, ceiling, i) {
                let c = choose|i: int| is_first_min(values@, ceiling, i);
                lemma_first_min_unique(values@, ceiling, c, b as int);
            }
        } else {
            assert(!exists|i: int| is_first_min(values@, ceiling, i));
        }
    }
    (best, value)
}

/// Scans `values` for the first of its largest entries strictly above
/// `floor`; returns its index and value, or no index and `floor`.
pub fn first_max_above(values: &Vec<u32>, floor: u32) -> (r: (Option<usize>, u32))
    ensures
        r.0 is None <==> forall|k: int| 0 <= k < values.len() ==> !gt(#[trigger] values@[k], floor),
        r.0 matches Some(i) ==> is_first_max(values@, floor, i as int),
        r.1 == max_value(values@, floor),
{
    let mut best: Option<usize> = None;
    let mut value: u32 = floor;
    for j in 0..values.len()
        invariant
            best is None ==> value == floor,
            best is None ==> forall|k: int| 0 <= k < j ==> !gt(#[trigger] values@[k], floor),
            best matches Some(b) ==> b < j && value == values@[b as int] && is_first_max(
                values@.take(j as int),
                floor,
                b as int,
            ),
    {
        let v = values[j];
        if less_than(value, v) {
            proof {
                if let Some(b) = best {
                    let t = values@.take(j as int);
                    assert forall|k: int| 0 <= k < j && gt(values@[k], floor) implies gt(
                        v,
                        #[trigger] values@[k],
                    ) by {
                        assert(!gt(t[k], t[b as int]));
                    }
                }
            }
            best = Some(j);
            value = v;
        }
    }
    assert(values@.take(values.len() as int) =~= values@);
    proof {
        if let Some(b) = best {
            if exists|i: int| is_first_max(values@, floor, i) {
                let c = choose|i: int| is_first_max(values@, floor, i);
                lemma_first_max_unique(values@, floor, c, b as int);
            }
        } else {
            assert(!exists|i: int| is_first_max(values@, floor, i));
        }
    }
    (best, value)
}

} // verus!
