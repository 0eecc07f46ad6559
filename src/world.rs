use vstd::prelude::*;

verus! {

/// The pairs `(i, j)` with `j` from `i + 1` up to `n - 1`, in that order.
pub open spec fn pairs_with_first(i: nat, n: nat) -> Seq<(usize, usize)> {
    Seq::new((n - i - 1) as nat, |k: int| (i as usize, (i + 1 + k) as usize))
}

/// The unordered pairs of `n` bodies whose first index lies below `m`: row
/// by row, each row in increasing second index.
pub open spec fn pairs_below(m: nat, n: nat) -> Seq<(usize, usize)>
    decreases m,
{
    if m == 0 {
        Seq::empty()
    } else {
        pairs_below((m - 1) as nat, n) + pairs_with_first((m - 1) as nat, n)
    }
}

/// Every unordered pair of `n` bodies, in the order the collision scan takes
/// them.
pub open spec fn collision_order(n: nat) -> Seq<(usize, usize)> {
    pairs_below(n, n)
}

/// Each pair of the scan holds two distinct indices below `n`, the smaller
/// one first.
pub proof fn lemma_pairs_ordered(m: nat, n: nat)
    requires
        m <= n,
        n <= usize::MAX,
    ensures
        forall|k: int|
            0 <= k < pairs_below(m, n).len() ==> {
                let p = #[trigger] pairs_below(m, n)[k];
                p.0 < p.1 < n && p.0 < m
            },
    decreases m,
{
    if m > 0 {
        lemma_pairs_ordered((m - 1) as nat, n);
        let left = pairs_below((m - 1) as nat, n);
        let row = pairs_with_first((m - 1) as nat, n);
        assert forall|k: int| 0 <= k < pairs_below(m, n).len() implies {
            let p = #[trigger] pairs_below(m, n)[k];
            p.0 < p.1 < n && p.0 < m
        } by {
            if k < left.len() {
                assert(pairs_below(m, n)[k] == left[k]);
            } else {
                assert(pairs_below(m, n)[k] == row[k - left.len()]);
            }
        }
    }
}

/// The pairs of bodies that one collision pass tests, in order: `(i, j)` for
/// every `i < j < n`, by increasing `i` and then increasing `j`.
pub fn collision_pairs(n: usize) -> (r: Vec<(usize, usize)>)
    ensures
        r@ == collision_order(n as nat),
        forall|k: int| 0 <= k < r.len() ==> (#[trigger] r@[k]).0 < r@[k].1 < n,
{
    let mut pairs: Vec<(usize, usize)> = Vec::new();
    for i in 0..n
        invariant
            pairs@ == pairs_below(i as nat, n as nat),
    {
        let ghost before = pairs@;
        let mut j: usize = i + 1;
        while j < n
            invariant
                i < n,
                i + 1 <= j <= n,
                pairs@ == before + pairs_with_first(i as nat, n as nat).take(j - i - 1),
            decreases n - j,
        {
            pairs.push((i, j));
            assert(pairs_with_first(i as nat, n as nat).take(j - i) =~= pairs_with_first(
                i as nat,
                n as nat,
            ).take(j - i - 1).push((i, j)));
            j = j + 1;
        }
        assert(pairs_with_first(i as nat, n as nat).take(n - i - 1) =~= pairs_with_first(
            i as nat,
            n as nat,
        ));
    }
    proof {
        lemma_pairs_ordered(n as nat, n as nat);
    }
    pairs
}

} // verus!
