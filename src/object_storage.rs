use vstd::prelude::*;

verus! {

/// Rank of a 64-bit float, given by its bit pattern, in the total order of
/// IEEE 754 `totalOrder` (the order of `f64::total_cmp`): the pattern read as
/// a signed integer, with the magnitude bits of negative values reversed.
pub open spec fn total_order_rank(bits: u64) -> int {
    if bits < 0x8000_0000_0000_0000 {
        bits as int
    } else {
        0x7FFF_FFFF_FFFF_FFFF - bits as int
    }
}

/// A candidate whose distance ranks no higher than that of any other candidate.
pub open spec fn is_nearest(distances: Seq<Option<u64>>, k: int) -> bool {
    &&& 0 <= k < distances.len()
    &&& distances[k] is Some
    &&& forall|j: int|
        0 <= j < distances.len() && #[trigger] distances[j] is Some ==> total_order_rank(
            distances[k]->Some_0,
        ) <= total_order_rank(distances[j]->Some_0)
}

/// Computes [`total_order_rank`] of `bits`.
pub fn total_order_key(bits: u64) -> (r: i64)
    ensures
        r == total_order_rank(bits),
{
    if bits < 0x8000_0000_0000_0000 {
        bits as i64
    } else {
        -1 - ((bits - 0x8000_0000_0000_0000) as i64)
    }
}

/// Index of the nearest of the candidate hits, given as the bit patterns of
/// their distances (`None` where a candidate was missed); among equally near
/// hits the first is taken. `None` when no candidate was hit.
pub fn find_nearest(distances: &[Option<u64>]) -> (r: Option<usize>)
    ensures
        r is None <==> forall|j: int| 0 <= j < distances@.len() ==> distances@[j] is None,
        r matches Some(k) ==> is_nearest(distances@, k as int) && forall|j: int|
            0 <= j < k && #[trigger] distances@[j] is Some ==> total_order_rank(
                distances@[j]->Some_0,
            ) > total_order_rank(distances@[k as int]->Some_0),
{
    let mut best: Option<usize> = None;
    let mut best_key: i64 = 0;
    let mut i: usize = 0;
    while i < distances.len()
        invariant
            i <= distances@.len(),
            best is None <==> forall|j: int| 0 <= j < i ==> distances@[j] is None,
            best matches Some(k) ==> {
                &&& k < i
                &&& distances@[k as int] is Some
                &&& best_key == total_order_rank(distances@[k as int]->Some_0)
                &&& forall|j: int|
                    0 <= j < i && #[trigger] distances@[j] is Some ==> best_key
                        <= total_order_rank(distances@[j]->Some_0)
                &&& forall|j: int|
                    0 <= j < k && #[trigger] distances@[j] is Some ==> best_key
                        < total_order_rank(distances@[j]->Some_0)
            },
        decreases distances@.len() - i,
    {
        if let Some(bits) = distances[i] {
            let key = total_order_key(bits);
            match best {
                None => {
                    best = Some(i);
                    best_key = key;
                },
                Some(_) => {
                    if key < best_key {
                        best = Some(i);
                        best_key = key;
                    }
                },
            }
        }
        i = i + 1;
    }
    best
}

} // verus!
