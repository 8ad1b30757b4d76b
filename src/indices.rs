//! Message indices as callers give them: a list of signed integers that must
//! each name one of `n` message slots.
use vstd::prelude::*;
use crate::bitvector::strictly_increasing;
use crate::error::BbsError;

verus! {

/// Every index names one of `n` slots.
pub open spec fn all_in_range(indices: Seq<i64>, n: nat) -> bool {
    forall|k: int| 0 <= k < indices.len() ==> 0 <= #[trigger] indices[k] < n
}

/// No index is given twice.
pub open spec fn all_distinct(indices: Seq<i64>) -> bool {
    forall|a: int, b: int| 0 <= a < b < indices.len() ==> indices[a] != indices[b]
}

/// The list names slot `i`.
pub open spec fn names(indices: Seq<i64>, i: int) -> bool {
    exists|k: int| 0 <= k < indices.len() && #[trigger] indices[k] == i
}

/// For each of `n` slots, whether the list names it.
pub open spec fn mask_of(indices: Seq<i64>, n: nat) -> Seq<bool> {
    Seq::new(n, |i: int| names(indices, i))
}

/// The slots the list does not name.
pub open spec fn complement_of(indices: Seq<i64>, n: nat) -> Seq<bool> {
    Seq::new(n, |i: int| !names(indices, i))
}

/// Naming after one more index.
proof fn lemma_names_push(prefix: Seq<i64>, x: i64, i: int)
    ensures
        names(prefix.push(x), i) <==> (names(prefix, i) || x == i),
{
    let ext = prefix.push(x);
    if names(prefix, i) {
        let w = choose|w: int| 0 <= w < prefix.len() && #[trigger] prefix[w] == i;
        assert(ext[w] == i);
    }
    if x == i {
        assert(ext[prefix.len() as int] == i);
    }
    if names(ext, i) {
        let w = choose|w: int| 0 <= w < ext.len() && #[trigger] ext[w] == i;
        if w < prefix.len() {
            assert(prefix[w] == i);
        }
    }
}

/// The positions of a mask that are set, ascending.
pub open spec fn selected(mask: Seq<bool>) -> Seq<usize>
    decreases mask.len(),
{
    if mask.len() == 0 {
        Seq::empty()
    } else if mask.last() {
        selected(mask.drop_last()).push((mask.len() - 1) as usize)
    } else {
        selected(mask.drop_last())
    }
}

/// The views of a list of byte strings.
pub open spec fn views(v: Seq<Vec<u8>>) -> Seq<Seq<u8>> {
    v.map_values(|m: Vec<u8>| m@)
}

/// The views of a list of indexed byte strings.
pub open spec fn pair_views(v: Seq<(usize, Vec<u8>)>) -> Seq<(usize, Seq<u8>)> {
    v.map_values(|p: (usize, Vec<u8>)| (p.0, p.1@))
}

/// Each index paired with the item at the same position.
pub open spec fn zip_indices<T>(indices: Seq<i64>, items: Seq<T>) -> Seq<(usize, T)> {
    Seq::new(indices.len(), |k: int| (indices[k] as usize, items[k]))
}

/// What `selected` holds: each set position once, ascending.
pub proof fn lemma_selected(mask: Seq<bool>)
    requires
        mask.len() <= usize::MAX,
    ensures
        strictly_increasing(selected(mask)),
        forall|k: int| 0 <= k < selected(mask).len() ==> selected(mask)[k] < mask.len(),
        forall|x: usize| #[trigger] selected(mask).contains(x) <==> (x < mask.len() && mask[x as int]),
    decreases mask.len(),
{
    if mask.len() > 0 {
        let m = mask.drop_last();
        lemma_selected(m);
        let prev = selected(m);
        if mask.last() {
            let cur = prev.push((mask.len() - 1) as usize);
            assert forall|x: usize| #[trigger] cur.contains(x) <==> (x < mask.len() && mask[x as int]) by {
                if x == mask.len() - 1 {
                    assert(cur[prev.len() as int] == x);
                } else if prev.contains(x) {
                    let w = choose|w: int| 0 <= w < prev.len() && prev[w] == x;
                    assert(cur[w] == x);
                } else if cur.contains(x) {
                    let w = choose|w: int| 0 <= w < cur.len() && cur[w] == x;
                    assert(prev[w] == x);
                }
            }
        } else {
            assert forall|x: usize| #[trigger] prev.contains(x) <==> (x < mask.len() && mask[x as int]) by {
                if x < m.len() {
                    assert(m[x as int] == mask[x as int]);
                }
            }
        }
    }
}

/// Marks the slots that the list names; fails if an index is negative or not
/// below `n`.
pub fn index_mask(indices: &Vec<i64>, n: usize) -> (r: Result<Vec<bool>, BbsError>)
    ensures
        all_in_range(indices@, n as nat) ==> (r matches Ok(m) && m@ == mask_of(indices@, n as nat)),
        !all_in_range(indices@, n as nat) ==> r == Err::<Vec<bool>, BbsError>(
            BbsError::IndexOutOfBounds,
        ),
{
    let mut k: usize = 0;
    while k < indices.len()
        invariant
            k <= indices.len(),
            forall|q: int| 0 <= q < k ==> 0 <= #[trigger] indices@[q] < n,
        decreases indices.len() - k,
    {
        if indices[k] < 0 || indices[k] as u64 >= n as u64 {
            return Err(BbsError::IndexOutOfBounds);
        }
        k = k + 1;
    }
    let mut mask: Vec<bool> = Vec::new();
    let mut i: usize = 0;
    while i < n
        invariant
            i <= n,
            mask.len() == i,
            forall|q: int| 0 <= q < i ==> mask[q] == false,
        decreases n - i,
    {
        mask.push(false);
        i = i + 1;
    }
    let mut k: usize = 0;
    while k < indices.len()
        invariant
            k <= indices.len(),
            mask.len() == n,
            all_in_range(indices@, n as nat),
            forall|i: int| 0 <= i < n ==> #[trigger] mask[i] == names(indices@.subrange(0, k as int), i),
        decreases indices.len() - k,
    {
        let idx = indices[k] as usize;
        mask.set(idx, true);
        proof {
            let prefix = indices@.subrange(0, k as int);
            assert(indices@.subrange(0, k + 1) =~= prefix.push(indices@[k as int]));
            assert forall|i: int| 0 <= i < n implies #[trigger] mask[i] == names(
                indices@.subrange(0, k + 1),
                i,
            ) by {
                lemma_names_push(prefix, indices@[k as int], i);
            }
        }
        k = k + 1;
    }
    assert(indices@.subrange(0, indices.len() as int) =~= indices@);
    assert(mask@ =~= mask_of(indices@, n as nat));
    Ok(mask)
}

/// Negates every position of a mask.
pub fn invert_mask(mask: &Vec<bool>) -> (r: Vec<bool>)
    ensures
        r@.len() == mask@.len(),
        forall|i: int| 0 <= i < mask@.len() ==> r@[i] == !mask@[i],
{
    let mut out: Vec<bool> = Vec::new();
    let mut i: usize = 0;
    while i < mask.len()
        invariant
            i <= mask.len(),
            out.len() == i,
            forall|q: int| 0 <= q < i ==> out[q] == !mask[q],
        decreases mask.len() - i,
    {
        out.push(!mask[i]);
        i = i + 1;
    }
    out
}

/// The positions of a mask that are set, ascending.
pub fn selected_indices(mask: &Vec<bool>) -> (r: Vec<usize>)
    ensures
        r@ == selected(mask@),
{
    let mut out: Vec<usize> = Vec::new();
    let mut i: usize = 0;
    while i < mask.len()
        invariant
            i <= mask.len(),
            out@ == selected(mask@.subrange(0, i as int)),
        decreases mask.len() - i,
    {
        let ghost before = mask@.subrange(0, i as int);
        let ghost after = mask@.subrange(0, i + 1);
        assert(after.drop_last() =~= before);
        if mask[i] {
            out.push(i);
        }
        i = i + 1;
    }
    assert(mask@.subrange(0, mask.len() as int) =~= mask@);
    out
}

/// Whether no index is given twice, for indices that each name one of `n`
/// slots.
pub fn indices_distinct(indices: &Vec<i64>, n: usize) -> (r: bool)
    requires
        all_in_range(indices@, n as nat),
    ensures
        r == all_distinct(indices@),
{
    let mut seen: Vec<bool> = Vec::new();
    let mut i: usize = 0;
    while i < n
        invariant
            i <= n,
            seen.len() == i,
            forall|q: int| 0 <= q < i ==> seen[q] == false,
        decreases n - i,
    {
        seen.push(false);
        i = i + 1;
    }
    let mut k: usize = 0;
    while k < indices.len()
        invariant
            k <= indices.len(),
            seen.len() == n,
            all_in_range(indices@, n as nat),
            all_distinct(indices@.subrange(0, k as int)),
            forall|i: int| 0 <= i < n ==> #[trigger] seen[i] == names(indices@.subrange(0, k as int), i),
        decreases indices.len() - k,
    {
        let idx = indices[k] as usize;
        let ghost prefix = indices@.subrange(0, k as int);
        let ghost ext = indices@.subrange(0, k + 1);
        assert(ext =~= prefix.push(indices@[k as int]));
        if seen[idx] {
            proof {
                assert(names(prefix, idx as int));
                let w = choose|w: int| 0 <= w < prefix.len() && #[trigger] prefix[w] == idx as int;
                assert(indices@[w] == indices@[k as int]);
            }
            return false;
        }
        seen.set(idx, true);
        proof {
            assert forall|i: int| 0 <= i < n implies #[trigger] seen[i] == names(ext, i) by {
                lemma_names_push(prefix, indices@[k as int], i);
            }
            assert forall|a: int, b: int| 0 <= a < b < ext.len() implies ext[a] != ext[b] by {
                if b == k {
                    assert(prefix[a] == ext[a]);
                    assert(names(prefix, ext[a] as int));
                }
            }
        }
        k = k + 1;
    }
    assert(indices@.subrange(0, indices.len() as int) =~= indices@);
    true
}

/// Pairs each index with the item at the same position; fails if the two
/// lists differ in length, if an index is out of range, or if an index is
/// given twice.
pub fn index_items(indices: &Vec<i64>, items: &Vec<Vec<u8>>, n: usize) -> (r: Result<Vec<(usize, Vec<u8>)>, BbsError>)
    ensures
        indices.len() != items.len() ==> r == Err::<Vec<(usize, Vec<u8>)>, BbsError>(
            BbsError::ArityMismatch,
        ),
        indices.len() == items.len() && !all_in_range(indices@, n as nat) ==> r == Err::<
            Vec<(usize, Vec<u8>)>,
            BbsError,
        >(BbsError::IndexOutOfBounds),
        indices.len() == items.len() && all_in_range(indices@, n as nat) && !all_distinct(indices@)
            ==> r == Err::<Vec<(usize, Vec<u8>)>, BbsError>(BbsError::DuplicateIndex),
        indices.len() == items.len() && all_in_range(indices@, n as nat) && all_distinct(indices@)
            ==> (r matches Ok(p) && pair_views(p@) == zip_indices(indices@, views(items@))),
{
    if indices.len() != items.len() {
        return Err(BbsError::ArityMismatch);
    }
    let mask = index_mask(indices, n)?;
    let mut seen: Vec<bool> = Vec::new();
    let mut i: usize = 0;
    while i < n
        invariant
            i <= n,
            seen.len() == i,
            forall|q: int| 0 <= q < i ==> seen[q] == false,
        decreases n - i,
    {
        seen.push(false);
        i = i + 1;
    }
    let mut out: Vec<(usize, Vec<u8>)> = Vec::new();
    let mut k: usize = 0;
    while k < indices.len()
        invariant
            k <= indices.len(),
            indices.len() == items.len(),
            seen.len() == n,
            all_in_range(indices@, n as nat),
            all_distinct(indices@.subrange(0, k as int)),
            forall|i: int| 0 <= i < n ==> #[trigger] seen[i] == names(indices@.subrange(0, k as int), i),
            pair_views(out@) == zip_indices(
                indices@.subrange(0, k as int),
                views(items@).subrange(0, k as int),
            ),
        decreases indices.len() - k,
    {
        let idx = indices[k] as usize;
        let ghost prefix = indices@.subrange(0, k as int);
        let ghost ext = indices@.subrange(0, k + 1);
        assert(ext =~= prefix.push(indices@[k as int]));
        if seen[idx] {
            proof {
                assert(names(prefix, idx as int));
                let w = choose|w: int| 0 <= w < prefix.len() && #[trigger] prefix[w] == idx as int;
                assert(indices@[w] == indices@[k as int]);
                assert(!all_distinct(indices@));
            }
            return Err(BbsError::DuplicateIndex);
        }
        seen.set(idx, true);
        let ghost old_out = out@;
        let item = items[k].clone();
        assert(item@ == items@[k as int]@);
        out.push((idx, item));
        proof {
            assert forall|i: int| 0 <= i < n implies #[trigger] seen[i] == names(ext, i) by {
                lemma_names_push(prefix, indices@[k as int], i);
            }
            assert forall|a: int, b: int| 0 <= a < b < ext.len() implies ext[a] != ext[b] by {
                if b == k {
                    assert(prefix[a] == ext[a]);
                    assert(names(prefix, ext[a] as int));
                }
            }
            let z = zip_indices(ext, views(items@).subrange(0, k + 1));
            let zp = zip_indices(prefix, views(items@).subrange(0, k as int));
            assert(pair_views(old_out).len() == old_out.len());
            assert(old_out.len() == k);
            assert(out@ == old_out.push((idx, item)));
            assert forall|j: int| 0 <= j <= k implies #[trigger] pair_views(out@)[j] == z[j] by {
                assert(pair_views(out@)[j] == (out@[j].0, out@[j].1@));
                if j < k {
                    assert(out@[j] == old_out[j]);
                    assert(pair_views(old_out)[j] == (old_out[j].0, old_out[j].1@));
                    assert(pair_views(old_out)[j] == zp[j]);
                    assert(ext[j] == prefix[j]);
                } else {
                    assert(views(items@)[k as int] == items@[k as int]@);
                }
            }
            assert(pair_views(out@) =~= z);
        }
        k = k + 1;
    }
    assert(indices@.subrange(0, indices.len() as int) =~= indices@);
    assert(views(items@).subrange(0, items.len() as int) =~= views(items@));
    Ok(out)
}

} // verus!
