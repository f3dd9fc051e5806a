//! The cell-visit order: a Fisher-Yates shuffle of the nine board indices.
//!
//! The shuffle walks positions 8 down to 1; at position `i` it swaps with a
//! position drawn from an entropy counter value reduced modulo `i + 1`. The
//! caller supplies one counter value per step; a host that refreshes its
//! counter only once per invocation passes the same value eight times, which
//! reproduces that host's (weaker) draw exactly. Whatever the entropy, the
//! output is a permutation of the input.

use vstd::prelude::*;

verus! {

/// `s` with the values at positions `i` and `j` exchanged.
pub open spec fn swapped(s: Seq<u8>, i: int, j: int) -> Seq<u8> {
    s.update(i, s[j]).update(j, s[i])
}

/// The shuffle state after its first `k` swap steps: step `m` (counted from
/// 1) swaps position `9 - m` with the position drawn from entropy value
/// `entropy[9 - m - 1]` reduced modulo `9 - m + 1`.
pub open spec fn shuffle_steps(s: Seq<u8>, entropy: Seq<u64>, k: int) -> Seq<u8>
    decreases k,
{
    if k <= 0 {
        s
    } else {
        let i = 9 - k;
        let prev = shuffle_steps(s, entropy, k - 1);
        swapped(prev, i, entropy[i - 1] as int % (i + 1))
    }
}

/// The nine cell indices in their unshuffled order.
pub open spec fn identity_order() -> Seq<u8> {
    seq![0u8, 1u8, 2u8, 3u8, 4u8, 5u8, 6u8, 7u8, 8u8]
}

/// `s` lists each of the nine cell indices exactly once: every entry is a
/// cell index, no entry repeats, and no cell index is missing.
pub open spec fn is_cell_permutation(s: Seq<u8>) -> bool {
    &&& s.len() == 9
    &&& forall|i: int| 0 <= i < 9 ==> s[i] < 9
    &&& forall|i: int, j: int| 0 <= i < 9 && 0 <= j < 9 && i != j ==> s[i] != s[j]
    &&& forall|v: u8| v < 9 ==> s.contains(v)
}

/// Exchanging two entries leaves the multiset of entries unchanged.
proof fn lemma_swapped_multiset(s: Seq<u8>, i: int, j: int)
    requires
        0 <= i < s.len(),
        0 <= j < s.len(),
    ensures
        swapped(s, i, j).to_multiset() == s.to_multiset(),
{
    broadcast use vstd::seq_lib::group_to_multiset_ensures;

    let t1 = s.update(i, s[j]);
    let t2 = t1.update(j, s[i]);
    assert(s.contains(s[i]));
    assert(s.contains(s[j]));
    assert(t1.to_multiset() =~= s.to_multiset().insert(s[j]).remove(s[i]));
    assert(t2.to_multiset() =~= t1.to_multiset().insert(s[i]).remove(t1[j]));
    assert(t1[j] == s[j]);
    assert(t2.to_multiset() =~= s.to_multiset());
}

/// Exchanging two entries preserves the cell-permutation property.
proof fn lemma_swapped_permutation(s: Seq<u8>, i: int, j: int)
    requires
        is_cell_permutation(s),
        0 <= i < 9,
        0 <= j < 9,
    ensures
        is_cell_permutation(swapped(s, i, j)),
{
    let t = swapped(s, i, j);
    assert forall|v: u8| v < 9 implies t.contains(v) by {
        assert(s.contains(v));
        let p = choose|p: int| 0 <= p < s.len() && s[p] == v;
        let q = if p == j {
            i
        } else if p == i {
            j
        } else {
            p
        };
        assert(t[q] == v);
    }
}

/// Every prefix of the shuffle keeps the input's multiset of entries, and
/// keeps the cell-permutation property if the input has it.
proof fn lemma_shuffle_steps_permutation(s: Seq<u8>, entropy: Seq<u64>, k: int)
    requires
        s.len() == 9,
        entropy.len() == 8,
        0 <= k <= 8,
    ensures
        shuffle_steps(s, entropy, k).len() == 9,
        shuffle_steps(s, entropy, k).to_multiset() == s.to_multiset(),
        is_cell_permutation(s) ==> is_cell_permutation(shuffle_steps(s, entropy, k)),
    decreases k,
{
    if k > 0 {
        lemma_shuffle_steps_permutation(s, entropy, k - 1);
        let i = 9 - k;
        let prev = shuffle_steps(s, entropy, k - 1);
        let j = entropy[i - 1] as int % (i + 1);
        lemma_swapped_multiset(prev, i, j);
        if is_cell_permutation(s) {
            lemma_swapped_permutation(prev, i, j);
        }
    }
}

/// Shuffles the nine cell indices with one entropy counter value per step.
///
/// The result is pinned exactly by `shuffle_steps`, and is always a
/// permutation of the input, however the entropy values were chosen.
pub fn shuffle_array(grid_order: [u8; 9], entropy: [u64; 8]) -> (r: [u8; 9])
    ensures
        r@ == shuffle_steps(grid_order@, entropy@, 8),
        r@.to_multiset() == grid_order@.to_multiset(),
        is_cell_permutation(grid_order@) ==> is_cell_permutation(r@),
{
    let mut shuffled = grid_order;
    let mut i: usize = 8;
    while i >= 1
        invariant
            i <= 8,
            shuffled@ == shuffle_steps(grid_order@, entropy@, 8 - i),
        decreases i,
    {
        let j: usize = (entropy[i - 1] % (i as u64 + 1)) as usize;
        assert(j <= i);
        let vi = shuffled[i];
        let vj = shuffled[j];
        shuffled[i] = vj;
        shuffled[j] = vi;
        assert(shuffled@ == shuffle_steps(grid_order@, entropy@, 9 - i));
        i = i - 1;
    }
    proof {
        lemma_shuffle_steps_permutation(grid_order@, entropy@, 8);
    }
    shuffled
}

} // verus!
