//! Generation of unique identifiers.
//!
//! Identifiers come from a random 128-bit source.  Nothing can be assumed
//! about a random value, so freshness is enforced here: a candidate that
//! already occurs in the caller's id list is replaced by a small id that a
//! counting argument shows must be free.

use vstd::prelude::*;
use crate::UniqueId;

verus! {

/// Relies on uuid::Uuid::new_v4 and Uuid::as_u128: a randomly generated
/// 128-bit value.  Nothing is assumed of it.
#[verifier::external_body]
fn random_id_value() -> (r: u128) {
    uuid::Uuid::new_v4().as_u128()
}

/// True exactly when `x` occurs among `ids`.
pub fn contains_id(ids: &Vec<UniqueId>, x: UniqueId) -> (r: bool)
    ensures
        r == ids@.contains(x),
{
    let mut j: usize = 0;
    while j < ids.len()
        invariant
            0 <= j <= ids@.len(),
            forall|t: int| 0 <= t < j ==> ids@[t] != x,
        decreases ids@.len() - j,
    {
        if ids[j] == x {
            return true;
        }
        j += 1;
    }
    false
}

/// A sequence shorter than the id space cannot contain every id in
/// `0 ..= len`: some small id is always missing.
proof fn lemma_small_id_missing(s: Seq<u128>)
    requires
        s.len() < 0x1_0000_0000_0000_0000_0000_0000_0000_0000,
    ensures
        exists|k: int| 0 <= k <= s.len() && !(#[trigger] s.contains(k as u128)),
    decreases s.len(),
{
    let n = s.len() as int;
    if !s.contains(n as u128) {
        assert(0 <= n <= s.len() && !s.contains(n as u128));
    } else {
        let i = choose|i: int| 0 <= i < s.len() && s[i] == n as u128;
        let s2 = s.remove(i);
        s.remove_ensures(i);
        lemma_small_id_missing(s2);
        let k = choose|k: int| 0 <= k <= s2.len() && !(#[trigger] s2.contains(k as u128));
        assert(k < n);
        assert(k as u128 != n as u128);
        assert(!s.contains(k as u128)) by {
            if s.contains(k as u128) {
                let j = choose|j: int| 0 <= j < s.len() && s[j] == k as u128;
                if j < i {
                    assert(s2[j] == s[j]);
                } else {
                    assert(j != i);
                    assert(s2[j - 1] == s[j]);
                }
            }
        }
        assert(0 <= k <= s.len() && !s.contains(k as u128));
    }
}

/// True exactly when some id occurs twice among `ids`.
pub fn has_duplicate_id(ids: &Vec<UniqueId>) -> (r: bool)
    ensures
        r == !ids@.no_duplicates(),
{
    let n = ids.len();
    let mut i: usize = 0;
    while i < n
        invariant
            0 <= i <= n,
            n == ids@.len(),
            forall|p: int, q: int| 0 <= p < q < ids@.len() && p < i ==> ids@[p] != ids@[q],
        decreases n - i,
    {
        let mut j: usize = i + 1;
        while j < n
            invariant
                i < j <= n,
                n == ids@.len(),
                forall|q: int| i < q < j ==> ids@[i as int] != ids@[q],
            decreases n - j,
        {
            if ids[i] == ids[j] {
                return true;
            }
            j += 1;
        }
        i += 1;
    }
    false
}

/// Removing an entry from a duplicate-free id list keeps the rest
/// distinct, and the removed id is gone.
pub proof fn lemma_remove_keeps_distinct(ids: Seq<UniqueId>, i: int)
    requires
        ids.no_duplicates(),
        0 <= i < ids.len(),
    ensures
        ids.remove(i).no_duplicates(),
        !ids.remove(i).contains(ids[i]),
{
    ids.remove_ensures(i);
    let s2 = ids.remove(i);
    assert forall|p: int, q: int|
        0 <= p < s2.len() && 0 <= q < s2.len() && p != q implies s2[p] != s2[q] by {
        let p0 = if p < i { p } else { p + 1 };
        let q0 = if q < i { q } else { q + 1 };
        assert(s2[p] == ids[p0]);
        assert(s2[q] == ids[q0]);
    }
    assert(!s2.contains(ids[i])) by {
        if s2.contains(ids[i]) {
            let w = choose|w: int| 0 <= w < s2.len() && s2[w] == ids[i];
            let w0 = if w < i { w } else { w + 1 };
            assert(s2[w] == ids[w0]);
        }
    }
}

/// An id that does not occur among `ids`: the random candidate when it is
/// free, otherwise the smallest free id in `0 ..= ids.len()`.
pub fn fresh_id(ids: &Vec<UniqueId>) -> (r: UniqueId)
    ensures
        !ids@.contains(r),
{
    let c = random_id_value();
    if !contains_id(ids, c) {
        return c;
    }
    let n = ids.len();
    let mut k: usize = 0;
    while k < n
        invariant
            0 <= k <= n,
            n == ids@.len(),
            forall|j: int| 0 <= j < k ==> #[trigger] ids@.contains(j as u128),
        decreases n - k,
    {
        if !contains_id(ids, k as u128) {
            return k as u128;
        }
        k += 1;
    }
    if !contains_id(ids, n as u128) {
        return n as u128;
    }
    proof {
        lemma_small_id_missing(ids@);
        let k0 = choose|k0: int| 0 <= k0 <= ids@.len() && !(#[trigger] ids@.contains(k0 as u128));
        if k0 < n {
            assert(ids@.contains(k0 as u128));
        } else {
            assert(k0 == n);
            assert(ids@.contains(n as u128));
            assert(ids@.contains(k0 as u128));
        }
        assert(false);
    }
    0
}

} // verus!
