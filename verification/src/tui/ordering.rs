//! Stable orders: the positions of a list sorted by keys, equal keys in
//! their first order, and the list put in that order.
use vstd::prelude::*;
use crate::text::{compare_chars, lemma_seq_lt_transitive, lemma_seq_lt_trichotomy, seq_lt};

verus! {

/// `a` goes before `b`: a key marked true before one marked false, then by
/// the text.
pub open spec fn key_lt(a: (bool, Seq<char>), b: (bool, Seq<char>)) -> bool {
    (a.0 && !b.0) || (a.0 == b.0 && seq_lt(a.1, b.1))
}

/// `perm` lists each of `0..n` once.
pub open spec fn is_permutation(perm: Seq<usize>, n: nat) -> bool {
    &&& perm.len() == n
    &&& forall|k: int| 0 <= k < perm.len() ==> #[trigger] perm[k] < n
    &&& forall|p: int, q: int| 0 <= p < q < perm.len() ==> perm[p] != perm[q]
}

/// `perm` orders the keys, equal keys keeping their original order.
pub open spec fn stably_sorted(keys: Seq<(bool, Seq<char>)>, perm: Seq<usize>) -> bool {
    &&& forall|p: int, q: int| 0 <= p < q < perm.len() ==> !key_lt(keys[perm[q] as int], keys[perm[p] as int])
    &&& forall|p: int, q: int| 0 <= p < q < perm.len() && keys[perm[p] as int] == keys[perm[q] as int]
        ==> perm[p] < perm[q]
}

pub proof fn lemma_key_order(a: (bool, Seq<char>), b: (bool, Seq<char>), c: (bool, Seq<char>))
    ensures
        !key_lt(a, a),
        key_lt(a, b) ==> !key_lt(b, a),
        key_lt(c, a) ==> key_lt(c, b) || key_lt(b, a),
        a != b ==> key_lt(a, b) || key_lt(b, a),
{
    lemma_seq_lt_trichotomy(a.1, a.1);
    lemma_seq_lt_trichotomy(a.1, b.1);
    lemma_seq_lt_trichotomy(b.1, c.1);
    lemma_seq_lt_trichotomy(a.1, c.1);
    if key_lt(c, a) && !key_lt(c, b) && !key_lt(b, a) {
        if c.0 == a.0 && a.0 == b.0 {
            if seq_lt(b.1, c.1) {
                lemma_seq_lt_transitive(b.1, c.1, a.1);
            } else if b.1 == c.1 {
            }
        }
    }
    if a != b && a.0 == b.0 {
        assert(a.1 != b.1);
    }
}

pub fn key_less(a: &(bool, Vec<char>), b: &(bool, Vec<char>)) -> (r: bool)
    ensures
        r == key_lt((a.0, a.1@), (b.0, b.1@)),
{
    if a.0 && !b.0 {
        return true;
    }
    a.0 == b.0 && compare_chars(&a.1, &b.1) == -1
}

/// The order of the catalogue: positions of `keys` sorted stably.
pub fn stable_order(keys: &Vec<(bool, Vec<char>)>) -> (perm: Vec<usize>)
    ensures
        is_permutation(perm@, keys@.len()),
        stably_sorted(keys@.map_values(|k: (bool, Vec<char>)| (k.0, k.1@)), perm@),
{
    let ghost kv = keys@.map_values(|k: (bool, Vec<char>)| (k.0, k.1@));
    let mut perm: Vec<usize> = Vec::new();
    let mut i: usize = 0;
    while i < keys.len()
        invariant
            0 <= i <= keys@.len(),
            kv == keys@.map_values(|k: (bool, Vec<char>)| (k.0, k.1@)),
            is_permutation(perm@, i as nat),
            stably_sorted(kv, perm@),
        decreases keys.len() - i,
    {
        let mut j = perm.len();
        while j > 0 && key_less(&keys[i], &keys[perm[j - 1]])
            invariant
                0 <= j <= perm@.len(),
                i < keys@.len(),
                is_permutation(perm@, i as nat),
                kv == keys@.map_values(|k: (bool, Vec<char>)| (k.0, k.1@)),
                forall|q: int| j <= q < perm@.len() ==> #[trigger] key_lt(kv[i as int], kv[perm@[q] as int]),
            decreases j,
        {
            proof {
                assert(kv[perm@[j - 1] as int] == (keys@[perm@[j - 1] as int].0, keys@[perm@[j - 1] as int].1@));
            }
            j = j - 1;
        }
        proof {
            if j > 0 {
                assert(kv[perm@[j - 1] as int] == (keys@[perm@[j - 1] as int].0, keys@[perm@[j - 1] as int].1@));
            }
        }
        let ghost old_perm = perm@;
        perm.insert(j, i);
        proof {
            let np = perm@;
            assert(np =~= old_perm.take(j as int).push(i) + old_perm.skip(j as int));
            assert forall|k: int| 0 <= k < np.len() implies #[trigger] np[k] < i + 1 by {
                if k < j { assert(np[k] == old_perm[k]); } else if k > j { assert(np[k] == old_perm[k - 1]); }
            }
            assert forall|p: int, q: int| 0 <= p < q < np.len() implies np[p] != np[q] by {
                if p < j && q > j { assert(np[q] == old_perm[q - 1]); }
                if p > j { assert(np[p] == old_perm[p - 1]); assert(np[q] == old_perm[q - 1]); }
            }
            assert forall|p: int, q: int| 0 <= p < q < np.len() implies !key_lt(kv[np[q] as int], kv[np[p] as int]) by {
                let ki = kv[i as int];
                if q == j {
                    // everything before the new key is at most it
                    assert(np[p] == old_perm[p]);
                    if j > 0 {
                        if p < j - 1 {
                            assert(!key_lt(kv[old_perm[j - 1] as int], kv[old_perm[p] as int]));
                        }
                        lemma_key_order(kv[old_perm[p] as int], kv[old_perm[j - 1] as int], ki);
                    }
                } else if p == j {
                    assert(np[q] == old_perm[q - 1]);
                    assert(key_lt(ki, kv[old_perm[q - 1] as int]));
                    lemma_key_order(ki, kv[old_perm[q - 1] as int], ki);
                } else {
                    let op = if p < j { p } else { p - 1 };
                    let oq = if q < j { q } else { q - 1 };
                    assert(np[p] == old_perm[op]);
                    assert(np[q] == old_perm[oq]);
                }
            }
            assert forall|p: int, q: int| 0 <= p < q < np.len() && kv[np[p] as int] == kv[np[q] as int] implies np[p] < np[q] by {
                let ki = kv[i as int];
                if q == j {
                    assert(np[p] == old_perm[p]);
                } else if p == j {
                    assert(np[q] == old_perm[q - 1]);
                    assert(key_lt(ki, kv[old_perm[q - 1] as int]));
                    lemma_key_order(ki, ki, ki);
                } else {
                    let op = if p < j { p } else { p - 1 };
                    let oq = if q < j { q } else { q - 1 };
                    assert(np[p] == old_perm[op]);
                    assert(np[q] == old_perm[oq]);
                }
            }
        }
        i = i + 1;
    }
    perm
}


/// The list in the order `perm`.
pub open spec fn permuted<T>(v: Seq<T>, perm: Seq<usize>) -> Seq<T> {
    perm.map_values(|i: usize| v[i as int])
}

/// Puts a list in the order `perm`.
pub fn reorder<T>(v: Vec<T>, perm: &Vec<usize>) -> (r: Vec<T>)
    requires
        is_permutation(perm@, v@.len()),
    ensures
        r@ == permuted(v@, perm@),
{
    let ghost orig = v@;
    let n = v.len();
    let mut slots: Vec<Option<T>> = Vec::new();
    let mut rest = v;
    while rest.len() > 0
        invariant
            rest@.len() + slots@.len() == n,
            n == orig.len(),
            rest@ == orig.take(rest@.len() as int),
            forall|j: int| 0 <= j < slots@.len() ==> #[trigger] slots@[j] == Some(orig[n - 1 - j]),
        decreases rest@.len(),
    {
        let x = rest.pop().unwrap();
        slots.push(Some(x));
        assert(rest@ =~= orig.take(rest@.len() as int));
    }
    let mut out: Vec<T> = Vec::new();
    let mut k: usize = 0;
    while k < n
        invariant
            0 <= k <= n,
            n == orig.len(),
            slots@.len() == n,
            is_permutation(perm@, n as nat),
            out@ == permuted(orig, perm@).take(k as int),
            forall|j: int| 0 <= j < n ==> (#[trigger] slots@[j] is Some <==> !(exists|q: int| 0 <= q < k && perm@[q] == n - 1 - j)),
            forall|j: int| 0 <= j < n && #[trigger] slots@[j] is Some ==> slots@[j] == Some(orig[n - 1 - j]),
        decreases n - k,
    {
        let p = perm[k];
        let j = n - 1 - p;
        proof {
            assert(!(exists|q: int| 0 <= q < k && perm@[q] == n - 1 - j)) by {
                if exists|q: int| 0 <= q < k && perm@[q] == n - 1 - j {
                    let q = choose|q: int| 0 <= q < k && perm@[q] == n - 1 - j;
                    assert(perm@[q] != perm@[k as int]);
                }
            }
        }
        let mut taken: Option<T> = None;
        std::mem::swap(&mut slots[j], &mut taken);
        let x = taken.unwrap();
        out.push(x);
        proof {
            assert forall|i: int| 0 <= i < n implies (#[trigger] slots@[i] is Some <==> !(exists|q: int| 0 <= q < k + 1 && perm@[q] == n - 1 - i)) by {
                if i != j {
                    if exists|q: int| 0 <= q < k + 1 && perm@[q] == n - 1 - i {
                        let q = choose|q: int| 0 <= q < k + 1 && perm@[q] == n - 1 - i;
                        assert(q != k);
                    }
                }
            }
            assert(out@ =~= permuted(orig, perm@).take(k + 1));
        }
        k += 1;
    }
    assert(permuted(orig, perm@).take(n as int) =~= permuted(orig, perm@));
    out
}

/// `perm` orders the integer keys from the greatest down, equal keys
/// keeping their original order.
pub open spec fn stably_descending(keys: Seq<i64>, perm: Seq<usize>) -> bool {
    &&& forall|p: int, q: int| 0 <= p < q < perm.len() ==> keys[perm[q] as int] <= keys[perm[p] as int]
    &&& forall|p: int, q: int| 0 <= p < q < perm.len() && keys[perm[p] as int] == keys[perm[q] as int]
        ==> perm[p] < perm[q]
}

/// The positions of the keys, greatest first, in a stable order.
pub fn stable_order_descending(keys: &Vec<i64>) -> (perm: Vec<usize>)
    ensures
        is_permutation(perm@, keys@.len()),
        stably_descending(keys@, perm@),
{
    let mut perm: Vec<usize> = Vec::new();
    let mut i: usize = 0;
    while i < keys.len()
        invariant
            0 <= i <= keys@.len(),
            is_permutation(perm@, i as nat),
            stably_descending(keys@, perm@),
        decreases keys.len() - i,
    {
        let mut j = perm.len();
        while j > 0 && keys[i] > keys[perm[j - 1]]
            invariant
                0 <= j <= perm@.len(),
                i < keys@.len(),
                is_permutation(perm@, i as nat),
                forall|q: int| j <= q < perm@.len() ==> keys@[i as int] > keys@[#[trigger] perm@[q] as int],
            decreases j,
        {
            j = j - 1;
        }
        let ghost old_perm = perm@;
        perm.insert(j, i);
        proof {
            let np = perm@;
            assert(np =~= old_perm.take(j as int).push(i) + old_perm.skip(j as int));
            assert forall|k: int| 0 <= k < np.len() implies #[trigger] np[k] < i + 1 by {
                if k < j { assert(np[k] == old_perm[k]); } else if k > j { assert(np[k] == old_perm[k - 1]); }
            }
            assert forall|p: int, q: int| 0 <= p < q < np.len() implies np[p] != np[q] by {
                if p < j && q > j { assert(np[q] == old_perm[q - 1]); }
                if p > j { assert(np[p] == old_perm[p - 1]); assert(np[q] == old_perm[q - 1]); }
            }
            assert forall|p: int, q: int| 0 <= p < q < np.len() implies keys@[np[q] as int] <= keys@[np[p] as int] by {
                if q == j {
                    assert(np[p] == old_perm[p]);
                    if j > 0 && p < j - 1 {
                        assert(keys@[old_perm[j - 1] as int] <= keys@[old_perm[p] as int]);
                    }
                } else if p == j {
                    assert(np[q] == old_perm[q - 1]);
                } else {
                    let op = if p < j { p } else { p - 1 };
                    let oq = if q < j { q } else { q - 1 };
                    assert(np[p] == old_perm[op]);
                    assert(np[q] == old_perm[oq]);
                }
            }
            assert forall|p: int, q: int| 0 <= p < q < np.len() && keys@[np[p] as int] == keys@[np[q] as int] implies np[p] < np[q] by {
                if q == j {
                    assert(np[p] == old_perm[p]);
                } else if p == j {
                    assert(np[q] == old_perm[q - 1]);
                } else {
                    let op = if p < j { p } else { p - 1 };
                    let oq = if q < j { q } else { q - 1 };
                    assert(np[p] == old_perm[op]);
                    assert(np[q] == old_perm[oq]);
                }
            }
        }
        i = i + 1;
    }
    perm
}

} // verus!
