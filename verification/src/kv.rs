//! Association lists keyed by 64-bit keys, with the spec vocabulary the
//! store's contracts use: key presence, lookup, and key uniqueness.

use vstd::prelude::*;

verus! {

/// Whether `s` holds an entry with key `k`.
pub open spec fn has_key<V>(s: Seq<(u64, V)>, k: u64) -> bool {
    exists|i: int| 0 <= i < s.len() && (#[trigger] s[i]).0 == k
}

/// Index of the entry with key `k` (some such index, unique when keys are).
pub open spec fn key_index<V>(s: Seq<(u64, V)>, k: u64) -> int {
    choose|i: int| 0 <= i < s.len() && (#[trigger] s[i]).0 == k
}

/// Value stored under key `k`.
pub open spec fn lookup<V>(s: Seq<(u64, V)>, k: u64) -> V
    recommends
        has_key(s, k),
{
    s[key_index(s, k)].1
}

/// Whether the keys of `s` are pairwise distinct.
pub open spec fn unique_keys<V>(s: Seq<(u64, V)>) -> bool {
    forall|i: int, j: int| 0 <= i < j < s.len() ==> (#[trigger] s[i]).0 != (#[trigger] s[j]).0
}

/// With unique keys, the entry at any index holding `k` is the lookup result.
pub proof fn lemma_key_at<V>(s: Seq<(u64, V)>, k: u64, i: int)
    requires
        unique_keys(s),
        0 <= i < s.len(),
        s[i].0 == k,
    ensures
        has_key(s, k),
        key_index(s, k) == i,
        lookup(s, k) == s[i].1,
{
    assert(has_key(s, k));
    let j = key_index(s, k);
    assert(0 <= j < s.len() && s[j].0 == k);
    if i < j {
        assert(s[i].0 != s[j].0);
    }
    if j < i {
        assert(s[j].0 != s[i].0);
    }
}

/// Look a key up in an association list.
pub fn kv_get<V>(entries: &Vec<(u64, V)>, k: u64) -> (r: Option<&V>)
    requires
        unique_keys(entries@),
    ensures
        match r {
            Some(v) => has_key(entries@, k) && *v == lookup(entries@, k),
            None => !has_key(entries@, k),
        },
{
    let mut i: usize = 0;
    while i < entries.len()
        invariant
            unique_keys(entries@),
            0 <= i <= entries@.len(),
            forall|j: int| 0 <= j < i ==> (#[trigger] entries@[j]).0 != k,
        decreases entries@.len() - i,
    {
        if entries[i].0 == k {
            proof {
                lemma_key_at(entries@, k, i as int);
            }
            return Some(&entries[i].1);
        }
        i = i + 1;
    }
    None
}

/// Remove the entry with key `k`, if there is one, returning its value.
pub fn kv_take<V>(entries: &mut Vec<(u64, V)>, k: u64) -> (r: Option<V>)
    requires
        unique_keys(old(entries)@),
    ensures
        unique_keys(final(entries)@),
        !has_key(final(entries)@, k),
        forall|k2: u64|
            k2 != k ==> (has_key(final(entries)@, k2) <==> has_key(old(entries)@, k2)),
        forall|k2: u64|
            k2 != k && has_key(old(entries)@, k2) ==> lookup(final(entries)@, k2) == lookup(
                old(entries)@,
                k2,
            ),
        match r {
            Some(v) => has_key(old(entries)@, k) && v == lookup(old(entries)@, k),
            None => !has_key(old(entries)@, k),
        },
{
    let ghost orig = old(entries)@;
    let mut i: usize = 0;
    while i < entries.len()
        invariant
            orig == old(entries)@,
            entries@ == orig,
            unique_keys(orig),
            0 <= i <= orig.len(),
            forall|j: int| 0 <= j < i ==> (#[trigger] orig[j]).0 != k,
        decreases orig.len() - i,
    {
        if entries[i].0 == k {
            proof {
                lemma_key_at(orig, k, i as int);
            }
            let removed = entries.remove(i);
            proof {
                let now = entries@;
                assert forall|j: int| 0 <= j < now.len() implies #[trigger] now[j] == (if j < i {
                    orig[j]
                } else {
                    orig[j + 1]
                }) by {
                    assert(now == orig.subrange(0, i as int) + orig.subrange(
                        i as int + 1,
                        orig.len() as int,
                    ));
                }
                assert(unique_keys(now));
                assert forall|k2: u64| k2 != k && has_key(orig, k2) implies has_key(now, k2)
                    && lookup(now, k2) == lookup(orig, k2) by {
                    let j = key_index(orig, k2);
                    if j < i {
                        lemma_key_at(now, k2, j);
                    } else {
                        assert(orig[i as int].0 != orig[j].0);
                        assert(now[j - 1] == orig[j]);
                        lemma_key_at(now, k2, j - 1);
                    }
                }
                assert forall|k2: u64| has_key(now, k2) implies has_key(orig, k2) by {
                    let j = key_index(now, k2);
                    if j < i {
                        assert(orig[j].0 == k2);
                    } else {
                        assert(orig[j + 1].0 == k2);
                    }
                }
                assert forall|j: int| 0 <= j < now.len() implies (#[trigger] now[j]).0 != k by {
                    if j >= i {
                        assert(orig[i as int].0 != orig[j + 1].0);
                    }
                }
                assert(!has_key(now, k));
            }
            return Some(removed.1);
        }
        i = i + 1;
    }
    None
}

/// Insert a value under a key, replacing any previous value there.
pub fn kv_set<V>(entries: &mut Vec<(u64, V)>, k: u64, v: V)
    requires
        unique_keys(old(entries)@),
    ensures
        unique_keys(final(entries)@),
        has_key(final(entries)@, k),
        lookup(final(entries)@, k) == v,
        forall|k2: u64|
            k2 != k ==> (has_key(final(entries)@, k2) <==> has_key(old(entries)@, k2)),
        forall|k2: u64|
            k2 != k && has_key(old(entries)@, k2) ==> lookup(final(entries)@, k2) == lookup(
                old(entries)@,
                k2,
            ),
{
    let _ = kv_take(entries, k);
    let ghost mid = entries@;
    entries.push((k, v));
    proof {
        let now = entries@;
        assert(now == mid.push((k, v)));
        lemma_key_at(now, k, now.len() - 1);
        assert forall|k2: u64| k2 != k && has_key(mid, k2) implies has_key(now, k2) && lookup(
            now,
            k2,
        ) == lookup(mid, k2) by {
            let j = key_index(mid, k2);
            lemma_key_at(now, k2, j);
        }
        assert forall|k2: u64| k2 != k && has_key(now, k2) implies has_key(mid, k2) by {
            let j = key_index(now, k2);
            assert(0 <= j < now.len() - 1);
            assert(mid[j].0 == k2);
        }
    }
}

/// Keep only the entries whose key is at least `anchor`.
pub fn kv_retain_keys_ge<V>(entries: &mut Vec<(u64, V)>, anchor: u64)
    requires
        unique_keys(old(entries)@),
    ensures
        unique_keys(final(entries)@),
        forall|k: u64|
            has_key(final(entries)@, k) <==> (has_key(old(entries)@, k) && k >= anchor),
        forall|k: u64|
            has_key(final(entries)@, k) ==> lookup(final(entries)@, k) == lookup(
                old(entries)@,
                k,
            ),
{
    let ghost orig = old(entries)@;
    let mut kept: Vec<(u64, V)> = Vec::new();
    let ghost mut done: int = 0;
    while entries.len() > 0
        invariant
            orig == old(entries)@,
            0 <= done <= orig.len(),
            entries@ == orig.subrange(done, orig.len() as int),
            unique_keys(orig),
            unique_keys(kept@),
            forall|j: int|
                0 <= j < kept@.len() ==> exists|l: int|
                    0 <= l < done && #[trigger] kept@[j] == #[trigger] orig[l],
            forall|j: int| 0 <= j < kept@.len() ==> (#[trigger] kept@[j]).0 >= anchor,
            forall|l: int|
                0 <= l < done && (#[trigger] orig[l]).0 >= anchor ==> has_key(kept@, orig[l].0)
                    && lookup(kept@, orig[l].0) == orig[l].1,
        decreases entries@.len(),
    {
        let e = entries.remove(0);
        proof {
            assert(e == orig[done]);
            assert(entries@ =~= orig.subrange(done + 1, orig.len() as int));
        }
        if e.0 >= anchor {
            let ghost pre = kept@;
            kept.push(e);
            proof {
                assert forall|p: int, q: int| 0 <= p < q < kept@.len() implies (
                #[trigger] kept@[p]).0 != (#[trigger] kept@[q]).0 by {
                    if q == kept@.len() - 1 {
                        let l = choose|l: int| 0 <= l < done && pre[p] == orig[l];
                        assert(orig[l].0 != orig[done].0);
                    }
                }
                assert forall|j: int| 0 <= j < kept@.len() implies exists|l: int|
                    0 <= l < done + 1 && #[trigger] kept@[j] == #[trigger] orig[l] by {
                    if j == kept@.len() - 1 {
                        assert(kept@[j] == orig[done]);
                    } else {
                        let l = choose|l: int| 0 <= l < done && pre[j] == orig[l];
                        assert(kept@[j] == orig[l]);
                    }
                }
                assert forall|l: int|
                    0 <= l < done + 1 && (#[trigger] orig[l]).0 >= anchor implies has_key(
                    kept@,
                    orig[l].0,
                ) && lookup(kept@, orig[l].0) == orig[l].1 by {
                    if l == done {
                        lemma_key_at(kept@, orig[l].0, kept@.len() - 1);
                    } else {
                        let j = key_index(pre, orig[l].0);
                        lemma_key_at(kept@, orig[l].0, j);
                    }
                }
            }
        } else {
            proof {
                assert forall|l: int|
                    0 <= l < done + 1 && (#[trigger] orig[l]).0 >= anchor implies has_key(
                    kept@,
                    orig[l].0,
                ) && lookup(kept@, orig[l].0) == orig[l].1 by {
                    assert(l != done);
                }
            }
        }
        proof {
            done = done + 1;
        }
    }
    proof {
        assert(done == orig.len());
    }
    *entries = kept;
    proof {
        let now = entries@;
        assert forall|k: u64| has_key(now, k) implies has_key(orig, k) && k >= anchor && lookup(
            now,
            k,
        ) == lookup(orig, k) by {
            let j = key_index(now, k);
            let l = choose|l: int| 0 <= l < done && now[j] == orig[l];
            lemma_key_at(orig, k, l);
            lemma_key_at(now, k, j);
        }
        assert forall|k: u64| has_key(orig, k) && k >= anchor implies has_key(now, k) by {
            let l = key_index(orig, k);
        }
    }
}

} // verus!
