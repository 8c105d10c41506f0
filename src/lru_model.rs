use vstd::prelude::*;

use crate::lru_store::{
    after_get, after_put, has_key, key_index, keys_unique, value_of, without_key, EntityPayload,
};

verus! {

/// Removing a key keeps the other keys unique, present, and bound to the same values.
pub proof fn lemma_without_key(e: Seq<(Seq<char>, EntityPayload)>, k: Seq<char>)
    requires
        keys_unique(e),
    ensures
        keys_unique(without_key(e, k)),
        !has_key(without_key(e, k), k),
        without_key(e, k).len() == if has_key(e, k) { e.len() - 1 } else { e.len() as int },
        forall|j: Seq<char>| #[trigger]
            has_key(without_key(e, k), j) <==> (has_key(e, j) && j != k),
        forall|j: Seq<char>| j != k ==> #[trigger] value_of(without_key(e, k), j) == value_of(e, j),
{
    if has_key(e, k) {
        let i = key_index(e, k);
        let r = e.remove(i);
        assert(r.len() == e.len() - 1);
        assert forall|m: int| 0 <= m < r.len() implies #[trigger] r[m] == (if m < i { e[m] } else { e[m + 1] }) by {}
        assert forall|a: int, b: int| 0 <= a < b < r.len() implies #[trigger] r[a].0 != #[trigger] r[b].0 by {
            let ea = if a < i { a } else { a + 1 };
            let eb = if b < i { b } else { b + 1 };
            assert(r[a] == e[ea]);
            assert(r[b] == e[eb]);
        }
        assert forall|j: Seq<char>| #[trigger] has_key(r, j) <==> (has_key(e, j) && j != k) by {
            if has_key(r, j) {
                let m = choose|m: int| 0 <= m < r.len() && #[trigger] r[m].0 == j;
                let em = if m < i { m } else { m + 1 };
                assert(e[em].0 == j);
                assert(em != i);
            }
            if has_key(e, j) && j != k {
                let n = choose|n: int| 0 <= n < e.len() && #[trigger] e[n].0 == j;
                assert(n != i);
                let rm = if n < i { n } else { n - 1 };
                assert(r[rm].0 == j);
            }
        }
        assert forall|j: Seq<char>| j != k implies #[trigger] value_of(r, j) == value_of(e, j) by {
            if has_key(r, j) {
                let m = key_index(r, j);
                let em = if m < i { m } else { m + 1 };
                assert(e[em].0 == j);
                let n = key_index(e, j);
                assert(n == em);
            }
        }
    }
}

/// A lookup keeps the keys unique and the number of entries unchanged.
pub proof fn lemma_after_get(e: Seq<(Seq<char>, EntityPayload)>, k: Seq<char>)
    requires
        keys_unique(e),
    ensures
        keys_unique(after_get(e, k)),
        after_get(e, k).len() == e.len(),
        value_of(after_get(e, k), k) == value_of(e, k),
{
    lemma_without_key(e, k);
    if has_key(e, k) {
        let r = after_get(e, k);
        let w = without_key(e, k);
        assert forall|a: int, b: int| 0 <= a < b < r.len() implies #[trigger] r[a].0 != #[trigger] r[b].0 by {
            assert(r[b] == w[b - 1]);
            if a == 0 {
                if r[b].0 == k {
                    assert(has_key(w, k));
                }
            } else {
                assert(r[a] == w[a - 1]);
            }
        }
        assert(r[0].0 == k);
        assert(has_key(r, k));
        assert(key_index(r, k) == 0);
    }
}

/// Storing keeps the keys unique and never lets the entries outgrow the capacity.
pub proof fn lemma_after_put(e: Seq<(Seq<char>, EntityPayload)>, cap: nat, k: Seq<char>, v: EntityPayload)
    requires
        keys_unique(e),
        e.len() <= cap,
        cap > 0,
    ensures
        keys_unique(after_put(e, cap, k, v)),
        after_put(e, cap, k, v).len() <= cap,
        value_of(after_put(e, cap, k, v), k) == Some(v),
{
    lemma_without_key(e, k);
    let r = after_put(e, cap, k, v);
    let rest = if has_key(e, k) {
        without_key(e, k)
    } else if e.len() >= cap {
        e.drop_last()
    } else {
        e
    };
    assert(r == seq![(k, v)] + rest);
    assert(!has_key(rest, k)) by {
        if !has_key(e, k) && has_key(rest, k) {
            let m = choose|m: int| 0 <= m < rest.len() && #[trigger] rest[m].0 == k;
            assert(e[m].0 == k);
        }
    }
    assert(keys_unique(rest)) by {
        assert forall|a: int, b: int| 0 <= a < b < rest.len() implies #[trigger] rest[a].0 != #[trigger] rest[b].0 by {
            if !has_key(e, k) {
                assert(rest[a] == e[a]);
                assert(rest[b] == e[b]);
            }
        }
    }
    assert forall|a: int, b: int| 0 <= a < b < r.len() implies #[trigger] r[a].0 != #[trigger] r[b].0 by {
        assert(r[b] == rest[b - 1]);
        if a == 0 {
            if r[b].0 == k {
                assert(rest[b - 1].0 == k);
            }
        } else {
            assert(r[a] == rest[a - 1]);
        }
    }
    assert(r[0].0 == k);
    assert(has_key(r, k));
    assert(key_index(r, k) == 0);
}

} // verus!

verus! {

/// Once a fetched payload has been stored under `id`, the next lookup of `id`
/// is a hit that returns it; and a lookup that hits keeps hitting with the same
/// payload. A second read of an id therefore never reaches the backend.
pub proof fn lemma_second_read_hits(
    e: Seq<(Seq<char>, EntityPayload)>,
    cap: nat,
    id: Seq<char>,
    p: EntityPayload,
)
    requires
        keys_unique(e),
        e.len() <= cap,
        cap > 0,
    ensures
        value_of(after_put(e, cap, id, p), id) == Some(p),
        has_key(e, id) ==> value_of(after_get(e, id), id) == value_of(e, id),
        has_key(e, id) ==> value_of(after_get(e, id), id) is Some,
{
    lemma_after_put(e, cap, id, p);
    lemma_after_get(e, id);
}

/// After `id` is invalidated the next lookup misses, whatever the cache held,
/// so exactly one fresh fetch follows; once that fetch is stored, lookups hit.
pub proof fn lemma_invalidate_forces_one_fetch(
    e: Seq<(Seq<char>, EntityPayload)>,
    cap: nat,
    id: Seq<char>,
    p: EntityPayload,
)
    requires
        keys_unique(e),
        e.len() <= cap,
        cap > 0,
    ensures
        value_of(without_key(e, id), id) is None,
        value_of(after_put(without_key(e, id), cap, id, p), id) == Some(p),
{
    lemma_without_key(e, id);
    lemma_after_put(without_key(e, id), cap, id, p);
}

/// Storing a new key into a full cache evicts exactly the least recently used
/// entry: the new key and every old key but the last one stay.
pub proof fn lemma_full_put_evicts_least_recent(
    e: Seq<(Seq<char>, EntityPayload)>,
    cap: nat,
    k: Seq<char>,
    v: EntityPayload,
)
    requires
        keys_unique(e),
        e.len() == cap,
        cap > 0,
        !has_key(e, k),
    ensures
        after_put(e, cap, k, v).len() == cap,
        !has_key(after_put(e, cap, k, v), e.last().0),
        forall|j: Seq<char>| #[trigger]
            has_key(after_put(e, cap, k, v), j) <==> (j == k || (has_key(e, j) && j != e.last().0)),
{
    let r = after_put(e, cap, k, v);
    let d = e.drop_last();
    assert(r == seq![(k, v)] + d);
    assert forall|j: Seq<char>| #[trigger] has_key(r, j) <==> (j == k || (has_key(e, j) && j != e.last().0)) by {
        if has_key(r, j) {
            let m = choose|m: int| 0 <= m < r.len() && #[trigger] r[m].0 == j;
            if m > 0 {
                assert(e[m - 1].0 == j);
                assert(e[m - 1].0 != e[e.len() - 1].0);
            }
        }
        if j == k {
            assert(r[0].0 == k);
        } else if has_key(e, j) && j != e.last().0 {
            let n = choose|n: int| 0 <= n < e.len() && #[trigger] e[n].0 == j;
            assert(n != e.len() - 1);
            assert(r[n + 1].0 == j);
        }
    }
    assert(e.last().0 != k) by {
        assert(e[e.len() - 1].0 == e.last().0);
    }
}

/// A key that was just read survives the next store of any other key, even into
/// a full cache: reading counts as use and protects it from eviction.
pub proof fn lemma_read_protects_from_eviction(
    e: Seq<(Seq<char>, EntityPayload)>,
    cap: nat,
    k: Seq<char>,
    j: Seq<char>,
    v: EntityPayload,
)
    requires
        keys_unique(e),
        e.len() <= cap,
        cap >= 2,
        has_key(e, k),
        j != k,
    ensures
        has_key(after_put(after_get(e, k), cap, j, v), k),
{
    lemma_after_get(e, k);
    let g = after_get(e, k);
    lemma_without_key(g, j);
    assert(g[0].0 == k);
    let r = after_put(g, cap, j, v);
    if has_key(g, j) {
        assert(has_key(without_key(g, j), k) <==> (has_key(g, k) && k != j));
        assert(has_key(g, k));
        let w = without_key(g, j);
        let m = choose|m: int| 0 <= m < w.len() && #[trigger] w[m].0 == k;
        assert(r[m + 1].0 == k);
    } else if g.len() >= cap {
        assert(r[1] == g[0]);
        assert(r[1].0 == k);
    } else {
        assert(r[1] == g[0]);
        assert(r[1].0 == k);
    }
}

} // verus!
