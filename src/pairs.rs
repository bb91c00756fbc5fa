use vstd::prelude::*;

verus! {

/// No key occurs twice in a list of pairs.
pub open spec fn unique_keys<V>(pairs: Seq<(String, V)>) -> bool {
    forall|i: int, j: int|
        0 <= i < j < pairs.len() ==> #[trigger] pairs[i].0@ != #[trigger] pairs[j].0@
}

/// The index of `key` among the keys of a list of pairs, if it occurs.
pub open spec fn index_of<V>(pairs: Seq<(String, V)>, key: Seq<char>) -> Option<int> {
    if exists|i: int| 0 <= i < pairs.len() && #[trigger] pairs[i].0@ == key {
        Some(choose|i: int| 0 <= i < pairs.len() && #[trigger] pairs[i].0@ == key)
    } else {
        None
    }
}

/// Replacing a pair by one with the same key keeps the keys unique.
pub proof fn lemma_unique_update<V>(pairs: Seq<(String, V)>, i: int, p: (String, V))
    requires
        unique_keys(pairs),
        0 <= i < pairs.len(),
        p.0@ == pairs[i].0@,
    ensures
        unique_keys(pairs.update(i, p)),
{
    let q = pairs.update(i, p);
    assert forall|a: int, b: int| 0 <= a < b < q.len() implies #[trigger] q[a].0@ != #[trigger] q[b].0@ by {
        assert(pairs[a].0@ != pairs[b].0@);
    }
}

/// Appending a pair whose key is new keeps the keys unique.
pub proof fn lemma_unique_push<V>(pairs: Seq<(String, V)>, p: (String, V))
    requires
        unique_keys(pairs),
        forall|k: int| 0 <= k < pairs.len() ==> #[trigger] pairs[k].0@ != p.0@,
    ensures
        unique_keys(pairs.push(p)),
{
    let q = pairs.push(p);
    assert forall|a: int, b: int| 0 <= a < b < q.len() implies #[trigger] q[a].0@ != #[trigger] q[b].0@ by {
        if b < pairs.len() {
            assert(pairs[a].0@ != pairs[b].0@);
        } else {
            assert(pairs[a].0@ != p.0@);
        }
    }
}

/// Whether no key occurs twice in a list of pairs.
pub fn keys_unique<V>(pairs: &Vec<(String, V)>) -> (r: bool)
    ensures
        r == unique_keys(pairs@),
{
    let n = pairs.len();
    let mut a: usize = 0;
    while a < n
        invariant
            n == pairs@.len(),
            a <= n,
            forall|x: int, y: int|
                0 <= x < a && x < y < n ==> #[trigger] pairs@[x].0@ != #[trigger] pairs@[y].0@,
        decreases n - a,
    {
        let mut b: usize = a + 1;
        while b < n
            invariant
                n == pairs@.len(),
                a < n,
                a < b <= n,
                forall|x: int, y: int|
                    0 <= x < a && x < y < n ==> #[trigger] pairs@[x].0@ != #[trigger] pairs@[y].0@,
                forall|y: int| a < y < b ==> pairs@[a as int].0@ != #[trigger] pairs@[y].0@,
            decreases n - b,
        {
            if pairs[a].0 == pairs[b].0 {
                assert(pairs@[a as int].0@ == pairs@[b as int].0@);
                return false;
            }
            b = b + 1;
        }
        a = a + 1;
    }
    true
}

/// Finds the position of `key` among the keys of a list of pairs.
pub fn find_key<V>(pairs: &Vec<(String, V)>, key: &String) -> (r: Option<usize>)
    ensures
        r matches Some(i) ==> i < pairs@.len() && pairs@[i as int].0@ == key@,
        r is None ==> forall|i: int| 0 <= i < pairs@.len() ==> #[trigger] pairs@[i].0@ != key@,
{
    let mut j: usize = 0;
    while j < pairs.len()
        invariant
            j <= pairs@.len(),
            forall|i: int| 0 <= i < j ==> #[trigger] pairs@[i].0@ != key@,
        decreases pairs@.len() - j,
    {
        if pairs[j].0 == *key {
            return Some(j);
        }
        j = j + 1;
    }
    None
}

} // verus!
