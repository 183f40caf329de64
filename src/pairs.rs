use vstd::prelude::*;

verus! {

/// The mapping that a list of keyed entries stands for: each key maps to the
/// value of its last occurrence in the list.
pub open spec fn key_map<V>(entries: Seq<(String, V)>) -> Map<Seq<char>, V>
    decreases entries.len(),
{
    if entries.len() == 0 {
        Map::empty()
    } else {
        key_map(entries.drop_last()).insert(entries.last().0@, entries.last().1)
    }
}

/// The mapping of names to values that a list of text pairs stands for: each
/// name maps to the value of its last occurrence in the list.
pub open spec fn pair_map(pairs: Seq<(String, String)>) -> Map<Seq<char>, Seq<char>> {
    key_map(pairs).map_values(|v: String| v@)
}

/// No key occurs twice in the list.
pub open spec fn distinct_keys<V>(entries: Seq<(String, V)>) -> bool {
    forall|i: int, j: int| 0 <= i < j < entries.len() ==> entries[i].0@ != entries[j].0@
}

/// Appending an entry sets its key to its value.
pub proof fn lemma_key_map_push<V>(entries: Seq<(String, V)>, e: (String, V))
    ensures
        key_map(entries.push(e)) == key_map(entries).insert(e.0@, e.1),
{
    assert(entries.push(e).drop_last() =~= entries);
}

proof fn lemma_key_map_update<V>(entries: Seq<(String, V)>, k: int, e: (String, V))
    requires
        distinct_keys(entries),
        0 <= k < entries.len(),
        e.0@ == entries[k].0@,
    ensures
        key_map(entries.update(k, e)) == key_map(entries).insert(e.0@, e.1),
    decreases entries.len(),
{
    let upd = entries.update(k, e);
    if k == entries.len() - 1 {
        assert(upd.drop_last() =~= entries.drop_last());
        assert(key_map(upd) =~= key_map(entries).insert(e.0@, e.1));
    } else {
        let front = entries.drop_last();
        assert(upd.drop_last() =~= front.update(k, e));
        lemma_key_map_update(front, k, e);
        assert(entries.last().0@ != e.0@);
        assert(key_map(upd) =~= key_map(entries).insert(e.0@, e.1));
    }
}

/// Where a name occurs more than once, the mapping holds the later value: a
/// value at index `j` that no later pair overrides is what the name maps to,
/// whatever came before it.
pub proof fn lemma_later_pair_wins(pairs: Seq<(String, String)>, i: int, j: int)
    requires
        0 <= i < j < pairs.len(),
        pairs[i].0@ == pairs[j].0@,
        forall|k: int| j < k < pairs.len() ==> pairs[k].0@ != pairs[j].0@,
    ensures
        pair_map(pairs).contains_key(pairs[j].0@),
        pair_map(pairs)[pairs[j].0@] == pairs[j].1@,
{
    lemma_last_occurrence(pairs, j);
}

/// An entry that no later entry overrides gives its key's value.
pub proof fn lemma_last_occurrence<V>(entries: Seq<(String, V)>, j: int)
    requires
        0 <= j < entries.len(),
        forall|k: int| j < k < entries.len() ==> entries[k].0@ != entries[j].0@,
    ensures
        key_map(entries).contains_key(entries[j].0@),
        key_map(entries)[entries[j].0@] == entries[j].1,
    decreases entries.len(),
{
    if j < entries.len() - 1 {
        let front = entries.drop_last();
        assert forall|k: int| j < k < front.len() implies front[k].0@ != front[j].0@ by {
            assert(front[k] == entries[k]);
        }
        lemma_last_occurrence(front, j);
    }
}

/// A key that no entry carries is absent from the mapping.
pub proof fn lemma_absent_key<V>(entries: Seq<(String, V)>, key: Seq<char>)
    requires
        forall|m: int| 0 <= m < entries.len() ==> entries[m].0@ != key,
    ensures
        !key_map(entries).contains_key(key),
    decreases entries.len(),
{
    if entries.len() > 0 {
        let front = entries.drop_last();
        assert forall|m: int| 0 <= m < front.len() implies front[m].0@ != key by {
            assert(front[m] == entries[m]);
        }
        lemma_absent_key(front, key);
    }
}

/// Taking out the entry at `k` of a list with distinct keys takes its key out
/// of the mapping.
pub proof fn lemma_key_map_remove<V>(entries: Seq<(String, V)>, k: int)
    requires
        distinct_keys(entries),
        0 <= k < entries.len(),
    ensures
        key_map(entries).contains_key(entries[k].0@),
        key_map(entries)[entries[k].0@] == entries[k].1,
        key_map(entries.remove(k)) == key_map(entries).remove(entries[k].0@),
    decreases entries.len(),
{
    let front = entries.drop_last();
    if k == entries.len() - 1 {
        assert(entries.remove(k) =~= front);
        assert forall|m: int| 0 <= m < front.len() implies front[m].0@ != entries[k].0@ by {
            assert(front[m] == entries[m]);
        }
        lemma_absent_key(front, entries[k].0@);
        assert(key_map(entries.remove(k)) =~= key_map(entries).remove(entries[k].0@));
    } else {
        assert(front[k] == entries[k]);
        lemma_key_map_remove(front, k);
        assert(entries.remove(k) =~= front.remove(k).push(entries.last()));
        lemma_key_map_push(front.remove(k), entries.last());
        assert(key_map(entries.remove(k)) =~= key_map(entries).remove(entries[k].0@));
    }
}

/// Position of an entry that carries `key`, if any.
pub fn find_key<V>(entries: &Vec<(String, V)>, key: &String) -> (r: Option<usize>)
    ensures
        match r {
            Some(k) => k < entries@.len() && entries@[k as int].0@ == key@,
            None => forall|m: int| 0 <= m < entries@.len() ==> entries@[m].0@ != key@,
        },
{
    let mut k: usize = 0;
    while k < entries.len()
        invariant
            k <= entries.len(),
            forall|m: int| 0 <= m < k ==> entries@[m].0@ != key@,
        decreases entries.len() - k,
    {
        if entries[k].0 == *key {
            return Some(k);
        }
        k = k + 1;
    }
    None
}

/// The value of the last pair that carries `key`: what `key` maps to in
/// [`pair_map`].
pub fn lookup_last<'a>(pairs: &'a Vec<(String, String)>, key: &String) -> (r: Option<&'a String>)
    ensures
        match r {
            Some(v) => pair_map(pairs@).contains_key(key@) && v@ == pair_map(pairs@)[key@],
            None => !pair_map(pairs@).contains_key(key@),
        },
{
    let mut k: usize = pairs.len();
    while k > 0
        invariant
            k <= pairs.len(),
            forall|m: int| k <= m < pairs@.len() ==> pairs@[m].0@ != key@,
        decreases k,
    {
        k = k - 1;
        if pairs[k].0 == *key {
            proof {
                lemma_last_occurrence(pairs@, k as int);
            }
            return Some(&pairs[k].1);
        }
    }
    proof {
        lemma_absent_key(pairs@, key@);
    }
    None
}

/// Flattens name/value pairs into a list with one entry per name, keeping for
/// each name the value of its last occurrence.
pub fn fold_pairs(raw: &Vec<(String, String)>) -> (r: Vec<(String, String)>)
    ensures
        distinct_keys(r@),
        pair_map(r@) == pair_map(raw@),
{
    let mut out: Vec<(String, String)> = Vec::new();
    let mut i: usize = 0;
    while i < raw.len()
        invariant
            i <= raw.len(),
            distinct_keys(out@),
            key_map(out@) == key_map(raw@.take(i as int)),
        decreases raw.len() - i,
    {
        let name = raw[i].0.clone();
        let value = raw[i].1.clone();
        let p = (name, value);
        assert(raw@.take(i + 1).drop_last() =~= raw@.take(i as int));
        assert(p == raw@[i as int]);
        let found = find_key(&out, &p.0);
        if let Some(k) = found {
            proof {
                lemma_key_map_update(out@, k as int, p);
            }
            out.set(k, p);
        } else {
            proof {
                lemma_key_map_push(out@, p);
            }
            out.push(p);
        }
        i = i + 1;
    }
    assert(raw@.take(raw.len() as int) =~= raw@);
    out
}

} // verus!
