//! Field merge: normalizes an ordered sequence of (field name, value) pairs
//! into a mapping with unique keys, combining the values of duplicate keys so
//! that no constraint contributed under a field name is dropped.

use vstd::prelude::*;

use crate::value::{pair_seq_view, value_seq_view, value_view, Value, ValueView};

verus! {

broadcast use vstd::std_specs::vec::group_vec_axioms;

/// A serialized argument entry at the specification level.
pub type FieldPair = (Seq<char>, ValueView);

/// How two values contributed under one field name combine: two objects pool
/// their entries and two lists concatenate (both constraints stay); any other
/// pairing keeps the later value.
pub open spec fn combine_values(a: ValueView, b: ValueView) -> ValueView {
    match (a, b) {
        (ValueView::Object(x), ValueView::Object(y)) => ValueView::Object(x + y),
        (ValueView::List(x), ValueView::List(y)) => ValueView::List(x + y),
        (_, b) => b,
    }
}

/// Folds one (key, value) pair into an accumulated mapping: the first entry
/// with the same key absorbs the value via [`combine_values`]; a new key is
/// appended.
pub open spec fn merge_entry(acc: Seq<FieldPair>, key: Seq<char>, value: ValueView) -> Seq<FieldPair>
    decreases acc.len(),
{
    if acc.len() == 0 {
        seq![(key, value)]
    } else if acc[0].0 == key {
        seq![(acc[0].0, combine_values(acc[0].1, value))] + acc.drop_first()
    } else {
        seq![acc[0]] + merge_entry(acc.drop_first(), key, value)
    }
}

/// The merged form of a pair sequence: each pair folded in, left to right.
pub open spec fn merged_fields(fields: Seq<FieldPair>) -> Seq<FieldPair>
    decreases fields.len(),
{
    if fields.len() == 0 {
        Seq::<FieldPair>::empty()
    } else {
        merge_entry(merged_fields(fields.drop_last()), fields.last().0, fields.last().1)
    }
}

/// Whether some entry of `s` carries the key `key`.
pub open spec fn has_key(s: Seq<FieldPair>, key: Seq<char>) -> bool {
    exists|i: int| 0 <= i < s.len() && s[i].0 == key
}

/// The position of the first entry of `s` carrying `key` (the length of `s`
/// when no entry does).
pub open spec fn key_index(s: Seq<FieldPair>, key: Seq<char>) -> int
    decreases s.len(),
{
    if s.len() == 0 {
        0
    } else if s[0].0 == key {
        0
    } else {
        1 + key_index(s.drop_first(), key)
    }
}

/// The keys of a pair sequence, in order.
pub open spec fn keys_of(s: Seq<FieldPair>) -> Seq<Seq<char>> {
    Seq::new(s.len(), |i: int| s[i].0)
}

/// The distinct keys of a pair sequence, in first-occurrence order.
pub open spec fn distinct_keys(s: Seq<FieldPair>) -> Seq<Seq<char>>
    decreases s.len(),
{
    if s.len() == 0 {
        Seq::<Seq<char>>::empty()
    } else {
        let d = distinct_keys(s.drop_last());
        if has_key(s.drop_last(), s.last().0) {
            d
        } else {
            d.push(s.last().0)
        }
    }
}

/// `key_index` is the first occurrence of the key, and falls off the end
/// exactly when the key is absent.
pub proof fn lemma_key_index(s: Seq<FieldPair>, key: Seq<char>)
    ensures
        has_key(s, key) ==> {
            &&& 0 <= key_index(s, key) < s.len()
            &&& s[key_index(s, key)].0 == key
            &&& forall|i: int| 0 <= i < key_index(s, key) ==> s[i].0 != key
        },
        !has_key(s, key) ==> key_index(s, key) == s.len(),
    decreases s.len(),
{
    if s.len() == 0 {
    } else if s[0].0 == key {
    } else {
        lemma_key_index(s.drop_first(), key);
        assert(has_key(s, key) ==> has_key(s.drop_first(), key)) by {
            if has_key(s, key) {
                let w = choose|i: int| 0 <= i < s.len() && s[i].0 == key;
                assert(s.drop_first()[w - 1].0 == key);
            }
        }
        assert(has_key(s.drop_first(), key) ==> has_key(s, key)) by {
            if has_key(s.drop_first(), key) {
                let w = choose|i: int| 0 <= i < s.drop_first().len() && s.drop_first()[i].0 == key;
                assert(s[w + 1].0 == key);
            }
        }
        let d = s.drop_first();
        if has_key(s, key) {
            assert(s[key_index(s, key)] == d[key_index(d, key)]);
            assert forall|i: int| 0 <= i < key_index(s, key) implies s[i].0 != key by {
                if i > 0 {
                    assert(s[i] == d[i - 1]);
                }
            }
        }
    }
}

/// What one fold step does, entry by entry: a known key combines in place at
/// its first occurrence, a new key is appended.
pub proof fn lemma_merge_entry_shape(m: Seq<FieldPair>, key: Seq<char>, value: ValueView)
    ensures
        has_key(m, key) ==> merge_entry(m, key, value) == m.update(
            key_index(m, key),
            (key, combine_values(m[key_index(m, key)].1, value)),
        ),
        !has_key(m, key) ==> merge_entry(m, key, value) == m.push((key, value)),
{
    lemma_key_index(m, key);
    if has_key(m, key) {
        lemma_merge_entry_found(m, key, value, key_index(m, key));
        assert(m[key_index(m, key)].0 == key);
    } else {
        assert(forall|i: int| 0 <= i < m.len() ==> m[i].0 != key);
        lemma_merge_entry_absent(m, key, value);
    }
}

/// One fold step keeps the key sequence, except that a new key is appended.
proof fn lemma_merge_entry_keys(m: Seq<FieldPair>, key: Seq<char>, value: ValueView)
    ensures
        has_key(m, key) ==> keys_of(merge_entry(m, key, value)) =~= keys_of(m),
        !has_key(m, key) ==> keys_of(merge_entry(m, key, value)) =~= keys_of(m).push(key),
        forall|k2: Seq<char>| has_key(merge_entry(m, key, value), k2) <==> (has_key(m, k2) || k2
            == key),
{
    lemma_merge_entry_shape(m, key, value);
    lemma_key_index(m, key);
    let r = merge_entry(m, key, value);
    assert forall|k2: Seq<char>| has_key(r, k2) <==> (has_key(m, k2) || k2 == key) by {
        if has_key(r, k2) {
            let w = choose|i: int| 0 <= i < r.len() && r[i].0 == k2;
            if w < m.len() && r[w] == m[w] {
                assert(has_key(m, k2));
            }
        }
        if has_key(m, k2) {
            let w = choose|i: int| 0 <= i < m.len() && m[i].0 == k2;
            assert(r[w].0 == k2);
        }
        if k2 == key {
            if has_key(m, key) {
                assert(r[key_index(m, key)].0 == k2);
            } else {
                assert(r[m.len() as int].0 == k2);
            }
        }
    }
}

/// The merged mapping's keys are exactly the distinct input keys, in
/// first-occurrence order; in particular every key appears at most once, and a
/// key appears in the merged mapping exactly when some input pair carries it.
pub proof fn lemma_merged_fields_keys(fields: Seq<FieldPair>)
    ensures
        keys_of(merged_fields(fields)) == distinct_keys(fields),
        forall|i: int, j: int|
            0 <= i < j < merged_fields(fields).len() ==> merged_fields(fields)[i].0
                != merged_fields(fields)[j].0,
        forall|key: Seq<char>| has_key(merged_fields(fields), key) <==> has_key(fields, key),
    decreases fields.len(),
{
    if fields.len() == 0 {
        assert(keys_of(merged_fields(fields)) =~= distinct_keys(fields));
        assert forall|key: Seq<char>| !has_key(merged_fields(fields), key) && !has_key(
            fields,
            key,
        ) by {}
    } else {
        let s = fields.drop_last();
        let p = fields.last();
        let m = merged_fields(s);
        lemma_merged_fields_keys(s);
        lemma_merge_entry_keys(m, p.0, p.1);
        let r = merged_fields(fields);
        assert(r == merge_entry(m, p.0, p.1));
        assert forall|key: Seq<char>| has_key(fields, key) <==> (has_key(s, key) || key == p.0) by {
            if has_key(fields, key) {
                let w = choose|i: int| 0 <= i < fields.len() && fields[i].0 == key;
                if w < s.len() {
                    assert(s[w].0 == key);
                } else {
                    assert(key == p.0);
                }
            }
            if has_key(s, key) {
                let w = choose|i: int| 0 <= i < s.len() && s[i].0 == key;
                assert(fields[w].0 == key);
            }
            if key == p.0 {
                assert(fields[fields.len() - 1].0 == key);
            }
        }
        if has_key(m, p.0) {
            assert(keys_of(r) =~= keys_of(m));
            assert(has_key(s, p.0));
            assert(keys_of(r) == distinct_keys(fields));
        } else {
            assert(keys_of(r) =~= keys_of(m).push(p.0));
            assert(!has_key(s, p.0));
            assert(keys_of(r) == distinct_keys(fields));
        }
        assert forall|i: int, j: int| 0 <= i < j < r.len() implies r[i].0 != r[j].0 by {
            assert(r[i].0 == keys_of(r)[i]);
            assert(r[j].0 == keys_of(r)[j]);
            if j < m.len() {
                assert(keys_of(m)[i] == m[i].0 && keys_of(m)[j] == m[j].0);
            } else {
                assert(!has_key(m, p.0));
                assert(keys_of(m)[i] == m[i].0);
            }
        }
    }
}

/// When every value contributed under a key is an object, the merged value
/// under that key is an object too.
proof fn lemma_merged_value_object(fields: Seq<FieldPair>, key: Seq<char>)
    requires
        forall|n: int| 0 <= n < fields.len() && fields[n].0 == key ==> fields[n].1 is Object,
    ensures
        forall|j: int|
            0 <= j < merged_fields(fields).len() && merged_fields(fields)[j].0 == key
                ==> merged_fields(fields)[j].1 is Object,
    decreases fields.len(),
{
    if fields.len() > 0 {
        let s = fields.drop_last();
        let p = fields.last();
        let m = merged_fields(s);
        assert(forall|n: int| 0 <= n < s.len() && s[n].0 == key ==> s[n].1 is Object);
        lemma_merged_value_object(s, key);
        lemma_merge_entry_shape(m, p.0, p.1);
        lemma_key_index(m, p.0);
        let r = merged_fields(fields);
        assert forall|j: int| 0 <= j < r.len() && r[j].0 == key implies r[j].1 is Object by {
            if has_key(m, p.0) {
                let ki = key_index(m, p.0);
                if j == ki && p.0 == key {
                    assert(m[ki].1 is Object);
                    assert(p.1 is Object);
                } else if j == ki {
                    assert(r[j].0 == p.0);
                }
            } else {
                if j == m.len() {
                    assert(r[j] == (p.0, p.1));
                }
            }
        }
    }
}

/// Merging never drops a filter constraint: every entry of every object value
/// contributed under a field name is still present, under that same field
/// name, in the merged mapping's (unique) object for that name.  The one
/// proviso is that every value contributed under that name is an object; a
/// non-object contribution replaces what came before it.
pub proof fn lemma_merge_keeps_field_constraints(fields: Seq<FieldPair>, i: int, e: int)
    requires
        0 <= i < fields.len(),
        fields[i].1 is Object,
        0 <= e < fields[i].1->Object_0.len(),
        forall|n: int|
            0 <= n < fields.len() && fields[n].0 == fields[i].0 ==> fields[n].1 is Object,
    ensures
        has_key(merged_fields(fields), fields[i].0),
        forall|j: int|
            0 <= j < merged_fields(fields).len() && merged_fields(fields)[j].0 == fields[i].0
                ==> merged_fields(fields)[j].1 is Object
                    && merged_fields(fields)[j].1->Object_0.contains(fields[i].1->Object_0[e]),
    decreases fields.len(),
{
    let key = fields[i].0;
    let el = fields[i].1->Object_0[e];
    lemma_merged_fields_keys(fields);
    assert(has_key(fields, key)) by {
        assert(fields[i].0 == key);
    }
    let s = fields.drop_last();
    let p = fields.last();
    let m = merged_fields(s);
    let r = merged_fields(fields);
    lemma_merged_fields_keys(s);
    lemma_merge_entry_shape(m, p.0, p.1);
    lemma_key_index(m, p.0);
    if i < s.len() {
        assert(s[i] == fields[i]);
        assert(forall|n: int| 0 <= n < s.len() && s[n].0 == key ==> s[n].1 is Object);
        lemma_merge_keeps_field_constraints(s, i, e);
        assert(has_key(m, key));
        assert forall|j: int| 0 <= j < r.len() && r[j].0 == key implies r[j].1 is Object
            && r[j].1->Object_0.contains(el) by {
            if has_key(m, p.0) {
                let ki = key_index(m, p.0);
                if j == ki {
                    assert(r[j].0 == p.0);
                    assert(p.0 == key);
                    assert(m[ki].0 == key);
                    assert(m[ki].1 is Object && m[ki].1->Object_0.contains(el));
                    assert(p.1 is Object) by {
                        assert(fields[fields.len() - 1].0 == key);
                    }
                    let x = m[ki].1->Object_0;
                    let y = p.1->Object_0;
                    assert(r[j].1 == ValueView::Object(x + y));
                    let w = choose|w: int| 0 <= w < x.len() && x[w] == el;
                    assert((x + y)[w] == el);
                } else {
                    assert(r[j] == m[j]);
                }
            } else {
                if j == m.len() {
                    assert(r[j] == (p.0, p.1));
                    assert(has_key(m, key) && !has_key(m, p.0));
                    assert(false);
                } else {
                    assert(r[j] == m[j]);
                }
            }
        }
    } else {
        assert(i == fields.len() - 1);
        assert(p == fields[i]);
        assert(p.0 == key);
        assert forall|j: int| 0 <= j < r.len() && r[j].0 == key implies r[j].1 is Object
            && r[j].1->Object_0.contains(el) by {
            if has_key(m, key) {
                assert(has_key(s, key));
                assert(forall|n: int| 0 <= n < s.len() && s[n].0 == key ==> s[n].1 is Object);
                lemma_merged_value_object(s, key);
                let ki = key_index(m, key);
                if j == ki {
                    assert(m[ki].0 == key);
                    assert(m[ki].1 is Object);
                    let x = m[ki].1->Object_0;
                    let y = p.1->Object_0;
                    assert(r[j].1 == ValueView::Object(x + y));
                    assert((x + y)[x.len() + e] == el);
                } else {
                    assert(r[j] == m[j]);
                    assert(m[j].0 == key && m[ki].0 == key && j != ki);
                    assert(false);
                }
            } else {
                if j == m.len() {
                    assert(r[j] == (key, p.1));
                    assert(r[j].1->Object_0[e] == el);
                } else {
                    assert(r[j] == m[j]);
                    assert(has_key(m, key));
                    assert(false);
                }
            }
        }
    }
}

/// Combines two values contributed under one field name.
fn combine_entry(a: Value, b: Value) -> (r: Value)
    ensures
        r@ == combine_values(a@, b@),
{
    match (a, b) {
        (Value::Object(x), Value::Object(y)) => {
            let ghost xv = x@;
            let ghost yv = y@;
            let mut x = x;
            let mut y = y;
            x.append(&mut y);
            let r = Value::Object(x);
            proof {
                assert(a@->Object_0 =~= pair_seq_view(xv));
                assert(b@->Object_0 =~= pair_seq_view(yv));
                assert(r@->Object_0 =~= pair_seq_view(xv) + pair_seq_view(yv));
            }
            r
        },
        (Value::List(x), Value::List(y)) => {
            let ghost xv = x@;
            let ghost yv = y@;
            let mut x = x;
            let mut y = y;
            x.append(&mut y);
            let r = Value::List(x);
            proof {
                assert(a@->List_0 =~= value_seq_view(xv));
                assert(b@->List_0 =~= value_seq_view(yv));
                assert(r@->List_0 =~= value_seq_view(xv) + value_seq_view(yv));
            }
            r
        },
        (_, b) => b,
    }
}

/// Folding a pair whose key is already present combines it, in place, into
/// the first entry with that key; every other entry is untouched.
proof fn lemma_merge_entry_found(acc: Seq<FieldPair>, key: Seq<char>, value: ValueView, j: int)
    requires
        0 <= j < acc.len(),
        acc[j].0 == key,
        forall|i: int| 0 <= i < j ==> acc[i].0 != key,
    ensures
        merge_entry(acc, key, value) =~= acc.update(j, (key, combine_values(acc[j].1, value))),
    decreases acc.len(),
{
    if j == 0 {
        assert(merge_entry(acc, key, value) =~= acc.update(0, (key, combine_values(acc[0].1, value))));
    } else {
        lemma_merge_entry_found(acc.drop_first(), key, value, j - 1);
        assert(merge_entry(acc, key, value) =~= acc.update(j, (key, combine_values(acc[j].1, value))));
    }
}

/// Folding a pair whose key is new appends it.
proof fn lemma_merge_entry_absent(acc: Seq<FieldPair>, key: Seq<char>, value: ValueView)
    requires
        forall|i: int| 0 <= i < acc.len() ==> acc[i].0 != key,
    ensures
        merge_entry(acc, key, value) =~= acc.push((key, value)),
    decreases acc.len(),
{
    if acc.len() > 0 {
        lemma_merge_entry_absent(acc.drop_first(), key, value);
        assert(merge_entry(acc, key, value) =~= acc.push((key, value)));
    }
}

/// Folds one serialized pair into the accumulated argument entries.
fn merge_entry_exec(acc: &mut Vec<(String, Value)>, name: String, value: Value)
    ensures
        pair_seq_view(final(acc)@) == merge_entry(pair_seq_view(old(acc)@), name@, value_view(value)),
{
    let ghost acc0 = pair_seq_view(old(acc)@);
    let n = acc.len();
    let mut j: usize = 0;
    while j < n
        invariant
            n == acc.len(),
            j <= n,
            *acc == *old(acc),
            acc0 == pair_seq_view(acc@),
            forall|i: int| 0 <= i < j ==> acc0[i].0 != name@,
        decreases n - j,
    {
        proof {
            assert(acc0[j as int] == (acc@[j as int].0@, value_view(acc@[j as int].1)));
        }
        if acc[j].0 == name {
            let (key, existing) = acc.remove(j);
            let combined = combine_entry(existing, value);
            acc.insert(j, (key, combined));
            proof {
                lemma_merge_entry_found(acc0, name@, value_view(value), j as int);
                assert(pair_seq_view(acc@) =~= acc0.update(
                    j as int,
                    (name@, combine_values(acc0[j as int].1, value_view(value))),
                ));
            }
            return ;
        }
        j += 1;
    }
    acc.push((name, value));
    proof {
        lemma_merge_entry_absent(acc0, name@, value_view(value));
        assert(pair_seq_view(acc@) =~= acc0.push((name@, value_view(value))));
    }
}

/// Normalizes an ordered pair sequence into a mapping with unique keys,
/// combining the values of duplicate keys and preserving the first-occurrence
/// order of distinct keys.
pub fn merge_fields(fields: Vec<(String, Value)>) -> (r: Vec<(String, Value)>)
    ensures
        pair_seq_view(r@) == merged_fields(pair_seq_view(fields@)),
{
    let ghost all = pair_seq_view(fields@);
    let mut fields = fields;
    let mut acc: Vec<(String, Value)> = Vec::new();
    proof {
        assert(pair_seq_view(fields@) =~= all.skip(0));
        assert(pair_seq_view(acc@) =~= merged_fields(all.take(0)));
    }
    while fields.len() > 0
        invariant
            fields@.len() <= all.len(),
            pair_seq_view(fields@) == all.skip(all.len() - fields@.len()),
            pair_seq_view(acc@) == merged_fields(all.take(all.len() - fields@.len())),
        decreases fields@.len(),
    {
        let ghost k = all.len() - fields@.len();
        let ghost pre = fields@;
        let (name, value) = fields.remove(0);
        proof {
            assert(pair_seq_view(pre)[0] == (pre[0].0@, value_view(pre[0].1)));
            assert((name@, value_view(value)) == all[k]) by {
                assert(all.skip(k)[0] == all[k]);
            }
            assert(fields@ =~= pre.subrange(1, pre.len() as int));
            assert forall|i: int| 0 <= i < fields@.len() implies pair_seq_view(fields@)[i] == all.skip(
                k + 1,
            )[i] by {
                assert(fields@[i] == pre[i + 1]);
                assert(pair_seq_view(pre)[i + 1] == all.skip(k)[i + 1]);
                assert(all.skip(k)[i + 1] == all[k + 1 + i]);
                assert(all.skip(k + 1)[i] == all[k + 1 + i]);
            }
            assert(pair_seq_view(fields@) =~= all.skip(k + 1));
        }
        merge_entry_exec(&mut acc, name, value);
        proof {
            assert(all.take(k + 1).drop_last() =~= all.take(k));
            assert(all.take(k + 1).last() == all[k]);
            assert(pair_seq_view(acc@) == merged_fields(all.take(k + 1)));
        }
    }
    proof {
        assert(all.take(all.len() as int) =~= all);
    }
    acc
}

} // verus!
